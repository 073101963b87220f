//! Encoding: from a record to a JSON object, field by field in the order of
//! the schema. A value that counts as absent is left out where its field has
//! a default and the policy is the nullable one, and is written as the wire's
//! mark of absence otherwise.

use crate::ch_date_format::{date_text, Date, Ymd};
use crate::ch_u8_format::small_int_text;
use crate::json::{
    fields_of, insert, json_of, json_written, jsons_of, list_value, new_map, no_fields,
    object_value, render, text_value, Json,
};
use crate::optionality::{Optionality, Sentinel};
use crate::reader::{Fields, JsonMap};
use crate::record::{
    Accounts, AccountsView, Address, AddressView, Company, CompanyView, LimitedPartnership,
    Mortgages, PreviousName, PreviousNameView, Returns, ReturnsView, Revision, SICcodes,
    SICcodesView,
};
use crate::schema::Field;
use vstd::prelude::*;

verus! {

/// The object with a string under the field's wire name.
pub open spec fn with_text(obj: Fields, field: Field, value: Seq<char>) -> Fields {
    obj.insert(field.wire(), Json::Text(value))
}

/// The object with a small integer under the field's wire name.
pub open spec fn with_small_int(obj: Fields, field: Field, value: u8) -> Fields {
    with_text(obj, field, small_int_text(value))
}

/// The object with a date under the field's wire name.
pub open spec fn with_date(obj: Fields, field: Field, value: Ymd) -> Fields {
    with_text(obj, field, date_text(value))
}

/// The object with what a field is written as under the field's wire name;
/// the object as it is where the field is left out.
pub open spec fn put(obj: Fields, field: Field, written: Option<Json>) -> Fields {
    match written {
        Some(json) => obj.insert(field.wire(), json),
        None => obj,
    }
}

/// What a date that may be absent is written as. An absent date is left out
/// where the policy is the nullable one and the field has a default, and is
/// written as the empty string otherwise.
pub open spec fn optional_date_json(
    field: Field,
    value: Option<Ymd>,
    policy: Optionality,
) -> Option<Json> {
    if policy.holds_empty(value, Ymd::epoch()) {
        if policy == Optionality::Nullable && field.defaulted() {
            None
        } else {
            Some(Json::Text(Seq::empty()))
        }
    } else {
        Some(Json::Text(date_text(value->0)))
    }
}

/// What a string that may be absent is written as: nothing where it is absent.
pub open spec fn optional_text_json(value: Option<Seq<char>>) -> Option<Json> {
    match value {
        Some(text) => Some(Json::Text(text)),
        None => None,
    }
}

/// The object with a date that may be absent.
pub open spec fn with_optional_date(
    obj: Fields,
    field: Field,
    value: Option<Ymd>,
    policy: Optionality,
) -> Fields {
    put(obj, field, optional_date_json(field, value, policy))
}

/// The object with a string that may be absent.
pub open spec fn with_optional_text(obj: Fields, field: Field, value: Option<Seq<char>>) -> Fields {
    put(obj, field, optional_text_json(value))
}

/// The documents of a list of strings.
pub open spec fn text_items(texts: Seq<Seq<char>>) -> Seq<Json> {
    texts.map_values(|text: Seq<char>| Json::Text(text))
}

/// The object with a list of strings under the field's wire name.
pub open spec fn with_text_list(obj: Fields, field: Field, value: Seq<Seq<char>>) -> Fields {
    obj.insert(field.wire(), Json::List(text_items(value)))
}

/// The object with a nested entity under the field's wire name.
pub open spec fn with_entity(obj: Fields, field: Field, inner: Fields) -> Fields {
    obj.insert(field.wire(), Json::Object(inner))
}

/// What a nested entity that may be absent is written as. An absent entity
/// is left out under the nullable policy and written as its sentinel under
/// the other.
pub open spec fn optional_entity_json(
    value: Option<Fields>,
    policy: Optionality,
    sentinel: Fields,
) -> Option<Json> {
    match value {
        Some(inner) => Some(Json::Object(inner)),
        None => match policy {
            Optionality::Nullable => None,
            Optionality::Sentinel => Some(Json::Object(sentinel)),
        },
    }
}

/// The object with a nested entity that may be absent.
pub open spec fn with_optional_entity(
    obj: Fields,
    field: Field,
    value: Option<Fields>,
    policy: Optionality,
    sentinel: Fields,
) -> Fields {
    put(obj, field, optional_entity_json(value, policy, sentinel))
}

/// Writes a string under the field's wire name.
pub fn write_text(obj: &mut JsonMap, field: Field, value: &str)
    ensures
        fields_of(*final(obj)) == with_text(fields_of(*old(obj)), field, value@),
{
    insert(obj, field.wire_name(), text_value(value.to_owned()));
}

/// Writes a small integer under the field's wire name.
pub fn write_small_int(obj: &mut JsonMap, field: Field, value: u8)
    ensures
        fields_of(*final(obj)) == with_small_int(fields_of(*old(obj)), field, value),
{
    insert(obj, field.wire_name(), text_value(crate::ch_u8_format::serialize(&value)));
}

/// Writes a date under the field's wire name.
pub fn write_date(obj: &mut JsonMap, field: Field, value: &Date)
    ensures
        fields_of(*final(obj)) == with_date(fields_of(*old(obj)), field, value@),
{
    insert(obj, field.wire_name(), text_value(crate::ch_date_format::serialize(value)));
}

/// Writes a date that may be absent.
pub fn write_optional_date(
    obj: &mut JsonMap,
    field: Field,
    value: &Option<Date>,
    policy: Optionality,
)
    ensures
        fields_of(*final(obj)) == with_optional_date(
            fields_of(*old(obj)),
            field,
            value.deep_view(),
            policy,
        ),
{
    if policy.is_empty::<Date>(value) {
        let leave_out = match policy {
            Optionality::Nullable => field.is_defaulted(),
            Optionality::Sentinel => false,
        };
        if !leave_out {
            insert(obj, field.wire_name(), text_value(String::new()));
        }
    } else {
        match value {
            Some(date) => write_date(obj, field, date),
            None => {},
        }
    }
}

/// Writes a string that is left out where it is absent.
pub fn write_optional_text(obj: &mut JsonMap, field: Field, value: &Option<String>)
    ensures
        fields_of(*final(obj)) == with_optional_text(
            fields_of(*old(obj)),
            field,
            value.deep_view(),
        ),
{
    match value {
        Some(text) => write_text(obj, field, text.as_str()),
        None => {},
    }
}

/// Writes a list of strings under the field's wire name.
pub fn write_text_list(obj: &mut JsonMap, field: Field, value: &Vec<String>)
    ensures
        fields_of(*final(obj)) == with_text_list(fields_of(*old(obj)), field, value.deep_view()),
{
    let mut items: Vec<serde_json::Value> = Vec::new();
    let mut i: usize = 0;
    while i < value.len()
        invariant
            i <= value.len(),
            items.len() == i,
            forall|j: int| 0 <= j < i ==> json_of(#[trigger] items@[j]) == Json::Text(value@[j]@),
        decreases value.len() - i,
    {
        items.push(text_value(value[i].clone()));
        i = i + 1;
    }
    assert(jsons_of(items@) =~= text_items(value.deep_view()));
    insert(obj, field.wire_name(), list_value(items));
}

/// Writes a nested entity under the field's wire name.
pub fn write_entity(obj: &mut JsonMap, field: Field, inner: JsonMap)
    ensures
        fields_of(*final(obj)) == with_entity(fields_of(*old(obj)), field, fields_of(inner)),
{
    insert(obj, field.wire_name(), object_value(inner));
}

impl Address {
    /// The object that an address is written as.
    pub open spec fn to_fields(address: AddressView) -> Fields {
        let obj = with_text(no_fields(), Field::CareOf, address.care_of);
        let obj = with_text(obj, Field::PoBox, address.po_box);
        let obj = with_text(obj, Field::AddressLine1, address.address_line1);
        let obj = with_text(obj, Field::AddressLine2, address.address_line2);
        let obj = with_text(obj, Field::PostTown, address.post_town);
        let obj = with_text(obj, Field::County, address.county);
        let obj = with_text(obj, Field::Country, address.country);
        with_text(obj, Field::Postcode, address.postcode)
    }

    /// Encodes the address as an object.
    pub fn encode(&self) -> (obj: JsonMap)
        ensures
            fields_of(obj) == Address::to_fields(self@),
    {
        let mut obj = new_map();
        write_text(&mut obj, Field::CareOf, self.care_of.as_str());
        write_text(&mut obj, Field::PoBox, self.po_box.as_str());
        write_text(&mut obj, Field::AddressLine1, self.address_line1.as_str());
        write_text(&mut obj, Field::AddressLine2, self.address_line2.as_str());
        write_text(&mut obj, Field::PostTown, self.post_town.as_str());
        write_text(&mut obj, Field::County, self.county.as_str());
        write_text(&mut obj, Field::Country, self.country.as_str());
        write_text(&mut obj, Field::Postcode, self.postcode.as_str());
        obj
    }
}

impl PreviousName {
    /// The object that a former name is written as under a revision.
    pub open spec fn to_fields(name: PreviousNameView, revision: Revision) -> Fields {
        let obj = with_optional_date(
            no_fields(),
            Field::ChangeDate,
            name.date,
            revision.policy_of(Field::ChangeDate),
        );
        with_text(obj, Field::FormerName, name.name)
    }

    /// The objects that a list of former names is written as.
    pub open spec fn to_list(names: Seq<PreviousNameView>, revision: Revision) -> Seq<Json> {
        names.map_values(
            |name: PreviousNameView| Json::Object(PreviousName::to_fields(name, revision)),
        )
    }

    /// Encodes the former name as an object.
    pub fn encode(&self, revision: Revision) -> (obj: JsonMap)
        ensures
            fields_of(obj) == PreviousName::to_fields(self@, revision),
    {
        let mut obj = new_map();
        write_optional_date(
            &mut obj,
            Field::ChangeDate,
            &self.date,
            revision.policy(Field::ChangeDate),
        );
        write_text(&mut obj, Field::FormerName, self.name.as_str());
        obj
    }

    /// Encodes a list of former names as the items of an array.
    pub fn encode_list(names: &Vec<PreviousName>, revision: Revision) -> (items: Vec<
        serde_json::Value,
    >)
        ensures
            jsons_of(items@) == PreviousName::to_list(names.deep_view(), revision),
    {
        let mut items: Vec<serde_json::Value> = Vec::new();
        let mut i: usize = 0;
        while i < names.len()
            invariant
                i <= names.len(),
                items.len() == i,
                forall|j: int|
                    0 <= j < i ==> json_of(#[trigger] items@[j]) == Json::Object(
                        PreviousName::to_fields(names@[j]@, revision),
                    ),
            decreases names.len() - i,
        {
            items.push(object_value(names[i].encode(revision)));
            i = i + 1;
        }
        assert(jsons_of(items@) =~= PreviousName::to_list(names.deep_view(), revision));
        items
    }
}

impl Accounts {
    /// The object that an accounts summary is written as under a revision.
    pub open spec fn to_fields(accounts: AccountsView, revision: Revision) -> Fields {
        let obj = with_small_int(no_fields(), Field::AccountRefDay, accounts.ref_day);
        let obj = with_small_int(obj, Field::AccountRefMonth, accounts.ref_month);
        let obj = with_optional_date(
            obj,
            Field::AccountsNextDueDate,
            accounts.next_due_date,
            revision.policy_of(Field::AccountsNextDueDate),
        );
        let obj = with_optional_date(
            obj,
            Field::AccountsLastMadeUpDate,
            accounts.last_made_up_date,
            revision.policy_of(Field::AccountsLastMadeUpDate),
        );
        with_optional_text(obj, Field::AccountCategory, accounts.category)
    }

    /// Encodes the accounts summary as an object.
    pub fn encode(&self, revision: Revision) -> (obj: JsonMap)
        ensures
            fields_of(obj) == Accounts::to_fields(self@, revision),
    {
        let mut obj = new_map();
        write_small_int(&mut obj, Field::AccountRefDay, self.ref_day);
        write_small_int(&mut obj, Field::AccountRefMonth, self.ref_month);
        write_optional_date(
            &mut obj,
            Field::AccountsNextDueDate,
            &self.next_due_date,
            revision.policy(Field::AccountsNextDueDate),
        );
        write_optional_date(
            &mut obj,
            Field::AccountsLastMadeUpDate,
            &self.last_made_up_date,
            revision.policy(Field::AccountsLastMadeUpDate),
        );
        write_optional_text(&mut obj, Field::AccountCategory, &self.category);
        obj
    }
}

impl Returns {
    /// The object that a returns summary is written as under a revision.
    pub open spec fn to_fields(summary: ReturnsView, revision: Revision) -> Fields {
        let obj = with_date(no_fields(), Field::ReturnsNextDueDate, summary.next_due_date);
        with_optional_date(
            obj,
            Field::ReturnsLastMadeUpDate,
            summary.last_made_up_date,
            revision.policy_of(Field::ReturnsLastMadeUpDate),
        )
    }

    /// Encodes the returns summary as an object.
    pub fn encode(&self, revision: Revision) -> (obj: JsonMap)
        ensures
            fields_of(obj) == Returns::to_fields(self@, revision),
    {
        let mut obj = new_map();
        write_date(&mut obj, Field::ReturnsNextDueDate, &self.next_due_date);
        write_optional_date(
            &mut obj,
            Field::ReturnsLastMadeUpDate,
            &self.last_made_up_date,
            revision.policy(Field::ReturnsLastMadeUpDate),
        );
        obj
    }
}

impl Mortgages {
    /// The object that the mortgage counters are written as.
    pub open spec fn to_fields(counters: Mortgages) -> Fields {
        let obj = with_small_int(no_fields(), Field::NumMortCharges, counters.num_charges);
        let obj = with_small_int(obj, Field::NumMortOutstanding, counters.num_outstanding);
        let obj = with_small_int(obj, Field::NumMortPartSatisfied, counters.num_part_satisfied);
        with_small_int(obj, Field::NumMortSatisfied, counters.num_satisfied)
    }

    /// Encodes the mortgage counters as an object.
    pub fn encode(&self) -> (obj: JsonMap)
        ensures
            fields_of(obj) == Mortgages::to_fields(*self),
    {
        let mut obj = new_map();
        write_small_int(&mut obj, Field::NumMortCharges, self.num_charges);
        write_small_int(&mut obj, Field::NumMortOutstanding, self.num_outstanding);
        write_small_int(&mut obj, Field::NumMortPartSatisfied, self.num_part_satisfied);
        write_small_int(&mut obj, Field::NumMortSatisfied, self.num_satisfied);
        obj
    }
}

impl SICcodes {
    /// The object that a SIC classification is written as.
    pub open spec fn to_fields(codes: SICcodesView) -> Fields {
        with_text_list(no_fields(), Field::SicText, codes.text)
    }

    /// Encodes the SIC classification as an object.
    pub fn encode(&self) -> (obj: JsonMap)
        ensures
            fields_of(obj) == SICcodes::to_fields(self@),
    {
        let mut obj = new_map();
        write_text_list(&mut obj, Field::SicText, &self.text);
        obj
    }
}

impl LimitedPartnership {
    /// The object that the partnership counters are written as.
    pub open spec fn to_fields(counters: LimitedPartnership) -> Fields {
        let obj = with_small_int(no_fields(), Field::NumGenPartners, counters.num_gen_partners);
        with_small_int(obj, Field::NumLimPartners, counters.num_lim_partners)
    }

    /// Encodes the partnership counters as an object.
    pub fn encode(&self) -> (obj: JsonMap)
        ensures
            fields_of(obj) == LimitedPartnership::to_fields(*self),
    {
        let mut obj = new_map();
        write_small_int(&mut obj, Field::NumGenPartners, self.num_gen_partners);
        write_small_int(&mut obj, Field::NumLimPartners, self.num_lim_partners);
        obj
    }
}

/// The objects of the counters that may be absent.
pub open spec fn mortgages_fields(value: Option<Mortgages>) -> Option<Fields> {
    match value {
        Some(counters) => Some(Mortgages::to_fields(counters)),
        None => None,
    }
}

/// The object of a SIC classification that may be absent.
pub open spec fn sic_codes_fields(value: Option<SICcodesView>) -> Option<Fields> {
    match value {
        Some(codes) => Some(SICcodes::to_fields(codes)),
        None => None,
    }
}

/// The object of partnership counters that may be absent.
pub open spec fn partnership_fields(value: Option<LimitedPartnership>) -> Option<Fields> {
    match value {
        Some(counters) => Some(LimitedPartnership::to_fields(counters)),
        None => None,
    }
}

impl Company {
    /// The object that a company is written as under a revision.
    pub open spec fn to_fields(company: CompanyView, revision: Revision) -> Fields {
        let obj = with_text(no_fields(), Field::CompanyName, company.name);
        let obj = with_text(obj, Field::CompanyNumber, company.number);
        let obj = with_entity(obj, Field::RegAddress, Address::to_fields(company.reg_address));
        let obj = with_text(obj, Field::CompanyCategory, company.category);
        let obj = with_text(obj, Field::CompanyStatus, company.status);
        let obj = with_text(obj, Field::CountryOfOrigin, company.country_of_origin);
        let obj = with_optional_date(
            obj,
            Field::IncorporationDate,
            company.incorporation_date,
            revision.policy_of(Field::IncorporationDate),
        );
        let obj = with_optional_date(
            obj,
            Field::RegistrationDate,
            company.registration_date,
            revision.policy_of(Field::RegistrationDate),
        );
        let obj = with_optional_date(
            obj,
            Field::DissolutionDate,
            company.dissolution_date,
            revision.policy_of(Field::DissolutionDate),
        );
        let obj = obj.insert(
            Field::PreviousNames.wire(),
            Json::List(PreviousName::to_list(company.previous_name, revision)),
        );
        let obj = with_entity(
            obj,
            Field::Accounts,
            Accounts::to_fields(company.accounts, revision),
        );
        let obj = with_entity(obj, Field::Returns, Returns::to_fields(company.returns, revision));
        let obj = with_optional_entity(
            obj,
            Field::Mortgages,
            mortgages_fields(company.mortgages),
            revision.policy_of(Field::Mortgages),
            Mortgages::to_fields(Mortgages::sentinel()),
        );
        let obj = with_optional_entity(
            obj,
            Field::SicCodes,
            sic_codes_fields(company.sic_codes),
            revision.policy_of(Field::SicCodes),
            SICcodes::to_fields(SICcodes::sentinel()),
        );
        with_optional_entity(
            obj,
            Field::LimitedPartnerships,
            partnership_fields(company.limited_partnership),
            revision.policy_of(Field::LimitedPartnerships),
            LimitedPartnership::to_fields(LimitedPartnership::sentinel()),
        )
    }

    /// The response envelope around a company: an object with the record
    /// under its key for the primary topic.
    pub open spec fn to_document(company: CompanyView, revision: Revision) -> Json {
        Json::Object(
            with_entity(no_fields(), Field::PrimaryTopic, Company::to_fields(company, revision)),
        )
    }

    /// Encodes the company as an object.
    pub fn encode(&self, revision: Revision) -> (obj: JsonMap)
        ensures
            fields_of(obj) == Company::to_fields(self@, revision),
    {
        let mut obj = new_map();
        write_text(&mut obj, Field::CompanyName, self.name.as_str());
        write_text(&mut obj, Field::CompanyNumber, self.number.as_str());
        write_entity(&mut obj, Field::RegAddress, self.reg_address.encode());
        write_text(&mut obj, Field::CompanyCategory, self.category.as_str());
        write_text(&mut obj, Field::CompanyStatus, self.status.as_str());
        write_text(&mut obj, Field::CountryOfOrigin, self.country_of_origin.as_str());
        write_optional_date(
            &mut obj,
            Field::IncorporationDate,
            &self.incorporation_date,
            revision.policy(Field::IncorporationDate),
        );
        write_optional_date(
            &mut obj,
            Field::RegistrationDate,
            &self.registration_date,
            revision.policy(Field::RegistrationDate),
        );
        write_optional_date(
            &mut obj,
            Field::DissolutionDate,
            &self.dissolution_date,
            revision.policy(Field::DissolutionDate),
        );
        insert(
            &mut obj,
            Field::PreviousNames.wire_name(),
            list_value(PreviousName::encode_list(&self.previous_name, revision)),
        );
        write_entity(&mut obj, Field::Accounts, self.accounts.encode(revision));
        write_entity(&mut obj, Field::Returns, self.returns.encode(revision));
        match &self.mortgages {
            Some(counters) => write_entity(&mut obj, Field::Mortgages, counters.encode()),
            None => match revision.policy(Field::Mortgages) {
                Optionality::Nullable => {},
                Optionality::Sentinel => write_entity(
                    &mut obj,
                    Field::Mortgages,
                    Mortgages::empty_value().encode(),
                ),
            },
        }
        match &self.sic_codes {
            Some(codes) => write_entity(&mut obj, Field::SicCodes, codes.encode()),
            None => match revision.policy(Field::SicCodes) {
                Optionality::Nullable => {},
                Optionality::Sentinel => write_entity(
                    &mut obj,
                    Field::SicCodes,
                    SICcodes::empty_value().encode(),
                ),
            },
        }
        match &self.limited_partnership {
            Some(counters) => write_entity(&mut obj, Field::LimitedPartnerships, counters.encode()),
            None => match revision.policy(Field::LimitedPartnerships) {
                Optionality::Nullable => {},
                Optionality::Sentinel => write_entity(
                    &mut obj,
                    Field::LimitedPartnerships,
                    LimitedPartnership::empty_value().encode(),
                ),
            },
        }
        obj
    }

    /// Encodes the company inside its response envelope.
    pub fn to_value(&self, revision: Revision) -> (document: serde_json::Value)
        ensures
            json_of(document) == Company::to_document(self@, revision),
    {
        let mut envelope = new_map();
        write_entity(&mut envelope, Field::PrimaryTopic, self.encode(revision));
        object_value(envelope)
    }

    /// Writes the company, inside its response envelope, as the bytes of a
    /// JSON text. What is written is what `serde_json` writes for the
    /// envelope; where it writes nothing, nothing is returned.
    pub fn to_bytes(&self, revision: Revision) -> (r: Option<Vec<u8>>)
        ensures
            exists|document: serde_json::Value|
                json_of(document) == Company::to_document(self@, revision) && (match r {
                    Some(bytes) => #[trigger] json_written(document) == Some(bytes@),
                    None => json_written(document) is None,
                }),
    {
        let document = self.to_value(revision);
        match render(&document) {
            Ok(bytes) => Some(bytes),
            Err(_) => None,
        }
    }
}

} // verus!
