//! Decoding what was encoded gives the record back: for every field, for
//! every entity, and for the record inside its envelope.

use crate::ch_date_format::{date_text, lemma_date_round_trip, Ymd};
use crate::ch_date_format_option::lemma_optional_date_round_trip;
use crate::ch_u8_format::{lemma_small_int_round_trip, small_int_text};
use crate::decimal::lemma_padded_text;
use crate::decode::{optional_entity, required_entity};
use crate::encode::{
    mortgages_fields, optional_date_json, optional_entity_json, optional_text_json,
    partnership_fields, put, sic_codes_fields, text_items, with_date, with_optional_date,
    with_optional_text, with_small_int, with_text,
};
use crate::json::{no_fields, Json};
use crate::optionality::{Optionality, Sentinel};
use crate::reader::{
    all_text, date_field, entity_field, entity_list_field, lookup, optional_date_field,
    optional_entity_field, optional_text_field, small_int_field, text_field, text_list_field,
    texts_of, Fields,
};
use crate::record::{
    Accounts, AccountsView, Address, AddressView, Company, CompanyView, LimitedPartnership,
    Mortgages, PreviousName, PreviousNameView, Returns, ReturnsView, Revision, SICcodes,
    SICcodesView,
};
use crate::schema::{lemma_wire_names_differ, DecodeError, Field};
use vstd::prelude::*;

verus! {

/// The date, if there is one, is a day of the calendar.
pub open spec fn is_calendar_date_or_none(date: Option<Ymd>) -> bool {
    date matches Some(day) ==> day.is_calendar_date()
}

/// The value can be told from an absent one after encoding: under the
/// sentinel policy, which writes an absent value as the sentinel, it is
/// there.
pub open spec fn survives<V>(value: Option<V>, policy: Optionality) -> bool {
    policy == Optionality::Sentinel ==> value is Some
}

/// A small integer is read back from what it was written as.
pub proof fn lemma_reads_small_int(obj: Fields, field: Field, value: u8)
    requires
        lookup(obj, field) == Some(Json::Text(small_int_text(value))),
    ensures
        small_int_field(obj, field) == Ok::<u8, DecodeError>(value),
{
    lemma_small_int_round_trip(value, field.defaulted());
}

/// A date is read back from what it was written as.
pub proof fn lemma_reads_date(obj: Fields, field: Field, value: Ymd)
    requires
        value.is_calendar_date(),
        lookup(obj, field) == Some(Json::Text(date_text(value))),
    ensures
        date_field(obj, field) == Ok::<Ymd, DecodeError>(value),
{
    lemma_date_round_trip(value);
}

/// A date that may be absent is read back from what it was written as, or
/// from its key being left out, where the policy can tell the value from an
/// absent one.
pub proof fn lemma_reads_optional_date(
    obj: Fields,
    field: Field,
    value: Option<Ymd>,
    policy: Optionality,
)
    requires
        is_calendar_date_or_none(value),
        survives(value, policy),
        lookup(obj, field) == optional_date_json(field, value, policy),
    ensures
        optional_date_field(obj, field, policy) == Ok::<Option<Ymd>, DecodeError>(value),
{
    lemma_optional_date_round_trip(value);
    lemma_optional_date_round_trip(None);
    if let Some(day) = value {
        lemma_date_round_trip(day);
        lemma_padded_text(day.day as nat, 2);
    }
}

/// A string that may be absent is read back from what it was written as, or
/// from its key being left out.
pub proof fn lemma_reads_optional_text(obj: Fields, field: Field, value: Option<Seq<char>>)
    requires
        field.defaulted(),
        lookup(obj, field) == optional_text_json(value),
    ensures
        optional_text_field(obj, field) == Ok::<Option<Seq<char>>, DecodeError>(value),
{
}

/// A list of strings is read back from what it was written as.
pub proof fn lemma_reads_text_list(obj: Fields, field: Field, value: Seq<Seq<char>>)
    requires
        lookup(obj, field) == Some(Json::List(text_items(value))),
    ensures
        text_list_field(obj, field) == Ok::<Seq<Seq<char>>, DecodeError>(value),
{
    assert(all_text(text_items(value)));
    assert(texts_of(text_items(value)) =~= value);
}

/// The second object is the first with the field written, or left out.
pub open spec fn writes_only(before: Fields, after: Fields, field: Field) -> bool {
    exists|written: Option<Json>| after == #[trigger] put(before, field, written)
}

/// Writing a field leaves what stands under the entity's other fields.
pub proof fn lemma_write_keeps_other_fields(before: Fields, after: Fields, field: Field)
    requires
        writes_only(before, after, field),
    ensures
        forall|other: Field|
            other.owner() == field.owner() && other != field ==> #[trigger] lookup(after, other)
                == lookup(before, other),
{
    assert forall|other: Field|
        other.owner() == field.owner() && other != field implies #[trigger] lookup(after, other)
        == lookup(before, other) by {
        lemma_wire_names_differ(other, field);
    }
}

/// What is written under a field stands there; a field that is left out of
/// an object without its key is not there.
pub proof fn lemma_written_stands(obj: Fields, field: Field, written: Option<Json>)
    requires
        written is None ==> lookup(obj, field) is None,
    ensures
        lookup(put(obj, field, written), field) == written,
        writes_only(obj, put(obj, field, written), field),
{
}

impl AddressView {
    /// An address that was encoded decodes to itself.
    pub proof fn lemma_round_trip(self)
        ensures
            Address::of_fields(Address::to_fields(self)) == Ok::<AddressView, DecodeError>(self),
    {
        let o0 = no_fields();
        let o1 = with_text(o0, Field::CareOf, self.care_of);
        let o2 = with_text(o1, Field::PoBox, self.po_box);
        let o3 = with_text(o2, Field::AddressLine1, self.address_line1);
        let o4 = with_text(o3, Field::AddressLine2, self.address_line2);
        let o5 = with_text(o4, Field::PostTown, self.post_town);
        let o6 = with_text(o5, Field::County, self.county);
        let o7 = with_text(o6, Field::Country, self.country);
        let o8 = with_text(o7, Field::Postcode, self.postcode);
        lemma_writes_text(o0, Field::CareOf, self.care_of);
        lemma_writes_text(o1, Field::PoBox, self.po_box);
        lemma_writes_text(o2, Field::AddressLine1, self.address_line1);
        lemma_writes_text(o3, Field::AddressLine2, self.address_line2);
        lemma_writes_text(o4, Field::PostTown, self.post_town);
        lemma_writes_text(o5, Field::County, self.county);
        lemma_writes_text(o6, Field::Country, self.country);
        lemma_writes_text(o7, Field::Postcode, self.postcode);
        assert(lookup(o8, Field::CareOf) == lookup(o1, Field::CareOf));
        assert(lookup(o8, Field::PoBox) == lookup(o2, Field::PoBox));
        assert(lookup(o8, Field::AddressLine1) == lookup(o3, Field::AddressLine1));
        assert(lookup(o8, Field::AddressLine2) == lookup(o4, Field::AddressLine2));
        assert(lookup(o8, Field::PostTown) == lookup(o5, Field::PostTown));
        assert(lookup(o8, Field::County) == lookup(o6, Field::County));
        assert(lookup(o8, Field::Country) == lookup(o7, Field::Country));
    }
}

/// Writing a string puts it under its field and leaves the entity's other
/// fields.
pub proof fn lemma_writes_text(obj: Fields, field: Field, value: Seq<char>)
    ensures
        lookup(with_text(obj, field, value), field) == Some(Json::Text(value)),
        forall|other: Field|
            other.owner() == field.owner() && other != field ==> #[trigger] lookup(
                with_text(obj, field, value),
                other,
            ) == lookup(obj, other),
{
    assert(with_text(obj, field, value) == put(obj, field, Some(Json::Text(value))));
    lemma_write_keeps_other_fields(obj, with_text(obj, field, value), field);
}

/// Writing a field puts what it is written as under its key and leaves the
/// entity's other fields. A field that is left out must not have been
/// there before.
pub proof fn lemma_writes(obj: Fields, field: Field, written: Option<Json>)
    requires
        written is None ==> lookup(obj, field) is None,
    ensures
        lookup(put(obj, field, written), field) == written,
        forall|other: Field|
            other.owner() == field.owner() && other != field ==> #[trigger] lookup(
                put(obj, field, written),
                other,
            ) == lookup(obj, other),
{
    lemma_written_stands(obj, field, written);
    lemma_write_keeps_other_fields(obj, put(obj, field, written), field);
}

impl Mortgages {
    /// Mortgage counters that were encoded decode to themselves.
    pub proof fn lemma_round_trip(self)
        ensures
            Mortgages::of_fields(Mortgages::to_fields(self)) == Ok::<Mortgages, DecodeError>(self),
    {
        let o0 = no_fields();
        let o1 = with_small_int(o0, Field::NumMortCharges, self.num_charges);
        let o2 = with_small_int(o1, Field::NumMortOutstanding, self.num_outstanding);
        let o3 = with_small_int(o2, Field::NumMortPartSatisfied, self.num_part_satisfied);
        let o4 = with_small_int(o3, Field::NumMortSatisfied, self.num_satisfied);
        lemma_writes_text(o0, Field::NumMortCharges, small_int_text(self.num_charges));
        lemma_writes_text(o1, Field::NumMortOutstanding, small_int_text(self.num_outstanding));
        lemma_writes_text(o2, Field::NumMortPartSatisfied, small_int_text(self.num_part_satisfied));
        lemma_writes_text(o3, Field::NumMortSatisfied, small_int_text(self.num_satisfied));
        assert(lookup(o4, Field::NumMortCharges) == lookup(o1, Field::NumMortCharges));
        assert(lookup(o4, Field::NumMortOutstanding) == lookup(o2, Field::NumMortOutstanding));
        assert(lookup(o4, Field::NumMortPartSatisfied) == lookup(o3, Field::NumMortPartSatisfied));
        lemma_reads_small_int(o4, Field::NumMortCharges, self.num_charges);
        lemma_reads_small_int(o4, Field::NumMortOutstanding, self.num_outstanding);
        lemma_reads_small_int(o4, Field::NumMortPartSatisfied, self.num_part_satisfied);
        lemma_reads_small_int(o4, Field::NumMortSatisfied, self.num_satisfied);
    }
}

impl LimitedPartnership {
    /// Partnership counters that were encoded decode to themselves.
    pub proof fn lemma_round_trip(self)
        ensures
            LimitedPartnership::of_fields(LimitedPartnership::to_fields(self)) == Ok::<
                LimitedPartnership,
                DecodeError,
            >(self),
    {
        let o0 = no_fields();
        let o1 = with_small_int(o0, Field::NumGenPartners, self.num_gen_partners);
        let o2 = with_small_int(o1, Field::NumLimPartners, self.num_lim_partners);
        lemma_writes_text(o0, Field::NumGenPartners, small_int_text(self.num_gen_partners));
        lemma_writes_text(o1, Field::NumLimPartners, small_int_text(self.num_lim_partners));
        assert(lookup(o2, Field::NumGenPartners) == lookup(o1, Field::NumGenPartners));
        lemma_reads_small_int(o2, Field::NumGenPartners, self.num_gen_partners);
        lemma_reads_small_int(o2, Field::NumLimPartners, self.num_lim_partners);
    }
}

impl SICcodesView {
    /// A SIC classification that was encoded decodes to itself.
    pub proof fn lemma_round_trip(self)
        ensures
            SICcodes::of_fields(SICcodes::to_fields(self)) == Ok::<SICcodesView, DecodeError>(self),
    {
        lemma_reads_text_list(SICcodes::to_fields(self), Field::SicText, self.text);
    }
}

impl PreviousNameView {
    /// The former name can be encoded under the revision and told apart
    /// afterwards: its date, if it has one, is a day of the calendar, and is
    /// there where the revision writes an absent date as the sentinel.
    pub open spec fn encodable(self, revision: Revision) -> bool {
        &&& is_calendar_date_or_none(self.date)
        &&& survives(self.date, revision.policy_of(Field::ChangeDate))
    }

    /// A former name that was encoded decodes to itself.
    pub proof fn lemma_round_trip(self, revision: Revision)
        requires
            self.encodable(revision),
        ensures
            PreviousName::of_fields(PreviousName::to_fields(self, revision), revision) == Ok::<
                PreviousNameView,
                DecodeError,
            >(self),
    {
        let policy = revision.policy_of(Field::ChangeDate);
        let o0 = no_fields();
        let o1 = with_optional_date(o0, Field::ChangeDate, self.date, policy);
        let o2 = with_text(o1, Field::FormerName, self.name);
        lemma_writes(
            o0,
            Field::ChangeDate,
            optional_date_json(Field::ChangeDate, self.date, policy),
        );
        lemma_writes_text(o1, Field::FormerName, self.name);
        assert(lookup(o2, Field::ChangeDate) == lookup(o1, Field::ChangeDate));
        lemma_reads_optional_date(o2, Field::ChangeDate, self.date, policy);
    }

    /// A list of former names that was encoded decodes to itself.
    pub proof fn lemma_list_round_trip(names: Seq<PreviousNameView>, revision: Revision)
        requires
            forall|i: int| 0 <= i < names.len() ==> (#[trigger] names[i]).encodable(revision),
        ensures
            PreviousName::of_list(PreviousName::to_list(names, revision), revision) == Ok::<
                Seq<PreviousNameView>,
                DecodeError,
            >(names),
        decreases names.len(),
    {
        let items = PreviousName::to_list(names, revision);
        if names.len() > 0 {
            PreviousNameView::lemma_list_round_trip(names.drop_last(), revision);
            names.last().lemma_round_trip(revision);
            assert(items.drop_last() =~= PreviousName::to_list(names.drop_last(), revision));
            assert(names.drop_last().push(names.last()) =~= names);
        } else {
            assert(names =~= Seq::<PreviousNameView>::empty());
        }
    }
}

impl AccountsView {
    /// The accounts summary can be encoded under the revision and told apart
    /// afterwards.
    pub open spec fn encodable(self, revision: Revision) -> bool {
        &&& is_calendar_date_or_none(self.next_due_date)
        &&& is_calendar_date_or_none(self.last_made_up_date)
        &&& survives(self.next_due_date, revision.policy_of(Field::AccountsNextDueDate))
        &&& survives(self.last_made_up_date, revision.policy_of(Field::AccountsLastMadeUpDate))
    }

    /// An accounts summary that was encoded decodes to itself.
    pub proof fn lemma_round_trip(self, revision: Revision)
        requires
            self.encodable(revision),
        ensures
            Accounts::of_fields(Accounts::to_fields(self, revision), revision) == Ok::<
                AccountsView,
                DecodeError,
            >(self),
    {
        let next = revision.policy_of(Field::AccountsNextDueDate);
        let last = revision.policy_of(Field::AccountsLastMadeUpDate);
        let o0 = no_fields();
        let o1 = with_small_int(o0, Field::AccountRefDay, self.ref_day);
        let o2 = with_small_int(o1, Field::AccountRefMonth, self.ref_month);
        let o3 = with_optional_date(o2, Field::AccountsNextDueDate, self.next_due_date, next);
        let o4 = with_optional_date(
            o3,
            Field::AccountsLastMadeUpDate,
            self.last_made_up_date,
            last,
        );
        let o5 = with_optional_text(o4, Field::AccountCategory, self.category);
        lemma_writes_text(o0, Field::AccountRefDay, small_int_text(self.ref_day));
        lemma_writes_text(o1, Field::AccountRefMonth, small_int_text(self.ref_month));
        lemma_writes(
            o2,
            Field::AccountsNextDueDate,
            optional_date_json(Field::AccountsNextDueDate, self.next_due_date, next),
        );
        lemma_writes(
            o3,
            Field::AccountsLastMadeUpDate,
            optional_date_json(Field::AccountsLastMadeUpDate, self.last_made_up_date, last),
        );
        lemma_writes(o4, Field::AccountCategory, optional_text_json(self.category));
        assert(lookup(o5, Field::AccountRefDay) == lookup(o1, Field::AccountRefDay));
        assert(lookup(o5, Field::AccountRefMonth) == lookup(o2, Field::AccountRefMonth));
        assert(lookup(o5, Field::AccountsNextDueDate) == lookup(o3, Field::AccountsNextDueDate));
        assert(lookup(o5, Field::AccountsLastMadeUpDate) == lookup(
            o4,
            Field::AccountsLastMadeUpDate,
        ));
        lemma_reads_small_int(o5, Field::AccountRefDay, self.ref_day);
        lemma_reads_small_int(o5, Field::AccountRefMonth, self.ref_month);
        lemma_reads_optional_date(o5, Field::AccountsNextDueDate, self.next_due_date, next);
        lemma_reads_optional_date(o5, Field::AccountsLastMadeUpDate, self.last_made_up_date, last);
        lemma_reads_optional_text(o5, Field::AccountCategory, self.category);
    }
}

impl ReturnsView {
    /// The returns summary can be encoded under the revision and told apart
    /// afterwards.
    pub open spec fn encodable(self, revision: Revision) -> bool {
        &&& self.next_due_date.is_calendar_date()
        &&& is_calendar_date_or_none(self.last_made_up_date)
        &&& survives(self.last_made_up_date, revision.policy_of(Field::ReturnsLastMadeUpDate))
    }

    /// A returns summary that was encoded decodes to itself.
    pub proof fn lemma_round_trip(self, revision: Revision)
        requires
            self.encodable(revision),
        ensures
            Returns::of_fields(Returns::to_fields(self, revision), revision) == Ok::<
                ReturnsView,
                DecodeError,
            >(self),
    {
        let last = revision.policy_of(Field::ReturnsLastMadeUpDate);
        let o0 = no_fields();
        let o1 = with_date(o0, Field::ReturnsNextDueDate, self.next_due_date);
        let o2 = with_optional_date(o1, Field::ReturnsLastMadeUpDate, self.last_made_up_date, last);
        lemma_writes_text(o0, Field::ReturnsNextDueDate, date_text(self.next_due_date));
        lemma_writes(
            o1,
            Field::ReturnsLastMadeUpDate,
            optional_date_json(Field::ReturnsLastMadeUpDate, self.last_made_up_date, last),
        );
        assert(lookup(o2, Field::ReturnsNextDueDate) == lookup(o1, Field::ReturnsNextDueDate));
        lemma_reads_date(o2, Field::ReturnsNextDueDate, self.next_due_date);
        lemma_reads_optional_date(o2, Field::ReturnsLastMadeUpDate, self.last_made_up_date, last);
    }
}

impl CompanyView {
    /// The company can be encoded under the revision and told apart
    /// afterwards: its dates are days of the calendar, and what may be
    /// absent is there where the revision writes an absent value as the
    /// sentinel.
    pub open spec fn encodable(self, revision: Revision) -> bool {
        &&& is_calendar_date_or_none(self.incorporation_date)
        &&& is_calendar_date_or_none(self.registration_date)
        &&& is_calendar_date_or_none(self.dissolution_date)
        &&& survives(self.incorporation_date, revision.policy_of(Field::IncorporationDate))
        &&& survives(self.registration_date, revision.policy_of(Field::RegistrationDate))
        &&& survives(self.dissolution_date, revision.policy_of(Field::DissolutionDate))
        &&& forall|i: int|
            0 <= i < self.previous_name.len() ==> (#[trigger] self.previous_name[i]).encodable(
                revision,
            )
        &&& self.accounts.encodable(revision)
        &&& self.returns.encodable(revision)
        &&& survives(self.mortgages, revision.policy_of(Field::Mortgages))
        &&& survives(self.sic_codes, revision.policy_of(Field::SicCodes))
        &&& survives(self.limited_partnership, revision.policy_of(Field::LimitedPartnerships))
    }

    /// What the mortgage counters of the company are written as.
    pub open spec fn mortgages_json(self, revision: Revision) -> Option<Json> {
        optional_entity_json(
            mortgages_fields(self.mortgages),
            revision.policy_of(Field::Mortgages),
            Mortgages::to_fields(Mortgages::sentinel()),
        )
    }

    /// What the SIC classification of the company is written as.
    pub open spec fn sic_codes_json(self, revision: Revision) -> Option<Json> {
        optional_entity_json(
            sic_codes_fields(self.sic_codes),
            revision.policy_of(Field::SicCodes),
            SICcodes::to_fields(SICcodes::sentinel()),
        )
    }

    /// What the partnership counters of the company are written as.
    pub open spec fn partnership_json(self, revision: Revision) -> Option<Json> {
        optional_entity_json(
            partnership_fields(self.limited_partnership),
            revision.policy_of(Field::LimitedPartnerships),
            LimitedPartnership::to_fields(LimitedPartnership::sentinel()),
        )
    }

    /// What a date of the company that may be absent is written as.
    pub open spec fn date_json(field: Field, value: Option<Ymd>, revision: Revision) -> Option<
        Json,
    > {
        optional_date_json(field, value, revision.policy_of(field))
    }

    /// Under each key of a company the object holds what the company's
    /// field is written as.
    pub open spec fn stands_in(self, obj: Fields, revision: Revision) -> bool {
        &&& lookup(obj, Field::CompanyName) == Some(Json::Text(self.name))
        &&& lookup(obj, Field::CompanyNumber) == Some(Json::Text(self.number))
        &&& lookup(obj, Field::RegAddress) == Some(
            Json::Object(Address::to_fields(self.reg_address)),
        )
        &&& lookup(obj, Field::CompanyCategory) == Some(Json::Text(self.category))
        &&& lookup(obj, Field::CompanyStatus) == Some(Json::Text(self.status))
        &&& lookup(obj, Field::CountryOfOrigin) == Some(Json::Text(self.country_of_origin))
        &&& lookup(obj, Field::IncorporationDate) == CompanyView::date_json(
            Field::IncorporationDate,
            self.incorporation_date,
            revision,
        )
        &&& lookup(obj, Field::RegistrationDate) == CompanyView::date_json(
            Field::RegistrationDate,
            self.registration_date,
            revision,
        )
        &&& lookup(obj, Field::DissolutionDate) == CompanyView::date_json(
            Field::DissolutionDate,
            self.dissolution_date,
            revision,
        )
        &&& lookup(obj, Field::PreviousNames) == Some(
            Json::List(PreviousName::to_list(self.previous_name, revision)),
        )
        &&& lookup(obj, Field::Accounts) == Some(
            Json::Object(Accounts::to_fields(self.accounts, revision)),
        )
        &&& lookup(obj, Field::Returns) == Some(
            Json::Object(Returns::to_fields(self.returns, revision)),
        )
        &&& lookup(obj, Field::Mortgages) == self.mortgages_json(revision)
        &&& lookup(obj, Field::SicCodes) == self.sic_codes_json(revision)
        &&& lookup(obj, Field::LimitedPartnerships) == self.partnership_json(revision)
    }

    /// What stands under each key of an encoded company: what the field
    /// was written as, whatever was written after it.
    #[verifier::rlimit(40)]
    pub proof fn lemma_encoded_fields(self, revision: Revision)
        ensures
            self.stands_in(Company::to_fields(self, revision), revision),
    {
        let address = Json::Object(Address::to_fields(self.reg_address));
        let incorporation = CompanyView::date_json(
            Field::IncorporationDate,
            self.incorporation_date,
            revision,
        );
        let registration = CompanyView::date_json(
            Field::RegistrationDate,
            self.registration_date,
            revision,
        );
        let dissolution = CompanyView::date_json(
            Field::DissolutionDate,
            self.dissolution_date,
            revision,
        );
        let names = Json::List(PreviousName::to_list(self.previous_name, revision));
        let accounts = Json::Object(Accounts::to_fields(self.accounts, revision));
        let returns_summary = Json::Object(Returns::to_fields(self.returns, revision));
        let o0 = no_fields();
        let o1 = put(o0, Field::CompanyName, Some(Json::Text(self.name)));
        let o2 = put(o1, Field::CompanyNumber, Some(Json::Text(self.number)));
        let o3 = put(o2, Field::RegAddress, Some(address));
        let o4 = put(o3, Field::CompanyCategory, Some(Json::Text(self.category)));
        let o5 = put(o4, Field::CompanyStatus, Some(Json::Text(self.status)));
        let o6 = put(o5, Field::CountryOfOrigin, Some(Json::Text(self.country_of_origin)));
        let o7 = put(o6, Field::IncorporationDate, incorporation);
        let o8 = put(o7, Field::RegistrationDate, registration);
        let o9 = put(o8, Field::DissolutionDate, dissolution);
        let o10 = put(o9, Field::PreviousNames, Some(names));
        let o11 = put(o10, Field::Accounts, Some(accounts));
        let o12 = put(o11, Field::Returns, Some(returns_summary));
        let o13 = put(o12, Field::Mortgages, self.mortgages_json(revision));
        let o14 = put(o13, Field::SicCodes, self.sic_codes_json(revision));
        let o15 = put(o14, Field::LimitedPartnerships, self.partnership_json(revision));
        assert(o15 == Company::to_fields(self, revision));
        lemma_writes(o0, Field::CompanyName, Some(Json::Text(self.name)));
        lemma_writes(o1, Field::CompanyNumber, Some(Json::Text(self.number)));
        lemma_writes(o2, Field::RegAddress, Some(address));
        lemma_writes(o3, Field::CompanyCategory, Some(Json::Text(self.category)));
        lemma_writes(o4, Field::CompanyStatus, Some(Json::Text(self.status)));
        lemma_writes(o5, Field::CountryOfOrigin, Some(Json::Text(self.country_of_origin)));
        lemma_writes(o6, Field::IncorporationDate, incorporation);
        lemma_writes(o7, Field::RegistrationDate, registration);
        lemma_writes(o8, Field::DissolutionDate, dissolution);
        lemma_writes(o9, Field::PreviousNames, Some(names));
        lemma_writes(o10, Field::Accounts, Some(accounts));
        lemma_writes(o11, Field::Returns, Some(returns_summary));
        lemma_writes(o12, Field::Mortgages, self.mortgages_json(revision));
        lemma_writes(o13, Field::SicCodes, self.sic_codes_json(revision));
        lemma_writes(o14, Field::LimitedPartnerships, self.partnership_json(revision));
        assert(lookup(o15, Field::CompanyName) == lookup(o1, Field::CompanyName));
        assert(lookup(o15, Field::CompanyNumber) == lookup(o2, Field::CompanyNumber));
        assert(lookup(o15, Field::RegAddress) == lookup(o3, Field::RegAddress));
        assert(lookup(o15, Field::CompanyCategory) == lookup(o4, Field::CompanyCategory));
        assert(lookup(o15, Field::CompanyStatus) == lookup(o5, Field::CompanyStatus));
        assert(lookup(o15, Field::CountryOfOrigin) == lookup(o6, Field::CountryOfOrigin));
        assert(lookup(o15, Field::IncorporationDate) == lookup(o7, Field::IncorporationDate));
        assert(lookup(o15, Field::RegistrationDate) == lookup(o8, Field::RegistrationDate));
        assert(lookup(o15, Field::DissolutionDate) == lookup(o9, Field::DissolutionDate));
        assert(lookup(o15, Field::PreviousNames) == lookup(o10, Field::PreviousNames));
        assert(lookup(o15, Field::Accounts) == lookup(o11, Field::Accounts));
        assert(lookup(o15, Field::Returns) == lookup(o12, Field::Returns));
        assert(lookup(o15, Field::Mortgages) == lookup(o13, Field::Mortgages));
        assert(lookup(o15, Field::SicCodes) == lookup(o14, Field::SicCodes));
    }

    /// Every field of the company reads from the object as the company
    /// holds it.
    pub open spec fn reads_from(self, obj: Fields, revision: Revision) -> bool {
        &&& text_field(obj, Field::CompanyName) == Ok::<Seq<char>, DecodeError>(self.name)
        &&& text_field(obj, Field::CompanyNumber) == Ok::<Seq<char>, DecodeError>(self.number)
        &&& required_entity(
            entity_field(obj, Field::RegAddress),
            |inner: Fields| Address::of_fields(inner),
        ) == Ok::<AddressView, DecodeError>(self.reg_address)
        &&& text_field(obj, Field::CompanyCategory) == Ok::<Seq<char>, DecodeError>(self.category)
        &&& text_field(obj, Field::CompanyStatus) == Ok::<Seq<char>, DecodeError>(self.status)
        &&& text_field(obj, Field::CountryOfOrigin) == Ok::<Seq<char>, DecodeError>(
            self.country_of_origin,
        )
        &&& optional_date_field(
            obj,
            Field::IncorporationDate,
            revision.policy_of(Field::IncorporationDate),
        ) == Ok::<Option<Ymd>, DecodeError>(self.incorporation_date)
        &&& optional_date_field(
            obj,
            Field::RegistrationDate,
            revision.policy_of(Field::RegistrationDate),
        ) == Ok::<Option<Ymd>, DecodeError>(self.registration_date)
        &&& optional_date_field(
            obj,
            Field::DissolutionDate,
            revision.policy_of(Field::DissolutionDate),
        ) == Ok::<Option<Ymd>, DecodeError>(self.dissolution_date)
        &&& entity_list_field(obj, Field::PreviousNames) == Ok::<Seq<Json>, DecodeError>(
            PreviousName::to_list(self.previous_name, revision),
        )
        &&& PreviousName::of_list(PreviousName::to_list(self.previous_name, revision), revision)
            == Ok::<Seq<PreviousNameView>, DecodeError>(self.previous_name)
        &&& required_entity(
            entity_field(obj, Field::Accounts),
            |inner: Fields| Accounts::of_fields(inner, revision),
        ) == Ok::<AccountsView, DecodeError>(self.accounts)
        &&& required_entity(
            entity_field(obj, Field::Returns),
            |inner: Fields| Returns::of_fields(inner, revision),
        ) == Ok::<ReturnsView, DecodeError>(self.returns)
        &&& optional_entity(
            optional_entity_field(obj, Field::Mortgages),
            |inner: Fields| Mortgages::of_fields(inner),
            revision.policy_of(Field::Mortgages).empty(Mortgages::sentinel()),
        ) == Ok::<Option<Mortgages>, DecodeError>(self.mortgages)
        &&& optional_entity(
            optional_entity_field(obj, Field::SicCodes),
            |inner: Fields| SICcodes::of_fields(inner),
            revision.policy_of(Field::SicCodes).empty(SICcodes::sentinel()),
        ) == Ok::<Option<SICcodesView>, DecodeError>(self.sic_codes)
        &&& optional_entity(
            optional_entity_field(obj, Field::LimitedPartnerships),
            |inner: Fields| LimitedPartnership::of_fields(inner),
            revision.policy_of(Field::LimitedPartnerships).empty(LimitedPartnership::sentinel()),
        ) == Ok::<Option<LimitedPartnership>, DecodeError>(self.limited_partnership)
    }

    /// The fields of a company are read back from an object that holds what
    /// they were written as.
    #[verifier::rlimit(40)]
    pub proof fn lemma_reads(self, obj: Fields, revision: Revision)
        requires
            self.encodable(revision),
            self.stands_in(obj, revision),
        ensures
            self.reads_from(obj, revision),
    {
        self.reg_address.lemma_round_trip();
        lemma_reads_optional_date(
            obj,
            Field::IncorporationDate,
            self.incorporation_date,
            revision.policy_of(Field::IncorporationDate),
        );
        lemma_reads_optional_date(
            obj,
            Field::RegistrationDate,
            self.registration_date,
            revision.policy_of(Field::RegistrationDate),
        );
        lemma_reads_optional_date(
            obj,
            Field::DissolutionDate,
            self.dissolution_date,
            revision.policy_of(Field::DissolutionDate),
        );
        PreviousNameView::lemma_list_round_trip(self.previous_name, revision);
        self.accounts.lemma_round_trip(revision);
        self.returns.lemma_round_trip(revision);
        if let Some(counters) = self.mortgages {
            counters.lemma_round_trip();
        }
        if let Some(codes) = self.sic_codes {
            codes.lemma_round_trip();
        }
        if let Some(counters) = self.limited_partnership {
            counters.lemma_round_trip();
        }
    }

    /// An object from which every field of a company reads as the company
    /// holds it decodes to the company.
    #[verifier::rlimit(40)]
    pub proof fn lemma_assembles(self, obj: Fields, revision: Revision)
        requires
            self.reads_from(obj, revision),
        ensures
            Company::of_fields(obj, revision) == Ok::<CompanyView, DecodeError>(self),
    {
    }

    /// An object that holds under each key of a company what the company's
    /// field is written as decodes to the company.
    pub proof fn lemma_decodes_from(self, obj: Fields, revision: Revision)
        requires
            self.encodable(revision),
            self.stands_in(obj, revision),
        ensures
            Company::of_fields(obj, revision) == Ok::<CompanyView, DecodeError>(self),
    {
        self.lemma_reads(obj, revision);
        self.lemma_assembles(obj, revision);
    }

    /// A company that was encoded decodes to itself.
    pub proof fn lemma_round_trip(self, revision: Revision)
        requires
            self.encodable(revision),
        ensures
            Company::of_fields(Company::to_fields(self, revision), revision) == Ok::<
                CompanyView,
                DecodeError,
            >(self),
    {
        self.lemma_encoded_fields(revision);
        self.lemma_decodes_from(Company::to_fields(self, revision), revision);
    }

    /// A company that was encoded inside its response envelope decodes to
    /// itself.
    pub proof fn lemma_document_round_trip(self, revision: Revision)
        requires
            self.encodable(revision),
        ensures
            Company::of_document(Company::to_document(self, revision), revision) == Ok::<
                CompanyView,
                DecodeError,
            >(self),
    {
        self.lemma_round_trip(revision);
    }
}

} // verus!
