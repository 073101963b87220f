//! Decoding: from a JSON object to a record, field by field in the order of
//! the schema. The first field that fails decides the failure; keys that the
//! schema does not declare are not looked at.

use crate::error::ErrorKind;
use crate::json::{as_object, fields_of, json_of, jsons_of, no_fields, Json};
use crate::optionality::Sentinel;
use crate::reader::{
    decoded, entity_field, entity_list_field, optional_date_field, optional_entity_field,
    optional_text_field, date_field, read_date, read_entity, read_entity_list,
    read_optional_date, read_optional_entity, read_optional_text, read_small_int, read_text,
    read_text_list, small_int_field, text_field, text_list_field, unexpected, Fields, JsonMap,
};
use crate::record::{
    Accounts, AccountsView, Address, AddressView, Company, CompanyView, LimitedPartnership,
    Mortgages, PreviousName, PreviousNameView, Returns, ReturnsView, Revision, SICcodes,
    SICcodesView,
};
use crate::schema::{DecodeError, Field};
use vstd::prelude::*;

verus! {

/// A nested entity that may be absent: the empty value where it is absent,
/// and what decoding its object gives where it is there.
pub open spec fn optional_entity<V>(
    inner: Result<Option<Fields>, DecodeError>,
    decode: spec_fn(Fields) -> Result<V, DecodeError>,
    empty: Option<V>,
) -> Result<Option<V>, DecodeError> {
    match inner {
        Err(error) => Err(error),
        Ok(None) => Ok(empty),
        Ok(Some(fields)) => match decode(fields) {
            Ok(value) => Ok(Some(value)),
            Err(error) => Err(error),
        },
    }
}

/// A nested entity that must be there: what decoding its object gives.
pub open spec fn required_entity<V>(
    inner: Result<Fields, DecodeError>,
    decode: spec_fn(Fields) -> Result<V, DecodeError>,
) -> Result<V, DecodeError> {
    match inner {
        Err(error) => Err(error),
        Ok(fields) => decode(fields),
    }
}

impl Address {
    /// The address that an object denotes.
    pub open spec fn of_fields(obj: Fields) -> Result<AddressView, DecodeError> {
        let care_of = text_field(obj, Field::CareOf);
        let po_box = text_field(obj, Field::PoBox);
        let address_line1 = text_field(obj, Field::AddressLine1);
        let address_line2 = text_field(obj, Field::AddressLine2);
        let post_town = text_field(obj, Field::PostTown);
        let county = text_field(obj, Field::County);
        let country = text_field(obj, Field::Country);
        let postcode = text_field(obj, Field::Postcode);
        if care_of is Err {
            Err(care_of->Err_0)
        } else if po_box is Err {
            Err(po_box->Err_0)
        } else if address_line1 is Err {
            Err(address_line1->Err_0)
        } else if address_line2 is Err {
            Err(address_line2->Err_0)
        } else if post_town is Err {
            Err(post_town->Err_0)
        } else if county is Err {
            Err(county->Err_0)
        } else if country is Err {
            Err(country->Err_0)
        } else if postcode is Err {
            Err(postcode->Err_0)
        } else {
            Ok(
                AddressView {
                    care_of: care_of->Ok_0,
                    po_box: po_box->Ok_0,
                    address_line1: address_line1->Ok_0,
                    address_line2: address_line2->Ok_0,
                    post_town: post_town->Ok_0,
                    county: county->Ok_0,
                    country: country->Ok_0,
                    postcode: postcode->Ok_0,
                },
            )
        }
    }

    /// Decodes an address from its object.
    pub fn decode(obj: &JsonMap) -> (r: Result<Address, DecodeError>)
        ensures
            decoded(r) == Address::of_fields(fields_of(*obj)),
    {
        let care_of = read_text(obj, Field::CareOf)?;
        let po_box = read_text(obj, Field::PoBox)?;
        let address_line1 = read_text(obj, Field::AddressLine1)?;
        let address_line2 = read_text(obj, Field::AddressLine2)?;
        let post_town = read_text(obj, Field::PostTown)?;
        let county = read_text(obj, Field::County)?;
        let country = read_text(obj, Field::Country)?;
        let postcode = read_text(obj, Field::Postcode)?;
        Ok(
            Address {
                care_of,
                po_box,
                address_line1,
                address_line2,
                post_town,
                county,
                country,
                postcode,
            },
        )
    }
}

impl PreviousName {
    /// The former name that an object denotes under a revision.
    pub open spec fn of_fields(obj: Fields, revision: Revision) -> Result<
        PreviousNameView,
        DecodeError,
    > {
        let date = optional_date_field(
            obj,
            Field::ChangeDate,
            revision.policy_of(Field::ChangeDate),
        );
        let name = text_field(obj, Field::FormerName);
        if date is Err {
            Err(date->Err_0)
        } else if name is Err {
            Err(name->Err_0)
        } else {
            Ok(PreviousNameView { date: date->Ok_0, name: name->Ok_0 })
        }
    }

    /// Decodes a former name from its object.
    pub fn decode(obj: &JsonMap, revision: Revision) -> (r: Result<PreviousName, DecodeError>)
        ensures
            decoded(r) == PreviousName::of_fields(fields_of(*obj), revision),
    {
        let date = read_optional_date(obj, Field::ChangeDate, revision.policy(Field::ChangeDate))?;
        let name = read_text(obj, Field::FormerName)?;
        Ok(PreviousName { date, name })
    }

    /// The former names that a list of documents denotes: each must be an
    /// object and decode, and the first that does not decides the failure.
    pub open spec fn of_list(items: Seq<Json>, revision: Revision) -> Result<
        Seq<PreviousNameView>,
        DecodeError,
    >
        decreases items.len(),
    {
        if items.len() == 0 {
            Ok(Seq::empty())
        } else {
            match PreviousName::of_list(items.drop_last(), revision) {
                Err(error) => Err(error),
                Ok(front) => match items.last() {
                    Json::Object(fields) => match PreviousName::of_fields(fields, revision) {
                        Ok(name) => Ok(front.push(name)),
                        Err(error) => Err(error),
                    },
                    _ => Err(unexpected(Field::PreviousNames)),
                },
            }
        }
    }

    /// A failure among the first items of a list is the failure of the whole list.
    pub proof fn lemma_of_list_prefix(items: Seq<Json>, revision: Revision, k: int)
        requires
            0 <= k <= items.len(),
            PreviousName::of_list(items.take(k), revision) is Err,
        ensures
            PreviousName::of_list(items, revision) == PreviousName::of_list(
                items.take(k),
                revision,
            ),
        decreases items.len() - k,
    {
        if k < items.len() {
            assert(items.take(k + 1).drop_last() =~= items.take(k));
            PreviousName::lemma_of_list_prefix(items, revision, k + 1);
        } else {
            assert(items.take(k) =~= items);
        }
    }

    /// Decodes the former names from the items of their list.
    pub fn decode_list(items: &Vec<serde_json::Value>, revision: Revision) -> (r: Result<
        Vec<PreviousName>,
        DecodeError,
    >)
        ensures
            decoded(r) == PreviousName::of_list(jsons_of(items@), revision),
    {
        let ghost list = jsons_of(items@);
        let mut names: Vec<PreviousName> = Vec::new();
        let mut i: usize = 0;
        assert(names.deep_view() =~= Seq::<PreviousNameView>::empty());
        while i < items.len()
            invariant
                i <= items.len(),
                list == jsons_of(items@),
                PreviousName::of_list(list.take(i as int), revision) == Ok::<
                    Seq<PreviousNameView>,
                    DecodeError,
                >(names.deep_view()),
            decreases items.len() - i,
        {
            let ghost front = names.deep_view();
            assert(list.take(i + 1).drop_last() =~= list.take(i as int));
            assert(list.take(i + 1).last() == json_of(items@[i as int]));
            let decoded_item = match as_object(&items[i]) {
                Some(obj) => PreviousName::decode(obj, revision),
                None => Err(
                    DecodeError { kind: ErrorKind::UnexpectedType, field: Field::PreviousNames },
                ),
            };
            match decoded_item {
                Ok(name) => {
                    names.push(name);
                    assert(names.deep_view() =~= front.push(name.deep_view()));
                },
                Err(error) => {
                    proof {
                        PreviousName::lemma_of_list_prefix(list, revision, i + 1);
                    }
                    return Err(error);
                },
            }
            i = i + 1;
        }
        assert(list.take(i as int) =~= list);
        Ok(names)
    }
}

impl Accounts {
    /// The accounts summary that an object denotes under a revision.
    pub open spec fn of_fields(obj: Fields, revision: Revision) -> Result<
        AccountsView,
        DecodeError,
    > {
        let ref_day = small_int_field(obj, Field::AccountRefDay);
        let ref_month = small_int_field(obj, Field::AccountRefMonth);
        let next_due_date = optional_date_field(
            obj,
            Field::AccountsNextDueDate,
            revision.policy_of(Field::AccountsNextDueDate),
        );
        let last_made_up_date = optional_date_field(
            obj,
            Field::AccountsLastMadeUpDate,
            revision.policy_of(Field::AccountsLastMadeUpDate),
        );
        let category = optional_text_field(obj, Field::AccountCategory);
        if ref_day is Err {
            Err(ref_day->Err_0)
        } else if ref_month is Err {
            Err(ref_month->Err_0)
        } else if next_due_date is Err {
            Err(next_due_date->Err_0)
        } else if last_made_up_date is Err {
            Err(last_made_up_date->Err_0)
        } else if category is Err {
            Err(category->Err_0)
        } else {
            Ok(
                AccountsView {
                    ref_day: ref_day->Ok_0,
                    ref_month: ref_month->Ok_0,
                    next_due_date: next_due_date->Ok_0,
                    last_made_up_date: last_made_up_date->Ok_0,
                    category: category->Ok_0,
                },
            )
        }
    }

    /// Decodes the accounts summary from its object.
    pub fn decode(obj: &JsonMap, revision: Revision) -> (r: Result<Accounts, DecodeError>)
        ensures
            decoded(r) == Accounts::of_fields(fields_of(*obj), revision),
    {
        let ref_day = read_small_int(obj, Field::AccountRefDay)?;
        let ref_month = read_small_int(obj, Field::AccountRefMonth)?;
        let next_due_date = read_optional_date(
            obj,
            Field::AccountsNextDueDate,
            revision.policy(Field::AccountsNextDueDate),
        )?;
        let last_made_up_date = read_optional_date(
            obj,
            Field::AccountsLastMadeUpDate,
            revision.policy(Field::AccountsLastMadeUpDate),
        )?;
        let category = read_optional_text(obj, Field::AccountCategory)?;
        Ok(Accounts { ref_day, ref_month, next_due_date, last_made_up_date, category })
    }
}

impl Returns {
    /// The returns summary that an object denotes under a revision.
    pub open spec fn of_fields(obj: Fields, revision: Revision) -> Result<
        ReturnsView,
        DecodeError,
    > {
        let next_due_date = date_field(obj, Field::ReturnsNextDueDate);
        let last_made_up_date = optional_date_field(
            obj,
            Field::ReturnsLastMadeUpDate,
            revision.policy_of(Field::ReturnsLastMadeUpDate),
        );
        if next_due_date is Err {
            Err(next_due_date->Err_0)
        } else if last_made_up_date is Err {
            Err(last_made_up_date->Err_0)
        } else {
            Ok(
                ReturnsView {
                    next_due_date: next_due_date->Ok_0,
                    last_made_up_date: last_made_up_date->Ok_0,
                },
            )
        }
    }

    /// Decodes the returns summary from its object.
    pub fn decode(obj: &JsonMap, revision: Revision) -> (r: Result<Returns, DecodeError>)
        ensures
            decoded(r) == Returns::of_fields(fields_of(*obj), revision),
    {
        let next_due_date = read_date(obj, Field::ReturnsNextDueDate)?;
        let last_made_up_date = read_optional_date(
            obj,
            Field::ReturnsLastMadeUpDate,
            revision.policy(Field::ReturnsLastMadeUpDate),
        )?;
        Ok(Returns { next_due_date, last_made_up_date })
    }
}

impl Mortgages {
    /// The mortgage counters that an object denotes.
    pub open spec fn of_fields(obj: Fields) -> Result<Mortgages, DecodeError> {
        let num_charges = small_int_field(obj, Field::NumMortCharges);
        let num_outstanding = small_int_field(obj, Field::NumMortOutstanding);
        let num_part_satisfied = small_int_field(obj, Field::NumMortPartSatisfied);
        let num_satisfied = small_int_field(obj, Field::NumMortSatisfied);
        if num_charges is Err {
            Err(num_charges->Err_0)
        } else if num_outstanding is Err {
            Err(num_outstanding->Err_0)
        } else if num_part_satisfied is Err {
            Err(num_part_satisfied->Err_0)
        } else if num_satisfied is Err {
            Err(num_satisfied->Err_0)
        } else {
            Ok(
                Mortgages {
                    num_charges: num_charges->Ok_0,
                    num_outstanding: num_outstanding->Ok_0,
                    num_part_satisfied: num_part_satisfied->Ok_0,
                    num_satisfied: num_satisfied->Ok_0,
                },
            )
        }
    }

    /// Decodes the mortgage counters from their object.
    pub fn decode(obj: &JsonMap) -> (r: Result<Mortgages, DecodeError>)
        ensures
            r == Mortgages::of_fields(fields_of(*obj)),
    {
        let num_charges = read_small_int(obj, Field::NumMortCharges)?;
        let num_outstanding = read_small_int(obj, Field::NumMortOutstanding)?;
        let num_part_satisfied = read_small_int(obj, Field::NumMortPartSatisfied)?;
        let num_satisfied = read_small_int(obj, Field::NumMortSatisfied)?;
        Ok(Mortgages { num_charges, num_outstanding, num_part_satisfied, num_satisfied })
    }
}

impl SICcodes {
    /// The SIC classification that an object denotes.
    pub open spec fn of_fields(obj: Fields) -> Result<SICcodesView, DecodeError> {
        match text_list_field(obj, Field::SicText) {
            Ok(text) => Ok(SICcodesView { text }),
            Err(error) => Err(error),
        }
    }

    /// Decodes the SIC classification from its object.
    pub fn decode(obj: &JsonMap) -> (r: Result<SICcodes, DecodeError>)
        ensures
            decoded(r) == SICcodes::of_fields(fields_of(*obj)),
    {
        let text = read_text_list(obj, Field::SicText)?;
        Ok(SICcodes { text })
    }
}

impl LimitedPartnership {
    /// The partnership counters that an object denotes.
    pub open spec fn of_fields(obj: Fields) -> Result<LimitedPartnership, DecodeError> {
        let num_gen_partners = small_int_field(obj, Field::NumGenPartners);
        let num_lim_partners = small_int_field(obj, Field::NumLimPartners);
        if num_gen_partners is Err {
            Err(num_gen_partners->Err_0)
        } else if num_lim_partners is Err {
            Err(num_lim_partners->Err_0)
        } else {
            Ok(
                LimitedPartnership {
                    num_gen_partners: num_gen_partners->Ok_0,
                    num_lim_partners: num_lim_partners->Ok_0,
                },
            )
        }
    }

    /// Decodes the partnership counters from their object.
    pub fn decode(obj: &JsonMap) -> (r: Result<LimitedPartnership, DecodeError>)
        ensures
            r == LimitedPartnership::of_fields(fields_of(*obj)),
    {
        let num_gen_partners = read_small_int(obj, Field::NumGenPartners)?;
        let num_lim_partners = read_small_int(obj, Field::NumLimPartners)?;
        Ok(LimitedPartnership { num_gen_partners, num_lim_partners })
    }
}

impl Company {
    /// The company that an object denotes under a revision.
    pub open spec fn of_fields(obj: Fields, revision: Revision) -> Result<
        CompanyView,
        DecodeError,
    > {
        let name = text_field(obj, Field::CompanyName);
        let number = text_field(obj, Field::CompanyNumber);
        let reg_address = required_entity(
            entity_field(obj, Field::RegAddress),
            |inner: Fields| Address::of_fields(inner),
        );
        let category = text_field(obj, Field::CompanyCategory);
        let status = text_field(obj, Field::CompanyStatus);
        let country_of_origin = text_field(obj, Field::CountryOfOrigin);
        let incorporation_date = optional_date_field(
            obj,
            Field::IncorporationDate,
            revision.policy_of(Field::IncorporationDate),
        );
        let registration_date = optional_date_field(
            obj,
            Field::RegistrationDate,
            revision.policy_of(Field::RegistrationDate),
        );
        let dissolution_date = optional_date_field(
            obj,
            Field::DissolutionDate,
            revision.policy_of(Field::DissolutionDate),
        );
        let previous_name = match entity_list_field(obj, Field::PreviousNames) {
            Ok(items) => PreviousName::of_list(items, revision),
            Err(error) => Err(error),
        };
        let accounts = required_entity(
            entity_field(obj, Field::Accounts),
            |inner: Fields| Accounts::of_fields(inner, revision),
        );
        let filing_returns = required_entity(
            entity_field(obj, Field::Returns),
            |inner: Fields| Returns::of_fields(inner, revision),
        );
        let mortgages = optional_entity(
            optional_entity_field(obj, Field::Mortgages),
            |inner: Fields| Mortgages::of_fields(inner),
            revision.policy_of(Field::Mortgages).empty(Mortgages::sentinel()),
        );
        let sic_codes = optional_entity(
            optional_entity_field(obj, Field::SicCodes),
            |inner: Fields| SICcodes::of_fields(inner),
            revision.policy_of(Field::SicCodes).empty(SICcodes::sentinel()),
        );
        let limited_partnership = optional_entity(
            optional_entity_field(obj, Field::LimitedPartnerships),
            |inner: Fields| LimitedPartnership::of_fields(inner),
            revision.policy_of(Field::LimitedPartnerships).empty(LimitedPartnership::sentinel()),
        );
        if name is Err {
            Err(name->Err_0)
        } else if number is Err {
            Err(number->Err_0)
        } else if reg_address is Err {
            Err(reg_address->Err_0)
        } else if category is Err {
            Err(category->Err_0)
        } else if status is Err {
            Err(status->Err_0)
        } else if country_of_origin is Err {
            Err(country_of_origin->Err_0)
        } else if incorporation_date is Err {
            Err(incorporation_date->Err_0)
        } else if registration_date is Err {
            Err(registration_date->Err_0)
        } else if dissolution_date is Err {
            Err(dissolution_date->Err_0)
        } else if previous_name is Err {
            Err(previous_name->Err_0)
        } else if accounts is Err {
            Err(accounts->Err_0)
        } else if filing_returns is Err {
            Err(filing_returns->Err_0)
        } else if mortgages is Err {
            Err(mortgages->Err_0)
        } else if sic_codes is Err {
            Err(sic_codes->Err_0)
        } else if limited_partnership is Err {
            Err(limited_partnership->Err_0)
        } else {
            Ok(
                CompanyView {
                    name: name->Ok_0,
                    number: number->Ok_0,
                    reg_address: reg_address->Ok_0,
                    category: category->Ok_0,
                    status: status->Ok_0,
                    country_of_origin: country_of_origin->Ok_0,
                    incorporation_date: incorporation_date->Ok_0,
                    registration_date: registration_date->Ok_0,
                    dissolution_date: dissolution_date->Ok_0,
                    previous_name: previous_name->Ok_0,
                    accounts: accounts->Ok_0,
                    returns: filing_returns->Ok_0,
                    mortgages: mortgages->Ok_0,
                    sic_codes: sic_codes->Ok_0,
                    limited_partnership: limited_partnership->Ok_0,
                },
            )
        }
    }

    /// The fields of a document that is an object; a document that is none
    /// has no fields.
    pub open spec fn fields_of_document(doc: Json) -> Fields {
        match doc {
            Json::Object(fields) => fields,
            _ => no_fields(),
        }
    }

    /// The company that a response envelope denotes: the record under its
    /// key for the primary topic.
    pub open spec fn of_document(doc: Json, revision: Revision) -> Result<
        CompanyView,
        DecodeError,
    > {
        required_entity(
            entity_field(Company::fields_of_document(doc), Field::PrimaryTopic),
            |inner: Fields| Company::of_fields(inner, revision),
        )
    }

    /// Decodes a company from its object.
    pub fn decode(obj: &JsonMap, revision: Revision) -> (r: Result<Company, DecodeError>)
        ensures
            decoded(r) == Company::of_fields(fields_of(*obj), revision),
    {
        let name = read_text(obj, Field::CompanyName)?;
        let number = read_text(obj, Field::CompanyNumber)?;
        let reg_address = Address::decode(read_entity(obj, Field::RegAddress)?)?;
        let category = read_text(obj, Field::CompanyCategory)?;
        let status = read_text(obj, Field::CompanyStatus)?;
        let country_of_origin = read_text(obj, Field::CountryOfOrigin)?;
        let incorporation_date = read_optional_date(
            obj,
            Field::IncorporationDate,
            revision.policy(Field::IncorporationDate),
        )?;
        let registration_date = read_optional_date(
            obj,
            Field::RegistrationDate,
            revision.policy(Field::RegistrationDate),
        )?;
        let dissolution_date = read_optional_date(
            obj,
            Field::DissolutionDate,
            revision.policy(Field::DissolutionDate),
        )?;
        let previous_name = match read_entity_list(obj, Field::PreviousNames)? {
            Some(items) => PreviousName::decode_list(items, revision)?,
            None => {
                let empty: Vec<PreviousName> = Vec::new();
                assert(empty.deep_view() =~= Seq::<PreviousNameView>::empty());
                empty
            },
        };
        let accounts = Accounts::decode(read_entity(obj, Field::Accounts)?, revision)?;
        let filing_returns = Returns::decode(read_entity(obj, Field::Returns)?, revision)?;
        let mortgages = match read_optional_entity(obj, Field::Mortgages)? {
            Some(inner) => Some(Mortgages::decode(inner)?),
            None => revision.policy(Field::Mortgages).empty_value::<Mortgages>(),
        };
        let sic_codes = match read_optional_entity(obj, Field::SicCodes)? {
            Some(inner) => Some(SICcodes::decode(inner)?),
            None => revision.policy(Field::SicCodes).empty_value::<SICcodes>(),
        };
        let limited_partnership = match read_optional_entity(obj, Field::LimitedPartnerships)? {
            Some(inner) => Some(LimitedPartnership::decode(inner)?),
            None => revision.policy(Field::LimitedPartnerships).empty_value::<LimitedPartnership>(),
        };
        Ok(
            Company {
                name,
                number,
                reg_address,
                category,
                status,
                country_of_origin,
                incorporation_date,
                registration_date,
                dissolution_date,
                previous_name,
                accounts,
                returns: filing_returns,
                mortgages,
                sic_codes,
                limited_partnership,
            },
        )
    }

    /// Decodes a company from the response envelope around it.
    pub fn from_value(document: &serde_json::Value, revision: Revision) -> (r: Result<
        Company,
        DecodeError,
    >)
        ensures
            decoded(r) == Company::of_document(json_of(*document), revision),
    {
        match as_object(document) {
            Some(envelope) => {
                let record = read_entity(envelope, Field::PrimaryTopic)?;
                Company::decode(record, revision)
            },
            None => Err(DecodeError { kind: ErrorKind::MissingField, field: Field::PrimaryTopic }),
        }
    }
}

} // verus!
