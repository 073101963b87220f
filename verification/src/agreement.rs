//! Decoding looks at nothing but the keys that the schema declares, at every
//! level of a document at once: two documents that hold the same under the
//! declared keys of the envelope, of the record and of each nested entity
//! decode alike, whatever other keys either of them has anywhere.

use crate::json::Json;
use crate::laws::{
    agree_on, declares, lemma_accounts_reads_declared_keys, lemma_address_reads_declared_keys,
    lemma_mortgages_reads_declared_keys, lemma_partnership_reads_declared_keys,
    lemma_previous_name_reads_declared_keys, lemma_returns_reads_declared_keys,
    lemma_sic_codes_reads_declared_keys,
};
use crate::decode::{optional_entity, required_entity};
use crate::optionality::Sentinel;
use crate::reader::{
    entity_field, entity_list_field, lookup, optional_entity_field, text_field, Fields,
};
use crate::record::{
    Accounts, Address, Company, LimitedPartnership, Mortgages, PreviousName, Returns, Revision,
    SICcodes,
};
use crate::schema::{Entity, Field};
use vstd::prelude::*;

verus! {

/// The second object holds all that the first holds, and besides that only
/// keys that the entity does not declare.
pub open spec fn extends(entity: Entity, base: Fields, more: Fields) -> bool {
    &&& forall|key: Seq<char>| #[trigger]
        base.contains_key(key) ==> more.contains_key(key) && more[key] == base[key]
    &&& forall|key: Seq<char>| #[trigger]
        more.contains_key(key) && !base.contains_key(key) ==> !declares(entity, key)
}

/// An object with any number of keys more that the entity does not declare
/// holds the same under every key that the entity declares.
pub proof fn lemma_extends_agrees(entity: Entity, base: Fields, more: Fields)
    requires
        extends(entity, base, more),
    ensures
        agree_on(entity, more, base),
{
    assert forall|field: Field| field.owner() == entity implies #[trigger] lookup(more, field)
        == lookup(base, field) by {
        let key = field.wire();
        if !base.contains_key(key) && more.contains_key(key) {
            assert(declares(entity, key));
        }
    }
}

/// What stands under two keys is the same to a nested entity: the same
/// document, or two objects that hold the same under the keys that the
/// entity declares.
pub open spec fn nested_agree(entity: Entity, a: Option<Json>, b: Option<Json>) -> bool {
    a == b || (a matches Some(Json::Object(inner_a)) && b matches Some(Json::Object(inner_b))
        && agree_on(entity, inner_a, inner_b))
}

/// Two lists are the same to a list of former names: they are as long, and
/// item by item the same to a former name.
pub open spec fn items_agree(a: Seq<Json>, b: Seq<Json>) -> bool {
    &&& a.len() == b.len()
    &&& forall|i: int|
        0 <= i < a.len() ==> nested_agree(Entity::PreviousName, Some(#[trigger] a[i]), Some(b[i]))
}

/// What stands under two keys is the same to a list of former names.
pub open spec fn names_agree(a: Option<Json>, b: Option<Json>) -> bool {
    a == b || (a matches Some(Json::List(items_a)) && b matches Some(Json::List(items_b))
        && items_agree(items_a, items_b))
}

/// Two objects are the same to a company: they hold the same under the keys
/// of its own values, and under the key of each nested entity what is the
/// same to that entity.
pub open spec fn company_agree(a: Fields, b: Fields) -> bool {
    &&& lookup(a, Field::CompanyName) == lookup(b, Field::CompanyName)
    &&& lookup(a, Field::CompanyNumber) == lookup(b, Field::CompanyNumber)
    &&& nested_agree(
        Entity::Address,
        lookup(a, Field::RegAddress),
        lookup(b, Field::RegAddress),
    )
    &&& lookup(a, Field::CompanyCategory) == lookup(b, Field::CompanyCategory)
    &&& lookup(a, Field::CompanyStatus) == lookup(b, Field::CompanyStatus)
    &&& lookup(a, Field::CountryOfOrigin) == lookup(b, Field::CountryOfOrigin)
    &&& lookup(a, Field::IncorporationDate) == lookup(b, Field::IncorporationDate)
    &&& lookup(a, Field::RegistrationDate) == lookup(b, Field::RegistrationDate)
    &&& lookup(a, Field::DissolutionDate) == lookup(b, Field::DissolutionDate)
    &&& names_agree(lookup(a, Field::PreviousNames), lookup(b, Field::PreviousNames))
    &&& nested_agree(Entity::Accounts, lookup(a, Field::Accounts), lookup(b, Field::Accounts))
    &&& nested_agree(Entity::Returns, lookup(a, Field::Returns), lookup(b, Field::Returns))
    &&& nested_agree(Entity::Mortgages, lookup(a, Field::Mortgages), lookup(b, Field::Mortgages))
    &&& nested_agree(Entity::SicCodes, lookup(a, Field::SicCodes), lookup(b, Field::SicCodes))
    &&& nested_agree(
        Entity::LimitedPartnerships,
        lookup(a, Field::LimitedPartnerships),
        lookup(b, Field::LimitedPartnerships),
    )
}

/// Two documents are the same to a response envelope: the same document, or
/// two objects that hold under the key for the primary topic what is the
/// same to a company.
pub open spec fn documents_agree(a: Json, b: Json) -> bool {
    a == b || (a matches Json::Object(envelope_a) && b matches Json::Object(envelope_b) && ({
        let record_a = lookup(envelope_a, Field::PrimaryTopic);
        let record_b = lookup(envelope_b, Field::PrimaryTopic);
        record_a == record_b || (record_a matches Some(Json::Object(inner_a))
            && record_b matches Some(Json::Object(inner_b)) && company_agree(inner_a, inner_b))
    }))
}

/// An object with keys more that the company does not declare is the same
/// to a company.
pub proof fn lemma_extends_company_agree(base: Fields, more: Fields)
    requires
        extends(Entity::Company, base, more),
    ensures
        company_agree(more, base),
{
    lemma_extends_agrees(Entity::Company, base, more);
    assert(lookup(more, Field::CompanyName) == lookup(base, Field::CompanyName));
    assert(lookup(more, Field::CompanyNumber) == lookup(base, Field::CompanyNumber));
    assert(lookup(more, Field::RegAddress) == lookup(base, Field::RegAddress));
    assert(lookup(more, Field::CompanyCategory) == lookup(base, Field::CompanyCategory));
    assert(lookup(more, Field::CompanyStatus) == lookup(base, Field::CompanyStatus));
    assert(lookup(more, Field::CountryOfOrigin) == lookup(base, Field::CountryOfOrigin));
    assert(lookup(more, Field::IncorporationDate) == lookup(base, Field::IncorporationDate));
    assert(lookup(more, Field::RegistrationDate) == lookup(base, Field::RegistrationDate));
    assert(lookup(more, Field::DissolutionDate) == lookup(base, Field::DissolutionDate));
    assert(lookup(more, Field::PreviousNames) == lookup(base, Field::PreviousNames));
    assert(lookup(more, Field::Accounts) == lookup(base, Field::Accounts));
    assert(lookup(more, Field::Returns) == lookup(base, Field::Returns));
    assert(lookup(more, Field::Mortgages) == lookup(base, Field::Mortgages));
    assert(lookup(more, Field::SicCodes) == lookup(base, Field::SicCodes));
    assert(lookup(more, Field::LimitedPartnerships) == lookup(base, Field::LimitedPartnerships));
}

/// Two lists that are the same to a list of former names decode alike.
pub proof fn lemma_names_decode_alike(a: Seq<Json>, b: Seq<Json>, revision: Revision)
    requires
        items_agree(a, b),
    ensures
        PreviousName::of_list(a, revision) == PreviousName::of_list(b, revision),
    decreases a.len(),
{
    if a.len() > 0 {
        assert(items_agree(a.drop_last(), b.drop_last())) by {
            assert forall|i: int| 0 <= i < a.drop_last().len() implies nested_agree(
                Entity::PreviousName,
                Some(#[trigger] a.drop_last()[i]),
                Some(b.drop_last()[i]),
            ) by {
                assert(a.drop_last()[i] == a[i]);
                assert(b.drop_last()[i] == b[i]);
            }
        }
        lemma_names_decode_alike(a.drop_last(), b.drop_last(), revision);
        let last = a.len() - 1;
        assert(nested_agree(Entity::PreviousName, Some(a[last]), Some(b[last])));
        match (a.last(), b.last()) {
            (Json::Object(inner_a), Json::Object(inner_b)) => {
                if agree_on(Entity::PreviousName, inner_a, inner_b) {
                    lemma_previous_name_reads_declared_keys(inner_a, inner_b, revision);
                }
            },
            _ => {},
        }
    }
}

/// Two objects that are the same to a company decode alike: keys that the
/// schema does not declare are looked at neither in the record nor in any
/// entity nested in it.
#[verifier::rlimit(40)]
pub proof fn lemma_company_decodes_alike(a: Fields, b: Fields, revision: Revision)
    requires
        company_agree(a, b),
    ensures
        Company::of_fields(a, revision) == Company::of_fields(b, revision),
{
    let empty_mortgages = revision.policy_of(Field::Mortgages).empty(Mortgages::sentinel());
    let empty_siccodes = revision.policy_of(Field::SicCodes).empty(SICcodes::sentinel());
    let empty_limitedpartnerships = revision.policy_of(Field::LimitedPartnerships).empty(
        LimitedPartnership::sentinel(),
    );
    assert(required_entity(
        entity_field(a, Field::RegAddress),
        |inner: Fields| Address::of_fields(inner),
    ) == required_entity(
        entity_field(b, Field::RegAddress),
        |inner: Fields| Address::of_fields(inner),
    )) by {
        match (lookup(a, Field::RegAddress), lookup(b, Field::RegAddress)) {
            (Some(Json::Object(inner_a)), Some(Json::Object(inner_b))) => {
                if agree_on(Entity::Address, inner_a, inner_b) {
                    lemma_address_reads_declared_keys(inner_a, inner_b);
                }
            },
            _ => {},
        }
    }
    assert((match entity_list_field(a, Field::PreviousNames) {
        Ok(items) => PreviousName::of_list(items, revision),
        Err(error) => Err(error),
    }) == (match entity_list_field(b, Field::PreviousNames) {
        Ok(items) => PreviousName::of_list(items, revision),
        Err(error) => Err(error),
    })) by {
        match (lookup(a, Field::PreviousNames), lookup(b, Field::PreviousNames)) {
            (Some(Json::List(items_a)), Some(Json::List(items_b))) => {
                if items_agree(items_a, items_b) {
                    lemma_names_decode_alike(items_a, items_b, revision);
                }
            },
            _ => {},
        }
    }
    assert(required_entity(
        entity_field(a, Field::Accounts),
        |inner: Fields| Accounts::of_fields(inner, revision),
    ) == required_entity(
        entity_field(b, Field::Accounts),
        |inner: Fields| Accounts::of_fields(inner, revision),
    )) by {
        match (lookup(a, Field::Accounts), lookup(b, Field::Accounts)) {
            (Some(Json::Object(inner_a)), Some(Json::Object(inner_b))) => {
                if agree_on(Entity::Accounts, inner_a, inner_b) {
                    lemma_accounts_reads_declared_keys(inner_a, inner_b, revision);
                }
            },
            _ => {},
        }
    }
    assert(required_entity(
        entity_field(a, Field::Returns),
        |inner: Fields| Returns::of_fields(inner, revision),
    ) == required_entity(
        entity_field(b, Field::Returns),
        |inner: Fields| Returns::of_fields(inner, revision),
    )) by {
        match (lookup(a, Field::Returns), lookup(b, Field::Returns)) {
            (Some(Json::Object(inner_a)), Some(Json::Object(inner_b))) => {
                if agree_on(Entity::Returns, inner_a, inner_b) {
                    lemma_returns_reads_declared_keys(inner_a, inner_b, revision);
                }
            },
            _ => {},
        }
    }
    assert(optional_entity(
        optional_entity_field(a, Field::Mortgages),
        |inner: Fields| Mortgages::of_fields(inner),
        empty_mortgages,
    ) == optional_entity(
        optional_entity_field(b, Field::Mortgages),
        |inner: Fields| Mortgages::of_fields(inner),
        empty_mortgages,
    )) by {
        match (lookup(a, Field::Mortgages), lookup(b, Field::Mortgages)) {
            (Some(Json::Object(inner_a)), Some(Json::Object(inner_b))) => {
                if agree_on(Entity::Mortgages, inner_a, inner_b) {
                    lemma_mortgages_reads_declared_keys(inner_a, inner_b);
                }
            },
            _ => {},
        }
    }
    assert(optional_entity(
        optional_entity_field(a, Field::SicCodes),
        |inner: Fields| SICcodes::of_fields(inner),
        empty_siccodes,
    ) == optional_entity(
        optional_entity_field(b, Field::SicCodes),
        |inner: Fields| SICcodes::of_fields(inner),
        empty_siccodes,
    )) by {
        match (lookup(a, Field::SicCodes), lookup(b, Field::SicCodes)) {
            (Some(Json::Object(inner_a)), Some(Json::Object(inner_b))) => {
                if agree_on(Entity::SicCodes, inner_a, inner_b) {
                    lemma_sic_codes_reads_declared_keys(inner_a, inner_b);
                }
            },
            _ => {},
        }
    }
    assert(optional_entity(
        optional_entity_field(a, Field::LimitedPartnerships),
        |inner: Fields| LimitedPartnership::of_fields(inner),
        empty_limitedpartnerships,
    ) == optional_entity(
        optional_entity_field(b, Field::LimitedPartnerships),
        |inner: Fields| LimitedPartnership::of_fields(inner),
        empty_limitedpartnerships,
    )) by {
        match (lookup(a, Field::LimitedPartnerships), lookup(b, Field::LimitedPartnerships)) {
            (Some(Json::Object(inner_a)), Some(Json::Object(inner_b))) => {
                if agree_on(Entity::LimitedPartnerships, inner_a, inner_b) {
                    lemma_partnership_reads_declared_keys(inner_a, inner_b);
                }
            },
            _ => {},
        }
    }
    assert(text_field(a, Field::CompanyName) == text_field(b, Field::CompanyName));
    assert(text_field(a, Field::CompanyNumber) == text_field(b, Field::CompanyNumber));
    assert(text_field(a, Field::CompanyCategory) == text_field(b, Field::CompanyCategory));
    assert(text_field(a, Field::CompanyStatus) == text_field(b, Field::CompanyStatus));
    assert(text_field(a, Field::CountryOfOrigin) == text_field(b, Field::CountryOfOrigin));
}

/// Two documents that are the same to a response envelope decode alike:
/// keys that the schema does not declare, at whatever level, neither make
/// decoding fail nor change any field of the record.
pub proof fn lemma_documents_decode_alike(a: Json, b: Json, revision: Revision)
    requires
        documents_agree(a, b),
    ensures
        Company::of_document(a, revision) == Company::of_document(b, revision),
{
    match (a, b) {
        (Json::Object(envelope_a), Json::Object(envelope_b)) => {
            match (
                lookup(envelope_a, Field::PrimaryTopic),
                lookup(envelope_b, Field::PrimaryTopic),
            ) {
                (Some(Json::Object(inner_a)), Some(Json::Object(inner_b))) => {
                    if company_agree(inner_a, inner_b) {
                        lemma_company_decodes_alike(inner_a, inner_b, revision);
                    }
                },
                _ => {},
            }
        },
        _ => {},
    }
}

} // verus!
