//! What holds of decoding whatever the object: defaults, required fields, and
//! keys that the schema does not declare.

use crate::ch_date_format::Ymd;
use crate::ch_date_format_option::optional_date_of_text;
use crate::json::Json;
use crate::optionality::{Optionality, Sentinel};
use crate::reader::{
    date_field, entity_field, entity_list_field, lookup, missing, optional_date_field,
    optional_entity_field, optional_text_field, small_int_field, text_field, text_list_field,
    Fields,
};
use crate::record::{
    Accounts, Address, Company, CompanyView, LimitedPartnership, Mortgages, PreviousName, Returns,
    Revision, SICcodes,
};
use crate::schema::{lemma_wire_names_differ, DecodeError, Entity, Field};
use vstd::prelude::*;

verus! {

/// The entity declares a field with this wire name.
pub open spec fn declares(entity: Entity, key: Seq<char>) -> bool {
    exists|field: Field| field.owner() == entity && #[trigger] field.wire() == key
}

/// A field with a default whose key is absent decodes, whatever its codec,
/// and takes the empty value of that codec.
pub proof fn lemma_defaulted_field_absent(obj: Fields, field: Field, policy: Optionality)
    requires
        field.defaulted(),
        !obj.contains_key(field.wire()),
    ensures
        text_field(obj, field) == Ok::<Seq<char>, DecodeError>(Seq::empty()),
        optional_text_field(obj, field) == Ok::<Option<Seq<char>>, DecodeError>(None),
        small_int_field(obj, field) == Ok::<u8, DecodeError>(0u8),
        date_field(obj, field) == Ok::<Ymd, DecodeError>(Ymd::epoch()),
        optional_date_field(obj, field, policy) == Ok::<Option<Ymd>, DecodeError>(
            policy.empty(Ymd::epoch()),
        ),
        text_list_field(obj, field) == Ok::<Seq<Seq<char>>, DecodeError>(Seq::empty()),
        optional_entity_field(obj, field) == Ok::<Option<Fields>, DecodeError>(None),
        entity_list_field(obj, field) == Ok::<Seq<Json>, DecodeError>(Seq::empty()),
{
}

/// A field without a default whose key is absent fails, whatever its codec,
/// with `MissingField` and its own name.
pub proof fn lemma_required_field_absent(obj: Fields, field: Field, policy: Optionality)
    requires
        !field.defaulted(),
        !obj.contains_key(field.wire()),
    ensures
        text_field(obj, field) == Err::<Seq<char>, DecodeError>(missing(field)),
        optional_text_field(obj, field) == Err::<Option<Seq<char>>, DecodeError>(missing(field)),
        small_int_field(obj, field) == Err::<u8, DecodeError>(missing(field)),
        date_field(obj, field) == Err::<Ymd, DecodeError>(missing(field)),
        optional_date_field(obj, field, policy) == Err::<Option<Ymd>, DecodeError>(missing(field)),
        text_list_field(obj, field) == Err::<Seq<Seq<char>>, DecodeError>(missing(field)),
        entity_field(obj, field) == Err::<Fields, DecodeError>(missing(field)),
        optional_entity_field(obj, field) == Err::<Option<Fields>, DecodeError>(missing(field)),
        entity_list_field(obj, field) == Err::<Seq<Json>, DecodeError>(missing(field)),
{
}

/// The wire's mark of an absent date, the empty string, decodes to a value
/// that counts as absent under the field's policy.
pub proof fn lemma_absent_date_is_empty(obj: Fields, field: Field, policy: Optionality)
    requires
        lookup(obj, field) == Some(Json::Text(Seq::empty())),
    ensures
        optional_date_field(obj, field, policy) == Ok::<Option<Ymd>, DecodeError>(
            policy.empty(Ymd::epoch()),
        ),
        policy.holds_empty(policy.empty(Ymd::epoch()), Ymd::epoch()),
{
    assert(optional_date_of_text(Seq::<char>::empty()) is Ok);
}

/// The two objects hold the same under every key that the entity declares.
pub open spec fn agree_on(entity: Entity, a: Fields, b: Fields) -> bool {
    forall|field: Field| field.owner() == entity ==> #[trigger] lookup(a, field) == lookup(b, field)
}

/// An object with one more key, or one key less, holds the same under every
/// key that the entity declares, where the entity does not declare that key.
pub proof fn lemma_unknown_key_agrees(entity: Entity, obj: Fields, key: Seq<char>, value: Json)
    requires
        !declares(entity, key),
    ensures
        agree_on(entity, obj.insert(key, value), obj),
        agree_on(entity, obj.remove(key), obj),
{
    assert forall|field: Field| field.owner() == entity implies #[trigger] lookup(
        obj.insert(key, value),
        field,
    ) == lookup(obj, field) by {
        assert(field.wire() != key);
    }
    assert forall|field: Field| field.owner() == entity implies #[trigger] lookup(
        obj.remove(key),
        field,
    ) == lookup(obj, field) by {
        assert(field.wire() != key);
    }
}

/// An address decodes alike from two objects that hold the same under the keys
/// that it declares.
pub proof fn lemma_address_reads_declared_keys(a: Fields, b: Fields)
    requires
        agree_on(Entity::Address, a, b),
    ensures
        Address::of_fields(a) == Address::of_fields(b),
{
}

/// A former name decodes alike from two objects that hold the same under the keys
/// that it declares.
pub proof fn lemma_previous_name_reads_declared_keys(a: Fields, b: Fields, revision: Revision)
    requires
        agree_on(Entity::PreviousName, a, b),
    ensures
        PreviousName::of_fields(a, revision) == PreviousName::of_fields(b, revision),
{
}

/// An accounts summary decodes alike from two objects that hold the same under the keys
/// that it declares.
pub proof fn lemma_accounts_reads_declared_keys(a: Fields, b: Fields, revision: Revision)
    requires
        agree_on(Entity::Accounts, a, b),
    ensures
        Accounts::of_fields(a, revision) == Accounts::of_fields(b, revision),
{
}

/// A returns summary decodes alike from two objects that hold the same under the keys
/// that it declares.
pub proof fn lemma_returns_reads_declared_keys(a: Fields, b: Fields, revision: Revision)
    requires
        agree_on(Entity::Returns, a, b),
    ensures
        Returns::of_fields(a, revision) == Returns::of_fields(b, revision),
{
}

/// Mortgage counters decodes alike from two objects that hold the same under the keys
/// that it declares.
pub proof fn lemma_mortgages_reads_declared_keys(a: Fields, b: Fields)
    requires
        agree_on(Entity::Mortgages, a, b),
    ensures
        Mortgages::of_fields(a) == Mortgages::of_fields(b),
{
}

/// A SIC classification decodes alike from two objects that hold the same under the keys
/// that it declares.
pub proof fn lemma_sic_codes_reads_declared_keys(a: Fields, b: Fields)
    requires
        agree_on(Entity::SicCodes, a, b),
    ensures
        SICcodes::of_fields(a) == SICcodes::of_fields(b),
{
}

/// Partnership counters decodes alike from two objects that hold the same under the keys
/// that it declares.
pub proof fn lemma_partnership_reads_declared_keys(a: Fields, b: Fields)
    requires
        agree_on(Entity::LimitedPartnerships, a, b),
    ensures
        LimitedPartnership::of_fields(a) == LimitedPartnership::of_fields(b),
{
}

/// A company decodes alike from two objects that hold the same under the keys
/// that it declares.
#[verifier::rlimit(40)]
pub proof fn lemma_company_reads_declared_keys(a: Fields, b: Fields, revision: Revision)
    requires
        agree_on(Entity::Company, a, b),
    ensures
        Company::of_fields(a, revision) == Company::of_fields(b, revision),
{
    assert(lookup(a, Field::CompanyName) == lookup(b, Field::CompanyName));
    assert(lookup(a, Field::CompanyNumber) == lookup(b, Field::CompanyNumber));
    assert(lookup(a, Field::RegAddress) == lookup(b, Field::RegAddress));
    assert(lookup(a, Field::CompanyCategory) == lookup(b, Field::CompanyCategory));
    assert(lookup(a, Field::CompanyStatus) == lookup(b, Field::CompanyStatus));
    assert(lookup(a, Field::CountryOfOrigin) == lookup(b, Field::CountryOfOrigin));
    assert(lookup(a, Field::IncorporationDate) == lookup(b, Field::IncorporationDate));
    assert(lookup(a, Field::RegistrationDate) == lookup(b, Field::RegistrationDate));
    assert(lookup(a, Field::DissolutionDate) == lookup(b, Field::DissolutionDate));
    assert(lookup(a, Field::PreviousNames) == lookup(b, Field::PreviousNames));
    assert(lookup(a, Field::Accounts) == lookup(b, Field::Accounts));
    assert(lookup(a, Field::Returns) == lookup(b, Field::Returns));
    assert(lookup(a, Field::Mortgages) == lookup(b, Field::Mortgages));
    assert(lookup(a, Field::SicCodes) == lookup(b, Field::SicCodes));
    assert(lookup(a, Field::LimitedPartnerships) == lookup(b, Field::LimitedPartnerships));
}

/// An address decodes alike with and without a key that the entity does not declare.
pub proof fn lemma_address_ignores_unknown_key(obj: Fields, key: Seq<char>, value: Json)
    requires
        !declares(Entity::Address, key),
    ensures
        Address::of_fields(obj.insert(key, value)) == Address::of_fields(obj),
        Address::of_fields(obj.remove(key)) == Address::of_fields(obj),
{
    lemma_unknown_key_agrees(Entity::Address, obj, key, value);
    lemma_address_reads_declared_keys(obj.insert(key, value), obj);
    lemma_address_reads_declared_keys(obj.remove(key), obj);
}

/// A former name decodes alike with and without a key that the entity does not declare.
pub proof fn lemma_previous_name_ignores_unknown_key(
    obj: Fields,
    key: Seq<char>,
    value: Json,
    revision: Revision,
)
    requires
        !declares(Entity::PreviousName, key),
    ensures
        PreviousName::of_fields(obj.insert(key, value), revision) == PreviousName::of_fields(
            obj,
            revision,
        ),
        PreviousName::of_fields(obj.remove(key), revision) == PreviousName::of_fields(
            obj,
            revision,
        ),
{
    lemma_unknown_key_agrees(Entity::PreviousName, obj, key, value);
    lemma_previous_name_reads_declared_keys(obj.insert(key, value), obj, revision);
    lemma_previous_name_reads_declared_keys(obj.remove(key), obj, revision);
}

/// An accounts summary decodes alike with and without a key that the entity does not declare.
pub proof fn lemma_accounts_ignores_unknown_key(
    obj: Fields,
    key: Seq<char>,
    value: Json,
    revision: Revision,
)
    requires
        !declares(Entity::Accounts, key),
    ensures
        Accounts::of_fields(obj.insert(key, value), revision) == Accounts::of_fields(obj, revision),
        Accounts::of_fields(obj.remove(key), revision) == Accounts::of_fields(obj, revision),
{
    lemma_unknown_key_agrees(Entity::Accounts, obj, key, value);
    lemma_accounts_reads_declared_keys(obj.insert(key, value), obj, revision);
    lemma_accounts_reads_declared_keys(obj.remove(key), obj, revision);
}

/// A returns summary decodes alike with and without a key that the entity does not declare.
pub proof fn lemma_returns_ignores_unknown_key(
    obj: Fields,
    key: Seq<char>,
    value: Json,
    revision: Revision,
)
    requires
        !declares(Entity::Returns, key),
    ensures
        Returns::of_fields(obj.insert(key, value), revision) == Returns::of_fields(obj, revision),
        Returns::of_fields(obj.remove(key), revision) == Returns::of_fields(obj, revision),
{
    lemma_unknown_key_agrees(Entity::Returns, obj, key, value);
    lemma_returns_reads_declared_keys(obj.insert(key, value), obj, revision);
    lemma_returns_reads_declared_keys(obj.remove(key), obj, revision);
}

/// Mortgage counters decode alike with and without a key that the entity does not declare.
pub proof fn lemma_mortgages_ignores_unknown_key(obj: Fields, key: Seq<char>, value: Json)
    requires
        !declares(Entity::Mortgages, key),
    ensures
        Mortgages::of_fields(obj.insert(key, value)) == Mortgages::of_fields(obj),
        Mortgages::of_fields(obj.remove(key)) == Mortgages::of_fields(obj),
{
    lemma_unknown_key_agrees(Entity::Mortgages, obj, key, value);
    lemma_mortgages_reads_declared_keys(obj.insert(key, value), obj);
    lemma_mortgages_reads_declared_keys(obj.remove(key), obj);
}

/// A SIC classification decodes alike with and without a key that the entity does not declare.
pub proof fn lemma_sic_codes_ignores_unknown_key(obj: Fields, key: Seq<char>, value: Json)
    requires
        !declares(Entity::SicCodes, key),
    ensures
        SICcodes::of_fields(obj.insert(key, value)) == SICcodes::of_fields(obj),
        SICcodes::of_fields(obj.remove(key)) == SICcodes::of_fields(obj),
{
    lemma_unknown_key_agrees(Entity::SicCodes, obj, key, value);
    lemma_sic_codes_reads_declared_keys(obj.insert(key, value), obj);
    lemma_sic_codes_reads_declared_keys(obj.remove(key), obj);
}

/// Partnership counters decode alike with and without a key that the entity does not declare.
pub proof fn lemma_partnership_ignores_unknown_key(obj: Fields, key: Seq<char>, value: Json)
    requires
        !declares(Entity::LimitedPartnerships, key),
    ensures
        LimitedPartnership::of_fields(obj.insert(key, value)) == LimitedPartnership::of_fields(obj),
        LimitedPartnership::of_fields(obj.remove(key)) == LimitedPartnership::of_fields(obj),
{
    lemma_unknown_key_agrees(Entity::LimitedPartnerships, obj, key, value);
    lemma_partnership_reads_declared_keys(obj.insert(key, value), obj);
    lemma_partnership_reads_declared_keys(obj.remove(key), obj);
}

/// A company decodes alike with and without a key that the entity does not declare.
pub proof fn lemma_company_ignores_unknown_key(
    obj: Fields,
    key: Seq<char>,
    value: Json,
    revision: Revision,
)
    requires
        !declares(Entity::Company, key),
    ensures
        Company::of_fields(obj.insert(key, value), revision) == Company::of_fields(obj, revision),
        Company::of_fields(obj.remove(key), revision) == Company::of_fields(obj, revision),
{
    lemma_unknown_key_agrees(Entity::Company, obj, key, value);
    lemma_company_reads_declared_keys(obj.insert(key, value), obj, revision);
    lemma_company_reads_declared_keys(obj.remove(key), obj, revision);
}

/// A response envelope decodes alike with and without a key that it does not declare.
pub proof fn lemma_envelope_ignores_unknown_key(
    envelope: Fields,
    key: Seq<char>,
    value: Json,
    revision: Revision,
)
    requires
        !declares(Entity::Envelope, key),
    ensures
        Company::of_document(Json::Object(envelope.insert(key, value)), revision)
            == Company::of_document(Json::Object(envelope), revision),
{
    assert(Field::PrimaryTopic.owner() == Entity::Envelope);
    assert(Field::PrimaryTopic.wire() != key);
}

/// An object with something put under the key of a field holds what it
/// held under the entity's other keys.
pub proof fn lemma_other_fields_stay_after_insert(obj: Fields, field: Field, value: Json)
    ensures
        forall|other: Field|
            other.owner() == field.owner() && other != field ==> #[trigger] lookup(
                obj.insert(field.wire(), value),
                other,
            ) == lookup(obj, other),
{
    assert forall|other: Field|
        other.owner() == field.owner() && other != field implies #[trigger] lookup(
        obj.insert(field.wire(), value),
        other,
    ) == lookup(obj, other) by {
        lemma_wire_names_differ(other, field);
    }
}

/// An address whose object lacks the key of a field without a default
/// does not decode. The failure is `MissingField` of that field, unless
/// another field fails first: then that failure stands whatever is put
/// under the missing key.
pub proof fn lemma_address_fails_without_required_key(
    obj: Fields,
    field: Field,
    value: Json,
)
    requires
        field.owner() == Entity::Address,
        !field.defaulted(),
        !obj.contains_key(field.wire()),
    ensures
        Address::of_fields(obj) is Err,
        Address::of_fields(obj)->Err_0 == missing(field)
            || Address::of_fields(obj.insert(field.wire(), value))
            == Address::of_fields(obj),
{
    lemma_required_field_absent(obj, field, Optionality::Nullable);
    lemma_other_fields_stay_after_insert(obj, field, value);
}

/// A former name whose object lacks the key of a field without a default
/// does not decode. The failure is `MissingField` of that field, unless
/// another field fails first: then that failure stands whatever is put
/// under the missing key.
pub proof fn lemma_previous_name_fails_without_required_key(
    obj: Fields,
    field: Field,
    value: Json,
    revision: Revision,
)
    requires
        field.owner() == Entity::PreviousName,
        !field.defaulted(),
        !obj.contains_key(field.wire()),
    ensures
        PreviousName::of_fields(obj, revision) is Err,
        PreviousName::of_fields(obj, revision)->Err_0 == missing(field)
            || PreviousName::of_fields(obj.insert(field.wire(), value), revision)
            == PreviousName::of_fields(obj, revision),
{
    lemma_required_field_absent(obj, field, revision.policy_of(field));
    lemma_other_fields_stay_after_insert(obj, field, value);
}

/// An accounts summary whose object lacks the key of a field without a default
/// does not decode. The failure is `MissingField` of that field, unless
/// another field fails first: then that failure stands whatever is put
/// under the missing key.
pub proof fn lemma_accounts_fails_without_required_key(
    obj: Fields,
    field: Field,
    value: Json,
    revision: Revision,
)
    requires
        field.owner() == Entity::Accounts,
        !field.defaulted(),
        !obj.contains_key(field.wire()),
    ensures
        Accounts::of_fields(obj, revision) is Err,
        Accounts::of_fields(obj, revision)->Err_0 == missing(field)
            || Accounts::of_fields(obj.insert(field.wire(), value), revision)
            == Accounts::of_fields(obj, revision),
{
    lemma_required_field_absent(obj, field, revision.policy_of(field));
    lemma_other_fields_stay_after_insert(obj, field, value);
}

/// A returns summary whose object lacks the key of a field without a default
/// does not decode. The failure is `MissingField` of that field, unless
/// another field fails first: then that failure stands whatever is put
/// under the missing key.
pub proof fn lemma_returns_fails_without_required_key(
    obj: Fields,
    field: Field,
    value: Json,
    revision: Revision,
)
    requires
        field.owner() == Entity::Returns,
        !field.defaulted(),
        !obj.contains_key(field.wire()),
    ensures
        Returns::of_fields(obj, revision) is Err,
        Returns::of_fields(obj, revision)->Err_0 == missing(field)
            || Returns::of_fields(obj.insert(field.wire(), value), revision)
            == Returns::of_fields(obj, revision),
{
    lemma_required_field_absent(obj, field, revision.policy_of(field));
    lemma_other_fields_stay_after_insert(obj, field, value);
}

/// Mortgage counters whose object lacks the key of a field without a default
/// do not decode. The failure is `MissingField` of that field, unless
/// another field fails first: then that failure stands whatever is put
/// under the missing key.
pub proof fn lemma_mortgages_fails_without_required_key(
    obj: Fields,
    field: Field,
    value: Json,
)
    requires
        field.owner() == Entity::Mortgages,
        !field.defaulted(),
        !obj.contains_key(field.wire()),
    ensures
        Mortgages::of_fields(obj) is Err,
        Mortgages::of_fields(obj)->Err_0 == missing(field)
            || Mortgages::of_fields(obj.insert(field.wire(), value))
            == Mortgages::of_fields(obj),
{
    lemma_required_field_absent(obj, field, Optionality::Nullable);
    lemma_other_fields_stay_after_insert(obj, field, value);
}

/// A SIC classification whose object lacks the key of a field without a default
/// does not decode. The failure is `MissingField` of that field, unless
/// another field fails first: then that failure stands whatever is put
/// under the missing key.
pub proof fn lemma_sic_codes_fails_without_required_key(
    obj: Fields,
    field: Field,
    value: Json,
)
    requires
        field.owner() == Entity::SicCodes,
        !field.defaulted(),
        !obj.contains_key(field.wire()),
    ensures
        SICcodes::of_fields(obj) is Err,
        SICcodes::of_fields(obj)->Err_0 == missing(field)
            || SICcodes::of_fields(obj.insert(field.wire(), value))
            == SICcodes::of_fields(obj),
{
    lemma_required_field_absent(obj, field, Optionality::Nullable);
    lemma_other_fields_stay_after_insert(obj, field, value);
}

/// Partnership counters whose object lacks the key of a field without a default
/// do not decode. The failure is `MissingField` of that field, unless
/// another field fails first: then that failure stands whatever is put
/// under the missing key.
pub proof fn lemma_partnership_fails_without_required_key(
    obj: Fields,
    field: Field,
    value: Json,
)
    requires
        field.owner() == Entity::LimitedPartnerships,
        !field.defaulted(),
        !obj.contains_key(field.wire()),
    ensures
        LimitedPartnership::of_fields(obj) is Err,
        LimitedPartnership::of_fields(obj)->Err_0 == missing(field)
            || LimitedPartnership::of_fields(obj.insert(field.wire(), value))
            == LimitedPartnership::of_fields(obj),
{
    lemma_required_field_absent(obj, field, Optionality::Nullable);
    lemma_other_fields_stay_after_insert(obj, field, value);
}

/// A company whose object lacks the key of a field without a default
/// does not decode. The failure is `MissingField` of that field, unless
/// another field fails first: then that failure stands whatever is put
/// under the missing key.
#[verifier::rlimit(40)]
pub proof fn lemma_company_fails_without_required_key(
    obj: Fields,
    field: Field,
    value: Json,
    revision: Revision,
)
    requires
        field.owner() == Entity::Company,
        !field.defaulted(),
        !obj.contains_key(field.wire()),
    ensures
        Company::of_fields(obj, revision) is Err,
        Company::of_fields(obj, revision)->Err_0 == missing(field)
            || Company::of_fields(obj.insert(field.wire(), value), revision)
            == Company::of_fields(obj, revision),
{
    lemma_required_field_absent(obj, field, revision.policy_of(field));
    lemma_other_fields_stay_after_insert(obj, field, value);
}

/// A response envelope without its key for the primary topic fails with
/// `MissingField` of that key.
pub proof fn lemma_envelope_fails_without_its_key(envelope: Fields, revision: Revision)
    requires
        !envelope.contains_key(Field::PrimaryTopic.wire()),
    ensures
        Company::of_document(Json::Object(envelope), revision) == Err::<CompanyView, DecodeError>(
            missing(Field::PrimaryTopic),
        ),
{
}

/// An object without the key of a field holds what it held under the
/// entity's other keys.
pub proof fn lemma_other_fields_stay(obj: Fields, field: Field)
    ensures
        forall|other: Field|
            other.owner() == field.owner() && other != field ==> #[trigger] lookup(
                obj.remove(field.wire()),
                other,
            ) == lookup(obj, other),
{
    assert forall|other: Field|
        other.owner() == field.owner() && other != field implies #[trigger] lookup(
        obj.remove(field.wire()),
        other,
    ) == lookup(obj, other) by {
        lemma_wire_names_differ(other, field);
    }
}

/// An address that decodes still decodes where the key of one of its fields
/// with a default is left out.
pub proof fn lemma_address_decodes_without_defaulted_key(obj: Fields, field: Field)
    requires
        field.owner() == Entity::Address,
        field.defaulted(),
        Address::of_fields(obj) is Ok,
    ensures
        Address::of_fields(obj.remove(field.wire())) is Ok,
{
    lemma_other_fields_stay(obj, field);
    lemma_defaulted_field_absent(obj.remove(field.wire()), field, Optionality::Nullable);
}

/// A former name that decodes still decodes where the key of one of its fields
/// with a default is left out.
pub proof fn lemma_previous_name_decodes_without_defaulted_key(
    obj: Fields,
    field: Field,
    revision: Revision,
)
    requires
        field.owner() == Entity::PreviousName,
        field.defaulted(),
        PreviousName::of_fields(obj, revision) is Ok,
    ensures
        PreviousName::of_fields(obj.remove(field.wire()), revision) is Ok,
{
    lemma_other_fields_stay(obj, field);
    lemma_defaulted_field_absent(obj.remove(field.wire()), field, revision.policy_of(field));
}

/// An accounts summary that decodes still decodes where the key of one of its fields
/// with a default is left out.
pub proof fn lemma_accounts_decodes_without_defaulted_key(
    obj: Fields,
    field: Field,
    revision: Revision,
)
    requires
        field.owner() == Entity::Accounts,
        field.defaulted(),
        Accounts::of_fields(obj, revision) is Ok,
    ensures
        Accounts::of_fields(obj.remove(field.wire()), revision) is Ok,
{
    lemma_other_fields_stay(obj, field);
    lemma_defaulted_field_absent(obj.remove(field.wire()), field, revision.policy_of(field));
}

/// A company that decodes still decodes where the key of one of its fields
/// with a default is left out.
#[verifier::rlimit(40)]
pub proof fn lemma_company_decodes_without_defaulted_key(
    obj: Fields,
    field: Field,
    revision: Revision,
)
    requires
        field.owner() == Entity::Company,
        field.defaulted(),
        Company::of_fields(obj, revision) is Ok,
    ensures
        Company::of_fields(obj.remove(field.wire()), revision) is Ok,
{
    lemma_other_fields_stay(obj, field);
    lemma_defaulted_field_absent(obj.remove(field.wire()), field, revision.policy_of(field));
}

/// A company that decodes from an object without the key of one of its
/// fields with a default holds the empty value of that field.
pub proof fn lemma_company_defaults(obj: Fields, revision: Revision)
    requires
        Company::of_fields(obj, revision) is Ok,
    ensures
        ({
            let company = Company::of_fields(obj, revision)->Ok_0;
            let policy = |field: Field| revision.policy_of(field);
            &&& !obj.contains_key(Field::CountryOfOrigin.wire()) ==> company.country_of_origin
                == Seq::<char>::empty()
            &&& !obj.contains_key(Field::IncorporationDate.wire()) ==> company.incorporation_date
                == policy(Field::IncorporationDate).empty(Ymd::epoch())
            &&& !obj.contains_key(Field::RegistrationDate.wire()) ==> company.registration_date
                == policy(Field::RegistrationDate).empty(Ymd::epoch())
            &&& !obj.contains_key(Field::DissolutionDate.wire()) ==> company.dissolution_date
                == policy(Field::DissolutionDate).empty(Ymd::epoch())
            &&& !obj.contains_key(Field::PreviousNames.wire()) ==> company.previous_name.len() == 0
            &&& !obj.contains_key(Field::Mortgages.wire()) ==> company.mortgages == policy(
                Field::Mortgages,
            ).empty(Mortgages::sentinel())
            &&& !obj.contains_key(Field::SicCodes.wire()) ==> company.sic_codes == policy(
                Field::SicCodes,
            ).empty(SICcodes::sentinel())
            &&& !obj.contains_key(Field::LimitedPartnerships.wire()) ==> company.limited_partnership
                == policy(Field::LimitedPartnerships).empty(LimitedPartnership::sentinel())
        }),
{
}

} // verus!
