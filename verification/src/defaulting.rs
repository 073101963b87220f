//! Leaving out keys of fields that have a default, any number of them and at
//! every level of a document at once: decoding still succeeds, each field
//! whose key was left out takes its empty value, and every other field is
//! what it was.

use crate::ch_date_format::Ymd;
use crate::decode::{optional_entity, required_entity};
use crate::json::{no_fields, Json};
use crate::laws::{
    agree_on, lemma_mortgages_reads_declared_keys, lemma_partnership_reads_declared_keys,
    lemma_returns_reads_declared_keys, lemma_sic_codes_reads_declared_keys,
};
use crate::optionality::Sentinel;
use crate::reader::{
    entity_field, entity_list_field, lookup, optional_date_field, optional_entity_field,
    text_field, Fields,
};
use crate::record::{
    Accounts, AccountsView, Address, AddressView, Company, CompanyView, LimitedPartnership,
    Mortgages, PreviousName, PreviousNameView, Returns, ReturnsView, Revision, SICcodes,
    SICcodesView,
};
use crate::schema::{DecodeError, Entity, Field};
use vstd::prelude::*;

verus! {

/// The value under a key was kept, or the key was left out and its field
/// has a default.
pub open spec fn kept_or_left_out(field: Field, full: Option<Json>, thin: Option<Json>) -> bool {
    thin == full || (field.defaulted() && thin is None)
}

/// The second object holds under each key that the entity declares what the
/// first holds, or nothing where the field has a default.
pub open spec fn thinned(entity: Entity, full: Fields, thin: Fields) -> bool {
    forall|field: Field|
        field.owner() == entity ==> kept_or_left_out(
            field,
            lookup(full, field),
            #[trigger] lookup(thin, field),
        )
}

/// An object from which any keys were taken out is thinned, where each of
/// them that the entity declares is the key of a field with a default.
pub proof fn lemma_left_out_keys_thin(entity: Entity, full: Fields, keys: Set<Seq<char>>)
    requires
        forall|field: Field|
            field.owner() == entity && keys.contains(#[trigger] field.wire())
                ==> field.defaulted(),
    ensures
        thinned(entity, full, full.remove_keys(keys)),
{
    assert forall|field: Field| field.owner() == entity implies kept_or_left_out(
        field,
        lookup(full, field),
        #[trigger] lookup(full.remove_keys(keys), field),
    ) by {
        if keys.contains(field.wire()) {
            assert(field.defaulted());
        }
    }
}

/// The fields of the object under a key; none where no object stands there.
pub open spec fn inner(obj: Fields, field: Field) -> Fields {
    match lookup(obj, field) {
        Some(Json::Object(fields)) => fields,
        _ => no_fields(),
    }
}

impl AddressView {
    /// The address with the empty string in each field whose key the object
    /// lacks and which has a default.
    pub open spec fn emptied(self, thin: Fields) -> AddressView {
        let blank = |field: Field, value: Seq<char>|
            if lookup(thin, field) is None {
                Seq::<char>::empty()
            } else {
                value
            };
        AddressView {
            care_of: blank(Field::CareOf, self.care_of),
            po_box: blank(Field::PoBox, self.po_box),
            address_line1: self.address_line1,
            address_line2: blank(Field::AddressLine2, self.address_line2),
            post_town: self.post_town,
            county: blank(Field::County, self.county),
            country: blank(Field::Country, self.country),
            postcode: blank(Field::Postcode, self.postcode),
        }
    }
}

impl AccountsView {
    /// The accounts summary with the empty value in each field whose key
    /// the object lacks and which has a default.
    pub open spec fn emptied(self, thin: Fields) -> AccountsView {
        AccountsView {
            ref_day: if lookup(thin, Field::AccountRefDay) is None {
                0u8
            } else {
                self.ref_day
            },
            ref_month: if lookup(thin, Field::AccountRefMonth) is None {
                0u8
            } else {
                self.ref_month
            },
            next_due_date: self.next_due_date,
            last_made_up_date: self.last_made_up_date,
            category: if lookup(thin, Field::AccountCategory) is None {
                None
            } else {
                self.category
            },
        }
    }
}

impl PreviousNameView {
    /// The former name with the empty value of the revision for its date
    /// where the object lacks the key of the date.
    pub open spec fn emptied(self, thin: Fields, revision: Revision) -> PreviousNameView {
        PreviousNameView {
            date: if lookup(thin, Field::ChangeDate) is None {
                revision.policy_of(Field::ChangeDate).empty(Ymd::epoch())
            } else {
                self.date
            },
            name: self.name,
        }
    }

    /// The former names, each emptied by its own object.
    pub open spec fn all_emptied(
        names: Seq<PreviousNameView>,
        thin: Seq<Json>,
        revision: Revision,
    ) -> Seq<PreviousNameView> {
        Seq::new(
            names.len(),
            |i: int| names[i].emptied(Company::fields_of_document(thin[i]), revision),
        )
    }
}

/// An address decodes from a thinned object to the address of the full
/// object, emptied where keys were left out.
pub proof fn lemma_address_thinned(full: Fields, thin: Fields)
    requires
        thinned(Entity::Address, full, thin),
        Address::of_fields(full) is Ok,
    ensures
        Address::of_fields(thin) == Ok::<AddressView, DecodeError>(
            Address::of_fields(full)->Ok_0.emptied(thin),
        ),
{
    assert(kept_or_left_out(
        Field::CareOf,
        lookup(full, Field::CareOf),
        lookup(thin, Field::CareOf),
    ));
    assert(kept_or_left_out(Field::PoBox, lookup(full, Field::PoBox), lookup(thin, Field::PoBox)));
    assert(kept_or_left_out(
        Field::AddressLine1,
        lookup(full, Field::AddressLine1),
        lookup(thin, Field::AddressLine1),
    ));
    assert(kept_or_left_out(
        Field::AddressLine2,
        lookup(full, Field::AddressLine2),
        lookup(thin, Field::AddressLine2),
    ));
    assert(kept_or_left_out(
        Field::PostTown,
        lookup(full, Field::PostTown),
        lookup(thin, Field::PostTown),
    ));
    assert(kept_or_left_out(
        Field::County,
        lookup(full, Field::County),
        lookup(thin, Field::County),
    ));
    assert(kept_or_left_out(
        Field::Country,
        lookup(full, Field::Country),
        lookup(thin, Field::Country),
    ));
    assert(kept_or_left_out(
        Field::Postcode,
        lookup(full, Field::Postcode),
        lookup(thin, Field::Postcode),
    ));
}

/// An accounts summary decodes from a thinned object to the summary of the
/// full object, emptied where keys were left out.
pub proof fn lemma_accounts_thinned(full: Fields, thin: Fields, revision: Revision)
    requires
        thinned(Entity::Accounts, full, thin),
        Accounts::of_fields(full, revision) is Ok,
    ensures
        Accounts::of_fields(thin, revision) == Ok::<AccountsView, DecodeError>(
            Accounts::of_fields(full, revision)->Ok_0.emptied(thin),
        ),
{
    assert(kept_or_left_out(
        Field::AccountRefDay,
        lookup(full, Field::AccountRefDay),
        lookup(thin, Field::AccountRefDay),
    ));
    assert(kept_or_left_out(
        Field::AccountRefMonth,
        lookup(full, Field::AccountRefMonth),
        lookup(thin, Field::AccountRefMonth),
    ));
    assert(kept_or_left_out(
        Field::AccountsNextDueDate,
        lookup(full, Field::AccountsNextDueDate),
        lookup(thin, Field::AccountsNextDueDate),
    ));
    assert(kept_or_left_out(
        Field::AccountsLastMadeUpDate,
        lookup(full, Field::AccountsLastMadeUpDate),
        lookup(thin, Field::AccountsLastMadeUpDate),
    ));
    assert(kept_or_left_out(
        Field::AccountCategory,
        lookup(full, Field::AccountCategory),
        lookup(thin, Field::AccountCategory),
    ));
}

/// A former name decodes from a thinned object to the former name of the
/// full object, emptied where the key of its date was left out.
pub proof fn lemma_previous_name_thinned(full: Fields, thin: Fields, revision: Revision)
    requires
        thinned(Entity::PreviousName, full, thin),
        PreviousName::of_fields(full, revision) is Ok,
    ensures
        PreviousName::of_fields(thin, revision) == Ok::<PreviousNameView, DecodeError>(
            PreviousName::of_fields(full, revision)->Ok_0.emptied(thin, revision),
        ),
{
    assert(kept_or_left_out(
        Field::ChangeDate,
        lookup(full, Field::ChangeDate),
        lookup(thin, Field::ChangeDate),
    ));
    assert(kept_or_left_out(
        Field::FormerName,
        lookup(full, Field::FormerName),
        lookup(thin, Field::FormerName),
    ));
}

/// An entity none of whose fields has a default holds the same in a
/// thinned object as in the full one.
pub proof fn lemma_thinned_without_defaults(entity: Entity, full: Fields, thin: Fields)
    requires
        thinned(entity, full, thin),
        forall|field: Field| field.owner() == entity ==> !#[trigger] field.defaulted(),
    ensures
        agree_on(entity, thin, full),
{
    assert forall|field: Field| field.owner() == entity implies #[trigger] lookup(thin, field)
        == lookup(full, field) by {
        assert(kept_or_left_out(field, lookup(full, field), lookup(thin, field)));
        assert(!field.defaulted());
    }
}

/// What stands under the key of a nested entity was kept, or the key was
/// left out and its field has a default, or an object stands there that is
/// the full one thinned.
pub open spec fn nested_thinned(
    entity: Entity,
    field: Field,
    full: Option<Json>,
    thin: Option<Json>,
) -> bool {
    kept_or_left_out(field, full, thin) || (full matches Some(Json::Object(inner_full))
        && thin matches Some(Json::Object(inner_thin)) && thinned(entity, inner_full, inner_thin))
}

/// An item of the list of former names was kept, or is the full one thinned.
pub open spec fn item_thinned(full: Json, thin: Json) -> bool {
    thin == full || (full matches Json::Object(inner_full) && thin matches Json::Object(inner_thin)
        && thinned(Entity::PreviousName, inner_full, inner_thin))
}

/// The second list is as long as the first, and item by item the first one
/// thinned.
pub open spec fn items_thinned(full: Seq<Json>, thin: Seq<Json>) -> bool {
    &&& full.len() == thin.len()
    &&& forall|i: int| 0 <= i < full.len() ==> item_thinned(full[i], #[trigger] thin[i])
}

/// What stands under the key of the former names was kept, or the key was
/// left out, or a list stands there that is the full one thinned.
pub open spec fn names_thinned(full: Option<Json>, thin: Option<Json>) -> bool {
    kept_or_left_out(Field::PreviousNames, full, thin) || (full matches Some(
        Json::List(items_full),
    ) && thin matches Some(Json::List(items_thin)) && items_thinned(items_full, items_thin))
}

/// The second object is the first with keys of fields that have a default
/// left out, in the record itself and in the entities nested in it.
pub open spec fn company_thinned(full: Fields, thin: Fields) -> bool {
    let kept = |field: Field| kept_or_left_out(field, lookup(full, field), lookup(thin, field));
    let nested = |entity: Entity, field: Field|
        nested_thinned(entity, field, lookup(full, field), lookup(thin, field));
    &&& kept(Field::CompanyName)
    &&& kept(Field::CompanyNumber)
    &&& nested(Entity::Address, Field::RegAddress)
    &&& kept(Field::CompanyCategory)
    &&& kept(Field::CompanyStatus)
    &&& kept(Field::CountryOfOrigin)
    &&& kept(Field::IncorporationDate)
    &&& kept(Field::RegistrationDate)
    &&& kept(Field::DissolutionDate)
    &&& names_thinned(lookup(full, Field::PreviousNames), lookup(thin, Field::PreviousNames))
    &&& nested(Entity::Accounts, Field::Accounts)
    &&& nested(Entity::Returns, Field::Returns)
    &&& nested(Entity::Mortgages, Field::Mortgages)
    &&& nested(Entity::SicCodes, Field::SicCodes)
    &&& nested(Entity::LimitedPartnerships, Field::LimitedPartnerships)
}

/// The second document is the first with keys of fields that have a default
/// left out, at any level below the envelope.
pub open spec fn document_thinned(full: Json, thin: Json) -> bool {
    thin == full || (full matches Json::Object(envelope_full) && thin matches Json::Object(
        envelope_thin,
    ) && lookup(envelope_full, Field::PrimaryTopic) matches Some(Json::Object(inner_full))
        && lookup(envelope_thin, Field::PrimaryTopic) matches Some(Json::Object(inner_thin))
        && company_thinned(inner_full, inner_thin))
}

impl CompanyView {
    /// The company with the empty value in each field whose key the object
    /// lacks and which has a default, in the record itself and in the
    /// entities nested in it.
    pub open spec fn emptied(self, thin: Fields, revision: Revision) -> CompanyView {
        let absent = |field: Field| lookup(thin, field) is None;
        let date = |field: Field, value: Option<Ymd>|
            if absent(field) {
                revision.policy_of(field).empty(Ymd::epoch())
            } else {
                value
            };
        CompanyView {
            name: self.name,
            number: self.number,
            reg_address: self.reg_address.emptied(inner(thin, Field::RegAddress)),
            category: self.category,
            status: self.status,
            country_of_origin: if absent(Field::CountryOfOrigin) {
                Seq::empty()
            } else {
                self.country_of_origin
            },
            incorporation_date: date(Field::IncorporationDate, self.incorporation_date),
            registration_date: date(Field::RegistrationDate, self.registration_date),
            dissolution_date: date(Field::DissolutionDate, self.dissolution_date),
            previous_name: match lookup(thin, Field::PreviousNames) {
                Some(Json::List(items)) => PreviousNameView::all_emptied(
                    self.previous_name,
                    items,
                    revision,
                ),
                _ => Seq::empty(),
            },
            accounts: self.accounts.emptied(inner(thin, Field::Accounts)),
            returns: self.returns,
            mortgages: if absent(Field::Mortgages) {
                revision.policy_of(Field::Mortgages).empty(Mortgages::sentinel())
            } else {
                self.mortgages
            },
            sic_codes: if absent(Field::SicCodes) {
                revision.policy_of(Field::SicCodes).empty(SICcodes::sentinel())
            } else {
                self.sic_codes
            },
            limited_partnership: if absent(Field::LimitedPartnerships) {
                revision.policy_of(Field::LimitedPartnerships).empty(
                    LimitedPartnership::sentinel(),
                )
            } else {
                self.limited_partnership
            },
        }
    }
}

/// A company object from which any keys were taken out is thinned, where
/// each of them that the company declares is the key of a field with a
/// default.
pub proof fn lemma_left_out_keys_thin_company(full: Fields, keys: Set<Seq<char>>)
    requires
        forall|field: Field|
            field.owner() == Entity::Company && keys.contains(#[trigger] field.wire())
                ==> field.defaulted(),
    ensures
        company_thinned(full, full.remove_keys(keys)),
{
    let thin = full.remove_keys(keys);
    lemma_left_out_keys_thin(Entity::Company, full, keys);
    assert(kept_or_left_out(
        Field::CompanyName,
        lookup(full, Field::CompanyName),
        lookup(thin, Field::CompanyName),
    ));
    assert(kept_or_left_out(
        Field::CompanyNumber,
        lookup(full, Field::CompanyNumber),
        lookup(thin, Field::CompanyNumber),
    ));
    assert(kept_or_left_out(
        Field::CompanyCategory,
        lookup(full, Field::CompanyCategory),
        lookup(thin, Field::CompanyCategory),
    ));
    assert(kept_or_left_out(
        Field::CompanyStatus,
        lookup(full, Field::CompanyStatus),
        lookup(thin, Field::CompanyStatus),
    ));
    assert(kept_or_left_out(
        Field::CountryOfOrigin,
        lookup(full, Field::CountryOfOrigin),
        lookup(thin, Field::CountryOfOrigin),
    ));
    assert(kept_or_left_out(
        Field::IncorporationDate,
        lookup(full, Field::IncorporationDate),
        lookup(thin, Field::IncorporationDate),
    ));
    assert(kept_or_left_out(
        Field::RegistrationDate,
        lookup(full, Field::RegistrationDate),
        lookup(thin, Field::RegistrationDate),
    ));
    assert(kept_or_left_out(
        Field::DissolutionDate,
        lookup(full, Field::DissolutionDate),
        lookup(thin, Field::DissolutionDate),
    ));
    assert(kept_or_left_out(
        Field::RegAddress,
        lookup(full, Field::RegAddress),
        lookup(thin, Field::RegAddress),
    ));
    assert(kept_or_left_out(
        Field::Accounts,
        lookup(full, Field::Accounts),
        lookup(thin, Field::Accounts),
    ));
    assert(kept_or_left_out(
        Field::Returns,
        lookup(full, Field::Returns),
        lookup(thin, Field::Returns),
    ));
    assert(kept_or_left_out(
        Field::Mortgages,
        lookup(full, Field::Mortgages),
        lookup(thin, Field::Mortgages),
    ));
    assert(kept_or_left_out(
        Field::SicCodes,
        lookup(full, Field::SicCodes),
        lookup(thin, Field::SicCodes),
    ));
    assert(kept_or_left_out(
        Field::LimitedPartnerships,
        lookup(full, Field::LimitedPartnerships),
        lookup(thin, Field::LimitedPartnerships),
    ));
    assert(kept_or_left_out(
        Field::PreviousNames,
        lookup(full, Field::PreviousNames),
        lookup(thin, Field::PreviousNames),
    ));
}

/// A list of former names decodes from a thinned list to the names of the
/// full list, each emptied where the key of its date was left out.
pub proof fn lemma_names_thinned(full: Seq<Json>, thin: Seq<Json>, revision: Revision)
    requires
        items_thinned(full, thin),
        PreviousName::of_list(full, revision) is Ok,
    ensures
        PreviousName::of_list(full, revision)->Ok_0.len() == full.len(),
        PreviousName::of_list(thin, revision) == Ok::<Seq<PreviousNameView>, DecodeError>(
            PreviousNameView::all_emptied(
                PreviousName::of_list(full, revision)->Ok_0,
                thin,
                revision,
            ),
        ),
    decreases full.len(),
{
    let names = PreviousName::of_list(full, revision)->Ok_0;
    if full.len() == 0 {
        assert(PreviousNameView::all_emptied(names, thin, revision) =~= Seq::<
            PreviousNameView,
        >::empty());
    } else {
        let front_full = full.drop_last();
        let front_thin = thin.drop_last();
        assert(items_thinned(front_full, front_thin)) by {
            assert forall|i: int| 0 <= i < front_full.len() implies item_thinned(
                front_full[i],
                #[trigger] front_thin[i],
            ) by {
                assert(item_thinned(full[i], thin[i]));
            }
        }
        lemma_names_thinned(front_full, front_thin, revision);
        let front = PreviousName::of_list(front_full, revision)->Ok_0;
        let last = full.len() - 1;
        assert(item_thinned(full[last], thin[last]));
        let inner_full = full.last()->Object_0;
        let inner_thin = thin.last()->Object_0;
        lemma_previous_name_thinned(inner_full, inner_thin, revision);
        let name = PreviousName::of_fields(inner_full, revision)->Ok_0;
        assert(names == front.push(name));
        let emptied_front = PreviousNameView::all_emptied(front, front_thin, revision);
        assert(PreviousNameView::all_emptied(names, thin, revision) =~= emptied_front.push(
            name.emptied(inner_thin, revision),
        ));
    }
}

/// A company decodes from a thinned object to the company of the full
/// object, emptied where keys were left out: decoding does not fail, each
/// field whose key was left out takes its empty value, and every other
/// field is what it was.
#[verifier::rlimit(40)]
pub proof fn lemma_company_thinned(full: Fields, thin: Fields, revision: Revision)
    requires
        company_thinned(full, thin),
        Company::of_fields(full, revision) is Ok,
    ensures
        Company::of_fields(thin, revision) == Ok::<CompanyView, DecodeError>(
            Company::of_fields(full, revision)->Ok_0.emptied(thin, revision),
        ),
{
    let company = Company::of_fields(full, revision)->Ok_0;
    let emptied = company.emptied(thin, revision);
    assert(required_entity(
        entity_field(thin, Field::RegAddress),
        |fields: Fields| Address::of_fields(fields),
    ) == Ok::<AddressView, DecodeError>(emptied.reg_address)) by {
        lemma_address_thinned(inner(full, Field::RegAddress), inner(thin, Field::RegAddress));
    }
    assert(required_entity(
        entity_field(thin, Field::Accounts),
        |fields: Fields| Accounts::of_fields(fields, revision),
    ) == Ok::<AccountsView, DecodeError>(emptied.accounts)) by {
        lemma_accounts_thinned(
            inner(full, Field::Accounts),
            inner(thin, Field::Accounts),
            revision,
        );
    }
    assert(required_entity(
        entity_field(thin, Field::Returns),
        |fields: Fields| Returns::of_fields(fields, revision),
    ) == Ok::<ReturnsView, DecodeError>(emptied.returns)) by {
        let inner_full = inner(full, Field::Returns);
        let inner_thin = inner(thin, Field::Returns);
        lemma_thinned_without_defaults(Entity::Returns, inner_full, inner_thin);
        lemma_returns_reads_declared_keys(inner_thin, inner_full, revision);
    }
    assert(optional_entity(
        optional_entity_field(thin, Field::Mortgages),
        |fields: Fields| Mortgages::of_fields(fields),
        revision.policy_of(Field::Mortgages).empty(Mortgages::sentinel()),
    ) == Ok::<Option<Mortgages>, DecodeError>(emptied.mortgages)) by {
        let inner_full = inner(full, Field::Mortgages);
        let inner_thin = inner(thin, Field::Mortgages);
        if lookup(thin, Field::Mortgages) is Some {
            lemma_thinned_without_defaults(Entity::Mortgages, inner_full, inner_thin);
            lemma_mortgages_reads_declared_keys(inner_thin, inner_full);
        }
    }
    assert(optional_entity(
        optional_entity_field(thin, Field::SicCodes),
        |fields: Fields| SICcodes::of_fields(fields),
        revision.policy_of(Field::SicCodes).empty(SICcodes::sentinel()),
    ) == Ok::<Option<SICcodesView>, DecodeError>(emptied.sic_codes)) by {
        let inner_full = inner(full, Field::SicCodes);
        let inner_thin = inner(thin, Field::SicCodes);
        if lookup(thin, Field::SicCodes) is Some {
            lemma_thinned_without_defaults(Entity::SicCodes, inner_full, inner_thin);
            lemma_sic_codes_reads_declared_keys(inner_thin, inner_full);
        }
    }
    assert(optional_entity(
        optional_entity_field(thin, Field::LimitedPartnerships),
        |fields: Fields| LimitedPartnership::of_fields(fields),
        revision.policy_of(Field::LimitedPartnerships).empty(LimitedPartnership::sentinel()),
    ) == Ok::<Option<LimitedPartnership>, DecodeError>(emptied.limited_partnership)) by {
        let inner_full = inner(full, Field::LimitedPartnerships);
        let inner_thin = inner(thin, Field::LimitedPartnerships);
        if lookup(thin, Field::LimitedPartnerships) is Some {
            lemma_thinned_without_defaults(Entity::LimitedPartnerships, inner_full, inner_thin);
            lemma_partnership_reads_declared_keys(inner_thin, inner_full);
        }
    }
    assert((match entity_list_field(thin, Field::PreviousNames) {
        Ok(items) => PreviousName::of_list(items, revision),
        Err(error) => Err(error),
    }) == Ok::<Seq<PreviousNameView>, DecodeError>(emptied.previous_name)) by {
        match (lookup(full, Field::PreviousNames), lookup(thin, Field::PreviousNames)) {
            (Some(Json::List(items_full)), Some(Json::List(items_thin))) => {
                if items_thin == items_full {
                    assert(items_thinned(items_full, items_thin));
                }
                lemma_names_thinned(items_full, items_thin, revision);
            },
            _ => {},
        }
    }
    assert(text_field(thin, Field::CompanyName) == Ok::<Seq<char>, DecodeError>(emptied.name));
    assert(text_field(thin, Field::CompanyNumber) == Ok::<Seq<char>, DecodeError>(emptied.number));
    assert(text_field(thin, Field::CompanyCategory) == Ok::<Seq<char>, DecodeError>(
        emptied.category,
    ));
    assert(text_field(thin, Field::CompanyStatus) == Ok::<Seq<char>, DecodeError>(emptied.status));
    assert(text_field(thin, Field::CountryOfOrigin) == Ok::<Seq<char>, DecodeError>(
        emptied.country_of_origin,
    ));
    assert(optional_date_field(
        thin,
        Field::IncorporationDate,
        revision.policy_of(Field::IncorporationDate),
    ) == Ok::<Option<Ymd>, DecodeError>(emptied.incorporation_date));
    assert(optional_date_field(
        thin,
        Field::RegistrationDate,
        revision.policy_of(Field::RegistrationDate),
    ) == Ok::<Option<Ymd>, DecodeError>(emptied.registration_date));
    assert(optional_date_field(
        thin,
        Field::DissolutionDate,
        revision.policy_of(Field::DissolutionDate),
    ) == Ok::<Option<Ymd>, DecodeError>(emptied.dissolution_date));
}

/// A record decodes from a thinned document to the record of the full
/// document, emptied where keys were left out at any level.
pub proof fn lemma_document_thinned(full: Json, thin: Json, revision: Revision)
    requires
        document_thinned(full, thin),
        Company::of_document(full, revision) is Ok,
    ensures
        Company::of_document(thin, revision) == Ok::<CompanyView, DecodeError>(
            Company::of_document(full, revision)->Ok_0.emptied(
                inner(Company::fields_of_document(thin), Field::PrimaryTopic),
                revision,
            ),
        ),
{
    let inner_full = inner(Company::fields_of_document(full), Field::PrimaryTopic);
    let inner_thin = inner(Company::fields_of_document(thin), Field::PrimaryTopic);
    if thin == full {
        lemma_company_kept(inner_full);
    }
    lemma_company_thinned(inner_full, inner_thin, revision);
}

/// An object is itself thinned, with no key left out.
pub proof fn lemma_company_kept(full: Fields)
    ensures
        company_thinned(full, full),
{
}

} // verus!
