//! The record schema's table: every field of every entity with its wire name,
//! the entity that declares it, and whether it may be left out.

use crate::error::ErrorKind;
use vstd::prelude::*;

verus! {

/// The entities of the record schema.
#[derive(Clone, Copy, Debug, PartialEq, Eq, Structural)]
pub enum Entity {
    /// The response envelope around one record.
    Envelope,
    /// The company record.
    Company,
    /// An address.
    Address,
    /// A former name with its date.
    PreviousName,
    /// The accounts summary.
    Accounts,
    /// The filing-returns summary.
    Returns,
    /// The mortgage counters.
    Mortgages,
    /// The SIC classification.
    SicCodes,
    /// The limited-partnership counters.
    LimitedPartnerships,
}

/// The fields of the record schema, each under the entity that declares it.
#[derive(Clone, Copy, Debug, PartialEq, Eq, Structural)]
pub enum Field {
    /// The record inside the response envelope.
    PrimaryTopic,
    /// The display name of the company.
    CompanyName,
    /// The identifier of the company.
    CompanyNumber,
    /// The registered address.
    RegAddress,
    /// The category of the company.
    CompanyCategory,
    /// The lifecycle status.
    CompanyStatus,
    /// The country of origin.
    CountryOfOrigin,
    /// The date of incorporation.
    IncorporationDate,
    /// The date of registration.
    RegistrationDate,
    /// The date of dissolution.
    DissolutionDate,
    /// The names that the company had before.
    PreviousNames,
    /// The accounts summary.
    Accounts,
    /// The filing-returns summary.
    Returns,
    /// The mortgage counters.
    Mortgages,
    /// The SIC classification.
    SicCodes,
    /// The limited-partnership counters.
    LimitedPartnerships,
    /// The care-of line of an address.
    CareOf,
    /// The post-office box of an address.
    PoBox,
    /// The first line of an address.
    AddressLine1,
    /// The second line of an address.
    AddressLine2,
    /// The post town of an address.
    PostTown,
    /// The county of an address.
    County,
    /// The country of an address.
    Country,
    /// The postcode of an address.
    Postcode,
    /// The date from which a former name held.
    ChangeDate,
    /// A former name.
    FormerName,
    /// The day of the accounting reference date.
    AccountRefDay,
    /// The month of the accounting reference date.
    AccountRefMonth,
    /// The date on which the next accounts are due.
    AccountsNextDueDate,
    /// The date to which the last accounts were made up.
    AccountsLastMadeUpDate,
    /// The category of the accounts.
    AccountCategory,
    /// The date on which the next return is due.
    ReturnsNextDueDate,
    /// The date to which the last return was made up.
    ReturnsLastMadeUpDate,
    /// The number of mortgage charges.
    NumMortCharges,
    /// The number of mortgages outstanding.
    NumMortOutstanding,
    /// The number of mortgages satisfied in part.
    NumMortPartSatisfied,
    /// The number of mortgages satisfied.
    NumMortSatisfied,
    /// The entries of the SIC classification.
    SicText,
    /// The number of general partners. Its wire name is a quirk of the feed.
    NumGenPartners,
    /// The number of limited partners.
    NumLimPartners,
}

impl Entity {
    /// The field of the enclosing entity under which this entity stands;
    /// the envelope stands under none.
    pub open spec fn holder(self) -> Option<Field> {
        match self {
            Entity::Envelope => None,
            Entity::Company => Some(Field::PrimaryTopic),
            Entity::Address => Some(Field::RegAddress),
            Entity::PreviousName => Some(Field::PreviousNames),
            Entity::Accounts => Some(Field::Accounts),
            Entity::Returns => Some(Field::Returns),
            Entity::Mortgages => Some(Field::Mortgages),
            Entity::SicCodes => Some(Field::SicCodes),
            Entity::LimitedPartnerships => Some(Field::LimitedPartnerships),
        }
    }

    /// The field of the enclosing entity under which this entity stands.
    pub fn enclosing_field(self) -> (field: Option<Field>)
        ensures
            field == self.holder(),
    {
        match self {
            Entity::Envelope => None,
            Entity::Company => Some(Field::PrimaryTopic),
            Entity::Address => Some(Field::RegAddress),
            Entity::PreviousName => Some(Field::PreviousNames),
            Entity::Accounts => Some(Field::Accounts),
            Entity::Returns => Some(Field::Returns),
            Entity::Mortgages => Some(Field::Mortgages),
            Entity::SicCodes => Some(Field::SicCodes),
            Entity::LimitedPartnerships => Some(Field::LimitedPartnerships),
        }
    }
}

impl Field {
    /// The key under which the field stands on the wire.
    pub open spec fn wire(self) -> Seq<char> {
        match self {
            Field::PrimaryTopic => "primaryTopic"@,
            Field::CompanyName => "CompanyName"@,
            Field::CompanyNumber => "CompanyNumber"@,
            Field::RegAddress => "RegAddress"@,
            Field::CompanyCategory => "CompanyCategory"@,
            Field::CompanyStatus => "CompanyStatus"@,
            Field::CountryOfOrigin => "CountryOfOrigin"@,
            Field::IncorporationDate => "IncorporationDate"@,
            Field::RegistrationDate => "RegistrationDate"@,
            Field::DissolutionDate => "DissolutionDate"@,
            Field::PreviousNames => "PreviousName"@,
            Field::Accounts => "Accounts"@,
            Field::Returns => "Returns"@,
            Field::Mortgages => "Mortgages"@,
            Field::SicCodes => "SICCodes"@,
            Field::LimitedPartnerships => "LimitedPartnerships"@,
            Field::CareOf => "Careof"@,
            Field::PoBox => "POBox"@,
            Field::AddressLine1 => "AddressLine1"@,
            Field::AddressLine2 => "AddressLine2"@,
            Field::PostTown => "PostTown"@,
            Field::County => "County"@,
            Field::Country => "Country"@,
            Field::Postcode => "Postcode"@,
            Field::ChangeDate => "CONDate"@,
            Field::FormerName => "CompanyName"@,
            Field::AccountRefDay => "AccountRefDay"@,
            Field::AccountRefMonth => "AccountRefMonth"@,
            Field::AccountsNextDueDate => "NextDueDate"@,
            Field::AccountsLastMadeUpDate => "LastMadeUpDate"@,
            Field::AccountCategory => "AccountCategory"@,
            Field::ReturnsNextDueDate => "NextDueDate"@,
            Field::ReturnsLastMadeUpDate => "LastMadeUpDate"@,
            Field::NumMortCharges => "NumMortCharges"@,
            Field::NumMortOutstanding => "NumMortOutstanding"@,
            Field::NumMortPartSatisfied => "NumMortPartSatisfied"@,
            Field::NumMortSatisfied => "NumMortSatisfied"@,
            Field::SicText => "SicText"@,
            Field::NumGenPartners => "SicTeNumGenPartnersxt"@,
            Field::NumLimPartners => "NumLimPartners"@,
        }
    }

    /// The entity that declares the field.
    pub open spec fn owner(self) -> Entity {
        match self {
            Field::PrimaryTopic => Entity::Envelope,
            Field::CompanyName => Entity::Company,
            Field::CompanyNumber => Entity::Company,
            Field::RegAddress => Entity::Company,
            Field::CompanyCategory => Entity::Company,
            Field::CompanyStatus => Entity::Company,
            Field::CountryOfOrigin => Entity::Company,
            Field::IncorporationDate => Entity::Company,
            Field::RegistrationDate => Entity::Company,
            Field::DissolutionDate => Entity::Company,
            Field::PreviousNames => Entity::Company,
            Field::Accounts => Entity::Company,
            Field::Returns => Entity::Company,
            Field::Mortgages => Entity::Company,
            Field::SicCodes => Entity::Company,
            Field::LimitedPartnerships => Entity::Company,
            Field::CareOf => Entity::Address,
            Field::PoBox => Entity::Address,
            Field::AddressLine1 => Entity::Address,
            Field::AddressLine2 => Entity::Address,
            Field::PostTown => Entity::Address,
            Field::County => Entity::Address,
            Field::Country => Entity::Address,
            Field::Postcode => Entity::Address,
            Field::ChangeDate => Entity::PreviousName,
            Field::FormerName => Entity::PreviousName,
            Field::AccountRefDay => Entity::Accounts,
            Field::AccountRefMonth => Entity::Accounts,
            Field::AccountsNextDueDate => Entity::Accounts,
            Field::AccountsLastMadeUpDate => Entity::Accounts,
            Field::AccountCategory => Entity::Accounts,
            Field::ReturnsNextDueDate => Entity::Returns,
            Field::ReturnsLastMadeUpDate => Entity::Returns,
            Field::NumMortCharges => Entity::Mortgages,
            Field::NumMortOutstanding => Entity::Mortgages,
            Field::NumMortPartSatisfied => Entity::Mortgages,
            Field::NumMortSatisfied => Entity::Mortgages,
            Field::SicText => Entity::SicCodes,
            Field::NumGenPartners => Entity::LimitedPartnerships,
            Field::NumLimPartners => Entity::LimitedPartnerships,
        }
    }

    /// The field may be left out of the wire form, and then takes its empty value.
    pub open spec fn defaulted(self) -> bool {
        match self {
            Field::PrimaryTopic => false,
            Field::CompanyName => false,
            Field::CompanyNumber => false,
            Field::RegAddress => false,
            Field::CompanyCategory => false,
            Field::CompanyStatus => false,
            Field::CountryOfOrigin => true,
            Field::IncorporationDate => true,
            Field::RegistrationDate => true,
            Field::DissolutionDate => true,
            Field::PreviousNames => true,
            Field::Accounts => false,
            Field::Returns => false,
            Field::Mortgages => true,
            Field::SicCodes => true,
            Field::LimitedPartnerships => true,
            Field::CareOf => true,
            Field::PoBox => true,
            Field::AddressLine1 => false,
            Field::AddressLine2 => true,
            Field::PostTown => false,
            Field::County => true,
            Field::Country => true,
            Field::Postcode => true,
            Field::ChangeDate => true,
            Field::FormerName => false,
            Field::AccountRefDay => true,
            Field::AccountRefMonth => true,
            Field::AccountsNextDueDate => false,
            Field::AccountsLastMadeUpDate => false,
            Field::AccountCategory => true,
            Field::ReturnsNextDueDate => false,
            Field::ReturnsLastMadeUpDate => false,
            Field::NumMortCharges => false,
            Field::NumMortOutstanding => false,
            Field::NumMortPartSatisfied => false,
            Field::NumMortSatisfied => false,
            Field::SicText => false,
            Field::NumGenPartners => false,
            Field::NumLimPartners => false,
        }
    }

    /// The keys from the outermost entity down to the field.
    pub open spec fn path(self) -> Seq<Seq<char>> {
        match self.owner().holder() {
            None => seq![self.wire()],
            Some(outer) => match outer.owner().holder() {
                None => seq![outer.wire(), self.wire()],
                Some(outermost) => seq![outermost.wire(), outer.wire(), self.wire()],
            },
        }
    }

    /// The key under which the field stands on the wire.
    pub fn wire_name(self) -> (name: &'static str)
        ensures
            name@ == self.wire(),
    {
        match self {
            Field::PrimaryTopic => "primaryTopic",
            Field::CompanyName => "CompanyName",
            Field::CompanyNumber => "CompanyNumber",
            Field::RegAddress => "RegAddress",
            Field::CompanyCategory => "CompanyCategory",
            Field::CompanyStatus => "CompanyStatus",
            Field::CountryOfOrigin => "CountryOfOrigin",
            Field::IncorporationDate => "IncorporationDate",
            Field::RegistrationDate => "RegistrationDate",
            Field::DissolutionDate => "DissolutionDate",
            Field::PreviousNames => "PreviousName",
            Field::Accounts => "Accounts",
            Field::Returns => "Returns",
            Field::Mortgages => "Mortgages",
            Field::SicCodes => "SICCodes",
            Field::LimitedPartnerships => "LimitedPartnerships",
            Field::CareOf => "Careof",
            Field::PoBox => "POBox",
            Field::AddressLine1 => "AddressLine1",
            Field::AddressLine2 => "AddressLine2",
            Field::PostTown => "PostTown",
            Field::County => "County",
            Field::Country => "Country",
            Field::Postcode => "Postcode",
            Field::ChangeDate => "CONDate",
            Field::FormerName => "CompanyName",
            Field::AccountRefDay => "AccountRefDay",
            Field::AccountRefMonth => "AccountRefMonth",
            Field::AccountsNextDueDate => "NextDueDate",
            Field::AccountsLastMadeUpDate => "LastMadeUpDate",
            Field::AccountCategory => "AccountCategory",
            Field::ReturnsNextDueDate => "NextDueDate",
            Field::ReturnsLastMadeUpDate => "LastMadeUpDate",
            Field::NumMortCharges => "NumMortCharges",
            Field::NumMortOutstanding => "NumMortOutstanding",
            Field::NumMortPartSatisfied => "NumMortPartSatisfied",
            Field::NumMortSatisfied => "NumMortSatisfied",
            Field::SicText => "SicText",
            Field::NumGenPartners => "SicTeNumGenPartnersxt",
            Field::NumLimPartners => "NumLimPartners",
        }
    }

    /// The entity that declares the field.
    pub fn entity(self) -> (entity: Entity)
        ensures
            entity == self.owner(),
    {
        match self {
            Field::PrimaryTopic => Entity::Envelope,
            Field::CompanyName => Entity::Company,
            Field::CompanyNumber => Entity::Company,
            Field::RegAddress => Entity::Company,
            Field::CompanyCategory => Entity::Company,
            Field::CompanyStatus => Entity::Company,
            Field::CountryOfOrigin => Entity::Company,
            Field::IncorporationDate => Entity::Company,
            Field::RegistrationDate => Entity::Company,
            Field::DissolutionDate => Entity::Company,
            Field::PreviousNames => Entity::Company,
            Field::Accounts => Entity::Company,
            Field::Returns => Entity::Company,
            Field::Mortgages => Entity::Company,
            Field::SicCodes => Entity::Company,
            Field::LimitedPartnerships => Entity::Company,
            Field::CareOf => Entity::Address,
            Field::PoBox => Entity::Address,
            Field::AddressLine1 => Entity::Address,
            Field::AddressLine2 => Entity::Address,
            Field::PostTown => Entity::Address,
            Field::County => Entity::Address,
            Field::Country => Entity::Address,
            Field::Postcode => Entity::Address,
            Field::ChangeDate => Entity::PreviousName,
            Field::FormerName => Entity::PreviousName,
            Field::AccountRefDay => Entity::Accounts,
            Field::AccountRefMonth => Entity::Accounts,
            Field::AccountsNextDueDate => Entity::Accounts,
            Field::AccountsLastMadeUpDate => Entity::Accounts,
            Field::AccountCategory => Entity::Accounts,
            Field::ReturnsNextDueDate => Entity::Returns,
            Field::ReturnsLastMadeUpDate => Entity::Returns,
            Field::NumMortCharges => Entity::Mortgages,
            Field::NumMortOutstanding => Entity::Mortgages,
            Field::NumMortPartSatisfied => Entity::Mortgages,
            Field::NumMortSatisfied => Entity::Mortgages,
            Field::SicText => Entity::SicCodes,
            Field::NumGenPartners => Entity::LimitedPartnerships,
            Field::NumLimPartners => Entity::LimitedPartnerships,
        }
    }

    /// The field may be left out of the wire form.
    pub fn is_defaulted(self) -> (b: bool)
        ensures
            b == self.defaulted(),
    {
        match self {
            Field::PrimaryTopic => false,
            Field::CompanyName => false,
            Field::CompanyNumber => false,
            Field::RegAddress => false,
            Field::CompanyCategory => false,
            Field::CompanyStatus => false,
            Field::CountryOfOrigin => true,
            Field::IncorporationDate => true,
            Field::RegistrationDate => true,
            Field::DissolutionDate => true,
            Field::PreviousNames => true,
            Field::Accounts => false,
            Field::Returns => false,
            Field::Mortgages => true,
            Field::SicCodes => true,
            Field::LimitedPartnerships => true,
            Field::CareOf => true,
            Field::PoBox => true,
            Field::AddressLine1 => false,
            Field::AddressLine2 => true,
            Field::PostTown => false,
            Field::County => true,
            Field::Country => true,
            Field::Postcode => true,
            Field::ChangeDate => true,
            Field::FormerName => false,
            Field::AccountRefDay => true,
            Field::AccountRefMonth => true,
            Field::AccountsNextDueDate => false,
            Field::AccountsLastMadeUpDate => false,
            Field::AccountCategory => true,
            Field::ReturnsNextDueDate => false,
            Field::ReturnsLastMadeUpDate => false,
            Field::NumMortCharges => false,
            Field::NumMortOutstanding => false,
            Field::NumMortPartSatisfied => false,
            Field::NumMortSatisfied => false,
            Field::SicText => false,
            Field::NumGenPartners => false,
            Field::NumLimPartners => false,
        }
    }
}

/// A failure to decode: what is wrong, and in which field.
#[derive(Clone, Copy, Debug, PartialEq, Eq, Structural)]
pub struct DecodeError {
    /// What is wrong.
    pub kind: ErrorKind,
    /// The field that is missing or whose value is wrong.
    pub field: Field,
}

/// No entity declares two fields under one wire name.
pub proof fn lemma_wire_names_differ(a: Field, b: Field)
    requires
        a.owner() == b.owner(),
        a != b,
    ensures
        a.wire() != b.wire(),
{
    reveal_strlit("AccountCategory");
    reveal_strlit("AccountRefDay");
    reveal_strlit("AccountRefMonth");
    reveal_strlit("Accounts");
    reveal_strlit("AddressLine1");
    reveal_strlit("AddressLine2");
    reveal_strlit("CONDate");
    reveal_strlit("Careof");
    reveal_strlit("CompanyCategory");
    reveal_strlit("CompanyName");
    reveal_strlit("CompanyNumber");
    reveal_strlit("CompanyStatus");
    reveal_strlit("Country");
    reveal_strlit("CountryOfOrigin");
    reveal_strlit("County");
    reveal_strlit("DissolutionDate");
    reveal_strlit("IncorporationDate");
    reveal_strlit("LastMadeUpDate");
    reveal_strlit("LimitedPartnerships");
    reveal_strlit("Mortgages");
    reveal_strlit("NextDueDate");
    reveal_strlit("NumLimPartners");
    reveal_strlit("NumMortCharges");
    reveal_strlit("NumMortOutstanding");
    reveal_strlit("NumMortPartSatisfied");
    reveal_strlit("NumMortSatisfied");
    reveal_strlit("POBox");
    reveal_strlit("PostTown");
    reveal_strlit("Postcode");
    reveal_strlit("PreviousName");
    reveal_strlit("RegAddress");
    reveal_strlit("RegistrationDate");
    reveal_strlit("Returns");
    reveal_strlit("SICCodes");
    reveal_strlit("SicTeNumGenPartnersxt");
    reveal_strlit("SicText");
    reveal_strlit("primaryTopic");
    assert({
        let name = Field::PrimaryTopic.wire();
        name.len() == 12
    });
    assert({
        let name = Field::CompanyName.wire();
        name.len() == 11 && name[2] == 'm' && name[7] == 'N'
    });
    assert({
        let name = Field::CompanyNumber.wire();
        name.len() == 13 && name[2] == 'm' && name[7] == 'N'
    });
    assert({
        let name = Field::RegAddress.wire();
        name.len() == 10 && name[2] == 'g' && name[7] == 'e'
    });
    assert({
        let name = Field::CompanyCategory.wire();
        name.len() == 15 && name[2] == 'm' && name[7] == 'C'
    });
    assert({
        let name = Field::CompanyStatus.wire();
        name.len() == 13 && name[2] == 'm' && name[7] == 'S'
    });
    assert({
        let name = Field::CountryOfOrigin.wire();
        name.len() == 15 && name[2] == 'u' && name[7] == 'O'
    });
    assert({
        let name = Field::IncorporationDate.wire();
        name.len() == 17 && name[2] == 'c' && name[7] == 'r'
    });
    assert({
        let name = Field::RegistrationDate.wire();
        name.len() == 16 && name[2] == 'g' && name[7] == 'a'
    });
    assert({
        let name = Field::DissolutionDate.wire();
        name.len() == 15 && name[2] == 's' && name[7] == 't'
    });
    assert({
        let name = Field::PreviousNames.wire();
        name.len() == 12 && name[2] == 'e' && name[7] == 's'
    });
    assert({
        let name = Field::Accounts.wire();
        name.len() == 8 && name[2] == 'c' && name[7] == 's'
    });
    assert({
        let name = Field::Returns.wire();
        name.len() == 7 && name[2] == 't'
    });
    assert({
        let name = Field::Mortgages.wire();
        name.len() == 9 && name[2] == 'r' && name[7] == 'e'
    });
    assert({
        let name = Field::SicCodes.wire();
        name.len() == 8 && name[2] == 'C' && name[7] == 's'
    });
    assert({
        let name = Field::LimitedPartnerships.wire();
        name.len() == 19 && name[2] == 'm' && name[7] == 'P'
    });
    assert({
        let name = Field::CareOf.wire();
        name.len() == 6 && name[4] == 'o'
    });
    assert({
        let name = Field::PoBox.wire();
        name.len() == 5 && name[4] == 'x'
    });
    assert({
        let name = Field::AddressLine1.wire();
        name.len() == 12 && name[4] == 'e' && name[11] == '1'
    });
    assert({
        let name = Field::AddressLine2.wire();
        name.len() == 12 && name[4] == 'e' && name[11] == '2'
    });
    assert({
        let name = Field::PostTown.wire();
        name.len() == 8 && name[4] == 'T'
    });
    assert({
        let name = Field::County.wire();
        name.len() == 6 && name[4] == 't'
    });
    assert({
        let name = Field::Country.wire();
        name.len() == 7 && name[4] == 't'
    });
    assert({
        let name = Field::Postcode.wire();
        name.len() == 8 && name[4] == 'c'
    });
    assert({
        let name = Field::ChangeDate.wire();
        name.len() == 7
    });
    assert({
        let name = Field::FormerName.wire();
        name.len() == 11
    });
    assert({
        let name = Field::AccountRefDay.wire();
        name.len() == 13 && name[7] == 'R'
    });
    assert({
        let name = Field::AccountRefMonth.wire();
        name.len() == 15 && name[7] == 'R'
    });
    assert({
        let name = Field::AccountsNextDueDate.wire();
        name.len() == 11 && name[7] == 'D'
    });
    assert({
        let name = Field::AccountsLastMadeUpDate.wire();
        name.len() == 14 && name[7] == 'e'
    });
    assert({
        let name = Field::AccountCategory.wire();
        name.len() == 15 && name[7] == 'C'
    });
    assert({
        let name = Field::ReturnsNextDueDate.wire();
        name.len() == 11
    });
    assert({
        let name = Field::ReturnsLastMadeUpDate.wire();
        name.len() == 14
    });
    assert({
        let name = Field::NumMortCharges.wire();
        name.len() == 14
    });
    assert({
        let name = Field::NumMortOutstanding.wire();
        name.len() == 18
    });
    assert({
        let name = Field::NumMortPartSatisfied.wire();
        name.len() == 20
    });
    assert({
        let name = Field::NumMortSatisfied.wire();
        name.len() == 16
    });
    assert({
        let name = Field::SicText.wire();
        name.len() == 7
    });
    assert({
        let name = Field::NumGenPartners.wire();
        name.len() == 21
    });
    assert({
        let name = Field::NumLimPartners.wire();
        name.len() == 14
    });
}

/// A failure to read a record from the bytes of a JSON text.
#[derive(Clone, Copy, Debug, PartialEq, Eq, Structural)]
pub enum WireError {
    /// The bytes are no JSON text.
    NotJson,
    /// The JSON text is no record of the schema.
    Record(DecodeError),
}

impl DecodeError {
    /// The keys from the outermost entity down to the field that failed.
    pub fn path(&self) -> (path: Vec<&'static str>)
        ensures
            path@.len() == self.field.path().len(),
            forall|i: int| 0 <= i < path@.len() ==> (#[trigger] path@[i])@ == self.field.path()[i],
    {
        let mut path: Vec<&'static str> = Vec::new();
        match self.field.entity().enclosing_field() {
            None => {},
            Some(outer) => {
                match outer.entity().enclosing_field() {
                    None => {},
                    Some(outermost) => {
                        path.push(outermost.wire_name());
                    },
                }
                path.push(outer.wire_name());
            },
        }
        path.push(self.field.wire_name());
        path
    }
}

} // verus!
