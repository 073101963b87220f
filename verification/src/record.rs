//! The record model: a company with its address, accounts, returns, former
//! names and counters, as held in memory.

use crate::ch_date_format::{Date, Ymd};
use crate::optionality::{Optionality, Sentinel};
use crate::schema::Field;
use vstd::prelude::*;

verus! {

/// The two revisions of the schema. They differ in how the fields that may
/// be absent hold an absent value.
#[derive(Clone, Copy, Debug, PartialEq, Eq, Structural)]
pub enum Revision {
    /// Absent values are held as `None`.
    Nullable,
    /// Absent values are held as the sentinel of their type.
    Sentinel,
}

impl Revision {
    /// How the revision holds an absent value of the field. The category of
    /// the accounts is held as `None` in both revisions.
    pub open spec fn policy_of(self, field: Field) -> Optionality {
        if field == Field::AccountCategory {
            Optionality::Nullable
        } else {
            match self {
                Revision::Nullable => Optionality::Nullable,
                Revision::Sentinel => Optionality::Sentinel,
            }
        }
    }

    /// How the revision holds an absent value of the field.
    pub fn policy(self, field: Field) -> (policy: Optionality)
        ensures
            policy == self.policy_of(field),
    {
        if field == Field::AccountCategory {
            Optionality::Nullable
        } else {
            match self {
                Revision::Nullable => Optionality::Nullable,
                Revision::Sentinel => Optionality::Sentinel,
            }
        }
    }
}

/// An address.
#[derive(Clone, Debug, PartialEq)]
pub struct Address {
    pub care_of: String,
    pub po_box: String,
    pub address_line1: String,
    pub address_line2: String,
    pub post_town: String,
    pub county: String,
    pub country: String,
    pub postcode: String,
}

/// The mathematical value of an [`Address`].
pub struct AddressView {
    pub care_of: Seq<char>,
    pub po_box: Seq<char>,
    pub address_line1: Seq<char>,
    pub address_line2: Seq<char>,
    pub post_town: Seq<char>,
    pub county: Seq<char>,
    pub country: Seq<char>,
    pub postcode: Seq<char>,
}

impl DeepView for Address {
    type V = AddressView;

    open spec fn deep_view(&self) -> AddressView {
        AddressView {
            care_of: self.care_of@,
            po_box: self.po_box@,
            address_line1: self.address_line1@,
            address_line2: self.address_line2@,
            post_town: self.post_town@,
            county: self.county@,
            country: self.country@,
            postcode: self.postcode@,
        }
    }
}

impl View for Address {
    type V = AddressView;

    open spec fn view(&self) -> AddressView {
        self.deep_view()
    }
}

/// A name that the company had before, with the date from which it held.
#[derive(Clone, Debug, PartialEq)]
pub struct PreviousName {
    pub date: Option<Date>,
    pub name: String,
}

/// The mathematical value of a [`PreviousName`].
pub struct PreviousNameView {
    pub date: Option<Ymd>,
    pub name: Seq<char>,
}

impl DeepView for PreviousName {
    type V = PreviousNameView;

    open spec fn deep_view(&self) -> PreviousNameView {
        PreviousNameView { date: self.date.deep_view(), name: self.name@ }
    }
}

impl View for PreviousName {
    type V = PreviousNameView;

    open spec fn view(&self) -> PreviousNameView {
        self.deep_view()
    }
}

/// The accounts summary.
#[derive(Clone, Debug, PartialEq)]
pub struct Accounts {
    pub ref_day: u8,
    pub ref_month: u8,
    pub next_due_date: Option<Date>,
    pub last_made_up_date: Option<Date>,
    pub category: Option<String>,
}

/// The mathematical value of an [`Accounts`].
pub struct AccountsView {
    pub ref_day: u8,
    pub ref_month: u8,
    pub next_due_date: Option<Ymd>,
    pub last_made_up_date: Option<Ymd>,
    pub category: Option<Seq<char>>,
}

impl DeepView for Accounts {
    type V = AccountsView;

    open spec fn deep_view(&self) -> AccountsView {
        AccountsView {
            ref_day: self.ref_day,
            ref_month: self.ref_month,
            next_due_date: self.next_due_date.deep_view(),
            last_made_up_date: self.last_made_up_date.deep_view(),
            category: self.category.deep_view(),
        }
    }
}

impl View for Accounts {
    type V = AccountsView;

    open spec fn view(&self) -> AccountsView {
        self.deep_view()
    }
}

/// The filing-returns summary.
#[derive(Clone, Debug, PartialEq)]
pub struct Returns {
    pub next_due_date: Date,
    pub last_made_up_date: Option<Date>,
}

/// The mathematical value of a [`Returns`].
pub struct ReturnsView {
    pub next_due_date: Ymd,
    pub last_made_up_date: Option<Ymd>,
}

impl DeepView for Returns {
    type V = ReturnsView;

    open spec fn deep_view(&self) -> ReturnsView {
        ReturnsView {
            next_due_date: self.next_due_date@,
            last_made_up_date: self.last_made_up_date.deep_view(),
        }
    }
}

impl View for Returns {
    type V = ReturnsView;

    open spec fn view(&self) -> ReturnsView {
        self.deep_view()
    }
}

/// The mortgage counters.
#[derive(Clone, Copy, Debug, PartialEq, Eq, Structural)]
pub struct Mortgages {
    pub num_charges: u8,
    pub num_outstanding: u8,
    pub num_part_satisfied: u8,
    pub num_satisfied: u8,
}

impl DeepView for Mortgages {
    type V = Mortgages;

    open spec fn deep_view(&self) -> Mortgages {
        *self
    }
}

impl Sentinel for Mortgages {
    /// No mortgages: all four counters are zero.
    open spec fn sentinel() -> Mortgages {
        Mortgages { num_charges: 0, num_outstanding: 0, num_part_satisfied: 0, num_satisfied: 0 }
    }

    fn empty_value() -> (v: Mortgages) {
        Mortgages { num_charges: 0, num_outstanding: 0, num_part_satisfied: 0, num_satisfied: 0 }
    }

    fn is_empty(&self) -> (b: bool) {
        self.num_charges == 0 && self.num_outstanding == 0 && self.num_part_satisfied == 0
            && self.num_satisfied == 0
    }
}

/// The SIC classification: its entries, in order.
#[derive(Clone, Debug, PartialEq)]
pub struct SICcodes {
    pub text: Vec<String>,
}

/// The mathematical value of a [`SICcodes`].
pub struct SICcodesView {
    pub text: Seq<Seq<char>>,
}

impl DeepView for SICcodes {
    type V = SICcodesView;

    open spec fn deep_view(&self) -> SICcodesView {
        SICcodesView { text: self.text.deep_view() }
    }
}

impl View for SICcodes {
    type V = SICcodesView;

    open spec fn view(&self) -> SICcodesView {
        self.deep_view()
    }
}

impl Sentinel for SICcodes {
    /// No classification: the list of entries is empty.
    open spec fn sentinel() -> SICcodesView {
        SICcodesView { text: Seq::empty() }
    }

    fn empty_value() -> (v: SICcodes) {
        let v = SICcodes { text: Vec::new() };
        assert(v.text.deep_view() =~= Seq::<Seq<char>>::empty());
        v
    }

    fn is_empty(&self) -> (b: bool) {
        let b = self.text.len() == 0;
        assert(b == (self.text.deep_view() =~= Seq::<Seq<char>>::empty()));
        b
    }
}

/// The limited-partnership counters.
#[derive(Clone, Copy, Debug, PartialEq, Eq, Structural)]
pub struct LimitedPartnership {
    pub num_gen_partners: u8,
    pub num_lim_partners: u8,
}

impl DeepView for LimitedPartnership {
    type V = LimitedPartnership;

    open spec fn deep_view(&self) -> LimitedPartnership {
        *self
    }
}

impl Sentinel for LimitedPartnership {
    /// No partners: both counters are zero.
    open spec fn sentinel() -> LimitedPartnership {
        LimitedPartnership { num_gen_partners: 0, num_lim_partners: 0 }
    }

    fn empty_value() -> (v: LimitedPartnership) {
        LimitedPartnership { num_gen_partners: 0, num_lim_partners: 0 }
    }

    fn is_empty(&self) -> (b: bool) {
        self.num_gen_partners == 0 && self.num_lim_partners == 0
    }
}

/// A company, as the registry describes it.
#[derive(Clone, Debug, PartialEq)]
pub struct Company {
    pub name: String,
    pub number: String,
    pub reg_address: Address,
    pub category: String,
    pub status: String,
    pub country_of_origin: String,
    pub incorporation_date: Option<Date>,
    pub registration_date: Option<Date>,
    pub dissolution_date: Option<Date>,
    pub previous_name: Vec<PreviousName>,
    pub accounts: Accounts,
    pub returns: Returns,
    pub mortgages: Option<Mortgages>,
    pub sic_codes: Option<SICcodes>,
    pub limited_partnership: Option<LimitedPartnership>,
}

/// The mathematical value of a [`Company`].
pub struct CompanyView {
    pub name: Seq<char>,
    pub number: Seq<char>,
    pub reg_address: AddressView,
    pub category: Seq<char>,
    pub status: Seq<char>,
    pub country_of_origin: Seq<char>,
    pub incorporation_date: Option<Ymd>,
    pub registration_date: Option<Ymd>,
    pub dissolution_date: Option<Ymd>,
    pub previous_name: Seq<PreviousNameView>,
    pub accounts: AccountsView,
    pub returns: ReturnsView,
    pub mortgages: Option<Mortgages>,
    pub sic_codes: Option<SICcodesView>,
    pub limited_partnership: Option<LimitedPartnership>,
}

impl DeepView for Company {
    type V = CompanyView;

    open spec fn deep_view(&self) -> CompanyView {
        CompanyView {
            name: self.name@,
            number: self.number@,
            reg_address: self.reg_address@,
            category: self.category@,
            status: self.status@,
            country_of_origin: self.country_of_origin@,
            incorporation_date: self.incorporation_date.deep_view(),
            registration_date: self.registration_date.deep_view(),
            dissolution_date: self.dissolution_date.deep_view(),
            previous_name: self.previous_name.deep_view(),
            accounts: self.accounts@,
            returns: self.returns@,
            mortgages: self.mortgages.deep_view(),
            sic_codes: self.sic_codes.deep_view(),
            limited_partnership: self.limited_partnership.deep_view(),
        }
    }
}

impl View for Company {
    type V = CompanyView;

    open spec fn view(&self) -> CompanyView {
        self.deep_view()
    }
}

} // verus!
