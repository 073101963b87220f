//! Getting one record by its number: a data source hands out the raw bytes,
//! and the record is decoded from them.

use crate::ch_date_format::{Date, Ymd};
use crate::json::{json_of, json_parsed, json_written, parse};
use crate::record::{
    Accounts, AccountsView, Address, AddressView, Company, CompanyView, Returns, ReturnsView,
    Revision,
};
use crate::schema::WireError;
use vstd::prelude::*;
use vstd::string::StringExecFns;

verus! {

/// A failure of the data source, as the source describes it.
#[derive(Clone, Debug, PartialEq)]
pub struct SourceFailure {
    pub message: String,
}

/// A failure to get a record.
#[derive(Clone, Debug, PartialEq)]
pub enum FetchError {
    /// The data source failed; the failure is handed on as it came.
    SourceFailure(SourceFailure),
    /// The bytes of the record with this number did not decode.
    Decode { number: String, error: WireError },
}

/// The mathematical value of an [`FetchError`].
pub enum FetchErrorView {
    SourceFailure(Seq<char>),
    Decode { number: Seq<char>, error: WireError },
}

impl DeepView for FetchError {
    type V = FetchErrorView;

    open spec fn deep_view(&self) -> FetchErrorView {
        match self {
            FetchError::SourceFailure(failure) => FetchErrorView::SourceFailure(failure.message@),
            FetchError::Decode { number, error } => FetchErrorView::Decode {
                number: number@,
                error: *error,
            },
        }
    }
}

/// Where the registry serves its records: the address of a record is this,
/// the number of the record, and `ENDPOINT_SUFFIX`.
pub const ENDPOINT_PREFIX: &'static str = "http://data.companieshouse.gov.uk/doc/company/";

/// What follows the number in the address of a record.
pub const ENDPOINT_SUFFIX: &'static str = ".json";

/// The address under which the registry serves the record with a number.
pub fn record_url(number: &str) -> (url: String)
    ensures
        url@ == ENDPOINT_PREFIX@ + number@ + ENDPOINT_SUFFIX@,
{
    let mut url = ENDPOINT_PREFIX.to_owned();
    url.append(number);
    url.append(ENDPOINT_SUFFIX);
    url
}

/// A data source: it hands out the raw bytes of the record with a number, or fails.
pub trait API {
    fn fetch_raw(&self, number: &str) -> (r: Result<Vec<u8>, SourceFailure>);
}

/// The mathematical value of what a data source hands out.
pub open spec fn fetched_view(fetched: Result<Vec<u8>, SourceFailure>) -> Result<
    Seq<u8>,
    Seq<char>,
> {
    match fetched {
        Ok(bytes) => Ok(bytes@),
        Err(failure) => Err(failure.message@),
    }
}

/// The mathematical value of the outcome of getting a record.
pub open spec fn outcome(r: Result<Company, FetchError>) -> Result<CompanyView, FetchErrorView> {
    match r {
        Ok(company) => Ok(company@),
        Err(error) => Err(error.deep_view()),
    }
}

/// The mathematical value of the outcome of reading a record from bytes.
pub open spec fn read(r: Result<Company, WireError>) -> Result<CompanyView, WireError> {
    match r {
        Ok(company) => Ok(company@),
        Err(error) => Err(error),
    }
}

impl Company {
    /// The company that the bytes of a response denote under a revision.
    pub open spec fn of_bytes(bytes: Seq<u8>, revision: Revision) -> Result<
        CompanyView,
        WireError,
    > {
        match json_parsed(bytes) {
            None => Err(WireError::NotJson),
            Some(document) => match Company::of_document(document, revision) {
                Ok(company) => Ok(company),
                Err(error) => Err(WireError::Record(error)),
            },
        }
    }

    /// The outcome of getting the record with a number, given what the data
    /// source handed out: its failure as it came, or what the bytes decode
    /// to, a failure to decode being marked with the number.
    pub open spec fn of_fetched(
        fetched: Result<Seq<u8>, Seq<char>>,
        number: Seq<char>,
        revision: Revision,
    ) -> Result<CompanyView, FetchErrorView> {
        match fetched {
            Err(message) => Err(FetchErrorView::SourceFailure(message)),
            Ok(bytes) => match Company::of_bytes(bytes, revision) {
                Ok(company) => Ok(company),
                Err(error) => Err(FetchErrorView::Decode { number, error }),
            },
        }
    }

    /// Reads a company from the bytes of a response.
    pub fn from_bytes(bytes: &[u8], revision: Revision) -> (r: Result<Company, WireError>)
        ensures
            read(r) == Company::of_bytes(bytes@, revision),
    {
        match parse(bytes) {
            Err(_) => Err(WireError::NotJson),
            Ok(document) => match Company::from_value(&document, revision) {
                Ok(company) => Ok(company),
                Err(error) => Err(WireError::Record(error)),
            },
        }
    }

    /// Finishes getting a record from what the data source handed out.
    pub fn from_fetched(
        fetched: Result<Vec<u8>, SourceFailure>,
        number: &str,
        revision: Revision,
    ) -> (r: Result<Company, FetchError>)
        ensures
            outcome(r) == Company::of_fetched(fetched_view(fetched), number@, revision),
    {
        match fetched {
            Err(failure) => Err(FetchError::SourceFailure(failure)),
            Ok(bytes) => match Company::from_bytes(bytes.as_slice(), revision) {
                Ok(company) => Ok(company),
                Err(error) => Err(FetchError::Decode { number: number.to_owned(), error }),
            },
        }
    }

    /// Gets the record with a number from a data source, under the revision
    /// that holds absent values as `None`. The source is asked for that
    /// number, and the outcome is what `of_fetched` says of what the source
    /// handed out: its failure as it came, or the record that its bytes
    /// decode to.
    pub fn new<A: API>(api: &A, number: &str) -> (r: Result<Company, FetchError>)
        ensures
            exists|fetched: Result<Vec<u8>, SourceFailure>|
                #[trigger] call_ensures(A::fetch_raw, (api, number), fetched) && outcome(r)
                    == Company::of_fetched(fetched_view(fetched), number@, Revision::Nullable),
    {
        let fetched = api.fetch_raw(number);
        Company::from_fetched(fetched, number, Revision::Nullable)
    }
}

/// A data source with one fixed record, for trying things out.
pub struct MockApi {}

impl MockApi {
    /// The record of the fixture.
    pub open spec fn fixture_view() -> CompanyView {
        CompanyView {
            name: "TEST COMPANY LTD"@,
            number: "01234567"@,
            reg_address: AddressView {
                care_of: ""@,
                po_box: ""@,
                address_line1: "110 Test street"@,
                address_line2: ""@,
                post_town: "Test town"@,
                county: ""@,
                country: ""@,
                postcode: "TS7 1NG "@,
            },
            category: "Private company limited by shares"@,
            status: "Active"@,
            country_of_origin: "England"@,
            incorporation_date: Some(Ymd { year: 2016, month: 1, day: 1 }),
            registration_date: None,
            dissolution_date: None,
            previous_name: Seq::empty(),
            accounts: AccountsView {
                ref_day: 31,
                ref_month: 12,
                next_due_date: Some(Ymd { year: 2018, month: 9, day: 30 }),
                last_made_up_date: Some(Ymd { year: 2016, month: 12, day: 31 }),
                category: Some("MICRO"@),
            },
            returns: ReturnsView {
                next_due_date: Ymd { year: 2019, month: 2, day: 1 },
                last_made_up_date: Some(Ymd { year: 2017, month: 1, day: 1 }),
            },
            mortgages: None,
            sic_codes: None,
            limited_partnership: None,
        }
    }

    /// Makes the record of the fixture.
    pub fn fixture() -> (company: Company)
        ensures
            company@ == MockApi::fixture_view(),
    {
        let previous_name: Vec<crate::record::PreviousName> = Vec::new();
        assert(previous_name.deep_view() =~= Seq::<crate::record::PreviousNameView>::empty());
        Company {
            name: "TEST COMPANY LTD".to_owned(),
            number: "01234567".to_owned(),
            reg_address: Address {
                care_of: "".to_owned(),
                po_box: "".to_owned(),
                address_line1: "110 Test street".to_owned(),
                address_line2: "".to_owned(),
                post_town: "Test town".to_owned(),
                county: "".to_owned(),
                country: "".to_owned(),
                postcode: "TS7 1NG ".to_owned(),
            },
            category: "Private company limited by shares".to_owned(),
            status: "Active".to_owned(),
            country_of_origin: "England".to_owned(),
            incorporation_date: Some(Date::of(2016, 1, 1)),
            registration_date: None,
            dissolution_date: None,
            previous_name,
            accounts: Accounts {
                ref_day: 31,
                ref_month: 12,
                next_due_date: Some(Date::of(2018, 9, 30)),
                last_made_up_date: Some(Date::of(2016, 12, 31)),
                category: Some("MICRO".to_owned()),
            },
            returns: Returns {
                next_due_date: Date::of(2019, 2, 1),
                last_made_up_date: Some(Date::of(2017, 1, 1)),
            },
            mortgages: None,
            sic_codes: None,
            limited_partnership: None,
        }
    }
}

impl API for MockApi {
    /// Hands out the bytes that the fixture is written as, whatever the number.
    fn fetch_raw(&self, number: &str) -> (r: Result<Vec<u8>, SourceFailure>)
        ensures
            exists|document: serde_json::Value|
                json_of(document) == Company::to_document(
                    MockApi::fixture_view(),
                    Revision::Nullable,
                ) && (match r {
                    Ok(bytes) => #[trigger] json_written(document) == Some(bytes@),
                    Err(_) => json_written(document) is None,
                }),
    {
        match MockApi::fixture().to_bytes(Revision::Nullable) {
            Some(bytes) => Ok(bytes),
            None => Err(SourceFailure { message: "the fixture could not be written".to_owned() }),
        }
    }
}

} // verus!
