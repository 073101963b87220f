use companies_house::api::record_url;
use std::cell::RefCell;
use companies_house::{
    Company, DecodeError, ErrorKind, FetchError, Field, LimitedPartnership, MockApi, Revision,
    SourceFailure, WireError, API,
};

#[derive(Debug)]
struct GetCompanyTest {
    company_number: &'static str,
    expected_name: &'static str,
    expect_limited_partnership: Option<LimitedPartnership>,
}

#[test]
fn get_company() {
    let api = MockApi {};
    let tests: Vec<GetCompanyTest> = vec![GetCompanyTest {
        company_number: "01234567",
        expected_name: "TEST COMPANY LTD",
        expect_limited_partnership: None,
    }];
    for test in tests.iter() {
        let company = Company::new(&api, test.company_number).expect("not found");
        assert_eq!(company.name, test.expected_name);
        assert_eq!(company.limited_partnership, test.expect_limited_partnership);
    }
}

struct FixedSource {
    bytes: Vec<u8>,
}

impl API for FixedSource {
    fn fetch_raw(&self, _number: &str) -> Result<Vec<u8>, SourceFailure> {
        Ok(self.bytes.clone())
    }
}

struct FailingSource {}

impl API for FailingSource {
    fn fetch_raw(&self, number: &str) -> Result<Vec<u8>, SourceFailure> {
        Err(SourceFailure { message: format!("no route to the registry for {}", number) })
    }
}

#[test]
fn mock_source_gives_the_whole_fixture() {
    let company = Company::new(&MockApi {}, "anything").unwrap();
    assert_eq!(company, MockApi::fixture());
    assert_eq!(company.number, "01234567");
}

#[test]
fn mock_source_hands_out_json() {
    let bytes = MockApi {}.fetch_raw("01234567").unwrap();
    let text = String::from_utf8(bytes).unwrap();
    assert!(text.starts_with("{\"primaryTopic\":{"));
    assert!(text.contains("\"CompanyName\":\"TEST COMPANY LTD\""));
}

#[test]
fn failure_of_the_source_comes_through_unchanged() {
    let failure = SourceFailure { message: "no route to the registry for 42".to_string() };
    assert_eq!(Company::new(&FailingSource {}, "42"), Err(FetchError::SourceFailure(failure.clone())));
    assert_eq!(
        Company::from_fetched(Err(failure.clone()), "42", Revision::Sentinel),
        Err(FetchError::SourceFailure(failure))
    );
}

#[test]
fn failure_to_decode_carries_the_number() {
    let source = FixedSource { bytes: b"not json".to_vec() };
    assert_eq!(
        Company::new(&source, "00000001"),
        Err(FetchError::Decode { number: "00000001".to_string(), error: WireError::NotJson })
    );
    let source = FixedSource { bytes: b"{\"primaryTopic\": {\"CompanyName\": \"X\"}}".to_vec() };
    assert_eq!(
        Company::new(&source, "00000002"),
        Err(FetchError::Decode {
            number: "00000002".to_string(),
            error: WireError::Record(DecodeError {
                kind: ErrorKind::MissingField,
                field: Field::CompanyNumber
            }),
        })
    );
}

#[test]
fn fetched_bytes_decode_under_the_given_revision() {
    let bytes = MockApi {}.fetch_raw("01234567").unwrap();
    let nullable = Company::from_fetched(Ok(bytes.clone()), "01234567", Revision::Nullable).unwrap();
    assert_eq!(nullable.mortgages, None);
    let sentinel = Company::from_fetched(Ok(bytes), "01234567", Revision::Sentinel).unwrap();
    assert!(sentinel.mortgages.is_some());
    assert_eq!(sentinel.name, nullable.name);
}

#[test]
fn address_of_a_record() {
    assert_eq!(record_url("01234567"), "http://data.companieshouse.gov.uk/doc/company/01234567.json");
    assert_eq!(record_url(""), "http://data.companieshouse.gov.uk/doc/company/.json");
}

struct RecordingSource {
    asked: RefCell<Vec<String>>,
}

impl API for RecordingSource {
    fn fetch_raw(&self, number: &str) -> Result<Vec<u8>, SourceFailure> {
        self.asked.borrow_mut().push(number.to_string());
        MockApi {}.fetch_raw(number)
    }
}

#[test]
fn source_is_asked_once_for_the_number() {
    let source = RecordingSource { asked: RefCell::new(Vec::new()) };
    let company = Company::new(&source, "01234567").unwrap();
    assert_eq!(company, MockApi::fixture());
    assert_eq!(*source.asked.borrow(), vec!["01234567".to_string()]);
}
