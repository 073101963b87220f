use companies_house::{
    Accounts, Address, Company, Date, DecodeError, ErrorKind, Field, LimitedPartnership, MockApi,
    Mortgages, Optionality, PreviousName, Returns, Revision, SICcodes, Sentinel, WireError,
};
use serde_json::Value;

const RECORD: &str = r#"{
    "CompanyName": "TEST COMPANY LTD",
    "CompanyNumber": "01234567",
    "RegAddress": {
        "AddressLine1": "110 Test street",
        "PostTown": "Test town",
        "Postcode": "TS7 1NG "
    },
    "CompanyCategory": "Private company limited by shares",
    "CompanyStatus": "Active",
    "CountryOfOrigin": "England",
    "IncorporationDate": "01/01/2016",
    "Accounts": {
        "AccountRefDay": "31",
        "AccountRefMonth": "12",
        "NextDueDate": "30/09/2018",
        "LastMadeUpDate": "31/12/2016",
        "AccountCategory": "MICRO"
    },
    "Returns": {
        "NextDueDate": "01/02/2019",
        "LastMadeUpDate": "01/01/2017"
    }
}"#;

fn record() -> Value {
    serde_json::from_str(RECORD).unwrap()
}

fn envelope(record: Value) -> Value {
    let mut map = serde_json::Map::new();
    map.insert("primaryTopic".to_string(), record);
    Value::Object(map)
}

fn text(s: &str) -> Value {
    Value::String(s.to_string())
}

fn object<'a>(value: &'a mut Value) -> &'a mut serde_json::Map<String, Value> {
    value.as_object_mut().unwrap()
}

fn decode(record: Value, revision: Revision) -> Result<Company, DecodeError> {
    Company::from_value(&envelope(record), revision)
}

fn failure(kind: ErrorKind, field: Field) -> DecodeError {
    DecodeError { kind, field }
}

fn date(year: u32, month: u32, day: u32) -> Date {
    Date::new(year, month, day).unwrap()
}

fn full_company() -> Company {
    Company {
        name: "FULL \"COMPANY\" LTD".to_string(),
        number: "SC123456".to_string(),
        reg_address: Address {
            care_of: "A Person".to_string(),
            po_box: "PO Box 1".to_string(),
            address_line1: "1 High Street".to_string(),
            address_line2: "Flat 2\\3".to_string(),
            post_town: "Édimbourg".to_string(),
            county: "Lothian".to_string(),
            country: "Scotland".to_string(),
            postcode: "EH1 1AA".to_string(),
        },
        category: "Limited Partnership".to_string(),
        status: "Dissolved".to_string(),
        country_of_origin: "United Kingdom".to_string(),
        incorporation_date: Some(date(1999, 12, 31)),
        registration_date: Some(date(2000, 2, 29)),
        dissolution_date: Some(date(2020, 6, 1)),
        previous_name: vec![
            PreviousName { date: Some(date(2001, 3, 4)), name: "FIRST NAME LTD".to_string() },
            PreviousName { date: None, name: "SECOND NAME LTD".to_string() },
        ],
        accounts: Accounts {
            ref_day: 5,
            ref_month: 4,
            next_due_date: None,
            last_made_up_date: Some(date(2019, 4, 5)),
            category: None,
        },
        returns: Returns { next_due_date: date(2021, 1, 1), last_made_up_date: None },
        mortgages: Some(Mortgages {
            num_charges: 3,
            num_outstanding: 2,
            num_part_satisfied: 0,
            num_satisfied: 255,
        }),
        sic_codes: Some(SICcodes {
            text: vec!["62020 - Consultancy".to_string(), "99999 - Dormant".to_string()],
        }),
        limited_partnership: Some(LimitedPartnership { num_gen_partners: 1, num_lim_partners: 7 }),
    }
}

#[test]
fn record_decodes_to_the_fixture() {
    assert_eq!(decode(record(), Revision::Nullable), Ok(MockApi::fixture()));
}

#[test]
fn envelope_holds_exactly_one_record() {
    let company = Company::from_value(&envelope(record()), Revision::Nullable).unwrap();
    assert_eq!(company.name, "TEST COMPANY LTD");
    assert_eq!(company.number, "01234567");
    assert_eq!(company.reg_address.address_line1, "110 Test street");
    assert_eq!(company.reg_address.post_town, "Test town");
    assert_eq!(company.reg_address.postcode, "TS7 1NG ");
    assert_eq!(company.accounts.ref_day, 31);
    assert_eq!(company.accounts.ref_month, 12);
    assert_eq!(company.accounts.next_due_date, Some(date(2018, 9, 30)));
    assert_eq!(company.accounts.category, Some("MICRO".to_string()));
    assert_eq!(company.returns.next_due_date, date(2019, 2, 1));
    assert_eq!(company.returns.last_made_up_date, Some(date(2017, 1, 1)));
    assert_eq!(company.incorporation_date, Some(date(2016, 1, 1)));
}

#[test]
fn envelope_without_its_key_is_refused() {
    let missing = failure(ErrorKind::MissingField, Field::PrimaryTopic);
    assert_eq!(Company::from_value(&record(), Revision::Nullable), Err(missing));
    assert_eq!(Company::from_value(&text("x"), Revision::Nullable), Err(missing));
    assert_eq!(Company::from_value(&Value::Null, Revision::Nullable), Err(missing));
    assert_eq!(Company::from_value(&Value::Array(vec![record()]), Revision::Nullable), Err(missing));
    assert_eq!(
        Company::from_value(&envelope(text("x")), Revision::Nullable),
        Err(failure(ErrorKind::UnexpectedType, Field::PrimaryTopic))
    );
}

#[test]
fn defaulted_fields_that_are_absent_take_their_empty_values() {
    let company = decode(record(), Revision::Nullable).unwrap();
    assert_eq!(company.reg_address.care_of, "");
    assert_eq!(company.reg_address.po_box, "");
    assert_eq!(company.reg_address.address_line2, "");
    assert_eq!(company.reg_address.county, "");
    assert_eq!(company.reg_address.country, "");
    assert_eq!(company.registration_date, None);
    assert_eq!(company.dissolution_date, None);
    assert_eq!(company.previous_name, vec![]);
    assert_eq!(company.mortgages, None);
    assert_eq!(company.sic_codes, None);
    assert_eq!(company.limited_partnership, None);

    let mut bare = record();
    for key in ["CountryOfOrigin", "IncorporationDate"] {
        object(&mut bare).remove(key);
    }
    for key in ["AccountRefDay", "AccountRefMonth", "AccountCategory"] {
        object(&mut object(&mut bare)["Accounts"]).remove(key);
    }
    object(&mut object(&mut bare)["RegAddress"]).remove("Postcode");
    let company = decode(bare, Revision::Nullable).unwrap();
    assert_eq!(company.country_of_origin, "");
    assert_eq!(company.incorporation_date, None);
    assert_eq!(company.accounts.ref_day, 0);
    assert_eq!(company.accounts.ref_month, 0);
    assert_eq!(company.accounts.category, None);
    assert_eq!(company.reg_address.postcode, "");
}

#[test]
fn every_defaulted_field_may_be_absent() {
    let defaulted = [
        (None, "CountryOfOrigin"),
        (None, "IncorporationDate"),
        (None, "RegistrationDate"),
        (None, "DissolutionDate"),
        (None, "PreviousName"),
        (None, "Mortgages"),
        (None, "SICCodes"),
        (None, "LimitedPartnerships"),
        (Some("RegAddress"), "Careof"),
        (Some("RegAddress"), "POBox"),
        (Some("RegAddress"), "AddressLine2"),
        (Some("RegAddress"), "County"),
        (Some("RegAddress"), "Country"),
        (Some("RegAddress"), "Postcode"),
        (Some("Accounts"), "AccountRefDay"),
        (Some("Accounts"), "AccountRefMonth"),
        (Some("Accounts"), "AccountCategory"),
    ];
    for revision in [Revision::Nullable, Revision::Sentinel] {
        for (entity, key) in defaulted {
            let mut value = companies_house_value(&full_company(), revision);
            match entity {
                None => object(&mut value).remove(key),
                Some(entity) => object(&mut object(&mut value)[entity]).remove(key),
            };
            assert!(decode(value, revision).is_ok(), "{}", key);
        }
    }
}

fn companies_house_value(company: &Company, revision: Revision) -> Value {
    let document = company.to_value(revision);
    document.get("primaryTopic").unwrap().clone()
}

#[test]
fn every_required_field_must_be_there() {
    let required = [
        (None, "CompanyName", Field::CompanyName),
        (None, "CompanyNumber", Field::CompanyNumber),
        (None, "RegAddress", Field::RegAddress),
        (None, "CompanyCategory", Field::CompanyCategory),
        (None, "CompanyStatus", Field::CompanyStatus),
        (None, "Accounts", Field::Accounts),
        (None, "Returns", Field::Returns),
        (Some("RegAddress"), "AddressLine1", Field::AddressLine1),
        (Some("RegAddress"), "PostTown", Field::PostTown),
        (Some("Accounts"), "NextDueDate", Field::AccountsNextDueDate),
        (Some("Accounts"), "LastMadeUpDate", Field::AccountsLastMadeUpDate),
        (Some("Returns"), "NextDueDate", Field::ReturnsNextDueDate),
        (Some("Returns"), "LastMadeUpDate", Field::ReturnsLastMadeUpDate),
        (Some("Mortgages"), "NumMortCharges", Field::NumMortCharges),
        (Some("Mortgages"), "NumMortOutstanding", Field::NumMortOutstanding),
        (Some("Mortgages"), "NumMortPartSatisfied", Field::NumMortPartSatisfied),
        (Some("Mortgages"), "NumMortSatisfied", Field::NumMortSatisfied),
        (Some("SICCodes"), "SicText", Field::SicText),
        (Some("LimitedPartnerships"), "SicTeNumGenPartnersxt", Field::NumGenPartners),
        (Some("LimitedPartnerships"), "NumLimPartners", Field::NumLimPartners),
    ];
    for revision in [Revision::Nullable, Revision::Sentinel] {
        for (entity, key, field) in required {
            let mut value = companies_house_value(&full_company(), revision);
            let removed = match entity {
                None => object(&mut value).remove(key),
                Some(entity) => object(&mut object(&mut value)[entity]).remove(key),
            };
            assert!(removed.is_some(), "{}", key);
            assert_eq!(
                decode(value, revision),
                Err(failure(ErrorKind::MissingField, field)),
                "{}",
                key
            );
            assert!(!field.is_defaulted());
            assert_eq!(field.wire_name(), key);
        }
    }
}

#[test]
fn former_name_must_have_its_name() {
    let mut value = companies_house_value(&full_company(), Revision::Nullable);
    object(&mut object(&mut value)["PreviousName"][1]).remove("CompanyName");
    assert_eq!(
        decode(value, Revision::Nullable),
        Err(failure(ErrorKind::MissingField, Field::FormerName))
    );
}

#[test]
fn unknown_keys_are_ignored() {
    let mut value = record();
    object(&mut value).insert("URI".to_string(), text("http://example.org/01234567"));
    object(&mut value).insert("Extra".to_string(), Value::Array(vec![Value::Null, Value::Bool(true)]));
    object(&mut value).insert("companyname".to_string(), text("another"));
    object(&mut object(&mut value)["RegAddress"]).insert("Planet".to_string(), text("Earth"));
    object(&mut object(&mut value)["Accounts"]).insert("Auditor".to_string(), record());
    object(&mut object(&mut value)["Returns"]).insert("NextDueDate2".to_string(), text("x"));
    let mut document = envelope(value);
    object(&mut document).insert("secondaryTopic".to_string(), text("x"));
    assert_eq!(Company::from_value(&document, Revision::Nullable), Ok(MockApi::fixture()));
}

#[test]
fn absent_partnership_is_empty_under_the_sentinel_policy() {
    let company = decode(record(), Revision::Sentinel).unwrap();
    assert_eq!(
        company.limited_partnership,
        Some(LimitedPartnership { num_gen_partners: 0, num_lim_partners: 0 })
    );
    assert!(Optionality::Sentinel.is_empty(&company.limited_partnership));
    assert!(Revision::Sentinel.policy(Field::LimitedPartnerships).is_empty(&company.limited_partnership));
    assert!(company.limited_partnership.unwrap().is_empty());

    let nullable = decode(record(), Revision::Nullable).unwrap();
    assert_eq!(nullable.limited_partnership, None);
    assert!(Optionality::Nullable.is_empty(&nullable.limited_partnership));
}

#[test]
fn absent_values_under_the_sentinel_policy() {
    let company = decode(record(), Revision::Sentinel).unwrap();
    let epoch = Some(date(1970, 1, 1));
    assert_eq!(company.registration_date, epoch);
    assert_eq!(company.dissolution_date, epoch);
    assert_eq!(company.incorporation_date, Some(date(2016, 1, 1)));
    assert_eq!(company.mortgages, Some(Mortgages::empty_value()));
    assert_eq!(company.sic_codes, Some(SICcodes { text: vec![] }));
    assert_eq!(company.accounts.category, Some("MICRO".to_string()));
    assert!(Optionality::Sentinel.is_empty(&company.registration_date));
    assert!(Optionality::Sentinel.is_empty(&company.mortgages));
    assert!(Optionality::Sentinel.is_empty(&company.sic_codes));
    assert!(!Optionality::Sentinel.is_empty(&company.incorporation_date));
}

#[test]
fn category_of_the_accounts_is_nullable_in_both_revisions() {
    let mut value = record();
    object(&mut object(&mut value)["Accounts"]).remove("AccountCategory");
    for revision in [Revision::Nullable, Revision::Sentinel] {
        assert_eq!(revision.policy(Field::AccountCategory), Optionality::Nullable);
        assert_eq!(decode(value.clone(), revision).unwrap().accounts.category, None);
    }
    assert_eq!(Revision::Nullable.policy(Field::Mortgages), Optionality::Nullable);
    assert_eq!(Revision::Sentinel.policy(Field::Mortgages), Optionality::Sentinel);
}

#[test]
fn empty_string_is_an_absent_date() {
    let mut value = record();
    object(&mut value).insert("IncorporationDate".to_string(), text(""));
    object(&mut object(&mut value)["Accounts"]).insert("NextDueDate".to_string(), text(""));
    object(&mut object(&mut value)["Returns"]).insert("LastMadeUpDate".to_string(), text(""));
    let nullable = decode(value.clone(), Revision::Nullable).unwrap();
    assert_eq!(nullable.incorporation_date, None);
    assert_eq!(nullable.accounts.next_due_date, None);
    assert_eq!(nullable.returns.last_made_up_date, None);
    let sentinel = decode(value, Revision::Sentinel).unwrap();
    assert_eq!(sentinel.incorporation_date, Some(date(1970, 1, 1)));
    assert_eq!(sentinel.accounts.next_due_date, Some(date(1970, 1, 1)));
    assert_eq!(sentinel.returns.last_made_up_date, Some(date(1970, 1, 1)));
}

#[test]
fn required_date_cannot_be_the_empty_string() {
    let mut value = record();
    object(&mut object(&mut value)["Returns"]).insert("NextDueDate".to_string(), text(""));
    for revision in [Revision::Nullable, Revision::Sentinel] {
        assert_eq!(
            decode(value.clone(), revision),
            Err(failure(ErrorKind::MalformedDate, Field::ReturnsNextDueDate))
        );
    }
}

#[test]
fn malformed_integer_names_its_field() {
    let mut value = record();
    object(&mut object(&mut value)["Accounts"]).insert("AccountRefDay".to_string(), text("ABC"));
    let error = decode(value, Revision::Nullable).unwrap_err();
    assert_eq!(error.kind, ErrorKind::MalformedInteger);
    assert_eq!(error.field, Field::AccountRefDay);
    assert_eq!(error.field.wire_name(), "AccountRefDay");
    assert_eq!(error.path(), vec!["primaryTopic", "Accounts", "AccountRefDay"]);
}

#[test]
fn malformed_integer_out_of_range() {
    let mut value = record();
    object(&mut object(&mut value)["Accounts"]).insert("AccountRefMonth".to_string(), text("256"));
    assert_eq!(
        decode(value, Revision::Nullable),
        Err(failure(ErrorKind::MalformedInteger, Field::AccountRefMonth))
    );
}

#[test]
fn empty_integer_is_zero_only_where_the_field_has_a_default() {
    let mut value = record();
    object(&mut object(&mut value)["Accounts"]).insert("AccountRefDay".to_string(), text(""));
    assert_eq!(decode(value.clone(), Revision::Nullable).unwrap().accounts.ref_day, 0);
    let mut counters = serde_json::Map::new();
    for key in ["NumMortCharges", "NumMortOutstanding", "NumMortPartSatisfied"] {
        counters.insert(key.to_string(), text("1"));
    }
    counters.insert("NumMortSatisfied".to_string(), text(""));
    object(&mut value).insert("Mortgages".to_string(), Value::Object(counters));
    assert_eq!(
        decode(value, Revision::Nullable),
        Err(failure(ErrorKind::MalformedInteger, Field::NumMortSatisfied))
    );
}

#[test]
fn malformed_date_names_its_field() {
    let cases = [
        ("IncorporationDate", Field::IncorporationDate),
        ("RegistrationDate", Field::RegistrationDate),
        ("DissolutionDate", Field::DissolutionDate),
    ];
    for (key, field) in cases {
        for wrong in ["2016-01-01", "31/02/2016", "01/01", "x"] {
            let mut value = record();
            object(&mut value).insert(key.to_string(), text(wrong));
            assert_eq!(
                decode(value, Revision::Nullable),
                Err(failure(ErrorKind::MalformedDate, field))
            );
        }
    }
}

#[test]
fn value_of_another_type_is_refused() {
    let mut value = record();
    object(&mut value).insert("CompanyName".to_string(), Value::Bool(true));
    assert_eq!(
        decode(value, Revision::Nullable),
        Err(failure(ErrorKind::UnexpectedType, Field::CompanyName))
    );
    let mut value = record();
    object(&mut value).insert("RegAddress".to_string(), text("110 Test street"));
    assert_eq!(
        decode(value, Revision::Nullable),
        Err(failure(ErrorKind::UnexpectedType, Field::RegAddress))
    );
    let mut value = record();
    object(&mut value).insert("PreviousName".to_string(), record());
    assert_eq!(
        decode(value, Revision::Nullable),
        Err(failure(ErrorKind::UnexpectedType, Field::PreviousNames))
    );
    let mut value = record();
    object(&mut value).insert("PreviousName".to_string(), Value::Array(vec![text("OLD LTD")]));
    assert_eq!(
        decode(value, Revision::Nullable),
        Err(failure(ErrorKind::UnexpectedType, Field::PreviousNames))
    );
    let mut value = record();
    object(&mut value).insert("IncorporationDate".to_string(), Value::Null);
    assert_eq!(
        decode(value, Revision::Nullable),
        Err(failure(ErrorKind::UnexpectedType, Field::IncorporationDate))
    );
    let mut value = record();
    object(&mut object(&mut value)["Accounts"])
        .insert("AccountRefDay".to_string(), serde_json::from_str("31").unwrap());
    assert_eq!(
        decode(value, Revision::Nullable),
        Err(failure(ErrorKind::UnexpectedType, Field::AccountRefDay))
    );
    let mut value = record();
    let mut codes = serde_json::Map::new();
    codes.insert("SicText".to_string(), Value::Array(vec![text("a"), Value::Null]));
    object(&mut value).insert("SICCodes".to_string(), Value::Object(codes));
    assert_eq!(
        decode(value, Revision::Nullable),
        Err(failure(ErrorKind::UnexpectedType, Field::SicText))
    );
}

#[test]
fn first_failure_in_the_order_of_the_schema_decides() {
    let mut value = record();
    object(&mut value).remove("CompanyStatus");
    object(&mut value).insert("IncorporationDate".to_string(), text("x"));
    object(&mut object(&mut value)["RegAddress"]).remove("PostTown");
    object(&mut value).remove("Returns");
    assert_eq!(
        decode(value.clone(), Revision::Nullable),
        Err(failure(ErrorKind::MissingField, Field::PostTown))
    );
    object(&mut object(&mut value)["RegAddress"]).insert("PostTown".to_string(), text("T"));
    assert_eq!(
        decode(value.clone(), Revision::Nullable),
        Err(failure(ErrorKind::MissingField, Field::CompanyStatus))
    );
    object(&mut value).insert("CompanyStatus".to_string(), text("Active"));
    assert_eq!(
        decode(value.clone(), Revision::Nullable),
        Err(failure(ErrorKind::MalformedDate, Field::IncorporationDate))
    );
    object(&mut value).remove("IncorporationDate");
    assert_eq!(
        decode(value, Revision::Nullable),
        Err(failure(ErrorKind::MissingField, Field::Returns))
    );
}

#[test]
fn former_names_decode_in_order() {
    let mut value = record();
    let names: Value = serde_json::from_str(
        r#"[{"CONDate": "04/03/2001", "CompanyName": "FIRST"},
            {"CompanyName": "SECOND"},
            {"CONDate": "", "CompanyName": "THIRD"}]"#,
    )
    .unwrap();
    object(&mut value).insert("PreviousName".to_string(), names);
    let company = decode(value.clone(), Revision::Nullable).unwrap();
    assert_eq!(
        company.previous_name,
        vec![
            PreviousName { date: Some(date(2001, 3, 4)), name: "FIRST".to_string() },
            PreviousName { date: None, name: "SECOND".to_string() },
            PreviousName { date: None, name: "THIRD".to_string() },
        ]
    );
    let sentinel = decode(value, Revision::Sentinel).unwrap();
    assert_eq!(sentinel.previous_name[1].date, Some(date(1970, 1, 1)));
    assert_eq!(sentinel.previous_name[2].date, Some(date(1970, 1, 1)));
}

#[test]
fn first_failing_former_name_decides() {
    let mut value = record();
    let names: Value = serde_json::from_str(
        r#"[{"CompanyName": "FIRST"},
            {"CONDate": "99/99/9999", "CompanyName": "SECOND"},
            {"CONDate": "01/01/2001"}]"#,
    )
    .unwrap();
    object(&mut value).insert("PreviousName".to_string(), names);
    let error = decode(value, Revision::Nullable).unwrap_err();
    assert_eq!(error, failure(ErrorKind::MalformedDate, Field::ChangeDate));
    assert_eq!(error.path(), vec!["primaryTopic", "PreviousName", "CONDate"]);
}

#[test]
fn sub_records_decode() {
    let mut value = record();
    let more: Value = serde_json::from_str(
        r#"{"Mortgages": {"NumMortCharges": "3", "NumMortOutstanding": "2",
                          "NumMortPartSatisfied": "0", "NumMortSatisfied": "1"},
            "SICCodes": {"SicText": ["62020 - Consultancy", "99999 - Dormant"]},
            "LimitedPartnerships": {"SicTeNumGenPartnersxt": "1", "NumLimPartners": "7"}}"#,
    )
    .unwrap();
    for (key, sub) in more.as_object().unwrap() {
        object(&mut value).insert(key.clone(), sub.clone());
    }
    let company = decode(value, Revision::Nullable).unwrap();
    assert_eq!(
        company.mortgages,
        Some(Mortgages { num_charges: 3, num_outstanding: 2, num_part_satisfied: 0, num_satisfied: 1 })
    );
    assert_eq!(
        company.sic_codes,
        Some(SICcodes {
            text: vec!["62020 - Consultancy".to_string(), "99999 - Dormant".to_string()]
        })
    );
    assert_eq!(
        company.limited_partnership,
        Some(LimitedPartnership { num_gen_partners: 1, num_lim_partners: 7 })
    );
}

#[test]
fn wire_names_of_the_schema() {
    assert_eq!(Field::PrimaryTopic.wire_name(), "primaryTopic");
    assert_eq!(Field::CompanyName.wire_name(), "CompanyName");
    assert_eq!(Field::FormerName.wire_name(), "CompanyName");
    assert_eq!(Field::ChangeDate.wire_name(), "CONDate");
    assert_eq!(Field::CareOf.wire_name(), "Careof");
    assert_eq!(Field::PoBox.wire_name(), "POBox");
    assert_eq!(Field::PreviousNames.wire_name(), "PreviousName");
    assert_eq!(Field::SicCodes.wire_name(), "SICCodes");
    assert_eq!(Field::SicText.wire_name(), "SicText");
    assert_eq!(Field::NumGenPartners.wire_name(), "SicTeNumGenPartnersxt");
    assert_eq!(Field::NumLimPartners.wire_name(), "NumLimPartners");
    assert_eq!(Field::AccountsNextDueDate.wire_name(), "NextDueDate");
    assert_eq!(Field::ReturnsNextDueDate.wire_name(), "NextDueDate");
}

#[test]
fn paths_of_failures() {
    let path = |field: Field| failure(ErrorKind::MissingField, field).path();
    assert_eq!(path(Field::PrimaryTopic), vec!["primaryTopic"]);
    assert_eq!(path(Field::CompanyName), vec!["primaryTopic", "CompanyName"]);
    assert_eq!(path(Field::PostTown), vec!["primaryTopic", "RegAddress", "PostTown"]);
    assert_eq!(
        path(Field::NumGenPartners),
        vec!["primaryTopic", "LimitedPartnerships", "SicTeNumGenPartnersxt"]
    );
    assert_eq!(path(Field::SicText), vec!["primaryTopic", "SICCodes", "SicText"]);
}

#[test]
fn fixture_is_written_with_the_wire_names() {
    let document = MockApi::fixture().to_value(Revision::Nullable);
    let record = &document["primaryTopic"];
    assert_eq!(record["CompanyName"], text("TEST COMPANY LTD"));
    assert_eq!(record["CompanyNumber"], text("01234567"));
    assert_eq!(record["RegAddress"]["AddressLine1"], text("110 Test street"));
    assert_eq!(record["RegAddress"]["Careof"], text(""));
    assert_eq!(record["RegAddress"]["POBox"], text(""));
    assert_eq!(record["IncorporationDate"], text("01/01/2016"));
    assert_eq!(record["Accounts"]["AccountRefDay"], text("31"));
    assert_eq!(record["Accounts"]["AccountRefMonth"], text("12"));
    assert_eq!(record["Accounts"]["NextDueDate"], text("30/09/2018"));
    assert_eq!(record["Accounts"]["AccountCategory"], text("MICRO"));
    assert_eq!(record["Returns"]["NextDueDate"], text("01/02/2019"));
    assert_eq!(record["PreviousName"], Value::Array(vec![]));
    for absent in ["RegistrationDate", "DissolutionDate", "Mortgages", "SICCodes", "LimitedPartnerships"]
    {
        assert!(record.get(absent).is_none(), "{}", absent);
    }
    assert_eq!(document.as_object().unwrap().len(), 1);
    assert_eq!(record.as_object().unwrap().len(), 10);
}

#[test]
fn absent_values_are_written_as_marks_under_the_sentinel_policy() {
    let document = MockApi::fixture().to_value(Revision::Sentinel);
    let record = &document["primaryTopic"];
    assert_eq!(record["RegistrationDate"], text(""));
    assert_eq!(record["DissolutionDate"], text(""));
    assert_eq!(record["Mortgages"]["NumMortCharges"], text("0"));
    assert_eq!(record["Mortgages"]["NumMortOutstanding"], text("0"));
    assert_eq!(record["Mortgages"]["NumMortPartSatisfied"], text("0"));
    assert_eq!(record["Mortgages"]["NumMortSatisfied"], text("0"));
    assert_eq!(record["SICCodes"]["SicText"], Value::Array(vec![]));
    assert_eq!(record["LimitedPartnerships"]["SicTeNumGenPartnersxt"], text("0"));
    assert_eq!(record["LimitedPartnerships"]["NumLimPartners"], text("0"));

    let mut company = MockApi::fixture();
    company.incorporation_date = Some(date(1970, 1, 1));
    let sentinel = company.to_value(Revision::Sentinel);
    assert_eq!(sentinel["primaryTopic"]["IncorporationDate"], text(""));
    let nullable = company.to_value(Revision::Nullable);
    assert_eq!(nullable["primaryTopic"]["IncorporationDate"], text("01/01/1970"));
}

#[test]
fn absent_required_date_is_written_as_the_empty_string() {
    let value = companies_house_value(&full_company(), Revision::Nullable);
    assert_eq!(value["Accounts"]["NextDueDate"], text(""));
    assert_eq!(value["Returns"]["LastMadeUpDate"], text(""));
    assert!(value["Accounts"].get("AccountCategory").is_none());
    assert!(value["PreviousName"][1].get("CONDate").is_none());
    assert_eq!(value["PreviousName"][0]["CONDate"], text("04/03/2001"));
}

#[test]
fn record_round_trips_through_a_value() {
    for company in [MockApi::fixture(), full_company()] {
        let document = company.to_value(Revision::Nullable);
        assert_eq!(Company::from_value(&document, Revision::Nullable), Ok(company));
    }
}

#[test]
fn record_round_trips_through_bytes() {
    for company in [MockApi::fixture(), full_company()] {
        let bytes = company.to_bytes(Revision::Nullable).unwrap();
        assert_eq!(Company::from_bytes(&bytes, Revision::Nullable), Ok(company));
    }
}

#[test]
fn record_round_trips_under_the_sentinel_policy() {
    let company = decode(record(), Revision::Sentinel).unwrap();
    let bytes = company.to_bytes(Revision::Sentinel).unwrap();
    assert_eq!(Company::from_bytes(&bytes, Revision::Sentinel), Ok(company));
}

#[test]
fn bytes_that_are_no_json_are_refused() {
    for bytes in [&b""[..], b"{", b"primaryTopic", b"{\"primaryTopic\": }", b"{} {}", b"\xff"] {
        assert_eq!(Company::from_bytes(bytes, Revision::Nullable), Err(WireError::NotJson));
    }
    assert_eq!(
        Company::from_bytes(b"{}", Revision::Nullable),
        Err(WireError::Record(failure(ErrorKind::MissingField, Field::PrimaryTopic)))
    );
    assert_eq!(
        Company::from_bytes(b" [1, 2] ", Revision::Nullable),
        Err(WireError::Record(failure(ErrorKind::MissingField, Field::PrimaryTopic)))
    );
}

#[test]
fn bytes_of_a_response_decode() {
    let bytes = format!("{{\"primaryTopic\": {}}}", RECORD);
    assert_eq!(Company::from_bytes(bytes.as_bytes(), Revision::Nullable), Ok(MockApi::fixture()));
}

#[test]
fn escapes_in_strings_are_resolved() {
    let bytes = format!(
        "{{\"primaryTopic\": {}}}",
        RECORD.replace("TEST COMPANY LTD", "T\\u00c9ST \\\"CO\\\" \\\\ LTD\\n")
    );
    let company = Company::from_bytes(bytes.as_bytes(), Revision::Nullable).unwrap();
    assert_eq!(company.name, "TÉST \"CO\" \\ LTD\n");
    let again = company.to_bytes(Revision::Nullable).unwrap();
    assert_eq!(Company::from_bytes(&again, Revision::Nullable), Ok(company));
}

#[test]
fn sub_record_sentinels() {
    assert!(Mortgages::empty_value().is_empty());
    assert!(SICcodes::empty_value().is_empty());
    assert!(LimitedPartnership::empty_value().is_empty());
    assert!(!Mortgages { num_charges: 0, num_outstanding: 0, num_part_satisfied: 0, num_satisfied: 1 }
        .is_empty());
    assert!(!Mortgages { num_charges: 1, num_outstanding: 0, num_part_satisfied: 0, num_satisfied: 0 }
        .is_empty());
    assert!(!SICcodes { text: vec![String::new()] }.is_empty());
    assert!(!LimitedPartnership { num_gen_partners: 0, num_lim_partners: 1 }.is_empty());
    assert!(!LimitedPartnership { num_gen_partners: 1, num_lim_partners: 0 }.is_empty());
    for policy in [Optionality::Nullable, Optionality::Sentinel] {
        assert!(policy.is_empty(&policy.empty_value::<Mortgages>()));
        assert!(policy.is_empty(&policy.empty_value::<SICcodes>()));
        assert!(policy.is_empty(&policy.empty_value::<LimitedPartnership>()));
    }
}

#[test]
fn null_is_an_absent_text_or_entity() {
    let mut value = record();
    object(&mut object(&mut value)["Accounts"]).insert("AccountCategory".to_string(), Value::Null);
    for key in ["Mortgages", "SICCodes", "LimitedPartnerships"] {
        object(&mut value).insert(key.to_string(), Value::Null);
    }
    let nullable = decode(value.clone(), Revision::Nullable).unwrap();
    assert_eq!(nullable.accounts.category, None);
    assert_eq!(nullable.mortgages, None);
    assert_eq!(nullable.sic_codes, None);
    assert_eq!(nullable.limited_partnership, None);
    let sentinel = decode(value, Revision::Sentinel).unwrap();
    assert_eq!(sentinel.accounts.category, None);
    assert_eq!(sentinel.mortgages, Some(Mortgages::empty_value()));
    assert_eq!(sentinel.sic_codes, Some(SICcodes::empty_value()));
    assert_eq!(sentinel.limited_partnership, Some(LimitedPartnership::empty_value()));
}

#[test]
fn null_is_no_date_and_no_required_value() {
    for (entity, key, field) in [
        (None, "RegistrationDate", Field::RegistrationDate),
        (None, "CompanyName", Field::CompanyName),
        (None, "RegAddress", Field::RegAddress),
        (None, "PreviousName", Field::PreviousNames),
        (Some("Accounts"), "AccountRefDay", Field::AccountRefDay),
        (Some("Returns"), "NextDueDate", Field::ReturnsNextDueDate),
    ] {
        let mut value = record();
        match entity {
            None => object(&mut value).insert(key.to_string(), Value::Null),
            Some(entity) => object(&mut object(&mut value)[entity]).insert(key.to_string(), Value::Null),
        };
        assert_eq!(
            decode(value, Revision::Nullable),
            Err(failure(ErrorKind::UnexpectedType, field)),
            "{}",
            key
        );
    }
}

#[test]
fn any_set_of_defaulted_keys_may_be_left_out_at_every_level() {
    let full = companies_house_value(&full_company(), Revision::Nullable);
    let expected_full = decode(full.clone(), Revision::Nullable).unwrap();
    let mut thin = full.clone();
    for key in ["CountryOfOrigin", "IncorporationDate", "Mortgages", "LimitedPartnerships"] {
        object(&mut thin).remove(key);
    }
    for key in ["Careof", "POBox", "County"] {
        object(&mut object(&mut thin)["RegAddress"]).remove(key);
    }
    for key in ["AccountRefDay", "AccountCategory"] {
        object(&mut object(&mut thin)["Accounts"]).remove(key);
    }
    object(&mut object(&mut thin)["PreviousName"][0]).remove("CONDate");
    let company = decode(thin, Revision::Nullable).unwrap();
    let mut expected = expected_full;
    expected.country_of_origin = String::new();
    expected.incorporation_date = None;
    expected.mortgages = None;
    expected.limited_partnership = None;
    expected.reg_address.care_of = String::new();
    expected.reg_address.po_box = String::new();
    expected.reg_address.county = String::new();
    expected.accounts.ref_day = 0;
    expected.accounts.category = None;
    expected.previous_name[0].date = None;
    assert_eq!(company, expected);
}

#[test]
fn unknown_keys_are_ignored_at_every_level_at_once() {
    let base = companies_house_value(&full_company(), Revision::Nullable);
    let mut more = base.clone();
    object(&mut more).insert("Extra".to_string(), text("x"));
    object(&mut more).insert("returns".to_string(), Value::Null);
    object(&mut object(&mut more)["RegAddress"]).insert("CompanyName".to_string(), text("x"));
    object(&mut object(&mut more)["Accounts"]).insert("Careof".to_string(), Value::Bool(false));
    object(&mut object(&mut more)["Returns"]).insert("Extra".to_string(), base.clone());
    object(&mut object(&mut more)["Mortgages"]).insert("NumMort".to_string(), text("9"));
    object(&mut object(&mut more)["SICCodes"]).insert("SicTexts".to_string(), text("9"));
    object(&mut object(&mut more)["LimitedPartnerships"]).insert("x".to_string(), text("9"));
    object(&mut object(&mut more)["PreviousName"][1]).insert("CONDate2".to_string(), text("9"));
    let mut document = envelope(more);
    object(&mut document).insert("PrimaryTopic".to_string(), text("x"));
    assert_eq!(
        Company::from_value(&document, Revision::Nullable),
        Company::from_value(&envelope(base), Revision::Nullable)
    );
    assert_eq!(Company::from_value(&document, Revision::Nullable), Ok(full_company()));
}
