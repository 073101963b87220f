use companies_house::ch_date_format;
use companies_house::ch_date_format_option;
use companies_house::ch_u8_format;
use companies_house::decimal::{digit_of, parse_unsigned, render_decimal};
use companies_house::text::chars_of;
use companies_house::{Date, ErrorKind, Optionality, Sentinel};

fn leap(year: u32) -> bool {
    year % 4 == 0 && (year % 100 != 0 || year % 400 == 0)
}

fn days_in_month(year: u32, month: u32) -> u32 {
    match month {
        2 => {
            if leap(year) {
                29
            } else {
                28
            }
        }
        4 | 6 | 9 | 11 => 30,
        _ => 31,
    }
}

fn written(year: u32, month: u32, day: u32) -> String {
    if year < 10_000 {
        format!("{:02}/{:02}/{:04}", day, month, year)
    } else {
        format!("{:02}/{:02}/+{}", day, month, year)
    }
}

const YEARS: [u32; 16] =
    [0, 1, 4, 9, 99, 100, 400, 999, 1000, 1900, 1970, 2000, 2019, 2020, 9999, 10_000];

#[test]
fn date_decodes_and_encodes_back() {
    let date = ch_date_format::deserialize("01/09/2018").unwrap();
    assert_eq!((date.year(), date.month(), date.day()), (2018, 9, 1));
    assert_eq!(ch_date_format::serialize(&date), "01/09/2018");
}

#[test]
fn date_is_read_in_the_order_day_month_year() {
    let date = ch_date_format::deserialize("02/03/2004").unwrap();
    assert_eq!(date.day(), 2);
    assert_eq!(date.month(), 3);
    assert_eq!(date.year(), 2004);
}

#[test]
fn date_exists_exactly_in_the_calendar() {
    for year in YEARS.iter().copied().chain([262_142, 262_143, 300_000, 4_000_000_000]) {
        for month in 0..=14 {
            for day in 0..=33 {
                let expected = year <= 262_142
                    && (1..=12).contains(&month)
                    && day >= 1
                    && day <= days_in_month(year, month);
                assert_eq!(
                    Date::new(year, month, day).is_some(),
                    expected,
                    "{}-{}-{}",
                    year,
                    month,
                    day
                );
            }
        }
    }
}

#[test]
fn date_is_written_as_day_month_year() {
    for year in YEARS.iter().copied().chain([12_345, 262_142]) {
        for month in 1..=12 {
            for day in [1, 9, 10, 28, days_in_month(year, month)] {
                let date = Date::new(year, month, day).unwrap();
                assert_eq!(ch_date_format::serialize(&date), written(year, month, day));
            }
        }
    }
}

#[test]
fn date_round_trips_on_every_day_of_some_years() {
    for year in YEARS.iter().copied().chain([12_345, 262_142]) {
        for month in 1..=12 {
            for day in 1..=days_in_month(year, month) {
                let date = Date::new(year, month, day).unwrap();
                let text = ch_date_format::serialize(&date);
                assert_eq!(ch_date_format::deserialize(&text), Ok(date), "{}", text);
            }
        }
    }
}

#[test]
fn date_of_a_leap_day() {
    assert!(ch_date_format::deserialize("29/02/2020").is_ok());
    assert!(ch_date_format::deserialize("29/02/2000").is_ok());
    assert_eq!(ch_date_format::deserialize("29/02/2019"), Err(ErrorKind::MalformedDate));
    assert_eq!(ch_date_format::deserialize("29/02/1900"), Err(ErrorKind::MalformedDate));
}

#[test]
fn date_without_padding_is_read() {
    let date = ch_date_format::deserialize("1/9/2018").unwrap();
    assert_eq!((date.year(), date.month(), date.day()), (2018, 9, 1));
    let signed = ch_date_format::deserialize("+1/+9/+2018").unwrap();
    assert_eq!(signed, date);
    let padded = ch_date_format::deserialize("0001/0009/002018").unwrap();
    assert_eq!(padded, date);
}

#[test]
fn date_of_a_late_year_is_written_with_a_sign() {
    let date = ch_date_format::deserialize("01/01/10000").unwrap();
    assert_eq!(date.year(), 10_000);
    assert_eq!(ch_date_format::serialize(&date), "01/01/+10000");
    assert_eq!(ch_date_format::deserialize("01/01/+10000"), Ok(date));
}

#[test]
fn date_rejects_what_is_malformed() {
    let malformed = [
        "",
        "/",
        "//",
        "01/09",
        "01/09/2018/1",
        "01/09/2018/",
        "/01/09/2018",
        "aa/09/2018",
        "01/bb/2018",
        "01/09/cccc",
        "01//2018",
        "32/01/2018",
        "31/04/2018",
        "01/13/2018",
        "00/01/2018",
        "01/00/2018",
        "01/01/262143",
        "01/01/99999999999999999999",
        "1-9-2018",
        " 01/09/2018",
        "01/09/2018 ",
        "01/09/-2018",
        "-1/09/2018",
        "01/0x9/2018",
        "01/09/20_18",
        "٠١/٠٩/٢٠١٨",
        "+/09/2018",
        "++1/09/2018",
    ];
    for text in malformed {
        assert_eq!(ch_date_format::deserialize(text), Err(ErrorKind::MalformedDate), "{}", text);
    }
}

#[test]
fn date_empty_value_is_the_epoch() {
    let empty = ch_date_format::empty_value();
    assert_eq!((empty.year(), empty.month(), empty.day()), (1970, 1, 1));
    assert!(ch_date_format::is_empty(empty));
    assert!(ch_date_format::is_empty(ch_date_format::deserialize("01/01/1970").unwrap()));
    assert!(!ch_date_format::is_empty(Date::new(1970, 1, 2).unwrap()));
    assert!(!ch_date_format::is_empty(Date::new(1970, 2, 1).unwrap()));
    assert!(!ch_date_format::is_empty(Date::new(1971, 1, 1).unwrap()));
    assert_eq!(ch_date_format::serialize(&empty), "01/01/1970");
}

#[test]
fn date_layout_is_day_month_year() {
    assert_eq!(ch_date_format::FORMAT, "%d/%m/%Y");
    assert_eq!(ch_date_format::SEPARATOR, '/');
    assert_eq!(ch_date_format::MAX_YEAR, 262_142);
}

#[test]
fn date_of_known_valid_parts() {
    let date = Date::of(2016, 12, 31);
    assert_eq!(Some(date), Date::new(2016, 12, 31));
    assert_eq!(ch_date_format::serialize(&date), "31/12/2016");
}

#[test]
fn optional_date_reads_the_empty_string_as_no_date() {
    assert_eq!(ch_date_format_option::deserialize(""), Ok(None));
    assert_eq!(
        ch_date_format_option::deserialize("30/09/2018"),
        Ok(Some(Date::new(2018, 9, 30).unwrap()))
    );
    assert_eq!(ch_date_format_option::deserialize("30/09"), Err(ErrorKind::MalformedDate));
    assert_eq!(ch_date_format_option::deserialize(" "), Err(ErrorKind::MalformedDate));
}

#[test]
fn optional_date_round_trips() {
    assert_eq!(ch_date_format_option::serialize(&None), "");
    let date = Some(Date::new(2017, 1, 1).unwrap());
    let text = ch_date_format_option::serialize(&date);
    assert_eq!(text, "01/01/2017");
    assert_eq!(ch_date_format_option::deserialize(&text), Ok(date));
    assert_eq!(
        ch_date_format_option::deserialize(&ch_date_format_option::serialize(&None)),
        Ok(None)
    );
}

#[test]
fn small_int_decodes() {
    assert_eq!(ch_u8_format::deserialize("31", false), Ok(31));
    assert_eq!(ch_u8_format::deserialize("31", true), Ok(31));
    assert_eq!(ch_u8_format::deserialize("", true), Ok(0));
    assert_eq!(ch_u8_format::deserialize("0", false), Ok(0));
    assert_eq!(ch_u8_format::deserialize("255", false), Ok(255));
    assert_eq!(ch_u8_format::deserialize("007", false), Ok(7));
    assert_eq!(ch_u8_format::deserialize("+5", false), Ok(5));
    assert_eq!(ch_u8_format::deserialize("0000000000000000000000255", false), Ok(255));
}

#[test]
fn small_int_rejects_what_is_malformed() {
    let malformed = [
        "ABC", "256", "1000", "-1", "1 ", " 1", "1.0", "0x1", "+", "++1", "1+", "1_0", "１",
        "99999999999999999999999999",
    ];
    for text in malformed {
        for defaulted in [false, true] {
            assert_eq!(
                ch_u8_format::deserialize(text, defaulted),
                Err(ErrorKind::MalformedInteger),
                "{}",
                text
            );
        }
    }
    assert_eq!(ch_u8_format::deserialize("", false), Err(ErrorKind::MalformedInteger));
}

#[test]
fn small_int_agrees_with_the_standard_parser() {
    let texts = ["", "0", "00", "12", "255", "256", "+0", "+255", "+256", "-0", "a", "1a", "٣"];
    for text in texts {
        assert_eq!(ch_u8_format::deserialize(text, false).ok(), text.parse::<u8>().ok(), "{}", text);
    }
}

#[test]
fn small_int_encodes_without_leading_zeros() {
    assert_eq!(ch_u8_format::serialize(&0), "0");
    assert_eq!(ch_u8_format::serialize(&7), "7");
    assert_eq!(ch_u8_format::serialize(&31), "31");
    assert_eq!(ch_u8_format::serialize(&100), "100");
    assert_eq!(ch_u8_format::serialize(&255), "255");
}

#[test]
fn small_int_round_trips_on_every_value() {
    for value in 0..=255u8 {
        let text = ch_u8_format::serialize(&value);
        assert_eq!(text, value.to_string());
        assert_eq!(ch_u8_format::deserialize(&text, false), Ok(value));
        assert_eq!(ch_u8_format::deserialize(&text, true), Ok(value));
    }
}

#[test]
fn small_int_zero_is_not_written_as_the_empty_string() {
    let text = ch_u8_format::serialize(&ch_u8_format::deserialize("", true).unwrap());
    assert_eq!(text, "0");
}

#[test]
fn small_int_empty_value_is_zero() {
    assert_eq!(ch_u8_format::empty_value(), 0);
    assert!(ch_u8_format::is_empty(0));
    assert!(!ch_u8_format::is_empty(1));
    assert!(ch_u8_format::is_empty(ch_u8_format::empty_value()));
}

#[test]
fn decimal_parses_within_a_bound() {
    let chars = chars_of("x123/+45y");
    assert_eq!(parse_unsigned(&chars, 1, 4, 1000), Some(123));
    assert_eq!(parse_unsigned(&chars, 1, 4, 123), Some(123));
    assert_eq!(parse_unsigned(&chars, 1, 4, 122), None);
    assert_eq!(parse_unsigned(&chars, 5, 8, 100), Some(45));
    assert_eq!(parse_unsigned(&chars, 5, 6, 100), None);
    assert_eq!(parse_unsigned(&chars, 0, 4, 1000), None);
    assert_eq!(parse_unsigned(&chars, 1, 5, 1000), None);
    assert_eq!(parse_unsigned(&chars, 2, 2, 1000), None);
    let large = chars_of("4294967295");
    assert_eq!(parse_unsigned(&large, 0, 10, u32::MAX), Some(u32::MAX));
    let larger = chars_of("4294967296");
    assert_eq!(parse_unsigned(&larger, 0, 10, u32::MAX), None);
}

#[test]
fn decimal_renders() {
    for n in [0u32, 1, 9, 10, 11, 99, 100, 101, 12_345, 4_294_967_295] {
        assert_eq!(render_decimal(n), n.to_string());
    }
}

#[test]
fn decimal_digits() {
    assert_eq!(digit_of('0'), Some(0));
    assert_eq!(digit_of('9'), Some(9));
    assert_eq!(digit_of('/'), None);
    assert_eq!(digit_of(':'), None);
    assert_eq!(digit_of('a'), None);
    assert_eq!(digit_of('٣'), None);
}

#[test]
fn text_is_taken_apart() {
    let chars = chars_of("día/ñ");
    assert_eq!(chars, vec!['d', 'í', 'a', '/', 'ñ']);
    assert_eq!(chars_of(""), Vec::<char>::new());
}

#[test]
fn empty_values_count_as_empty_under_both_policies() {
    for policy in [Optionality::Nullable, Optionality::Sentinel] {
        let date = policy.empty_value::<Date>();
        assert!(policy.is_empty(&date));
    }
    assert_eq!(Optionality::Nullable.empty_value::<Date>(), None);
    assert_eq!(Optionality::Sentinel.empty_value::<Date>(), Some(ch_date_format::empty_value()));
    assert!(<Date as Sentinel>::is_empty(&<Date as Sentinel>::empty_value()));
}

#[test]
fn a_real_date_is_not_empty() {
    let date = Some(Date::new(2018, 9, 1).unwrap());
    assert!(!Optionality::Nullable.is_empty(&date));
    assert!(!Optionality::Sentinel.is_empty(&date));
    let epoch = Some(ch_date_format::empty_value());
    assert!(!Optionality::Nullable.is_empty(&epoch));
    assert!(Optionality::Sentinel.is_empty(&epoch));
    assert!(Optionality::Sentinel.is_empty::<Date>(&None));
}
