//! The date codec for a date that may be absent: the empty string stands for
//! "no date".

use crate::ch_date_format::{date_of_text, date_text, lemma_date_round_trip, Date, Ymd};
use crate::decimal::lemma_padded_text;
use crate::error::ErrorKind;
use vstd::prelude::*;

verus! {

/// The wire form of a date that may be absent.
pub open spec fn optional_date_text(date: Option<Ymd>) -> Seq<char> {
    match date {
        Some(date) => date_text(date),
        None => Seq::empty(),
    }
}

/// What a wire string denotes where the date may be absent: no date for the
/// empty string, and else the date that it denotes, if it denotes one.
pub open spec fn optional_date_of_text(s: Seq<char>) -> Result<Option<Ymd>, ErrorKind> {
    if s.len() == 0 {
        Ok(None)
    } else {
        match date_of_text(s) {
            Some(date) => Ok(Some(date)),
            None => Err(ErrorKind::MalformedDate),
        }
    }
}

/// Writes a date in its wire form, and no date as the empty string.
pub fn serialize(o: &Option<Date>) -> (s: String)
    ensures
        s@ == optional_date_text(o.deep_view()),
{
    match o {
        Some(date) => crate::ch_date_format::serialize(date),
        None => String::new(),
    }
}

/// Reads a date that may be absent from its wire form. The empty string is
/// no date; any other string is a date or fails with `MalformedDate`.
pub fn deserialize(s: &str) -> (r: Result<Option<Date>, ErrorKind>)
    ensures
        match r {
            Ok(date) => optional_date_of_text(s@) == Ok::<Option<Ymd>, ErrorKind>(date.deep_view()),
            Err(kind) => optional_date_of_text(s@) == Err::<Option<Ymd>, ErrorKind>(kind),
        },
{
    if s.unicode_len() == 0 {
        return Ok(None);
    }
    match crate::ch_date_format::deserialize(s) {
        Ok(date) => Ok(Some(date)),
        Err(kind) => Err(kind),
    }
}

/// Reading what was written gives the value back, for a date of the
/// calendar and for no date.
pub proof fn lemma_optional_date_round_trip(date: Option<Ymd>)
    requires
        date matches Some(d) ==> d.is_calendar_date(),
    ensures
        optional_date_of_text(optional_date_text(date)) == Ok::<Option<Ymd>, ErrorKind>(date),
{
    if let Some(d) = date {
        lemma_date_round_trip(d);
        lemma_padded_text(d.day as nat, 2);
    }
}

} // verus!
