//! Reading one field out of a JSON object: look the wire name up, decode what
//! stands there with the field's codec, and take the default where the key is
//! absent and the field has one.

use crate::ch_date_format::{date_of_text, Date, Ymd};
use crate::ch_date_format_option::optional_date_of_text;
use crate::ch_u8_format::small_int_of_text;
use crate::error::ErrorKind;
use crate::json::{as_items, as_object, as_text, fields_of, get, is_null, jsons_of, Json};
use crate::optionality::Optionality;
use crate::schema::{DecodeError, Field};
use vstd::prelude::*;

verus! {

/// The keys of a JSON object and the document under each.
pub type Fields = Map<Seq<char>, Json>;

/// A JSON object as `serde_json` holds it.
pub type JsonMap = serde_json::Map<String, serde_json::Value>;

/// The mathematical value of a result of decoding.
pub open spec fn decoded<T: DeepView>(r: Result<T, DecodeError>) -> Result<T::V, DecodeError> {
    match r {
        Ok(value) => Ok(value.deep_view()),
        Err(error) => Err(error),
    }
}

/// The failure of a field without a default whose key is absent.
pub open spec fn missing(field: Field) -> DecodeError {
    DecodeError { kind: ErrorKind::MissingField, field }
}

/// The failure of a field whose value has another JSON type than the field takes.
pub open spec fn unexpected(field: Field) -> DecodeError {
    DecodeError { kind: ErrorKind::UnexpectedType, field }
}

/// What stands under the field's wire name, if the key is there.
pub open spec fn lookup(obj: Fields, field: Field) -> Option<Json> {
    if obj.contains_key(field.wire()) {
        Some(obj[field.wire()])
    } else {
        None
    }
}

/// A free-text field. Its default is the empty string.
pub open spec fn text_field(obj: Fields, field: Field) -> Result<Seq<char>, DecodeError> {
    match lookup(obj, field) {
        None => if field.defaulted() {
            Ok(Seq::empty())
        } else {
            Err(missing(field))
        },
        Some(Json::Text(s)) => Ok(s),
        Some(_) => Err(unexpected(field)),
    }
}

/// A free-text field that is held as `None` where it is absent: by a key
/// that is left out, where the field has a default, or by `null`.
pub open spec fn optional_text_field(obj: Fields, field: Field) -> Result<
    Option<Seq<char>>,
    DecodeError,
> {
    match lookup(obj, field) {
        None => if field.defaulted() {
            Ok(None)
        } else {
            Err(missing(field))
        },
        Some(Json::Null) => Ok(None),
        Some(Json::Text(s)) => Ok(Some(s)),
        Some(_) => Err(unexpected(field)),
    }
}

/// A small-integer field. Its default is zero.
pub open spec fn small_int_field(obj: Fields, field: Field) -> Result<u8, DecodeError> {
    match lookup(obj, field) {
        None => if field.defaulted() {
            Ok(0u8)
        } else {
            Err(missing(field))
        },
        Some(Json::Text(s)) => match small_int_of_text(s, field.defaulted()) {
            Ok(value) => Ok(value),
            Err(kind) => Err(DecodeError { kind, field }),
        },
        Some(_) => Err(unexpected(field)),
    }
}

/// A date field that cannot be absent on the wire. Its default is the
/// sentinel date.
pub open spec fn date_field(obj: Fields, field: Field) -> Result<Ymd, DecodeError> {
    match lookup(obj, field) {
        None => if field.defaulted() {
            Ok(Ymd::epoch())
        } else {
            Err(missing(field))
        },
        Some(Json::Text(s)) => match date_of_text(s) {
            Some(date) => Ok(date),
            None => Err(DecodeError { kind: ErrorKind::MalformedDate, field }),
        },
        Some(_) => Err(unexpected(field)),
    }
}

/// A date field that may be absent: by a key that is left out, where the
/// field has a default, or by the empty string. Either way the field takes
/// the empty value of its policy.
pub open spec fn optional_date_field(obj: Fields, field: Field, policy: Optionality) -> Result<
    Option<Ymd>,
    DecodeError,
> {
    match lookup(obj, field) {
        None => if field.defaulted() {
            Ok(policy.empty(Ymd::epoch()))
        } else {
            Err(missing(field))
        },
        Some(Json::Text(s)) => match optional_date_of_text(s) {
            Ok(Some(date)) => Ok(Some(date)),
            Ok(None) => Ok(policy.empty(Ymd::epoch())),
            Err(kind) => Err(DecodeError { kind, field }),
        },
        Some(_) => Err(unexpected(field)),
    }
}

/// Every document of the list is a string.
pub open spec fn all_text(items: Seq<Json>) -> bool {
    forall|i: int| 0 <= i < items.len() ==> (#[trigger] items[i]) is Text
}

/// The strings of a list of strings.
pub open spec fn texts_of(items: Seq<Json>) -> Seq<Seq<char>> {
    items.map_values(|item: Json| item->Text_0)
}

/// A field that holds a list of strings. Its default is the empty list.
pub open spec fn text_list_field(obj: Fields, field: Field) -> Result<Seq<Seq<char>>, DecodeError> {
    match lookup(obj, field) {
        None => if field.defaulted() {
            Ok(Seq::empty())
        } else {
            Err(missing(field))
        },
        Some(Json::List(items)) => if all_text(items) {
            Ok(texts_of(items))
        } else {
            Err(unexpected(field))
        },
        Some(_) => Err(unexpected(field)),
    }
}

/// A field that holds a nested entity: the fields of the object under its key.
pub open spec fn entity_field(obj: Fields, field: Field) -> Result<Fields, DecodeError> {
    match lookup(obj, field) {
        None => Err(missing(field)),
        Some(Json::Object(inner)) => Ok(inner),
        Some(_) => Err(unexpected(field)),
    }
}

/// A field that holds a nested entity which may be absent: by a key that
/// is left out, where the field has a default, or by `null`.
pub open spec fn optional_entity_field(obj: Fields, field: Field) -> Result<
    Option<Fields>,
    DecodeError,
> {
    match lookup(obj, field) {
        None => if field.defaulted() {
            Ok(None)
        } else {
            Err(missing(field))
        },
        Some(Json::Null) => Ok(None),
        Some(Json::Object(inner)) => Ok(Some(inner)),
        Some(_) => Err(unexpected(field)),
    }
}

/// A field that holds a list of nested entities. Its default is the empty list.
pub open spec fn entity_list_field(obj: Fields, field: Field) -> Result<Seq<Json>, DecodeError> {
    match lookup(obj, field) {
        None => if field.defaulted() {
            Ok(Seq::empty())
        } else {
            Err(missing(field))
        },
        Some(Json::List(items)) => Ok(items),
        Some(_) => Err(unexpected(field)),
    }
}

/// Reads a free-text field.
pub fn read_text(obj: &JsonMap, field: Field) -> (r: Result<String, DecodeError>)
    ensures
        decoded(r) == text_field(fields_of(*obj), field),
{
    match get(obj, field.wire_name()) {
        None => if field.is_defaulted() {
            Ok(String::new())
        } else {
            Err(DecodeError { kind: ErrorKind::MissingField, field })
        },
        Some(value) => match as_text(value) {
            Some(s) => Ok(s.to_owned()),
            None => Err(DecodeError { kind: ErrorKind::UnexpectedType, field }),
        },
    }
}

/// Reads a free-text field that is held as `None` where it is absent.
pub fn read_optional_text(obj: &JsonMap, field: Field) -> (r: Result<Option<String>, DecodeError>)
    ensures
        decoded(r) == optional_text_field(fields_of(*obj), field),
{
    match get(obj, field.wire_name()) {
        None => if field.is_defaulted() {
            Ok(None)
        } else {
            Err(DecodeError { kind: ErrorKind::MissingField, field })
        },
        Some(value) => match as_text(value) {
            Some(s) => Ok(Some(s.to_owned())),
            None => if is_null(value) {
                Ok(None)
            } else {
                Err(DecodeError { kind: ErrorKind::UnexpectedType, field })
            },
        },
    }
}

/// Reads a small-integer field.
pub fn read_small_int(obj: &JsonMap, field: Field) -> (r: Result<u8, DecodeError>)
    ensures
        r == small_int_field(fields_of(*obj), field),
{
    match get(obj, field.wire_name()) {
        None => if field.is_defaulted() {
            Ok(0)
        } else {
            Err(DecodeError { kind: ErrorKind::MissingField, field })
        },
        Some(value) => match as_text(value) {
            Some(s) => match crate::ch_u8_format::deserialize(s, field.is_defaulted()) {
                Ok(value) => Ok(value),
                Err(kind) => Err(DecodeError { kind, field }),
            },
            None => Err(DecodeError { kind: ErrorKind::UnexpectedType, field }),
        },
    }
}

/// Reads a date field that cannot be absent on the wire.
pub fn read_date(obj: &JsonMap, field: Field) -> (r: Result<Date, DecodeError>)
    ensures
        decoded(r) == date_field(fields_of(*obj), field),
{
    match get(obj, field.wire_name()) {
        None => if field.is_defaulted() {
            Ok(crate::ch_date_format::empty_value())
        } else {
            Err(DecodeError { kind: ErrorKind::MissingField, field })
        },
        Some(value) => match as_text(value) {
            Some(s) => match crate::ch_date_format::deserialize(s) {
                Ok(date) => Ok(date),
                Err(kind) => Err(DecodeError { kind, field }),
            },
            None => Err(DecodeError { kind: ErrorKind::UnexpectedType, field }),
        },
    }
}

/// Reads a date field that may be absent.
pub fn read_optional_date(obj: &JsonMap, field: Field, policy: Optionality) -> (r: Result<
    Option<Date>,
    DecodeError,
>)
    ensures
        decoded(r) == optional_date_field(fields_of(*obj), field, policy),
{
    match get(obj, field.wire_name()) {
        None => if field.is_defaulted() {
            Ok(policy.empty_value::<Date>())
        } else {
            Err(DecodeError { kind: ErrorKind::MissingField, field })
        },
        Some(value) => match as_text(value) {
            Some(s) => match crate::ch_date_format_option::deserialize(s) {
                Ok(Some(date)) => Ok(Some(date)),
                Ok(None) => Ok(policy.empty_value::<Date>()),
                Err(kind) => Err(DecodeError { kind, field }),
            },
            None => Err(DecodeError { kind: ErrorKind::UnexpectedType, field }),
        },
    }
}

/// Reads a field that holds a list of strings.
pub fn read_text_list(obj: &JsonMap, field: Field) -> (r: Result<Vec<String>, DecodeError>)
    ensures
        decoded(r) == text_list_field(fields_of(*obj), field),
{
    let items = match get(obj, field.wire_name()) {
        None => {
            if field.is_defaulted() {
                let empty: Vec<String> = Vec::new();
                assert(empty.deep_view() =~= Seq::<Seq<char>>::empty());
                return Ok(empty);
            } else {
                return Err(DecodeError { kind: ErrorKind::MissingField, field });
            }
        },
        Some(value) => match as_items(value) {
            Some(items) => items,
            None => {
                return Err(DecodeError { kind: ErrorKind::UnexpectedType, field });
            },
        },
    };
    let ghost list = jsons_of(items@);
    let mut texts: Vec<String> = Vec::new();
    let mut i: usize = 0;
    while i < items.len()
        invariant
            i <= items.len(),
            list == jsons_of(items@),
            lookup(fields_of(*obj), field) == Some(Json::List(list)),
            texts.len() == i,
            forall|j: int| 0 <= j < i ==> (#[trigger] list[j]) is Text,
            forall|j: int| 0 <= j < i ==> (#[trigger] texts[j])@ == list[j]->Text_0,
        decreases items.len() - i,
    {
        match as_text(&items[i]) {
            Some(s) => {
                texts.push(s.to_owned());
            },
            None => {
                assert(!(list[i as int] is Text));
                return Err(DecodeError { kind: ErrorKind::UnexpectedType, field });
            },
        }
        i = i + 1;
    }
    assert(texts.deep_view() =~= texts_of(list));
    Ok(texts)
}

/// Reads a field that holds a nested entity.
pub fn read_entity<'a>(obj: &'a JsonMap, field: Field) -> (r: Result<&'a JsonMap, DecodeError>)
    ensures
        match r {
            Ok(inner) => entity_field(fields_of(*obj), field) == Ok::<Fields, DecodeError>(
                fields_of(*inner),
            ),
            Err(error) => entity_field(fields_of(*obj), field) == Err::<Fields, DecodeError>(error),
        },
{
    match get(obj, field.wire_name()) {
        None => Err(DecodeError { kind: ErrorKind::MissingField, field }),
        Some(value) => match as_object(value) {
            Some(inner) => Ok(inner),
            None => Err(DecodeError { kind: ErrorKind::UnexpectedType, field }),
        },
    }
}

/// Reads a field that holds a nested entity which may be absent.
pub fn read_optional_entity<'a>(obj: &'a JsonMap, field: Field) -> (r: Result<
    Option<&'a JsonMap>,
    DecodeError,
>)
    ensures
        match r {
            Ok(Some(inner)) => optional_entity_field(fields_of(*obj), field) == Ok::<
                Option<Fields>,
                DecodeError,
            >(Some(fields_of(*inner))),
            Ok(None) => optional_entity_field(fields_of(*obj), field) == Ok::<
                Option<Fields>,
                DecodeError,
            >(None),
            Err(error) => optional_entity_field(fields_of(*obj), field) == Err::<
                Option<Fields>,
                DecodeError,
            >(error),
        },
{
    match get(obj, field.wire_name()) {
        None => if field.is_defaulted() {
            Ok(None)
        } else {
            Err(DecodeError { kind: ErrorKind::MissingField, field })
        },
        Some(value) => match as_object(value) {
            Some(inner) => Ok(Some(inner)),
            None => if is_null(value) {
                Ok(None)
            } else {
                Err(DecodeError { kind: ErrorKind::UnexpectedType, field })
            },
        },
    }
}

/// Reads a field that holds a list of nested entities. `None` stands for the
/// empty list of a key that is left out.
pub fn read_entity_list<'a>(obj: &'a JsonMap, field: Field) -> (r: Result<
    Option<&'a Vec<serde_json::Value>>,
    DecodeError,
>)
    ensures
        match r {
            Ok(Some(items)) => entity_list_field(fields_of(*obj), field) == Ok::<
                Seq<Json>,
                DecodeError,
            >(jsons_of(items@)),
            Ok(None) => entity_list_field(fields_of(*obj), field) == Ok::<Seq<Json>, DecodeError>(
                Seq::empty(),
            ),
            Err(error) => entity_list_field(fields_of(*obj), field) == Err::<
                Seq<Json>,
                DecodeError,
            >(error),
        },
{
    match get(obj, field.wire_name()) {
        None => if field.is_defaulted() {
            Ok(None)
        } else {
            Err(DecodeError { kind: ErrorKind::MissingField, field })
        },
        Some(value) => match as_items(value) {
            Some(items) => Ok(Some(items)),
            None => Err(DecodeError { kind: ErrorKind::UnexpectedType, field }),
        },
    }
}

} // verus!
