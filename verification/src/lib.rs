//! Records of the Companies House open-data feed: the codecs of their fields,
//! the schema of the record, and getting one record from a data source.
//!
//! The feed writes dates as `DD/MM/YYYY` and small integers as decimal
//! strings, and marks an absent value by leaving its key out, by the empty
//! string or by a value of zeros. The modules, from the leaves up:
//!
//! - [`decimal`] and [`text`]: numerals and strings;
//! - [`ch_date_format`], [`ch_date_format_option`], [`ch_u8_format`]: the
//!   codecs of dates, of dates that may be absent, and of small integers;
//! - [`optionality`]: the two ways of holding an absent value;
//! - [`json`]: JSON documents, read and built through `serde_json`;
//! - [`schema`], [`record`]: the fields with their wire names, and the
//!   record as held in memory;
//! - [`reader`], [`decode`], [`encode`]: from a JSON object to a record and
//!   back;
//! - [`laws`], [`defaulting`], [`agreement`], [`round_trip`]: what holds of
//!   decoding whatever the input: defaults, required fields, keys that the
//!   schema does not declare, and reading back what was written;
//! - [`api`]: one record by its number, from a data source.

pub mod agreement;
pub mod api;
pub mod ch_date_format;
pub mod ch_date_format_option;
pub mod ch_u8_format;
pub mod decimal;
pub mod decode;
pub mod defaulting;
pub mod encode;
pub mod error;
pub mod json;
pub mod laws;
pub mod optionality;
pub mod reader;
pub mod record;
pub mod round_trip;
pub mod schema;
pub mod text;

pub use api::{FetchError, MockApi, SourceFailure, API};
pub use ch_date_format::Date;
pub use error::ErrorKind;
pub use optionality::{Optionality, Sentinel};
pub use record::{
    Accounts, Address, Company, LimitedPartnership, Mortgages, PreviousName, Returns, Revision,
    SICcodes,
};
pub use schema::{DecodeError, Entity, Field, WireError};
