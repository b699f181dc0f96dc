//! A registry of HTTP status codes, as published by IANA, together with a
//! small set of codes in informal use, and two queries over such a registry:
//! exact lookup by numeric code and case-insensitive search in descriptions.

pub mod lookup;
pub mod record;
pub mod search;
pub mod status_code_registry;
pub mod text;

pub use lookup::find_by_code;
pub use record::StatusRecord;
pub use search::find_by_substring;
