//! The index schema manager: the two templates (library and book) as
//! structured field mappings keyed by fixed index-pattern prefixes, and the
//! rule that applying a template must succeed outright.
pub mod book;
pub mod library;

use vstd::prelude::*;

verus! {

/// How one field is mapped: full text with a secondary language-tokenized
/// variant, exact-match keyword (optionally with the tokenized variant), a
/// geographic point, a day-granularity date, or a numeric count.
#[derive(Clone, Copy, PartialEq, Eq, Structural, Debug)]
pub enum FieldType {
    TextWithNori,
    Keyword,
    KeywordWithNori,
    GeoPoint,
    DateDay,
    Integer,
    Long,
}

/// One named field of a template's mapping.
#[derive(Clone, Debug)]
pub struct FieldMapping {
    pub name: String,
    pub kind: FieldType,
}

/// One index template: its name, the index pattern it applies to, an optional
/// refresh interval in seconds, its version, and its field mappings in order.
#[derive(Clone, Debug)]
pub struct IndexTemplate {
    pub name: String,
    pub index_pattern: String,
    pub refresh_interval_s: Option<u64>,
    pub version: u64,
    pub fields: Vec<FieldMapping>,
}

/// Builds one named field mapping.
pub fn field(name: &str, kind: FieldType) -> (r: FieldMapping)
    ensures
        r.name@ == name@,
        r.kind == kind,
{
    FieldMapping { name: name.to_owned(), kind }
}

/// Whether the engine's answer to a template application is the one
/// definitive success status; anything else is a fatal configuration error.
pub fn apply_status_ok(status: u16) -> (r: bool)
    ensures
        r == (status == 200),
{
    status == 200
}

} // verus!
