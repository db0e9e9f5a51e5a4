//! The book index template: text fields with the language-tokenized variant
//! for title, authors and publisher; keyword fields for the exact-match
//! attributes; integer counts; a day-granularity registration date; and the
//! owning library's code.
use vstd::prelude::*;
use crate::index_templates::{field, FieldMapping, FieldType, IndexTemplate};

verus! {

/// The template for `book-*` indices, field for field.
pub fn template() -> (r: IndexTemplate)
    ensures
        r.name@ == "book"@,
        r.index_pattern@ == "book-*"@,
        r.refresh_interval_s == Some(300u64),
        r.version == 1,
        r.fields@.len() == 13,
        r.fields@[0].name@ == "title"@ && r.fields@[0].kind == FieldType::TextWithNori,
        r.fields@[1].name@ == "authors"@ && r.fields@[1].kind == FieldType::TextWithNori,
        r.fields@[2].name@ == "publisher"@ && r.fields@[2].kind == FieldType::TextWithNori,
        r.fields@[3].name@ == "publicationYear"@ && r.fields@[3].kind == FieldType::Keyword,
        r.fields@[4].name@ == "isbn"@ && r.fields@[4].kind == FieldType::Keyword,
        r.fields@[5].name@ == "setIsbn"@ && r.fields@[5].kind == FieldType::Keyword,
        r.fields@[6].name@ == "additionSymbol"@ && r.fields@[6].kind == FieldType::Keyword,
        r.fields@[7].name@ == "vol"@ && r.fields@[7].kind == FieldType::Keyword,
        r.fields@[8].name@ == "kdc"@ && r.fields@[8].kind == FieldType::Keyword,
        r.fields@[9].name@ == "bookCount"@ && r.fields@[9].kind == FieldType::Integer,
        r.fields@[10].name@ == "loanCount"@ && r.fields@[10].kind == FieldType::Integer,
        r.fields@[11].name@ == "regDate"@ && r.fields@[11].kind == FieldType::DateDay,
        r.fields@[12].name@ == "libCode"@ && r.fields@[12].kind == FieldType::Keyword,
{
    let mut fields: Vec<FieldMapping> = Vec::new();
    fields.push(field("title", FieldType::TextWithNori));
    fields.push(field("authors", FieldType::TextWithNori));
    fields.push(field("publisher", FieldType::TextWithNori));
    fields.push(field("publicationYear", FieldType::Keyword));
    fields.push(field("isbn", FieldType::Keyword));
    fields.push(field("setIsbn", FieldType::Keyword));
    fields.push(field("additionSymbol", FieldType::Keyword));
    fields.push(field("vol", FieldType::Keyword));
    fields.push(field("kdc", FieldType::Keyword));
    fields.push(field("bookCount", FieldType::Integer));
    fields.push(field("loanCount", FieldType::Integer));
    fields.push(field("regDate", FieldType::DateDay));
    fields.push(field("libCode", FieldType::Keyword));
    IndexTemplate {
        name: "book".to_owned(),
        index_pattern: "book-*".to_owned(),
        refresh_interval_s: Some(300),
        version: 1,
        fields,
    }
}

} // verus!
