//! The library index template: the code as an exact-match keyword, the name
//! and address with the language-tokenized variant, the coordinates as a
//! geographic point, contact and schedule fields as keywords, and the
//! holdings count.
use vstd::prelude::*;
use crate::index_templates::{field, FieldMapping, FieldType, IndexTemplate};

verus! {

/// The template for `library-*` indices, field for field.
pub fn template() -> (r: IndexTemplate)
    ensures
        r.name@ == "library"@,
        r.index_pattern@ == "library-*"@,
        r.refresh_interval_s is None,
        r.version == 1,
        r.fields@.len() == 10,
        r.fields@[0].name@ == "libCode"@ && r.fields@[0].kind == FieldType::Keyword,
        r.fields@[1].name@ == "libName"@ && r.fields@[1].kind == FieldType::TextWithNori,
        r.fields@[2].name@ == "address"@ && r.fields@[2].kind == FieldType::KeywordWithNori,
        r.fields@[3].name@ == "location"@ && r.fields@[3].kind == FieldType::GeoPoint,
        r.fields@[4].name@ == "tel"@ && r.fields@[4].kind == FieldType::Keyword,
        r.fields@[5].name@ == "fax"@ && r.fields@[5].kind == FieldType::Keyword,
        r.fields@[6].name@ == "homepage"@ && r.fields@[6].kind == FieldType::Keyword,
        r.fields@[7].name@ == "BookCount"@ && r.fields@[7].kind == FieldType::Long,
        r.fields@[8].name@ == "operatingTime"@ && r.fields@[8].kind == FieldType::Keyword,
        r.fields@[9].name@ == "closed"@ && r.fields@[9].kind == FieldType::Keyword,
{
    let mut fields: Vec<FieldMapping> = Vec::new();
    fields.push(field("libCode", FieldType::Keyword));
    fields.push(field("libName", FieldType::TextWithNori));
    fields.push(field("address", FieldType::KeywordWithNori));
    fields.push(field("location", FieldType::GeoPoint));
    fields.push(field("tel", FieldType::Keyword));
    fields.push(field("fax", FieldType::Keyword));
    fields.push(field("homepage", FieldType::Keyword));
    fields.push(field("BookCount", FieldType::Long));
    fields.push(field("operatingTime", FieldType::Keyword));
    fields.push(field("closed", FieldType::Keyword));
    IndexTemplate {
        name: "library".to_owned(),
        index_pattern: "library-*".to_owned(),
        refresh_interval_s: None,
        version: 1,
        fields,
    }
}

} // verus!
