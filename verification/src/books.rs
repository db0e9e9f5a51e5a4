//! The book catalog source: resolving one library's page (the embedded API
//! library code and the CSV download path, each missing piece a failure kind
//! of its own), decoding the legacy-encoded CSV, and typing its rows into
//! book records, dropping every row whose ISBN is empty.
use vstd::prelude::*;
use kuchiki::traits::TendrilSink;
use crate::num_text::{is_digit_char, parse_i32, spec_dec_digits, spec_parse_i32, u64_to_dec};

verus! {

/// One book record, in the CSV's column order.
#[derive(Clone, Debug)]
pub struct Record {
    pub num: i32,
    pub title: String,
    pub authors: String,
    pub publisher: String,
    pub publication_year: String,
    pub isbn: String,
    pub set_isbn: String,
    pub addition_symbol: String,
    pub vol: String,
    pub kdc: String,
    pub book_count: i32,
    pub loan_count: i32,
    pub reg_date: String,
}

/// The mathematical value of one book record.
pub struct RecordV {
    pub num: int,
    pub title: Seq<char>,
    pub authors: Seq<char>,
    pub publisher: Seq<char>,
    pub publication_year: Seq<char>,
    pub isbn: Seq<char>,
    pub set_isbn: Seq<char>,
    pub addition_symbol: Seq<char>,
    pub vol: Seq<char>,
    pub kdc: Seq<char>,
    pub book_count: int,
    pub loan_count: int,
    pub reg_date: Seq<char>,
}

impl View for Record {
    type V = RecordV;

    open spec fn view(&self) -> RecordV {
        RecordV {
            num: self.num as int,
            title: self.title@,
            authors: self.authors@,
            publisher: self.publisher@,
            publication_year: self.publication_year@,
            isbn: self.isbn@,
            set_isbn: self.set_isbn@,
            addition_symbol: self.addition_symbol@,
            vol: self.vol@,
            kdc: self.kdc@,
            book_count: self.book_count as int,
            loan_count: self.loan_count as int,
            reg_date: self.reg_date@,
        }
    }
}

/// Why one library's page could not be resolved; the caller logs the kind and
/// goes on to the next library.
#[derive(Clone, Copy, PartialEq, Eq, Structural, Debug)]
pub enum GetBookError {
    NoLibCode,
    NoLink,
    NoUrl,
    LibCodeParseError,
}

impl GetBookError {
    /// The text the error displays as.
    pub fn message(&self) -> (r: String)
        ensures
            r@ == "GetBookError"@,
    {
        "GetBookError".to_owned()
    }
}

/// Why the CSV could not be typed; aborts this library's book stage.
#[derive(Clone, Copy, PartialEq, Eq, Structural, Debug)]
pub enum CsvError {
    /// The reader itself rejected the input.
    Unreadable,
    /// A row had the wrong number of columns, or a numeric column did not
    /// parse.
    MalformedRow,
}

/// The text of the first element matching a selector, as kuchiki's HTML
/// parser and selector engine compute it from the document text.
pub uninterp spec fn html_first_text_of(html: Seq<char>, selector: Seq<char>) -> Option<Seq<char>>;

/// The named attribute of the first element matching a selector: `None` when
/// no element matches, `Some(None)` when the element lacks the attribute.
pub uninterp spec fn html_first_attr_of(
    html: Seq<char>,
    selector: Seq<char>,
    attr: Seq<char>,
) -> Option<Option<Seq<char>>>;

/// The text that the EUC-KR decoder yields for a byte sequence (malformed
/// sequences replaced, never rejected).
pub uninterp spec fn euc_kr_text_of(bytes: Seq<u8>) -> Seq<char>;

/// The data rows (after the header row) that the CSV reader yields for a
/// text, each row its fields; `None` when the reader rejects the input.
pub uninterp spec fn csv_body_rows_of(text: Seq<char>) -> Option<Seq<Seq<Seq<char>>>>;

/// Relies on kuchiki's parse_html, select_first and text_contents: the text
/// of the first match, a pure function of document text and selector.
#[verifier::external_body]
fn html_first_text(html: &str, selector: &str) -> (r: Option<String>)
    ensures
        (match html_first_text_of(html@, selector@) {
            Some(t) => r matches Some(s) && s@ == t,
            None => r is None,
        }),
{
    let document = kuchiki::parse_html().one(html);
    match document.select_first(selector) {
        Ok(el) => Some(el.text_contents()),
        Err(()) => None,
    }
}

/// Relies on kuchiki's parse_html, select_first and the element's attribute
/// map, pure functions of document text, selector and attribute name.
#[verifier::external_body]
fn html_first_attr(html: &str, selector: &str, attr: &str) -> (r: Option<Option<String>>)
    ensures
        (match html_first_attr_of(html@, selector@, attr@) {
            Some(Some(v)) => r matches Some(Some(s)) && s@ == v,
            Some(None) => r == Some(None::<String>),
            None => r is None,
        }),
{
    let document = kuchiki::parse_html().one(html);
    match document.select_first(selector) {
        Ok(el) => {
            let attrs = el.attributes.borrow();
            Some(attrs.get(attr).map(|v| v.to_string()))
        },
        Err(()) => None,
    }
}

/// Relies on encoding_rs's EUC_KR decoder: malformed byte sequences are
/// replaced rather than rejected, and the text depends on the bytes alone.
#[verifier::external_body]
fn decode_euc_kr(bytes: &[u8]) -> (r: String)
    ensures
        r@ == euc_kr_text_of(bytes@),
{
    let (text, _, _) = encoding_rs::EUC_KR.decode(bytes);
    text.into_owned()
}

/// The field texts of one row.
pub open spec fn row_view(row: Vec<String>) -> Seq<Seq<char>> {
    row@.map_values(|s: String| s@)
}

/// The field texts of a table, row by row.
pub open spec fn table_view(rows: Seq<Vec<String>>) -> Seq<Seq<Seq<char>>> {
    rows.map_values(|row: Vec<String>| row_view(row))
}

/// Relies on the csv reader (header row consumed, default dialect): each data
/// record is handed back as its fields; a malformed record is an error.
#[verifier::external_body]
fn csv_rows(text: &str) -> (r: Option<Vec<Vec<String>>>)
    ensures
        (match csv_body_rows_of(text@) {
            Some(t) => r matches Some(rows) && table_view(rows@) == t,
            None => r is None,
        }),
{
    let mut reader = csv::ReaderBuilder::new().from_reader(text.as_bytes());
    let mut rows: Vec<Vec<String>> = Vec::new();
    let mut it = reader.records();
    loop {
        match it.next() {
            Some(Ok(rec)) => rows.push(rec.iter().map(|f| f.to_string()).collect()),
            Some(Err(_)) => return None,
            None => break,
        }
    }
    Some(rows)
}

/// Whether `libCode=` followed by a digit stands at position `i`.
pub open spec fn code_match_at(s: Seq<char>, i: int) -> bool {
    &&& 0 <= i
    &&& i + 9 <= s.len()
    &&& s[i] == 'l'
    &&& s[i + 1] == 'i'
    &&& s[i + 2] == 'b'
    &&& s[i + 3] == 'C'
    &&& s[i + 4] == 'o'
    &&& s[i + 5] == 'd'
    &&& s[i + 6] == 'e'
    &&& s[i + 7] == '='
    &&& is_digit_char(s[i + 8])
}

/// The first position at or after `from` where the pattern matches.
pub open spec fn find_code(s: Seq<char>, from: int) -> Option<int>
    decreases s.len() - from,
    when 0 <= from
{
    if from + 9 > s.len() {
        None
    } else if code_match_at(s, from) {
        Some(from)
    } else {
        find_code(s, from + 1)
    }
}

/// The end of the maximal digit run beginning at `j`.
pub open spec fn digit_run_end(s: Seq<char>, j: int) -> int
    decreases s.len() - j,
    when 0 <= j <= s.len()
{
    if j >= s.len() || !is_digit_char(s[j]) {
        j
    } else {
        digit_run_end(s, j + 1)
    }
}

/// The library code embedded in a text: the maximal digit run right after the
/// first `libCode=` that is followed by at least one digit.
pub open spec fn spec_extract_code(s: Seq<char>) -> Option<Seq<char>> {
    match find_code(s, 0) {
        None => None,
        Some(i) => Some(s.subrange(i + 8, digit_run_end(s, i + 8))),
    }
}

fn code_prefix_at(text: &str, i: usize) -> (r: bool)
    requires
        i + 9 <= text@.len(),
        text@.len() <= usize::MAX,
    ensures
        r == code_match_at(text@, i as int),
{
    let c = text.get_char(i);
    if c != 'l' {
        return false;
    }
    if text.get_char(i + 1) != 'i' {
        return false;
    }
    if text.get_char(i + 2) != 'b' {
        return false;
    }
    if text.get_char(i + 3) != 'C' {
        return false;
    }
    if text.get_char(i + 4) != 'o' {
        return false;
    }
    if text.get_char(i + 5) != 'd' {
        return false;
    }
    if text.get_char(i + 6) != 'e' {
        return false;
    }
    if text.get_char(i + 7) != '=' {
        return false;
    }
    let cv = text.get_char(i + 8) as u32;
    48 <= cv && cv <= 57
}

proof fn lemma_digit_run(s: Seq<char>, j0: int, j: int)
    requires
        0 <= j0 <= j <= s.len(),
        forall|m: int| j0 <= m < j ==> is_digit_char(#[trigger] s[m]),
        j == s.len() || !is_digit_char(s[j]),
    ensures
        digit_run_end(s, j0) == j,
    decreases j - j0,
{
    if j0 < j {
        lemma_digit_run(s, j0 + 1, j);
    }
}

/// Finds the API library code in a page text, as the pattern describes it.
pub fn extract_lib_code(text: &str) -> (r: Option<String>)
    ensures
        (match spec_extract_code(text@) {
            Some(c) => r matches Some(s) && s@ == c,
            None => r is None,
        }),
{
    let n = text.unicode_len();
    if n < 9 {
        return None;
    }
    let mut i: usize = 0;
    while i <= n - 9
        invariant
            9 <= n,
            0 <= i <= n,
            n == text@.len(),
            find_code(text@, 0) == find_code(text@, i as int),
        decreases n - i,
    {
        if code_prefix_at(text, i) {
            let start = i + 8;
            let mut j = start;
            loop
                invariant
                    start <= j <= n,
                    n == text@.len(),
                    forall|m: int| start <= m < j ==> is_digit_char(#[trigger] text@[m]),
                ensures
                    start <= j <= n,
                    forall|m: int| start <= m < j ==> is_digit_char(#[trigger] text@[m]),
                    j == n || !is_digit_char(text@[j as int]),
                decreases n - j,
            {
                if j >= n {
                    break;
                }
                let cv = text.get_char(j) as u32;
                if cv < 48 || cv > 57 {
                    break;
                }
                j += 1;
            }
            proof {
                lemma_digit_run(text@, start as int, j as int);
                assert(find_code(text@, i as int) == Some(i as int));
            }
            let sub = text.substring_char(start, j);
            return Some(sub.to_owned());
        }
        proof {
            assert(find_code(text@, i as int) == find_code(text@, i + 1));
        }
        i += 1;
    }
    proof {
        assert(find_code(text@, i as int) is None);
    }
    None
}

/// What one page resolves to: the API library code and the CSV download path.
#[derive(Clone, Debug)]
pub struct ResolvedPage {
    pub lib_code: String,
    pub csv_path: String,
}

/// The resolution a page text admits: the embedded code and the download
/// path, or the first failure kind in resolution order.
pub open spec fn spec_resolve_page(html: Seq<char>) -> Result<(Seq<char>, Seq<char>), GetBookError> {
    match html_first_text_of(html, ".right_linfo dl dd"@) {
        None => Err(GetBookError::NoLibCode),
        Some(text) => match spec_extract_code(text) {
            None => Err(GetBookError::LibCodeParseError),
            Some(code) => match html_first_attr_of(html, ".download_link.text_type"@, "url"@) {
                None => Err(GetBookError::NoLink),
                Some(None) => Err(GetBookError::NoUrl),
                Some(Some(path)) => Ok((code, path)),
            },
        },
    }
}

/// Resolves one library's page: the API library code from the info text and
/// the CSV download path from the link element, with a distinct, named
/// failure kind for each missing piece.
pub fn resolve_page(html: &str) -> (r: Result<ResolvedPage, GetBookError>)
    ensures
        (match spec_resolve_page(html@) {
            Ok(cp) => r matches Ok(p) && p.lib_code@ == cp.0 && p.csv_path@ == cp.1,
            Err(e) => r == Err::<ResolvedPage, GetBookError>(e),
        }),
{
    match html_first_text(html, ".right_linfo dl dd") {
        None => Err(GetBookError::NoLibCode),
        Some(text) => match extract_lib_code(text.as_str()) {
            None => Err(GetBookError::LibCodeParseError),
            Some(code) => match html_first_attr(html, ".download_link.text_type", "url") {
                None => Err(GetBookError::NoLink),
                Some(None) => Err(GetBookError::NoUrl),
                Some(Some(path)) => Ok(ResolvedPage { lib_code: code, csv_path: path }),
            },
        },
    }
}

/// The record one CSV row types to, when it has the thirteen columns and its
/// numeric columns parse.
pub open spec fn spec_row_record(row: Seq<Seq<char>>) -> Option<RecordV> {
    if row.len() != 13 {
        None
    } else {
        match (spec_parse_i32(row[0]), spec_parse_i32(row[10]), spec_parse_i32(row[11])) {
            (Some(num), Some(bc), Some(lc)) => Some(
                RecordV {
                    num: num as int,
                    title: row[1],
                    authors: row[2],
                    publisher: row[3],
                    publication_year: row[4],
                    isbn: row[5],
                    set_isbn: row[6],
                    addition_symbol: row[7],
                    vol: row[8],
                    kdc: row[9],
                    book_count: bc as int,
                    loan_count: lc as int,
                    reg_date: row[12],
                },
            ),
            _ => None,
        }
    }
}

/// The records a table of rows types to, in order, rows with an empty ISBN
/// dropped; `None` as soon as any row is malformed.
pub open spec fn spec_records_of_rows(rows: Seq<Seq<Seq<char>>>) -> Option<Seq<RecordV>>
    decreases rows.len(),
{
    if rows.len() == 0 {
        Some(Seq::empty())
    } else {
        match (spec_records_of_rows(rows.drop_last()), spec_row_record(rows.last())) {
            (Some(init), Some(rec)) => Some(
                if rec.isbn.len() == 0 {
                    init
                } else {
                    init.push(rec)
                },
            ),
            _ => None,
        }
    }
}

/// Law: the typed output never contains a record with an empty ISBN.
pub proof fn lemma_no_empty_isbn(rows: Seq<Seq<Seq<char>>>)
    ensures
        (spec_records_of_rows(rows) matches Some(recs) ==> forall|i: int|
            0 <= i < recs.len() ==> (#[trigger] recs[i]).isbn.len() > 0),
    decreases rows.len(),
{
    if rows.len() > 0 {
        lemma_no_empty_isbn(rows.drop_last());
    }
}

proof fn lemma_rows_err(rows: Seq<Seq<Seq<char>>>, i: int)
    requires
        0 <= i < rows.len(),
        spec_row_record(rows[i]) is None,
    ensures
        spec_records_of_rows(rows) is None,
    decreases rows.len(),
{
    if i < rows.len() - 1 {
        lemma_rows_err(rows.drop_last(), i);
    }
}

/// Types the rows of the CSV into records, dropping every row whose ISBN is
/// empty; any malformed row rejects the whole table.
#[verifier::loop_isolation(false)]
pub fn records_from_rows(rows: Vec<Vec<String>>) -> (r: Result<Vec<Record>, CsvError>)
    ensures
        (match spec_records_of_rows(table_view(rows@)) {
            Some(recs) => r matches Ok(v) && v@.map_values(|x: Record| x@) == recs,
            None => r == Err::<Vec<Record>, CsvError>(CsvError::MalformedRow),
        }),
        (r matches Ok(v) ==> forall|i: int|
            0 <= i < v@.len() ==> (#[trigger] v@[i])@.isbn.len() > 0),
{
    let ghost tv = table_view(rows@);
    let mut rest = rows;
    let mut out: Vec<Record> = Vec::new();
    let ghost mut k: int = 0;
    while rest.len() > 0
        invariant
            0 <= k <= tv.len(),
            table_view(rest@) == tv.subrange(k, tv.len() as int),
            spec_records_of_rows(tv.subrange(0, k)) == Some(
                out@.map_values(|x: Record| x@),
            ),
            forall|m: int| 0 <= m < out@.len() ==> (#[trigger] out@[m])@.isbn.len() > 0,
        decreases rest@.len(),
    {
        let ghost prev = rest@;
        let row = rest.remove(0);
        proof {
            assert(table_view(prev).len() == prev.len());
            assert(0 <= k < tv.len());
            assert(tv[k] == table_view(prev)[0]);
            assert(tv[k] == row_view(row));
            assert forall|m: int| 0 <= m < rest@.len() implies #[trigger] table_view(rest@)[m]
                == tv.subrange(k + 1, tv.len() as int)[m] by {
                assert(table_view(rest@)[m] == row_view(rest@[m]));
                assert(rest@[m] == prev[m + 1]);
                assert(table_view(prev)[m + 1] == row_view(prev[m + 1]));
            }
            assert(table_view(rest@) =~= tv.subrange(k + 1, tv.len() as int));
            assert(tv.subrange(0, k + 1).drop_last() =~= tv.subrange(0, k));
            assert(tv.subrange(0, k + 1).last() == tv[k]);
        }
        if row.len() != 13 {
            proof {
                lemma_rows_err(tv, k);
            }
            return Err(CsvError::MalformedRow);
        }
        proof {
            assert(forall|j: int| 0 <= j < row@.len() ==> row_view(row)[j] == (#[trigger] row@[j])@);
        }
        let num = parse_i32(row[0].as_str());
        let book_count = parse_i32(row[10].as_str());
        let loan_count = parse_i32(row[11].as_str());
        match (num, book_count, loan_count) {
            (Some(num), Some(book_count), Some(loan_count)) => {
                let rec = Record {
                    num,
                    title: row[1].clone(),
                    authors: row[2].clone(),
                    publisher: row[3].clone(),
                    publication_year: row[4].clone(),
                    isbn: row[5].clone(),
                    set_isbn: row[6].clone(),
                    addition_symbol: row[7].clone(),
                    vol: row[8].clone(),
                    kdc: row[9].clone(),
                    book_count,
                    loan_count,
                    reg_date: row[12].clone(),
                };
                proof {
                    assert(spec_row_record(tv[k]) == Some(rec@));
                }
                if !rec.isbn.as_str().is_empty() {
                    proof {
                        assert(out@.push(rec).map_values(|x: Record| x@) =~= out@.map_values(
                            |x: Record| x@,
                        ).push(rec@));
                    }
                    out.push(rec);
                }
            },
            _ => {
                proof {
                    lemma_rows_err(tv, k);
                }
                return Err(CsvError::MalformedRow);
            },
        }
        proof {
            k = k + 1;
        }
    }
    proof {
        assert(tv.subrange(0, k) =~= tv);
    }
    Ok(out)
}

/// The records a CSV byte stream yields after transcoding: rows with an empty
/// ISBN dropped, any malformed row or unreadable input rejected.
pub open spec fn spec_books_of_bytes(b: Seq<u8>) -> Option<Seq<RecordV>> {
    match csv_body_rows_of(euc_kr_text_of(b)) {
        Some(rows) => spec_records_of_rows(rows),
        None => None,
    }
}

/// Decodes the downloaded CSV from the legacy encoding and types its rows
/// into book records; no returned record has an empty ISBN.
pub fn books_from_csv(bytes: &[u8]) -> (r: Result<Vec<Record>, CsvError>)
    ensures
        (match spec_books_of_bytes(bytes@) {
            Some(recs) => r matches Ok(v) && v@.map_values(|x: Record| x@) == recs,
            None => r is Err,
        }),
        (r matches Ok(v) ==> forall|i: int|
            0 <= i < v@.len() ==> (#[trigger] v@[i])@.isbn.len() > 0),
{
    let text = decode_euc_kr(bytes);
    match csv_rows(text.as_str()) {
        None => Err(CsvError::Unreadable),
        Some(rows) => {
            records_from_rows(rows)
        },
    }
}

/// The page identifiers that drive the book source: each upstream row's
/// numeric id, rendered in decimal.
pub fn page_identifiers(ids: &Vec<u32>) -> (r: Vec<String>)
    ensures
        r@.len() == ids@.len(),
        forall|i: int| 0 <= i < ids@.len() ==> (#[trigger] r@[i])@ == spec_dec_digits(
            ids@[i] as nat,
        ),
{
    let mut out: Vec<String> = Vec::new();
    let mut i: usize = 0;
    while i < ids.len()
        invariant
            0 <= i <= ids@.len(),
            out@.len() == i,
            forall|m: int| 0 <= m < i ==> (#[trigger] out@[m])@ == spec_dec_digits(ids@[m] as nat),
        decreases ids@.len() - i,
    {
        out.push(u64_to_dec(ids[i] as u64));
        i += 1;
    }
    out
}

} // verus!
