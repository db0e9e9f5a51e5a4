use libingest::books::{
    books_from_csv, extract_lib_code, page_identifiers, resolve_page, CsvError, GetBookError,
};
use libingest::libraries::{check_library_response, library_bulk_ops, Lib, LibrariesError};
use libingest::loader::composite_doc_id;

fn sample_lib(code: Option<&str>, name: &str) -> Lib {
    Lib {
        code: code.map(|c| c.to_string()),
        name: name.to_string(),
        address: "Seoul".to_string(),
        tel: "02-000-0000".to_string(),
        fax: None,
        latitude: "37.5".to_string(),
        longitude: "127.0".to_string(),
        homepage: None,
        closed: None,
        operating_time: None,
        book_count: "1000".to_string(),
    }
}

#[test]
fn consistent_library_count_passes() {
    let libs = vec![sample_lib(Some("111"), "First"), sample_lib(Some("222"), "Second")];
    let out = check_library_response(2, 2, libs).expect("counts agree");
    assert_eq!(out.len(), 2);
    let ops = library_bulk_ops(out);
    assert_eq!(ops.len(), 2);
    assert_eq!(ops[0].0, "111");
    assert_eq!(ops[1].0, "222");
    assert_eq!(ops[0].1.name, "First");
}

#[test]
fn inconsistent_library_count_fails() {
    let libs = vec![sample_lib(Some("111"), "First"), sample_lib(Some("222"), "Second")];
    let err = check_library_response(3, 2, libs).unwrap_err();
    assert_eq!(err, LibrariesError::CountMismatch { num_found: 3, result_num: 2 });
}

#[test]
fn library_without_code_is_dropped() {
    let libs = vec![
        sample_lib(Some("111"), "First"),
        sample_lib(None, "Nameless"),
        sample_lib(Some("333"), "Third"),
    ];
    let ops = library_bulk_ops(libs);
    assert_eq!(ops.len(), 2);
    assert_eq!(ops[0].0, "111");
    assert_eq!(ops[1].0, "333");
}

#[test]
fn extract_finds_first_digit_run() {
    assert_eq!(
        extract_lib_code("see http://x/api?libCode=12345&other"),
        Some("12345".to_string())
    );
    assert_eq!(extract_lib_code("libCode=9"), Some("9".to_string()));
    assert_eq!(extract_lib_code("nothing here"), None);
    assert_eq!(extract_lib_code(""), None);
}

#[test]
fn extract_skips_digitless_occurrence() {
    assert_eq!(extract_lib_code("libCode=x then libCode=77 end"), Some("77".to_string()));
    assert_eq!(extract_lib_code("libCode= and no digits"), None);
}

fn page(dd: &str, link: &str) -> String {
    format!(
        "<html><body><div class=\"right_linfo\"><dl><dt>api</dt><dd>{}</dd></dl></div>{}</body></html>",
        dd, link
    )
}

#[test]
fn resolves_code_and_link() {
    let html = page(
        "http://data/api?libCode=4242",
        "<a class=\"download_link text_type\" url=\"/csv/4242.csv\">download</a>",
    );
    let r = resolve_page(&html).expect("page resolves");
    assert_eq!(r.lib_code, "4242");
    assert_eq!(r.csv_path, "/csv/4242.csv");
}

#[test]
fn missing_info_text_is_no_lib_code() {
    let html = "<html><body><p>bare</p></body></html>";
    assert_eq!(resolve_page(html).unwrap_err(), GetBookError::NoLibCode);
}

#[test]
fn unparsable_code_is_parse_error() {
    let html = page("no code in here", "<a class=\"download_link text_type\" url=\"/x\">d</a>");
    assert_eq!(resolve_page(&html).unwrap_err(), GetBookError::LibCodeParseError);
}

#[test]
fn missing_link_is_no_link() {
    let html = page("http://data/api?libCode=4242", "<a class=\"other\">d</a>");
    assert_eq!(resolve_page(&html).unwrap_err(), GetBookError::NoLink);
}

#[test]
fn link_without_url_is_no_url() {
    let html = page(
        "http://data/api?libCode=4242",
        "<a class=\"download_link text_type\">download</a>",
    );
    assert_eq!(resolve_page(&html).unwrap_err(), GetBookError::NoUrl);
}

const CSV_HEADER: &str =
    "num,title,authors,publisher,publication_year,isbn,set_isbn,addition_symbol,vol,kdc,book_count,loan_count,reg_date";

#[test]
fn empty_isbn_rows_are_dropped() {
    let csv = format!(
        "{}\n1,First,A,P,2001,9788900000001,,,,811,3,1,2020-01-02\n2,NoIsbn,A,P,2002,,,,,811,1,0,2020-01-03\n3,Third,A,P,2003,9788900000003,,,,811,2,5,2020-01-04\n",
        CSV_HEADER
    );
    let records = books_from_csv(csv.as_bytes()).expect("csv parses");
    assert_eq!(records.len(), 2);
    assert_eq!(records[0].title, "First");
    assert_eq!(records[0].isbn, "9788900000001");
    assert_eq!(records[0].num, 1);
    assert_eq!(records[0].book_count, 3);
    assert_eq!(records[0].loan_count, 1);
    assert_eq!(records[1].isbn, "9788900000003");
    let ids: Vec<String> = records
        .iter()
        .map(|r| composite_doc_id("111007", &r.isbn))
        .collect();
    assert_eq!(ids, vec!["111007-9788900000001", "111007-9788900000003"]);
}

#[test]
fn bad_numeric_column_rejects_table() {
    let csv = format!(
        "{}\nx,First,A,P,2001,9788900000001,,,,811,3,1,2020-01-02\n",
        CSV_HEADER
    );
    assert_eq!(books_from_csv(csv.as_bytes()).unwrap_err(), CsvError::MalformedRow);
}

#[test]
fn wrong_column_count_rejects_table() {
    let csv = "a,b,c\n1,2,3\n";
    assert_eq!(books_from_csv(csv.as_bytes()).unwrap_err(), CsvError::MalformedRow);
}

#[test]
fn uneven_row_is_unreadable() {
    let csv = format!("{}\n1,only,three\n", CSV_HEADER);
    assert_eq!(books_from_csv(csv.as_bytes()).unwrap_err(), CsvError::Unreadable);
}

#[test]
fn header_only_csv_yields_no_records() {
    let csv = format!("{}\n", CSV_HEADER);
    let records = books_from_csv(csv.as_bytes()).expect("csv parses");
    assert_eq!(records.len(), 0);
}

#[test]
fn page_identifiers_render_ids() {
    assert_eq!(page_identifiers(&vec![11, 22, 0]), vec!["11", "22", "0"]);
}
