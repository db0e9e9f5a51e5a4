use libingest::index_templates::{apply_status_ok, book, library, FieldType};
use libingest::orchestrator::{run_step, RunEvent, RunStage};

#[test]
fn book_template_fields() {
    let t = book::template();
    assert_eq!(t.name, "book");
    assert_eq!(t.index_pattern, "book-*");
    assert_eq!(t.refresh_interval_s, Some(300));
    assert_eq!(t.version, 1);
    assert_eq!(t.fields.len(), 13);
    assert_eq!(t.fields[0].name, "title");
    assert_eq!(t.fields[0].kind, FieldType::TextWithNori);
    assert_eq!(t.fields[4].name, "isbn");
    assert_eq!(t.fields[4].kind, FieldType::Keyword);
    assert_eq!(t.fields[9].name, "bookCount");
    assert_eq!(t.fields[9].kind, FieldType::Integer);
    assert_eq!(t.fields[11].name, "regDate");
    assert_eq!(t.fields[11].kind, FieldType::DateDay);
    assert_eq!(t.fields[12].name, "libCode");
    assert_eq!(t.fields[12].kind, FieldType::Keyword);
}

#[test]
fn library_template_fields() {
    let t = library::template();
    assert_eq!(t.name, "library");
    assert_eq!(t.index_pattern, "library-*");
    assert_eq!(t.refresh_interval_s, None);
    assert_eq!(t.version, 1);
    assert_eq!(t.fields.len(), 10);
    assert_eq!(t.fields[0].name, "libCode");
    assert_eq!(t.fields[0].kind, FieldType::Keyword);
    assert_eq!(t.fields[2].name, "address");
    assert_eq!(t.fields[2].kind, FieldType::KeywordWithNori);
    assert_eq!(t.fields[3].name, "location");
    assert_eq!(t.fields[3].kind, FieldType::GeoPoint);
    assert_eq!(t.fields[7].name, "BookCount");
    assert_eq!(t.fields[7].kind, FieldType::Long);
}

#[test]
fn template_status_gate() {
    assert!(apply_status_ok(200));
    assert!(!apply_status_ok(201));
    assert!(!apply_status_ok(500));
}

#[test]
fn run_happy_path() {
    let mut stage = RunStage::ApplyTemplates;
    stage = run_step(stage, RunEvent::TemplatesApplied { ok: true });
    assert_eq!(stage, RunStage::LoadLibraries);
    stage = run_step(stage, RunEvent::LibrariesLoaded { ok: true, page_identifiers: 2 });
    assert_eq!(stage, RunStage::LoadBooks { remaining: 2 });
    stage = run_step(stage, RunEvent::BookStageDone { ok: true });
    assert_eq!(stage, RunStage::LoadBooks { remaining: 1 });
    stage = run_step(stage, RunEvent::BookStageDone { ok: true });
    assert_eq!(stage, RunStage::Done);
}

#[test]
fn template_failure_aborts() {
    let stage = run_step(RunStage::ApplyTemplates, RunEvent::TemplatesApplied { ok: false });
    assert_eq!(stage, RunStage::Aborted);
}

#[test]
fn library_failure_aborts() {
    let stage = run_step(
        RunStage::LoadLibraries,
        RunEvent::LibrariesLoaded { ok: false, page_identifiers: 0 },
    );
    assert_eq!(stage, RunStage::Aborted);
}

#[test]
fn book_failure_continues() {
    let stage = run_step(
        RunStage::LoadBooks { remaining: 3 },
        RunEvent::BookStageDone { ok: false },
    );
    assert_eq!(stage, RunStage::LoadBooks { remaining: 2 });
}
