use libingest::loader::{
    chunk_records, collect_ids, composite_doc_id, index_name, plan_partition, refresh_mode,
    BulkActionContent, BulkResponseItem, DateYmd, IndexKind, LoadPlan,
};

#[test]
fn index_names_are_dated() {
    let d = DateYmd { year: 2024, month: 3, day: 7 };
    assert_eq!(index_name(IndexKind::Library, d), "library-2024-03-07");
    let d2 = DateYmd { year: 2023, month: 12, day: 31 };
    assert_eq!(index_name(IndexKind::Book, d2), "book-2023-12-31");
    let d3 = DateYmd { year: 800, month: 1, day: 2 };
    assert_eq!(index_name(IndexKind::Book, d3), "book-0800-01-02");
}

#[test]
fn composite_ids() {
    assert_eq!(composite_doc_id("111007", "9788952753811"), "111007-9788952753811");
    assert_eq!(composite_doc_id("4242", ""), "4242-");
}

#[test]
fn chunking_preserves_order() {
    let r = chunk_records(vec![1, 2, 3, 4, 5], 2);
    assert_eq!(r, vec![vec![1, 2], vec![3, 4], vec![5]]);
    let empty: Vec<Vec<i32>> = chunk_records(Vec::<i32>::new(), 3);
    assert_eq!(empty.len(), 0);
    let whole = chunk_records(vec![1, 2], 2);
    assert_eq!(whole, vec![vec![1, 2]]);
}

#[test]
fn plan_skips_on_rerun() {
    assert_eq!(plan_partition(true, 5, 100, 10), LoadPlan::Skip);
    assert_eq!(plan_partition(false, 5, 100, 10), LoadPlan::Load { batches: 10 });
    assert_eq!(plan_partition(true, 0, 100, 10), LoadPlan::Load { batches: 10 });
}

#[test]
fn plan_counts_batches() {
    assert_eq!(plan_partition(true, 0, 30_000, 30_000), LoadPlan::Load { batches: 1 });
    assert_eq!(plan_partition(true, 0, 30_001, 30_000), LoadPlan::Load { batches: 2 });
    assert_eq!(plan_partition(true, 0, 1, 30_000), LoadPlan::Load { batches: 1 });
    assert_eq!(plan_partition(true, 0, 0, 30_000), LoadPlan::Load { batches: 0 });
}

fn content(id: &str) -> BulkActionContent {
    BulkActionContent { index: "book-2024-03-07".to_string(), id: id.to_string(), status: 201 }
}

#[test]
fn bulk_item_content_is_variant_blind() {
    let items = vec![
        BulkResponseItem::Create(content("a")),
        BulkResponseItem::Delete(content("b")),
        BulkResponseItem::Index(content("c")),
        BulkResponseItem::Update(content("d")),
    ];
    assert_eq!(items[0].content().id, "a");
    assert_eq!(items[1].content().id, "b");
    assert_eq!(items[2].content().id, "c");
    assert_eq!(items[3].content().id, "d");
    assert_eq!(items[2].content().status, 201);
    let ids = collect_ids(&items);
    assert_eq!(ids, vec!["a", "b", "c", "d"]);
}

#[test]
fn refresh_modes() {
    assert_eq!(refresh_mode(IndexKind::Library), "wait_for");
    assert_eq!(refresh_mode(IndexKind::Book), "false");
}
