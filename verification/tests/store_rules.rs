use analytics_resource::model::ArchiveKind;
use analytics_resource::models::{parse_stored_instant, Timestamp};
use analytics_resource::resource::{
    clamp_file_size, default_resource_type, escape_like, normalize_pagination, page_offset_fits, page_output, page_query,
    qualified_resource_columns, total_pages, SqlParam, RESOURCE_COLUMNS,
};

#[test]
fn qualified_columns_prefix_every_column_in_order() {
    let q = qualified_resource_columns("r");
    assert!(q.starts_with("r.id, r.resource_type, r.name, "));
    assert!(q.ends_with("r.definition_sql, r.archived_at"));
    assert_eq!(q.split(", ").count(), RESOURCE_COLUMNS.split(',').count());
}

#[test]
fn pagination_is_clamped() {
    assert_eq!(normalize_pagination(0, 0), (1, 1));
    assert_eq!(normalize_pagination(-3, -5), (1, 1));
    assert_eq!(normalize_pagination(4, 20), (4, 20));
    assert_eq!(normalize_pagination(2, 10_000), (2, 500));
}

#[test]
fn like_wildcards_are_escaped() {
    assert_eq!(escape_like("100%_a\\b"), "100\\%\\_a\\\\b");
    assert_eq!(escape_like("月报"), "月报");
}

#[test]
fn sizes_are_clamped_to_i32() {
    assert_eq!(clamp_file_size(None), None);
    assert_eq!(clamp_file_size(Some(-1)), Some(0));
    assert_eq!(clamp_file_size(Some(5_000_000_000)), Some(i32::MAX as i64));
    assert_eq!(clamp_file_size(Some(42)), Some(42));
}

#[test]
fn default_resource_types_are_the_kind_words() {
    assert_eq!(default_resource_type(ArchiveKind::File), "file");
    assert_eq!(default_resource_type(ArchiveKind::Analysis), "analysis");
    assert_eq!(default_resource_type(ArchiveKind::TableRef), "table_ref");
}

#[test]
fn page_query_without_restrictions_sorts_by_creation() {
    let q = page_query(None, None, None, None, 0, 0, None, None);
    assert_eq!((q.page, q.page_size), (1, 1));
    assert_eq!(q.count_sql, "SELECT COUNT(*) FROM analytics_resources WHERE deleted_at IS NULL");
    assert_eq!(
        q.select_sql,
        format!("SELECT {RESOURCE_COLUMNS} FROM analytics_resources WHERE deleted_at IS NULL ORDER BY created_at ASC LIMIT ? OFFSET ?")
    );
    assert!(q.count_params.is_empty());
    assert_eq!(q.select_params, vec![SqlParam::Integer(1), SqlParam::Integer(0)]);
}

#[test]
fn page_query_binds_each_restriction_and_escapes_the_search() {
    let q = page_query(Some("project"), Some("file"), Some("f_1"), Some("50%"), 3, 20, Some("name"), Some("desc"));
    assert_eq!(
        q.count_sql,
        "SELECT COUNT(*) FROM analytics_resources WHERE deleted_at IS NULL AND scope = ? AND resource_type = ? \
         AND id IN (SELECT resource_id FROM analytics_resource_folder WHERE folder_id = ?) \
         AND (name LIKE ? ESCAPE '\\' OR alias LIKE ? ESCAPE '\\')"
    );
    assert!(q.select_sql.ends_with("ORDER BY name DESC LIMIT ? OFFSET ?"));
    let text = |v: &str| SqlParam::Text(v.to_string());
    let bound = vec![text("project"), text("file"), text("f_1"), text("%50\\%%"), text("%50\\%%")];
    assert_eq!(q.count_params, bound);
    let mut with_page = bound.clone();
    with_page.push(SqlParam::Integer(20));
    with_page.push(SqlParam::Integer(40));
    assert_eq!(q.select_params, with_page);
}

#[test]
fn page_query_sorts_only_by_known_columns() {
    let q = page_query(None, None, None, None, 1, 10, Some("name; DROP TABLE x"), Some("DESC"));
    assert!(q.select_sql.ends_with("ORDER BY created_at ASC LIMIT ? OFFSET ?"), "未知列退回 created_at，方向只认小写 desc");
    let q = page_query(None, None, None, None, 1, 10, Some("file_size"), None);
    assert!(q.select_sql.ends_with("ORDER BY file_size ASC LIMIT ? OFFSET ?"));
}

#[test]
fn total_pages_counts_partial_pages_and_never_zero() {
    assert_eq!(total_pages(0, 20), 1);
    assert_eq!(total_pages(1, 20), 1);
    assert_eq!(total_pages(20, 20), 1);
    assert_eq!(total_pages(21, 20), 2);
}

#[test]
fn plain_listing_is_newest_first_with_the_given_restrictions() {
    let (sql, params) = analytics_resource::resource::list_query(Some("project"), None, Some("af_1"));
    assert_eq!(
        sql,
        format!(
            "SELECT {RESOURCE_COLUMNS} FROM analytics_resources WHERE deleted_at IS NULL AND scope = ? \
             AND id IN (SELECT resource_id FROM analytics_resource_folder WHERE folder_id = ?) ORDER BY created_at DESC"
        )
    );
    assert_eq!(params, vec![SqlParam::Text("project".to_string()), SqlParam::Text("af_1".to_string())]);
}

#[test]
fn a_copy_is_named_after_its_source_unless_named() {
    assert_eq!(analytics_resource::resource::cloned_name("日活", None), "日活（副本）");
    assert_eq!(analytics_resource::resource::cloned_name("日活", Some("日活 v2")), "日活 v2");
}

#[test]
fn stored_instants_read_both_written_forms() {
    let at = Timestamp { secs: 1789567380, nanos: 0 };
    assert_eq!(parse_stored_instant("2026-09-16T14:03:00+00:00"), Some(at));
    assert_eq!(parse_stored_instant("2026-09-16T22:03:00+08:00"), Some(at), "偏移折算回 UTC");
    assert_eq!(parse_stored_instant("2026-09-16 14:03:00"), Some(at), "触发器写的 CURRENT_TIMESTAMP 形式");
    assert_eq!(
        parse_stored_instant("2026-09-16T14:03:00.5Z"),
        Some(Timestamp { secs: 1789567380, nanos: 500_000_000 })
    );
    assert_eq!(parse_stored_instant("昨天"), None);
}

#[test]
fn page_output_clamps_and_counts_pages() {
    let out = page_output(Vec::new(), 5, 1, 2).expect("in range");
    assert_eq!((out.total, out.page, out.page_size, out.total_pages), (5, 1, 2, 3));
    let out = page_output(Vec::new(), 0, -3, 0).expect("in range");
    assert_eq!((out.page, out.page_size, out.total_pages), (1, 1, 1), "空结果也有一页，页大小不为零");
    assert!(page_output(Vec::new(), -1, 1, 10).is_none());
    assert!(page_output(Vec::new(), i32::MAX, 1, 10).is_none());
    assert!(page_offset_fits(1, 500));
    assert!(!page_offset_fits(i32::MAX, 500));
    assert!(page_offset_fits(i32::MAX, 1));
}
