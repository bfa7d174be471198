use analytics_resource::analysis::{AnalysisFacts, ColumnSpec, FINGERPRINT_HINT, STRUCTURE_CHANGED_NOTE};
use analytics_resource::indexer::{scan_report, IndexIssue, IndexRecord, IndexScanReport};
use analytics_resource::payload::{candidate_rel_path, safe_segment, PayloadStore};
use analytics_resource::preview::{
    from_head, is_textual, size_allows_preview, Preview, ONLY_META_NOTE, PREVIEW_MAX_FILE_BYTES, PREVIEW_MAX_LINES,
    TRUNCATED_NOTE,
};
use std::collections::HashSet;

fn facts(definition: &str, columns: &[(&str, &str)], rows: Option<i64>) -> AnalysisFacts {
    AnalysisFacts {
        definition_sql: Some(definition.to_string()),
        columns: columns.iter().map(|(name, ty)| ColumnSpec::new(name, ty)).collect(),
        row_count: rows,
    }
}

// ---------------------------------------------------------------- analysis

#[test]
fn digest_keeps_declared_order_and_case() {
    let one = facts("select 1", &[("id", "INTEGER"), ("Name", "VARCHAR")], None);
    assert_eq!(one.structure_digest(), "id\tINTEGER\nName\tVARCHAR");
    assert_eq!(AnalysisFacts::default().structure_digest(), "");
    assert_eq!(AnalysisFacts::default().column_count(), 0);
    let swapped = facts("select 1", &[("Name", "VARCHAR"), ("id", "INTEGER")], None);
    assert_ne!(one.structure_digest(), swapped.structure_digest());
    assert_ne!(one.fingerprint(), swapped.fingerprint());
}

#[test]
fn fingerprint_covers_definition_and_structure_but_not_row_count() {
    let base = facts("select * from t", &[("id", "INTEGER")], Some(10));
    let grown = facts("select * from t", &[("id", "INTEGER")], Some(10_000));
    let unknown = facts("select * from t", &[("id", "INTEGER")], None);
    assert_eq!(base.fingerprint(), grown.fingerprint(), "行数变化不算内容变化");
    assert_eq!(base.fingerprint(), unknown.fingerprint(), "没读到行数也一样");

    let renamed = facts("select * from t", &[("order_id", "INTEGER")], Some(10));
    let retyped = facts("select * from t", &[("id", "BIGINT")], Some(10));
    let added = facts("select * from t", &[("id", "INTEGER"), ("name", "VARCHAR")], Some(10));
    let redefined = facts("select * from t where id > 0", &[("id", "INTEGER")], Some(10));
    for (label, other) in [("列名", renamed), ("类型", retyped), ("加列", added), ("定义", redefined)] {
        assert_ne!(base.fingerprint(), other.fingerprint(), "{label}变化应改指纹");
    }

    let no_definition =
        AnalysisFacts { definition_sql: None, columns: vec![ColumnSpec::new("id", "INTEGER")], row_count: None };
    assert_eq!(no_definition.fingerprint().len(), 64, "sha256 十六进制");
}

#[test]
fn from_probe_maps_the_engine_shape_into_the_fingerprint_shape() {
    let facts = AnalysisFacts::from_probe(
        Some("SELECT * FROM read_csv_auto('a.csv')".to_string()),
        vec![("id".to_string(), "BIGINT".to_string()), ("name".to_string(), "VARCHAR".to_string())],
        Some(3),
    );
    assert_eq!(facts.column_count(), 2);
    assert_eq!(facts.structure_digest(), "id\tBIGINT\nname\tVARCHAR");
    assert_eq!(facts.row_count, Some(3));
    let again = AnalysisFacts::from_probe(
        facts.definition_sql.clone(),
        vec![("id".to_string(), "BIGINT".to_string()), ("name".to_string(), "VARCHAR".to_string())],
        Some(999),
    );
    assert_eq!(facts.fingerprint(), again.fingerprint());
}

#[test]
fn notes_say_what_the_fingerprint_really_covers() {
    assert!(FINGERPRINT_HINT.contains("行数"));
    assert!(STRUCTURE_CHANGED_NOTE.contains("结构"));
    assert_ne!(FINGERPRINT_HINT, STRUCTURE_CHANGED_NOTE);
}

#[test]
fn fingerprint_is_lower_hex_of_sha256() {
    let f = facts("x", &[], None);
    let fp = f.fingerprint();
    assert!(fp.chars().all(|c| c.is_ascii_hexdigit() && !c.is_ascii_uppercase()));
    assert_ne!(fp, facts("y", &[], None).fingerprint());
}

// ---------------------------------------------------------------- preview

#[test]
fn only_known_text_extensions_are_previewable() {
    for name in ["月报.sql", "notes.md", "data.CSV", "config.yaml", "q.sql"] {
        assert!(is_textual(name), "{name} 应该能预览");
    }
    for name in ["model.parquet", "book.xlsx", "logic.duckdb", "README", "a.png"] {
        assert!(!is_textual(name), "{name} 不该预览");
    }
}

#[test]
fn large_files_are_not_read_but_unknown_size_is() {
    assert!(size_allows_preview(None));
    assert!(size_allows_preview(Some(1024)));
    assert!(!size_allows_preview(Some(PREVIEW_MAX_FILE_BYTES + 1)));
}

#[test]
fn head_becomes_lines_with_notes() {
    let Preview::Text { lines, truncated } = from_head("a\r\nb\tc\n\n", true) else {
        panic!("文本型应给出 Text");
    };
    assert_eq!(lines, vec!["a".to_string(), "b    c".to_string()]);
    assert!(!truncated, "已经读到文件末尾，不算截断");

    let long = (1..=PREVIEW_MAX_LINES + 5).map(|i| format!("line {i}")).collect::<Vec<_>>().join("\n");
    let Preview::Text { lines, truncated } = from_head(&long, true) else {
        panic!("文本型应给出 Text");
    };
    assert_eq!(lines.len(), PREVIEW_MAX_LINES, "只留前 {PREVIEW_MAX_LINES} 行");
    assert_eq!(lines[0], "line 1");
    assert!(truncated, "还有内容没显示 → 标截断");

    let Preview::Text { truncated, .. } = from_head("只有一行", false) else {
        panic!("文本型应给出 Text");
    };
    assert!(truncated);
}

#[test]
fn notes_explain_only_when_there_is_something_to_explain() {
    assert_eq!(Preview::default().note(), Some(ONLY_META_NOTE), "缺省是仅元信息：宿主没给预览时不能假装有内容");
    assert!(Preview::default().lines().is_empty());

    let whole = from_head("a\nb", true);
    assert_eq!(whole.note(), None, "整篇都在眼前，不需要额外说明");
    assert_eq!(whole.lines(), ["a".to_string(), "b".to_string()]);

    let cut = from_head("a\nb", false);
    assert_eq!(cut.note(), Some(TRUNCATED_NOTE));
}

// ---------------------------------------------------------------- payload

#[test]
fn safe_segment_rejects_traversal() {
    assert!(safe_segment("ar_1234").is_ok());
    assert!(safe_segment("../etc").is_err());
    assert!(safe_segment("a/b").is_err());
    assert!(safe_segment(".hidden").is_err());
    assert!(safe_segment("  ").is_err());
}

#[test]
fn free_rel_path_avoids_taken_names_keeping_dirs_and_extension() {
    let store = PayloadStore::new("/p".to_string());
    let nothing = |_: &str| false;
    assert_eq!(store.free_rel_path("dau.sql", &nothing), "dau.sql");

    let dir = store.resources_dir();
    let taken: HashSet<String> = [format!("{dir}/reports/dau.sql"), format!("{dir}/reports/dau-2.sql")].into_iter().collect();
    let probe = |p: &str| taken.contains(p);
    assert!(store.rel_path_taken("reports/dau.sql", &probe));
    assert!(!store.rel_path_taken("reports/other.sql", &probe));
    assert_eq!(store.free_rel_path("reports/dau.sql", &probe), "reports/dau-3.sql", "目录保留、后缀递增、扩展名在末尾");
    assert_eq!(store.free_rel_path("../outside.sql", &probe), "../outside.sql");
}

#[test]
fn refused_path_counts_as_taken() {
    let store = PayloadStore::new("/p".to_string());
    let nothing = |_: &str| false;
    assert!(store.rel_path_taken("../outside.sql", &nothing));
    assert!(store.rel_path_taken(".RSmeta/project.db", &nothing));
    assert!(!store.rel_path_taken("reports/free.sql", &nothing));
    assert_eq!(store.free_rel_path("../outside.sql", &nothing), "../outside.sql");
}

#[test]
fn resolve_rejects_escape_and_internal_paths() {
    let store = PayloadStore::new("/p".to_string());
    assert!(store.resolve("a/b.sql").is_ok());
    assert!(store.resolve("../outside.sql").is_err());
    assert!(store.resolve("a/../../outside.sql").is_err());
    assert!(store.resolve(".RSmeta/project.db").is_err());
    assert!(store.resolve("a/.hidden").is_err());
    assert!(store.resolve("/abs.sql").is_err());
    assert!(store.resolve("C:\\abs.sql").is_err());
    assert!(store.resolve("\\abs\\x.sql").is_err());
    assert!(store.resolve("   ").is_err());
}

#[test]
fn backslashes_separate_segments_too() {
    let store = PayloadStore::new("/p".to_string());
    assert!(store.resolve("a\\..\\b.sql").is_err());
    assert_eq!(store.resolve("a\\b.sql").expect("ok"), format!("{}/a/b.sql", store.resources_dir()));
    assert!(store.resolve("d:x.sql").is_err());
    assert!(store.resolve("ab:x.sql").is_ok(), "只有单个字母的盘符前缀算前缀");
}

#[test]
fn resolve_normalizes_curdir_component() {
    let store = PayloadStore::new("/p".to_string());
    let normalized = store.resolve("reports/./dau.sql").expect("./ 应视为无操作");
    assert!(normalized.starts_with(&store.resources_dir()));
    assert!(normalized.ends_with("reports/dau.sql"), "结果路径应已规范化：{normalized}");
}

#[test]
fn candidates_keep_directory_and_extension() {
    assert_eq!(candidate_rel_path("reports/dau.sql", 2), "reports/dau-2.sql");
    assert_eq!(candidate_rel_path("dau", 3), "dau-3");
    assert_eq!(candidate_rel_path(".env", 2), ".env-2");
}

#[test]
fn payloads_are_not_writable_but_work_copies_are() {
    let store = PayloadStore::new("/p".to_string());
    let inside = format!("{}/a.sql", store.resources_dir());
    assert!(store.ensure_writable(&inside).is_err());
    assert!(store.ensure_writable("/p/scratchpad/a.sql").is_ok());
}

// ---------------------------------------------------------------- indexer

#[test]
fn summaries_name_the_payload() {
    let untracked = IndexIssue::UntrackedFile { rel_path: "a.sql".to_string() };
    assert_eq!(untracked.summary(), "resources/a.sql：本体存在但没有登记记录");
    assert_eq!(untracked.resource_id(), None);
    let missing = IndexIssue::MissingPayload {
        resource_id: "ar_1".to_string(),
        name: "周报".to_string(),
        rel_path: "w.sql".to_string(),
    };
    assert_eq!(missing.summary(), "存档「周报」的本体缺失（期望位置 resources/w.sql）");
    assert_eq!(missing.resource_id(), Some("ar_1"));
    assert_eq!(missing.rel_path(), "w.sql");
}

#[test]
fn scan_reports_each_kind_of_difference() {
    let records = vec![
        IndexRecord {
            resource_id: "ar_1".to_string(),
            name: "a".to_string(),
            rel_path: Some("a.sql".to_string()),
            content_hash: Some("h1".to_string()),
            payload_present: true,
            actual_hash: Some("h1".to_string()),
        },
        IndexRecord {
            resource_id: "ar_2".to_string(),
            name: "b".to_string(),
            rel_path: Some("b.sql".to_string()),
            content_hash: Some("h2".to_string()),
            payload_present: false,
            actual_hash: None,
        },
        IndexRecord {
            resource_id: "ar_3".to_string(),
            name: "c".to_string(),
            rel_path: Some("c.sql".to_string()),
            content_hash: Some("h3".to_string()),
            payload_present: true,
            actual_hash: Some("zz".to_string()),
        },
    ];
    let files = vec!["a.sql".to_string(), "c.sql".to_string(), "d.sql".to_string()];
    let report = scan_report(&records, &files);
    assert!(!report.is_clean());
    assert_eq!(report.untracked_files().len(), 1);
    assert_eq!(report.missing_payloads().len(), 1);
    assert_eq!(report.content_changes().len(), 1);
    assert!(IndexScanReport::default().is_clean());
}

#[test]
fn issue_lists_partition_the_report() {
    let report = IndexScanReport {
        issues: vec![
            IndexIssue::UntrackedFile { rel_path: "a.sql".to_string() },
            IndexIssue::MissingPayload {
                resource_id: "ar_1".to_string(),
                name: "b".to_string(),
                rel_path: "b.sql".to_string(),
            },
            IndexIssue::UntrackedFile { rel_path: "c.sql".to_string() },
            IndexIssue::ContentChanged {
                resource_id: "ar_2".to_string(),
                name: "d".to_string(),
                rel_path: "d.sql".to_string(),
                expected_hash: "h1".to_string(),
                actual_hash: "h2".to_string(),
            },
        ],
    };
    let (u, m, c) = (report.untracked_files(), report.missing_payloads(), report.content_changes());
    assert_eq!((u.len(), m.len(), c.len()), (2, 1, 1));
    assert_eq!(u.len() + m.len() + c.len(), report.issues.len());
    assert_eq!(u[1].rel_path(), "c.sql", "各组保持报告顺序");
    let clean = IndexScanReport::default();
    assert!(clean.is_clean());
    assert!(clean.untracked_files().is_empty() && clean.missing_payloads().is_empty() && clean.content_changes().is_empty());
}
