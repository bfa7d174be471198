use analytics_resource::detail_view::{alert_line, detail_rows, kind_label, short_hash, ArchiveDetail, ArchiveTagChip};
use analytics_resource::model::{ArchiveKind, ArchiveStatus};
use analytics_resource::resource_view::{badge_tone, row_tail, strength_badge, ArchiveCounts, BadgeTone};

fn detail(status: ArchiveStatus, kind: ArchiveKind) -> ArchiveDetail {
    ArchiveDetail {
        id: "ar_1".to_string(),
        name: "dau_report".to_string(),
        alias: None,
        kind,
        version: 2,
        status,
        readonly: true,
        size_label: "1.2 KB".to_string(),
        modified_label: "3 天前".to_string(),
        archived_label: "3 天前".to_string(),
        promoted_from: Some("scratchpad/dau.sql".to_string()),
        source_connection_id: Some("conn_1".to_string()),
        source_table: None,
        content_hash: Some("0123456789abcdef0123".to_string()),
        payload_rel_path: Some("dau.sql".to_string()),
        history_label: "1 个历史版本".to_string(),
        tags: Vec::new(),
        group: None,
    }
}

fn chip(name: &str) -> ArchiveTagChip {
    ArchiveTagChip { id: format!("id_{name}"), name: name.to_string() }
}

#[test]
fn short_hash_truncates_and_tolerates_missing() {
    assert_eq!(short_hash(Some("0123456789abcdef0123")), "0123456789ab");
    assert_eq!(short_hash(None), "—");
    assert_eq!(short_hash(Some("")), "—");
}

#[test]
fn short_hash_keeps_short_values_and_counts_characters() {
    assert_eq!(short_hash(Some("abc")), "abc");
    assert_eq!(short_hash(Some("指纹指纹指纹指纹指纹指纹指纹")), "指纹指纹指纹指纹指纹指纹");
}

#[test]
fn rows_skip_empty_values_but_keep_fingerprint_placeholder() {
    let rows = detail_rows(&detail(ArchiveStatus::Normal, ArchiveKind::File));
    let basic = rows.iter().find(|(title, _)| title == "基本信息").expect("基本信息");
    assert!(basic.1.iter().any(|(label, value)| *label == "只读" && value.contains("取回")));

    let source = rows.iter().find(|(title, _)| title == "来源").expect("来源");
    assert!(source.1.iter().any(|(label, _)| *label == "来源草稿"));
    assert!(!source.1.iter().any(|(label, _)| *label == "来源表"));
    assert!(source.1.iter().any(|(label, _)| *label == "内容指纹"));
}

#[test]
fn organization_section_is_hidden_when_empty() {
    let rows = detail_rows(&detail(ArchiveStatus::Normal, ArchiveKind::File));
    assert!(!rows.iter().any(|(title, _)| title == "组织"), "无标签无分组时不应出现空分区");

    let mut with_tags = detail(ArchiveStatus::Normal, ArchiveKind::File);
    with_tags.tags = vec![chip("报表"), chip("月度")];
    with_tags.group = Some("报表".to_string());
    let rows = detail_rows(&with_tags);
    let org = rows.iter().find(|(title, _)| title == "组织").expect("组织");
    assert!(org.1.iter().any(|(_, value)| value == "报表、月度"));
}

#[test]
fn detail_rows_are_exact_for_a_full_detail() {
    let mut d = detail(ArchiveStatus::Normal, ArchiveKind::Analysis);
    d.readonly = false;
    d.archived_label = String::new();
    d.source_table = Some("dwd.t".to_string());
    d.history_label = String::new();
    let rows = detail_rows(&d);
    let titles: Vec<&str> = rows.iter().map(|(t, _)| t.as_str()).collect();
    assert_eq!(titles, vec!["基本信息", "来源"], "无历史、无组织");
    let basic: Vec<(&str, &str)> = rows[0].1.iter().map(|(l, v)| (*l, v.as_str())).collect();
    assert_eq!(
        basic,
        vec![
            ("种类", "分析表"),
            ("版本", "v2"),
            ("只读", "可写（非文件型本体不带只读属性）"),
            ("大小", "1.2 KB"),
            ("修改时间", "3 天前"),
        ]
    );
    let source: Vec<(&str, &str)> = rows[1].1.iter().map(|(l, v)| (*l, v.as_str())).collect();
    assert_eq!(
        source,
        vec![
            ("来源草稿", "scratchpad/dau.sql"),
            ("来源连接", "conn_1"),
            ("来源表", "dwd.t"),
            ("内容指纹", "0123456789ab"),
        ]
    );
}

#[test]
fn present_but_empty_values_make_no_row() {
    let mut d = detail(ArchiveStatus::Normal, ArchiveKind::File);
    d.promoted_from = Some(String::new());
    d.source_connection_id = Some(String::new());
    d.source_table = Some(String::new());
    d.group = Some(String::new());
    let rows = detail_rows(&d);
    let source: Vec<(&str, &str)> = rows[1].1.iter().map(|(l, v)| (*l, v.as_str())).collect();
    assert_eq!(source, vec![("内容指纹", "0123456789ab")]);
    assert!(!rows.iter().any(|(title, _)| title == "组织"), "空分组不成行，也不成分区");
}

#[test]
fn alerts_only_for_actionable_states() {
    assert!(alert_line(&detail(ArchiveStatus::Normal, ArchiveKind::File)).is_none());
    assert!(alert_line(&detail(ArchiveStatus::ContentChanged, ArchiveKind::File))
        .expect("内容已变应提示")
        .contains("内容已变"));
    assert!(alert_line(&detail(ArchiveStatus::Missing, ArchiveKind::File)).expect("缺失应提示").contains("本体缺失"));
    assert!(alert_line(&detail(ArchiveStatus::Normal, ArchiveKind::TableRef))
        .expect("引用应提示")
        .contains("源表可能已变更"));
}

#[test]
fn kind_labels_are_shared_wording() {
    assert_eq!(kind_label(ArchiveKind::File), "受管文件");
    assert_eq!(kind_label(ArchiveKind::Analysis), "分析表");
    assert_eq!(kind_label(ArchiveKind::TableRef), "远端引用");
}

#[test]
fn strength_badge_follows_kind_and_status() {
    assert_eq!(strength_badge(ArchiveKind::File, ArchiveStatus::Normal), "已归档");
    assert_eq!(strength_badge(ArchiveKind::Analysis, ArchiveStatus::Normal), "分析表");
    assert_eq!(strength_badge(ArchiveKind::TableRef, ArchiveStatus::Normal), "引用");
    assert_eq!(strength_badge(ArchiveKind::File, ArchiveStatus::Missing), "缺失");
    assert_eq!(strength_badge(ArchiveKind::File, ArchiveStatus::ContentChanged), "内容已变");
}

#[test]
fn badge_tone_marks_weak_strength_as_warning() {
    assert_eq!(badge_tone(ArchiveKind::File, ArchiveStatus::Normal), BadgeTone::Success);
    assert_eq!(badge_tone(ArchiveKind::Analysis, ArchiveStatus::Normal), BadgeTone::Info);
    assert_eq!(badge_tone(ArchiveKind::TableRef, ArchiveStatus::Normal), BadgeTone::Warning);
    assert_eq!(badge_tone(ArchiveKind::File, ArchiveStatus::Missing), BadgeTone::Danger);
    assert_eq!(badge_tone(ArchiveKind::Analysis, ArchiveStatus::ContentChanged), BadgeTone::Warning);
}

#[test]
fn row_tail_prefers_detail_then_time_then_version() {
    assert_eq!(row_tail("1.2 KB", "3 天前", 3), "1.2 KB · 3 天前");
    assert_eq!(row_tail("1.2 KB", "", 3), "1.2 KB");
    assert_eq!(row_tail("", "3 天前", 3), "3 天前");
    assert_eq!(row_tail("", "", 3), "v3");
    assert_eq!(row_tail("", "", -1), "v-1");
}

#[test]
fn counts_line_hides_zero_buckets() {
    let clean = ArchiveCounts { total: 3, archived: 3, ..ArchiveCounts::default() };
    assert_eq!(clean.line(), "3 项 · 已归档 3");
    assert!(!clean.has_issues());

    let with_issues =
        ArchiveCounts { total: 4, archived: 3, analysis: 1, missing: 1, drifted: 2, ..ArchiveCounts::default() };
    assert_eq!(with_issues.line(), "4 项 · 已归档 3 · 分析表 1 · 缺失 1 · 索引异常 2");
    assert!(with_issues.has_issues());

    let refs = ArchiveCounts { total: 1, table_ref: 1, ..ArchiveCounts::default() };
    assert_eq!(refs.line(), "1 项 · 已归档 0 · 引用 1");
}
