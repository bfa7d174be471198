use analytics_resource::detail_view::ArchiveTagChip;
use analytics_resource::dialogs::index_repair::RepairGroup;
use analytics_resource::indexer::{IndexIssue, IndexScanReport};
use analytics_resource::model::{ArchiveKind, ArchiveStatus, ORIGIN_RESOURCES};
use analytics_resource::models::{
    AnalyticsResource, AnalyticsTag, ResourceVersion, Timestamp, TrashEntry, TrashKind, TrashManifest,
    VersionSnapshot,
};
use analytics_resource::present::{
    build_repair_rows, build_snapshot, build_trash_snapshot, build_version_rows, format_relative_time,
    format_scale, format_size, format_timestamp, tag_chips, tag_options, tail_for, to_detail, to_row,
    SnapshotInputs,
};
use analytics_resource::resource_view::TagOption;
use chrono::{DateTime, Duration, Utc};

fn stamp(at: DateTime<Utc>) -> Timestamp {
    Timestamp::from_parts(at.timestamp(), at.timestamp_subsec_nanos()).expect("instant in range")
}

fn now_stamp() -> Timestamp {
    stamp(Utc::now())
}

fn row_model(id: &str, kind: &str, file_size: Option<i32>) -> AnalyticsResource {
    let now = now_stamp();
    AnalyticsResource {
        id: id.to_string(),
        resource_type: kind.to_string(),
        name: format!("{id}.sql"),
        alias: None,
        config: "null".to_string(),
        scope: "project".to_string(),
        row_count: None,
        column_count: None,
        file_size,
        version: 1,
        parent_version_id: None,
        parent_resource_id: None,
        source_query: None,
        created_at: now,
        updated_at: now,
        created_by: None,
        deleted_at: None,
        kind: kind.to_string(),
        content_hash: Some("abc".to_string()),
        file_rel_path: Some(format!("{id}.sql")),
        readonly: 1,
        promoted_from: None,
        source_connection_id: None,
        source_table: None,
        definition_sql: None,
        archived_at: Some(now),
    }
}

fn trash_entry(id: &str, name: &str, origin: &str, rel_path: &str, kind: TrashKind, size: u64) -> TrashEntry {
    TrashEntry {
        manifest: TrashManifest {
            id: id.to_string(),
            name: name.to_string(),
            origin: origin.to_string(),
            original_rel_path: rel_path.to_string(),
            kind,
            deleted_at: now_stamp(),
            size,
        },
    }
}

fn tag(id: &str, name: &str) -> AnalyticsTag {
    AnalyticsTag {
        id: id.to_string(),
        name: name.to_string(),
        color: None,
        icon: None,
        scope: "project".to_string(),
        created_at: now_stamp(),
        deleted_at: None,
    }
}

fn inputs<'a>(
    resources: &'a [AnalyticsResource],
    statuses: &'a [(String, ArchiveStatus)],
    counts: &'a [(String, i64)],
    tags: &'a [(String, Vec<AnalyticsTag>)],
    dictionary: Vec<TagOption>,
    folders: &'a [(String, String)],
    read_only: bool,
    now: Timestamp,
) -> SnapshotInputs<'a> {
    SnapshotInputs {
        resources,
        statuses,
        history_counts: counts,
        tags,
        tag_dictionary: dictionary,
        folders,
        group_dictionary: Vec::new(),
        read_only,
        now,
    }
}

#[test]
fn trash_snapshot_keeps_own_entries_and_counts_foreign() {
    let entries = vec![
        trash_entry("t1", "dau.sql", ORIGIN_RESOURCES, "reports/dau.sql", TrashKind::File, 2048),
        trash_entry("t2", "draft.sql", "scratchpad", "draft.sql", TrashKind::File, 10),
        trash_entry("t3", "reports", "scratchpad", "reports", TrashKind::Folder, 0),
    ];

    let snapshot = build_trash_snapshot(&entries);
    assert_eq!(snapshot.rows.len(), 1, "别人的条目不能混进行列表");
    assert_eq!(snapshot.rows[0].trash_id, "t1");
    assert_eq!(snapshot.rows[0].original_label, "resources/reports/dau.sql");
    assert_eq!(snapshot.rows[0].kind_label, "文件");
    assert_eq!(snapshot.rows[0].size_label, "2.0 KB");
    assert_eq!(snapshot.foreign, vec![("scratchpad".to_string(), 2)]);
}

#[test]
fn trash_snapshot_leaves_folder_size_empty() {
    let entries = vec![trash_entry("t1", "reports", ORIGIN_RESOURCES, "reports", TrashKind::Folder, 0)];
    let snapshot = build_trash_snapshot(&entries);
    assert_eq!(snapshot.rows[0].kind_label, "目录");
    assert!(snapshot.rows[0].size_label.is_empty());
    assert!(snapshot.foreign.is_empty());
}

#[test]
fn trash_rows_fall_back_to_the_name_and_count_each_foreign_origin_once() {
    let entries = vec![
        trash_entry("t1", "old.sql", ORIGIN_RESOURCES, "  ", TrashKind::File, 5_000_000_000),
        trash_entry("t2", "a", "scratchpad", "a", TrashKind::File, 1),
        trash_entry("t3", "b", "notes", "b", TrashKind::File, 1),
        trash_entry("t4", "c", "scratchpad", "c", TrashKind::File, 1),
    ];
    let snapshot = build_trash_snapshot(&entries);
    assert_eq!(snapshot.rows[0].original_label, "old.sql", "无原路径时退回文件名");
    assert_eq!(snapshot.rows[0].size_label, "2.0 GB", "超出 i32 的体积按上限显示");
    assert_eq!(
        snapshot.foreign,
        vec![("scratchpad".to_string(), 2), ("notes".to_string(), 1)],
        "按首次出现的顺序"
    );
}

#[test]
fn repair_rows_group_in_order_and_keep_both_fingerprints() {
    let report = IndexScanReport {
        issues: vec![
            IndexIssue::ContentChanged {
                resource_id: "ar_2".to_string(),
                name: "月报".to_string(),
                rel_path: "reports/dau.sql".to_string(),
                expected_hash: "1111111111111111".to_string(),
                actual_hash: "2222222222222222".to_string(),
            },
            IndexIssue::UntrackedFile { rel_path: "z/deep/外来表.sql".to_string() },
            IndexIssue::MissingPayload {
                resource_id: "ar_1".to_string(),
                name: "周报".to_string(),
                rel_path: "weekly.sql".to_string(),
            },
            IndexIssue::UntrackedFile { rel_path: "a.sql".to_string() },
        ],
    };

    let rows = build_repair_rows(&report);
    let groups: Vec<RepairGroup> = rows.iter().map(|row| row.group).collect();
    assert_eq!(
        groups,
        vec![RepairGroup::Untracked, RepairGroup::Untracked, RepairGroup::Missing, RepairGroup::Changed],
        "分组按原型顺序，组内按路径"
    );
    assert_eq!(rows[0].title, "a.sql");
    assert!(rows[0].rel_path == "a.sql" && rows[0].resource_id.is_none());
    assert!(rows[0].detail.contains("resources/a.sql"));
    assert_eq!(rows[1].title, "外来表.sql", "嵌套路径取最后一段");
    assert_eq!(rows[3].hash_detail, "登记 111111111111 · 实际 222222222222");
    assert!(rows[3].detail.contains("reports/dau.sql"));
    assert_eq!(rows[3].resource_id.as_deref(), Some("ar_2"));
    assert!(rows[2].hash_detail.is_empty(), "缺本体没有指纹可对");
}

#[test]
fn repair_rows_of_clean_report_are_empty() {
    assert!(build_repair_rows(&IndexScanReport::default()).is_empty());
}

#[test]
fn repair_row_texts_are_exact() {
    let report = IndexScanReport {
        issues: vec![
            IndexIssue::MissingPayload {
                resource_id: "ar_1".to_string(),
                name: "周报".to_string(),
                rel_path: "weekly.sql".to_string(),
            },
            IndexIssue::UntrackedFile { rel_path: "b.sql".to_string() },
            IndexIssue::UntrackedFile { rel_path: "a/b.sql".to_string() },
        ],
    };
    let rows = build_repair_rows(&report);
    assert_eq!(rows[0].rel_path, "a/b.sql");
    assert_eq!(rows[0].detail, "本体 resources/a/b.sql：存在但没有登记记录");
    assert_eq!(rows[1].rel_path, "b.sql");
    assert_eq!(rows[2].detail, "期望位置 resources/weekly.sql：本体不在了");
    assert_eq!(rows[2].title, "周报");
}

#[test]
fn size_formatting_stays_readable_at_every_scale() {
    assert_eq!(format_size(None), "");
    assert_eq!(format_size(Some(0)), "0 B");
    assert_eq!(format_size(Some(900)), "900 B");
    assert_eq!(format_size(Some(1023)), "1023 B");
    assert_eq!(format_size(Some(1229)), "1.2 KB");
    assert_eq!(format_size(Some(5 * 1024 * 1024)), "5.0 MB");
    assert_eq!(format_size(Some(-5)), "0 B", "负数按 0 处理，不显示负体积");
}

/// The integer rounding agrees with `{:.1}` on the exact binary quotient, ties included.
#[test]
fn size_formatting_matches_one_decimal_float_formatting() {
    fn by_float(bytes: i32) -> String {
        let b = bytes.max(0) as f64;
        let kb = 1024.0;
        let mb = kb * 1024.0;
        let gb = mb * 1024.0;
        if b < kb {
            format!("{} B", b as i64)
        } else if b < mb {
            format!("{:.1} KB", b / kb)
        } else if b < gb {
            format!("{:.1} MB", b / mb)
        } else {
            format!("{:.1} GB", b / gb)
        }
    }
    let mut samples: Vec<i32> = (0..5000).collect();
    samples.extend((1..20000).map(|k| k * 53));
    samples.extend((0..4000).map(|k| 1_048_576 + k * 2621));
    samples.extend([1280, 1_310_720, 1_341_952, 1_073_741_824, i32::MAX, 2_147_000_000, 1_048_575, 1_048_576]);
    for bytes in samples {
        assert_eq!(format_size(Some(bytes)), by_float(bytes), "bytes = {bytes}");
    }
}

#[test]
fn scale_uses_thousands_separator_and_tolerates_partial_info() {
    assert_eq!(format_scale(Some(12480), Some(18)), "12,480 行 × 18 列");
    assert_eq!(format_scale(Some(999), Some(3)), "999 行 × 3 列");
    assert_eq!(format_scale(Some(1000), None), "1,000 行");
    assert_eq!(format_scale(None, Some(7)), "7 列");
    assert_eq!(format_scale(None, None), "");
}

#[test]
fn thousands_groups_from_the_right_at_every_length() {
    assert_eq!(format_scale(Some(0), None), "0 行");
    assert_eq!(format_scale(Some(-3), None), "0 行", "负行数按 0");
    assert_eq!(format_scale(Some(123456), None), "123,456 行");
    assert_eq!(format_scale(Some(1234567), None), "1,234,567 行");
    assert_eq!(format_scale(Some(i32::MAX), Some(-1)), "2,147,483,647 行 × -1 列");
}

#[test]
fn relative_time_buckets_and_clock_skew() {
    let now = Utc::now();
    let n = stamp(now);
    assert_eq!(format_relative_time(n, n), "刚刚");
    assert_eq!(format_relative_time(n, stamp(now - Duration::minutes(5))), "5 分钟前");
    assert_eq!(format_relative_time(n, stamp(now - Duration::hours(3))), "3 小时前");
    assert_eq!(format_relative_time(n, stamp(now - Duration::days(2))), "2 天前");
    assert_eq!(format_relative_time(n, stamp(now - Duration::days(70))), "2 个月前");
    assert_eq!(format_relative_time(n, stamp(now - Duration::days(800))), "2 年前");
    assert_eq!(format_relative_time(n, stamp(now + Duration::hours(1))), "刚刚");
}

#[test]
fn relative_time_truncates_whole_seconds() {
    let then = Timestamp { secs: 1_000_000, nanos: 900_000_000 };
    let now = Timestamp { secs: 1_000_060, nanos: 100_000_000 };
    assert_eq!(format_relative_time(now, then), "刚刚", "59.2 秒仍是刚刚");
    let now = Timestamp { secs: 1_000_061, nanos: 0 };
    assert_eq!(format_relative_time(now, then), "1 分钟前");
}

#[test]
fn tail_follows_field_priority_per_kind() {
    let now = now_stamp();
    let file = row_model("ar_file", "file", Some(1229));
    assert_eq!(tail_for(&file, ArchiveKind::File, now), "1.2 KB · 刚刚", "文件型：大小 · 时间");

    let mut analysis = row_model("ar_analysis", "analysis", None);
    analysis.row_count = Some(12480);
    analysis.column_count = Some(18);
    assert_eq!(tail_for(&analysis, ArchiveKind::Analysis, now), "12,480 行 × 18 列 · 刚刚");

    let table_ref = row_model("ar_ref", "table_ref", None);
    assert_eq!(tail_for(&table_ref, ArchiveKind::TableRef, now), "无指纹 · 刚刚");

    let legacy = row_model("ar_legacy", "file", None);
    assert_eq!(tail_for(&legacy, ArchiveKind::File, now), "刚刚");
}

#[test]
fn details_carry_per_kind_size_and_real_history_count() {
    let now = now_stamp();
    let file = row_model("ar_file", "file", Some(1229));
    let analysis = {
        let mut row = row_model("ar_analysis", "analysis", None);
        row.row_count = Some(12480);
        row.column_count = Some(18);
        row
    };
    let table_ref = row_model("ar_ref", "table_ref", None);
    let resources = vec![file, analysis, table_ref];
    let counts = vec![("ar_analysis".to_string(), 3i64)];

    let snapshot = build_snapshot(inputs(&resources, &[], &counts, &[], Vec::new(), &[], false, now));

    let file = snapshot.detail("ar_file").expect("文件型详情");
    assert_eq!(file.size_label, "1.2 KB", "文件型给体积");
    assert_eq!(file.history_label, "", "无历史版本 → 空串（分区会被跳过）");
    assert!(file.readonly, "归档后只读");
    assert_eq!(file.content_hash.as_deref(), Some("abc"));
    assert_eq!(file.modified_label, format_timestamp(now));

    let analysis = snapshot.detail("ar_analysis").expect("分析表详情");
    assert_eq!(analysis.size_label, "12,480 行 × 18 列");
    assert_eq!(analysis.history_label, "3 个历史版本");

    let table_ref = snapshot.detail("ar_ref").expect("引用型详情");
    assert_eq!(table_ref.size_label, "", "引用型不给体积（不假装有值）");
}

#[test]
fn snapshot_carries_tags_for_rows_details_and_dictionary() {
    let now = now_stamp();
    let resources = vec![row_model("ar_1", "file", Some(10)), row_model("ar_2", "file", Some(10))];
    let tags = vec![("ar_1".to_string(), vec![tag("at_1", "报表")])];
    let dictionary = vec![TagOption { id: "at_1".to_string(), name: "报表".to_string(), count: 1 }];

    let snapshot = build_snapshot(inputs(&resources, &[], &[], &tags, dictionary, &[], false, now));

    assert_eq!(snapshot.rows[0].tags, snapshot.detail("ar_1").expect("detail").tags);
    assert_eq!(snapshot.rows[0].tags[0].id, "at_1");
    assert_eq!(snapshot.rows[0].tags[0].name, "报表");
    assert!(snapshot.rows[1].tags.is_empty(), "没挂标签的行是空集，不是缺字段");
    assert_eq!(snapshot.detail("ar_1").expect("detail").tags[0].name, "报表");
    assert!(snapshot.detail("ar_2").expect("detail").tags.is_empty());
    assert_eq!(snapshot.tags.len(), 1);
}

#[test]
fn rows_carry_alias_and_source_table_for_the_search_surface() {
    let now = now_stamp();
    let mut alias = row_model("ar_1", "analysis", None);
    alias.alias = Some("月报".to_string());
    let mut table_ref = row_model("ar_2", "table_ref", None);
    table_ref.source_table = Some("dwd.dwd_orders".to_string());
    let resources = vec![alias, table_ref];

    let snapshot = build_snapshot(inputs(&resources, &[], &[], &[], Vec::new(), &[], false, now));

    let haystack = analytics_resource::filter::search_haystack(&snapshot.rows[0]);
    assert!(haystack.contains("月报"), "别名进了匹配面：{haystack}");
    let haystack = analytics_resource::filter::search_haystack(&snapshot.rows[1]);
    assert!(haystack.contains("dwd.dwd_orders"), "来源表进了匹配面：{haystack}");
}

#[test]
fn timestamps_are_absolute_and_zero_padded() {
    let at = DateTime::parse_from_rfc3339("2026-09-16T04:05:00Z").expect("rfc3339").with_timezone(&Utc);
    assert_eq!(format_timestamp(stamp(at)), "2026-09-16 04:05");
}

#[test]
fn snapshot_counts_route_status_before_kind() {
    let now = now_stamp();
    let resources = vec![
        row_model("ar_1", "file", Some(1024)),
        row_model("ar_2", "analysis", None),
        row_model("ar_3", "table_ref", None),
        row_model("ar_4", "file", Some(10)),
        row_model("ar_5", "file", Some(10)),
    ];
    let statuses = vec![
        ("ar_4".to_string(), ArchiveStatus::Missing),
        ("ar_5".to_string(), ArchiveStatus::ContentChanged),
    ];

    let snapshot = build_snapshot(inputs(&resources, &statuses, &[], &[], Vec::new(), &[], true, now));

    assert_eq!(snapshot.rows.len(), 5);
    assert_eq!(snapshot.counts.total, 5);
    assert_eq!(snapshot.counts.archived, 1);
    assert_eq!(snapshot.counts.analysis, 1);
    assert_eq!(snapshot.counts.table_ref, 1);
    assert_eq!(snapshot.counts.missing, 1);
    assert_eq!(snapshot.counts.drifted, 1);
    assert!(snapshot.counts.has_issues());
    assert!(snapshot.read_only);
    assert_eq!(snapshot.rows[3].status, ArchiveStatus::Missing);
}

#[test]
fn rows_take_group_and_raw_sort_keys_from_the_record() {
    let now = now_stamp();
    let resource = row_model("ar_1", "file", Some(42));
    let folders = vec![("ar_1".to_string(), "af_1".to_string())];
    let row = to_row(&resource, &[], &[], &folders, now);
    assert_eq!(row.folder_id.as_deref(), Some("af_1"));
    assert_eq!(row.size_bytes, Some(42));
    assert_eq!(row.updated_epoch, resource.updated_at.secs);
    assert_eq!(row.archived_epoch, Some(resource.updated_at.secs));
    assert_eq!(row.kind, ArchiveKind::File);
    assert_eq!(row.status, ArchiveStatus::Normal);
}

#[test]
fn tag_chips_and_options_keep_order_and_clamp_counts() {
    let tags = vec![tag("at_1", "报表"), tag("at_2", "月度"), tag("at_3", "旧")];
    let chips = tag_chips(&tags);
    assert_eq!(
        chips,
        vec![
            ArchiveTagChip { id: "at_1".to_string(), name: "报表".to_string() },
            ArchiveTagChip { id: "at_2".to_string(), name: "月度".to_string() },
            ArchiveTagChip { id: "at_3".to_string(), name: "旧".to_string() },
        ]
    );
    let counts = vec![("at_2".to_string(), 4i64), ("at_3".to_string(), -2i64)];
    let options = tag_options(&tags, &counts);
    let got: Vec<(&str, usize)> = options.iter().map(|o| (o.id.as_str(), o.count)).collect();
    assert_eq!(got, vec![("at_1", 0), ("at_2", 4), ("at_3", 0)]);
}

#[test]
fn detail_without_archive_time_or_history_stays_empty() {
    let mut resource = row_model("ar_1", "table_ref", None);
    resource.archived_at = None;
    resource.readonly = 0;
    let detail = to_detail(&resource, ArchiveStatus::Normal, 0, &[]);
    assert_eq!(detail.archived_label, "");
    assert_eq!(detail.history_label, "");
    assert!(!detail.readonly);
    assert_eq!(detail.kind, ArchiveKind::TableRef);
    assert_eq!(detail.group, None);
}

fn history_version(version: i32, size: i32, hash: &str, at: Timestamp) -> ResourceVersion {
    ResourceVersion {
        id: format!("arv_{version}"),
        resource_id: "ar_1".to_string(),
        version,
        snapshot: Some(VersionSnapshot { file_size: Some(size), content_hash: Some(hash.to_string()) }),
        created_at: at,
    }
}

#[test]
fn version_rows_include_current_and_compare_adjacent_versions() {
    let now = now_stamp();
    let mut current = row_model("ar_1", "file", Some(1024));
    current.version = 3;
    current.content_hash = Some("333333333333ffff".to_string());
    let history = vec![history_version(2, 2048, "222222222222ffff", now), history_version(1, 1024, "111111111111ffff", now)];

    let rows = build_version_rows(&current, &history, &[2], true);
    let versions: Vec<i32> = rows.iter().map(|row| row.version).collect();
    assert_eq!(versions, vec![3, 2, 1], "降序，且当前版本也在列表里");
    assert!(rows[0].is_current);
    assert!(!rows[1].is_current);
    assert!(rows[0].has_copy, "当前版本的“副本”就是本体");
    assert!(rows[1].has_copy);
    assert!(!rows[2].has_copy, "副本被裁的版本要露出来");
    assert_eq!(rows[0].hash_short, "333333333333", "指纹只展示前 12 位");
    assert_eq!(rows[0].delta_label, "较 v2 大小-1.0 KB · 指纹已变");
    assert_eq!(rows[1].delta_label, "较 v1 大小+1.0 KB · 指纹已变");
    assert!(rows[2].delta_label.is_empty(), "最旧一版没有可比的上一版");
    assert_eq!(rows[0].time_label, format_timestamp(now));
}

#[test]
fn version_rows_tolerate_unreadable_snapshots() {
    let mut current = row_model("ar_1", "file", Some(1024));
    current.version = 2;
    let broken = ResourceVersion {
        id: "arv_1".to_string(),
        resource_id: "ar_1".to_string(),
        version: 1,
        snapshot: None,
        created_at: now_stamp(),
    };

    let rows = build_version_rows(&current, &[broken], &[], false);
    assert_eq!(rows.len(), 2);
    assert_eq!(rows[1].hash_short, "—", "解析不出来的快照不伪造指纹");
    assert_eq!(rows[1].size_label, "");
    assert!(rows[1].delta_label.is_empty(), "两侧都没值就不给差异（宁可不比也不编）");
}

#[test]
fn version_delta_names_unchanged_size_and_same_fingerprint_and_skips_gaps() {
    let now = now_stamp();
    let mut current = row_model("ar_1", "file", Some(2048));
    current.version = 5;
    current.content_hash = Some("aaaa".to_string());
    let history = vec![history_version(4, 2048, "aaaa", now), history_version(2, 1, "bbbb", now)];
    let rows = build_version_rows(&current, &history, &[], true);
    assert_eq!(rows[0].delta_label, "较 v4 大小不变 · 指纹相同");
    assert_eq!(rows[1].delta_label, "", "v2 不是 v4 的上一版：不比");
}

#[test]
fn foreign_counts_add_up_to_the_other_entries() {
    let entries = vec![
        trash_entry("t1", "a", "scratchpad", "a", TrashKind::File, 1),
        trash_entry("t2", "b", ORIGIN_RESOURCES, "b", TrashKind::File, 1),
        trash_entry("t3", "c", "notes", "c", TrashKind::File, 1),
        trash_entry("t4", "d", "scratchpad", "d", TrashKind::Folder, 0),
        trash_entry("t5", "e", "notes", "e", TrashKind::File, 1),
        trash_entry("t6", "f", "scratchpad", "f", TrashKind::File, 1),
    ];
    let snapshot = build_trash_snapshot(&entries);
    let total: usize = snapshot.foreign.iter().map(|(_, n)| *n).sum();
    assert_eq!(total, 5);
    assert_eq!(snapshot.rows.len() + total, entries.len());
    assert_eq!(snapshot.foreign, vec![("scratchpad".to_string(), 3), ("notes".to_string(), 2)]);
}

#[test]
fn lookup_lists_are_read_by_their_first_entry() {
    let now = now_stamp();
    let resources = vec![row_model("ar_file", "file", Some(10))];
    let statuses = vec![
        ("ar_file".to_string(), ArchiveStatus::Missing),
        ("ar_file".to_string(), ArchiveStatus::ContentChanged),
    ];
    let counts = vec![("ar_file".to_string(), 2i64), ("ar_file".to_string(), 7i64)];
    let folders = vec![("ar_file".to_string(), "af_1".to_string()), ("ar_file".to_string(), "af_2".to_string())];
    let snapshot = build_snapshot(inputs(&resources, &statuses, &counts, &[], Vec::new(), &folders, false, now));
    assert_eq!(snapshot.rows[0].status, ArchiveStatus::Missing);
    assert_eq!(snapshot.rows[0].folder_id.as_deref(), Some("af_1"));
    assert_eq!(snapshot.detail("ar_file").expect("详情").history_label, "2 个历史版本");
}

#[test]
fn tag_options_take_the_first_count_of_an_id() {
    let tags = vec![tag("t1", "月报"), tag("t2", "周报"), tag("t3", "日报")];
    let counts = vec![("t1".to_string(), 3i64), ("t2".to_string(), -4i64), ("t1".to_string(), 9i64)];
    let options = tag_options(&tags, &counts);
    let got: Vec<usize> = options.iter().map(|o| o.count).collect();
    assert_eq!(got, vec![3, 0, 0]);
}
