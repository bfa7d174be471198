use analytics_resource::detail_view::ArchiveTagChip;
use analytics_resource::filter::{
    apply_view, build_visible_items, needs_attention, no_match_hint, search_haystack,
    ResourcesFilter, SortField, SortOrder, VisibleItem, GROUP_ALL, GROUP_UNGROUPED,
    SEARCH_FIELDS,
};
use analytics_resource::model::{ArchiveKind, ArchiveStatus};
use analytics_resource::resource_view::{ArchiveRow, GroupOption};

fn row(
    id: &str,
    name: &str,
    kind: ArchiveKind,
    status: ArchiveStatus,
    version: i32,
    tail: &str,
) -> ArchiveRow {
    ArchiveRow {
        id: id.to_string(),
        name: name.to_string(),
        alias: None,
        kind,
        version,
        status,
        tail: tail.to_string(),
        source_table: None,
        tags: Vec::new(),
        folder_id: None,
        updated_epoch: 0,
        archived_epoch: None,
        size_bytes: None,
    }
}

fn row_with_tags(id: &str, tags: &[&str]) -> ArchiveRow {
    ArchiveRow {
        tags: tags
            .iter()
            .map(|t| ArchiveTagChip {
                id: t.to_string(),
                name: t.to_string(),
            })
            .collect(),
        ..row(id, id, ArchiveKind::File, ArchiveStatus::Normal, 1, "")
    }
}

fn sample() -> Vec<ArchiveRow> {
    vec![
        row("ar_2", "Beta.sql", ArchiveKind::File, ArchiveStatus::Normal, 2, "1.2 KB · 3 天前"),
        row("ar_1", "alpha.sql", ArchiveKind::Analysis, ArchiveStatus::Normal, 5, "12,480 行 × 18 列"),
        row("ar_3", "gamma.sql", ArchiveKind::File, ArchiveStatus::Missing, 1, ""),
    ]
}

#[test]
fn query_matches_name_and_tail_case_insensitively() {
    let rows = sample();

    let by_name = ResourcesFilter {
        query: "ALPHA".to_string(),
        ..ResourcesFilter::default()
    };
    let hit = apply_view(&rows, &by_name, SortField::Name, SortOrder::Asc);
    assert_eq!(hit.len(), 1);
    assert_eq!(hit[0].id, "ar_1");

    let by_tail = ResourcesFilter {
        query: "1.2".to_string(),
        ..ResourcesFilter::default()
    };
    assert_eq!(
        apply_view(&rows, &by_tail, SortField::Name, SortOrder::Asc).len(),
        1
    );
}

#[test]
fn query_matches_alias_tag_name_and_source_table() {
    let mut alias_row = row("ar_1", "dau_report.sql", ArchiveKind::Analysis, ArchiveStatus::Normal, 1, "");
    alias_row.alias = Some("月报".to_string());

    let mut tag_row = row_with_tags("ar_2", &["at_1"]);
    tag_row.tags[0].name = "财务报表".to_string();

    let mut table_row = row("ar_3", "orders_archive.sql", ArchiveKind::TableRef, ArchiveStatus::Normal, 1, "无指纹");
    table_row.source_table = Some("dwd.dwd_orders".to_string());

    let rows = vec![alias_row, tag_row, table_row];
    let hit = |query: &str| {
        let filter = ResourcesFilter {
            query: query.to_string(),
            ..ResourcesFilter::default()
        };
        apply_view(&rows, &filter, SortField::Name, SortOrder::Asc)
            .iter()
            .map(|row| row.id.clone())
            .collect::<Vec<_>>()
    };

    assert_eq!(hit("月报"), vec!["ar_1"]);
    assert_eq!(hit("财务报表"), vec!["ar_2"]);
    assert_eq!(hit("DWD_ORDERS"), vec!["ar_3"]);
    assert_eq!(hit("dwd.dwd"), vec!["ar_3"]);

    assert!(hit("sql 无").is_empty());
    assert!(hit("zzz").is_empty());
}

#[test]
fn search_haystack_keeps_name_and_tail_for_every_row() {
    let row = row("ar_1", "alpha.sql", ArchiveKind::File, ArchiveStatus::Normal, 3, "1.2 KB · 3 天前");
    let haystack = search_haystack(&row);
    assert!(haystack.contains("alpha.sql"));
    assert!(haystack.contains("1.2 kb"), "{haystack}");
    assert_eq!(haystack, haystack.to_lowercase());
}

#[test]
fn search_fields_list_covers_what_the_haystack_really_matches() {
    let mut row = row("ar_1", "dau_report.sql", ArchiveKind::TableRef, ArchiveStatus::Normal, 3, "1.2 KB · 3 天前");
    row.alias = Some("月报".to_string());
    row.source_table = Some("dwd.dwd_orders".to_string());
    row.tags = vec![ArchiveTagChip {
        id: "at_1".to_string(),
        name: "财务报表".to_string(),
    }];
    let haystack = search_haystack(&row);

    let probes = ["dau_report", "月报", "财务报表", "dwd.dwd_orders", "1.2 kb"];
    assert_eq!(SEARCH_FIELDS.len(), probes.len());
    for (field, probe) in SEARCH_FIELDS.iter().zip(probes) {
        assert!(haystack.contains(probe), "{field} ({probe})");
    }
}

#[test]
fn no_match_hint_speaks_about_the_query_only_when_there_is_one() {
    let filtered = no_match_hint("  ");
    assert!(filtered.contains("筛选"), "{filtered}");
    assert!(!filtered.contains("别名"));

    let searched = no_match_hint("月报");
    for field in SEARCH_FIELDS {
        assert!(searched.contains(field), "{field} / {searched}");
    }
}

#[test]
fn kind_and_issue_filters_narrow_the_list() {
    let rows = sample();

    let only_files = ResourcesFilter {
        kinds: vec![ArchiveKind::File],
        ..ResourcesFilter::default()
    };
    assert_eq!(
        apply_view(&rows, &only_files, SortField::Name, SortOrder::Asc).len(),
        2
    );
    assert!(!only_files.is_empty());

    let issues = ResourcesFilter {
        only_issues: true,
        ..ResourcesFilter::default()
    };
    let hit = apply_view(&rows, &issues, SortField::Name, SortOrder::Asc);
    assert_eq!(hit.len(), 1);
    assert!(needs_attention(&hit[0]));
    assert_eq!(hit[0].id, "ar_3");

    assert!(ResourcesFilter::default().is_empty());
}

#[test]
fn sort_is_stable_and_direction_aware() {
    let rows = sample();
    let none = ResourcesFilter::default();

    let asc = apply_view(&rows, &none, SortField::Name, SortOrder::Asc);
    assert_eq!(
        asc.iter().map(|r| r.id.as_str()).collect::<Vec<_>>(),
        vec!["ar_1", "ar_2", "ar_3"]
    );

    let desc = apply_view(&rows, &none, SortField::Name, SortOrder::Desc);
    assert_eq!(
        desc.iter().map(|r| r.id.as_str()).collect::<Vec<_>>(),
        vec!["ar_3", "ar_2", "ar_1"]
    );

    let by_version = apply_view(&rows, &none, SortField::Version, SortOrder::Desc);
    assert_eq!(
        by_version.iter().map(|r| r.version).collect::<Vec<_>>(),
        vec![5, 2, 1]
    );
}

fn row_with_raw(id: &str, name: &str, updated: i64, archived: Option<i64>, size: Option<i64>) -> ArchiveRow {
    ArchiveRow {
        updated_epoch: updated,
        archived_epoch: archived,
        size_bytes: size,
        ..row(id, name, ArchiveKind::File, ArchiveStatus::Normal, 1, "")
    }
}

#[test]
fn time_and_size_sorts_use_the_raw_values() {
    let rows = vec![
        row_with_raw("ar_1", "a_big.sql", 300, Some(30), Some(1_228_800)),
        row_with_raw("ar_2", "z_small.sql", 100, Some(10), Some(900)),
        row_with_raw("ar_3", "m_mid.sql", 200, Some(20), Some(4096)),
    ];
    let none = ResourcesFilter::default();
    let ids = |sorted: Vec<ArchiveRow>| sorted.iter().map(|r| r.id.clone()).collect::<Vec<_>>();

    assert_eq!(
        ids(apply_view(&rows, &none, SortField::UpdatedAt, SortOrder::Desc)),
        vec!["ar_1", "ar_3", "ar_2"]
    );
    assert_eq!(
        ids(apply_view(&rows, &none, SortField::ArchivedAt, SortOrder::Asc)),
        vec!["ar_2", "ar_3", "ar_1"]
    );
    assert_eq!(
        ids(apply_view(&rows, &none, SortField::Size, SortOrder::Asc)),
        vec!["ar_2", "ar_3", "ar_1"]
    );
}

#[test]
fn unknown_time_and_size_rows_stay_last_in_both_directions() {
    let rows = vec![
        row_with_raw("ar_unknown", "a_unknown.sql", 0, None, None),
        row_with_raw("ar_small", "z_small.sql", 100, Some(10), Some(900)),
        row_with_raw("ar_big", "m_big.sql", 200, Some(20), Some(4096)),
    ];
    let none = ResourcesFilter::default();
    let ids = |sorted: Vec<ArchiveRow>| sorted.iter().map(|r| r.id.clone()).collect::<Vec<_>>();

    assert_eq!(
        ids(apply_view(&rows, &none, SortField::Size, SortOrder::Asc)),
        vec!["ar_small", "ar_big", "ar_unknown"]
    );
    assert_eq!(
        ids(apply_view(&rows, &none, SortField::Size, SortOrder::Desc)),
        vec!["ar_big", "ar_small", "ar_unknown"]
    );
    assert_eq!(
        ids(apply_view(&rows, &none, SortField::ArchivedAt, SortOrder::Desc)),
        vec!["ar_big", "ar_small", "ar_unknown"]
    );
}

#[test]
fn missing_values_stay_last_even_against_extreme_values() {
    let rows = vec![
        row_with_raw("ar_unknown", "a_unknown.sql", 0, None, None),
        row_with_raw("ar_max", "z_max.sql", 0, Some(i64::MAX), Some(i64::MAX)),
        row_with_raw("ar_min", "y_min.sql", 0, Some(i64::MIN), Some(i64::MIN)),
    ];
    let none = ResourcesFilter::default();
    let ids = |sorted: Vec<ArchiveRow>| sorted.iter().map(|r| r.id.clone()).collect::<Vec<_>>();

    assert_eq!(ids(apply_view(&rows, &none, SortField::Size, SortOrder::Asc)), vec!["ar_min", "ar_max", "ar_unknown"]);
    assert_eq!(ids(apply_view(&rows, &none, SortField::Size, SortOrder::Desc)), vec!["ar_max", "ar_min", "ar_unknown"]);
    assert_eq!(
        ids(apply_view(&rows, &none, SortField::ArchivedAt, SortOrder::Asc)),
        vec!["ar_min", "ar_max", "ar_unknown"]
    );
    assert_eq!(
        ids(apply_view(&rows, &none, SortField::ArchivedAt, SortOrder::Desc)),
        vec!["ar_max", "ar_min", "ar_unknown"]
    );
}

#[test]
fn ties_fall_back_to_name_without_flipping() {
    let rows = vec![
        row_with_raw("ar_b", "beta.sql", 0, None, None),
        row_with_raw("ar_a", "Alpha.sql", 0, None, None),
    ];
    let none = ResourcesFilter::default();

    for order in [SortOrder::Asc, SortOrder::Desc] {
        let sorted = apply_view(&rows, &none, SortField::ArchivedAt, order);
        assert_eq!(
            sorted.iter().map(|r| r.id.as_str()).collect::<Vec<_>>(),
            vec!["ar_a", "ar_b"],
            "{order:?}"
        );
    }
}

#[test]
fn equal_keys_keep_their_input_order() {
    let rows = vec![
        row_with_raw("ar_first", "same.sql", 5, None, None),
        row_with_raw("ar_second", "SAME.sql", 5, None, None),
    ];
    let none = ResourcesFilter::default();
    for order in [SortOrder::Asc, SortOrder::Desc] {
        let sorted = apply_view(&rows, &none, SortField::UpdatedAt, order);
        assert_eq!(
            sorted.iter().map(|r| r.id.as_str()).collect::<Vec<_>>(),
            vec!["ar_first", "ar_second"]
        );
    }
}

#[test]
fn order_flips_on_repeat_click() {
    assert_eq!(SortOrder::Asc.flipped(), SortOrder::Desc);
    assert_eq!(SortOrder::Desc.flipped(), SortOrder::Asc);
    assert_eq!(SortField::Name.label(), "名称");
    assert_eq!(
        SortField::ALL.map(SortField::label),
        ["名称", "归档时间", "更新时间", "大小", "版本号"]
    );
    assert_eq!(
        SortField::ALL.map(SortField::short_label),
        ["名称", "归档", "更新", "大小", "版本"]
    );
    assert_eq!(
        SortField::ALL.map(SortField::key),
        ["name", "archived_at", "updated_at", "size", "version"]
    );
    for field in SortField::ALL {
        assert_eq!(SortField::from_key(field.key()), Some(field));
    }
    assert_eq!(SortField::from_key("看不见的列"), None);
    assert_eq!(SortField::Name.default_order(), SortOrder::Asc);
    assert_eq!(SortField::UpdatedAt.default_order(), SortOrder::Desc);
    assert_eq!(SortOrder::Asc.arrow(), "↑");
    assert_eq!(SortOrder::Desc.arrow(), "↓");
}

#[test]
fn toggle_kind_normalizes_select_all_to_unlimited() {
    let mut filter = ResourcesFilter::default();

    filter.toggle_kind(ArchiveKind::File);
    filter.toggle_kind(ArchiveKind::Analysis);
    assert!(filter.has_kind(ArchiveKind::File));
    assert_eq!(filter.menu_dims(), 2);
    assert!(!filter.is_empty());

    filter.toggle_kind(ArchiveKind::TableRef);
    assert!(filter.kinds.is_empty());
    assert!(filter.is_empty());
    assert!(!filter.has_kind(ArchiveKind::TableRef));

    filter.toggle_kind(ArchiveKind::File);
    filter.toggle_kind(ArchiveKind::File);
    assert!(!filter.has_kind(ArchiveKind::File));
}

#[test]
fn menu_dims_counts_menu_conditions_only() {
    let mut filter = ResourcesFilter {
        query: "dau".to_string(),
        ..ResourcesFilter::default()
    };
    assert_eq!(filter.menu_dims(), 0);
    filter.only_issues = true;
    assert_eq!(filter.menu_dims(), 1);
}

#[test]
fn tag_filter_is_multi_select_or() {
    let rows = vec![
        row_with_tags("ar_1", &["at_a"]),
        row_with_tags("ar_2", &["at_b"]),
        row_with_tags("ar_3", &["at_a", "at_b"]),
        row_with_tags("ar_4", &[]),
    ];
    let mut filter = ResourcesFilter::default();
    assert_eq!(
        apply_view(&rows, &filter, SortField::Name, SortOrder::Asc).len(),
        4
    );

    filter.toggle_tag("at_a");
    assert!(filter.has_tag("at_a"));
    assert!(!filter.is_empty());
    assert_eq!(
        apply_view(&rows, &filter, SortField::Name, SortOrder::Asc)
            .iter()
            .map(|r| r.id.as_str())
            .collect::<Vec<_>>(),
        vec!["ar_1", "ar_3"]
    );

    filter.toggle_tag("at_b");
    assert_eq!(
        apply_view(&rows, &filter, SortField::Name, SortOrder::Asc).len(),
        3
    );
    assert_eq!(filter.menu_dims(), 2);

    filter.toggle_tag("at_a");
    assert!(!filter.has_tag("at_a"));
    assert_eq!(
        apply_view(&rows, &filter, SortField::Name, SortOrder::Asc).len(),
        2
    );
}

#[test]
fn drop_tag_removes_a_stale_condition() {
    let mut filter = ResourcesFilter::default();
    filter.toggle_tag("at_a");
    filter.drop_tag("at_a");
    assert!(filter.is_empty());
    assert_eq!(filter.menu_dims(), 0);
}

fn row_in(id: &str, folder: Option<&str>) -> ArchiveRow {
    ArchiveRow {
        folder_id: folder.map(str::to_string),
        ..row(id, id, ArchiveKind::File, ArchiveStatus::Normal, 1, "")
    }
}

fn group(id: &str, name: &str, count: usize) -> GroupOption {
    let _ = count;
    GroupOption {
        id: id.to_string(),
        name: name.to_string(),
    }
}

fn keys(items: &[VisibleItem]) -> Vec<String> {
    items
        .iter()
        .map(|item| match item {
            VisibleItem::GroupHeader { key, .. } => key.clone(),
            VisibleItem::Row(row) => row.id.clone(),
        })
        .collect()
}

#[test]
fn no_groups_means_no_headers() {
    let rows = vec![row_in("ar_1", None), row_in("ar_2", None)];
    let items = build_visible_items(&rows, &[], &[]);
    assert_eq!(keys(&items), vec!["ar_1", "ar_2"]);
}

#[test]
fn groups_partition_rows_with_counts() {
    let rows = vec![
        row_in("ar_1", Some("af_1")),
        row_in("ar_2", None),
        row_in("ar_3", Some("af_1")),
        row_in("ar_4", Some("af_2")),
    ];
    let groups = vec![group("af_1", "月报", 0), group("af_2", "周报", 0)];
    let items = build_visible_items(&rows, &groups, &[]);
    assert_eq!(
        keys(&items),
        vec![GROUP_ALL, GROUP_UNGROUPED, "ar_2", "af_1", "ar_1", "ar_3", "af_2", "ar_4"]
    );
    let total = items
        .iter()
        .find_map(|item| match item {
            VisibleItem::GroupHeader { key, count, .. } if key == GROUP_ALL => Some(*count),
            _ => None,
        })
        .expect("all groups header");
    assert_eq!(total, 4);
}

#[test]
fn collapsing_hides_rows_but_keeps_headers() {
    let rows = vec![row_in("ar_1", Some("af_1")), row_in("ar_2", None)];
    let groups = vec![group("af_1", "月报", 1)];

    let collapsed = vec!["af_1".to_string()];
    let items = build_visible_items(&rows, &groups, &collapsed);
    assert_eq!(keys(&items), vec![GROUP_ALL, GROUP_UNGROUPED, "ar_2", "af_1"]);

    let all_collapsed = vec![GROUP_ALL.to_string()];
    let items = build_visible_items(&rows, &groups, &all_collapsed);
    assert_eq!(keys(&items), vec![GROUP_ALL]);
}

#[test]
fn header_counts_follow_the_visible_rows() {
    let groups = vec![group("af_1", "月报", 99)];
    let rows = vec![row_in("ar_1", Some("af_1")), row_in("ar_2", Some("af_1"))];
    let items = build_visible_items(&rows, &groups, &[]);
    let counts: Vec<usize> = items
        .iter()
        .filter_map(|item| match item {
            VisibleItem::GroupHeader { count, .. } => Some(*count),
            _ => None,
        })
        .collect();
    assert_eq!(counts, vec![2, 0, 2]);
}

#[test]
fn section_counts_add_up_to_all_rows() {
    let groups = vec![group("af_1", "月报", 0), group("af_2", "周报", 0)];
    let rows = vec![
        row_in("ar_1", Some("af_gone")),
        row_in("ar_2", Some("af_1")),
        row_in("ar_3", None),
        row_in("ar_4", Some("af_2")),
        row_in("ar_5", Some("af_1")),
    ];
    let items = build_visible_items(&rows, &groups, &[]);
    let counts: Vec<usize> = items
        .iter()
        .filter_map(|item| match item {
            VisibleItem::GroupHeader { count, depth: 1, .. } => Some(*count),
            _ => None,
        })
        .collect();
    assert_eq!(counts, vec![2, 2, 1]);
    assert_eq!(counts.iter().sum::<usize>(), rows.len());
}

#[test]
fn unknown_folders_fall_back_to_ungrouped() {
    let groups = vec![group("af_1", "月报", 0)];
    let rows = vec![row_in("ar_1", Some("af_gone")), row_in("ar_2", Some("af_1"))];
    let items = build_visible_items(&rows, &groups, &[]);
    assert_eq!(
        keys(&items),
        vec![GROUP_ALL, GROUP_UNGROUPED, "ar_1", "af_1", "ar_2"]
    );
}

#[test]
fn empty_filter_matches_every_row() {
    let rows = sample();
    let none = ResourcesFilter::default();
    for row in &rows {
        assert!(none.matches(row));
    }
}

#[test]
fn a_query_of_spaces_filters_nothing_and_padding_is_ignored() {
    let rows = sample();
    let spaces = ResourcesFilter { query: "   ".to_string(), ..ResourcesFilter::default() };
    assert!(rows.iter().all(|row| spaces.matches(row)));
    let padded = ResourcesFilter { query: "  ALPHA ".to_string(), ..ResourcesFilter::default() };
    let plain = ResourcesFilter { query: "alpha".to_string(), ..ResourcesFilter::default() };
    for row in &rows {
        assert_eq!(padded.matches(row), plain.matches(row));
    }
}
