use analytics_resource::filter::{SortField, SortOrder};
use analytics_resource::model::{ArchiveKind, ArchiveStatus, ArchiveUndo};
use analytics_resource::panel::ResourcesPanel;
use analytics_resource::resource_view::{ArchiveCounts, ArchiveRow, ResourcesSnapshot};

fn row(id: &str, name: &str, kind: ArchiveKind, status: ArchiveStatus) -> ArchiveRow {
    ArchiveRow {
        id: id.to_string(),
        name: name.to_string(),
        alias: None,
        kind,
        version: 1,
        status,
        tail: String::new(),
        source_table: None,
        tags: Vec::new(),
        folder_id: None,
        updated_epoch: 0,
        archived_epoch: None,
        size_bytes: None,
    }
}

fn snapshot(rows: Vec<ArchiveRow>) -> ResourcesSnapshot {
    ResourcesSnapshot {
        rows,
        counts: ArchiveCounts::default(),
        read_only: false,
        details: Vec::new(),
        tags: Vec::new(),
        groups: Vec::new(),
    }
}

fn ids(panel: &ResourcesPanel) -> Vec<&str> {
    panel.view_rows().iter().map(|r| r.id.as_str()).collect()
}

#[test]
fn panel_view_follows_filter_and_sort() {
    let mut panel = ResourcesPanel::new();
    assert!(panel.view_rows().is_empty());
    assert_eq!(panel.sort(), (SortField::Name, SortOrder::Asc));
    panel.set_snapshot(snapshot(vec![
        row("ar_b", "b.sql", ArchiveKind::File, ArchiveStatus::Normal),
        row("ar_a", "a.sql", ArchiveKind::Analysis, ArchiveStatus::Missing),
        row("ar_c", "c.sql", ArchiveKind::File, ArchiveStatus::Normal),
    ]));
    assert_eq!(ids(&panel), vec!["ar_a", "ar_b", "ar_c"]);

    panel.choose_sort(SortField::Name);
    assert_eq!(panel.sort(), (SortField::Name, SortOrder::Desc), "再点同一列翻转方向");
    assert_eq!(ids(&panel), vec!["ar_c", "ar_b", "ar_a"]);
    panel.choose_sort(SortField::Version);
    assert_eq!(panel.sort(), (SortField::Version, SortOrder::Desc), "换列不动方向");

    panel.choose_sort(SortField::Name);
    panel.toggle_only_issues();
    assert_eq!(ids(&panel), vec!["ar_a"]);
    panel.toggle_only_issues();
    panel.toggle_kind(ArchiveKind::File);
    assert_eq!(panel.view_rows().len(), 2);
    panel.set_query("c.s");
    assert_eq!(ids(&panel), vec!["ar_c"]);
    panel.clear_filter();
    assert_eq!(panel.view_rows().len(), 3);
}

#[test]
fn selection_leaves_when_its_row_does() {
    let mut panel = ResourcesPanel::new();
    panel.set_snapshot(snapshot(vec![
        row("ar_1", "a.sql", ArchiveKind::File, ArchiveStatus::Normal),
        row("ar_2", "b.sql", ArchiveKind::File, ArchiveStatus::Normal),
    ]));
    panel.set_selected(Some("ar_2".to_string()));
    assert_eq!(panel.selected_id(), Some("ar_2"));
    panel.set_query("a.sql");
    assert_eq!(panel.selected_id(), None, "选中行被筛掉后不再选中");
    assert!(panel.selected_detail().is_none());
}

#[test]
fn an_undo_offer_expires_only_for_its_own_token() {
    let mut panel = ResourcesPanel::new();
    let first = ArchiveUndo { resource_id: "ar_1".to_string(), name: "a".to_string(), source_path: "/w/a.sql".to_string() };
    let second = ArchiveUndo { resource_id: "ar_2".to_string(), name: "b".to_string(), source_path: "/w/b.sql".to_string() };
    panel.set_undo(Some(first.clone()));
    panel.set_undo(Some(second.clone()));
    panel.expire_undo(&first);
    assert_eq!(panel.undo(), Some(&second), "旧的计时器不能撤掉新的撤销入口");
    panel.expire_undo(&second);
    assert!(panel.undo().is_none());
    panel.set_notice(Some("已归档".to_string()));
    assert_eq!(panel.notice(), Some("已归档"));
}
