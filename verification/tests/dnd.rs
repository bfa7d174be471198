use analytics_resource::dnd::{drag_label, drop_folder, group_drop_target, rows_to_move, GroupDrop};
use analytics_resource::model::{ArchiveKind, ArchiveStatus};
use analytics_resource::resource_view::ArchiveRow;

fn row_in(id: &str, folder: Option<&str>) -> ArchiveRow {
    ArchiveRow {
        id: id.to_string(),
        name: format!("{id}.sql"),
        alias: None,
        kind: ArchiveKind::File,
        version: 1,
        status: ArchiveStatus::Normal,
        tail: String::new(),
        source_table: None,
        tags: Vec::new(),
        folder_id: folder.map(str::to_string),
        updated_epoch: 0,
        archived_epoch: None,
        size_bytes: None,
    }
}

#[test]
fn drag_label_names_one_and_counts_many() {
    assert_eq!(drag_label("月报", 1), "月报");
    assert_eq!(drag_label("月报", 0), "月报");
    assert_eq!(drag_label("月报", 3), "3 项");
}

#[test]
fn only_group_headers_accept_the_drop() {
    assert_eq!(group_drop_target("__all__"), GroupDrop::NotATarget);
    assert_eq!(group_drop_target("__ungrouped__"), GroupDrop::Ungroup);
    assert_eq!(group_drop_target("af_1"), GroupDrop::Into("af_1".to_string()));
    assert_eq!(drop_folder(&GroupDrop::Ungroup), None);
    assert_eq!(drop_folder(&GroupDrop::Into("af_1".to_string())), Some("af_1"));
}

#[test]
fn only_rows_that_change_group_are_sent() {
    let rows = vec![row_in("ar_1", None), row_in("ar_2", Some("af_1")), row_in("ar_3", Some("af_2"))];
    let ids = vec!["ar_3".to_string(), "ar_1".to_string(), "ar_2".to_string()];

    let into = GroupDrop::Into("af_1".to_string());
    assert_eq!(rows_to_move(&rows, &ids, &into), vec!["ar_3".to_string(), "ar_1".to_string()], "已在 af_1 的 ar_2 不发；顺序按 ids");

    let ungroup = GroupDrop::Ungroup;
    assert_eq!(rows_to_move(&rows, &ids, &ungroup), vec!["ar_3".to_string(), "ar_2".to_string()]);
}

#[test]
fn unknown_ids_and_the_all_header_send_nothing() {
    let rows = vec![row_in("ar_1", None)];
    let ids = vec!["ar_9".to_string(), "ar_1".to_string()];
    assert_eq!(rows_to_move(&rows, &ids, &GroupDrop::Into("af_1".to_string())), vec!["ar_1".to_string()]);
    assert!(rows_to_move(&rows, &ids, &GroupDrop::NotATarget).is_empty());
}
