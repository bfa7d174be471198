use analytics_resource::model::{
    ArchiveBinding, ArchiveKind, KeepVersions, ReproductionStrength,
};

#[test]
fn kind_db_roundtrip() {
    for kind in [
        ArchiveKind::File,
        ArchiveKind::Analysis,
        ArchiveKind::TableRef,
    ] {
        assert_eq!(ArchiveKind::from_db_str(kind.as_db_str()), kind);
    }
    assert_eq!(ArchiveKind::default(), ArchiveKind::File);
}

#[test]
fn kind_labels_cover_all_kinds_in_menu_order() {
    let labels: Vec<&str> = ArchiveKind::ALL.iter().map(|kind| kind.label()).collect();
    assert_eq!(labels, vec!["文件", "分析表", "引用"]);
}

#[test]
fn kind_unknown_value_falls_back_to_file() {
    assert_eq!(ArchiveKind::from_db_str("future_kind"), ArchiveKind::File);
    assert_eq!(ArchiveKind::from_db_str(""), ArchiveKind::File);
}

#[test]
fn strength_is_derived_from_kind() {
    assert_eq!(ArchiveKind::File.strength(), ReproductionStrength::Strong);
    assert_eq!(
        ArchiveKind::Analysis.strength(),
        ReproductionStrength::Medium
    );
    assert_eq!(ArchiveKind::TableRef.strength(), ReproductionStrength::Weak);
}

#[test]
fn binding_default_is_all_empty() {
    let binding = ArchiveBinding::default();
    assert!(binding.promoted_from.is_none());
    assert!(binding.source_connection_id.is_none());
    assert!(binding.source_table.is_none());
}

#[test]
fn kind_display_string_is_the_db_word() {
    assert_eq!(ArchiveKind::TableRef.to_display_string(), "table_ref");
    assert_eq!(ArchiveKind::File.to_display_string(), "file");
}

#[test]
fn keep_versions_setting_edges() {
    assert_eq!(KeepVersions::from_setting(-5), KeepVersions::All);
    assert_eq!(KeepVersions::from_setting(0), KeepVersions::MetadataOnly);
    assert_eq!(KeepVersions::from_setting(7), KeepVersions::Keep(7));
    assert_eq!(
        KeepVersions::from_setting(i64::MAX),
        KeepVersions::Keep(u32::MAX)
    );
    assert_eq!(KeepVersions::Keep(9).to_setting(), 9);
    assert_eq!(KeepVersions::All.to_setting(), -1);
    assert_eq!(KeepVersions::Keep(0).limit(), Some(0));
    assert_eq!(KeepVersions::Keep(3).limit(), Some(3));
}

#[test]
fn keep_versions_labels() {
    assert_eq!(KeepVersions::All.label(), "全部保留");
    assert_eq!(KeepVersions::MetadataOnly.label(), "只留版本元数据");
    assert_eq!(KeepVersions::Keep(12).label(), "保留最近 12 份");
}

#[test]
fn keep_policy_roundtrip_law_on_values() {
    for keep in [KeepVersions::All, KeepVersions::MetadataOnly, KeepVersions::Keep(1), KeepVersions::Keep(u32::MAX)] {
        assert_eq!(KeepVersions::from_setting(keep.to_setting()), keep);
    }
    assert_eq!(
        KeepVersions::from_setting(KeepVersions::Keep(0).to_setting()),
        KeepVersions::MetadataOnly
    );
}
