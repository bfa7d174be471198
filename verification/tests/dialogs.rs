use analytics_resource::dialogs::archive::{
    name_hint, parse_keep_versions, parse_tags, submit_archive, ArchiveDialogInputs, KEEP_VERSIONS_MAX,
};
use analytics_resource::dialogs::checkout::{file_name_hint, submit_checkout, suggest_work_copy_name, CheckoutDialogInputs};
use analytics_resource::dialogs::group::{group_name_event, group_name_hint, GroupNameEvent, GroupNameKind};
use analytics_resource::dialogs::index_repair::{RepairAction, RepairDialogState, RepairGroup, RepairRow};
use analytics_resource::dialogs::pick::{submit_pick, DraftCandidate, PickDialogState};
use analytics_resource::dialogs::rename::{rename_gate, rename_placeholder, RenameField, RenameGate};
use analytics_resource::dialogs::tag::{TagChoice, TagDialogState};
use analytics_resource::dialogs::trash::{ForeignTrash, TrashDialogState, TrashRow};
use analytics_resource::dialogs::version::{VersionAction, VersionDialogState, VersionRow};
use analytics_resource::model::KeepVersions;

fn s(v: &str) -> String {
    v.to_string()
}

// ---------------------------------------------------------------- archive

#[test]
fn tags_split_on_commas_and_spaces_keeping_order() {
    assert_eq!(parse_tags(" 报表, 月度  季度，报表 "), vec!["报表", "月度", "季度"], "去空、去重保序（中文逗号也算分隔符）");
    assert!(parse_tags("   ").is_empty(), "全空白 = 没有标签");
    assert!(parse_tags("").is_empty());
}

#[test]
fn tags_trim_other_whitespace_and_split_on_tabs_and_newlines() {
    assert_eq!(parse_tags("a\tb\nc\r"), vec!["a", "b", "c"]);
    assert_eq!(parse_tags(",,x,,x,y"), vec!["x", "y"]);
}

#[test]
fn keep_versions_empty_means_following_settings() {
    assert_eq!(parse_keep_versions(""), Ok(None));
    assert_eq!(parse_keep_versions("  "), Ok(None));
    assert_eq!(parse_keep_versions("3"), Ok(Some(KeepVersions::Keep(3))));
    assert_eq!(parse_keep_versions("0"), Ok(Some(KeepVersions::MetadataOnly)), "0 = 只留元数据");
    assert_eq!(parse_keep_versions(&KEEP_VERSIONS_MAX.to_string()), Ok(Some(KeepVersions::Keep(KEEP_VERSIONS_MAX))));
    assert!(parse_keep_versions("abc").is_err());
    assert!(parse_keep_versions(&(KEEP_VERSIONS_MAX + 1).to_string()).is_err(), "超出上限挡在对话框，不留给服务层裁剪");
}

#[test]
fn minus_one_means_keep_everything() {
    assert_eq!(parse_keep_versions("-1"), Ok(Some(KeepVersions::All)));
    assert!(parse_keep_versions("-2").is_err());
    assert!(parse_keep_versions("-").is_err());
}

#[test]
fn keep_versions_errors_are_the_hints_shown() {
    assert_eq!(parse_keep_versions("abc"), Err("请填数字（留空 = 跟随设置）"));
    assert_eq!(parse_keep_versions("99999999999999999999"), Err("请填数字（留空 = 跟随设置）"), "溢出 = 不是数字");
    assert_eq!(parse_keep_versions("-2"), Err("-1 = 全部保留（留空 = 跟随设置）"));
    assert_eq!(parse_keep_versions("101"), Err("最多 100 份（留空 = 跟随设置）"));
    assert_eq!(parse_keep_versions("+7"), Ok(Some(KeepVersions::Keep(7))));
    assert_eq!(parse_keep_versions(" 007 "), Ok(Some(KeepVersions::Keep(7))));
    assert_eq!(parse_keep_versions("-9223372036854775808"), Err("-1 = 全部保留（留空 = 跟随设置）"));
}

#[test]
fn keep_versions_roundtrips_the_setting_value() {
    for (setting, expected) in [(-1, KeepVersions::All), (0, KeepVersions::MetadataOnly), (5, KeepVersions::Keep(5))] {
        let value = KeepVersions::from_setting(setting);
        assert_eq!(value, expected);
        assert_eq!(value.to_setting(), setting, "落盘值不能被改变");
    }
    assert_eq!(KeepVersions::All.limit(), None);
    assert_eq!(KeepVersions::MetadataOnly.limit(), Some(0));
}

#[test]
fn name_hint_only_fires_on_blank() {
    assert!(name_hint("月报").is_none());
    assert_eq!(name_hint("  "), Some("显示名不能为空"));
}

#[test]
fn archive_submission_trims_and_validates() {
    let inputs = ArchiveDialogInputs {
        name: s("  月报 "),
        alias: s("   "),
        tags: s("a, b"),
        keep_versions: s("3"),
        group_id: Some(s("af_1")),
    };
    let result = submit_archive(&inputs).expect("valid");
    assert_eq!(result.name, "月报");
    assert_eq!(result.alias, None, "空白别名 = 不设");
    assert_eq!(result.tags, vec!["a", "b"]);
    assert_eq!(result.group_id.as_deref(), Some("af_1"));
    assert_eq!(result.keep_versions, Some(KeepVersions::Keep(3)));

    let blank_name = ArchiveDialogInputs { name: s(" "), ..inputs.clone() };
    assert!(submit_archive(&blank_name).is_none());
    let bad_keep = ArchiveDialogInputs { keep_versions: s("x"), ..inputs.clone() };
    assert!(submit_archive(&bad_keep).is_none());
    let with_alias = ArchiveDialogInputs { alias: s(" 别名 "), ..inputs };
    assert_eq!(submit_archive(&with_alias).expect("valid").alias.as_deref(), Some("别名"));
}

// ---------------------------------------------------------------- checkout

#[test]
fn suggested_name_keeps_extension_outside_the_parentheses() {
    assert_eq!(suggest_work_copy_name("月报", Some("sql")), "月报（工作副本）.sql");
    assert_eq!(suggest_work_copy_name("月报", Some(".sql")), "月报（工作副本）.sql", "扩展名带不带点都归一");
    assert_eq!(suggest_work_copy_name("无扩展名", None), "无扩展名（工作副本）");
    assert_eq!(suggest_work_copy_name("空扩展", Some("")), "空扩展（工作副本）");
}

#[test]
fn file_name_hint_blocks_names_that_cannot_be_created() {
    assert!(file_name_hint("月报（工作副本）.sql").is_none());
    assert_eq!(file_name_hint("   "), Some("文件名不能为空"));
    assert!(file_name_hint("a/b.sql").is_some(), "路径分隔符要挡下");
    assert!(file_name_hint("a\\b.sql").is_some());
    assert!(file_name_hint("a:b.sql").is_some());
    assert!(file_name_hint("..").is_some());
    assert!(file_name_hint("con.sql").is_some(), "Windows 保留设备名建不出文件，必须在这里报");
    assert!(file_name_hint("console.sql").is_none(), "别把正常名误伤");
}

#[test]
fn file_name_hints_are_exact() {
    assert_eq!(file_name_hint("."), Some("文件名不能是 . 或 .."));
    assert_eq!(file_name_hint("a?b"), Some("文件名不能包含 \\ / : * ? \" < > |"));
    assert_eq!(file_name_hint("LPT9 .txt"), Some("这是系统保留名，换一个"));
    assert_eq!(file_name_hint(" nul "), Some("这是系统保留名，换一个"));
    assert_eq!(file_name_hint("com10.sql"), None);
}

#[test]
fn checkout_submission_trims_the_name() {
    let ok = submit_checkout(&CheckoutDialogInputs { file_name: s("  a.sql "), open_after: true }).expect("valid");
    assert_eq!(ok.file_name, "a.sql");
    assert!(ok.open_after);
    assert!(submit_checkout(&CheckoutDialogInputs { file_name: s("a/b"), open_after: false }).is_none());
}

// ---------------------------------------------------------------- group

#[test]
fn kind_decides_the_shape_of_the_event() {
    assert_ne!(GroupNameKind::Create, GroupNameKind::Rename { id: s("af_1") });
    let create = GroupNameKind::Create;
    let rename = GroupNameKind::Rename { id: s("af_1") };
    assert!(matches!(create, GroupNameKind::Create));
    assert!(matches!(rename, GroupNameKind::Rename { .. }));
}

#[test]
fn group_name_event_follows_the_kind_and_refuses_blank() {
    assert_eq!(group_name_event(&GroupNameKind::Create, "  报表 "), Some(GroupNameEvent::Create { name: s("报表") }));
    assert_eq!(
        group_name_event(&GroupNameKind::Rename { id: s("af_1") }, "月度"),
        Some(GroupNameEvent::Rename { id: s("af_1"), name: s("月度") })
    );
    assert_eq!(group_name_event(&GroupNameKind::Create, "   "), None);
    assert_eq!(group_name_hint(" "), Some("分组名不能为空"));
    assert_eq!(group_name_hint("x"), None);
}

// ---------------------------------------------------------------- index repair

fn repair_row(group: RepairGroup, title: &str) -> RepairRow {
    RepairRow {
        group,
        title: title.to_string(),
        detail: s("resources/x.sql"),
        hash_detail: String::new(),
        rel_path: s("x.sql"),
        resource_id: Some(s("ar_1")),
    }
}

#[test]
fn groups_follow_the_prototype_order() {
    let titles: Vec<&str> = RepairGroup::ALL.iter().map(|group| group.title()).collect();
    assert_eq!(titles, vec!["有文件、无记录", "有记录、无本体", "指纹不匹配"]);
    for group in RepairGroup::ALL {
        assert!(!group.hint().is_empty(), "每组都要有一句说明");
    }
}

#[test]
fn set_rows_replaces_wholesale_and_busy_is_independent() {
    let mut state = RepairDialogState::new();
    assert!(state.rows().is_empty());
    state.set_rows(vec![repair_row(RepairGroup::Untracked, "a.sql")]);
    assert_eq!(state.rows().len(), 1);
    state.set_rows(Vec::new());
    assert!(state.rows().is_empty());
    state.set_busy(true);
    assert!(state.busy());
    state.set_busy(false);
    assert!(!state.busy());
}

#[test]
fn repair_state_keeps_read_only_and_note() {
    let mut state = RepairDialogState::default();
    assert!(!state.read_only() && state.note().is_none());
    state.set_read_only(true);
    state.set_note(Some(s("正在补登…")));
    assert!(state.read_only());
    assert_eq!(state.note().as_deref(), Some("正在补登…"));
}

#[test]
fn actions_carry_what_the_host_needs() {
    let adopt = RepairAction::Adopt { rel_path: s("reports/a.sql") };
    let RepairAction::Adopt { rel_path } = adopt else { unreachable!("刚构造的就是 Adopt") };
    assert_eq!(rel_path, "reports/a.sql");
    let accept = RepairAction::AcceptContent { resource_id: s("ar_9") };
    let RepairAction::AcceptContent { resource_id } = accept else { unreachable!("刚构造的就是 AcceptContent") };
    assert_eq!(resource_id, "ar_9");
}

// ---------------------------------------------------------------- pick

fn candidate(name: &str) -> DraftCandidate {
    DraftCandidate {
        abs_path: format!("D:/p/scratchpad/{name}"),
        rel_path: name.to_string(),
        display_name: name.trim_end_matches(".sql").to_string(),
        connection_id: None,
    }
}

#[test]
fn pick_returns_selected_candidates_in_list_order() {
    let candidates = vec![candidate("a.sql"), candidate("b.sql"), candidate("c.sql")];
    let mut state = PickDialogState::new(candidates.len());
    assert!(submit_pick(&candidates, &state).is_none(), "全不选 = 不提交");
    state.set_selected(2, true);
    state.set_selected(0, true);
    let picked = submit_pick(&candidates, &state).expect("选了就该提交");
    assert_eq!(
        picked.iter().map(|candidate| candidate.rel_path.as_str()).collect::<Vec<_>>(),
        vec!["a.sql", "c.sql"],
        "顺序跟列表一致（用户看到的就是这个顺序）"
    );
}

#[test]
fn pick_all_and_counts() {
    let candidates = vec![candidate("a.sql"), candidate("b.sql")];
    let mut state = PickDialogState::new(2);
    assert!(!state.all_selected());
    state.set_all(true);
    assert!(state.all_selected());
    assert_eq!(state.selected_count(), 2);
    state.set_selected(7, false);
    assert_eq!(state.selected_count(), 2, "越界的位置不改任何东西");
    assert_eq!(submit_pick(&candidates, &state).expect("all").len(), 2);
    assert!(!PickDialogState::new(0).all_selected(), "没有候选不算全选");
}

// ---------------------------------------------------------------- rename

#[test]
fn display_name_gate_blocks_blank_and_unchanged_only() {
    let field = RenameField::DisplayName;
    assert_eq!(rename_gate(field, "月报", "  "), RenameGate::Blocked("显示名不能为空"));
    assert_eq!(rename_gate(field, "月报", "月报"), RenameGate::Unchanged);
    assert_eq!(rename_gate(field, "月报", " 月报 "), RenameGate::Unchanged);
    assert_eq!(rename_gate(field, "月报", "季度月报"), RenameGate::Ready);
    assert_eq!(rename_gate(field, "dau.sql", "DAU.sql"), RenameGate::Ready);
}

#[test]
fn alias_gate_allows_clearing_but_not_no_op() {
    let field = RenameField::Alias;
    assert_eq!(rename_gate(field, "", ""), RenameGate::Unchanged);
    assert_eq!(rename_gate(field, "", "月报"), RenameGate::Ready);
    assert_eq!(rename_gate(field, "月报", "  "), RenameGate::Ready);
    assert_eq!(rename_gate(field, "月报", "月报"), RenameGate::Unchanged);
    assert_eq!(rename_gate(field, "月报", " 月报 "), RenameGate::Unchanged);
}

#[test]
fn rename_wording_by_field() {
    assert_eq!(rename_placeholder(RenameField::Alias), "别名（留空 = 清除）");
    assert_eq!(rename_placeholder(RenameField::DisplayName), "显示名");
    assert_eq!(RenameField::DisplayName.title(), "重命名");
    assert_eq!(RenameField::Alias.title(), "编辑别名");
    assert!(RenameField::DisplayName.hint().contains("只改显示名"));
}

// ---------------------------------------------------------------- tag

fn choice(id: &str) -> TagChoice {
    TagChoice { id: id.to_string(), name: format!("标签{id}"), count: 1 }
}

#[test]
fn diff_is_relative_to_the_baseline() {
    let mut state = TagDialogState::new(vec![s("at_1")]);
    state.set_options(vec![choice("at_1"), choice("at_2"), choice("at_3")]);
    state.toggle("at_2");
    state.toggle("at_1");
    assert_eq!(state.diff(), (vec![s("at_2")], vec![s("at_1")]));
    state.toggle("at_1");
    assert_eq!(state.diff(), (vec![s("at_2")], Vec::new()));
    state.toggle("at_2");
    assert_eq!(state.diff(), (Vec::new(), Vec::new()));
}

#[test]
fn set_checked_writes_by_value_and_is_idempotent() {
    let mut state = TagDialogState::new(Vec::new());
    state.set_options(vec![choice("at_1"), choice("at_2")]);
    state.set_checked("at_1", true);
    state.set_checked("at_2", true);
    assert_eq!(state.selected(), vec![s("at_1"), s("at_2")]);
    assert_eq!(state.diff().0.len(), 2, "两枚都是新增");
    state.set_checked("at_1", true);
    assert_eq!(state.selected(), vec![s("at_1"), s("at_2")]);
    state.set_checked("at_1", false);
    assert_eq!(state.selected(), vec![s("at_2")]);
    state.set_checked("at_1", false);
    assert_eq!(state.selected(), vec![s("at_2")]);
}

#[test]
fn batch_toggle_promotes_partial_then_clears_and_the_diff_is_batch_correct() {
    let mut state = TagDialogState::new_batch(vec![s("at_1")], vec![s("at_2")]);
    state.set_options(vec![choice("at_1"), choice("at_2"), choice("at_3")]);
    assert!(state.is_selected("at_1"));
    assert!(state.is_partial("at_2"));
    assert!(!state.is_partial("at_1"), "全有的不是部分");
    assert_eq!(state.diff(), (Vec::new(), Vec::new()), "开窗时无改动");

    state.promote_partial("at_2");
    assert!(!state.is_partial("at_2"));
    assert!(state.is_selected("at_2"));
    assert_eq!(state.diff(), (vec![s("at_2")], Vec::new()));

    state.toggle("at_2");
    assert!(!state.is_selected("at_2"));
    let (add, remove) = state.diff();
    assert!(add.is_empty(), "取消不是新增：{add:?}");
    assert_eq!(remove, vec![s("at_2")], "“部分 → 取消”也要摘掉（只算 baseline 会漏掉它）");

    state.toggle("at_1");
    assert_eq!(state.diff().1, vec![s("at_1"), s("at_2")]);

    state.toggle("at_3");
    assert_eq!(state.diff(), (vec![s("at_3")], vec![s("at_1"), s("at_2")]));
}

#[test]
fn three_way_checkbox_writes_full_have_or_none() {
    let mut state = TagDialogState::new_batch(Vec::new(), vec![s("at_1")]);
    state.set_options(vec![choice("at_1")]);
    state.set_checked_three_way("at_1", true);
    assert!(state.is_selected("at_1") && !state.is_partial("at_1"));
    assert_eq!(state.diff().0, vec![s("at_1")]);
    state.set_checked_three_way("at_1", false);
    assert!(!state.is_selected("at_1") && !state.is_partial("at_1"));
    assert_eq!(state.diff().1, vec![s("at_1")], "取消后不能还原成“部分”（否则用户会看到它又自己回来了）");
}

#[test]
fn reset_batch_moves_both_baselines() {
    let mut state = TagDialogState::new_batch(Vec::new(), vec![s("at_1")]);
    state.set_options(vec![choice("at_1"), choice("at_2")]);
    state.promote_partial("at_1");
    assert_eq!(state.diff().0, vec![s("at_1")]);
    state.reset_batch(vec![s("at_1")], vec![s("at_2")]);
    assert!(state.is_selected("at_1") && state.is_partial("at_2"));
    assert_eq!(state.diff(), (Vec::new(), Vec::new()));
}

#[test]
fn set_options_drops_selections_that_no_longer_exist() {
    let mut state = TagDialogState::new(vec![s("at_1")]);
    state.set_options(vec![choice("at_2")]);
    assert_eq!(state.selected(), Vec::<String>::new());
    assert_eq!(state.diff(), (Vec::new(), Vec::new()));
    assert_eq!(state.options().len(), 1);
}

#[test]
fn reset_selection_moves_the_baseline() {
    let mut state = TagDialogState::new(Vec::new());
    state.set_options(vec![choice("at_1")]);
    state.toggle("at_1");
    assert_eq!(state.diff().0, vec![s("at_1")]);
    state.reset_selection(vec![s("at_1")]);
    assert!(state.is_selected("at_1"));
    assert_eq!(state.diff(), (Vec::new(), Vec::new()));
}

#[test]
fn toggling_twice_restores_the_ticks() {
    let mut state = TagDialogState::new(vec![s("at_1")]);
    state.toggle("at_2");
    state.toggle("at_2");
    assert_eq!(state.selected(), vec![s("at_1")]);
    let (add, remove) = state.diff();
    assert!(add.iter().all(|a| !remove.contains(a)));
}

// ---------------------------------------------------------------- trash

fn trash_row(id: &str) -> TrashRow {
    TrashRow {
        trash_id: id.to_string(),
        name: format!("dau_{id}.sql"),
        original_label: format!("resources/dau_{id}.sql"),
        kind_label: s("文件"),
        time_label: s("2026-09-18 10:00"),
        size_label: s("1.2 KB"),
    }
}

#[test]
fn set_rows_replaces_the_previous_snapshot() {
    let mut state = TrashDialogState::new();
    state.set_rows(vec![trash_row("a"), trash_row("b")]);
    assert_eq!(state.rows().len(), 2);
    state.set_rows(vec![trash_row("c")]);
    assert_eq!(state.rows().len(), 1);
    assert_eq!(state.rows()[0].trash_id, "c");
}

#[test]
fn foreign_entries_are_kept_out_of_the_row_list() {
    let mut state = TrashDialogState::new();
    state.set_rows(vec![trash_row("a")]);
    state.set_foreign(vec![ForeignTrash { module_label: s("草稿箱"), count: 2 }]);
    assert_eq!(state.rows().len(), 1);
    assert_eq!(state.foreign()[0].count, 2);
    assert_eq!(state.foreign()[0].module_label, "草稿箱");
}

#[test]
fn busy_and_read_only_gate_actions() {
    let mut state = TrashDialogState::new();
    assert!(!state.busy() && !state.read_only());
    state.set_busy(true);
    state.set_read_only(true);
    assert!(state.busy() && state.read_only());
    state.set_note(Some(s("正在还原…")));
    assert_eq!(state.note().as_deref(), Some("正在还原…"));
}

// ---------------------------------------------------------------- version

fn version_row(version: i32, is_current: bool) -> VersionRow {
    VersionRow {
        version,
        is_current,
        time_label: s("2026-09-17 08:00"),
        size_label: s("1.2 KB"),
        hash_short: s("0123456789ab"),
        has_copy: true,
        delta_label: String::new(),
    }
}

#[test]
fn set_rows_clears_selection_that_no_longer_exists() {
    let mut state = VersionDialogState::new();
    state.set_rows(vec![version_row(2, true), version_row(1, false)]);
    state.set_selected(Some(1));
    state.set_rows(vec![version_row(3, true), version_row(2, false)]);
    assert_eq!(state.selected(), None);
    state.set_selected(Some(2));
    state.set_rows(vec![version_row(3, true), version_row(2, false)]);
    assert_eq!(state.selected(), Some(2), "还在的行保留选中");
}

#[test]
fn selected_row_follows_the_selection() {
    let mut state = VersionDialogState::new();
    state.set_rows(vec![version_row(2, true), version_row(1, false)]);
    assert!(state.selected_row().is_none(), "没选中就没有行");
    state.set_selected(Some(1));
    let selected = state.selected_row().expect("selected row");
    assert_eq!(selected.version, 1);
    assert!(!selected.is_current);
    state.set_selected(Some(9));
    assert!(state.selected_row().is_none(), "选中的版本不在列表里");
}

#[test]
fn action_carries_its_version() {
    assert_eq!(VersionAction::Restore { version: 3 }.version(), 3);
    assert_eq!(VersionAction::CheckoutDraft { version: 1 }.version(), 1);
    assert_eq!(VersionAction::DeleteCopy { version: 7 }.version(), 7);
}

#[test]
fn version_state_flags_are_independent() {
    let mut state = VersionDialogState::default();
    state.set_busy(true);
    state.set_read_only(true);
    state.set_note(Some(s("正在还原 v1…")));
    assert!(state.busy() && state.read_only());
    assert_eq!(state.note().as_deref(), Some("正在还原 v1…"));
    assert!(state.rows().is_empty());
}
