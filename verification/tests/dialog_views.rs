use analytics_resource::detail_view::{checkout_action, detail_header, ArchiveDetail};
use analytics_resource::dialogs::archive::{dialog_view as archive_view, ArchiveConflict, ArchiveDialogInputs, ArchiveDialogSeed};
use analytics_resource::dialogs::checkout::{dialog_view as checkout_view, CheckoutDialogSeed};
use analytics_resource::dialogs::index_repair::{
    RepairAction, RepairControl, RepairDialogState, RepairGroup, RepairRow, MAX_REPAIR_ROWS_PER_GROUP,
};
use analytics_resource::dialogs::pick::{PickDialogState, MAX_DRAFT_ROWS};
use analytics_resource::dialogs::tag::{rename_hint, TagChoice, TagDialogEvent, TagDialogSeed, TagDialogState};
use analytics_resource::dialogs::trash::{
    ForeignTrash, TrashAction, TrashControl, TrashDialogSeed, TrashDialogState, TrashRow, MAX_TRASH_ROWS,
};
use analytics_resource::dialogs::version::{
    VersionAction, VersionControl, VersionDialogSeed, VersionDialogState, VersionRow, MAX_VERSION_ROWS,
};
use analytics_resource::filter::SortField;
use analytics_resource::model::{ArchiveKind, ArchiveStatus, ArchiveUndo};
use analytics_resource::panel::{row_line, row_menu, PanelBody, ResourcesPanel};
use analytics_resource::resource_view::{ArchiveCounts, ArchiveRow, BadgeTone, GroupOption, ResourcesSnapshot};

fn s(v: &str) -> String {
    v.to_string()
}

// ---------------------------------------------------------------- trash

fn trash_row(id: &str) -> TrashRow {
    TrashRow {
        trash_id: format!("tr_{id}"),
        name: format!("{id}.sql"),
        original_label: format!("resources/{id}.sql"),
        kind_label: s("文件"),
        time_label: s("2026-09-18 10:00"),
        size_label: s("1.2 KB"),
    }
}

#[test]
fn trash_layout_counts_and_notes_foreign_entries() {
    let mut state = TrashDialogState::new();
    state.adopt_seed(TrashDialogSeed {
        rows: vec![trash_row("a"), trash_row("b")],
        foreign: vec![ForeignTrash { module_label: s("草稿箱"), count: 3 }],
    });
    let layout = state.layout();
    assert_eq!(layout.count_label, "共 2 项");
    assert_eq!(layout.shown, 2);
    assert!(layout.empty_label.is_none());
    assert!(layout.more_label.is_none());
    assert_eq!(layout.foreign_labels, vec!["另有 3 条「草稿箱」的条目共用一个回收站——请在那个模块的界面里处理"]);
    assert!(layout.rows_enabled && layout.empty_enabled);
}

#[test]
fn trash_layout_of_an_empty_trash_and_of_a_long_one() {
    let state = TrashDialogState::new();
    let layout = state.layout();
    assert_eq!(layout.count_label, "共 0 项");
    assert_eq!(layout.empty_label.as_deref(), Some("回收站是空的"));
    assert!(!layout.empty_enabled, "空回收站不能清空");

    let mut long = TrashDialogState::new();
    long.set_rows((0..MAX_TRASH_ROWS + 3).map(|i| trash_row(&i.to_string())).collect());
    let layout = long.layout();
    assert_eq!(layout.shown, MAX_TRASH_ROWS);
    assert_eq!(layout.more_label.as_deref(), Some("还有 3 项未列出（一次最多列 100 项）"));
}

#[test]
fn trash_seed_does_not_overwrite_rows_the_host_pushed() {
    let mut state = TrashDialogState::new();
    state.set_rows(vec![trash_row("pushed")]);
    state.adopt_seed(TrashDialogSeed { rows: vec![trash_row("seed"), trash_row("seed2")], foreign: Vec::new() });
    assert_eq!(state.rows().len(), 1);
    assert_eq!(state.rows()[0].trash_id, "tr_pushed");
}

#[test]
fn trash_press_turns_busy_and_hands_the_action_over_once() {
    let mut state = TrashDialogState::new();
    state.set_rows(vec![trash_row("a"), trash_row("b")]);
    assert_eq!(state.press(TrashControl::Restore { index: 1 }), Some(TrashAction::Restore { trash_id: s("tr_b") }));
    assert!(state.busy());
    assert_eq!(state.note().as_deref(), Some("正在还原…"));
    assert_eq!(state.press(TrashControl::Purge { index: 0 }), None, "忙时按钮不响应");
    assert_eq!(state.note().as_deref(), Some("正在还原…"));

    state.set_busy(false);
    assert_eq!(state.press(TrashControl::Purge { index: 0 }), Some(TrashAction::Purge { trash_id: s("tr_a") }));
    assert_eq!(state.note().as_deref(), Some("正在永久删除…"));
    state.set_busy(false);
    assert_eq!(state.press(TrashControl::Empty), Some(TrashAction::Empty));
    assert_eq!(state.note().as_deref(), Some("正在清空…"));
}

#[test]
fn trash_press_refuses_read_only_missing_rows_and_an_empty_trash() {
    let mut state = TrashDialogState::new();
    assert_eq!(state.press(TrashControl::Empty), None);
    state.set_rows(vec![trash_row("a")]);
    assert_eq!(state.press(TrashControl::Restore { index: 1 }), None, "没有这一行");
    state.set_read_only(true);
    assert_eq!(state.press(TrashControl::Restore { index: 0 }), None);
    assert!(!state.busy());
    assert!(state.note().is_none());
}

#[test]
fn trash_confirmations_name_what_goes_for_good() {
    let mut state = TrashDialogState::new();
    state.set_rows(vec![trash_row("dau"), trash_row("mau")]);
    assert_eq!(state.confirmation(TrashControl::Restore { index: 0 }), None);
    let purge = state.confirmation(TrashControl::Purge { index: 0 }).expect("purge asks");
    assert_eq!(purge.title, "永久删除「dau.sql」？");
    assert_eq!(purge.ok_label.as_deref(), Some("永久删除"));
    let empty = state.confirmation(TrashControl::Empty).expect("empty asks");
    assert_eq!(empty.title, "清空资产库的回收站？");
    assert_eq!(empty.description, "将彻底删除资产库的 2 项（本体不再保留，不可恢复）；其他模块共用的条目不会被删。");
}

// ---------------------------------------------------------------- version

fn version_row(version: i32, is_current: bool, has_copy: bool) -> VersionRow {
    VersionRow {
        version,
        is_current,
        time_label: s("2026-09-17 08:00"),
        size_label: s("1.2 KB"),
        hash_short: s("0123456789ab"),
        has_copy,
        delta_label: String::new(),
    }
}

#[test]
fn version_layout_shows_the_action_bar_of_the_chosen_version() {
    let mut state = VersionDialogState::new();
    state.adopt_seed(VersionDialogSeed {
        name: s("日活"),
        current_version: 3,
        rows: vec![version_row(3, true, true), version_row(2, false, true), version_row(1, false, false)],
    });
    let layout = state.layout("日活", 3);
    assert_eq!(layout.title, "版本历史 · 日活");
    assert_eq!(layout.current_label, "当前版本 v3");
    assert_eq!(layout.count_label, "共 3 个版本");
    assert_eq!(layout.shown, 3);
    assert!(layout.more_label.is_none());
    assert!(layout.action_bar.is_none(), "没选中就没有动作栏");

    state.set_selected(Some(2));
    let bar = state.layout("日活", 3).action_bar.expect("bar");
    assert_eq!(bar.version, 2);
    assert_eq!(bar.restore_label, "还原为当前版本（生成 v3）");
    assert!(bar.enabled);
    assert_eq!(bar.hint, "还原 = 用这一版的内容生成新版本；取回 = 复制一份可写草稿（本体不动）");

    state.set_selected(Some(3));
    let bar = state.layout("日活", 3).action_bar.expect("bar");
    assert_eq!(bar.restore_label, "当前版本");
    assert!(!bar.enabled, "当前版本就是本体");
    assert_eq!(bar.hint, "这是当前版本（本体上的内容）：取回请用详情面板的「取回（检出）…」");

    state.set_selected(Some(1));
    let bar = state.layout("日活", 3).action_bar.expect("bar");
    assert!(!bar.enabled, "副本被裁剪了");
    assert_eq!(bar.hint, "该版本只留了元数据（内容副本已被保留策略裁剪），不能还原或取回");

    state.set_read_only(true);
    let bar = state.layout("日活", 3).action_bar.expect("bar");
    assert_eq!(bar.hint, "项目处于只读模式：还原 / 取回 / 删副本都是写操作");
}

#[test]
fn version_layout_announces_older_versions_left_out() {
    let mut state = VersionDialogState::new();
    state.set_rows((1..=(MAX_VERSION_ROWS as i32 + 2)).rev().map(|v| version_row(v, false, true)).collect());
    let layout = state.layout("x", 52);
    assert_eq!(layout.shown, MAX_VERSION_ROWS);
    assert_eq!(layout.more_label.as_deref(), Some("还有 2 个更早的版本未列出（一次最多列 50 个）"));
}

#[test]
fn version_press_acts_on_the_chosen_version() {
    let mut state = VersionDialogState::new();
    state.set_rows(vec![version_row(3, true, true), version_row(2, false, true)]);
    assert_eq!(state.press(VersionControl::Restore), None, "没选中");
    state.set_selected(Some(3));
    assert_eq!(state.press(VersionControl::Restore), None, "当前版本不走还原");
    state.set_selected(Some(2));
    assert_eq!(state.press(VersionControl::Restore), Some(VersionAction::Restore { version: 2 }));
    assert!(state.busy());
    assert_eq!(state.note().as_deref(), Some("正在还原 v2…"));
    assert_eq!(state.press(VersionControl::CheckoutDraft), None, "忙时不响应");
    state.set_busy(false);
    assert_eq!(state.press(VersionControl::CheckoutDraft), Some(VersionAction::CheckoutDraft { version: 2 }));
    assert_eq!(state.note().as_deref(), Some("正在取回 v2…"));
    state.set_busy(false);
    assert_eq!(state.press(VersionControl::DeleteCopy), Some(VersionAction::DeleteCopy { version: 2 }));
    assert_eq!(state.note().as_deref(), Some("正在删除 v2 的内容副本…"));
}

#[test]
fn version_delete_copy_asks_first() {
    let mut state = VersionDialogState::new();
    state.set_rows(vec![version_row(3, true, true), version_row(2, false, true)]);
    state.set_selected(Some(2));
    assert_eq!(state.confirmation(VersionControl::Restore), None);
    let question = state.confirmation(VersionControl::DeleteCopy).expect("asks");
    assert_eq!(question.title, "删除 v2 的内容副本？");
    assert!(question.ok_label.is_none());
}

// ---------------------------------------------------------------- index repair

fn repair_row(group: RepairGroup, title: &str) -> RepairRow {
    RepairRow {
        group,
        title: title.to_string(),
        detail: format!("resources/{title}"),
        hash_detail: String::new(),
        rel_path: title.to_string(),
        resource_id: match group {
            RepairGroup::Untracked => None,
            _ => Some(format!("ar_{title}")),
        },
    }
}

#[test]
fn repair_layout_groups_rows_in_dialog_order() {
    let mut state = RepairDialogState::new();
    state.set_rows(vec![
        repair_row(RepairGroup::Changed, "c.sql"),
        repair_row(RepairGroup::Untracked, "u1.sql"),
        repair_row(RepairGroup::Untracked, "u2.sql"),
    ]);
    let layout = state.layout();
    assert_eq!(layout.count_label, "共 3 项需要处理");
    assert!(layout.clean_label.is_none());
    let groups: Vec<RepairGroup> = layout.sections.iter().map(|s| s.group).collect();
    assert_eq!(groups, vec![RepairGroup::Untracked, RepairGroup::Changed], "空组不出现");
    assert_eq!(layout.sections[0].count, 2);
    assert_eq!(layout.sections[0].rows, vec![1, 2]);
    assert_eq!(layout.sections[1].rows, vec![0]);
    assert!(layout.sections[0].more_label.is_none());
}

#[test]
fn repair_layout_of_a_clean_index_and_of_a_crowded_group() {
    let state = RepairDialogState::new();
    let layout = state.layout();
    assert_eq!(layout.clean_label.as_deref(), Some("索引与本体一致：没有需要处理的问题"));
    assert!(layout.sections.is_empty());

    let mut crowded = RepairDialogState::new();
    crowded.set_rows(
        (0..MAX_REPAIR_ROWS_PER_GROUP + 1).map(|i| repair_row(RepairGroup::Missing, &format!("m{i}.sql"))).collect(),
    );
    let layout = crowded.layout();
    assert_eq!(layout.sections[0].rows.len(), MAX_REPAIR_ROWS_PER_GROUP);
    assert_eq!(layout.sections[0].more_label.as_deref(), Some("还有 1 项未列出（每组一次最多列 50 项）"));
    assert_eq!(crowded.press(MAX_REPAIR_ROWS_PER_GROUP, RepairControl::DeleteRecord), None, "没列出的行没有按钮");
}

#[test]
fn repair_controls_follow_the_group() {
    assert_eq!(RepairControl::of_group(RepairGroup::Untracked), vec![RepairControl::Adopt]);
    assert_eq!(
        RepairControl::of_group(RepairGroup::Missing),
        vec![RepairControl::RestoreFromTrash, RepairControl::DeleteRecord]
    );
    assert_eq!(
        RepairControl::of_group(RepairGroup::Changed),
        vec![RepairControl::AcceptContent, RepairControl::OpenVersions]
    );
    assert!(!RepairControl::RestoreFromTrash.enabled(false, false), "回收站还原还不可用");
    assert_eq!(RepairControl::RestoreFromTrash.tooltip(), Some("等项目级回收站上提（P0.8）后才可用"));
    assert!(RepairControl::OpenVersions.enabled(true, true), "跳转不受忙态与只读影响");
    assert!(!RepairControl::Adopt.enabled(false, true));
    assert_eq!(RepairControl::Adopt.label(), "补登为存档");
}

#[test]
fn repair_press_dispatches_with_the_row_fields() {
    let mut state = RepairDialogState::new();
    state.set_rows(vec![
        repair_row(RepairGroup::Untracked, "u.sql"),
        repair_row(RepairGroup::Missing, "m.sql"),
        repair_row(RepairGroup::Changed, "c.sql"),
    ]);
    assert_eq!(state.press(0, RepairControl::DeleteRecord), None, "补登行没有删除记录");
    assert_eq!(state.press(1, RepairControl::RestoreFromTrash), None);
    assert_eq!(state.press(2, RepairControl::OpenVersions), Some(RepairAction::OpenVersions { resource_id: s("ar_c.sql") }));
    assert!(!state.busy(), "跳转不改状态");
    assert_eq!(state.press(0, RepairControl::Adopt), Some(RepairAction::Adopt { rel_path: s("u.sql") }));
    assert!(state.busy());
    assert_eq!(state.note().as_deref(), Some("正在补登…"));
    assert_eq!(state.press(1, RepairControl::DeleteRecord), None, "忙时不响应");
    state.set_busy(false);
    assert_eq!(state.press(1, RepairControl::DeleteRecord), Some(RepairAction::DeleteRecord { resource_id: s("ar_m.sql") }));
    assert_eq!(state.note().as_deref(), Some("正在删除记录…"));
    state.set_busy(false);
    assert_eq!(state.press(2, RepairControl::AcceptContent), Some(RepairAction::AcceptContent { resource_id: s("ar_c.sql") }));
    assert_eq!(state.note().as_deref(), Some("正在接受当前内容…"));
    let question = RepairDialogState::confirmation(RepairControl::DeleteRecord).expect("asks");
    assert_eq!(question.title, "删除这条登记记录？");
    assert_eq!(RepairDialogState::confirmation(RepairControl::Adopt), None);
}

// ---------------------------------------------------------------- pick

#[test]
fn pick_layout_counts_ticks_and_names_the_button() {
    let mut state = PickDialogState::new(3);
    let layout = state.layout(3);
    assert_eq!(layout.count_label, "已选 0 / 共 3 个");
    assert_eq!(layout.ok_label, "归档");
    assert!(!layout.ok_enabled);
    assert!(!layout.all_checked);
    state.set_selected(1, true);
    state.set_selected(2, true);
    let layout = state.layout(3);
    assert_eq!(layout.count_label, "已选 2 / 共 3 个");
    assert_eq!(layout.ok_label, "归档 2 个");
    assert_eq!(layout.checked, vec![false, true, true]);
    assert!(layout.ok_enabled);
}

#[test]
fn pick_toggle_all_ticks_then_clears() {
    let mut state = PickDialogState::new(2);
    state.set_selected(0, true);
    state.toggle_all();
    assert!(state.all_selected());
    state.toggle_all();
    assert_eq!(state.selected_count(), 0);
}

#[test]
fn pick_layout_lists_at_most_the_limit() {
    let state = PickDialogState::new(MAX_DRAFT_ROWS + 4);
    let layout = state.layout(MAX_DRAFT_ROWS + 4);
    assert_eq!(layout.shown, MAX_DRAFT_ROWS);
    assert_eq!(layout.checked.len(), MAX_DRAFT_ROWS);
    assert_eq!(layout.more_label.as_deref(), Some("还有 4 个未列出（一次最多选 50 个）"));
}

// ---------------------------------------------------------------- archive / checkout

fn archive_seed(conflict: bool) -> ArchiveDialogSeed {
    ArchiveDialogSeed {
        source_label: s("草稿箱：reports/a.sql"),
        rel_path: s("resources/reports/a.sql"),
        name: s("a"),
        source_connection: None,
        conflict: if conflict {
            Some(ArchiveConflict { taken_rel_path: s("resources/a.sql"), resolved_rel_path: s("resources/a (2).sql") })
        } else {
            None
        },
        groups: vec![GroupOption { id: s("g1"), name: s("周报") }, GroupOption { id: s("g2"), name: s("月报") }],
        group_id: None,
    }
}

fn archive_inputs(keep: &str, group: Option<&str>) -> ArchiveDialogInputs {
    ArchiveDialogInputs { name: s("a"), alias: String::new(), tags: String::new(), keep_versions: s(keep), group_id: group.map(s) }
}

#[test]
fn archive_view_states_what_will_happen() {
    let view = archive_view(&archive_seed(true), &archive_inputs("", Some("g2")));
    assert_eq!(
        view.readonly_rows,
        vec![
            (s("来源"), s("草稿箱：reports/a.sql")),
            (s("目标位置"), s("resources/reports/a.sql")),
            (s("来源连接"), s("未记录")),
        ]
    );
    assert_eq!(view.conflict_line.as_deref(), Some("resources/a.sql 已被占用：本次将归档为 resources/a (2).sql（不覆盖）"));
    assert_eq!(view.ok_label, "改名归档");
    assert_eq!(view.group_label, "月报 ▾");
    assert_eq!(view.group_menu, vec![(s("未分组"), false), (s("周报"), false), (s("月报"), true)]);
    assert!(view.name_hint.is_none() && view.keep_hint.is_none() && view.keep_note.is_none());
}

#[test]
fn archive_view_hints_follow_the_fields() {
    let view = archive_view(&archive_seed(false), &archive_inputs("-1", Some("gone")));
    assert_eq!(view.ok_label, "归档");
    assert_eq!(view.keep_note.as_deref(), Some("全部保留：不裁剪任何历史内容副本"));
    assert_eq!(view.group_label, "未分组 ▾", "名单里没有的分组按未分组显示");
    let view = archive_view(&archive_seed(false), &archive_inputs("5", None));
    assert_eq!(view.keep_note.as_deref(), Some("本次归档：保留最近 5 份"));
    assert_eq!(view.group_menu[0], (s("未分组"), true));
    let view = archive_view(&archive_seed(false), &archive_inputs("abc", None));
    assert_eq!(view.keep_hint.as_deref(), Some("请填数字（留空 = 跟随设置）"));
    let mut blank = archive_inputs("", None);
    blank.name = s("  ");
    assert_eq!(archive_view(&archive_seed(false), &blank).name_hint.as_deref(), Some("显示名不能为空"));
}

#[test]
fn checkout_view_tells_the_next_version() {
    let seed = CheckoutDialogSeed {
        resource_name: s("日活"),
        file_name: s("日活（工作副本）.sql"),
        target_dir_label: s("D:/p/scratchpad"),
        version: 4,
    };
    let view = checkout_view(&seed, "日活（工作副本）.sql");
    assert_eq!(view.readonly_rows, vec![(s("存档"), s("日活（v4）")), (s("目标目录"), s("D:/p/scratchpad"))]);
    assert_eq!(view.note, "本体不动。修改后再次归档将生成 v5");
    assert!(view.file_name_hint.is_none());
    assert_eq!(checkout_view(&seed, "a/b").file_name_hint.as_deref(), Some("文件名不能包含 \\ / : * ? \" < > |"));
}

// ---------------------------------------------------------------- tags

fn choice(id: &str, count: usize) -> TagChoice {
    TagChoice { id: id.to_string(), name: format!("标签{id}"), count }
}

fn tag_seed(target_count: usize) -> TagDialogSeed {
    TagDialogSeed {
        resource_name: s("日活"),
        target_count,
        options: vec![choice("t1", 2), choice("t2", 0)],
        selected: vec![s("t1")],
        partial: if target_count > 1 { vec![s("t2")] } else { Vec::new() },
    }
}

#[test]
fn tag_layout_of_a_single_edit() {
    let mut state = TagDialogState::new(Vec::new());
    state.adopt_seed(tag_seed(1));
    let layout = state.layout("日活", 1, "");
    assert_eq!(layout.title, "标签 · 日活");
    assert_eq!(layout.count_label, "共 2 个标签 · 已选 1 个");
    assert!(layout.empty_label.is_none());
    assert!(layout.rows[0].checked && !layout.rows[1].checked);
    assert_eq!(layout.rows[0].count_label, "2");
    assert!(!layout.create_enabled, "名字为空不能新建");
    assert_eq!(layout.changes_label, "勾选标签后「应用」——改动在提交前不落库");
    assert_eq!(layout.apply_label, "关闭");
    assert!(layout.batch_label.is_none());

    state.click_row("t2");
    let layout = state.layout("日活", 1, " 新 ");
    assert!(layout.create_enabled);
    assert_eq!(layout.changes_label, "本次改动：加 1 个 · 去 0 个");
    assert_eq!(layout.apply_label, "应用");
}

#[test]
fn tag_layout_of_a_batch_edit_and_the_partial_click() {
    let mut state = TagDialogState::new(Vec::new());
    state.adopt_seed(tag_seed(3));
    let layout = state.layout("日活", 3, "");
    assert_eq!(layout.title, "标签 · 3 项");
    assert!(layout.rows[1].partial);
    assert_eq!(
        layout.batch_label.as_deref(),
        Some("作用于选中的 3 项：勾选 = 全部打上，取消 = 全部摘掉；「部分」= 只有一部分项有它（点一下让全部都有）。")
    );
    state.click_row("t2");
    assert!(state.is_selected("t2") && !state.is_partial("t2"), "点「部分」= 让全部都有");
    let empty = TagDialogState::new(Vec::new());
    assert_eq!(
        empty.layout("x", 1, "").empty_label.as_deref(),
        Some("还没有任何标签——在下面输入一个名字即可新建")
    );
}

#[test]
fn tag_submissions_turn_busy_and_carry_what_changed() {
    let mut state = TagDialogState::new(vec![s("t1")]);
    state.set_options(vec![choice("t1", 1), choice("t2", 0)]);
    assert_eq!(state.apply(), None, "没改动不提交");
    state.toggle("t2");
    assert_eq!(state.apply(), Some(TagDialogEvent::Apply { add: vec![s("t2")], remove: Vec::new() }));
    assert!(state.busy());
    assert_eq!(state.note().as_deref(), Some("正在打标签…"));
    assert_eq!(state.create("新标签"), None, "忙时不新建");
    state.set_busy(false);
    assert_eq!(state.create("   "), None);
    assert_eq!(state.create(" 新标签 "), Some(TagDialogEvent::CreateAndTag { name: s("新标签") }));
    assert_eq!(state.note().as_deref(), Some("正在新建…"));
}

#[test]
fn tag_rename_and_delete_go_through_an_editable_dialog() {
    let mut state = TagDialogState::new(Vec::new());
    assert_eq!(state.rename("t1", "周报", " 周报 "), None, "名字没变不提交");
    assert_eq!(state.rename("t1", "周报", "  "), None);
    assert_eq!(
        state.rename("t1", "周报", " 周刊 "),
        Some(TagDialogEvent::RenameTag { id: s("t1"), name: s("周刊") })
    );
    assert_eq!(state.note().as_deref(), Some("正在重命名…"));
    assert_eq!(state.delete("t1"), None, "忙时不删");
    state.set_busy(false);
    assert_eq!(state.delete("t1"), Some(TagDialogEvent::DeleteTag { id: s("t1") }));
    assert_eq!(state.note().as_deref(), Some("正在删除标签…"));
    let question = TagDialogState::delete_confirmation("周报");
    assert_eq!(question.title, "删除标签「周报」？");
    assert_eq!(question.ok_label.as_deref(), Some("删除"));
    assert_eq!(rename_hint(" "), ("标签名不能为空", false));
    assert_eq!(rename_hint("x"), ("只改显示名：已打了这个标签的存档不动", true));
}

// ---------------------------------------------------------------- detail / panel

fn detail(status: ArchiveStatus) -> ArchiveDetail {
    ArchiveDetail {
        id: s("ar_1"),
        name: s("dau"),
        alias: Some(s("日活")),
        kind: ArchiveKind::File,
        version: 2,
        status,
        readonly: true,
        size_label: s("1.2 KB"),
        modified_label: s("3 天前"),
        archived_label: s("3 天前"),
        promoted_from: None,
        source_connection_id: None,
        source_table: None,
        content_hash: None,
        payload_rel_path: Some(s("dau.sql")),
        history_label: String::new(),
        tags: Vec::new(),
        group: None,
    }
}

#[test]
fn detail_checkout_points_to_the_way_out_when_blocked() {
    let normal = checkout_action(&detail(ArchiveStatus::Normal), false);
    assert!(normal.enabled);
    assert_eq!(normal.hint, "复制一份可写的工作副本，本体不动");
    let changed = checkout_action(&detail(ArchiveStatus::ContentChanged), false);
    assert!(!changed.enabled);
    assert_eq!(changed.hint, "本体异常，先在状态行「修复…」处理");
    let read_only = checkout_action(&detail(ArchiveStatus::Normal), true);
    assert!(!read_only.enabled);
    assert_eq!(read_only.hint, "项目处于只读模式");
}

#[test]
fn detail_header_marks_a_missing_payload() {
    let header = detail_header(&detail(ArchiveStatus::Missing));
    assert_eq!(header.version_label, "v2");
    assert_eq!(header.missing_label, Some("本体缺失"));
    assert_eq!(header.tone, BadgeTone::Danger);
    assert_eq!(header.alias.as_deref(), Some("日活"));
    assert_eq!(detail_header(&detail(ArchiveStatus::Normal)).missing_label, None);
}

fn panel_row(id: &str, version: i32, status: ArchiveStatus, tail: &str) -> ArchiveRow {
    ArchiveRow {
        id: id.to_string(),
        name: format!("{id}.sql"),
        alias: None,
        kind: ArchiveKind::File,
        version,
        status,
        tail: tail.to_string(),
        source_table: None,
        tags: Vec::new(),
        folder_id: None,
        updated_epoch: 0,
        archived_epoch: None,
        size_bytes: None,
    }
}

#[test]
fn row_line_and_menu_follow_status_and_lock() {
    let line = row_line(&panel_row("a", 1, ArchiveStatus::Normal, ""));
    assert!(!line.dimmed);
    assert!(line.version_label.is_none(), "v1 不显示版本");
    assert!(line.tail.is_none());
    let line = row_line(&panel_row("b", 3, ArchiveStatus::Missing, "1.2 KB"));
    assert!(line.dimmed);
    assert_eq!(line.version_label.as_deref(), Some("v3"));
    assert_eq!(line.tail.as_deref(), Some("1.2 KB"));
    assert_eq!(line.badge, "缺失");

    let menu = row_menu(&panel_row("a", 1, ArchiveStatus::Normal, ""), false);
    assert!(menu.checkout_enabled && menu.delete_enabled);
    let menu = row_menu(&panel_row("a", 1, ArchiveStatus::ContentChanged, ""), false);
    assert!(!menu.checkout_enabled);
    let menu = row_menu(&panel_row("a", 1, ArchiveStatus::Normal, ""), true);
    assert!(!menu.checkout_enabled && !menu.delete_enabled, "只读时只剩打开");
}

#[test]
fn panel_layout_tells_an_empty_library_from_a_filter_without_match() {
    let mut panel = ResourcesPanel::new();
    let layout = panel.layout();
    assert_eq!(layout.body, PanelBody::Empty);
    assert_eq!(layout.filter_label, "筛选 ▾");
    assert_eq!(layout.sort_label, "名称 ↑ ▾");
    assert!(layout.archive_enabled);
    assert_eq!(layout.status_line, "0 项 · 已归档 0");
    assert!(!layout.status_issues);

    panel.set_snapshot(ResourcesSnapshot {
        rows: vec![panel_row("a", 1, ArchiveStatus::Normal, "")],
        counts: ArchiveCounts { total: 1, archived: 1, analysis: 0, table_ref: 0, missing: 1, drifted: 0 },
        read_only: true,
        details: Vec::new(),
        tags: Vec::new(),
        groups: Vec::new(),
    });
    assert_eq!(panel.layout().body, PanelBody::Rows);
    panel.toggle_kind(ArchiveKind::Analysis);
    panel.toggle_only_issues();
    let layout = panel.layout();
    assert_eq!(layout.body, PanelBody::NoMatch);
    assert_eq!(layout.filter_label, "筛选 2 ▾");
    assert_eq!(layout.kind_menu, vec![(ArchiveKind::File, false), (ArchiveKind::Analysis, true), (ArchiveKind::TableRef, false)]);
    assert!(layout.only_issues_checked);
    assert!(!layout.archive_enabled, "只读项目不能归档");
    assert!(layout.status_issues);
    assert_eq!(layout.status_line, "1 项 · 已归档 1 · 缺失 1");

    panel.choose_sort(SortField::Version);
    panel.set_notice(Some(s("项目只读")));
    panel.set_undo(Some(ArchiveUndo { resource_id: s("ar_a"), name: s("a"), source_path: s("/w/a.sql") }));
    let layout = panel.layout();
    assert_eq!(layout.sort_label, "版本号 ↑ ▾");
    assert_eq!(layout.sort_menu, vec![(SortField::Name, s("名称"), false), (SortField::Version, s("版本号 ↑"), true)]);
    assert_eq!(layout.notice, Some((s("项目只读"), true)));
    assert_eq!(layout.undo_label.as_deref(), Some("已归档「a」"));
}
