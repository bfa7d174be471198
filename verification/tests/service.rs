use analytics_resource::model::{KeepVersions, ORIGIN_RESOURCES};
use analytics_resource::models::{AnalyticsResource, Timestamp, TrashEntry, TrashKind, TrashManifest};
use analytics_resource::payload::{versions_to_prune, PayloadStore};
use analytics_resource::service::{
    accept_content_guard, adopt_guard, adopted_name, archive_source_guard, checkout_source, checkout_target_guard, effective_keep, foreign_entry_error,
    missing_copy_error, missing_record_error, occupied_target_error, own_trash_ids, rearchive_plan, restore_plan,
    restored_rel_path, trash_entry_for, trash_missing_payload_error, trash_source, undo_source, vanished_copy_error,
    ContentPlan, DEFAULT_KEEP_VERSIONS,
};

fn t() -> Timestamp {
    Timestamp { secs: 1_700_000_000, nanos: 0 }
}

fn resource(kind: &str, rel: Option<&str>, hash: Option<&str>) -> AnalyticsResource {
    AnalyticsResource {
        id: "ar_1".to_string(),
        resource_type: kind.to_string(),
        name: "月报".to_string(),
        alias: None,
        config: "null".to_string(),
        scope: "project".to_string(),
        row_count: None,
        column_count: None,
        file_size: None,
        version: 1,
        parent_version_id: None,
        parent_resource_id: None,
        source_query: None,
        created_at: t(),
        updated_at: t(),
        created_by: None,
        deleted_at: None,
        kind: kind.to_string(),
        content_hash: hash.map(str::to_string),
        file_rel_path: rel.map(str::to_string),
        readonly: 1,
        promoted_from: None,
        source_connection_id: None,
        source_table: None,
        definition_sql: None,
        archived_at: Some(t()),
    }
}

fn entry(id: &str, origin: &str, rel: &str) -> TrashEntry {
    TrashEntry {
        manifest: TrashManifest {
            id: id.to_string(),
            name: rel.to_string(),
            origin: origin.to_string(),
            original_rel_path: rel.to_string(),
            kind: TrashKind::File,
            deleted_at: t(),
            size: 1,
        },
    }
}

#[test]
fn request_override_wins_over_the_configured_retention() {
    let configured = KeepVersions::Keep(DEFAULT_KEEP_VERSIONS);
    assert_eq!(effective_keep(configured, None), KeepVersions::Keep(5));
    assert_eq!(effective_keep(configured, Some(KeepVersions::All)), KeepVersions::All);
}

#[test]
fn rearchive_with_the_same_fingerprint_changes_nothing() {
    let current = resource("file", Some("dau.sql"), Some("h1"));
    assert_eq!(
        rearchive_plan(&current, "h1").expect("plan"),
        ContentPlan { rel_path: "dau.sql".to_string(), new_version: false }
    );
    assert!(rearchive_plan(&current, "h2").expect("plan").new_version);
    let no_hash = resource("file", Some("dau.sql"), None);
    assert!(!rearchive_plan(&no_hash, "").expect("plan").new_version, "没有指纹 = 空指纹");

    let mut deleted = current.clone();
    deleted.deleted_at = Some(t());
    let err = rearchive_plan(&deleted, "h2").expect_err("refused");
    assert_eq!((err.operation.as_str(), err.reason.as_str()), ("re_archive", "存档已删除，无法再归档"));
    let no_path = resource("analysis", None, Some("h1"));
    assert_eq!(rearchive_plan(&no_path, "h2").expect_err("refused").reason, "该存档没有本体路径（非文件型或旧行）");
}

#[test]
fn restoring_the_current_content_changes_nothing() {
    let current = resource("file", Some("dau.sql"), Some("h1"));
    assert!(!restore_plan(&current, "h1").expect("plan").new_version);
    let mut deleted = current.clone();
    deleted.deleted_at = Some(t());
    assert_eq!(restore_plan(&deleted, "h0").expect_err("refused").reason, "存档已删除，无法还原");
    assert_eq!(missing_copy_error("restore", 2, true).reason, "v2 没有内容副本（可能已被保留策略裁剪），无法还原");
    assert_eq!(missing_copy_error("checkout_version", 3, false).reason, "v3 没有内容副本（可能已被保留策略裁剪），无法取回");
    assert_eq!(vanished_copy_error(4).reason, "v4 的内容副本在写回前消失，还原中止");
}

#[test]
fn archive_and_checkout_guards() {
    assert!(archive_source_guard(true).is_ok());
    assert_eq!(archive_source_guard(false).expect_err("refused").reason, "源文件不存在或不是普通文件");
    assert_eq!(
        occupied_target_error("周报", "ar_9").reason,
        "目标路径已被存档「周报」（id=ar_9）占用；请改名或先移除旧存档"
    );
    let store = PayloadStore::new("/p".to_string());
    assert!(checkout_target_guard(&store, "/p/work/a.sql", "checkout").is_ok());
    let err = checkout_target_guard(&store, "/p/resources/a.sql", "checkout").expect_err("inside resources");
    assert_eq!(err.reason, "取回目标不能位于 resources/ 内（那是归档本体目录）");
    assert_eq!(checkout_source(&resource("file", Some("a.sql"), None)).expect("rel"), "a.sql");
    assert_eq!(checkout_source(&resource("table_ref", None, None)).expect_err("none").reason, "该存档没有本体（非文件型或旧行）");
}

#[test]
fn trash_guards_name_the_archive() {
    let live = resource("file", Some("dau.sql"), None);
    assert_eq!(trash_source(&live).expect("rel"), "dau.sql");
    let mut gone = live.clone();
    gone.deleted_at = Some(t());
    assert_eq!(trash_source(&gone).expect_err("refused").reason, "「月报」已经在回收站里");
    assert_eq!(trash_source(&resource("file", None, None)).expect_err("refused").reason, "「月报」没有本体路径，不能移入回收站");
    assert_eq!(
        trash_missing_payload_error("月报", "dau.sql").reason,
        "「月报」的本体不在（resources/dau.sql）：先走索引修复处理"
    );
    assert_eq!(foreign_entry_error(false, "scratchpad").reason, "该条目属于模块「scratchpad」，请在它的界面里还原");
    assert_eq!(foreign_entry_error(true, "scratchpad").operation, "purge");
    assert_eq!(missing_record_error("月报").reason, "找不到「月报」的登记记录（可能已被索引修复清掉）：请用「重建索引」补登");
}

#[test]
fn trash_lookups_only_see_our_origin() {
    let entries = vec![entry("t1", "scratchpad", "a.sql"), entry("t2", ORIGIN_RESOURCES, "a.sql"), entry("t3", ORIGIN_RESOURCES, "b.sql")];
    assert_eq!(trash_entry_for(&entries, "a.sql").expect("found"), 1);
    assert_eq!(
        trash_entry_for(&entries, "c.sql").expect_err("none").reason,
        "回收站里没有 resources/c.sql 的条目：本体已不可恢复，只能删掉这条登记记录"
    );
    assert_eq!(own_trash_ids(&entries), vec!["t2".to_string(), "t3".to_string()]);
}

#[test]
fn restored_paths_follow_renames_only() {
    let store = PayloadStore::new("/p".to_string());
    assert_eq!(restored_rel_path(&store, "/p/resources/reports/dau.sql", "reports/dau.sql"), None);
    assert_eq!(
        restored_rel_path(&store, "/p/resources/reports/dau-2.sql", "reports/dau.sql").as_deref(),
        Some("reports/dau-2.sql")
    );
    assert_eq!(restored_rel_path(&store, "/elsewhere/dau.sql", "dau.sql"), None);
}

#[test]
fn undo_is_only_for_the_archive_that_just_happened() {
    let fresh = resource("file", Some("dau.sql"), None);
    assert_eq!(undo_source(&fresh, false, "/w/dau.sql").expect("rel"), "dau.sql");
    assert_eq!(undo_source(&resource("analysis", Some("x"), None), false, "/w").expect_err("kind").reason, "只有文件型存档支持撤销");
    assert_eq!(undo_source(&resource("file", None, None), false, "/w").expect_err("path").reason, "该存档没有登记本体路径，无法撤销");
    let mut newer = fresh.clone();
    newer.version = 3;
    assert_eq!(
        undo_source(&newer, false, "/w/dau.sql").expect_err("newer").reason,
        "已有新版本（v3），撤销窗口已过；如需回退请走版本历史"
    );
    assert_eq!(
        undo_source(&fresh, true, "/w/dau.sql").expect_err("occupied").reason,
        "原位置已有文件（/w/dau.sql）：撤销要精确还原，请先移走它"
    );
}

#[test]
fn pruning_keeps_the_newest_copies() {
    let names: Vec<String> = ["1", "3", "x", "2", "10", ".tmp", "05"].iter().map(|s| s.to_string()).collect();
    assert_eq!(versions_to_prune(&names, 2), vec![3, 2, 1]);
    assert_eq!(versions_to_prune(&names, 0), vec![10, 5, 3, 2, 1]);
    assert!(versions_to_prune(&names, 9).is_empty());
    assert!(versions_to_prune(&["99999999999".to_string()], 0).is_empty(), "超出 i32 的名字不算版本");
}

#[test]
fn adopting_and_accepting_need_the_payload() {
    assert!(adopt_guard(true, None).is_ok());
    assert_eq!(adopt_guard(false, None).expect_err("no file").reason, "该路径下没有本体文件");
    assert_eq!(adopt_guard(true, Some("周报")).expect_err("held").reason, "该本体已被存档「周报」登记");
    assert_eq!(adopted_name("/p/resources/reports/dau.sql", None, "reports/dau.sql"), "dau");
    assert_eq!(adopted_name("/p/resources/a.tar.gz", None, "a.tar.gz"), "a.tar");
    assert_eq!(adopted_name("/p/resources/.env", None, ".env"), ".env");
    assert_eq!(adopted_name("/p/resources/x.sql", Some("月报"), "x.sql"), "月报");

    let live = resource("file", Some("dau.sql"), Some("h"));
    assert_eq!(accept_content_guard(&live, true).expect("rel"), "dau.sql");
    assert_eq!(
        accept_content_guard(&live, false).expect_err("missing").reason,
        "本体不存在：应走「有记录、无本体」的处理（还原或删除记录）"
    );
    assert_eq!(accept_content_guard(&resource("file", None, None), true).expect_err("no path").reason, "该存档没有本体路径");
}

#[test]
fn a_batch_failure_after_some_moves_says_how_many_moved() {
    assert_eq!(analytics_resource::service::batch_trash_failure("「b」已经在回收站里", 0), None);
    let e = analytics_resource::service::batch_trash_failure("「b」已经在回收站里", 2).expect("later failure");
    assert_eq!(e.operation, "trash");
    assert_eq!(e.reason, "「b」已经在回收站里；本批已移入 2 项，其余未处理");
}
