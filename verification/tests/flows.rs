use analytics_resource::flows::{
    ArchiveAction, ArchiveEvent, ArchiveNew, ArchiveUndoFlow, UndoAction, UndoEvent, ContentUpdate, PurgeAction, PurgeEvent, TrashAction, TrashBatch, TrashEvent, TrashPurge, TrashRestore,
    UntrashAction, UntrashEvent, UpdateAction, UpdateEvent, UpdateOutcome,
};
use analytics_resource::model::TrashArchiveEntry;
use analytics_resource::models::{AnalyticsResource, Timestamp, TrashEntry, TrashKind, TrashManifest};
use analytics_resource::payload::PayloadStore;
use analytics_resource::service::ServiceError;

fn at() -> Timestamp {
    Timestamp::from_parts(1_700_000_000, 0).expect("instant in range")
}

fn record(id: &str, version: i32, hash: Option<&str>, rel: Option<&str>) -> AnalyticsResource {
    AnalyticsResource {
        id: id.to_string(),
        resource_type: "file".to_string(),
        name: format!("{id}名"),
        alias: None,
        config: "{}".to_string(),
        scope: "project".to_string(),
        row_count: None,
        column_count: None,
        file_size: Some(10),
        version,
        parent_version_id: None,
        parent_resource_id: None,
        source_query: None,
        created_at: at(),
        updated_at: at(),
        created_by: None,
        deleted_at: None,
        kind: "file".to_string(),
        content_hash: hash.map(str::to_string),
        file_rel_path: rel.map(str::to_string),
        readonly: 1,
        promoted_from: None,
        source_connection_id: None,
        source_table: None,
        definition_sql: None,
        archived_at: Some(at()),
    }
}

fn refusal(operation: &str, reason: &str) -> ServiceError {
    ServiceError { operation: operation.to_string(), reason: reason.to_string() }
}

fn outcome(version: i32, hash: &str, new_version: bool) -> UpdateOutcome {
    UpdateOutcome {
        resource_id: "ar_1".to_string(),
        version,
        content_hash: hash.to_string(),
        file_rel_path: "r/a.sql".to_string(),
        created_new_version: new_version,
    }
}

#[test]
fn restore_keeps_the_old_content_before_writing_and_makes_a_new_version() {
    let (mut flow, first) = ContentUpdate::restore("ar_1", 2);
    assert_eq!(first, UpdateAction::LoadRecord("ar_1".to_string()));
    let a = flow.step(UpdateEvent::Loaded(record("ar_1", 3, Some("h3"), Some("r/a.sql"))));
    assert_eq!(a, UpdateAction::LookUpCopy("ar_1".to_string(), 2));
    assert_eq!(flow.step(UpdateEvent::CopyLookedUp(true)), UpdateAction::HashCopy);
    let a = flow.step(UpdateEvent::Hashed("h2".to_string(), Some(7)));
    assert_eq!(a, UpdateAction::KeepCurrentCopy("ar_1".to_string(), 3, "r/a.sql".to_string()));
    assert_eq!(flow.step(UpdateEvent::CopyKept), UpdateAction::SaveSnapshot("ar_1".to_string(), 3));
    assert_eq!(flow.step(UpdateEvent::SnapshotSaved("arv_9".to_string())), UpdateAction::WriteBack("r/a.sql".to_string()));
    let a = flow.step(UpdateEvent::WrittenBack(true));
    assert_eq!(a, UpdateAction::UpdateRow("ar_1".to_string(), "h2".to_string(), "arv_9".to_string(), Some(7)));
    assert_eq!(flow.step(UpdateEvent::RowUpdated(4)), UpdateAction::Prune("ar_1".to_string()));
    assert_eq!(flow.step(UpdateEvent::Pruned), UpdateAction::Finish(Ok(outcome(4, "h2", true))));
    assert_eq!(flow.step(UpdateEvent::Pruned), UpdateAction::Ignore, "结束后不再响应");
}

#[test]
fn restoring_the_current_content_writes_nothing() {
    let (mut flow, _) = ContentUpdate::restore("ar_1", 2);
    flow.step(UpdateEvent::Loaded(record("ar_1", 3, Some("h3"), Some("r/a.sql"))));
    flow.step(UpdateEvent::CopyLookedUp(true));
    let a = flow.step(UpdateEvent::Hashed("h3".to_string(), Some(7)));
    assert_eq!(a, UpdateAction::Finish(Ok(outcome(3, "h3", false))));
    assert!(!flow.written_back);
}

#[test]
fn restore_refuses_a_missing_or_vanished_copy() {
    let (mut flow, _) = ContentUpdate::restore("ar_1", 2);
    flow.step(UpdateEvent::Loaded(record("ar_1", 3, Some("h3"), Some("r/a.sql"))));
    let a = flow.step(UpdateEvent::CopyLookedUp(false));
    assert_eq!(a, UpdateAction::Finish(Err(refusal("restore", "v2 没有内容副本（可能已被保留策略裁剪），无法还原"))));

    let (mut flow, _) = ContentUpdate::restore("ar_1", 2);
    flow.step(UpdateEvent::Loaded(record("ar_1", 3, Some("h3"), Some("r/a.sql"))));
    flow.step(UpdateEvent::CopyLookedUp(true));
    flow.step(UpdateEvent::Hashed("h2".to_string(), None));
    flow.step(UpdateEvent::CopyKept);
    flow.step(UpdateEvent::SnapshotSaved("arv_9".to_string()));
    let a = flow.step(UpdateEvent::WrittenBack(false));
    assert_eq!(a, UpdateAction::Finish(Err(refusal("restore", "v2 的内容副本在写回前消失，还原中止"))));
}

#[test]
fn rearchive_guards_and_same_content() {
    let (mut flow, _) = ContentUpdate::rearchive("ar_1", "h3", Some(5));
    let mut deleted = record("ar_1", 3, Some("h3"), Some("r/a.sql"));
    deleted.deleted_at = Some(at());
    assert_eq!(
        flow.step(UpdateEvent::Loaded(deleted)),
        UpdateAction::Finish(Err(refusal("re_archive", "存档已删除，无法再归档")))
    );

    let (mut flow, _) = ContentUpdate::rearchive("ar_1", "h3", Some(5));
    assert_eq!(
        flow.step(UpdateEvent::Loaded(record("ar_1", 3, Some("h3"), None))),
        UpdateAction::Finish(Err(refusal("re_archive", "该存档没有本体路径（非文件型或旧行）")))
    );

    let (mut flow, _) = ContentUpdate::rearchive("ar_1", "h3", Some(5));
    assert_eq!(
        flow.step(UpdateEvent::Loaded(record("ar_1", 3, Some("h3"), Some("r/a.sql")))),
        UpdateAction::Finish(Ok(outcome(3, "h3", false)))
    );

    let (mut flow, _) = ContentUpdate::rearchive("ar_1", "h4", Some(5));
    assert_eq!(
        flow.step(UpdateEvent::Loaded(record("ar_1", 3, Some("h3"), Some("r/a.sql")))),
        UpdateAction::KeepCurrentCopy("ar_1".to_string(), 3, "r/a.sql".to_string())
    );
}

#[test]
fn a_failed_step_ends_the_update_but_pruning_is_best_effort() {
    let (mut flow, _) = ContentUpdate::rearchive("ar_1", "h4", None);
    flow.step(UpdateEvent::Loaded(record("ar_1", 3, Some("h3"), Some("r/a.sql"))));
    let a = flow.step(UpdateEvent::Failed(refusal("re_archive", "磁盘已满")));
    assert_eq!(a, UpdateAction::Finish(Err(refusal("re_archive", "磁盘已满"))));
    assert!(!flow.written_back);

    let (mut flow, _) = ContentUpdate::rearchive("ar_1", "h4", None);
    flow.step(UpdateEvent::Loaded(record("ar_1", 3, Some("h3"), Some("r/a.sql"))));
    flow.step(UpdateEvent::CopyKept);
    flow.step(UpdateEvent::SnapshotSaved("arv_1".to_string()));
    flow.step(UpdateEvent::WrittenBack(true));
    flow.step(UpdateEvent::RowUpdated(4));
    let a = flow.step(UpdateEvent::Failed(refusal("re_archive", "删不掉旧副本")));
    assert_eq!(a, UpdateAction::Finish(Ok(outcome(4, "h4", true))));
}

#[test]
fn events_out_of_turn_are_ignored() {
    let (mut flow, _) = ContentUpdate::rearchive("ar_1", "h4", None);
    assert_eq!(flow.step(UpdateEvent::CopyKept), UpdateAction::Ignore);
    assert_eq!(flow.step(UpdateEvent::WrittenBack(true)), UpdateAction::Ignore);
    assert!(!flow.copy_kept && !flow.written_back);
}

fn entry(id: &str, trash_id: &str) -> TrashArchiveEntry {
    TrashArchiveEntry { resource_id: id.to_string(), name: format!("{id}名"), trash_id: trash_id.to_string() }
}

fn move_one(batch: &mut TrashBatch, id: &str, trash_id: &str) -> TrashAction {
    let rel = format!("r/{id}.sql");
    assert_eq!(batch.step(TrashEvent::Loaded(record(id, 1, Some("h"), Some(&rel)))), TrashAction::ProbePayload(rel.clone()));
    assert_eq!(batch.step(TrashEvent::Probed(true)), TrashAction::MoveToTrash(rel));
    assert_eq!(batch.step(TrashEvent::Moved(trash_id.to_string())), TrashAction::MarkDeleted(id.to_string()));
    batch.step(TrashEvent::Recorded)
}

#[test]
fn batch_trash_moves_each_in_order() {
    let (mut batch, first) = TrashBatch::new(vec!["ar_1".to_string(), "ar_2".to_string()]);
    assert_eq!(first, TrashAction::LoadRecord("ar_1".to_string()));
    assert_eq!(move_one(&mut batch, "ar_1", "t1"), TrashAction::LoadRecord("ar_2".to_string()));
    assert_eq!(move_one(&mut batch, "ar_2", "t2"), TrashAction::Finish(Ok(vec![entry("ar_1", "t1"), entry("ar_2", "t2")])));

    let (_, first) = TrashBatch::new(Vec::new());
    assert_eq!(first, TrashAction::Finish(Ok(Vec::new())));
}

#[test]
fn batch_trash_reports_partial_progress() {
    let (mut batch, _) = TrashBatch::new(vec!["ar_1".to_string(), "ar_2".to_string()]);
    move_one(&mut batch, "ar_1", "t1");
    batch.step(TrashEvent::Loaded(record("ar_2", 1, Some("h"), Some("r/ar_2.sql"))));
    let a = batch.step(TrashEvent::Probed(false));
    assert_eq!(
        a,
        TrashAction::Finish(Err(refusal(
            "trash",
            "「ar_2名」的本体不在（resources/r/ar_2.sql）：先走索引修复处理；本批已移入 1 项，其余未处理"
        )))
    );
    assert_eq!(batch.moved.len(), 1, "已移入的不回退");
}

#[test]
fn batch_trash_first_failure_stands_as_it_is() {
    let (mut batch, _) = TrashBatch::new(vec!["ar_1".to_string()]);
    let mut deleted = record("ar_1", 1, Some("h"), Some("r/ar_1.sql"));
    deleted.deleted_at = Some(at());
    assert_eq!(batch.step(TrashEvent::Loaded(deleted)), TrashAction::Finish(Err(refusal("trash", "「ar_1名」已经在回收站里"))));

    let (mut batch, _) = TrashBatch::new(vec!["ar_1".to_string()]);
    assert_eq!(
        batch.step(TrashEvent::Loaded(record("ar_1", 1, Some("h"), None))),
        TrashAction::Finish(Err(refusal("trash", "「ar_1名」没有本体路径，不能移入回收站")))
    );
}

#[test]
fn batch_trash_rolls_back_a_failed_mark() {
    let (mut batch, _) = TrashBatch::new(vec!["ar_1".to_string()]);
    batch.step(TrashEvent::Loaded(record("ar_1", 1, Some("h"), Some("r/ar_1.sql"))));
    batch.step(TrashEvent::Probed(true));
    batch.step(TrashEvent::Moved("t1".to_string()));
    let a = batch.step(TrashEvent::Failed(refusal("analytics_resources", "数据库已锁")));
    assert_eq!(a, TrashAction::RestoreEntry("t1".to_string()));
    let a = batch.step(TrashEvent::RolledBack);
    assert_eq!(a, TrashAction::Finish(Err(refusal("analytics_resources", "数据库已锁"))));
}

fn assert_same(actual: UntrashAction, expected: UntrashAction) {
    assert_eq!(format!("{actual:?}"), format!("{expected:?}"));
}

fn trash_entry(origin: &str, rel: &str) -> TrashEntry {
    TrashEntry {
        manifest: TrashManifest {
            id: "t1".to_string(),
            name: "日报.sql".to_string(),
            origin: origin.to_string(),
            original_rel_path: rel.to_string(),
            kind: TrashKind::File,
            deleted_at: at(),
            size: 10,
        },
    }
}

#[test]
fn untrash_refuses_foreign_entries_and_lost_records() {
    let store = PayloadStore::new("/p".to_string());
    let (mut flow, first) = TrashRestore::new("t1");
    assert_same(first, UntrashAction::LoadEntry("t1".to_string()));
    let a = flow.step(&store, UntrashEvent::EntryLoaded(trash_entry("scratchpad", "a.sql")));
    assert_same(a, UntrashAction::Finish(Err(refusal("untrash", "该条目属于模块「scratchpad」，请在它的界面里还原"))));

    let (mut flow, _) = TrashRestore::new("t1");
    flow.step(&store, UntrashEvent::EntryLoaded(trash_entry("resources", "r/日报.sql")));
    let a = flow.step(&store, UntrashEvent::RecordFound(None));
    assert_same(
        a,
        UntrashAction::Finish(Err(refusal(
            "untrash",
            "找不到「日报.sql」的登记记录（可能已被索引修复清掉）：请用「重建索引」补登"
        )))
    );
}

#[test]
fn untrash_follows_a_renamed_payload_and_revives_the_row() {
    let store = PayloadStore::new("/p".to_string());
    let dir = store.resources_dir();
    let (mut flow, _) = TrashRestore::new("t1");
    let a = flow.step(&store, UntrashEvent::EntryLoaded(trash_entry("resources", "r/日报.sql")));
    assert_same(a, UntrashAction::FindDeletedRecord("r/日报.sql".to_string()));
    assert_same(flow.step(&store, UntrashEvent::RecordFound(Some("ar_1".to_string()))), UntrashAction::RestoreEntry("t1".to_string()));
    let a = flow.step(&store, UntrashEvent::Restored(format!("{dir}/r/日报-2.sql")));
    assert_same(a, UntrashAction::Undelete("ar_1".to_string(), Some("r/日报-2.sql".to_string())));
    assert_same(flow.step(&store, UntrashEvent::Undeleted), UntrashAction::LoadRecord("ar_1".to_string()));
    let revived = record("ar_1", 1, Some("h"), Some("r/日报-2.sql"));
    assert_same(flow.step(&store, UntrashEvent::RecordLoaded(revived.clone())), UntrashAction::Finish(Ok(revived)));

    let (mut flow, _) = TrashRestore::new("t1");
    flow.step(&store, UntrashEvent::EntryLoaded(trash_entry("resources", "r/日报.sql")));
    flow.step(&store, UntrashEvent::RecordFound(Some("ar_1".to_string())));
    let a = flow.step(&store, UntrashEvent::Restored(format!("{dir}/r/日报.sql")));
    assert_same(a, UntrashAction::Undelete("ar_1".to_string(), None));
}

#[test]
fn untrash_sends_the_payload_back_when_the_row_cannot_revive() {
    let store = PayloadStore::new("/p".to_string());
    let (mut flow, _) = TrashRestore::new("t1");
    flow.step(&store, UntrashEvent::EntryLoaded(trash_entry("resources", "r/日报.sql")));
    flow.step(&store, UntrashEvent::RecordFound(Some("ar_1".to_string())));
    flow.step(&store, UntrashEvent::Restored("/p/resources/r/日报.sql".to_string()));
    let a = flow.step(&store, UntrashEvent::Failed(refusal("analytics_resources", "数据库已锁")));
    assert_same(a, UntrashAction::MoveBackToTrash("/p/resources/r/日报.sql".to_string(), "r/日报.sql".to_string()));
    let a = flow.step(&store, UntrashEvent::RolledBack);
    assert_same(a, UntrashAction::Finish(Err(refusal("analytics_resources", "数据库已锁"))));
}

#[test]
fn purge_deletes_the_payload_then_the_row_and_only_our_entries() {
    let (mut flow, first) = TrashPurge::new("t1");
    assert_eq!(first, PurgeAction::LoadEntry("t1".to_string()));
    let a = flow.step(PurgeEvent::EntryLoaded(trash_entry("scratchpad", "a.sql")));
    assert_eq!(
        a,
        PurgeAction::Finish(Err(refusal(
            "purge",
            "该条目属于模块「scratchpad」，请在它的界面里处理（跨模块永久删除不是这里的事）"
        )))
    );

    let (mut flow, _) = TrashPurge::new("t1");
    assert_eq!(flow.step(PurgeEvent::EntryLoaded(trash_entry("resources", "r/a.sql"))), PurgeAction::PurgeEntry("t1".to_string()));
    assert_eq!(flow.step(PurgeEvent::RowFound(None)), PurgeAction::Ignore, "本体未删前不找行");
    assert_eq!(flow.step(PurgeEvent::PayloadPurged), PurgeAction::FindDeletedRecord("r/a.sql".to_string()));
    assert_eq!(flow.step(PurgeEvent::RowFound(Some("ar_1".to_string()))), PurgeAction::PurgeRow("ar_1".to_string()));
    assert_eq!(flow.step(PurgeEvent::RowPurged), PurgeAction::Finish(Ok(())));

    let (mut flow, _) = TrashPurge::new("t1");
    flow.step(PurgeEvent::EntryLoaded(trash_entry("resources", "r/a.sql")));
    flow.step(PurgeEvent::PayloadPurged);
    assert_eq!(flow.step(PurgeEvent::RowFound(None)), PurgeAction::Finish(Ok(())), "没有残留行也算完成");
}

#[test]
fn first_archive_moves_in_then_writes_the_row() {
    let (mut flow, first) = ArchiveNew::new("r/a.sql");
    assert_eq!(first, ArchiveAction::CheckSource);
    assert_eq!(flow.step(ArchiveEvent::SourceChecked(true)), ArchiveAction::HashSource);
    assert_eq!(flow.step(ArchiveEvent::Hashed("h1".to_string(), Some(9))), ArchiveAction::FindArchiveAt("r/a.sql".to_string()));
    assert_eq!(flow.step(ArchiveEvent::TargetFound(None)), ArchiveAction::MoveIn("r/a.sql".to_string()));
    assert_eq!(
        flow.step(ArchiveEvent::MovedIn),
        ArchiveAction::InsertRow("r/a.sql".to_string(), "h1".to_string(), Some(9))
    );
    assert_eq!(
        flow.step(ArchiveEvent::Inserted("ar_1".to_string(), 1)),
        ArchiveAction::Finish(Ok(UpdateOutcome {
            resource_id: "ar_1".to_string(),
            version: 1,
            content_hash: "h1".to_string(),
            file_rel_path: "r/a.sql".to_string(),
            created_new_version: true,
        }))
    );
}

#[test]
fn first_archive_refuses_and_rolls_back() {
    let (mut flow, _) = ArchiveNew::new("r/a.sql");
    assert_eq!(
        flow.step(ArchiveEvent::SourceChecked(false)),
        ArchiveAction::Finish(Err(refusal("archive", "源文件不存在或不是普通文件")))
    );

    let (mut flow, _) = ArchiveNew::new("r/a.sql");
    flow.step(ArchiveEvent::SourceChecked(true));
    flow.step(ArchiveEvent::Hashed("h1".to_string(), None));
    let a = flow.step(ArchiveEvent::TargetFound(Some(("日报".to_string(), "ar_7".to_string()))));
    assert_eq!(
        a,
        ArchiveAction::Finish(Err(refusal("archive", "目标路径已被存档「日报」（id=ar_7）占用；请改名或先移除旧存档")))
    );
    assert!(!flow.moved_in, "被占用时不搬本体");

    let (mut flow, _) = ArchiveNew::new("r/a.sql");
    flow.step(ArchiveEvent::SourceChecked(true));
    flow.step(ArchiveEvent::Hashed("h1".to_string(), None));
    flow.step(ArchiveEvent::TargetFound(None));
    flow.step(ArchiveEvent::MovedIn);
    let a = flow.step(ArchiveEvent::Failed(refusal("analytics_resources", "数据库已锁")));
    assert_eq!(a, ArchiveAction::MoveBackOut("r/a.sql".to_string()));
    assert_eq!(flow.step(ArchiveEvent::RolledBack), ArchiveAction::Finish(Err(refusal("analytics_resources", "数据库已锁"))));
}

#[test]
fn undo_moves_the_payload_out_then_drops_the_row() {
    let (mut flow, first) = ArchiveUndoFlow::new("ar_1", "/w/a.sql");
    assert_eq!(first, UndoAction::LoadRecord("ar_1".to_string()));
    let a = flow.step(UndoEvent::Loaded(record("ar_1", 1, Some("h"), Some("r/a.sql")), false));
    assert_eq!(a, UndoAction::MoveOut("r/a.sql".to_string(), "/w/a.sql".to_string()));
    assert_eq!(flow.step(UndoEvent::MovedOut), UndoAction::DeleteRow("ar_1".to_string()));
    assert_eq!(flow.step(UndoEvent::RowDeleted), UndoAction::Finish(Ok(())));
}

#[test]
fn undo_refuses_late_or_blocked_and_rolls_back() {
    let (mut flow, _) = ArchiveUndoFlow::new("ar_1", "/w/a.sql");
    let a = flow.step(UndoEvent::Loaded(record("ar_1", 2, Some("h"), Some("r/a.sql")), false));
    assert_eq!(
        a,
        UndoAction::Finish(Err(refusal("undo", "已有新版本（v2），撤销窗口已过；如需回退请走版本历史")))
    );

    let (mut flow, _) = ArchiveUndoFlow::new("ar_1", "/w/a.sql");
    let a = flow.step(UndoEvent::Loaded(record("ar_1", 1, Some("h"), Some("r/a.sql")), true));
    assert_eq!(
        a,
        UndoAction::Finish(Err(refusal("undo", "原位置已有文件（/w/a.sql）：撤销要精确还原，请先移走它")))
    );

    let (mut flow, _) = ArchiveUndoFlow::new("ar_1", "/w/a.sql");
    flow.step(UndoEvent::Loaded(record("ar_1", 1, Some("h"), Some("r/a.sql")), false));
    flow.step(UndoEvent::MovedOut);
    let a = flow.step(UndoEvent::Failed(refusal("analytics_resources", "数据库已锁")));
    assert_eq!(a, UndoAction::MoveBackIn("/w/a.sql".to_string(), "r/a.sql".to_string()));
    assert_eq!(flow.step(UndoEvent::RolledBack), UndoAction::Finish(Err(refusal("analytics_resources", "数据库已锁"))));
}
