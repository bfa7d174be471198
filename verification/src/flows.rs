//! The multi-step archive flows as state machines: a first archive and its undo,
//! the content update of an archive (re-archiving edited content, restoring an
//! earlier version), moving a batch of archives to the trash, bringing one back
//! from the trash, and purging one from it for good. The host performs each action (reads the
//! record, hashes files, writes copies, rows and payloads) and hands back what came
//! of it; `ContentUpdate::step` decides what happens next. The order that keeps old
//! content safe is the machine's: the current content is copied and its snapshot
//! saved before the payload is overwritten, and the row moves on only after that.

use vstd::prelude::*;

use crate::model::{TrashArchiveEntry, ORIGIN_RESOURCES};
use crate::models::{AnalyticsResource, TrashEntry};
use crate::payload::PayloadStore;
use crate::resource_view::opt_view;
use crate::service::{
    archive_source_guard, batch_trash_failure, foreign_entry_error, missing_copy_error, missing_record_error,
    moved_rel_path, occupied_target_error, refusal_view, restored_rel_path, trash_missing_payload_error, undo_source,
    undo_source_of, vanished_copy_error, version_text, ServiceError,
};
use crate::text::{dec, str_eq};

verus! {

/// Where the new content of an update comes from.
#[derive(Debug, Clone, Copy)]
pub enum ContentSource {
    /// A working file the user edited (re-archiving); its fingerprint is known up front.
    Workspace,
    /// The content copy of an earlier version (restoring).
    VersionCopy(i32),
}

/// How far an update has come.
#[derive(Debug, Clone, Copy)]
pub enum UpdateStage {
    Load,
    FindCopy,
    Hash,
    KeepCopy,
    Snapshot,
    WriteBack,
    UpdateRow,
    Prune,
    Finished,
}

/// The result of an update that went through.
#[derive(Debug, Clone, PartialEq, Eq)]
pub struct UpdateOutcome {
    pub resource_id: String,
    pub version: i32,
    pub content_hash: String,
    pub file_rel_path: String,
    /// `false`: the content was the current one; nothing was written.
    pub created_new_version: bool,
}

/// The state of one update.
#[derive(Debug)]
pub struct ContentUpdate {
    pub resource_id: String,
    pub source: ContentSource,
    pub stage: UpdateStage,
    /// The record's version and fingerprint when it was read.
    pub current_version: i32,
    pub current_hash: Option<String>,
    /// The payload path of the archive.
    pub rel_path: String,
    /// Fingerprint and size of the new content.
    pub content_hash: String,
    pub file_size: Option<i64>,
    /// The snapshot row of the current content, once saved.
    pub snapshot_id: String,
    /// The version the row moved to.
    pub new_version: i32,
    /// The current content has a version copy.
    pub copy_kept: bool,
    /// The current record has a snapshot row.
    pub snapshot_saved: bool,
    /// The payload holds the new content.
    pub written_back: bool,
}

/// What the host brings back from the last action.
#[derive(Debug)]
pub enum UpdateEvent {
    /// The record, read by id.
    Loaded(AnalyticsResource),
    /// Whether the version's content copy is there.
    CopyLookedUp(bool),
    /// Fingerprint and size of the new content.
    Hashed(String, Option<i64>),
    /// The current content was copied aside.
    CopyKept,
    /// The snapshot row was written, with its id.
    SnapshotSaved(String),
    /// The payload was overwritten; `false`: the version copy was gone by then.
    WrittenBack(bool),
    /// The row moved to this version.
    RowUpdated(i32),
    /// Old version copies were pruned (best effort).
    Pruned,
    /// The host's action failed.
    Failed(ServiceError),
}

/// What the host does next.
#[derive(Debug, PartialEq, Eq)]
pub enum UpdateAction {
    /// Read the record with this id.
    LoadRecord(String),
    /// Look up the content copy of (resource, version).
    LookUpCopy(String, i32),
    /// Hash and size the version copy that was found.
    HashCopy,
    /// Copy the current payload aside as (resource, version) from this path.
    KeepCurrentCopy(String, i32, String),
    /// Save the record as read as the snapshot of (resource, version).
    SaveSnapshot(String, i32),
    /// Overwrite the payload at this path with the new content.
    WriteBack(String),
    /// Move the row of the resource to the new fingerprint, with the snapshot id
    /// as parent and the new size.
    UpdateRow(String, String, String, Option<i64>),
    /// Prune the resource's version copies to the retention.
    Prune(String),
    /// The update is over.
    Finish(Result<UpdateOutcome, ServiceError>),
    /// The event does not belong to the stage; nothing to do.
    Ignore,
}

/// The operation named in refusals.
pub open spec fn operation_of(source: ContentSource) -> Seq<char> {
    match source {
        ContentSource::Workspace => "re_archive"@,
        ContentSource::VersionCopy(_) => "restore"@,
    }
}

/// The refusal for a deleted archive.
pub open spec fn deleted_reason_of(source: ContentSource) -> Seq<char> {
    match source {
        ContentSource::Workspace => "存档已删除，无法再归档"@,
        ContentSource::VersionCopy(_) => "存档已删除，无法还原"@,
    }
}

/// The new content is the current one (a record without fingerprint has the empty one).
pub open spec fn same_content(s: ContentUpdate) -> bool {
    match s.current_hash {
        Some(h) => h@ == s.content_hash@,
        None => s.content_hash@.len() == 0,
    }
}

/// The state with the update over.
pub open spec fn finished(s: ContentUpdate) -> ContentUpdate {
    ContentUpdate { stage: UpdateStage::Finished, ..s }
}

/// The action ends the update with this refusal.
pub open spec fn refused_with(a: UpdateAction, operation: Seq<char>, reason: Seq<char>) -> bool {
    a matches UpdateAction::Finish(Err(e)) && refusal_view(e) == (operation, reason)
}

/// The action ends the update with this outcome.
pub open spec fn finishes_with(s: ContentUpdate, a: UpdateAction, version: i32, new_version: bool) -> bool {
    a == UpdateAction::Finish(
        Ok(
            UpdateOutcome {
                resource_id: s.resource_id,
                version,
                content_hash: s.content_hash,
                file_rel_path: s.rel_path,
                created_new_version: new_version,
            },
        ),
    )
}

/// After the new content is known: nothing to do when it is the current one,
/// else the current content is copied aside first.
pub open spec fn after_content(s: ContentUpdate, next: ContentUpdate, a: UpdateAction) -> bool {
    if same_content(s) {
        next == finished(s) && finishes_with(s, a, s.current_version, false)
    } else {
        next == ContentUpdate { stage: UpdateStage::KeepCopy, ..s } && a == UpdateAction::KeepCurrentCopy(
            s.resource_id,
            s.current_version,
            s.rel_path,
        )
    }
}

/// One step: from state `s` and event `e`, the next state `next` and action `a`.
/// An event that does not belong to the stage changes nothing. A failed action
/// ends the update with its error, except pruning, which is best effort.
pub open spec fn update_step(s: ContentUpdate, e: UpdateEvent, next: ContentUpdate, a: UpdateAction) -> bool {
    let ignored = next == s && a == UpdateAction::Ignore;
    match (s.stage, e) {
        (UpdateStage::Finished, _) => ignored,
        (UpdateStage::Prune, UpdateEvent::Pruned) | (UpdateStage::Prune, UpdateEvent::Failed(_)) => next == finished(
            s,
        ) && finishes_with(s, a, s.new_version, true),
        (_, UpdateEvent::Failed(err)) => next == finished(s) && a == UpdateAction::Finish(Err(err)),
        (UpdateStage::Load, UpdateEvent::Loaded(r)) => if r.deleted_at is Some {
            next == finished(s) && refused_with(a, operation_of(s.source), deleted_reason_of(s.source))
        } else {
            match r.file_rel_path {
                None => next == finished(s) && refused_with(
                    a,
                    operation_of(s.source),
                    "该存档没有本体路径（非文件型或旧行）"@,
                ),
                Some(rel) => {
                    let loaded = ContentUpdate {
                        current_version: r.version,
                        current_hash: r.content_hash,
                        rel_path: rel,
                        ..s
                    };
                    match s.source {
                        ContentSource::Workspace => after_content(loaded, next, a),
                        ContentSource::VersionCopy(v) => next == ContentUpdate {
                            stage: UpdateStage::FindCopy,
                            ..loaded
                        } && a == UpdateAction::LookUpCopy(s.resource_id, v),
                    }
                },
            }
        },
        (UpdateStage::FindCopy, UpdateEvent::CopyLookedUp(found)) => match s.source {
            ContentSource::VersionCopy(v) => if found {
                next == ContentUpdate { stage: UpdateStage::Hash, ..s } && a == UpdateAction::HashCopy
            } else {
                next == finished(s) && refused_with(
                    a,
                    "restore"@,
                    version_text(v, " 没有内容副本（可能已被保留策略裁剪），无法还原"@),
                )
            },
            ContentSource::Workspace => ignored,
        },
        (UpdateStage::Hash, UpdateEvent::Hashed(h, size)) => after_content(
            ContentUpdate { content_hash: h, file_size: size, ..s },
            next,
            a,
        ),
        (UpdateStage::KeepCopy, UpdateEvent::CopyKept) => next == ContentUpdate {
            stage: UpdateStage::Snapshot,
            copy_kept: true,
            ..s
        } && a == UpdateAction::SaveSnapshot(s.resource_id, s.current_version),
        (UpdateStage::Snapshot, UpdateEvent::SnapshotSaved(id)) => next == ContentUpdate {
            stage: UpdateStage::WriteBack,
            snapshot_id: id,
            snapshot_saved: true,
            ..s
        } && a == UpdateAction::WriteBack(s.rel_path),
        (UpdateStage::WriteBack, UpdateEvent::WrittenBack(ok)) => if ok {
            next == ContentUpdate { stage: UpdateStage::UpdateRow, written_back: true, ..s } && a
                == UpdateAction::UpdateRow(s.resource_id, s.content_hash, s.snapshot_id, s.file_size)
        } else {
            match s.source {
                ContentSource::VersionCopy(v) => next == finished(s) && refused_with(
                    a,
                    "restore"@,
                    version_text(v, " 的内容副本在写回前消失，还原中止"@),
                ),
                ContentSource::Workspace => ignored,
            }
        },
        (UpdateStage::UpdateRow, UpdateEvent::RowUpdated(v)) => next == ContentUpdate {
            stage: UpdateStage::Prune,
            new_version: v,
            ..s
        } && a == UpdateAction::Prune(s.resource_id),
        _ => ignored,
    }
}

/// The progress marks agree with the stage: nothing is overwritten before the copy
/// and the snapshot, and the row moves only after the payload.
pub open spec fn update_wf(s: ContentUpdate) -> bool {
    &&& (s.stage is Snapshot || s.stage is WriteBack || s.stage is UpdateRow || s.stage is Prune) ==> s.copy_kept
    &&& (s.stage is WriteBack || s.stage is UpdateRow || s.stage is Prune) ==> s.snapshot_saved
    &&& (s.stage is UpdateRow || s.stage is Prune) ==> s.written_back
}

/// A new update, before anything happened.
pub open spec fn fresh(s: ContentUpdate, resource_id: Seq<char>, source: ContentSource) -> bool {
    &&& s.resource_id@ == resource_id
    &&& s.source == source
    &&& s.stage is Load
    &&& !s.copy_kept && !s.snapshot_saved && !s.written_back
}

impl ContentUpdate {
    /// A new update of `resource_id` from `source`; `content_hash` and `file_size`
    /// are those of the working file when re-archiving (ignored when restoring).
    fn begin(resource_id: &str, source: ContentSource, content_hash: &str, file_size: Option<i64>) -> (r: (
        ContentUpdate,
        UpdateAction,
    ))
        ensures
            fresh(r.0, resource_id@, source),
            r.0.content_hash@ == content_hash@,
            r.0.file_size == file_size,
            r.1 == UpdateAction::LoadRecord(r.0.resource_id),
            update_wf(r.0),
    {
        let s = ContentUpdate {
            resource_id: crate::text::owned(resource_id),
            source,
            stage: UpdateStage::Load,
            current_version: 0,
            current_hash: None,
            rel_path: String::new(),
            content_hash: crate::text::owned(content_hash),
            file_size,
            snapshot_id: String::new(),
            new_version: 0,
            copy_kept: false,
            snapshot_saved: false,
            written_back: false,
        };
        let a = UpdateAction::LoadRecord(s.resource_id.clone());
        (s, a)
    }

    /// Re-archiving edited content with this fingerprint and size: first the record is read.
    pub fn rearchive(resource_id: &str, content_hash: &str, file_size: Option<i64>) -> (r: (ContentUpdate, UpdateAction))
        ensures
            fresh(r.0, resource_id@, ContentSource::Workspace),
            r.0.content_hash@ == content_hash@,
            r.0.file_size == file_size,
            r.1 == UpdateAction::LoadRecord(r.0.resource_id),
            update_wf(r.0),
    {
        Self::begin(resource_id, ContentSource::Workspace, content_hash, file_size)
    }

    /// Restoring version `version` as a new version: first the record is read.
    pub fn restore(resource_id: &str, version: i32) -> (r: (ContentUpdate, UpdateAction))
        ensures
            fresh(r.0, resource_id@, ContentSource::VersionCopy(version)),
            r.1 == UpdateAction::LoadRecord(r.0.resource_id),
            update_wf(r.0),
    {
        Self::begin(resource_id, ContentSource::VersionCopy(version), "", None)
    }

    /// The outcome of the update as it stands.
    fn outcome(&self, version: i32, new_version: bool) -> (o: UpdateOutcome)
        ensures
            o == (UpdateOutcome {
                resource_id: self.resource_id,
                version,
                content_hash: self.content_hash,
                file_rel_path: self.rel_path,
                created_new_version: new_version,
            }),
    {
        UpdateOutcome {
            resource_id: self.resource_id.clone(),
            version,
            content_hash: self.content_hash.clone(),
            file_rel_path: self.rel_path.clone(),
            created_new_version: new_version,
        }
    }

    /// The new content is the current one.
    fn same_content(&self) -> (r: bool)
        ensures
            r == same_content(*self),
    {
        match &self.current_hash {
            Some(h) => str_eq(h.as_str(), self.content_hash.as_str()),
            None => self.content_hash.as_str().is_empty(),
        }
    }

    /// Once the new content is known: done when it is the current one, else keep a
    /// copy of the current content first.
    fn after_content(&mut self) -> (a: UpdateAction)
        ensures
            after_content(*old(self), *final(self), a),
    {
        if self.same_content() {
            self.stage = UpdateStage::Finished;
            UpdateAction::Finish(Ok(self.outcome(self.current_version, false)))
        } else {
            self.stage = UpdateStage::KeepCopy;
            UpdateAction::KeepCurrentCopy(self.resource_id.clone(), self.current_version, self.rel_path.clone())
        }
    }

    /// One step of the update (see [`update_step`]).
    pub fn step(&mut self, event: UpdateEvent) -> (a: UpdateAction)
        ensures
            update_step(*old(self), event, *final(self), a),
    {
        match (self.stage, event) {
            (UpdateStage::Finished, _) => UpdateAction::Ignore,
            (UpdateStage::Prune, UpdateEvent::Pruned) | (UpdateStage::Prune, UpdateEvent::Failed(_)) => {
                self.stage = UpdateStage::Finished;
                UpdateAction::Finish(Ok(self.outcome(self.new_version, true)))
            },
            (_, UpdateEvent::Failed(err)) => {
                self.stage = UpdateStage::Finished;
                UpdateAction::Finish(Err(err))
            },
            (UpdateStage::Load, UpdateEvent::Loaded(r)) => {
                let (operation, deleted) = match self.source {
                    ContentSource::Workspace => ("re_archive", "存档已删除，无法再归档"),
                    ContentSource::VersionCopy(_) => ("restore", "存档已删除，无法还原"),
                };
                if r.deleted_at.is_some() {
                    self.stage = UpdateStage::Finished;
                    return UpdateAction::Finish(
                        Err(ServiceError { operation: crate::text::owned(operation), reason: crate::text::owned(deleted) }),
                    );
                }
                match r.file_rel_path {
                    None => {
                        self.stage = UpdateStage::Finished;
                        UpdateAction::Finish(
                            Err(
                                ServiceError {
                                    operation: crate::text::owned(operation),
                                    reason: crate::text::owned("该存档没有本体路径（非文件型或旧行）"),
                                },
                            ),
                        )
                    },
                    Some(rel) => {
                        self.current_version = r.version;
                        self.current_hash = r.content_hash;
                        self.rel_path = rel;
                        match self.source {
                            ContentSource::Workspace => self.after_content(),
                            ContentSource::VersionCopy(v) => {
                                self.stage = UpdateStage::FindCopy;
                                UpdateAction::LookUpCopy(self.resource_id.clone(), v)
                            },
                        }
                    },
                }
            },
            (UpdateStage::FindCopy, UpdateEvent::CopyLookedUp(found)) => match self.source {
                ContentSource::VersionCopy(v) => if found {
                    self.stage = UpdateStage::Hash;
                    UpdateAction::HashCopy
                } else {
                    self.stage = UpdateStage::Finished;
                    UpdateAction::Finish(Err(missing_copy_error("restore", v, true)))
                },
                ContentSource::Workspace => UpdateAction::Ignore,
            },
            (UpdateStage::Hash, UpdateEvent::Hashed(h, size)) => {
                self.content_hash = h;
                self.file_size = size;
                self.after_content()
            },
            (UpdateStage::KeepCopy, UpdateEvent::CopyKept) => {
                self.stage = UpdateStage::Snapshot;
                self.copy_kept = true;
                UpdateAction::SaveSnapshot(self.resource_id.clone(), self.current_version)
            },
            (UpdateStage::Snapshot, UpdateEvent::SnapshotSaved(id)) => {
                self.stage = UpdateStage::WriteBack;
                self.snapshot_id = id;
                self.snapshot_saved = true;
                UpdateAction::WriteBack(self.rel_path.clone())
            },
            (UpdateStage::WriteBack, UpdateEvent::WrittenBack(ok)) => if ok {
                self.stage = UpdateStage::UpdateRow;
                self.written_back = true;
                UpdateAction::UpdateRow(
                    self.resource_id.clone(),
                    self.content_hash.clone(),
                    self.snapshot_id.clone(),
                    self.file_size,
                )
            } else {
                match self.source {
                    ContentSource::VersionCopy(v) => {
                        self.stage = UpdateStage::Finished;
                        UpdateAction::Finish(Err(vanished_copy_error(v)))
                    },
                    ContentSource::Workspace => UpdateAction::Ignore,
                }
            },
            (UpdateStage::UpdateRow, UpdateEvent::RowUpdated(v)) => {
                self.stage = UpdateStage::Prune;
                self.new_version = v;
                UpdateAction::Prune(self.resource_id.clone())
            },
            _ => UpdateAction::Ignore,
        }
    }
}

/// Every step keeps the progress marks in agreement with the stage; the payload is
/// overwritten only once the current content is copied and its snapshot saved, the
/// row moves only after that, and a new version is reported only once all of it
/// happened.
pub proof fn law_update_keeps_old_content_safe(s: ContentUpdate, e: UpdateEvent, next: ContentUpdate, a: UpdateAction)
    requires
        update_wf(s),
        update_step(s, e, next, a),
    ensures
        update_wf(next),
        a is WriteBack ==> next.copy_kept && next.snapshot_saved,
        a is UpdateRow ==> next.copy_kept && next.snapshot_saved && next.written_back,
        a matches UpdateAction::Finish(Ok(o)) && o.created_new_version ==> next.written_back,
{
}

/// Content equal to the current one finishes the update without a new version and
/// without any write: the answer right after the content is known.
pub proof fn law_same_content_writes_nothing(s: ContentUpdate, next: ContentUpdate, a: UpdateAction)
    requires
        same_content(s),
        after_content(s, next, a),
    ensures
        next.stage is Finished,
        next.written_back == s.written_back,
        a matches UpdateAction::Finish(Ok(o)) && !o.created_new_version && o.version == s.current_version,
{
}

// ---------------------------------------------------------------- batch trash

/// How far the current archive of a batch move to the trash has come.
#[derive(Debug, Clone, Copy)]
pub enum TrashStage {
    Load,
    Probe,
    Move,
    Record,
    Rollback,
    Finished,
}

/// A batch move to the trash: archives one after the other, payload first (into the
/// project trash), then the row (marked deleted); a failed mark moves the payload
/// back. What already moved stays moved when a later archive fails.
#[derive(Debug)]
pub struct TrashBatch {
    pub ids: Vec<String>,
    /// Position of the current archive in `ids`.
    pub index: usize,
    pub stage: TrashStage,
    /// The current archive, once read.
    pub resource_id: String,
    pub name: String,
    pub rel_path: String,
    /// The trash entry of the current archive, once moved.
    pub trash_id: String,
    /// The archives moved so far, in order.
    pub moved: Vec<TrashArchiveEntry>,
    /// The failure being rolled back.
    pub error: ServiceError,
}

/// What the host brings back from the last action.
#[derive(Debug)]
pub enum TrashEvent {
    /// The record, read by id.
    Loaded(AnalyticsResource),
    /// Whether the payload (resolved under `resources/`) is a regular file.
    Probed(bool),
    /// The payload is in the trash under this entry id.
    Moved(String),
    /// The row is marked deleted.
    Recorded,
    /// The payload was moved back (or the attempt failed; the failure is the host's to log).
    RolledBack,
    /// The host's action failed.
    Failed(ServiceError),
}

/// What the host does next.
#[derive(Debug, PartialEq, Eq)]
pub enum TrashAction {
    /// Read the record with this id.
    LoadRecord(String),
    /// Check that the payload at this path is a regular file.
    ProbePayload(String),
    /// Move the payload at this path into the project trash (origin `resources`).
    MoveToTrash(String),
    /// Mark the row of this resource deleted.
    MarkDeleted(String),
    /// Move the payload of this trash entry back to where it was.
    RestoreEntry(String),
    /// The batch is over: the archives moved, or why it stopped.
    Finish(Result<Vec<TrashArchiveEntry>, ServiceError>),
    /// The event does not belong to the stage; nothing to do.
    Ignore,
}

/// The refusal a batch ends with when an archive fails with `failure`: as it is
/// when nothing moved yet, else saying how many moved.
pub open spec fn batch_error_view(moved: nat, failure: (Seq<char>, Seq<char>)) -> (Seq<char>, Seq<char>) {
    if moved == 0 {
        failure
    } else {
        ("trash"@, failure.1 + "；本批已移入 "@ + dec(moved) + " 项，其余未处理"@)
    }
}

/// The batch ends with the failure `failure` of the current archive.
pub open spec fn batch_failed(s: TrashBatch, next: TrashBatch, a: TrashAction, failure: (Seq<char>, Seq<char>)) -> bool {
    &&& next == TrashBatch { stage: TrashStage::Finished, ..s }
    &&& a matches TrashAction::Finish(Err(x)) && refusal_view(x) == batch_error_view(s.moved@.len(), failure)
}

/// The entry of the current archive.
pub open spec fn current_entry(s: TrashBatch) -> TrashArchiveEntry {
    TrashArchiveEntry { resource_id: s.resource_id, name: s.name, trash_id: s.trash_id }
}

/// One step of a batch move to the trash.
pub open spec fn trash_step(s: TrashBatch, e: TrashEvent, next: TrashBatch, a: TrashAction) -> bool {
    let ignored = next == s && a == TrashAction::Ignore;
    match (s.stage, e) {
        (TrashStage::Finished, _) => ignored,
        (TrashStage::Rollback, TrashEvent::RolledBack) | (TrashStage::Rollback, TrashEvent::Failed(_)) => batch_failed(
            s,
            next,
            a,
            refusal_view(s.error),
        ),
        (TrashStage::Record, TrashEvent::Failed(x)) => next == TrashBatch {
            stage: TrashStage::Rollback,
            error: x,
            ..s
        } && a == TrashAction::RestoreEntry(s.trash_id),
        (_, TrashEvent::Failed(x)) => batch_failed(s, next, a, refusal_view(x)),
        (TrashStage::Load, TrashEvent::Loaded(r)) => if r.deleted_at is Some {
            batch_failed(s, next, a, ("trash"@, "「"@ + r.name@ + "」已经在回收站里"@))
        } else {
            match r.file_rel_path {
                None => batch_failed(s, next, a, ("trash"@, "「"@ + r.name@ + "」没有本体路径，不能移入回收站"@)),
                Some(rel) => next == TrashBatch {
                    stage: TrashStage::Probe,
                    resource_id: r.id,
                    name: r.name,
                    rel_path: rel,
                    ..s
                } && a == TrashAction::ProbePayload(rel),
            }
        },
        (TrashStage::Probe, TrashEvent::Probed(is_file)) => if is_file {
            next == TrashBatch { stage: TrashStage::Move, ..s } && a == TrashAction::MoveToTrash(s.rel_path)
        } else {
            batch_failed(
                s,
                next,
                a,
                ("trash"@, "「"@ + s.name@ + "」的本体不在（resources/"@ + s.rel_path@ + "）：先走索引修复处理"@),
            )
        },
        (TrashStage::Move, TrashEvent::Moved(id)) => next == TrashBatch { stage: TrashStage::Record, trash_id: id, ..s }
            && a == TrashAction::MarkDeleted(s.resource_id),
        (TrashStage::Record, TrashEvent::Recorded) => if s.index + 1 < s.ids@.len() {
            &&& next == TrashBatch { stage: TrashStage::Load, index: (s.index + 1) as usize, moved: next.moved, ..s }
            &&& next.moved@ == s.moved@.push(current_entry(s))
            &&& a == TrashAction::LoadRecord(s.ids@[s.index + 1])
        } else {
            &&& next == TrashBatch { stage: TrashStage::Finished, moved: next.moved, ..s }
            &&& a matches TrashAction::Finish(Ok(v)) && v@ == s.moved@.push(current_entry(s))
        },
        _ => ignored,
    }
}

/// The batch's count agrees with its position: before it ends, the archive at
/// `index` is under way and each one before it moved.
pub open spec fn trash_wf(s: TrashBatch) -> bool {
    !(s.stage is Finished) ==> s.index < s.ids@.len() && s.moved@.len() == s.index
}

impl TrashBatch {
    /// A batch over `ids`, in order; an empty batch is over at once with nothing moved.
    pub fn new(ids: Vec<String>) -> (r: (TrashBatch, TrashAction))
        ensures
            r.0.ids@ == ids@,
            r.0.index == 0,
            r.0.moved@.len() == 0,
            trash_wf(r.0),
            if ids@.len() == 0 {
                r.0.stage is Finished && (r.1 matches TrashAction::Finish(Ok(v)) && v@.len() == 0)
            } else {
                r.0.stage is Load && r.1 == TrashAction::LoadRecord(ids@[0])
            },
    {
        let first = if ids.len() == 0 {
            None
        } else {
            Some(ids[0].clone())
        };
        let s = TrashBatch {
            ids,
            index: 0,
            stage: TrashStage::Finished,
            resource_id: String::new(),
            name: String::new(),
            rel_path: String::new(),
            trash_id: String::new(),
            moved: Vec::new(),
            error: ServiceError { operation: String::new(), reason: String::new() },
        };
        match first {
            None => (s, TrashAction::Finish(Ok(Vec::new()))),
            Some(id) => (TrashBatch { stage: TrashStage::Load, ..s }, TrashAction::LoadRecord(id)),
        }
    }

    /// Ends the batch with the failure of the current archive.
    fn fail(&mut self, failure: ServiceError) -> (a: TrashAction)
        ensures
            batch_failed(*old(self), *final(self), a, refusal_view(failure)),
    {
        self.stage = TrashStage::Finished;
        let moved = self.moved.len();
        match batch_trash_failure(failure.reason.as_str(), moved) {
            None => TrashAction::Finish(Err(failure)),
            Some(e) => TrashAction::Finish(Err(e)),
        }
    }

    /// One step of the batch (see [`trash_step`]).
    pub fn step(&mut self, event: TrashEvent) -> (a: TrashAction)
        ensures
            trash_step(*old(self), event, *final(self), a),
    {
        match (self.stage, event) {
            (TrashStage::Finished, _) => TrashAction::Ignore,
            (TrashStage::Rollback, TrashEvent::RolledBack) | (TrashStage::Rollback, TrashEvent::Failed(_)) => {
                let failure = ServiceError { operation: self.error.operation.clone(), reason: self.error.reason.clone() };
                self.fail(failure)
            },
            (TrashStage::Record, TrashEvent::Failed(x)) => {
                self.stage = TrashStage::Rollback;
                self.error = x;
                TrashAction::RestoreEntry(self.trash_id.clone())
            },
            (_, TrashEvent::Failed(x)) => self.fail(x),
            (TrashStage::Load, TrashEvent::Loaded(r)) => {
                if r.deleted_at.is_some() {
                    let mut reason = crate::text::owned("「");
                    crate::text::push_str(&mut reason, r.name.as_str());
                    crate::text::push_str(&mut reason, "」已经在回收站里");
                    return self.fail(ServiceError { operation: crate::text::owned("trash"), reason });
                }
                match r.file_rel_path {
                    None => {
                        let mut reason = crate::text::owned("「");
                        crate::text::push_str(&mut reason, r.name.as_str());
                        crate::text::push_str(&mut reason, "」没有本体路径，不能移入回收站");
                        self.fail(ServiceError { operation: crate::text::owned("trash"), reason })
                    },
                    Some(rel) => {
                        self.stage = TrashStage::Probe;
                        self.resource_id = r.id;
                        self.name = r.name;
                        let probe = rel.clone();
                        self.rel_path = rel;
                        TrashAction::ProbePayload(probe)
                    },
                }
            },
            (TrashStage::Probe, TrashEvent::Probed(is_file)) => if is_file {
                self.stage = TrashStage::Move;
                TrashAction::MoveToTrash(self.rel_path.clone())
            } else {
                let e = trash_missing_payload_error(self.name.as_str(), self.rel_path.as_str());
                self.fail(e)
            },
            (TrashStage::Move, TrashEvent::Moved(id)) => {
                self.stage = TrashStage::Record;
                self.trash_id = id;
                TrashAction::MarkDeleted(self.resource_id.clone())
            },
            (TrashStage::Record, TrashEvent::Recorded) => {
                let entry = TrashArchiveEntry {
                    resource_id: self.resource_id.clone(),
                    name: self.name.clone(),
                    trash_id: self.trash_id.clone(),
                };
                self.moved.push(entry);
                if self.ids.len() > 0 && self.index < self.ids.len() - 1 {
                    self.index = self.index + 1;
                    self.stage = TrashStage::Load;
                    TrashAction::LoadRecord(self.ids[self.index].clone())
                } else {
                    self.stage = TrashStage::Finished;
                    let mut out: Vec<TrashArchiveEntry> = Vec::new();
                    std::mem::swap(&mut out, &mut self.moved);
                    TrashAction::Finish(Ok(out))
                }
            },
            _ => TrashAction::Ignore,
        }
    }
}

/// Every step keeps the count of moved archives equal to the position in the batch;
/// a failure after some archives moved keeps them moved and names how many; a
/// failed mark always asks for the payload just moved to go back.
pub proof fn law_trash_batch_counts_what_moved(s: TrashBatch, e: TrashEvent, next: TrashBatch, a: TrashAction)
    requires
        trash_wf(s),
        trash_step(s, e, next, a),
    ensures
        trash_wf(next),
        a matches TrashAction::Finish(Ok(v)) ==> v@.len() == s.ids@.len(),
        s.moved@.len() > 0 ==> (a matches TrashAction::Finish(Err(x)) ==> x.operation@ == "trash"@),
        s.stage is Record && e is Failed ==> a == TrashAction::RestoreEntry(s.trash_id),
{
    assert(s.ids@.len() == s.ids.len());
}

// ---------------------------------------------------------------- restore from the trash

/// How far a restore from the trash has come.
#[derive(Debug, Clone, Copy)]
pub enum UntrashStage {
    Entry,
    Record,
    Restore,
    Undelete,
    Rollback,
    Reload,
    Finished,
}

/// Bringing an archive back from the project trash: only this module's entries,
/// only while the registry row is still there (marked deleted); the payload comes
/// back first (renamed by the trash around a taken name, the row following), then
/// the row is revived; a failed revival sends the payload back to the trash.
#[derive(Debug)]
pub struct TrashRestore {
    pub trash_id: String,
    pub stage: UntrashStage,
    /// From the entry's manifest.
    pub name: String,
    pub original_rel: String,
    /// The deleted row at the original path.
    pub record_id: String,
    /// Where the payload came back to.
    pub restored_path: String,
    /// The failure being rolled back.
    pub error: ServiceError,
}

/// What the host brings back from the last action.
#[derive(Debug)]
pub enum UntrashEvent {
    /// The trash entry, read by id.
    EntryLoaded(TrashEntry),
    /// The id of the deleted row at the entry's original path, if there is one.
    RecordFound(Option<String>),
    /// The payload is back, at this path.
    Restored(String),
    /// The row is live again.
    Undeleted,
    /// The payload went back to the trash (or the attempt failed; the host logs it).
    RolledBack,
    /// The revived record.
    RecordLoaded(AnalyticsResource),
    /// The host's action failed.
    Failed(ServiceError),
}

/// What the host does next.
#[derive(Debug)]
pub enum UntrashAction {
    /// Read the trash entry with this id.
    LoadEntry(String),
    /// Find the deleted row at this payload path.
    FindDeletedRecord(String),
    /// Restore the trash entry into `resources/`.
    RestoreEntry(String),
    /// Revive the row, moving its payload path when the restore renamed it.
    Undelete(String, Option<String>),
    /// Move the payload at this path back to the trash (origin `resources`, original path).
    MoveBackToTrash(String, String),
    /// Read the revived record.
    LoadRecord(String),
    /// The restore is over.
    Finish(Result<AnalyticsResource, ServiceError>),
    /// The event does not belong to the stage; nothing to do.
    Ignore,
}

/// The state with the restore over.
pub open spec fn untrash_finished(s: TrashRestore) -> TrashRestore {
    TrashRestore { stage: UntrashStage::Finished, ..s }
}

/// The action ends the restore with this refusal.
pub open spec fn untrash_refused(a: UntrashAction, failure: (Seq<char>, Seq<char>)) -> bool {
    a matches UntrashAction::Finish(Err(e)) && refusal_view(e) == failure
}

/// One step of a restore from the trash; `resources` is the payload directory.
pub open spec fn untrash_step(
    resources: Seq<char>,
    s: TrashRestore,
    e: UntrashEvent,
    next: TrashRestore,
    a: UntrashAction,
) -> bool {
    let ignored = next == s && a == UntrashAction::Ignore;
    match (s.stage, e) {
        (UntrashStage::Finished, _) => ignored,
        (UntrashStage::Rollback, UntrashEvent::RolledBack) | (UntrashStage::Rollback, UntrashEvent::Failed(_)) => next
            == untrash_finished(s) && a == UntrashAction::Finish(Err(s.error)),
        (UntrashStage::Undelete, UntrashEvent::Failed(x)) => next == TrashRestore {
            stage: UntrashStage::Rollback,
            error: x,
            ..s
        } && a == UntrashAction::MoveBackToTrash(s.restored_path, s.original_rel),
        (_, UntrashEvent::Failed(x)) => next == untrash_finished(s) && a == UntrashAction::Finish(Err(x)),
        (UntrashStage::Entry, UntrashEvent::EntryLoaded(entry)) => if entry.manifest.origin@ != ORIGIN_RESOURCES@ {
            next == untrash_finished(s) && untrash_refused(
                a,
                ("untrash"@, "该条目属于模块「"@ + entry.manifest.origin@ + "」，请在它的界面里还原"@),
            )
        } else {
            next == TrashRestore {
                stage: UntrashStage::Record,
                name: entry.manifest.name,
                original_rel: entry.manifest.original_rel_path,
                ..s
            } && a == UntrashAction::FindDeletedRecord(entry.manifest.original_rel_path)
        },
        (UntrashStage::Record, UntrashEvent::RecordFound(found)) => match found {
            None => next == untrash_finished(s) && untrash_refused(
                a,
                ("untrash"@, "找不到「"@ + s.name@ + "」的登记记录（可能已被索引修复清掉）：请用「重建索引」补登"@),
            ),
            Some(id) => next == TrashRestore { stage: UntrashStage::Restore, record_id: id, ..s } && a
                == UntrashAction::RestoreEntry(s.trash_id),
        },
        (UntrashStage::Restore, UntrashEvent::Restored(path)) => {
            &&& next == TrashRestore { stage: UntrashStage::Undelete, restored_path: path, ..s }
            &&& a matches UntrashAction::Undelete(id, moved) && id == s.record_id && opt_view(moved) == moved_rel_path(
                resources,
                path@,
                s.original_rel@,
            )
        },
        (UntrashStage::Undelete, UntrashEvent::Undeleted) => next == TrashRestore { stage: UntrashStage::Reload, ..s }
            && a == UntrashAction::LoadRecord(s.record_id),
        (UntrashStage::Reload, UntrashEvent::RecordLoaded(r)) => next == untrash_finished(s) && a
            == UntrashAction::Finish(Ok(r)),
        _ => ignored,
    }
}

impl TrashRestore {
    /// Restoring the trash entry `trash_id`: first the entry is read.
    pub fn new(trash_id: &str) -> (r: (TrashRestore, UntrashAction))
        ensures
            r.0.trash_id@ == trash_id@,
            r.0.stage is Entry,
            r.1 == UntrashAction::LoadEntry(r.0.trash_id),
    {
        let s = TrashRestore {
            trash_id: crate::text::owned(trash_id),
            stage: UntrashStage::Entry,
            name: String::new(),
            original_rel: String::new(),
            record_id: String::new(),
            restored_path: String::new(),
            error: ServiceError { operation: String::new(), reason: String::new() },
        };
        let a = UntrashAction::LoadEntry(s.trash_id.clone());
        (s, a)
    }

    /// One step of the restore (see [`untrash_step`]).
    pub fn step(&mut self, store: &PayloadStore, event: UntrashEvent) -> (a: UntrashAction)
        ensures
            untrash_step(store.resources_view(), *old(self), event, *final(self), a),
    {
        match (self.stage, event) {
            (UntrashStage::Finished, _) => UntrashAction::Ignore,
            (UntrashStage::Rollback, UntrashEvent::RolledBack) | (UntrashStage::Rollback, UntrashEvent::Failed(_)) => {
                self.stage = UntrashStage::Finished;
                UntrashAction::Finish(
                    Err(ServiceError { operation: self.error.operation.clone(), reason: self.error.reason.clone() }),
                )
            },
            (UntrashStage::Undelete, UntrashEvent::Failed(x)) => {
                self.stage = UntrashStage::Rollback;
                self.error = x;
                UntrashAction::MoveBackToTrash(self.restored_path.clone(), self.original_rel.clone())
            },
            (_, UntrashEvent::Failed(x)) => {
                self.stage = UntrashStage::Finished;
                UntrashAction::Finish(Err(x))
            },
            (UntrashStage::Entry, UntrashEvent::EntryLoaded(entry)) => {
                if !str_eq(entry.manifest.origin.as_str(), ORIGIN_RESOURCES) {
                    self.stage = UntrashStage::Finished;
                    return UntrashAction::Finish(Err(foreign_entry_error(false, entry.manifest.origin.as_str())));
                }
                self.stage = UntrashStage::Record;
                self.name = entry.manifest.name;
                let rel = entry.manifest.original_rel_path.clone();
                self.original_rel = entry.manifest.original_rel_path;
                UntrashAction::FindDeletedRecord(rel)
            },
            (UntrashStage::Record, UntrashEvent::RecordFound(found)) => match found {
                None => {
                    self.stage = UntrashStage::Finished;
                    UntrashAction::Finish(Err(missing_record_error(self.name.as_str())))
                },
                Some(id) => {
                    self.stage = UntrashStage::Restore;
                    self.record_id = id;
                    UntrashAction::RestoreEntry(self.trash_id.clone())
                },
            },
            (UntrashStage::Restore, UntrashEvent::Restored(path)) => {
                let moved = restored_rel_path(store, path.as_str(), self.original_rel.as_str());
                self.stage = UntrashStage::Undelete;
                self.restored_path = path;
                UntrashAction::Undelete(self.record_id.clone(), moved)
            },
            (UntrashStage::Undelete, UntrashEvent::Undeleted) => {
                self.stage = UntrashStage::Reload;
                UntrashAction::LoadRecord(self.record_id.clone())
            },
            (UntrashStage::Reload, UntrashEvent::RecordLoaded(r)) => {
                self.stage = UntrashStage::Finished;
                UntrashAction::Finish(Ok(r))
            },
            _ => UntrashAction::Ignore,
        }
    }
}

/// A restore never revives a row before its payload is back, and a failed revival
/// always sends the payload back to where the trash keeps it: the row and the
/// payload never end up out of step.
pub proof fn law_untrash_keeps_row_and_payload_together(
    resources: Seq<char>,
    s: TrashRestore,
    e: UntrashEvent,
    next: TrashRestore,
    a: UntrashAction,
)
    requires
        untrash_step(resources, s, e, next, a),
    ensures
        a is Undelete ==> s.stage is Restore && e is Restored,
        s.stage is Undelete && e is Failed ==> a == UntrashAction::MoveBackToTrash(s.restored_path, s.original_rel),
        a is RestoreEntry ==> s.stage is Record,
{
}

// ---------------------------------------------------------------- purge

/// How far a purge has come.
#[derive(Debug, Clone, Copy)]
pub enum PurgeStage {
    Entry,
    Payload,
    FindRow,
    Row,
    Finished,
}

/// Purging a trash entry for good: only this module's entries; the payload goes
/// first (the step that cannot be undone), then the deleted row at its path, if
/// one is left (a row left over is harmless and goes with the next emptying).
#[derive(Debug)]
pub struct TrashPurge {
    pub trash_id: String,
    pub stage: PurgeStage,
    pub original_rel: String,
    /// The payload is gone.
    pub payload_purged: bool,
}

/// What the host brings back from the last action.
#[derive(Debug)]
pub enum PurgeEvent {
    /// The trash entry, read by id.
    EntryLoaded(TrashEntry),
    /// The entry and its payload are deleted.
    PayloadPurged,
    /// The id of the deleted row at the entry's original path, if one is left.
    RowFound(Option<String>),
    /// The row is deleted.
    RowPurged,
    /// The host's action failed.
    Failed(ServiceError),
}

/// What the host does next.
#[derive(Debug, PartialEq, Eq)]
pub enum PurgeAction {
    /// Read the trash entry with this id.
    LoadEntry(String),
    /// Delete the trash entry with this id and its payload.
    PurgeEntry(String),
    /// Find the deleted row at this payload path.
    FindDeletedRecord(String),
    /// Delete the (deleted) row with this id.
    PurgeRow(String),
    /// The purge is over.
    Finish(Result<(), ServiceError>),
    /// The event does not belong to the stage; nothing to do.
    Ignore,
}

/// One step of a purge.
pub open spec fn purge_step(s: TrashPurge, e: PurgeEvent, next: TrashPurge, a: PurgeAction) -> bool {
    let ignored = next == s && a == PurgeAction::Ignore;
    let finished = TrashPurge { stage: PurgeStage::Finished, ..s };
    match (s.stage, e) {
        (PurgeStage::Finished, _) => ignored,
        (_, PurgeEvent::Failed(x)) => next == finished && a == PurgeAction::Finish(Err(x)),
        (PurgeStage::Entry, PurgeEvent::EntryLoaded(entry)) => if entry.manifest.origin@ != ORIGIN_RESOURCES@ {
            &&& next == finished
            &&& a matches PurgeAction::Finish(Err(x)) && refusal_view(x) == (
                "purge"@,
                "该条目属于模块「"@ + entry.manifest.origin@ + "」，请在它的界面里处理（跨模块永久删除不是这里的事）"@,
            )
        } else {
            next == TrashPurge {
                stage: PurgeStage::Payload,
                original_rel: entry.manifest.original_rel_path,
                ..s
            } && a == PurgeAction::PurgeEntry(s.trash_id)
        },
        (PurgeStage::Payload, PurgeEvent::PayloadPurged) => next == TrashPurge {
            stage: PurgeStage::FindRow,
            payload_purged: true,
            ..s
        } && a == PurgeAction::FindDeletedRecord(s.original_rel),
        (PurgeStage::FindRow, PurgeEvent::RowFound(found)) => match found {
            None => next == finished && a == PurgeAction::Finish(Ok(())),
            Some(id) => next == TrashPurge { stage: PurgeStage::Row, ..s } && a == PurgeAction::PurgeRow(id),
        },
        (PurgeStage::Row, PurgeEvent::RowPurged) => next == finished && a == PurgeAction::Finish(Ok(())),
        _ => ignored,
    }
}

/// The payload-first order of a purge holds at every stage.
pub open spec fn purge_wf(s: TrashPurge) -> bool {
    (s.stage is FindRow || s.stage is Row) ==> s.payload_purged
}

impl TrashPurge {
    /// Purging the trash entry `trash_id`: first the entry is read.
    pub fn new(trash_id: &str) -> (r: (TrashPurge, PurgeAction))
        ensures
            r.0.trash_id@ == trash_id@,
            r.0.stage is Entry,
            !r.0.payload_purged,
            purge_wf(r.0),
            r.1 == PurgeAction::LoadEntry(r.0.trash_id),
    {
        let s = TrashPurge {
            trash_id: crate::text::owned(trash_id),
            stage: PurgeStage::Entry,
            original_rel: String::new(),
            payload_purged: false,
        };
        let a = PurgeAction::LoadEntry(s.trash_id.clone());
        (s, a)
    }

    /// One step of the purge (see [`purge_step`]).
    pub fn step(&mut self, event: PurgeEvent) -> (a: PurgeAction)
        ensures
            purge_step(*old(self), event, *final(self), a),
    {
        match (self.stage, event) {
            (PurgeStage::Finished, _) => PurgeAction::Ignore,
            (_, PurgeEvent::Failed(x)) => {
                self.stage = PurgeStage::Finished;
                PurgeAction::Finish(Err(x))
            },
            (PurgeStage::Entry, PurgeEvent::EntryLoaded(entry)) => {
                if !str_eq(entry.manifest.origin.as_str(), ORIGIN_RESOURCES) {
                    self.stage = PurgeStage::Finished;
                    return PurgeAction::Finish(Err(foreign_entry_error(true, entry.manifest.origin.as_str())));
                }
                self.stage = PurgeStage::Payload;
                self.original_rel = entry.manifest.original_rel_path;
                PurgeAction::PurgeEntry(self.trash_id.clone())
            },
            (PurgeStage::Payload, PurgeEvent::PayloadPurged) => {
                self.stage = PurgeStage::FindRow;
                self.payload_purged = true;
                PurgeAction::FindDeletedRecord(self.original_rel.clone())
            },
            (PurgeStage::FindRow, PurgeEvent::RowFound(found)) => match found {
                None => {
                    self.stage = PurgeStage::Finished;
                    PurgeAction::Finish(Ok(()))
                },
                Some(id) => {
                    self.stage = PurgeStage::Row;
                    PurgeAction::PurgeRow(id)
                },
            },
            (PurgeStage::Row, PurgeEvent::RowPurged) => {
                self.stage = PurgeStage::Finished;
                PurgeAction::Finish(Ok(()))
            },
            _ => PurgeAction::Ignore,
        }
    }
}

/// A purge removes a row only after its payload is gone, and never touches
/// another module's entry.
pub proof fn law_purge_payload_before_row(s: TrashPurge, e: PurgeEvent, next: TrashPurge, a: PurgeAction)
    requires
        purge_wf(s),
        purge_step(s, e, next, a),
    ensures
        purge_wf(next),
        a is PurgeRow ==> next.payload_purged,
        e matches PurgeEvent::EntryLoaded(entry) && entry.manifest.origin@ != ORIGIN_RESOURCES@ ==> !(a is PurgeEntry),
{
}

// ---------------------------------------------------------------- first archive

/// How far a first archive has come.
#[derive(Debug, Clone, Copy)]
pub enum ArchiveStage {
    Source,
    Hash,
    Target,
    MoveIn,
    Insert,
    Rollback,
    Finished,
}

/// A first archive of a file at `resources/<rel_path>`: the source must be a
/// regular file, its fingerprint and size are read before anything moves, a target
/// another archive holds is refused, the payload moves in, then the row is
/// written; a failed write moves the payload back out.
#[derive(Debug)]
pub struct ArchiveNew {
    pub rel_path: String,
    pub stage: ArchiveStage,
    pub content_hash: String,
    pub file_size: Option<i64>,
    /// The new row, once written.
    pub resource_id: String,
    pub version: i32,
    /// The payload is in `resources/`.
    pub moved_in: bool,
    /// The row is written.
    pub row_written: bool,
    /// The failure being rolled back.
    pub error: ServiceError,
}

/// What the host brings back from the last action.
#[derive(Debug)]
pub enum ArchiveEvent {
    /// Whether the source is a regular file.
    SourceChecked(bool),
    /// Fingerprint and size of the source.
    Hashed(String, Option<i64>),
    /// The archive already at the target path (name, id), if any.
    TargetFound(Option<(String, String)>),
    /// The payload is in `resources/`.
    MovedIn,
    /// The row is written: its id and version.
    Inserted(String, i32),
    /// The payload went back to the source (or the attempt failed; the host logs it).
    RolledBack,
    /// The host's action failed.
    Failed(ServiceError),
}

/// What the host does next.
#[derive(Debug, PartialEq, Eq)]
pub enum ArchiveAction {
    /// Check that the source is a regular file.
    CheckSource,
    /// Fingerprint and size the source.
    HashSource,
    /// Look up the live archive at this payload path.
    FindArchiveAt(String),
    /// Move the source into `resources/` at this path (read-only).
    MoveIn(String),
    /// Write the row: payload path, fingerprint, size (the rest from the request).
    InsertRow(String, String, Option<i64>),
    /// Move the payload at this path back to the source.
    MoveBackOut(String),
    /// The archive is over.
    Finish(Result<UpdateOutcome, ServiceError>),
    /// The event does not belong to the stage; nothing to do.
    Ignore,
}

/// One step of a first archive.
pub open spec fn archive_step(s: ArchiveNew, e: ArchiveEvent, next: ArchiveNew, a: ArchiveAction) -> bool {
    let ignored = next == s && a == ArchiveAction::Ignore;
    let finished = ArchiveNew { stage: ArchiveStage::Finished, ..s };
    match (s.stage, e) {
        (ArchiveStage::Finished, _) => ignored,
        (ArchiveStage::Rollback, ArchiveEvent::RolledBack) | (ArchiveStage::Rollback, ArchiveEvent::Failed(_)) => next
            == finished && a == ArchiveAction::Finish(Err(s.error)),
        (ArchiveStage::Insert, ArchiveEvent::Failed(x)) => next == ArchiveNew {
            stage: ArchiveStage::Rollback,
            error: x,
            ..s
        } && a == ArchiveAction::MoveBackOut(s.rel_path),
        (_, ArchiveEvent::Failed(x)) => next == finished && a == ArchiveAction::Finish(Err(x)),
        (ArchiveStage::Source, ArchiveEvent::SourceChecked(is_file)) => if is_file {
            next == ArchiveNew { stage: ArchiveStage::Hash, ..s } && a == ArchiveAction::HashSource
        } else {
            next == finished && (a matches ArchiveAction::Finish(Err(x)) && refusal_view(x) == (
                "archive"@,
                "源文件不存在或不是普通文件"@,
            ))
        },
        (ArchiveStage::Hash, ArchiveEvent::Hashed(h, size)) => next == ArchiveNew {
            stage: ArchiveStage::Target,
            content_hash: h,
            file_size: size,
            ..s
        } && a == ArchiveAction::FindArchiveAt(s.rel_path),
        (ArchiveStage::Target, ArchiveEvent::TargetFound(found)) => match found {
            Some((name, id)) => next == finished && (a matches ArchiveAction::Finish(Err(x)) && refusal_view(x) == (
                "archive"@,
                "目标路径已被存档「"@ + name@ + "」（id="@ + id@ + "）占用；请改名或先移除旧存档"@,
            )),
            None => next == ArchiveNew { stage: ArchiveStage::MoveIn, ..s } && a == ArchiveAction::MoveIn(s.rel_path),
        },
        (ArchiveStage::MoveIn, ArchiveEvent::MovedIn) => next == ArchiveNew {
            stage: ArchiveStage::Insert,
            moved_in: true,
            ..s
        } && a == ArchiveAction::InsertRow(s.rel_path, s.content_hash, s.file_size),
        (ArchiveStage::Insert, ArchiveEvent::Inserted(id, v)) => next == ArchiveNew {
            stage: ArchiveStage::Finished,
            resource_id: id,
            version: v,
            row_written: true,
            ..s
        } && a == ArchiveAction::Finish(
            Ok(
                UpdateOutcome {
                    resource_id: id,
                    version: v,
                    content_hash: s.content_hash,
                    file_rel_path: s.rel_path,
                    created_new_version: true,
                },
            ),
        ),
        _ => ignored,
    }
}

/// The payload-first order of a first archive: the row is written only with the
/// payload in place, and a rollback only follows a move in.
pub open spec fn archive_wf(s: ArchiveNew) -> bool {
    &&& (s.stage is Insert || s.stage is Rollback) ==> s.moved_in
    &&& s.row_written ==> s.moved_in
}

impl ArchiveNew {
    /// A first archive into `resources/<rel_path>`: first the source is checked.
    pub fn new(rel_path: &str) -> (r: (ArchiveNew, ArchiveAction))
        ensures
            r.0.rel_path@ == rel_path@,
            r.0.stage is Source,
            !r.0.moved_in && !r.0.row_written,
            archive_wf(r.0),
            r.1 == ArchiveAction::CheckSource,
    {
        let s = ArchiveNew {
            rel_path: crate::text::owned(rel_path),
            stage: ArchiveStage::Source,
            content_hash: String::new(),
            file_size: None,
            resource_id: String::new(),
            version: 0,
            moved_in: false,
            row_written: false,
            error: ServiceError { operation: String::new(), reason: String::new() },
        };
        (s, ArchiveAction::CheckSource)
    }

    /// One step of the archive (see [`archive_step`]).
    pub fn step(&mut self, event: ArchiveEvent) -> (a: ArchiveAction)
        ensures
            archive_step(*old(self), event, *final(self), a),
    {
        match (self.stage, event) {
            (ArchiveStage::Finished, _) => ArchiveAction::Ignore,
            (ArchiveStage::Rollback, ArchiveEvent::RolledBack) | (ArchiveStage::Rollback, ArchiveEvent::Failed(_)) => {
                self.stage = ArchiveStage::Finished;
                ArchiveAction::Finish(
                    Err(ServiceError { operation: self.error.operation.clone(), reason: self.error.reason.clone() }),
                )
            },
            (ArchiveStage::Insert, ArchiveEvent::Failed(x)) => {
                self.stage = ArchiveStage::Rollback;
                self.error = x;
                ArchiveAction::MoveBackOut(self.rel_path.clone())
            },
            (_, ArchiveEvent::Failed(x)) => {
                self.stage = ArchiveStage::Finished;
                ArchiveAction::Finish(Err(x))
            },
            (ArchiveStage::Source, ArchiveEvent::SourceChecked(is_file)) => match archive_source_guard(is_file) {
                Ok(()) => {
                    self.stage = ArchiveStage::Hash;
                    ArchiveAction::HashSource
                },
                Err(x) => {
                    self.stage = ArchiveStage::Finished;
                    ArchiveAction::Finish(Err(x))
                },
            },
            (ArchiveStage::Hash, ArchiveEvent::Hashed(h, size)) => {
                self.stage = ArchiveStage::Target;
                self.content_hash = h;
                self.file_size = size;
                ArchiveAction::FindArchiveAt(self.rel_path.clone())
            },
            (ArchiveStage::Target, ArchiveEvent::TargetFound(found)) => match found {
                Some((name, id)) => {
                    self.stage = ArchiveStage::Finished;
                    ArchiveAction::Finish(Err(occupied_target_error(name.as_str(), id.as_str())))
                },
                None => {
                    self.stage = ArchiveStage::MoveIn;
                    ArchiveAction::MoveIn(self.rel_path.clone())
                },
            },
            (ArchiveStage::MoveIn, ArchiveEvent::MovedIn) => {
                self.stage = ArchiveStage::Insert;
                self.moved_in = true;
                ArchiveAction::InsertRow(self.rel_path.clone(), self.content_hash.clone(), self.file_size)
            },
            (ArchiveStage::Insert, ArchiveEvent::Inserted(id, v)) => {
                self.stage = ArchiveStage::Finished;
                self.resource_id = id;
                self.version = v;
                self.row_written = true;
                ArchiveAction::Finish(
                    Ok(
                        UpdateOutcome {
                            resource_id: self.resource_id.clone(),
                            version: v,
                            content_hash: self.content_hash.clone(),
                            file_rel_path: self.rel_path.clone(),
                            created_new_version: true,
                        },
                    ),
                )
            },
            _ => ArchiveAction::Ignore,
        }
    }
}

/// A first archive moves the payload only onto a target no archive holds, writes
/// the row only with the payload in place, and a failed write always sends the
/// payload back: never a payload gone with no row for it.
pub proof fn law_archive_payload_before_row(s: ArchiveNew, e: ArchiveEvent, next: ArchiveNew, a: ArchiveAction)
    requires
        archive_wf(s),
        archive_step(s, e, next, a),
    ensures
        archive_wf(next),
        a is MoveIn ==> s.stage is Target && e == ArchiveEvent::TargetFound(None),
        a is InsertRow ==> next.moved_in,
        s.stage is Insert && e is Failed ==> a == ArchiveAction::MoveBackOut(s.rel_path),
        a matches ArchiveAction::Finish(Ok(_)) ==> next.row_written && next.moved_in,
{
}

// ---------------------------------------------------------------- undo

/// How far an undo has come.
#[derive(Debug, Clone, Copy)]
pub enum UndoStage {
    Load,
    MoveOut,
    DeleteRow,
    Rollback,
    Finished,
}

/// Undoing the archive that just happened: only a file archive still at its first
/// version, only onto a free origin; the payload moves back out first, then the row
/// is dropped; a failed drop moves the payload in again.
#[derive(Debug)]
pub struct ArchiveUndoFlow {
    pub resource_id: String,
    /// Where the source was before it was archived.
    pub origin: String,
    pub stage: UndoStage,
    pub rel_path: String,
    /// The payload is back at the origin.
    pub moved_out: bool,
    /// The failure being rolled back.
    pub error: ServiceError,
}

/// What the host brings back from the last action.
#[derive(Debug)]
pub enum UndoEvent {
    /// The record, read by id, and whether something is at the origin now.
    Loaded(AnalyticsResource, bool),
    /// The payload is back at the origin.
    MovedOut,
    /// The row is dropped.
    RowDeleted,
    /// The payload went back into `resources/` (or the attempt failed; the host logs it).
    RolledBack,
    /// The host's action failed.
    Failed(ServiceError),
}

/// What the host does next.
#[derive(Debug, PartialEq, Eq)]
pub enum UndoAction {
    /// Read the record with this id (and look at the origin).
    LoadRecord(String),
    /// Move the payload at this path out to the origin (writable again).
    MoveOut(String, String),
    /// Drop the row with this id.
    DeleteRow(String),
    /// Move the file at the origin back into `resources/` at this path.
    MoveBackIn(String, String),
    /// The undo is over.
    Finish(Result<(), ServiceError>),
    /// The event does not belong to the stage; nothing to do.
    Ignore,
}

/// One step of an undo.
pub open spec fn undo_step(s: ArchiveUndoFlow, e: UndoEvent, next: ArchiveUndoFlow, a: UndoAction) -> bool {
    let ignored = next == s && a == UndoAction::Ignore;
    let finished = ArchiveUndoFlow { stage: UndoStage::Finished, ..s };
    match (s.stage, e) {
        (UndoStage::Finished, _) => ignored,
        (UndoStage::Rollback, UndoEvent::RolledBack) | (UndoStage::Rollback, UndoEvent::Failed(_)) => next == finished
            && a == UndoAction::Finish(Err(s.error)),
        (UndoStage::DeleteRow, UndoEvent::Failed(x)) => next == ArchiveUndoFlow {
            stage: UndoStage::Rollback,
            error: x,
            ..s
        } && a == UndoAction::MoveBackIn(s.origin, s.rel_path),
        (_, UndoEvent::Failed(x)) => next == finished && a == UndoAction::Finish(Err(x)),
        (UndoStage::Load, UndoEvent::Loaded(r, occupied)) => match undo_source_of(r, occupied, s.origin@) {
            Err(reason) => next == finished && (a matches UndoAction::Finish(Err(x)) && refusal_view(x) == (
                "undo"@,
                reason,
            )),
            Ok(rel) => {
                &&& next == ArchiveUndoFlow { stage: UndoStage::MoveOut, rel_path: next.rel_path, ..s }
                &&& next.rel_path@ == rel
                &&& a == UndoAction::MoveOut(next.rel_path, s.origin)
            },
        },
        (UndoStage::MoveOut, UndoEvent::MovedOut) => next == ArchiveUndoFlow {
            stage: UndoStage::DeleteRow,
            moved_out: true,
            ..s
        } && a == UndoAction::DeleteRow(s.resource_id),
        (UndoStage::DeleteRow, UndoEvent::RowDeleted) => next == finished && a == UndoAction::Finish(Ok(())),
        _ => ignored,
    }
}

impl ArchiveUndoFlow {
    /// Undoing the archive `resource_id` whose source was at `origin`: first the
    /// record is read.
    pub fn new(resource_id: &str, origin: &str) -> (r: (ArchiveUndoFlow, UndoAction))
        ensures
            r.0.resource_id@ == resource_id@,
            r.0.origin@ == origin@,
            r.0.stage is Load,
            !r.0.moved_out,
            r.1 == UndoAction::LoadRecord(r.0.resource_id),
    {
        let s = ArchiveUndoFlow {
            resource_id: crate::text::owned(resource_id),
            origin: crate::text::owned(origin),
            stage: UndoStage::Load,
            rel_path: String::new(),
            moved_out: false,
            error: ServiceError { operation: String::new(), reason: String::new() },
        };
        let a = UndoAction::LoadRecord(s.resource_id.clone());
        (s, a)
    }

    /// One step of the undo (see [`undo_step`]).
    pub fn step(&mut self, event: UndoEvent) -> (a: UndoAction)
        ensures
            undo_step(*old(self), event, *final(self), a),
    {
        match (self.stage, event) {
            (UndoStage::Finished, _) => UndoAction::Ignore,
            (UndoStage::Rollback, UndoEvent::RolledBack) | (UndoStage::Rollback, UndoEvent::Failed(_)) => {
                self.stage = UndoStage::Finished;
                UndoAction::Finish(
                    Err(ServiceError { operation: self.error.operation.clone(), reason: self.error.reason.clone() }),
                )
            },
            (UndoStage::DeleteRow, UndoEvent::Failed(x)) => {
                self.stage = UndoStage::Rollback;
                self.error = x;
                UndoAction::MoveBackIn(self.origin.clone(), self.rel_path.clone())
            },
            (_, UndoEvent::Failed(x)) => {
                self.stage = UndoStage::Finished;
                UndoAction::Finish(Err(x))
            },
            (UndoStage::Load, UndoEvent::Loaded(r, occupied)) => match undo_source(&r, occupied, self.origin.as_str()) {
                Err(x) => {
                    self.stage = UndoStage::Finished;
                    UndoAction::Finish(Err(x))
                },
                Ok(rel) => {
                    self.stage = UndoStage::MoveOut;
                    self.rel_path = rel;
                    UndoAction::MoveOut(self.rel_path.clone(), self.origin.clone())
                },
            },
            (UndoStage::MoveOut, UndoEvent::MovedOut) => {
                self.stage = UndoStage::DeleteRow;
                self.moved_out = true;
                UndoAction::DeleteRow(self.resource_id.clone())
            },
            (UndoStage::DeleteRow, UndoEvent::RowDeleted) => {
                self.stage = UndoStage::Finished;
                UndoAction::Finish(Ok(()))
            },
            _ => UndoAction::Ignore,
        }
    }
}

/// An undo drops the row only once the payload is back at the origin, and a failed
/// drop always moves it in again: never a file gone with its row.
pub proof fn law_undo_payload_before_row(s: ArchiveUndoFlow, e: UndoEvent, next: ArchiveUndoFlow, a: UndoAction)
    requires
        undo_step(s, e, next, a),
        s.stage is DeleteRow ==> s.moved_out,
    ensures
        next.stage is DeleteRow ==> next.moved_out,
        a is DeleteRow ==> next.moved_out,
        s.stage is DeleteRow && e is Failed ==> a == UndoAction::MoveBackIn(s.origin, s.rel_path),
        a is MoveOut ==> s.stage is Load && e is Loaded,
{
}

} // verus!
