//! Decisions of the archive service: the retention in force, and the guards and
//! refusals of archiving, re-archiving, checkout, restore, trash and undo. The
//! moves and writes between them are the host's.

use vstd::prelude::*;

use crate::model::{kind_of_db_word, ArchiveKind, KeepVersions, ORIGIN_RESOURCES};
use crate::models::{AnalyticsResource, TrashEntry};
use crate::payload::{components, components_exec, path_starts_with, slash_all, slashes, PayloadStore};
use crate::resource_view::opt_view;
use crate::text::{dec_int, push_dec_i64, push_str, str_eq};

verus! {

/// Content copies kept by default (setting `resources.keep_versions`).
pub const DEFAULT_KEEP_VERSIONS: u32 = 5;

/// The retention in force: the request's override, else the configured one.
pub fn effective_keep(configured: KeepVersions, request_override: Option<KeepVersions>) -> (k: KeepVersions)
    ensures
        k == match request_override {
            Some(o) => o,
            None => configured,
        },
{
    match request_override {
        Some(o) => o,
        None => configured,
    }
}

/// A refused operation of the archive store: which operation, and why.
#[derive(Debug, Clone, PartialEq, Eq)]
pub struct ServiceError {
    pub operation: String,
    pub reason: String,
}

/// The view of a refusal.
pub open spec fn refusal_view(e: ServiceError) -> (Seq<char>, Seq<char>) {
    (e.operation@, e.reason@)
}

/// A refusal from its parts.
fn refusal(operation: &str, reason: String) -> (e: ServiceError)
    ensures
        e.operation@ == operation@,
        e.reason@ == reason@,
{
    ServiceError { operation: crate::text::owned(operation), reason }
}

/// A text of three parts.
fn text3(a: &str, b: &str, c: &str) -> (s: String)
    ensures
        s@ == a@ + b@ + c@,
{
    let mut out = String::new();
    push_str(&mut out, a);
    push_str(&mut out, b);
    push_str(&mut out, c);
    out
}

/// Archiving needs a regular source file.
pub fn archive_source_guard(source_is_file: bool) -> (r: Result<(), ServiceError>)
    ensures
        match r {
            Ok(()) => source_is_file,
            Err(e) => !source_is_file && refusal_view(e) == ("archive"@, "源文件不存在或不是普通文件"@),
        },
{
    if source_is_file {
        Ok(())
    } else {
        Err(refusal("archive", crate::text::owned("源文件不存在或不是普通文件")))
    }
}

/// The refusal of a first archive whose target another archive holds.
pub fn occupied_target_error(existing_name: &str, existing_id: &str) -> (e: ServiceError)
    ensures
        refusal_view(e) == ("archive"@, "目标路径已被存档「"@ + existing_name@ + "」（id="@ + existing_id@
            + "）占用；请改名或先移除旧存档"@),
{
    let mut reason = text3("目标路径已被存档「", existing_name, "」（id=");
    push_str(&mut reason, existing_id);
    push_str(&mut reason, "）占用；请改名或先移除旧存档");
    refusal("archive", reason)
}

/// Where re-archived or restored content goes, and whether it makes a new version.
#[derive(Debug, Clone, PartialEq, Eq)]
pub struct ContentPlan {
    /// The payload path of the archive.
    pub rel_path: String,
    /// `false`: the content equals the current one, nothing is written.
    pub new_version: bool,
}

/// The current fingerprint, empty when the row has none.
pub open spec fn current_hash(current: AnalyticsResource) -> Seq<char> {
    match current.content_hash {
        Some(h) => h@,
        None => Seq::empty(),
    }
}

/// What a content update of `operation` does: refused for a deleted archive or one
/// without a payload path; otherwise a new version unless the fingerprint is the
/// current one.
pub open spec fn content_plan_of(
    current: AnalyticsResource,
    content_hash: Seq<char>,
    deleted_reason: Seq<char>,
) -> Result<(Seq<char>, bool), Seq<char>> {
    if current.deleted_at is Some {
        Err(deleted_reason)
    } else {
        match current.file_rel_path {
            None => Err("该存档没有本体路径（非文件型或旧行）"@),
            Some(rel) => Ok((rel@, current_hash(current) != content_hash)),
        }
    }
}

/// The view of a plan or refusal.
pub open spec fn plan_view(r: Result<ContentPlan, ServiceError>) -> Result<(Seq<char>, bool), Seq<char>> {
    match r {
        Ok(p) => Ok((p.rel_path@, p.new_version)),
        Err(e) => Err(e.reason@),
    }
}

/// The shared guard of re-archiving and restoring.
fn content_plan(
    current: &AnalyticsResource,
    content_hash: &str,
    operation: &str,
    deleted_reason: &str,
) -> (r: Result<ContentPlan, ServiceError>)
    ensures
        plan_view(r) == content_plan_of(*current, content_hash@, deleted_reason@),
        r matches Err(e) ==> e.operation@ == operation@,
{
    if current.deleted_at.is_some() {
        return Err(refusal(operation, crate::text::owned(deleted_reason)));
    }
    match &current.file_rel_path {
        None => Err(refusal(operation, crate::text::owned("该存档没有本体路径（非文件型或旧行）"))),
        Some(rel) => {
            let same = match &current.content_hash {
                Some(h) => str_eq(h.as_str(), content_hash),
                None => {
                    let e = content_hash.is_empty();
                    assert(e == (content_hash@ == Seq::<char>::empty())) by {
                        if content_hash@.len() == 0 {
                            assert(content_hash@ =~= Seq::<char>::empty());
                        }
                    };
                    e
                },
            };
            Ok(ContentPlan { rel_path: rel.clone(), new_version: !same })
        },
    }
}

/// Re-archiving: refused for a deleted archive or one without a payload path; the
/// same fingerprint changes nothing (no version, payload untouched); a new one
/// makes the next version.
pub fn rearchive_plan(current: &AnalyticsResource, content_hash: &str) -> (r: Result<ContentPlan, ServiceError>)
    ensures
        plan_view(r) == content_plan_of(*current, content_hash@, "存档已删除，无法再归档"@),
        r matches Err(e) ==> e.operation@ == "re_archive"@,
{
    content_plan(current, content_hash, "re_archive", "存档已删除，无法再归档")
}

/// Restoring a version whose copy has the fingerprint `copy_hash`: the same guards
/// as re-archiving; restoring the current content changes nothing.
pub fn restore_plan(current: &AnalyticsResource, copy_hash: &str) -> (r: Result<ContentPlan, ServiceError>)
    ensures
        plan_view(r) == content_plan_of(*current, copy_hash@, "存档已删除，无法还原"@),
        r matches Err(e) ==> e.operation@ == "restore"@,
{
    content_plan(current, copy_hash, "restore", "存档已删除，无法还原")
}

/// `v{version}` followed by `rest`.
pub open spec fn version_text(version: i32, rest: Seq<char>) -> Seq<char> {
    "v"@ + dec_int(version as int) + rest
}

/// `v{version}` followed by `rest`.
fn version_reason(version: i32, rest: &str) -> (s: String)
    ensures
        s@ == version_text(version, rest@),
{
    let mut s = crate::text::owned("v");
    push_dec_i64(&mut s, version as i64);
    push_str(&mut s, rest);
    s
}

/// The refusal when a version has no content copy (restore or checkout).
pub fn missing_copy_error(operation: &str, version: i32, restoring: bool) -> (e: ServiceError)
    ensures
        e.operation@ == operation@,
        e.reason@ == version_text(
            version,
            if restoring {
                " 没有内容副本（可能已被保留策略裁剪），无法还原"@
            } else {
                " 没有内容副本（可能已被保留策略裁剪），无法取回"@
            },
        ),
{
    let rest = if restoring {
        " 没有内容副本（可能已被保留策略裁剪），无法还原"
    } else {
        " 没有内容副本（可能已被保留策略裁剪），无法取回"
    };
    refusal(operation, version_reason(version, rest))
}

/// The refusal when a copy disappears between the lookup and the write-back.
pub fn vanished_copy_error(version: i32) -> (e: ServiceError)
    ensures
        refusal_view(e) == ("restore"@, version_text(version, " 的内容副本在写回前消失，还原中止"@)),
{
    refusal("restore", version_reason(version, " 的内容副本在写回前消失，还原中止"))
}

/// A checkout target inside `resources/` is refused (it would write a payload).
pub fn checkout_target_guard(store: &PayloadStore, dest_path: &str, operation: &str) -> (r: Result<(), ServiceError>)
    ensures
        match r {
            Ok(()) => !path_starts_with(dest_path@, store.resources_view()),
            Err(e) => path_starts_with(dest_path@, store.resources_view()) && refusal_view(e) == (
                operation@,
                "取回目标不能位于 resources/ 内（那是归档本体目录）"@,
            ),
        },
{
    match store.ensure_writable(dest_path) {
        Ok(()) => Ok(()),
        Err(_) => Err(refusal(operation, crate::text::owned("取回目标不能位于 resources/ 内（那是归档本体目录）"))),
    }
}

/// The payload to copy out: refused for an archive without a payload path.
pub fn checkout_source(resource: &AnalyticsResource) -> (r: Result<String, ServiceError>)
    ensures
        match r {
            Ok(rel) => resource.file_rel_path matches Some(p) && p@ == rel@,
            Err(e) => resource.file_rel_path is None && refusal_view(e) == (
                "checkout"@,
                "该存档没有本体（非文件型或旧行）"@,
            ),
        },
{
    match &resource.file_rel_path {
        Some(rel) => Ok(rel.clone()),
        None => Err(refusal("checkout", crate::text::owned("该存档没有本体（非文件型或旧行）"))),
    }
}

/// What moving an archive to the trash refuses first: an archive already there,
/// or one without a payload path; otherwise its payload path.
pub open spec fn trash_source_of(resource: AnalyticsResource) -> Result<Seq<char>, Seq<char>> {
    if resource.deleted_at is Some {
        Err("「"@ + resource.name@ + "」已经在回收站里"@)
    } else {
        match resource.file_rel_path {
            None => Err("「"@ + resource.name@ + "」没有本体路径，不能移入回收站"@),
            Some(rel) => Ok(rel@),
        }
    }
}

/// The payload path of an archive about to move to the trash.
pub fn trash_source(resource: &AnalyticsResource) -> (r: Result<String, ServiceError>)
    ensures
        match r {
            Ok(rel) => trash_source_of(*resource) == Ok::<Seq<char>, Seq<char>>(rel@),
            Err(e) => e.operation@ == "trash"@ && trash_source_of(*resource) == Err::<Seq<char>, Seq<char>>(
                e.reason@,
            ),
        },
{
    if resource.deleted_at.is_some() {
        return Err(refusal("trash", text3("「", resource.name.as_str(), "」已经在回收站里")));
    }
    match &resource.file_rel_path {
        None => Err(refusal("trash", text3("「", resource.name.as_str(), "」没有本体路径，不能移入回收站"))),
        Some(rel) => Ok(rel.clone()),
    }
}

/// The refusal when the payload to trash is not there (repair the index first).
pub fn trash_missing_payload_error(name: &str, rel_path: &str) -> (e: ServiceError)
    ensures
        refusal_view(e) == ("trash"@, "「"@ + name@ + "」的本体不在（resources/"@ + rel_path@ + "）：先走索引修复处理"@),
{
    let mut reason = text3("「", name, "」的本体不在（resources/");
    push_str(&mut reason, rel_path);
    push_str(&mut reason, "）：先走索引修复处理");
    refusal("trash", reason)
}

/// Restoring or purging another module's trash entry is refused.
pub fn foreign_entry_error(purging: bool, origin: &str) -> (e: ServiceError)
    ensures
        refusal_view(e) == if purging {
            ("purge"@, "该条目属于模块「"@ + origin@ + "」，请在它的界面里处理（跨模块永久删除不是这里的事）"@)
        } else {
            ("untrash"@, "该条目属于模块「"@ + origin@ + "」，请在它的界面里还原"@)
        },
{
    if purging {
        refusal("purge", text3("该条目属于模块「", origin, "」，请在它的界面里处理（跨模块永久删除不是这里的事）"))
    } else {
        refusal("untrash", text3("该条目属于模块「", origin, "」，请在它的界面里还原"))
    }
}

/// The refusal when a trash entry has no registry row left to revive.
pub fn missing_record_error(name: &str) -> (e: ServiceError)
    ensures
        refusal_view(e) == ("untrash"@, "找不到「"@ + name@ + "」的登记记录（可能已被索引修复清掉）：请用「重建索引」补登"@),
{
    refusal("untrash", text3("找不到「", name, "」的登记记录（可能已被索引修复清掉）：请用「重建索引」补登"))
}

/// The entry is this module's and was at `rel_path`.
pub open spec fn entry_for(e: TrashEntry, rel_path: Seq<char>) -> bool {
    e.manifest.origin@ == ORIGIN_RESOURCES@ && e.manifest.original_rel_path@ == rel_path
}

/// The first of this module's trash entries that was at `rel_path`; when there is
/// none, the refusal that says the payload cannot be recovered.
pub fn trash_entry_for(entries: &[TrashEntry], rel_path: &str) -> (r: Result<usize, ServiceError>)
    ensures
        match r {
            Ok(i) => i < entries@.len() && entry_for(entries@[i as int], rel_path@) && forall|j: int|
                0 <= j < i ==> !entry_for(#[trigger] entries@[j], rel_path@),
            Err(e) => (forall|j: int| 0 <= j < entries@.len() ==> !entry_for(#[trigger] entries@[j], rel_path@))
                && refusal_view(e) == (
                "untrash"@,
                "回收站里没有 resources/"@ + rel_path@ + " 的条目：本体已不可恢复，只能删掉这条登记记录"@,
            ),
        },
{
    let mut i: usize = 0;
    while i < entries.len()
        invariant
            i <= entries.len(),
            forall|j: int| 0 <= j < i ==> !entry_for(#[trigger] entries@[j], rel_path@),
        decreases entries.len() - i,
    {
        let m = &entries[i].manifest;
        if str_eq(m.origin.as_str(), ORIGIN_RESOURCES) && str_eq(m.original_rel_path.as_str(), rel_path) {
            return Ok(i);
        }
        i += 1;
    }
    Err(refusal("untrash", text3("回收站里没有 resources/", rel_path, " 的条目：本体已不可恢复，只能删掉这条登记记录")))
}

/// The ids of this module's trash entries, in order (what emptying the trash purges).
pub fn own_trash_ids(entries: &[TrashEntry]) -> (r: Vec<String>)
    ensures
        crate::seqs::views(r@) == entries@.filter(|e: TrashEntry| e.manifest.origin@ == ORIGIN_RESOURCES@).map_values(
            |e: TrashEntry| e.manifest.id@,
        ),
{
    let ghost pred = |e: TrashEntry| e.manifest.origin@ == ORIGIN_RESOURCES@;
    let mut out: Vec<String> = Vec::new();
    let mut i: usize = 0;
    while i < entries.len()
        invariant
            i <= entries.len(),
            pred == (|e: TrashEntry| e.manifest.origin@ == ORIGIN_RESOURCES@),
            crate::seqs::views(out@) == entries@.take(i as int).filter(pred).map_values(|e: TrashEntry| e.manifest.id@),
        decreases entries.len() - i,
    {
        assert(entries@.take(i + 1).drop_last() == entries@.take(i as int));
        assert(entries@.take(i + 1).last() == entries@[i as int]);
        assert(entries@.take(i + 1).filter(pred) == if pred(entries@[i as int]) {
            entries@.take(i as int).filter(pred).push(entries@[i as int])
        } else {
            entries@.take(i as int).filter(pred)
        }) by {
            reveal(Seq::filter);
        }
        if str_eq(entries[i].manifest.origin.as_str(), ORIGIN_RESOURCES) {
            let ghost prev = out@;
            out.push(entries[i].manifest.id.clone());
            assert(crate::seqs::views(out@) == crate::seqs::views(prev).push(entries@[i as int].manifest.id@));
        }
        i += 1;
    }
    assert(entries@.take(entries.len() as int) == entries@);
    out
}

/// What undoing an archive refuses: anything but a file, an archive without a
/// payload path, one already re-archived, or an origin now occupied; otherwise the
/// payload path to move back.
pub open spec fn undo_source_of(resource: AnalyticsResource, origin_occupied: bool, origin: Seq<char>) -> Result<
    Seq<char>,
    Seq<char>,
> {
    if kind_of_db_word(resource.kind@) != ArchiveKind::File {
        Err("只有文件型存档支持撤销"@)
    } else {
        match resource.file_rel_path {
            None => Err("该存档没有登记本体路径，无法撤销"@),
            Some(rel) => if resource.version > 1 {
                Err("已有新版本（v"@ + dec_int(resource.version as int) + "），撤销窗口已过；如需回退请走版本历史"@)
            } else if origin_occupied {
                Err("原位置已有文件（"@ + origin + "）：撤销要精确还原，请先移走它"@)
            } else {
                Ok(rel@)
            },
        }
    }
}

/// The payload path to move back when undoing an archive (only the archive that
/// just happened can be undone, and only onto a free origin).
pub fn undo_source(resource: &AnalyticsResource, origin_occupied: bool, origin: &str) -> (r: Result<String, ServiceError>)
    ensures
        match r {
            Ok(rel) => undo_source_of(*resource, origin_occupied, origin@) == Ok::<Seq<char>, Seq<char>>(rel@),
            Err(e) => e.operation@ == "undo"@ && undo_source_of(*resource, origin_occupied, origin@) == Err::<
                Seq<char>,
                Seq<char>,
            >(e.reason@),
        },
{
    if ArchiveKind::from_db_str(resource.kind.as_str()) != ArchiveKind::File {
        return Err(refusal("undo", crate::text::owned("只有文件型存档支持撤销")));
    }
    match &resource.file_rel_path {
        None => Err(refusal("undo", crate::text::owned("该存档没有登记本体路径，无法撤销"))),
        Some(rel) => {
            if resource.version > 1 {
                let mut reason = crate::text::owned("已有新版本（v");
                push_dec_i64(&mut reason, resource.version as i64);
                push_str(&mut reason, "），撤销窗口已过；如需回退请走版本历史");
                Err(refusal("undo", reason))
            } else if origin_occupied {
                Err(refusal("undo", text3("原位置已有文件（", origin, "）：撤销要精确还原，请先移走它")))
            } else {
                Ok(rel.clone())
            }
        },
    }
}

/// A failure in a batch move to the trash: the first entry failing means nothing
/// moved and the error stands as it is (`None`); a later one says how many did
/// move (they stay in the trash).
pub fn batch_trash_failure(error: &str, moved: usize) -> (r: Option<ServiceError>)
    ensures
        moved == 0 <==> r is None,
        r matches Some(e) ==> e.operation@ == "trash"@ && e.reason@ == error@ + "；本批已移入 "@ + crate::text::dec(
            moved as nat,
        ) + " 项，其余未处理"@,
{
    if moved == 0 {
        return None;
    }
    let mut reason = crate::text::owned(error);
    push_str(&mut reason, "；本批已移入 ");
    crate::text::push_dec(&mut reason, moved as u64);
    push_str(&mut reason, " 项，其余未处理");
    Some(refusal("trash", reason))
}

/// The part of `path` under `base`, components joined by `/` (`Path::strip_prefix`).
pub open spec fn rel_under(base: Seq<char>, path: Seq<char>) -> Option<Seq<char>> {
    if path_starts_with(path, base) {
        Some(crate::text::join(components(path).skip(components(base).len() as int), "/"@))
    } else {
        None
    }
}

/// The payload path a restore moved the payload to, when the trash had to rename
/// it around a taken name (so the registry row follows); `None` when it is back
/// where it was.
pub open spec fn moved_rel_path(resources: Seq<char>, restored: Seq<char>, original: Seq<char>) -> Option<Seq<char>> {
    match rel_under(resources, restored) {
        Some(r) => if slashes(r) != original {
            Some(slashes(r))
        } else {
            None
        },
        None => None,
    }
}

/// The new payload path of a restored archive, when it differs from the original.
pub fn restored_rel_path(store: &PayloadStore, restored_path: &str, original_rel: &str) -> (r: Option<String>)
    ensures
        opt_view(r) == moved_rel_path(store.resources_view(), restored_path@, original_rel@),
{
    let dir = store.resources_dir();
    let a = components_exec(restored_path);
    let b = components_exec(dir.as_str());
    let ghost av = a@.map_values(|p: Vec<char>| p@);
    let ghost bv = b@.map_values(|p: Vec<char>| p@);
    if b.len() > a.len() {
        return None;
    }
    let mut k: usize = 0;
    while k < b.len()
        invariant
            k <= b.len() <= a.len(),
            av == a@.map_values(|p: Vec<char>| p@),
            bv == b@.map_values(|p: Vec<char>| p@),
            av == components(restored_path@),
            bv == components(store.resources_view()),
            forall|j: int| 0 <= j < k ==> av[j] == bv[j],
        decreases b.len() - k,
    {
        if !crate::text::chars_eq(&a[k], &b[k]) {
            assert(av.subrange(0, bv.len() as int)[k as int] != bv[k as int]);
            return None;
        }
        k += 1;
    }
    assert(av.subrange(0, bv.len() as int) =~= bv);
    let mut rest: Vec<String> = Vec::new();
    let mut i: usize = b.len();
    while i < a.len()
        invariant
            b.len() <= i <= a.len(),
            av == a@.map_values(|p: Vec<char>| p@),
            crate::seqs::views(rest@) == av.subrange(b.len() as int, i as int),
        decreases a.len() - i,
    {
        let ghost prev = rest@;
        rest.push(crate::text::string_of(&a[i]));
        assert(crate::seqs::views(rest@) == crate::seqs::views(prev).push(av[i as int]));
        assert(av.subrange(b.len() as int, i + 1) == av.subrange(b.len() as int, i as int).push(av[i as int]));
        i += 1;
    }
    assert(av.subrange(b.len() as int, a.len() as int) == av.skip(bv.len() as int));
    let joined = crate::text::join_strings(&rest, "/");
    let normalized = slash_all(joined.as_str());
    if str_eq(normalized.as_str(), original_rel) {
        None
    } else {
        Some(normalized)
    }
}

/// Registering an untracked file needs the file, and a payload no archive holds yet.
pub fn adopt_guard(payload_is_file: bool, existing_name: Option<&str>) -> (r: Result<(), ServiceError>)
    ensures
        match r {
            Ok(()) => payload_is_file && existing_name is None,
            Err(e) => e.operation@ == "adopt_file"@ && if !payload_is_file {
                e.reason@ == "该路径下没有本体文件"@
            } else {
                existing_name matches Some(n) && e.reason@ == "该本体已被存档「"@ + n@ + "」登记"@
            },
        },
{
    if !payload_is_file {
        return Err(refusal("adopt_file", crate::text::owned("该路径下没有本体文件")));
    }
    match existing_name {
        Some(n) => Err(refusal("adopt_file", text3("该本体已被存档「", n, "」登记"))),
        None => Ok(()),
    }
}

/// The name of a registered file: the one given, else the stem of the resolved
/// payload's file name, else the relative path.
pub open spec fn adopted_name_of(resolved: Seq<char>, name: Option<Seq<char>>, rel_path: Seq<char>) -> Seq<char> {
    match name {
        Some(n) => n,
        None => {
            let f = crate::present::file_name_text(resolved);
            if f.len() == 0 {
                rel_path
            } else {
                crate::payload::split_stem(f).0
            }
        },
    }
}

/// The display name of a registered file.
pub fn adopted_name(resolved: &str, name: Option<&str>, rel_path: &str) -> (s: String)
    ensures
        s@ == adopted_name_of(resolved@, match name { Some(n) => Some(n@), None => None }, rel_path@),
{
    match name {
        Some(n) => crate::text::owned(n),
        None => {
            let f = crate::present::file_name_of(resolved);
            if f.as_str().is_empty() {
                crate::text::owned(rel_path)
            } else {
                let (stem, _) = crate::payload::stem_of(&crate::text::chars_of(f.as_str()));
                crate::text::string_of(&stem)
            }
        },
    }
}

/// Accepting changed content needs a payload path and the payload in place.
pub fn accept_content_guard(resource: &AnalyticsResource, payload_is_file: bool) -> (r: Result<String, ServiceError>)
    ensures
        match r {
            Ok(rel) => resource.file_rel_path matches Some(p) && p@ == rel@ && payload_is_file,
            Err(e) => e.operation@ == "accept_current_content"@ && match resource.file_rel_path {
                None => e.reason@ == "该存档没有本体路径"@,
                Some(_) => !payload_is_file && e.reason@ == "本体不存在：应走「有记录、无本体」的处理（还原或删除记录）"@,
            },
        },
{
    match &resource.file_rel_path {
        None => Err(refusal("accept_current_content", crate::text::owned("该存档没有本体路径"))),
        Some(rel) => {
            if payload_is_file {
                Ok(rel.clone())
            } else {
                Err(refusal(
                    "accept_current_content",
                    crate::text::owned("本体不存在：应走「有记录、无本体」的处理（还原或删除记录）"),
                ))
            }
        },
    }
}

} // verus!
