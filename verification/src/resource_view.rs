//! View models of the archive panel: rows, status counts, badges and the row tail.

use vstd::prelude::*;

use crate::detail_view::{chips_view, ArchiveTagChip};
use crate::model::{ArchiveKind, ArchiveStatus};
use crate::seqs::views;
use crate::text::{dec, dec_int, join, join_strings, push_dec, push_dec_i64, push_str};

verus! {

/// One archive row, already formatted by the host.
#[derive(Debug, Clone, PartialEq, Eq)]
pub struct ArchiveRow {
    pub id: String,
    pub name: String,
    /// Alias (searchable, not shown).
    pub alias: Option<String>,
    pub kind: ArchiveKind,
    pub version: i32,
    pub status: ArchiveStatus,
    /// Tail text (see [`row_tail`]).
    pub tail: String,
    /// Source table (searchable, not shown).
    pub source_table: Option<String>,
    /// Tags with ids and names.
    pub tags: Vec<ArchiveTagChip>,
    /// Group the row is filed under.
    pub folder_id: Option<String>,
    /// Raw sort keys (seconds since the epoch, bytes).
    pub updated_epoch: i64,
    pub archived_epoch: Option<i64>,
    pub size_bytes: Option<i64>,
}

/// The view of an optional string.
pub open spec fn opt_view(s: Option<String>) -> Option<Seq<char>> {
    match s {
        Some(v) => Some(v@),
        None => None,
    }
}

/// The mathematical content of a row.
pub struct RowView {
    pub id: Seq<char>,
    pub name: Seq<char>,
    pub alias: Option<Seq<char>>,
    pub kind: ArchiveKind,
    pub version: i32,
    pub status: ArchiveStatus,
    pub tail: Seq<char>,
    pub source_table: Option<Seq<char>>,
    pub tags: Seq<(Seq<char>, Seq<char>)>,
    pub folder_id: Option<Seq<char>>,
    pub updated_epoch: i64,
    pub archived_epoch: Option<i64>,
    pub size_bytes: Option<i64>,
}

impl View for ArchiveRow {
    type V = RowView;

    open spec fn view(&self) -> RowView {
        RowView {
            id: self.id@,
            name: self.name@,
            alias: opt_view(self.alias),
            kind: self.kind,
            version: self.version,
            status: self.status,
            tail: self.tail@,
            source_table: opt_view(self.source_table),
            tags: chips_view(self.tags@),
            folder_id: opt_view(self.folder_id),
            updated_epoch: self.updated_epoch,
            archived_epoch: self.archived_epoch,
            size_bytes: self.size_bytes,
        }
    }
}

/// The views of a list of rows.
pub open spec fn rows_view(s: Seq<ArchiveRow>) -> Seq<RowView> {
    s.map_values(|r: ArchiveRow| r@)
}

/// A copy of an optional string.
pub fn copy_opt_string(s: &Option<String>) -> (r: Option<String>)
    ensures
        r == *s,
{
    match s {
        Some(v) => Some(v.clone()),
        None => None,
    }
}

/// A copy of a list of tag chips.
pub fn copy_chips(v: &Vec<ArchiveTagChip>) -> (r: Vec<ArchiveTagChip>)
    ensures
        r@ == v@,
{
    let mut r: Vec<ArchiveTagChip> = Vec::new();
    let mut i: usize = 0;
    while i < v.len()
        invariant
            i <= v.len(),
            r@ == v@.take(i as int),
        decreases v.len() - i,
    {
        r.push(v[i].duplicate());
        assert(v@.take(i + 1) == v@.take(i as int).push(v@[i as int]));
        i += 1;
    }
    assert(v@.take(v.len() as int) == v@);
    r
}

impl ArchiveRow {
    /// A field-by-field copy.
    pub fn duplicate(&self) -> (r: ArchiveRow)
        ensures
            r@ == self@,
    {
        ArchiveRow {
            id: self.id.clone(),
            name: self.name.clone(),
            alias: copy_opt_string(&self.alias),
            kind: self.kind,
            version: self.version,
            status: self.status,
            tail: self.tail.clone(),
            source_table: copy_opt_string(&self.source_table),
            tags: copy_chips(&self.tags),
            folder_id: copy_opt_string(&self.folder_id),
            updated_epoch: self.updated_epoch,
            archived_epoch: self.archived_epoch,
            size_bytes: self.size_bytes,
        }
    }
}

/// One group in the group dictionary.
#[derive(Debug, Clone, PartialEq, Eq)]
pub struct GroupOption {
    pub id: String,
    pub name: String,
}

/// One tag in the tag dictionary, with its usage count.
#[derive(Debug, Clone, PartialEq, Eq)]
pub struct TagOption {
    pub id: String,
    pub name: String,
    pub count: usize,
}

/// Counts of the status line.
#[derive(Debug, Clone, Copy, Default, PartialEq, Eq, Structural)]
pub struct ArchiveCounts {
    pub total: usize,
    pub archived: usize,
    pub analysis: usize,
    pub table_ref: usize,
    pub missing: usize,
    pub drifted: usize,
}

/// `label count` when the count is not zero; nothing otherwise.
pub open spec fn bucket_part(label: Seq<char>, count: nat) -> Seq<Seq<char>> {
    if count > 0 {
        seq![label + " "@ + dec(count)]
    } else {
        Seq::empty()
    }
}

/// The parts of the status line: total and archived always, the other buckets when not empty.
pub open spec fn counts_parts(c: ArchiveCounts) -> Seq<Seq<char>> {
    seq![dec(c.total as nat) + " 项"@, "已归档 "@ + dec(c.archived as nat)]
        + bucket_part("分析表"@, c.analysis as nat)
        + bucket_part("引用"@, c.table_ref as nat)
        + bucket_part("缺失"@, c.missing as nat)
        + bucket_part("索引异常"@, c.drifted as nat)
}

/// Appends `label count` to `parts` when the count is not zero.
fn push_bucket(parts: &mut Vec<String>, label: &str, count: usize)
    ensures
        views(final(parts)@) == views(old(parts)@) + bucket_part(label@, count as nat),
{
    if count > 0 {
        let mut part = String::new();
        push_str(&mut part, label);
        push_str(&mut part, " ");
        push_dec(&mut part, count as u64);
        parts.push(part);
        assert(views(parts@) == views(old(parts)@).push(part@));
    } else {
        assert(views(parts@) == views(old(parts)@) + Seq::<Seq<char>>::empty());
    }
}

impl ArchiveCounts {
    /// Status line text, with the empty buckets left out:
    /// `4 项 · 已归档 3 · 分析表 1 · 缺失 1`.
    pub fn line(&self) -> (s: String)
        ensures
            s@ == join(counts_parts(*self), " · "@),
    {
        let mut total = String::new();
        push_dec(&mut total, self.total as u64);
        push_str(&mut total, " 项");
        let mut archived = String::new();
        push_str(&mut archived, "已归档 ");
        push_dec(&mut archived, self.archived as u64);
        let mut parts: Vec<String> = Vec::new();
        parts.push(total);
        parts.push(archived);
        assert(views(parts@) == seq![dec(self.total as nat) + " 项"@, "已归档 "@ + dec(self.archived as nat)]);
        push_bucket(&mut parts, "分析表", self.analysis);
        push_bucket(&mut parts, "引用", self.table_ref);
        push_bucket(&mut parts, "缺失", self.missing);
        push_bucket(&mut parts, "索引异常", self.drifted);
        join_strings(&parts, " · ")
    }

    /// Whether something needs the user (which puts the repair entry on the status line).
    pub fn has_issues(&self) -> (b: bool)
        ensures
            b == (self.missing > 0 || self.drifted > 0),
    {
        self.missing > 0 || self.drifted > 0
    }
}

/// Reproduction strength badge text: an abnormal status wins over the kind.
pub open spec fn badge_text(kind: ArchiveKind, status: ArchiveStatus) -> Seq<char> {
    match status {
        ArchiveStatus::Missing => "缺失"@,
        ArchiveStatus::ContentChanged => "内容已变"@,
        ArchiveStatus::Normal => match kind {
            ArchiveKind::File => "已归档"@,
            ArchiveKind::Analysis => "分析表"@,
            ArchiveKind::TableRef => "引用"@,
        },
    }
}

/// The badge of a row: the only colour signal of the row.
pub fn strength_badge(kind: ArchiveKind, status: ArchiveStatus) -> (r: &'static str)
    ensures
        r@ == badge_text(kind, status),
{
    match status {
        ArchiveStatus::Missing => "缺失",
        ArchiveStatus::ContentChanged => "内容已变",
        ArchiveStatus::Normal => match kind {
            ArchiveKind::File => "已归档",
            ArchiveKind::Analysis => "分析表",
            ArchiveKind::TableRef => "引用",
        },
    }
}

/// Tone of a badge (the renderer maps it to theme colours).
#[derive(Debug, Clone, Copy, PartialEq, Eq, Structural)]
pub enum BadgeTone {
    Success,
    Info,
    Warning,
    Danger,
}

/// The tone of a badge: an abnormal status wins over the kind; references and
/// changed content both warn.
pub open spec fn tone_of(kind: ArchiveKind, status: ArchiveStatus) -> BadgeTone {
    match status {
        ArchiveStatus::Missing => BadgeTone::Danger,
        ArchiveStatus::ContentChanged => BadgeTone::Warning,
        ArchiveStatus::Normal => match kind {
            ArchiveKind::File => BadgeTone::Success,
            ArchiveKind::Analysis => BadgeTone::Info,
            ArchiveKind::TableRef => BadgeTone::Warning,
        },
    }
}

/// The tone of a row's badge.
pub fn badge_tone(kind: ArchiveKind, status: ArchiveStatus) -> (t: BadgeTone)
    ensures
        t == tone_of(kind, status),
{
    match (status, kind) {
        (ArchiveStatus::Missing, _) => BadgeTone::Danger,
        (ArchiveStatus::ContentChanged, _) => BadgeTone::Warning,
        (ArchiveStatus::Normal, ArchiveKind::File) => BadgeTone::Success,
        (ArchiveStatus::Normal, ArchiveKind::Analysis) => BadgeTone::Info,
        (ArchiveStatus::Normal, ArchiveKind::TableRef) => BadgeTone::Warning,
    }
}

/// The tail of a row: size or scale, then the time, joined by ` · `; either alone
/// when the other is empty; the version when both are.
pub open spec fn tail_text(detail: Seq<char>, modified: Seq<char>, version: i32) -> Seq<char> {
    if detail.len() > 0 && modified.len() > 0 {
        detail + " · "@ + modified
    } else if detail.len() > 0 {
        detail
    } else if modified.len() > 0 {
        modified
    } else {
        "v"@ + dec_int(version as int)
    }
}

/// The tail text of a row.
pub fn row_tail(detail: &str, modified: &str, version: i32) -> (s: String)
    ensures
        s@ == tail_text(detail@, modified@, version),
{
    let mut out = String::new();
    if !detail.is_empty() && !modified.is_empty() {
        push_str(&mut out, detail);
        push_str(&mut out, " · ");
        push_str(&mut out, modified);
    } else if !detail.is_empty() {
        push_str(&mut out, detail);
    } else if !modified.is_empty() {
        push_str(&mut out, modified);
    } else {
        push_str(&mut out, "v");
        push_dec_i64(&mut out, version as i64);
    }
    out
}

/// The panel snapshot the host pushes in one piece.
///
/// `details[i]` belongs to `rows[i]`; [`ResourcesSnapshot::detail`] finds one by id.
#[derive(Debug, Clone, Default)]
pub struct ResourcesSnapshot {
    pub rows: Vec<ArchiveRow>,
    pub counts: ArchiveCounts,
    pub read_only: bool,
    pub details: Vec<crate::detail_view::ArchiveDetail>,
    /// Tag dictionary (filter menu and tag dialog).
    pub tags: Vec<TagOption>,
    /// Group dictionary.
    pub groups: Vec<GroupOption>,
}

/// `i` is the last position whose detail has the id `id`.
pub open spec fn last_detail_with(details: Seq<crate::detail_view::ArchiveDetail>, id: Seq<char>, i: int) -> bool {
    &&& 0 <= i < details.len()
    &&& details[i].id@ == id
    &&& forall|j: int| i < j < details.len() ==> details[j].id@ != id
}

impl ResourcesSnapshot {
    /// The detail of the row with id `id` (of the last such row, as a later entry
    /// replaces an earlier one under the same id).
    pub fn detail(&self, id: &str) -> (r: Option<&crate::detail_view::ArchiveDetail>)
        ensures
            match r {
                Some(d) => exists|i: int| last_detail_with(self.details@, id@, i) && *d == self.details@[i],
                None => forall|i: int| 0 <= i < self.details@.len() ==> self.details@[i].id@ != id@,
            },
    {
        let mut i: usize = self.details.len();
        while i > 0
            invariant
                i <= self.details.len(),
                forall|j: int| i <= j < self.details@.len() ==> self.details@[j].id@ != id@,
            decreases i,
        {
            if crate::text::str_eq(self.details[i - 1].id.as_str(), id) {
                assert(last_detail_with(self.details@, id@, i - 1));
                return Some(&self.details[i - 1]);
            }
            i -= 1;
        }
        None
    }
}

} // verus!
