//! Dragging archive rows onto group headers: the ghost's label, which headers
//! accept a drop, and which rows actually change group.

use vstd::prelude::*;

use crate::filter::{GROUP_ALL, GROUP_UNGROUPED};
use crate::model::ArchiveKind;
use crate::resource_view::{opt_view, rows_view, ArchiveRow, RowView};
use crate::seqs::views;
use crate::text::{dec, push_dec, push_str, str_eq};

verus! {

/// What a drag carries: the dragged ids (in visible order), the kind of the row
/// grabbed, and the label of the ghost.
#[derive(Debug, Clone, PartialEq, Eq)]
pub struct ArchiveDragPayload {
    pub ids: Vec<String>,
    pub kind: ArchiveKind,
    pub label: String,
}

/// The ghost's label: the name for one row (or none), the count for several.
pub open spec fn drag_label_text(name: Seq<char>, count: nat) -> Seq<char> {
    if count <= 1 {
        name
    } else {
        dec(count) + " 项"@
    }
}

/// The label of a drag ghost.
pub fn drag_label(name: &str, count: usize) -> (s: String)
    ensures
        s@ == drag_label_text(name@, count as nat),
{
    if count <= 1 {
        crate::text::owned(name)
    } else {
        let mut out = String::new();
        push_dec(&mut out, count as u64);
        push_str(&mut out, " 项");
        out
    }
}

/// What dropping on a header means.
#[derive(Debug, Clone, PartialEq, Eq)]
pub enum GroupDrop {
    /// Not a target (the "all groups" header).
    NotATarget,
    /// The "ungrouped" header: out of every group.
    Ungroup,
    /// A group's header: into that group.
    Into(String),
}

/// The meaning of a drop on the header with key `key`.
pub open spec fn drop_of_key(key: Seq<char>) -> GroupDropView {
    if key == GROUP_ALL@ {
        GroupDropView::NotATarget
    } else if key == GROUP_UNGROUPED@ {
        GroupDropView::Ungroup
    } else {
        GroupDropView::Into(key)
    }
}

/// The mathematical content of a drop.
pub enum GroupDropView {
    NotATarget,
    Ungroup,
    Into(Seq<char>),
}

impl View for GroupDrop {
    type V = GroupDropView;

    open spec fn view(&self) -> GroupDropView {
        match self {
            GroupDrop::NotATarget => GroupDropView::NotATarget,
            GroupDrop::Ungroup => GroupDropView::Ungroup,
            GroupDrop::Into(id) => GroupDropView::Into(id@),
        }
    }
}

/// Only group headers accept a drop; the "all groups" header does not.
pub fn group_drop_target(key: &str) -> (d: GroupDrop)
    ensures
        d@ == drop_of_key(key@),
{
    if str_eq(key, GROUP_ALL) {
        GroupDrop::NotATarget
    } else if str_eq(key, GROUP_UNGROUPED) {
        GroupDrop::Ungroup
    } else {
        GroupDrop::Into(crate::text::owned(key))
    }
}

/// The group a drop files rows under (`None`: ungrouped).
pub open spec fn drop_folder_of(d: GroupDropView) -> Option<Seq<char>> {
    match d {
        GroupDropView::NotATarget => None,
        GroupDropView::Ungroup => None,
        GroupDropView::Into(id) => Some(id),
    }
}

/// The group a drop files rows under.
pub fn drop_folder(target: &GroupDrop) -> (r: Option<&str>)
    ensures
        match r {
            Some(s) => drop_folder_of(target@) == Some(s@),
            None => drop_folder_of(target@) is None,
        },
{
    match target {
        GroupDrop::NotATarget => None,
        GroupDrop::Ungroup => None,
        GroupDrop::Into(id) => Some(id.as_str()),
    }
}

/// The group of the first row with id `id`, if there is such a row.
pub open spec fn folder_of_row(rows: Seq<RowView>, id: Seq<char>) -> Option<Option<Seq<char>>>
    decreases rows.len(),
{
    if rows.len() == 0 {
        None
    } else if rows[0].id == id {
        Some(rows[0].folder_id)
    } else {
        folder_of_row(rows.drop_first(), id)
    }
}

/// The row with id `id` exists and is not already where the drop files it.
pub open spec fn changes_group(rows: Seq<RowView>, id: Seq<char>, folder: Option<Seq<char>>) -> bool {
    match folder_of_row(rows, id) {
        Some(current) => current != folder,
        None => false,
    }
}

/// The ids that actually change group: none for a header that is not a target;
/// otherwise the given ids, in their order, whose row is known and elsewhere.
pub open spec fn moved_ids(rows: Seq<RowView>, ids: Seq<Seq<char>>, target: GroupDropView) -> Seq<Seq<char>> {
    if target is NotATarget {
        Seq::empty()
    } else {
        ids.filter(|id: Seq<char>| changes_group(rows, id, drop_folder_of(target)))
    }
}

/// Whether the row with id `id` exists and is elsewhere than `folder`.
fn row_changes_group(rows: &[ArchiveRow], id: &str, folder: Option<&str>) -> (r: bool)
    ensures
        r == changes_group(rows_view(rows@), id@, match folder { Some(f) => Some(f@), None => None }),
{
    let ghost rv = rows_view(rows@);
    let ghost target = match folder { Some(f) => Some(f@), None => None };
    let mut i: usize = 0;
    assert(rv.skip(0) == rv);
    while i < rows.len()
        invariant
            i <= rows.len(),
            rv == rows_view(rows@),
            folder_of_row(rv, id@) == folder_of_row(rv.skip(i as int), id@),
        decreases rows.len() - i,
    {
        assert(rv.skip(i as int)[0] == rows@[i as int]@);
        if str_eq(rows[i].id.as_str(), id) {
            let current = &rows[i].folder_id;
            let same = match (current, folder) {
                (Some(a), Some(b)) => str_eq(a.as_str(), b),
                (None, None) => true,
                _ => false,
            };
            assert(opt_view(*current) == rv[i as int].folder_id);
            return !same;
        }
        assert(rv.skip(i as int).drop_first() == rv.skip(i + 1));
        i += 1;
    }
    false
}

/// The ids whose rows actually change group; dropping on the group a row is
/// already in sends nothing for it, and unknown ids are left out.
pub fn rows_to_move(rows: &[ArchiveRow], ids: &[String], target: &GroupDrop) -> (r: Vec<String>)
    ensures
        views(r@) == moved_ids(rows_view(rows@), views(ids@), target@),
{
    if let GroupDrop::NotATarget = target {
        return Vec::new();
    }
    let folder = drop_folder(target);
    let ghost folder_view = drop_folder_of(target@);
    let ghost all = views(ids@);
    let ghost pred = |id: Seq<char>| changes_group(rows_view(rows@), id, folder_view);
    let mut out: Vec<String> = Vec::new();
    let mut i: usize = 0;
    while i < ids.len()
        invariant
            i <= ids.len(),
            all == views(ids@),
            folder_view == match folder { Some(f) => Some(f@), None => None },
            pred == (|id: Seq<char>| changes_group(rows_view(rows@), id, folder_view)),
            views(out@) == all.take(i as int).filter(pred),
        decreases ids.len() - i,
    {
        assert(all.take(i + 1).drop_last() == all.take(i as int));
        assert(all.take(i + 1).last() == all[i as int]);
        assert(all.take(i + 1).filter(pred) == if pred(all[i as int]) {
            all.take(i as int).filter(pred).push(all[i as int])
        } else {
            all.take(i as int).filter(pred)
        }) by {
            reveal(Seq::filter);
        }
        if row_changes_group(rows, ids[i].as_str(), folder) {
            let ghost prev = out@;
            out.push(ids[i].clone());
            assert(views(out@) == views(prev).push(all[i as int]));
        }
        i += 1;
    }
    assert(all.take(ids.len() as int) == all);
    out
}

/// Every id sent to move was among the dragged ids, and none is sent for a row
/// already filed where the drop files it.
pub proof fn law_moves_only_dragged_rows_that_change(
    rows: Seq<RowView>,
    ids: Seq<Seq<char>>,
    target: GroupDropView,
    id: Seq<char>,
)
    ensures
        moved_ids(rows, ids, target).contains(id) ==> ids.contains(id),
        moved_ids(rows, ids, target).contains(id) ==> changes_group(rows, id, drop_folder_of(target)),
{
    if moved_ids(rows, ids, target).contains(id) {
        let pred = |x: Seq<char>| changes_group(rows, x, drop_folder_of(target));
        ids.lemma_filter_contains_rev(pred, id);
        let j = choose|j: int| 0 <= j < ids.filter(pred).len() && ids.filter(pred)[j] == id;
        ids.lemma_filter_pred(pred, j);
    }
}

} // verus!
