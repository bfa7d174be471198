//! Draft pick dialog: which drafts to archive, ticked one by one or all at once.

use vstd::prelude::*;

use crate::text::{dec, owned, push_dec, push_str};

verus! {

/// Largest number of drafts listed (the rest is announced, not hidden).
pub const MAX_DRAFT_ROWS: usize = 50;

/// A draft that can be archived.
#[derive(Debug, Clone, PartialEq, Eq)]
pub struct DraftCandidate {
    /// Absolute path of the draft (the archive request's source).
    pub abs_path: String,
    /// Path under `scratchpad/` (where the archive says it came from).
    pub rel_path: String,
    /// Default display name.
    pub display_name: String,
    /// Source connection of the draft.
    pub connection_id: Option<String>,
}

/// What the dialog opens with.
#[derive(Debug, Clone, PartialEq, Eq)]
pub struct PickDialogSeed {
    pub candidates: Vec<DraftCandidate>,
}

/// Which candidates are ticked, by position.
pub struct PickDialogState {
    selected: Vec<bool>,
}

/// Number of ticks.
pub open spec fn ticks(s: Seq<bool>) -> nat
    decreases s.len(),
{
    if s.len() == 0 {
        0
    } else {
        ticks(s.drop_last()) + if s.last() { 1nat } else { 0nat }
    }
}

impl PickDialogState {
    /// The ticks.
    pub closed spec fn selected_spec(&self) -> Seq<bool> {
        self.selected@
    }

    /// Nothing ticked (the user picks what to archive).
    pub fn new(count: usize) -> (s: Self)
        ensures
            s.selected_spec() == Seq::new(count as nat, |i: int| false),
    {
        let mut selected: Vec<bool> = Vec::new();
        let mut i: usize = 0;
        while i < count
            invariant
                i <= count,
                selected@ == Seq::new(i as nat, |k: int| false),
            decreases count - i,
        {
            selected.push(false);
            i += 1;
        }
        PickDialogState { selected }
    }

    /// Number of ticked candidates.
    pub fn selected_count(&self) -> (n: usize)
        ensures
            n == ticks(self.selected_spec()),
    {
        let mut n: usize = 0;
        let mut i: usize = 0;
        while i < self.selected.len()
            invariant
                i <= self.selected.len(),
                n == ticks(self.selected@.take(i as int)),
                n <= i,
            decreases self.selected.len() - i,
        {
            assert(self.selected@.take(i + 1).drop_last() == self.selected@.take(i as int));
            if self.selected[i] {
                n += 1;
            }
            i += 1;
        }
        assert(self.selected@.take(self.selected.len() as int) == self.selected@);
        n
    }

    /// Whether there is at least one candidate and all are ticked.
    pub fn all_selected(&self) -> (b: bool)
        ensures
            b == (self.selected_spec().len() > 0 && forall|i: int|
                0 <= i < self.selected_spec().len() ==> #[trigger] self.selected_spec()[i]),
    {
        if self.selected.len() == 0 {
            return false;
        }
        let mut i: usize = 0;
        while i < self.selected.len()
            invariant
                i <= self.selected.len(),
                forall|k: int| 0 <= k < i ==> #[trigger] self.selected@[k],
            decreases self.selected.len() - i,
        {
            if !self.selected[i] {
                return false;
            }
            i += 1;
        }
        true
    }

    /// Ticks or unticks one candidate; a position past the list changes nothing.
    pub fn set_selected(&mut self, index: usize, on: bool)
        ensures
            final(self).selected_spec() == if index < old(self).selected_spec().len() {
                old(self).selected_spec().update(index as int, on)
            } else {
                old(self).selected_spec()
            },
    {
        if index < self.selected.len() {
            self.selected.set(index, on);
        }
    }

    /// Ticks or unticks every candidate.
    pub fn set_all(&mut self, on: bool)
        ensures
            final(self).selected_spec() == Seq::new(old(self).selected_spec().len(), |i: int| on),
    {
        let n = self.selected.len();
        let mut i: usize = 0;
        while i < n
            invariant
                i <= n == self.selected.len(),
                forall|k: int| 0 <= k < i ==> self.selected@[k] == on,
            decreases n - i,
        {
            self.selected.set(i, on);
            i += 1;
        }
        assert(self.selected@ == Seq::new(n as nat, |k: int| on));
    }
}

/// The ticked candidates among the first `n`, in list order.
pub open spec fn picked_upto(candidates: Seq<DraftCandidate>, ticks: Seq<bool>, n: int) -> Seq<DraftCandidate>
    decreases n,
{
    if n <= 0 {
        Seq::empty()
    } else {
        let rest = picked_upto(candidates, ticks, n - 1);
        if ticks[n - 1] {
            rest.push(candidates[n - 1])
        } else {
            rest
        }
    }
}

/// The ticked candidates, in list order (positions past either list are ignored).
pub open spec fn picked(candidates: Seq<DraftCandidate>, ticks: Seq<bool>) -> Seq<DraftCandidate> {
    picked_upto(
        candidates,
        ticks,
        if candidates.len() < ticks.len() { candidates.len() as int } else { ticks.len() as int },
    )
}

/// A copy of a candidate.
fn copy_candidate(c: &DraftCandidate) -> (r: DraftCandidate)
    ensures
        r.abs_path@ == c.abs_path@,
        r.rel_path@ == c.rel_path@,
        r.display_name@ == c.display_name@,
        crate::resource_view::opt_view(r.connection_id) == crate::resource_view::opt_view(c.connection_id),
{
    DraftCandidate {
        abs_path: c.abs_path.clone(),
        rel_path: c.rel_path.clone(),
        display_name: c.display_name.clone(),
        connection_id: crate::resource_view::copy_opt_string(&c.connection_id),
    }
}

/// The rel paths and names of candidates, for comparing copies.
pub open spec fn candidate_view(c: DraftCandidate) -> (Seq<char>, Seq<char>, Seq<char>, Option<Seq<char>>) {
    (c.abs_path@, c.rel_path@, c.display_name@, crate::resource_view::opt_view(c.connection_id))
}

/// The ticked candidates in list order; `None` when none is ticked.
pub fn submit_pick(candidates: &[DraftCandidate], state: &PickDialogState) -> (r: Option<Vec<DraftCandidate>>)
    ensures
        match r {
            Some(v) => v@.len() > 0 && v@.map_values(|c: DraftCandidate| candidate_view(c)) == picked(
                candidates@,
                state.selected_spec(),
            ).map_values(|c: DraftCandidate| candidate_view(c)),
            None => picked(candidates@, state.selected_spec()).len() == 0,
        },
{
    let ticks = &state.selected;
    let n: usize = if candidates.len() < ticks.len() { candidates.len() } else { ticks.len() };
    let mut out: Vec<DraftCandidate> = Vec::new();
    let mut i: usize = 0;
    while i < n
        invariant
            i <= n,
            n <= candidates@.len(),
            n <= ticks@.len(),
            out@.map_values(|c: DraftCandidate| candidate_view(c)) == picked_upto(candidates@, ticks@, i as int).map_values(
                |c: DraftCandidate| candidate_view(c),
            ),
            out@.len() == picked_upto(candidates@, ticks@, i as int).len(),
        decreases n - i,
    {
        let ghost prev = out@;
        if ticks[i] {
            out.push(copy_candidate(&candidates[i]));
            assert(out@.map_values(|c: DraftCandidate| candidate_view(c)) == prev.map_values(
                |c: DraftCandidate| candidate_view(c),
            ).push(candidate_view(candidates@[i as int])));
        }
        i += 1;
    }
    if out.len() == 0 {
        None
    } else {
        Some(out)
    }
}

/// What the dialog shows for a state and a list of `n` candidates.
pub struct PickLayout {
    /// `已选 K / 共 N 个`.
    pub count_label: String,
    /// Whether the "all" box is ticked.
    pub all_checked: bool,
    /// How many candidates are listed (the first ones).
    pub shown: usize,
    /// The tick of each listed candidate.
    pub checked: Vec<bool>,
    /// The line under the list when candidates were left out.
    pub more_label: Option<String>,
    /// The confirming button's label.
    pub ok_label: String,
    /// Whether the confirming button is enabled.
    pub ok_enabled: bool,
}

/// Whether every candidate is ticked (and there is one).
pub open spec fn all_ticked(s: Seq<bool>) -> bool {
    s.len() > 0 && forall|i: int| 0 <= i < s.len() ==> #[trigger] s[i]
}

impl PickDialogState {
    /// The "all" box: ticks everything, or, when everything is ticked already,
    /// unticks everything.
    pub fn toggle_all(&mut self)
        ensures
            final(self).selected_spec() == Seq::new(
                old(self).selected_spec().len(),
                |i: int| !all_ticked(old(self).selected_spec()),
            ),
    {
        let all = self.all_selected();
        self.set_all(!all);
    }

    /// What the dialog shows now for `n` candidates.
    pub fn layout(&self, n: usize) -> (l: PickLayout)
        ensures
            l.count_label@ == "已选 "@ + dec(ticks(self.selected_spec())) + " / 共 "@ + dec(n as nat) + " 个"@,
            l.all_checked == all_ticked(self.selected_spec()),
            l.shown == (if n < MAX_DRAFT_ROWS { n } else { MAX_DRAFT_ROWS }),
            l.checked@.len() == l.shown,
            forall|i: int| 0 <= i < l.shown ==> #[trigger] l.checked@[i] == (i < self.selected_spec().len()
                && self.selected_spec()[i]),
            l.more_label is Some <==> n > MAX_DRAFT_ROWS,
            l.more_label matches Some(t) ==> t@ == "还有 "@ + dec((n - MAX_DRAFT_ROWS) as nat)
                + " 个未列出（一次最多选 "@ + dec(MAX_DRAFT_ROWS as nat) + " 个）"@,
            ticks(self.selected_spec()) > 0 ==> l.ok_label@ == "归档 "@ + dec(ticks(self.selected_spec())) + " 个"@,
            ticks(self.selected_spec()) == 0 ==> l.ok_label@ == "归档"@,
            l.ok_enabled == (ticks(self.selected_spec()) > 0),
    {
        let k = self.selected_count();
        let mut count_label = owned("已选 ");
        push_dec(&mut count_label, k as u64);
        push_str(&mut count_label, " / 共 ");
        push_dec(&mut count_label, n as u64);
        push_str(&mut count_label, " 个");
        let shown: usize = if n < MAX_DRAFT_ROWS { n } else { MAX_DRAFT_ROWS };
        let mut checked: Vec<bool> = Vec::new();
        let mut i: usize = 0;
        while i < shown
            invariant
                i <= shown,
                checked@.len() == i,
                forall|j: int| 0 <= j < i ==> #[trigger] checked@[j] == (j < self.selected@.len() && self.selected@[j]),
            decreases shown - i,
        {
            let on = i < self.selected.len() && self.selected[i];
            checked.push(on);
            i += 1;
        }
        let more_label = if n > MAX_DRAFT_ROWS {
            let mut t = owned("还有 ");
            push_dec(&mut t, (n - MAX_DRAFT_ROWS) as u64);
            push_str(&mut t, " 个未列出（一次最多选 ");
            push_dec(&mut t, MAX_DRAFT_ROWS as u64);
            push_str(&mut t, " 个）");
            Some(t)
        } else {
            None
        };
        let ok_label = if k > 0 {
            let mut t = owned("归档 ");
            push_dec(&mut t, k as u64);
            push_str(&mut t, " 个");
            t
        } else {
            owned("归档")
        };
        PickLayout {
            count_label,
            all_checked: self.all_selected(),
            shown,
            checked,
            more_label,
            ok_label,
            ok_enabled: k > 0,
        }
    }
}

} // verus!
