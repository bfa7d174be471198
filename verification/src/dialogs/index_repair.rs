//! Index repair dialog: the three groups of findings, their rows and the state
//! the host shares with the dialog.

use vstd::prelude::*;

use crate::dialogs::Confirmation;
use crate::resource_view::{copy_opt_string, opt_view};
use crate::text::{dec, owned, push_dec, push_str};

verus! {

/// Largest number of rows listed per group (the rest is announced, not hidden).
pub const MAX_REPAIR_ROWS_PER_GROUP: usize = 50;

/// The three groups of findings, one per kind of repair.
#[derive(Debug, Clone, Copy, PartialEq, Eq, Structural)]
pub enum RepairGroup {
    /// A file without a record.
    Untracked,
    /// A record without its payload.
    Missing,
    /// The payload's fingerprint differs from the record.
    Changed,
}

/// The place of a group in the dialog.
pub open spec fn group_rank(g: RepairGroup) -> int {
    match g {
        RepairGroup::Untracked => 0,
        RepairGroup::Missing => 1,
        RepairGroup::Changed => 2,
    }
}

/// The title of a group.
pub open spec fn group_title(g: RepairGroup) -> Seq<char> {
    match g {
        RepairGroup::Untracked => "有文件、无记录"@,
        RepairGroup::Missing => "有记录、无本体"@,
        RepairGroup::Changed => "指纹不匹配"@,
    }
}

/// The one-line explanation of a group.
pub open spec fn group_hint(g: RepairGroup) -> Seq<char> {
    match g {
        RepairGroup::Untracked => "本体在 resources/ 里但登记表不认识它；补登后就是一个正常存档"@,
        RepairGroup::Missing => "本体不在了：删掉记录，或等回收站上提后从回收站还原"@,
        RepairGroup::Changed => "本体被绕过只读改过：接受当前内容（生成新版本），或到版本历史里挑一版还原"@,
    }
}

impl RepairGroup {
    /// The groups in the order of the dialog.
    pub const ALL: [RepairGroup; 3] = [RepairGroup::Untracked, RepairGroup::Missing, RepairGroup::Changed];

    /// The title of the group.
    pub fn title(self) -> (r: &'static str)
        ensures
            r@ == group_title(self),
    {
        match self {
            RepairGroup::Untracked => "有文件、无记录",
            RepairGroup::Missing => "有记录、无本体",
            RepairGroup::Changed => "指纹不匹配",
        }
    }

    /// The explanation of the group.
    pub fn hint(self) -> (r: &'static str)
        ensures
            r@ == group_hint(self),
    {
        match self {
            RepairGroup::Untracked => "本体在 resources/ 里但登记表不认识它；补登后就是一个正常存档",
            RepairGroup::Missing => "本体不在了：删掉记录，或等回收站上提后从回收站还原",
            RepairGroup::Changed => "本体被绕过只读改过：接受当前内容（生成新版本），或到版本历史里挑一版还原",
        }
    }
}

/// One row of the repair dialog, formatted by the host.
#[derive(Debug, Clone, PartialEq, Eq)]
pub struct RepairRow {
    pub group: RepairGroup,
    /// The archive's name, or the file name of an untracked file.
    pub title: String,
    /// Where the payload is and what is wrong.
    pub detail: String,
    /// Recorded and actual fingerprints (changed content only).
    pub hash_detail: String,
    /// Payload path under `resources/`.
    pub rel_path: String,
    /// The archive concerned (none for an untracked file).
    pub resource_id: Option<String>,
}

/// The mathematical content of a repair row.
pub struct RepairRowView {
    pub group: RepairGroup,
    pub title: Seq<char>,
    pub detail: Seq<char>,
    pub hash_detail: Seq<char>,
    pub rel_path: Seq<char>,
    pub resource_id: Option<Seq<char>>,
}

impl View for RepairRow {
    type V = RepairRowView;

    open spec fn view(&self) -> RepairRowView {
        RepairRowView {
            group: self.group,
            title: self.title@,
            detail: self.detail@,
            hash_detail: self.hash_detail@,
            rel_path: self.rel_path@,
            resource_id: opt_view(self.resource_id),
        }
    }
}

/// The views of a list of repair rows.
pub open spec fn repair_rows_view(s: Seq<RepairRow>) -> Seq<RepairRowView> {
    s.map_values(|r: RepairRow| r@)
}

impl RepairRow {
    /// A field-by-field copy.
    pub fn duplicate(&self) -> (r: RepairRow)
        ensures
            r@ == self@,
    {
        RepairRow {
            group: self.group,
            title: self.title.clone(),
            detail: self.detail.clone(),
            hash_detail: self.hash_detail.clone(),
            rel_path: self.rel_path.clone(),
            resource_id: copy_opt_string(&self.resource_id),
        }
    }
}

/// A copy of a list of repair rows.
pub fn copy_repair_rows(v: &Vec<RepairRow>) -> (r: Vec<RepairRow>)
    ensures
        repair_rows_view(r@) == repair_rows_view(v@),
{
    let mut out: Vec<RepairRow> = Vec::new();
    let mut i: usize = 0;
    while i < v.len()
        invariant
            i <= v.len(),
            repair_rows_view(out@) == repair_rows_view(v@.take(i as int)),
        decreases v.len() - i,
    {
        let ghost prev = out@;
        out.push(v[i].duplicate());
        assert(v@.take(i + 1) == v@.take(i as int).push(v@[i as int]));
        assert(repair_rows_view(out@) == repair_rows_view(prev).push(v@[i as int]@));
        assert(repair_rows_view(v@.take(i + 1)) == repair_rows_view(v@.take(i as int)).push(v@[i as int]@));
        i += 1;
    }
    assert(v@.take(v.len() as int) == v@);
    out
}

/// The state the host shares with the dialog: the rows, whether an action is
/// running, whether the project is read-only, and the note shown meanwhile.
pub struct RepairDialogState {
    rows: Vec<RepairRow>,
    busy: bool,
    read_only: bool,
    note: Option<String>,
}

impl RepairDialogState {
    /// The rows.
    pub closed spec fn rows_spec(&self) -> Seq<RepairRowView> {
        repair_rows_view(self.rows@)
    }

    /// Whether an action is running.
    pub closed spec fn busy_spec(&self) -> bool {
        self.busy
    }

    /// Whether the project is read-only.
    pub closed spec fn read_only_spec(&self) -> bool {
        self.read_only
    }

    /// The note shown while an action runs.
    pub closed spec fn note_spec(&self) -> Option<Seq<char>> {
        opt_view(self.note)
    }

    /// An empty, idle, writable state.
    pub fn new() -> (s: Self)
        ensures
            s.rows_spec() == Seq::<RepairRowView>::empty(),
            !s.busy_spec(),
            !s.read_only_spec(),
            s.note_spec() is None,
    {
        let s = RepairDialogState { rows: Vec::new(), busy: false, read_only: false, note: None };
        assert(s.rows_spec() =~= Seq::<RepairRowView>::empty());
        s
    }

    /// Replaces the rows wholesale (after an action the host takes a new scan).
    pub fn set_rows(&mut self, rows: Vec<RepairRow>)
        ensures
            final(self).rows_spec() == repair_rows_view(rows@),
            final(self).busy_spec() == old(self).busy_spec(),
            final(self).read_only_spec() == old(self).read_only_spec(),
            final(self).note_spec() == old(self).note_spec(),
    {
        self.rows = rows;
    }

    /// A copy of the rows.
    pub fn rows(&self) -> (r: Vec<RepairRow>)
        ensures
            repair_rows_view(r@) == self.rows_spec(),
    {
        copy_repair_rows(&self.rows)
    }

    /// Marks an action as running or done.
    pub fn set_busy(&mut self, busy: bool)
        ensures
            final(self).busy_spec() == busy,
            final(self).rows_spec() == old(self).rows_spec(),
            final(self).read_only_spec() == old(self).read_only_spec(),
            final(self).note_spec() == old(self).note_spec(),
    {
        self.busy = busy;
    }

    /// Whether an action is running.
    pub fn busy(&self) -> (b: bool)
        ensures
            b == self.busy_spec(),
    {
        self.busy
    }

    /// Marks the project as read-only (every action greyed out) or writable.
    pub fn set_read_only(&mut self, read_only: bool)
        ensures
            final(self).read_only_spec() == read_only,
            final(self).rows_spec() == old(self).rows_spec(),
            final(self).busy_spec() == old(self).busy_spec(),
            final(self).note_spec() == old(self).note_spec(),
    {
        self.read_only = read_only;
    }

    /// Whether the project is read-only.
    pub fn read_only(&self) -> (b: bool)
        ensures
            b == self.read_only_spec(),
    {
        self.read_only
    }

    /// Sets or clears the note.
    pub fn set_note(&mut self, note: Option<String>)
        ensures
            final(self).note_spec() == opt_view(note),
            final(self).rows_spec() == old(self).rows_spec(),
            final(self).busy_spec() == old(self).busy_spec(),
            final(self).read_only_spec() == old(self).read_only_spec(),
    {
        self.note = note;
    }

    /// The note.
    pub fn note(&self) -> (r: Option<String>)
        ensures
            opt_view(r) == self.note_spec(),
    {
        copy_opt_string(&self.note)
    }
}

impl Default for RepairDialogState {
    fn default() -> (s: Self)
        ensures
            s.rows_spec() == Seq::<RepairRowView>::empty(),
            !s.busy_spec(),
            !s.read_only_spec(),
            s.note_spec() is None,
    {
        RepairDialogState::new()
    }
}

/// An action picked in the dialog; the host carries it out.
#[derive(Debug, Clone, PartialEq, Eq)]
pub enum RepairAction {
    /// Register an untracked file.
    Adopt { rel_path: String },
    /// Delete the record of a missing payload.
    DeleteRecord { resource_id: String },
    /// Accept the changed content as a new version.
    AcceptContent { resource_id: String },
    /// Open the version history to restore one.
    OpenVersions { resource_id: String },
}

/// The indices, in order, of the rows among the first `n` that belong to group `g`.
pub open spec fn group_indices(rows: Seq<RepairRowView>, g: RepairGroup, n: int) -> Seq<int>
    decreases n,
{
    if n <= 0 {
        Seq::empty()
    } else if rows[n - 1].group == g {
        group_indices(rows, g, n - 1).push(n - 1)
    } else {
        group_indices(rows, g, n - 1)
    }
}

/// A row has a line in the dialog: fewer than the per-group limit of its group's
/// rows come before it.
pub open spec fn listed(rows: Seq<RepairRowView>, i: int) -> bool {
    0 <= i < rows.len() && group_indices(rows, rows[i].group, i).len() < MAX_REPAIR_ROWS_PER_GROUP
}

/// A button on a row.
#[derive(Debug, Clone, Copy, PartialEq, Eq, Structural)]
pub enum RepairControl {
    /// Register the untracked file.
    Adopt,
    /// Restore from the trash (shown, never enabled: the shared trash does not offer it yet).
    RestoreFromTrash,
    /// Delete the record of a missing payload.
    DeleteRecord,
    /// Accept the changed content.
    AcceptContent,
    /// Open the version history.
    OpenVersions,
}

/// The buttons of a row of group `g`, in order.
pub open spec fn controls_of(g: RepairGroup) -> Seq<RepairControl> {
    match g {
        RepairGroup::Untracked => seq![RepairControl::Adopt],
        RepairGroup::Missing => seq![RepairControl::RestoreFromTrash, RepairControl::DeleteRecord],
        RepairGroup::Changed => seq![RepairControl::AcceptContent, RepairControl::OpenVersions],
    }
}

/// Whether a button is enabled: writes need an idle, writable project; opening
/// the history changes nothing and is always there; restoring from the trash never is.
pub open spec fn control_enabled(c: RepairControl, busy: bool, read_only: bool) -> bool {
    match c {
        RepairControl::RestoreFromTrash => false,
        RepairControl::OpenVersions => true,
        _ => !busy && !read_only,
    }
}

/// The label of a button.
pub open spec fn control_label(c: RepairControl) -> Seq<char> {
    match c {
        RepairControl::Adopt => "补登为存档"@,
        RepairControl::RestoreFromTrash => "从回收站还原"@,
        RepairControl::DeleteRecord => "删除记录"@,
        RepairControl::AcceptContent => "接受当前内容"@,
        RepairControl::OpenVersions => "打开版本历史…"@,
    }
}

/// The note a pressed button leaves while its action runs (none for opening the history).
pub open spec fn control_pending(c: RepairControl) -> Option<Seq<char>> {
    match c {
        RepairControl::Adopt => Some("正在补登…"@),
        RepairControl::DeleteRecord => Some("正在删除记录…"@),
        RepairControl::AcceptContent => Some("正在接受当前内容…"@),
        _ => None,
    }
}

/// The archive id a row carries, empty when it has none.
pub open spec fn id_or_empty(id: Option<Seq<char>>) -> Seq<char> {
    match id {
        Some(v) => v,
        None => Seq::empty(),
    }
}

impl RepairControl {
    /// The buttons of a row of group `g`, in order.
    pub fn of_group(g: RepairGroup) -> (r: Vec<RepairControl>)
        ensures
            r@ == controls_of(g),
    {
        match g {
            RepairGroup::Untracked => vec![RepairControl::Adopt],
            RepairGroup::Missing => vec![RepairControl::RestoreFromTrash, RepairControl::DeleteRecord],
            RepairGroup::Changed => vec![RepairControl::AcceptContent, RepairControl::OpenVersions],
        }
    }

    /// The label of the button.
    pub fn label(self) -> (r: &'static str)
        ensures
            r@ == control_label(self),
    {
        match self {
            RepairControl::Adopt => "补登为存档",
            RepairControl::RestoreFromTrash => "从回收站还原",
            RepairControl::DeleteRecord => "删除记录",
            RepairControl::AcceptContent => "接受当前内容",
            RepairControl::OpenVersions => "打开版本历史…",
        }
    }

    /// The tooltip of the button (only the one that is never enabled says why).
    pub fn tooltip(self) -> (r: Option<&'static str>)
        ensures
            r is Some <==> self is RestoreFromTrash,
            r matches Some(t) ==> t@ == "等项目级回收站上提（P0.8）后才可用"@,
    {
        match self {
            RepairControl::RestoreFromTrash => Some("等项目级回收站上提（P0.8）后才可用"),
            _ => None,
        }
    }

    /// Whether the button is enabled in a dialog that is `busy` or `read_only`.
    pub fn enabled(self, busy: bool, read_only: bool) -> (b: bool)
        ensures
            b == control_enabled(self, busy, read_only),
    {
        match self {
            RepairControl::RestoreFromTrash => false,
            RepairControl::OpenVersions => true,
            _ => !busy && !read_only,
        }
    }
}

/// One group's part of the dialog.
pub struct RepairSection {
    pub group: RepairGroup,
    /// How many rows the group has.
    pub count: usize,
    /// Indices (into the state's rows) of the rows listed, in order.
    pub rows: Vec<usize>,
    /// The line under the group when rows were left out.
    pub more_label: Option<String>,
}

/// What the dialog shows for one state.
pub struct RepairLayout {
    /// `共 N 项需要处理`.
    pub count_label: String,
    /// The note of a running action.
    pub note: Option<String>,
    /// The good news shown in place of the groups when nothing is left to repair.
    pub clean_label: Option<String>,
    /// The groups that have rows, in the order of [`RepairGroup::ALL`].
    pub sections: Vec<RepairSection>,
}

/// The group of the `k`-th place in the dialog.
pub open spec fn group_at(k: int) -> RepairGroup {
    if k == 0 {
        RepairGroup::Untracked
    } else if k == 1 {
        RepairGroup::Missing
    } else {
        RepairGroup::Changed
    }
}

/// The groups that have rows, in the order of the dialog, among the first `k` places.
pub open spec fn groups_with_rows(rows: Seq<RepairRowView>, k: int) -> Seq<RepairGroup>
    decreases k,
{
    if k <= 0 {
        Seq::empty()
    } else if group_indices(rows, group_at(k - 1), rows.len() as int).len() > 0 {
        groups_with_rows(rows, k - 1).push(group_at(k - 1))
    } else {
        groups_with_rows(rows, k - 1)
    }
}

/// The section of group `g` is what the dialog shows of it.
pub open spec fn section_of(rows: Seq<RepairRowView>, g: RepairGroup, s: RepairSection) -> bool {
    let idx = group_indices(rows, g, rows.len() as int);
    &&& s.group == g
    &&& s.count == idx.len()
    &&& s.rows@.len() == (if idx.len() < MAX_REPAIR_ROWS_PER_GROUP { idx.len() } else { MAX_REPAIR_ROWS_PER_GROUP as nat })
    &&& forall|j: int| 0 <= j < s.rows@.len() ==> #[trigger] s.rows@[j] as int == idx[j]
    &&& (s.more_label is Some <==> idx.len() > MAX_REPAIR_ROWS_PER_GROUP)
    &&& (s.more_label matches Some(t) ==> t@ == "还有 "@ + dec((idx.len() - MAX_REPAIR_ROWS_PER_GROUP) as nat)
        + " 项未列出（每组一次最多列 "@ + dec(MAX_REPAIR_ROWS_PER_GROUP as nat) + " 项）"@)
}

proof fn lemma_group_indices_bounded(rows: Seq<RepairRowView>, g: RepairGroup, n: int)
    requires
        0 <= n <= rows.len(),
    ensures
        group_indices(rows, g, n).len() <= n,
        forall|j: int| 0 <= j < group_indices(rows, g, n).len()
            ==> 0 <= #[trigger] group_indices(rows, g, n)[j] < n,
    decreases n,
{
    if n > 0 {
        lemma_group_indices_bounded(rows, g, n - 1);
    }
}

impl RepairDialogState {
    /// The section of group `g` (`None` when the group has no row).
    fn section(&self, g: RepairGroup) -> (r: Option<RepairSection>)
        ensures
            r is Some <==> group_indices(self.rows_spec(), g, self.rows_spec().len() as int).len() > 0,
            r matches Some(s) ==> section_of(self.rows_spec(), g, s),
    {
        let ghost rv = self.rows_spec();
        let mut idx: Vec<usize> = Vec::new();
        let mut i: usize = 0;
        while i < self.rows.len()
            invariant
                i <= self.rows.len(),
                rv == repair_rows_view(self.rows@),
                rv.len() == self.rows@.len(),
                idx@.len() == group_indices(rv, g, i as int).len(),
                forall|j: int| 0 <= j < idx@.len() ==> #[trigger] idx@[j] as int == group_indices(rv, g, i as int)[j],
            decreases self.rows.len() - i,
        {
            assert(rv[i as int].group == self.rows@[i as int].group);
            if self.rows[i].group == g {
                idx.push(i);
            }
            i += 1;
        }
        let count = idx.len();
        if count == 0 {
            return None;
        }
        let shown: usize = if count < MAX_REPAIR_ROWS_PER_GROUP { count } else { MAX_REPAIR_ROWS_PER_GROUP };
        let mut listed_rows: Vec<usize> = Vec::new();
        let mut k: usize = 0;
        while k < shown
            invariant
                k <= shown <= idx@.len(),
                listed_rows@.len() == k,
                forall|j: int| 0 <= j < k ==> #[trigger] listed_rows@[j] == idx@[j],
            decreases shown - k,
        {
            listed_rows.push(idx[k]);
            k += 1;
        }
        let more_label = if count > MAX_REPAIR_ROWS_PER_GROUP {
            let mut t = owned("还有 ");
            push_dec(&mut t, (count - MAX_REPAIR_ROWS_PER_GROUP) as u64);
            push_str(&mut t, " 项未列出（每组一次最多列 ");
            push_dec(&mut t, MAX_REPAIR_ROWS_PER_GROUP as u64);
            push_str(&mut t, " 项）");
            Some(t)
        } else {
            None
        };
        Some(RepairSection { group: g, count, rows: listed_rows, more_label })
    }

    /// What the dialog shows now.
    pub fn layout(&self) -> (l: RepairLayout)
        ensures
            l.count_label@ == "共 "@ + dec(self.rows_spec().len()) + " 项需要处理"@,
            opt_view(l.note) == self.note_spec(),
            l.clean_label is Some <==> self.rows_spec().len() == 0,
            l.clean_label matches Some(t) ==> t@ == "索引与本体一致：没有需要处理的问题"@,
            l.sections@.len() == groups_with_rows(self.rows_spec(), 3).len(),
            forall|j: int| 0 <= j < l.sections@.len()
                ==> section_of(self.rows_spec(), groups_with_rows(self.rows_spec(), 3)[j], #[trigger] l.sections@[j]),
    {
        let n = self.rows.len();
        let mut count_label = owned("共 ");
        push_dec(&mut count_label, n as u64);
        push_str(&mut count_label, " 项需要处理");
        let clean_label = if n == 0 { Some(owned("索引与本体一致：没有需要处理的问题")) } else { None };
        let ghost rv = self.rows_spec();
        let mut sections: Vec<RepairSection> = Vec::new();
        let mut k: usize = 0;
        while k < 3
            invariant
                k <= 3,
                rv == self.rows_spec(),
                sections@.len() == groups_with_rows(rv, k as int).len(),
                forall|j: int| 0 <= j < sections@.len()
                    ==> section_of(rv, groups_with_rows(rv, k as int)[j], #[trigger] sections@[j]),
            decreases 3 - k,
        {
            let g = if k == 0 {
                RepairGroup::Untracked
            } else if k == 1 {
                RepairGroup::Missing
            } else {
                RepairGroup::Changed
            };
            assert(g == group_at(k as int));
            let ghost before = sections@;
            match self.section(g) {
                Some(sec) => {
                    sections.push(sec);
                    assert forall|j: int| 0 <= j < sections@.len()
                        implies section_of(rv, groups_with_rows(rv, k + 1)[j], #[trigger] sections@[j]) by {
                        if j < before.len() {
                            assert(sections@[j] == before[j]);
                        }
                    }
                },
                None => {},
            }
            k += 1;
        }
        RepairLayout { count_label, note: copy_opt_string(&self.note), clean_label, sections }
    }

    /// Whether a button is on a listed row and enabled.
    pub open spec fn press_enabled_spec(&self, index: usize, control: RepairControl) -> bool {
        &&& listed(self.rows_spec(), index as int)
        &&& controls_of(self.rows_spec()[index as int].group).contains(control)
        &&& control_enabled(control, self.busy_spec(), self.read_only_spec())
    }

    /// The question asked before a button's action (only deleting a record asks).
    pub fn confirmation(control: RepairControl) -> (c: Option<Confirmation>)
        ensures
            c is Some <==> control is DeleteRecord,
            c matches Some(q) ==> q.title@ == "删除这条登记记录？"@
                && q.description@ == "本体已经不存在，删掉记录后这个存档就彻底没了（不含回收站）。"@
                && q.ok_label is None,
    {
        match control {
            RepairControl::DeleteRecord => Some(Confirmation {
                title: owned("删除这条登记记录？"),
                description: owned("本体已经不存在，删掉记录后这个存档就彻底没了（不含回收站）。"),
                ok_label: None,
            }),
            _ => None,
        }
    }

    /// A pressed (and, for deleting a record, confirmed) button on row `index`:
    /// when it is on a listed row and enabled, a write turns the state busy with
    /// its note, and the action for the host comes back; otherwise nothing
    /// changes and no action comes.
    pub fn press(&mut self, index: usize, control: RepairControl) -> (r: Option<RepairAction>)
        ensures
            final(self).rows_spec() == old(self).rows_spec(),
            final(self).read_only_spec() == old(self).read_only_spec(),
            !old(self).press_enabled_spec(index, control) ==> r is None
                && final(self).busy_spec() == old(self).busy_spec()
                && final(self).note_spec() == old(self).note_spec(),
            old(self).press_enabled_spec(index, control) ==> {
                let row = old(self).rows_spec()[index as int];
                &&& (control_pending(control) matches Some(t) ==> final(self).busy_spec()
                    && final(self).note_spec() == Some(t))
                &&& (control_pending(control) is None ==> final(self).busy_spec() == old(self).busy_spec()
                    && final(self).note_spec() == old(self).note_spec())
                &&& match control {
                    RepairControl::Adopt => r matches Some(RepairAction::Adopt { rel_path })
                        && rel_path@ == row.rel_path,
                    RepairControl::DeleteRecord => r matches Some(RepairAction::DeleteRecord { resource_id })
                        && resource_id@ == id_or_empty(row.resource_id),
                    RepairControl::AcceptContent => r matches Some(RepairAction::AcceptContent { resource_id })
                        && resource_id@ == id_or_empty(row.resource_id),
                    RepairControl::OpenVersions => r matches Some(RepairAction::OpenVersions { resource_id })
                        && resource_id@ == id_or_empty(row.resource_id),
                    RepairControl::RestoreFromTrash => false,
                }
            },
    {
        let ghost rv = self.rows_spec();
        if index >= self.rows.len() {
            return None;
        }
        let g = self.rows[index].group;
        assert(rv[index as int].group == g);
        let mut before: usize = 0;
        let mut i: usize = 0;
        while i < index
            invariant
                i <= index < self.rows.len(),
                rv == repair_rows_view(self.rows@),
                rv.len() == self.rows@.len(),
                before == group_indices(rv, g, i as int).len(),
                before <= i,
            decreases index - i,
        {
            assert(rv[i as int].group == self.rows@[i as int].group);
            if self.rows[i].group == g {
                before += 1;
            }
            i += 1;
        }
        if before >= MAX_REPAIR_ROWS_PER_GROUP {
            return None;
        }
        let offered = match (g, control) {
            (RepairGroup::Untracked, RepairControl::Adopt) => true,
            (RepairGroup::Missing, RepairControl::RestoreFromTrash) => true,
            (RepairGroup::Missing, RepairControl::DeleteRecord) => true,
            (RepairGroup::Changed, RepairControl::AcceptContent) => true,
            (RepairGroup::Changed, RepairControl::OpenVersions) => true,
            _ => false,
        };
        assert(offered == controls_of(g).contains(control)) by {
            if offered {
                match control {
                    RepairControl::Adopt => assert(controls_of(g)[0] == control),
                    RepairControl::RestoreFromTrash => assert(controls_of(g)[0] == control),
                    RepairControl::DeleteRecord => assert(controls_of(g)[1] == control),
                    RepairControl::AcceptContent => assert(controls_of(g)[0] == control),
                    RepairControl::OpenVersions => assert(controls_of(g)[1] == control),
                }
            }
        }
        if !offered || !control.enabled(self.busy, self.read_only) {
            return None;
        }
        let resource_id = match &self.rows[index].resource_id {
            Some(id) => id.clone(),
            None => String::new(),
        };
        match control {
            RepairControl::Adopt => {
                let rel_path = self.rows[index].rel_path.clone();
                self.note = Some(owned("正在补登…"));
                self.busy = true;
                Some(RepairAction::Adopt { rel_path })
            },
            RepairControl::DeleteRecord => {
                self.note = Some(owned("正在删除记录…"));
                self.busy = true;
                Some(RepairAction::DeleteRecord { resource_id })
            },
            RepairControl::AcceptContent => {
                self.note = Some(owned("正在接受当前内容…"));
                self.busy = true;
                Some(RepairAction::AcceptContent { resource_id })
            },
            RepairControl::OpenVersions => Some(RepairAction::OpenVersions { resource_id }),
            RepairControl::RestoreFromTrash => None,
        }
    }
}

/// While an action runs, no repair that writes responds (only opening the version
/// history, which changes nothing, stays): a write turns the dialog busy
/// ([`RepairDialogState::press`]), so a second one sends nothing.
pub proof fn law_busy_repair_refuses_writes(state: RepairDialogState, index: usize, control: RepairControl)
    requires
        state.busy_spec(),
        control != RepairControl::OpenVersions,
    ensures
        !state.press_enabled_spec(index, control),
{
}

} // verus!
