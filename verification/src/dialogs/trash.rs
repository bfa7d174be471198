//! Trash dialog: this module's entries as rows, other modules' entries as a
//! note, and the state the host shares with the dialog.

use vstd::prelude::*;

use crate::dialogs::Confirmation;
use crate::resource_view::{copy_opt_string, opt_view};
use crate::text::{dec, owned, push_dec, push_str};

verus! {

/// Largest number of rows listed (the rest is announced, not hidden).
pub const MAX_TRASH_ROWS: usize = 100;

/// One trash entry of this module, formatted by the host.
#[derive(Debug, Clone, PartialEq, Eq)]
pub struct TrashRow {
    /// Entry id (restore and purge need it).
    pub trash_id: String,
    /// Name it had.
    pub name: String,
    /// Where it would be restored, such as `resources/reports/dau.sql`.
    pub original_label: String,
    /// File or folder.
    pub kind_label: String,
    /// Deletion time (absolute).
    pub time_label: String,
    /// Size (empty for folders).
    pub size_label: String,
}

/// The mathematical content of a trash row.
pub struct TrashRowView {
    pub trash_id: Seq<char>,
    pub name: Seq<char>,
    pub original_label: Seq<char>,
    pub kind_label: Seq<char>,
    pub time_label: Seq<char>,
    pub size_label: Seq<char>,
}

impl View for TrashRow {
    type V = TrashRowView;

    open spec fn view(&self) -> TrashRowView {
        TrashRowView {
            trash_id: self.trash_id@,
            name: self.name@,
            original_label: self.original_label@,
            kind_label: self.kind_label@,
            time_label: self.time_label@,
            size_label: self.size_label@,
        }
    }
}

/// The views of a list of trash rows.
pub open spec fn trash_rows_view(s: Seq<TrashRow>) -> Seq<TrashRowView> {
    s.map_values(|r: TrashRow| r@)
}

impl TrashRow {
    /// A field-by-field copy.
    pub fn duplicate(&self) -> (r: TrashRow)
        ensures
            r@ == self@,
    {
        TrashRow {
            trash_id: self.trash_id.clone(),
            name: self.name.clone(),
            original_label: self.original_label.clone(),
            kind_label: self.kind_label.clone(),
            time_label: self.time_label.clone(),
            size_label: self.size_label.clone(),
        }
    }
}

/// Entries that other modules left in the shared trash: a note, not rows.
#[derive(Debug, Clone, PartialEq, Eq)]
pub struct ForeignTrash {
    /// The module's display name (the host knows it).
    pub module_label: String,
    pub count: usize,
}

/// The view of a foreign note.
pub open spec fn foreign_view(f: ForeignTrash) -> (Seq<char>, usize) {
    (f.module_label@, f.count)
}

/// The views of foreign notes.
pub open spec fn foreigns_view(s: Seq<ForeignTrash>) -> Seq<(Seq<char>, usize)> {
    s.map_values(|f: ForeignTrash| foreign_view(f))
}

/// What the dialog opens with.
#[derive(Debug, Clone, PartialEq, Eq)]
pub struct TrashDialogSeed {
    /// This module's entries, newest deletion first.
    pub rows: Vec<TrashRow>,
    /// Other modules' counts (maybe none).
    pub foreign: Vec<ForeignTrash>,
}

/// An action of the dialog; the host carries it out.
#[derive(Debug, Clone, PartialEq, Eq)]
pub enum TrashAction {
    /// Restore one entry.
    Restore { trash_id: String },
    /// Delete one entry for good.
    Purge { trash_id: String },
    /// Empty this module's entries (other modules' stay).
    Empty,
}

/// The state the host shares with the dialog.
pub struct TrashDialogState {
    rows: Vec<TrashRow>,
    foreign: Vec<ForeignTrash>,
    busy: bool,
    read_only: bool,
    note: Option<String>,
}

impl TrashDialogState {
    /// The rows.
    pub closed spec fn rows_spec(&self) -> Seq<TrashRowView> {
        trash_rows_view(self.rows@)
    }

    /// The foreign notes.
    pub closed spec fn foreign_spec(&self) -> Seq<(Seq<char>, usize)> {
        foreigns_view(self.foreign@)
    }

    /// Whether an action is running.
    pub closed spec fn busy_spec(&self) -> bool {
        self.busy
    }

    /// Whether the project is read-only.
    pub closed spec fn read_only_spec(&self) -> bool {
        self.read_only
    }

    /// The note shown while an action runs.
    pub closed spec fn note_spec(&self) -> Option<Seq<char>> {
        opt_view(self.note)
    }

    /// An empty, idle, writable state.
    pub fn new() -> (s: Self)
        ensures
            s.rows_spec() == Seq::<TrashRowView>::empty(),
            s.foreign_spec() == Seq::<(Seq<char>, usize)>::empty(),
            !s.busy_spec(),
            !s.read_only_spec(),
            s.note_spec() is None,
    {
        let s = TrashDialogState { rows: Vec::new(), foreign: Vec::new(), busy: false, read_only: false, note: None };
        assert(s.rows_spec() =~= Seq::<TrashRowView>::empty());
        assert(s.foreign_spec() =~= Seq::<(Seq<char>, usize)>::empty());
        s
    }

    /// Replaces the rows wholesale.
    pub fn set_rows(&mut self, rows: Vec<TrashRow>)
        ensures
            final(self).rows_spec() == trash_rows_view(rows@),
            final(self).foreign_spec() == old(self).foreign_spec(),
            final(self).busy_spec() == old(self).busy_spec(),
            final(self).read_only_spec() == old(self).read_only_spec(),
            final(self).note_spec() == old(self).note_spec(),
    {
        self.rows = rows;
    }

    /// A copy of the rows.
    pub fn rows(&self) -> (r: Vec<TrashRow>)
        ensures
            trash_rows_view(r@) == self.rows_spec(),
    {
        let mut out: Vec<TrashRow> = Vec::new();
        let mut i: usize = 0;
        while i < self.rows.len()
            invariant
                i <= self.rows.len(),
                trash_rows_view(out@) == trash_rows_view(self.rows@.take(i as int)),
            decreases self.rows.len() - i,
        {
            let ghost prev = out@;
            out.push(self.rows[i].duplicate());
            assert(self.rows@.take(i + 1) == self.rows@.take(i as int).push(self.rows@[i as int]));
            assert(trash_rows_view(out@) == trash_rows_view(prev).push(self.rows@[i as int]@));
            assert(trash_rows_view(self.rows@.take(i + 1)) == trash_rows_view(self.rows@.take(i as int)).push(
                self.rows@[i as int]@,
            ));
            i += 1;
        }
        assert(self.rows@.take(self.rows.len() as int) == self.rows@);
        out
    }

    /// Replaces the foreign notes.
    pub fn set_foreign(&mut self, foreign: Vec<ForeignTrash>)
        ensures
            final(self).foreign_spec() == foreigns_view(foreign@),
            final(self).rows_spec() == old(self).rows_spec(),
            final(self).busy_spec() == old(self).busy_spec(),
            final(self).read_only_spec() == old(self).read_only_spec(),
            final(self).note_spec() == old(self).note_spec(),
    {
        self.foreign = foreign;
    }

    /// A copy of the foreign notes.
    pub fn foreign(&self) -> (r: Vec<ForeignTrash>)
        ensures
            foreigns_view(r@) == self.foreign_spec(),
    {
        let mut out: Vec<ForeignTrash> = Vec::new();
        let mut i: usize = 0;
        while i < self.foreign.len()
            invariant
                i <= self.foreign.len(),
                foreigns_view(out@) == foreigns_view(self.foreign@.take(i as int)),
            decreases self.foreign.len() - i,
        {
            let ghost prev = out@;
            out.push(ForeignTrash { module_label: self.foreign[i].module_label.clone(), count: self.foreign[i].count });
            assert(self.foreign@.take(i + 1) == self.foreign@.take(i as int).push(self.foreign@[i as int]));
            assert(foreigns_view(out@) == foreigns_view(prev).push(foreign_view(self.foreign@[i as int])));
            assert(foreigns_view(self.foreign@.take(i + 1)) == foreigns_view(self.foreign@.take(i as int)).push(
                foreign_view(self.foreign@[i as int]),
            ));
            i += 1;
        }
        assert(self.foreign@.take(self.foreign.len() as int) == self.foreign@);
        out
    }

    /// Marks an action as running or done.
    pub fn set_busy(&mut self, busy: bool)
        ensures
            final(self).busy_spec() == busy,
            final(self).rows_spec() == old(self).rows_spec(),
            final(self).foreign_spec() == old(self).foreign_spec(),
            final(self).read_only_spec() == old(self).read_only_spec(),
            final(self).note_spec() == old(self).note_spec(),
    {
        self.busy = busy;
    }

    /// Whether an action is running.
    pub fn busy(&self) -> (b: bool)
        ensures
            b == self.busy_spec(),
    {
        self.busy
    }

    /// Marks the project as read-only or writable.
    pub fn set_read_only(&mut self, read_only: bool)
        ensures
            final(self).read_only_spec() == read_only,
            final(self).rows_spec() == old(self).rows_spec(),
            final(self).foreign_spec() == old(self).foreign_spec(),
            final(self).busy_spec() == old(self).busy_spec(),
            final(self).note_spec() == old(self).note_spec(),
    {
        self.read_only = read_only;
    }

    /// Whether the project is read-only.
    pub fn read_only(&self) -> (b: bool)
        ensures
            b == self.read_only_spec(),
    {
        self.read_only
    }

    /// Sets or clears the note.
    pub fn set_note(&mut self, note: Option<String>)
        ensures
            final(self).note_spec() == opt_view(note),
            final(self).rows_spec() == old(self).rows_spec(),
            final(self).foreign_spec() == old(self).foreign_spec(),
            final(self).busy_spec() == old(self).busy_spec(),
            final(self).read_only_spec() == old(self).read_only_spec(),
    {
        self.note = note;
    }

    /// The note.
    pub fn note(&self) -> (r: Option<String>)
        ensures
            opt_view(r) == self.note_spec(),
    {
        copy_opt_string(&self.note)
    }
}

/// `共 N 项`: how many entries this module has in the trash.
pub open spec fn count_text(n: nat) -> Seq<char> {
    "共 "@ + dec(n) + " 项"@
}

/// The line under a list that leaves `hidden` entries out.
pub open spec fn more_text(hidden: nat) -> Seq<char> {
    "还有 "@ + dec(hidden) + " 项未列出（一次最多列 "@ + dec(MAX_TRASH_ROWS as nat) + " 项）"@
}

/// The line that explains another module's entries.
pub open spec fn foreign_text(f: (Seq<char>, usize)) -> Seq<char> {
    "另有 "@ + dec(f.1 as nat) + " 条「"@ + f.0 + "」的条目共用一个回收站——请在那个模块的界面里处理"@
}

/// What the dialog shows for one state.
pub struct TrashLayout {
    /// `共 N 项`.
    pub count_label: String,
    /// The note of a running action.
    pub note: Option<String>,
    /// How many rows are listed (the first ones).
    pub shown: usize,
    /// The text in place of the list when there is no row.
    pub empty_label: Option<String>,
    /// The line under the list when rows were left out.
    pub more_label: Option<String>,
    /// One line per other module.
    pub foreign_labels: Vec<String>,
    /// Whether the row buttons (restore, purge) are enabled.
    pub rows_enabled: bool,
    /// Whether "empty the trash" is enabled.
    pub empty_enabled: bool,
}

/// A button of the dialog; a row button names the row by its index.
#[derive(Debug, Clone, Copy, PartialEq, Eq, Structural)]
pub enum TrashControl {
    Restore { index: usize },
    Purge { index: usize },
    Empty,
}

impl TrashDialogState {
    /// Neither busy nor read-only.
    pub open spec fn can_write_spec(&self) -> bool {
        !self.busy_spec() && !self.read_only_spec()
    }

    /// How many rows the dialog lists.
    pub open spec fn shown_spec(&self) -> nat {
        if self.rows_spec().len() < MAX_TRASH_ROWS {
            self.rows_spec().len()
        } else {
            MAX_TRASH_ROWS as nat
        }
    }

    /// Whether a button is there and enabled.
    pub open spec fn enabled_spec(&self, control: TrashControl) -> bool {
        &&& self.can_write_spec()
        &&& match control {
            TrashControl::Restore { index } => index < self.shown_spec(),
            TrashControl::Purge { index } => index < self.shown_spec(),
            TrashControl::Empty => self.rows_spec().len() > 0,
        }
    }

    /// The note a pressed button leaves while its action runs.
    pub open spec fn pending_text(control: TrashControl) -> Seq<char> {
        match control {
            TrashControl::Restore { .. } => "正在还原…"@,
            TrashControl::Purge { .. } => "正在永久删除…"@,
            TrashControl::Empty => "正在清空…"@,
        }
    }

    /// Opening the dialog: an empty state takes the seed's rows and notes, a
    /// filled one (the host already pushed rows) keeps its own.
    pub fn adopt_seed(&mut self, seed: TrashDialogSeed)
        ensures
            old(self).rows_spec().len() == 0 ==> final(self).rows_spec() == trash_rows_view(seed.rows@)
                && final(self).foreign_spec() == foreigns_view(seed.foreign@),
            old(self).rows_spec().len() > 0 ==> final(self).rows_spec() == old(self).rows_spec()
                && final(self).foreign_spec() == old(self).foreign_spec(),
            final(self).busy_spec() == old(self).busy_spec(),
            final(self).read_only_spec() == old(self).read_only_spec(),
            final(self).note_spec() == old(self).note_spec(),
    {
        if self.rows.len() == 0 {
            self.rows = seed.rows;
            self.foreign = seed.foreign;
        }
    }

    /// What the dialog shows now.
    pub fn layout(&self) -> (l: TrashLayout)
        ensures
            l.count_label@ == count_text(self.rows_spec().len()),
            opt_view(l.note) == self.note_spec(),
            l.shown == self.shown_spec(),
            l.empty_label is Some <==> self.rows_spec().len() == 0,
            l.empty_label matches Some(t) ==> t@ == "回收站是空的"@,
            l.more_label is Some <==> self.rows_spec().len() > MAX_TRASH_ROWS,
            l.more_label matches Some(t) ==> t@ == more_text((self.rows_spec().len() - MAX_TRASH_ROWS) as nat),
            l.foreign_labels@.len() == self.foreign_spec().len(),
            forall|i: int| 0 <= i < l.foreign_labels@.len()
                ==> #[trigger] l.foreign_labels@[i]@ == foreign_text(self.foreign_spec()[i]),
            l.rows_enabled == self.can_write_spec(),
            l.empty_enabled == (self.can_write_spec() && self.rows_spec().len() > 0),
    {
        let n = self.rows.len();
        let mut count_label = owned("共 ");
        push_dec(&mut count_label, n as u64);
        push_str(&mut count_label, " 项");
        let shown: usize = if n < MAX_TRASH_ROWS { n } else { MAX_TRASH_ROWS };
        let empty_label = if n == 0 { Some(owned("回收站是空的")) } else { None };
        let more_label = if n > MAX_TRASH_ROWS {
            let mut t = owned("还有 ");
            push_dec(&mut t, (n - MAX_TRASH_ROWS) as u64);
            push_str(&mut t, " 项未列出（一次最多列 ");
            push_dec(&mut t, MAX_TRASH_ROWS as u64);
            push_str(&mut t, " 项）");
            Some(t)
        } else {
            None
        };
        let mut foreign_labels: Vec<String> = Vec::new();
        let mut i: usize = 0;
        while i < self.foreign.len()
            invariant
                i <= self.foreign.len(),
                foreign_labels@.len() == i,
                forall|j: int| 0 <= j < i
                    ==> #[trigger] foreign_labels@[j]@ == foreign_text(foreigns_view(self.foreign@)[j]),
            decreases self.foreign.len() - i,
        {
            let mut t = owned("另有 ");
            push_dec(&mut t, self.foreign[i].count as u64);
            push_str(&mut t, " 条「");
            push_str(&mut t, self.foreign[i].module_label.as_str());
            push_str(&mut t, "」的条目共用一个回收站——请在那个模块的界面里处理");
            foreign_labels.push(t);
            i += 1;
        }
        let can_write = !self.busy && !self.read_only;
        TrashLayout {
            count_label,
            note: copy_opt_string(&self.note),
            shown,
            empty_label,
            more_label,
            foreign_labels,
            rows_enabled: can_write,
            empty_enabled: can_write && n > 0,
        }
    }

    /// The question asked before a button's action, for the buttons that ask one
    /// (purging a row, emptying the trash).
    pub fn confirmation(&self, control: TrashControl) -> (c: Option<Confirmation>)
        requires
            self.enabled_spec(control),
        ensures
            c is Some <==> !(control is Restore),
            control matches TrashControl::Purge { index } ==> (c matches Some(q)
                && q.title@ == "永久删除「"@ + self.rows_spec()[index as int].name + "」？"@
                && q.description@ == "本体将从回收站里彻底删除，不可恢复；登记记录一并删除。"@
                && opt_view(q.ok_label) == Some("永久删除"@)),
            control is Empty ==> (c matches Some(q)
                && q.title@ == "清空资产库的回收站？"@
                && q.description@ == "将彻底删除资产库的 "@ + dec(self.rows_spec().len())
                    + " 项（本体不再保留，不可恢复）；其他模块共用的条目不会被删。"@
                && opt_view(q.ok_label) == Some("清空"@)),
    {
        match control {
            TrashControl::Restore { .. } => None,
            TrashControl::Purge { index } => {
                let mut title = owned("永久删除「");
                push_str(&mut title, self.rows[index].name.as_str());
                push_str(&mut title, "」？");
                Some(Confirmation {
                    title,
                    description: owned("本体将从回收站里彻底删除，不可恢复；登记记录一并删除。"),
                    ok_label: Some(owned("永久删除")),
                })
            },
            TrashControl::Empty => {
                let mut description = owned("将彻底删除资产库的 ");
                push_dec(&mut description, self.rows.len() as u64);
                push_str(&mut description, " 项（本体不再保留，不可恢复）；其他模块共用的条目不会被删。");
                Some(Confirmation {
                    title: owned("清空资产库的回收站？"),
                    description,
                    ok_label: Some(owned("清空")),
                })
            },
        }
    }

    /// A pressed (and, where asked, confirmed) button: when it is enabled, the
    /// state turns busy with the button's note and the action for the host comes
    /// back; a disabled or absent button changes nothing and gives no action.
    pub fn press(&mut self, control: TrashControl) -> (r: Option<TrashAction>)
        ensures
            final(self).rows_spec() == old(self).rows_spec(),
            final(self).foreign_spec() == old(self).foreign_spec(),
            final(self).read_only_spec() == old(self).read_only_spec(),
            !old(self).enabled_spec(control) ==> r is None
                && final(self).busy_spec() == old(self).busy_spec()
                && final(self).note_spec() == old(self).note_spec(),
            old(self).enabled_spec(control) ==> final(self).busy_spec()
                && final(self).note_spec() == Some(Self::pending_text(control))
                && match control {
                    TrashControl::Restore { index } => r matches Some(TrashAction::Restore { trash_id })
                        && trash_id@ == old(self).rows_spec()[index as int].trash_id,
                    TrashControl::Purge { index } => r matches Some(TrashAction::Purge { trash_id })
                        && trash_id@ == old(self).rows_spec()[index as int].trash_id,
                    TrashControl::Empty => r matches Some(TrashAction::Empty),
                },
    {
        let n = self.rows.len();
        let shown: usize = if n < MAX_TRASH_ROWS { n } else { MAX_TRASH_ROWS };
        if self.busy || self.read_only {
            return None;
        }
        let action = match control {
            TrashControl::Restore { index } => {
                if index >= shown {
                    return None;
                }
                self.note = Some(owned("正在还原…"));
                TrashAction::Restore { trash_id: self.rows[index].trash_id.clone() }
            },
            TrashControl::Purge { index } => {
                if index >= shown {
                    return None;
                }
                self.note = Some(owned("正在永久删除…"));
                TrashAction::Purge { trash_id: self.rows[index].trash_id.clone() }
            },
            TrashControl::Empty => {
                if n == 0 {
                    return None;
                }
                self.note = Some(owned("正在清空…"));
                TrashAction::Empty
            },
        };
        self.busy = true;
        Some(action)
    }
}

impl Default for TrashDialogState {
    fn default() -> (s: Self)
        ensures
            s.rows_spec() == Seq::<TrashRowView>::empty(),
            s.foreign_spec() == Seq::<(Seq<char>, usize)>::empty(),
            !s.busy_spec(),
            !s.read_only_spec(),
            s.note_spec() is None,
    {
        TrashDialogState::new()
    }
}

/// While an action runs, no button of the dialog responds: a pressed button turns
/// the dialog busy ([`TrashDialogState::press`]), so a second press sends nothing.
pub proof fn law_busy_trash_refuses(state: TrashDialogState, control: TrashControl)
    requires
        state.busy_spec(),
    ensures
        !state.enabled_spec(control),
{
}

} // verus!
