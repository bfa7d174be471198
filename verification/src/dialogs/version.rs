//! Version history dialog: the rows (current version included), the actions on
//! a chosen version, and the state the host shares with the dialog.

use vstd::prelude::*;

use crate::dialogs::Confirmation;
use crate::resource_view::{copy_opt_string, opt_view};
use crate::text::{dec, dec_int, owned, push_dec, push_dec_i64, push_str};

verus! {

/// Largest number of rows listed (the newest ones; the rest is announced).
pub const MAX_VERSION_ROWS: usize = 50;

/// One version, formatted by the host.
#[derive(Debug, Clone, PartialEq, Eq)]
pub struct VersionRow {
    /// Version number (rows go newest first).
    pub version: i32,
    /// The version on the payload now.
    pub is_current: bool,
    /// Absolute time.
    pub time_label: String,
    /// Size (empty when the snapshot had none).
    pub size_label: String,
    /// First characters of the fingerprint.
    pub hash_short: String,
    /// Whether a content copy exists (for the current version: the payload is in place).
    pub has_copy: bool,
    /// Difference with the version just before, such as `较 v1 大小+1.0 KB · 指纹已变`.
    pub delta_label: String,
}

/// The mathematical content of a version row.
pub struct VersionRowView {
    pub version: i32,
    pub is_current: bool,
    pub time_label: Seq<char>,
    pub size_label: Seq<char>,
    pub hash_short: Seq<char>,
    pub has_copy: bool,
    pub delta_label: Seq<char>,
}

impl View for VersionRow {
    type V = VersionRowView;

    open spec fn view(&self) -> VersionRowView {
        VersionRowView {
            version: self.version,
            is_current: self.is_current,
            time_label: self.time_label@,
            size_label: self.size_label@,
            hash_short: self.hash_short@,
            has_copy: self.has_copy,
            delta_label: self.delta_label@,
        }
    }
}

/// The views of a list of version rows.
pub open spec fn version_rows_view(s: Seq<VersionRow>) -> Seq<VersionRowView> {
    s.map_values(|r: VersionRow| r@)
}

impl VersionRow {
    /// A field-by-field copy.
    pub fn duplicate(&self) -> (r: VersionRow)
        ensures
            r@ == self@,
    {
        VersionRow {
            version: self.version,
            is_current: self.is_current,
            time_label: self.time_label.clone(),
            size_label: self.size_label.clone(),
            hash_short: self.hash_short.clone(),
            has_copy: self.has_copy,
            delta_label: self.delta_label.clone(),
        }
    }
}

/// What the dialog opens with.
#[derive(Debug, Clone, PartialEq, Eq)]
pub struct VersionDialogSeed {
    /// Display name of the archive.
    pub name: String,
    pub current_version: i32,
    /// Rows, newest first, the current version included.
    pub rows: Vec<VersionRow>,
}

/// An action on the chosen version; the host carries it out.
#[derive(Debug, Clone, Copy, PartialEq, Eq, Structural)]
pub enum VersionAction {
    /// Make a new version from this one's content (history is kept).
    Restore { version: i32 },
    /// Copy this version out as a writable draft.
    CheckoutDraft { version: i32 },
    /// Delete this version's content copy (the row stays).
    DeleteCopy { version: i32 },
}

/// The version an action is about.
pub open spec fn action_version(a: VersionAction) -> i32 {
    match a {
        VersionAction::Restore { version } => version,
        VersionAction::CheckoutDraft { version } => version,
        VersionAction::DeleteCopy { version } => version,
    }
}

impl VersionAction {
    /// The version the action is about.
    pub fn version(self) -> (v: i32)
        ensures
            v == action_version(self),
    {
        match self {
            VersionAction::Restore { version } => version,
            VersionAction::CheckoutDraft { version } => version,
            VersionAction::DeleteCopy { version } => version,
        }
    }
}

/// Some row has the version `v`.
pub open spec fn has_version(rows: Seq<VersionRowView>, v: i32) -> bool {
    exists|i: int| 0 <= i < rows.len() && (#[trigger] rows[i]).version == v
}

/// `i` is the first row with the version `v`.
pub open spec fn first_with_version(rows: Seq<VersionRowView>, v: i32, i: int) -> bool {
    &&& 0 <= i < rows.len()
    &&& rows[i].version == v
    &&& forall|j: int| 0 <= j < i ==> (#[trigger] rows[j]).version != v
}

/// The state the host shares with the dialog.
///
/// The selection always names a listed version or nothing.
pub struct VersionDialogState {
    rows: Vec<VersionRow>,
    selected: Option<i32>,
    busy: bool,
    read_only: bool,
    note: Option<String>,
}

impl VersionDialogState {
    /// The rows.
    pub closed spec fn rows_spec(&self) -> Seq<VersionRowView> {
        version_rows_view(self.rows@)
    }

    /// The chosen version.
    pub closed spec fn selected_spec(&self) -> Option<i32> {
        self.selected
    }

    /// Whether an action is running.
    pub closed spec fn busy_spec(&self) -> bool {
        self.busy
    }

    /// Whether the project is read-only.
    pub closed spec fn read_only_spec(&self) -> bool {
        self.read_only
    }

    /// The note shown while an action runs.
    pub closed spec fn note_spec(&self) -> Option<Seq<char>> {
        opt_view(self.note)
    }

    /// An empty state with nothing chosen.
    pub fn new() -> (s: Self)
        ensures
            s.rows_spec() == Seq::<VersionRowView>::empty(),
            s.selected_spec() is None,
            !s.busy_spec(),
            !s.read_only_spec(),
            s.note_spec() is None,
    {
        let s = VersionDialogState { rows: Vec::new(), selected: None, busy: false, read_only: false, note: None };
        assert(s.rows_spec() =~= Seq::<VersionRowView>::empty());
        s
    }

    /// Replaces the rows; a chosen version that is no longer listed is dropped.
    pub fn set_rows(&mut self, rows: Vec<VersionRow>)
        ensures
            final(self).rows_spec() == version_rows_view(rows@),
            final(self).selected_spec() == match old(self).selected_spec() {
                Some(v) => if has_version(version_rows_view(rows@), v) {
                    Some(v)
                } else {
                    None
                },
                None => None,
            },
            final(self).busy_spec() == old(self).busy_spec(),
            final(self).read_only_spec() == old(self).read_only_spec(),
            final(self).note_spec() == old(self).note_spec(),
    {
        let ghost rv = version_rows_view(rows@);
        if let Some(selected) = self.selected {
            let mut found = false;
            let mut i: usize = 0;
            while i < rows.len()
                invariant
                    i <= rows.len(),
                    rv == version_rows_view(rows@),
                    found == exists|j: int| 0 <= j < i && (#[trigger] rv[j]).version == selected,
                decreases rows.len() - i,
            {
                if rows[i].version == selected {
                    found = true;
                }
                assert(rv[i as int].version == rows@[i as int].version);
                i += 1;
            }
            if !found {
                self.selected = None;
            }
        }
        self.rows = rows;
    }

    /// A copy of the rows.
    pub fn rows(&self) -> (r: Vec<VersionRow>)
        ensures
            version_rows_view(r@) == self.rows_spec(),
    {
        let mut out: Vec<VersionRow> = Vec::new();
        let mut i: usize = 0;
        while i < self.rows.len()
            invariant
                i <= self.rows.len(),
                version_rows_view(out@) == version_rows_view(self.rows@.take(i as int)),
            decreases self.rows.len() - i,
        {
            let ghost prev = out@;
            out.push(self.rows[i].duplicate());
            assert(self.rows@.take(i + 1) == self.rows@.take(i as int).push(self.rows@[i as int]));
            assert(version_rows_view(out@) == version_rows_view(prev).push(self.rows@[i as int]@));
            assert(version_rows_view(self.rows@.take(i + 1)) == version_rows_view(self.rows@.take(i as int)).push(
                self.rows@[i as int]@,
            ));
            i += 1;
        }
        assert(self.rows@.take(self.rows.len() as int) == self.rows@);
        out
    }

    /// Chooses a version (or none).
    pub fn set_selected(&mut self, version: Option<i32>)
        ensures
            final(self).selected_spec() == version,
            final(self).rows_spec() == old(self).rows_spec(),
            final(self).busy_spec() == old(self).busy_spec(),
            final(self).read_only_spec() == old(self).read_only_spec(),
            final(self).note_spec() == old(self).note_spec(),
    {
        self.selected = version;
    }

    /// The chosen version.
    pub fn selected(&self) -> (r: Option<i32>)
        ensures
            r == self.selected_spec(),
    {
        self.selected
    }

    /// The first row of the chosen version, if any.
    pub fn selected_row(&self) -> (r: Option<VersionRow>)
        ensures
            match r {
                Some(row) => self.selected_spec() == Some(row.version) && exists|i: int|
                    first_with_version(self.rows_spec(), row.version, i) && self.rows_spec()[i] == row@,
                None => match self.selected_spec() {
                    Some(v) => !has_version(self.rows_spec(), v),
                    None => true,
                },
            },
    {
        match self.selected {
            None => None,
            Some(selected) => {
                let ghost rv = self.rows_spec();
                let mut i: usize = 0;
                while i < self.rows.len()
                    invariant
                        i <= self.rows.len(),
                        rv == version_rows_view(self.rows@),
                        self.selected == Some(selected),
                        forall|j: int| 0 <= j < i ==> (#[trigger] rv[j]).version != selected,
                    decreases self.rows.len() - i,
                {
                    if self.rows[i].version == selected {
                        let row = self.rows[i].duplicate();
                        assert(rv[i as int] == row@);
                        assert(row.version == selected);
                        assert(rv == self.rows_spec());
                        assert(first_with_version(self.rows_spec(), row.version, i as int));
                        assert(self.selected_spec() == Some(row.version));
                        assert(self.rows_spec()[i as int] == row@);
                        return Some(row);
                    }
                    i += 1;
                }
                None
            },
        }
    }

    /// Marks an action as running or done.
    pub fn set_busy(&mut self, busy: bool)
        ensures
            final(self).busy_spec() == busy,
            final(self).rows_spec() == old(self).rows_spec(),
            final(self).selected_spec() == old(self).selected_spec(),
            final(self).read_only_spec() == old(self).read_only_spec(),
            final(self).note_spec() == old(self).note_spec(),
    {
        self.busy = busy;
    }

    /// Whether an action is running.
    pub fn busy(&self) -> (b: bool)
        ensures
            b == self.busy_spec(),
    {
        self.busy
    }

    /// Marks the project as read-only or writable.
    pub fn set_read_only(&mut self, read_only: bool)
        ensures
            final(self).read_only_spec() == read_only,
            final(self).rows_spec() == old(self).rows_spec(),
            final(self).selected_spec() == old(self).selected_spec(),
            final(self).busy_spec() == old(self).busy_spec(),
            final(self).note_spec() == old(self).note_spec(),
    {
        self.read_only = read_only;
    }

    /// Whether the project is read-only.
    pub fn read_only(&self) -> (b: bool)
        ensures
            b == self.read_only_spec(),
    {
        self.read_only
    }

    /// Sets or clears the note.
    pub fn set_note(&mut self, note: Option<String>)
        ensures
            final(self).note_spec() == opt_view(note),
            final(self).rows_spec() == old(self).rows_spec(),
            final(self).selected_spec() == old(self).selected_spec(),
            final(self).busy_spec() == old(self).busy_spec(),
            final(self).read_only_spec() == old(self).read_only_spec(),
    {
        self.note = note;
    }

    /// The note.
    pub fn note(&self) -> (r: Option<String>)
        ensures
            opt_view(r) == self.note_spec(),
    {
        copy_opt_string(&self.note)
    }
}

/// The first row with the version `v`, if any.
pub open spec fn first_row_with(rows: Seq<VersionRowView>, v: i32) -> Option<VersionRowView>
    decreases rows.len(),
{
    if rows.len() == 0 {
        None
    } else if rows[0].version == v {
        Some(rows[0])
    } else {
        first_row_with(rows.drop_first(), v)
    }
}

proof fn lemma_first_row_with(rows: Seq<VersionRowView>, v: i32, i: int)
    requires
        first_with_version(rows, v, i),
    ensures
        first_row_with(rows, v) == Some(rows[i]),
    decreases rows.len(),
{
    if i > 0 {
        assert(rows[0].version != v);
        let rest = rows.drop_first();
        assert forall|j: int| 0 <= j < i - 1 implies (#[trigger] rest[j]).version != v by {
            assert(rest[j] == rows[j + 1]);
        }
        assert(rest[i - 1] == rows[i]);
        lemma_first_row_with(rest, v, i - 1);
    }
}

proof fn lemma_no_row_with(rows: Seq<VersionRowView>, v: i32)
    requires
        !has_version(rows, v),
    ensures
        first_row_with(rows, v) is None,
    decreases rows.len(),
{
    if rows.len() > 0 {
        assert(rows[0].version != v);
        let rest = rows.drop_first();
        assert(!has_version(rest, v)) by {
            if has_version(rest, v) {
                let i = choose|i: int| 0 <= i < rest.len() && (#[trigger] rest[i]).version == v;
                assert(rows[i + 1] == rest[i]);
            }
        }
        lemma_no_row_with(rest, v);
    }
}

/// Whether the actions on a row can run: not the current version (it is the
/// payload itself), a content copy kept, nothing running, the project writable.
pub open spec fn can_act(row: VersionRowView, busy: bool, read_only: bool) -> bool {
    !row.is_current && row.has_copy && !busy && !read_only
}

/// The line under the action buttons.
pub open spec fn hint_text(row: VersionRowView, read_only: bool) -> Seq<char> {
    if read_only {
        "项目处于只读模式：还原 / 取回 / 删副本都是写操作"@
    } else if row.is_current {
        "这是当前版本（本体上的内容）：取回请用详情面板的「取回（检出）…」"@
    } else if !row.has_copy {
        "该版本只留了元数据（内容副本已被保留策略裁剪），不能还原或取回"@
    } else {
        "还原 = 用这一版的内容生成新版本；取回 = 复制一份可写草稿（本体不动）"@
    }
}

/// The label of the restore button: restoring makes the next version.
pub open spec fn restore_text(row: VersionRowView) -> Seq<char> {
    if row.is_current {
        "当前版本"@
    } else {
        "还原为当前版本（生成 v"@ + dec_int(row.version + 1) + "）"@
    }
}

/// `v3`.
pub open spec fn version_text(v: i32) -> Seq<char> {
    "v"@ + dec_int(v as int)
}

/// The bar under the list once a version is chosen.
pub struct VersionActionBar {
    /// The chosen version.
    pub version: i32,
    /// The restore button's label.
    pub restore_label: String,
    /// Whether the three buttons (restore, take out as draft, delete the copy) are enabled.
    pub enabled: bool,
    /// The line under the buttons.
    pub hint: String,
}

/// What the dialog shows for one state.
pub struct VersionLayout {
    /// `版本历史 · name`.
    pub title: String,
    /// `当前版本 vN`.
    pub current_label: String,
    /// `共 N 个版本`.
    pub count_label: String,
    /// The note of a running action.
    pub note: Option<String>,
    /// How many rows are listed (the newest ones).
    pub shown: usize,
    /// The line under the list when older versions were left out.
    pub more_label: Option<String>,
    /// The bar of the chosen version, when one is listed.
    pub action_bar: Option<VersionActionBar>,
}

/// A button of the action bar.
#[derive(Debug, Clone, Copy, PartialEq, Eq, Structural)]
pub enum VersionControl {
    Restore,
    CheckoutDraft,
    DeleteCopy,
}

impl VersionDialogState {
    /// The first row of the chosen version, if one is chosen and listed.
    pub open spec fn selected_row_spec(&self) -> Option<VersionRowView> {
        match self.selected_spec() {
            Some(v) => first_row_with(self.rows_spec(), v),
            None => None,
        }
    }

    /// How many rows the dialog lists.
    pub open spec fn shown_spec(&self) -> nat {
        if self.rows_spec().len() < MAX_VERSION_ROWS {
            self.rows_spec().len()
        } else {
            MAX_VERSION_ROWS as nat
        }
    }

    /// Whether the buttons of the action bar are there and enabled.
    pub open spec fn enabled_spec(&self) -> bool {
        &&& self.selected_row_spec() is Some
        &&& can_act(self.selected_row_spec().unwrap(), self.busy_spec(), self.read_only_spec())
    }

    /// The note a pressed button leaves while its action runs.
    pub open spec fn pending_text(control: VersionControl, v: i32) -> Seq<char> {
        match control {
            VersionControl::Restore => "正在还原 "@ + version_text(v) + "…"@,
            VersionControl::CheckoutDraft => "正在取回 "@ + version_text(v) + "…"@,
            VersionControl::DeleteCopy => "正在删除 "@ + version_text(v) + " 的内容副本…"@,
        }
    }

    /// Index of the first row of the chosen version.
    fn selected_index(&self) -> (r: Option<usize>)
        ensures
            match r {
                Some(i) => i < self.rows@.len() && self.selected_row_spec() == Some(self.rows_spec()[i as int])
                    && self.selected_spec() == Some(self.rows_spec()[i as int].version),
                None => self.selected_row_spec() is None,
            },
    {
        match self.selected {
            None => None,
            Some(selected) => {
                let ghost rv = self.rows_spec();
                let mut i: usize = 0;
                while i < self.rows.len()
                    invariant
                        i <= self.rows.len(),
                        rv == version_rows_view(self.rows@),
                        rv.len() == self.rows@.len(),
                        self.selected == Some(selected),
                        forall|j: int| 0 <= j < i ==> (#[trigger] rv[j]).version != selected,
                    decreases self.rows.len() - i,
                {
                    assert(rv[i as int].version == self.rows@[i as int].version);
                    if self.rows[i].version == selected {
                        proof {
                            lemma_first_row_with(rv, selected, i as int);
                        }
                        return Some(i);
                    }
                    i += 1;
                }
                proof {
                    assert(!has_version(rv, selected));
                    lemma_no_row_with(rv, selected);
                }
                None
            },
        }
    }

    /// Opening the dialog: an empty state takes the seed's rows (through
    /// [`Self::set_rows`]), a filled one keeps its own.
    pub fn adopt_seed(&mut self, seed: VersionDialogSeed)
        ensures
            old(self).rows_spec().len() == 0 ==> final(self).rows_spec() == version_rows_view(seed.rows@)
                && final(self).selected_spec() == match old(self).selected_spec() {
                    Some(v) => if has_version(version_rows_view(seed.rows@), v) {
                        Some(v)
                    } else {
                        None
                    },
                    None => None,
                },
            old(self).rows_spec().len() > 0 ==> final(self).rows_spec() == old(self).rows_spec()
                && final(self).selected_spec() == old(self).selected_spec(),
            final(self).busy_spec() == old(self).busy_spec(),
            final(self).read_only_spec() == old(self).read_only_spec(),
            final(self).note_spec() == old(self).note_spec(),
    {
        if self.rows.len() == 0 {
            self.set_rows(seed.rows);
        }
    }

    /// What the dialog shows now, for the archive named `name` whose current
    /// version is `current_version`.
    pub fn layout(&self, name: &str, current_version: i32) -> (l: VersionLayout)
        requires
            self.selected_row_spec() matches Some(row) ==> row.is_current || row.version < i32::MAX,
        ensures
            l.title@ == "版本历史 · "@ + name@,
            l.current_label@ == "当前版本 "@ + version_text(current_version),
            l.count_label@ == "共 "@ + dec(self.rows_spec().len()) + " 个版本"@,
            opt_view(l.note) == self.note_spec(),
            l.shown == self.shown_spec(),
            l.more_label is Some <==> self.rows_spec().len() > MAX_VERSION_ROWS,
            l.more_label matches Some(t) ==> t@ == "还有 "@ + dec((self.rows_spec().len() - MAX_VERSION_ROWS) as nat)
                + " 个更早的版本未列出（一次最多列 "@ + dec(MAX_VERSION_ROWS as nat) + " 个）"@,
            l.action_bar is Some <==> self.selected_row_spec() is Some,
            l.action_bar matches Some(bar) ==> {
                let row = self.selected_row_spec().unwrap();
                &&& bar.version == row.version
                &&& bar.restore_label@ == restore_text(row)
                &&& bar.enabled == can_act(row, self.busy_spec(), self.read_only_spec())
                &&& bar.hint@ == hint_text(row, self.read_only_spec())
            },
    {
        let mut title = owned("版本历史 · ");
        push_str(&mut title, name);
        let mut current_label = owned("当前版本 v");
        push_dec_i64(&mut current_label, current_version as i64);
        assert(current_label@ == "当前版本 "@ + version_text(current_version)) by {
            assert("当前版本 v"@ == "当前版本 "@ + "v"@) by {
                reveal_strlit("当前版本 v");
                reveal_strlit("当前版本 ");
                reveal_strlit("v");
            }
        }
        let n = self.rows.len();
        let mut count_label = owned("共 ");
        push_dec(&mut count_label, n as u64);
        push_str(&mut count_label, " 个版本");
        let shown: usize = if n < MAX_VERSION_ROWS { n } else { MAX_VERSION_ROWS };
        let more_label = if n > MAX_VERSION_ROWS {
            let mut t = owned("还有 ");
            push_dec(&mut t, (n - MAX_VERSION_ROWS) as u64);
            push_str(&mut t, " 个更早的版本未列出（一次最多列 ");
            push_dec(&mut t, MAX_VERSION_ROWS as u64);
            push_str(&mut t, " 个）");
            Some(t)
        } else {
            None
        };
        let action_bar = match self.selected_index() {
            None => None,
            Some(i) => {
                let row = &self.rows[i];
                let restore_label = if row.is_current {
                    owned("当前版本")
                } else {
                    let mut t = owned("还原为当前版本（生成 v");
                    push_dec_i64(&mut t, row.version as i64 + 1);
                    push_str(&mut t, "）");
                    t
                };
                let hint = if self.read_only {
                    owned("项目处于只读模式：还原 / 取回 / 删副本都是写操作")
                } else if row.is_current {
                    owned("这是当前版本（本体上的内容）：取回请用详情面板的「取回（检出）…」")
                } else if !row.has_copy {
                    owned("该版本只留了元数据（内容副本已被保留策略裁剪），不能还原或取回")
                } else {
                    owned("还原 = 用这一版的内容生成新版本；取回 = 复制一份可写草稿（本体不动）")
                };
                Some(VersionActionBar {
                    version: row.version,
                    restore_label,
                    enabled: !row.is_current && row.has_copy && !self.busy && !self.read_only,
                    hint,
                })
            },
        };
        VersionLayout {
            title,
            current_label,
            count_label,
            note: copy_opt_string(&self.note),
            shown,
            more_label,
            action_bar,
        }
    }

    /// The question asked before deleting the chosen version's content copy (the
    /// other buttons ask none).
    pub fn confirmation(&self, control: VersionControl) -> (c: Option<Confirmation>)
        requires
            self.enabled_spec(),
        ensures
            c is Some <==> control is DeleteCopy,
            c matches Some(q) ==> {
                &&& q.title@ == "删除 "@ + version_text(self.selected_row_spec().unwrap().version) + " 的内容副本？"@
                &&& q.description@ == "版本记录会保留（列表里仍能看到这一版），但它的内容将无法再还原或取回。副本不入回收站，删除后不可恢复。"@
                &&& q.ok_label is None
            },
    {
        match control {
            VersionControl::DeleteCopy => {
                let i = self.selected_index().unwrap();
                let mut title = owned("删除 v");
                push_dec_i64(&mut title, self.rows[i].version as i64);
                push_str(&mut title, " 的内容副本？");
                assert("删除 v"@ == "删除 "@ + "v"@) by {
                    reveal_strlit("删除 v");
                    reveal_strlit("删除 ");
                    reveal_strlit("v");
                }
                Some(Confirmation {
                    title,
                    description: owned(
                        "版本记录会保留（列表里仍能看到这一版），但它的内容将无法再还原或取回。副本不入回收站，删除后不可恢复。",
                    ),
                    ok_label: None,
                })
            },
            _ => None,
        }
    }

    /// A pressed (and, for deleting a copy, confirmed) button of the action bar:
    /// when enabled, the state turns busy with the button's note and the action on
    /// the chosen version comes back; otherwise nothing changes and no action comes.
    pub fn press(&mut self, control: VersionControl) -> (r: Option<VersionAction>)
        ensures
            final(self).rows_spec() == old(self).rows_spec(),
            final(self).selected_spec() == old(self).selected_spec(),
            final(self).read_only_spec() == old(self).read_only_spec(),
            !old(self).enabled_spec() ==> r is None
                && final(self).busy_spec() == old(self).busy_spec()
                && final(self).note_spec() == old(self).note_spec(),
            old(self).enabled_spec() ==> {
                let v = old(self).selected_row_spec().unwrap().version;
                &&& final(self).busy_spec()
                &&& final(self).note_spec() == Some(Self::pending_text(control, v))
                &&& r == Some(match control {
                    VersionControl::Restore => VersionAction::Restore { version: v },
                    VersionControl::CheckoutDraft => VersionAction::CheckoutDraft { version: v },
                    VersionControl::DeleteCopy => VersionAction::DeleteCopy { version: v },
                })
            },
    {
        let i = match self.selected_index() {
            None => return None,
            Some(i) => i,
        };
        let row = &self.rows[i];
        if row.is_current || !row.has_copy || self.busy || self.read_only {
            return None;
        }
        let v = row.version;
        let (mut note, action) = match control {
            VersionControl::Restore => (owned("正在还原 v"), VersionAction::Restore { version: v }),
            VersionControl::CheckoutDraft => (owned("正在取回 v"), VersionAction::CheckoutDraft { version: v }),
            VersionControl::DeleteCopy => (owned("正在删除 v"), VersionAction::DeleteCopy { version: v }),
        };
        proof {
            reveal_strlit("正在还原 v");
            reveal_strlit("正在还原 ");
            reveal_strlit("正在取回 v");
            reveal_strlit("正在取回 ");
            reveal_strlit("正在删除 v");
            reveal_strlit("正在删除 ");
            reveal_strlit("v");
        }
        let ghost head = note@;
        push_dec_i64(&mut note, v as i64);
        match control {
            VersionControl::DeleteCopy => push_str(&mut note, " 的内容副本…"),
            _ => push_str(&mut note, "…"),
        }
        assert(note@ == Self::pending_text(control, v)) by {
            assert(head == (match control {
                VersionControl::Restore => "正在还原 "@,
                VersionControl::CheckoutDraft => "正在取回 "@,
                VersionControl::DeleteCopy => "正在删除 "@,
            }) + "v"@);
        }
        self.note = Some(note);
        self.busy = true;
        Some(action)
    }
}

impl Default for VersionDialogState {
    fn default() -> (s: Self)
        ensures
            s.rows_spec() == Seq::<VersionRowView>::empty(),
            s.selected_spec() is None,
            !s.busy_spec(),
            !s.read_only_spec(),
            s.note_spec() is None,
    {
        VersionDialogState::new()
    }
}

/// While an action runs, the action bar does not respond: a pressed button turns
/// the dialog busy ([`VersionDialogState::press`]), so a second press sends nothing.
pub proof fn law_busy_version_refuses(state: VersionDialogState)
    requires
        state.busy_spec(),
    ensures
        !state.enabled_spec(),
{
}

} // verus!
