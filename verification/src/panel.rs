//! The archive panel's state: the snapshot the host pushed, the toolbar's filter
//! and sort, the rows in view, the selection, the notice and the undo offer. Every
//! change recomputes the rows in view; rendering stays with the host.

use vstd::prelude::*;

use crate::detail_view::ArchiveDetail;
use crate::filter::{
    apply_view, field_label, filter_is_empty, filter_menu_dims, filtered_rows, flip, stably_sorted, toggled_kinds,
    ResourcesFilter, SortField, SortOrder,
};
use crate::model::{ArchiveKind, ArchiveStatus, ArchiveUndo};
use crate::resource_view::{
    badge_text, badge_tone, counts_parts, opt_view, rows_view, strength_badge, tone_of, ArchiveCounts, ArchiveRow, BadgeTone,
    ResourcesSnapshot, RowView,
};
use crate::text::{dec, dec_int, join, owned, push_dec, push_dec_i64, push_str, str_eq};

verus! {

/// Some row in view has the id `id`.
pub open spec fn shows(rows: Seq<RowView>, id: Seq<char>) -> bool {
    exists|i: int| 0 <= i < rows.len() && (#[trigger] rows[i]).id == id
}

/// The view of an undo offer.
pub open spec fn undo_view(u: ArchiveUndo) -> (Seq<char>, Seq<char>, Seq<char>) {
    (u.resource_id@, u.name@, u.source_path@)
}

/// The view of an optional undo offer.
pub open spec fn opt_undo_view(u: Option<ArchiveUndo>) -> Option<(Seq<char>, Seq<char>, Seq<char>)> {
    match u {
        Some(v) => Some(undo_view(v)),
        None => None,
    }
}

/// The state of the archive panel.
pub struct ResourcesPanel {
    snapshot: ResourcesSnapshot,
    view_rows: Vec<ArchiveRow>,
    filter: ResourcesFilter,
    sort_field: SortField,
    sort_order: SortOrder,
    selected: Option<String>,
    notice: Option<String>,
    undo: Option<ArchiveUndo>,
}

impl ResourcesPanel {
    /// The rows the host pushed.
    pub closed spec fn snapshot_rows(&self) -> Seq<RowView> {
        rows_view(self.snapshot.rows@)
    }

    /// The rows in view, in order.
    pub closed spec fn view_spec(&self) -> Seq<RowView> {
        rows_view(self.view_rows@)
    }

    /// The toolbar filter.
    pub closed spec fn filter_spec(&self) -> ResourcesFilter {
        self.filter
    }

    /// The sort field and direction.
    pub closed spec fn sort_spec(&self) -> (SortField, SortOrder) {
        (self.sort_field, self.sort_order)
    }

    /// The selected id.
    pub closed spec fn selected_spec(&self) -> Option<Seq<char>> {
        opt_view(self.selected)
    }

    /// The notice line.
    pub closed spec fn notice_spec(&self) -> Option<Seq<char>> {
        opt_view(self.notice)
    }

    /// The undo offer.
    pub closed spec fn undo_spec(&self) -> Option<(Seq<char>, Seq<char>, Seq<char>)> {
        opt_undo_view(self.undo)
    }

    /// The rows in view are the snapshot's rows that pass the filter, stably sorted
    /// by the chosen field and direction.
    pub open spec fn wf(&self) -> bool {
        stably_sorted(
            self.view_spec(),
            filtered_rows(self.snapshot_rows(), self.filter_spec()),
            self.sort_spec().0,
            self.sort_spec().1,
        )
    }

    /// An empty panel: no rows, no filter, sorted by name ascending, nothing selected.
    pub fn new() -> (p: Self)
        ensures
            p.wf(),
            p.snapshot_rows() == Seq::<RowView>::empty(),
            p.view_spec() == Seq::<RowView>::empty(),
            p.sort_spec() == (SortField::Name, SortOrder::Asc),
            p.selected_spec() is None && p.notice_spec() is None && p.undo_spec() is None,
            crate::filter::filter_is_empty(p.filter_spec()),
    {
        let snapshot = ResourcesSnapshot {
            rows: Vec::new(),
            counts: ArchiveCounts { total: 0, archived: 0, analysis: 0, table_ref: 0, missing: 0, drifted: 0 },
            read_only: false,
            details: Vec::new(),
            tags: Vec::new(),
            groups: Vec::new(),
        };
        let mut p = ResourcesPanel {
            snapshot,
            view_rows: Vec::new(),
            filter: ResourcesFilter::default(),
            sort_field: SortField::Name,
            sort_order: SortOrder::Asc,
            selected: None,
            notice: None,
            undo: None,
        };
        proof {
            crate::text::lemma_blank_empty();
        }
        p.refresh_view_rows();
        assert(p.snapshot_rows() =~= Seq::<RowView>::empty());
        assert(p.view_spec().len() == 0);
        assert(p.view_spec() =~= Seq::<RowView>::empty());
        p
    }

    /// Recomputes the rows in view; a selection no longer in view is dropped.
    fn refresh_view_rows(&mut self)
        ensures
            final(self).wf(),
            final(self).snapshot_rows() == old(self).snapshot_rows(),
            final(self).filter_spec() == old(self).filter_spec(),
            final(self).sort_spec() == old(self).sort_spec(),
            final(self).selected_spec() == match old(self).selected_spec() {
                Some(id) => if shows(final(self).view_spec(), id) {
                    Some(id)
                } else {
                    None
                },
                None => None,
            },
            final(self).notice_spec() == old(self).notice_spec(),
            final(self).undo_spec() == old(self).undo_spec(),
            final(self).snapshot == old(self).snapshot,
    {
        let rows = apply_view(self.snapshot.rows.as_slice(), &self.filter, self.sort_field, self.sort_order);
        let ghost rv = rows_view(rows@);
        let mut keep = true;
        match &self.selected {
            Some(id) => {
                let mut found = false;
                let mut i: usize = 0;
                while i < rows.len()
                    invariant
                        i <= rows.len(),
                        rv == rows_view(rows@),
                        found == exists|j: int| 0 <= j < i && (#[trigger] rv[j]).id == id@,
                    decreases rows.len() - i,
                {
                    if str_eq(rows[i].id.as_str(), id.as_str()) {
                        found = true;
                    }
                    assert(rv[i as int].id == rows@[i as int].id@);
                    i += 1;
                }
                keep = found;
            },
            None => {},
        }
        if !keep {
            self.selected = None;
        }
        self.view_rows = rows;
    }

    /// Takes a new snapshot from the host.
    pub fn set_snapshot(&mut self, snapshot: ResourcesSnapshot)
        requires
            old(self).wf(),
        ensures
            final(self).wf(),
            final(self).snapshot_rows() == rows_view(snapshot.rows@),
            final(self).details_spec() == snapshot.details@,
            final(self).filter_spec() == old(self).filter_spec(),
            final(self).sort_spec() == old(self).sort_spec(),
            final(self).selected_spec() == match old(self).selected_spec() {
                Some(id) => if shows(final(self).view_spec(), id) {
                    Some(id)
                } else {
                    None
                },
                None => None,
            },
    {
        self.snapshot = snapshot;
        self.refresh_view_rows();
    }

    /// Replaces the whole filter.
    pub fn set_filter(&mut self, filter: ResourcesFilter)
        requires
            old(self).wf(),
        ensures
            final(self).wf(),
            final(self).filter_spec() == filter,
            final(self).snapshot_rows() == old(self).snapshot_rows(),
            final(self).sort_spec() == old(self).sort_spec(),
    {
        self.filter = filter;
        self.refresh_view_rows();
    }

    /// Sets the search text.
    pub fn set_query(&mut self, text: &str)
        requires
            old(self).wf(),
        ensures
            final(self).wf(),
            final(self).filter_spec().query@ == text@,
            final(self).filter_spec().kinds == old(self).filter_spec().kinds,
            final(self).filter_spec().tags@ == old(self).filter_spec().tags@,
            final(self).filter_spec().only_issues == old(self).filter_spec().only_issues,
            final(self).snapshot_rows() == old(self).snapshot_rows(),
            final(self).sort_spec() == old(self).sort_spec(),
    {
        self.filter.query = crate::text::owned(text);
        self.refresh_view_rows();
    }

    /// Ticks or unticks a kind (all three ticked means no restriction).
    pub fn toggle_kind(&mut self, kind: ArchiveKind)
        requires
            old(self).wf(),
        ensures
            final(self).wf(),
            final(self).filter_spec().kinds@ == toggled_kinds(old(self).filter_spec().kinds@, kind),
            final(self).filter_spec().query == old(self).filter_spec().query,
            final(self).filter_spec().tags@ == old(self).filter_spec().tags@,
            final(self).filter_spec().only_issues == old(self).filter_spec().only_issues,
            final(self).snapshot_rows() == old(self).snapshot_rows(),
            final(self).sort_spec() == old(self).sort_spec(),
    {
        self.filter.toggle_kind(kind);
        self.refresh_view_rows();
    }

    /// Switches the "needs attention only" condition.
    pub fn toggle_only_issues(&mut self)
        requires
            old(self).wf(),
        ensures
            final(self).wf(),
            final(self).filter_spec().only_issues == !old(self).filter_spec().only_issues,
            final(self).filter_spec().query == old(self).filter_spec().query,
            final(self).filter_spec().kinds == old(self).filter_spec().kinds,
            final(self).filter_spec().tags@ == old(self).filter_spec().tags@,
            final(self).snapshot_rows() == old(self).snapshot_rows(),
            final(self).sort_spec() == old(self).sort_spec(),
    {
        self.filter.only_issues = !self.filter.only_issues;
        self.refresh_view_rows();
    }

    /// Picks a sort field: the current one again flips the direction; another one
    /// is taken with the direction unchanged.
    pub fn choose_sort(&mut self, field: SortField)
        requires
            old(self).wf(),
        ensures
            final(self).wf(),
            final(self).sort_spec() == if field == old(self).sort_spec().0 {
                (field, flip(old(self).sort_spec().1))
            } else {
                (field, old(self).sort_spec().1)
            },
            final(self).filter_spec() == old(self).filter_spec(),
            final(self).snapshot_rows() == old(self).snapshot_rows(),
    {
        if field == self.sort_field {
            self.sort_order = self.sort_order.flipped();
        } else {
            self.sort_field = field;
        }
        self.refresh_view_rows();
    }

    /// Clears every filter condition.
    pub fn clear_filter(&mut self)
        requires
            old(self).wf(),
        ensures
            final(self).wf(),
            crate::filter::filter_is_empty(final(self).filter_spec()),
            final(self).snapshot_rows() == old(self).snapshot_rows(),
            final(self).sort_spec() == old(self).sort_spec(),
    {
        self.filter = ResourcesFilter::default();
        proof {
            crate::text::lemma_blank_empty();
        }
        self.refresh_view_rows();
    }

    /// Sets or clears the notice line.
    pub fn set_notice(&mut self, notice: Option<String>)
        requires
            old(self).wf(),
        ensures
            final(self).wf(),
            final(self).notice_spec() == opt_view(notice),
            final(self).view_spec() == old(self).view_spec(),
            final(self).selected_spec() == old(self).selected_spec(),
    {
        self.notice = notice;
    }

    /// Offers an undo (or withdraws the offer).
    pub fn set_undo(&mut self, undo: Option<ArchiveUndo>)
        requires
            old(self).wf(),
        ensures
            final(self).wf(),
            final(self).undo_spec() == opt_undo_view(undo),
            final(self).view_spec() == old(self).view_spec(),
    {
        self.undo = undo;
    }

    /// The offer expires: withdrawn only when it is still the offer `token` (a newer
    /// offer stays).
    pub fn expire_undo(&mut self, token: &ArchiveUndo)
        requires
            old(self).wf(),
        ensures
            final(self).wf(),
            final(self).undo_spec() == if old(self).undo_spec() == Some(undo_view(*token)) {
                None
            } else {
                old(self).undo_spec()
            },
            final(self).view_spec() == old(self).view_spec(),
    {
        let same = match &self.undo {
            Some(u) => str_eq(u.resource_id.as_str(), token.resource_id.as_str()) && str_eq(
                u.name.as_str(),
                token.name.as_str(),
            ) && str_eq(u.source_path.as_str(), token.source_path.as_str()),
            None => false,
        };
        if same {
            self.undo = None;
        }
    }

    /// Selects a row (or none).
    pub fn set_selected(&mut self, id: Option<String>)
        requires
            old(self).wf(),
        ensures
            final(self).wf(),
            final(self).selected_spec() == opt_view(id),
            final(self).view_spec() == old(self).view_spec(),
    {
        self.selected = id;
    }

    /// The selected id.
    pub fn selected_id(&self) -> (r: Option<&str>)
        ensures
            match r {
                Some(s) => self.selected_spec() == Some(s@),
                None => self.selected_spec() is None,
            },
    {
        match &self.selected {
            Some(s) => Some(s.as_str()),
            None => None,
        }
    }

    /// The snapshot.
    pub fn snapshot(&self) -> (r: &ResourcesSnapshot)
        ensures
            rows_view(r.rows@) == self.snapshot_rows(),
    {
        &self.snapshot
    }

    /// The rows in view.
    pub fn view_rows(&self) -> (r: &[ArchiveRow])
        ensures
            rows_view(r@) == self.view_spec(),
    {
        self.view_rows.as_slice()
    }

    /// The filter.
    pub fn filter(&self) -> (r: &ResourcesFilter)
        ensures
            *r == self.filter_spec(),
    {
        &self.filter
    }

    /// The sort field and direction.
    pub fn sort(&self) -> (r: (SortField, SortOrder))
        ensures
            r == self.sort_spec(),
    {
        (self.sort_field, self.sort_order)
    }

    /// The notice line.
    pub fn notice(&self) -> (r: Option<&str>)
        ensures
            match r {
                Some(s) => self.notice_spec() == Some(s@),
                None => self.notice_spec() is None,
            },
    {
        match &self.notice {
            Some(s) => Some(s.as_str()),
            None => None,
        }
    }

    /// The undo offer.
    pub fn undo(&self) -> (r: Option<&ArchiveUndo>)
        ensures
            match r {
                Some(u) => self.undo_spec() == Some(undo_view(*u)),
                None => self.undo_spec() is None,
            },
    {
        match &self.undo {
            Some(u) => Some(u),
            None => None,
        }
    }

    /// The details the host pushed with the snapshot.
    pub closed spec fn details_spec(&self) -> Seq<ArchiveDetail> {
        self.snapshot.details@
    }

    /// The detail of the selected row, if any: the last detail pushed under the
    /// selected id; `None` when nothing is selected or no detail has that id.
    pub fn selected_detail(&self) -> (r: Option<&ArchiveDetail>)
        ensures
            r matches Some(d) ==> self.selected_spec() == Some(d.id@),
            self.selected_spec() is None ==> r is None,
            self.selected_spec() matches Some(id) ==> match r {
                Some(d) => exists|i: int|
                    crate::resource_view::last_detail_with(self.details_spec(), id, i) && *d == self.details_spec()[i],
                None => forall|i: int|
                    0 <= i < self.details_spec().len() ==> (#[trigger] self.details_spec()[i]).id@ != id,
            },
    {
        match &self.selected {
            None => None,
            Some(id) => match self.snapshot.detail(id.as_str()) {
                Some(d) => {
                    proof {
                        let i = choose|i: int| crate::resource_view::last_detail_with(self.snapshot.details@, id@, i) && *d
                            == self.snapshot.details@[i];
                    }
                    Some(d)
                },
                None => None,
            },
        }
    }
}

/// What fills the panel under the toolbar.
#[derive(Debug, Clone, Copy, PartialEq, Eq, Structural)]
pub enum PanelBody {
    /// No archive at all: the invitation to archive one.
    Empty,
    /// Archives exist but the filter hides them all: the way out is clearing it.
    NoMatch,
    /// The rows in view.
    Rows,
}

/// What the panel shows around its rows.
pub struct PanelLayout {
    /// Whether the archive buttons (head, empty state) are enabled.
    pub archive_enabled: bool,
    /// `筛选 ▾`, or `筛选 N ▾` with N menu conditions set.
    pub filter_label: String,
    /// `field arrow ▾`.
    pub sort_label: String,
    /// The kinds of the filter menu, in the order of [`ArchiveKind::ALL`], and whether each is ticked.
    pub kind_menu: Vec<(ArchiveKind, bool)>,
    /// Whether "needs attention only" is ticked.
    pub only_issues_checked: bool,
    /// The sort menu: name and version number, the current one with its arrow and ticked.
    pub sort_menu: Vec<(SortField, String, bool)>,
    /// The notice line and whether it is a warning (in a read-only project) rather than information.
    pub notice: Option<(String, bool)>,
    pub body: PanelBody,
    /// The status line text.
    pub status_line: String,
    /// Whether the status line warns and offers the repair entry.
    pub status_issues: bool,
    /// `已归档「name」` while an undo is offered.
    pub undo_label: Option<String>,
}

/// The kind at place `k` of the filter menu.
pub open spec fn kind_at(k: int) -> ArchiveKind {
    if k == 0 {
        ArchiveKind::File
    } else if k == 1 {
        ArchiveKind::Analysis
    } else {
        ArchiveKind::TableRef
    }
}

/// The sort field at place `k` of the sort menu.
pub open spec fn sort_choice_at(k: int) -> SortField {
    if k == 0 {
        SortField::Name
    } else {
        SortField::Version
    }
}

/// The arrow of a direction.
pub open spec fn arrow_text(o: SortOrder) -> Seq<char> {
    match o {
        SortOrder::Asc => "↑"@,
        SortOrder::Desc => "↓"@,
    }
}

/// One row of the list as drawn.
pub struct RowLine {
    /// A missing payload dims the name (the row stays selectable).
    pub dimmed: bool,
    /// `vN` from the second version on.
    pub version_label: Option<String>,
    pub badge: &'static str,
    pub tone: BadgeTone,
    /// The tail text, when there is one.
    pub tail: Option<String>,
}

/// How one row of the list is drawn.
pub fn row_line(row: &ArchiveRow) -> (l: RowLine)
    ensures
        l.dimmed == (row.status == ArchiveStatus::Missing),
        l.version_label is Some <==> row.version > 1,
        l.version_label matches Some(t) ==> t@ == "v"@ + dec_int(row.version as int),
        l.badge@ == badge_text(row.kind, row.status),
        l.tone == tone_of(row.kind, row.status),
        l.tail is Some <==> row.tail@.len() > 0,
        l.tail matches Some(t) ==> t@ == row.tail@,
{
    let version_label = if row.version > 1 {
        let mut t = owned("v");
        push_dec_i64(&mut t, row.version as i64);
        Some(t)
    } else {
        None
    };
    RowLine {
        dimmed: match row.status {
            ArchiveStatus::Missing => true,
            _ => false,
        },
        version_label,
        badge: strength_badge(row.kind, row.status),
        tone: badge_tone(row.kind, row.status),
        tail: if row.tail.as_str().is_empty() { None } else { Some(row.tail.clone()) },
    }
}

/// The context menu of a row: opening is always there; in a read-only project it
/// is the only action left.
pub struct RowMenu {
    /// Checkout writes a work copy: only for an intact payload in a writable project.
    pub checkout_enabled: bool,
    pub delete_enabled: bool,
}

/// The context menu of a row in a project that is `read_only` or not.
pub fn row_menu(row: &ArchiveRow, read_only: bool) -> (m: RowMenu)
    ensures
        m.checkout_enabled == (row.status == ArchiveStatus::Normal && !read_only),
        m.delete_enabled == !read_only,
{
    RowMenu {
        checkout_enabled: match row.status {
            ArchiveStatus::Normal => !read_only,
            _ => false,
        },
        delete_enabled: !read_only,
    }
}

impl ResourcesPanel {
    /// Whether the project is read-only (from the snapshot).
    pub closed spec fn read_only_spec(&self) -> bool {
        self.snapshot.read_only
    }

    /// The status counts (from the snapshot).
    pub closed spec fn counts_spec(&self) -> ArchiveCounts {
        self.snapshot.counts
    }

    /// What the panel shows now.
    pub fn layout(&self) -> (l: PanelLayout)
        requires
            self.filter_spec().kinds@.len() + self.filter_spec().tags@.len() + 1 <= usize::MAX,
        ensures
            l.archive_enabled == !self.read_only_spec(),
            filter_menu_dims(self.filter_spec()) == 0 ==> l.filter_label@ == "筛选 ▾"@,
            filter_menu_dims(self.filter_spec()) > 0 ==> l.filter_label@ == "筛选 "@
                + dec(filter_menu_dims(self.filter_spec()) as nat) + " ▾"@,
            l.sort_label@ == field_label(self.sort_spec().0) + " "@ + arrow_text(self.sort_spec().1) + " ▾"@,
            l.kind_menu@.len() == 3,
            forall|k: int| 0 <= k < 3 ==> #[trigger] l.kind_menu@[k] == (
                kind_at(k),
                self.filter_spec().kinds@.contains(kind_at(k)),
            ),
            l.only_issues_checked == self.filter_spec().only_issues,
            l.sort_menu@.len() == 2,
            forall|k: int| 0 <= k < 2 ==> {
                let f = sort_choice_at(k);
                &&& (#[trigger] l.sort_menu@[k]).0 == f
                &&& l.sort_menu@[k].2 == (f == self.sort_spec().0)
                &&& f == self.sort_spec().0 ==> l.sort_menu@[k].1@ == field_label(f) + " "@ + arrow_text(
                    self.sort_spec().1,
                )
                &&& f != self.sort_spec().0 ==> l.sort_menu@[k].1@ == field_label(f)
            },
            l.notice is Some <==> self.notice_spec() is Some,
            l.notice matches Some(n) ==> Some(n.0@) == self.notice_spec() && n.1 == self.read_only_spec(),
            l.body == if self.view_spec().len() > 0 {
                PanelBody::Rows
            } else if filter_is_empty(self.filter_spec()) {
                PanelBody::Empty
            } else {
                PanelBody::NoMatch
            },
            l.status_line@ == join(counts_parts(self.counts_spec()), " · "@),
            l.status_issues == (self.counts_spec().missing > 0 || self.counts_spec().drifted > 0),
            l.undo_label is Some <==> self.undo_spec() is Some,
            l.undo_label matches Some(t) ==> t@ == "已归档「"@ + self.undo_spec().unwrap().1 + "」"@,
    {
        let dims = self.filter.menu_dims();
        let filter_label = if dims == 0 {
            owned("筛选 ▾")
        } else {
            let mut t = owned("筛选 ");
            push_dec(&mut t, dims as u64);
            push_str(&mut t, " ▾");
            t
        };
        let mut sort_label = owned(self.sort_field.label());
        push_str(&mut sort_label, " ");
        push_str(&mut sort_label, self.sort_order.arrow());
        push_str(&mut sort_label, " ▾");
        let kind_menu = vec![
            (ArchiveKind::File, self.filter.has_kind(ArchiveKind::File)),
            (ArchiveKind::Analysis, self.filter.has_kind(ArchiveKind::Analysis)),
            (ArchiveKind::TableRef, self.filter.has_kind(ArchiveKind::TableRef)),
        ];
        let mut sort_menu: Vec<(SortField, String, bool)> = Vec::new();
        let mut k: usize = 0;
        while k < 2
            invariant
                k <= 2,
                sort_menu@.len() == k,
                forall|j: int| 0 <= j < k ==> {
                    let f = sort_choice_at(j);
                    &&& (#[trigger] sort_menu@[j]).0 == f
                    &&& sort_menu@[j].2 == (f == self.sort_field)
                    &&& f == self.sort_field ==> sort_menu@[j].1@ == field_label(f) + " "@ + arrow_text(
                        self.sort_order,
                    )
                    &&& f != self.sort_field ==> sort_menu@[j].1@ == field_label(f)
                },
            decreases 2 - k,
        {
            let f = if k == 0 { SortField::Name } else { SortField::Version };
            let current = f == self.sort_field;
            let mut text = owned(f.label());
            if current {
                push_str(&mut text, " ");
                push_str(&mut text, self.sort_order.arrow());
            }
            sort_menu.push((f, text, current));
            k += 1;
        }
        let notice = match &self.notice {
            Some(n) => Some((n.clone(), self.snapshot.read_only)),
            None => None,
        };
        let body = if self.view_rows.len() > 0 {
            PanelBody::Rows
        } else if self.filter.is_empty() {
            PanelBody::Empty
        } else {
            PanelBody::NoMatch
        };
        let undo_label = match &self.undo {
            Some(u) => {
                let mut t = owned("已归档「");
                push_str(&mut t, u.name.as_str());
                push_str(&mut t, "」");
                Some(t)
            },
            None => None,
        };
        PanelLayout {
            archive_enabled: !self.snapshot.read_only,
            filter_label,
            sort_label,
            kind_menu,
            only_issues_checked: self.filter.only_issues,
            sort_menu,
            notice,
            body,
            status_line: self.snapshot.counts.line(),
            status_issues: self.snapshot.counts.has_issues(),
            undo_label,
        }
    }
}

} // verus!
