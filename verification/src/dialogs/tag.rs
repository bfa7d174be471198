//! Tag dialog: ticking the tags of one or many archives (with the "some of them
//! have it" state), and the add / remove lists that one submission sends.

use vstd::prelude::*;

use crate::filter::string_position;
use crate::resource_view::{copy_opt_string, opt_view};
use crate::seqs::{lemma_remove_first_at, remove_first, views};
use crate::dialogs::Confirmation;
use crate::text::{dec, is_blank, owned, push_dec, push_str, str_eq, trim, trimmed};

verus! {

/// One tag that can be ticked.
#[derive(Debug, Clone, PartialEq, Eq)]
pub struct TagChoice {
    pub id: String,
    pub name: String,
    /// Number of live archives carrying it.
    pub count: usize,
}

/// What the dialog opens with.
#[derive(Debug, Clone, PartialEq, Eq)]
pub struct TagDialogSeed {
    /// Display name of the archive (title of a single edit).
    pub resource_name: String,
    /// How many archives the edit applies to (`1` single, more for a batch).
    pub target_count: usize,
    /// Every live tag, by name.
    pub options: Vec<TagChoice>,
    /// Tags that every target carries (ticked).
    pub selected: Vec<String>,
    /// Tags that only some targets carry (shown as partial).
    pub partial: Vec<String>,
}

/// What the dialog submits; the host carries it out.
#[derive(Debug, Clone, PartialEq, Eq)]
pub enum TagDialogEvent {
    /// The ticks, as what to add and what to remove since the dialog opened.
    Apply { add: Vec<String>, remove: Vec<String> },
    /// Create a tag and put it on at once.
    CreateAndTag { name: String },
    /// Rename a tag (its links stay).
    RenameTag { id: String, name: String },
    /// Delete a tag with its links.
    DeleteTag { id: String },
}

/// A copy of a list of strings.
fn copy_strings(v: &Vec<String>) -> (r: Vec<String>)
    ensures
        views(r@) == views(v@),
{
    let mut out: Vec<String> = Vec::new();
    let mut i: usize = 0;
    while i < v.len()
        invariant
            i <= v.len(),
            views(out@) == views(v@).take(i as int),
        decreases v.len() - i,
    {
        let ghost prev = out@;
        out.push(v[i].clone());
        assert(views(out@) == views(prev).push(v@[i as int]@));
        assert(views(v@).take(i + 1) == views(v@).take(i as int).push(v@[i as int]@));
        i += 1;
    }
    assert(views(v@).take(v.len() as int) == views(v@));
    out
}

/// Whether `v` holds `s`.
fn holds(v: &Vec<String>, s: &str) -> (r: bool)
    ensures
        r == views(v@).contains(s@),
{
    match string_position(v, s) {
        Some(i) => {
            assert(views(v@)[i as int] == s@);
            true
        },
        None => false,
    }
}

/// The strings of `ids` that `allowed` holds, in order.
fn keep_present(ids: &Vec<String>, allowed: &Vec<String>) -> (r: Vec<String>)
    ensures
        views(r@) == views(ids@).filter(|x: Seq<char>| views(allowed@).contains(x)),
{
    let ghost all = views(ids@);
    let ghost pred = |x: Seq<char>| views(allowed@).contains(x);
    let mut out: Vec<String> = Vec::new();
    let mut i: usize = 0;
    while i < ids.len()
        invariant
            i <= ids.len(),
            all == views(ids@),
            pred == (|x: Seq<char>| views(allowed@).contains(x)),
            views(out@) == all.take(i as int).filter(pred),
        decreases ids.len() - i,
    {
        assert(all.take(i + 1).drop_last() == all.take(i as int));
        assert(all.take(i + 1).last() == all[i as int]);
        assert(all.take(i + 1).filter(pred) == if pred(all[i as int]) {
            all.take(i as int).filter(pred).push(all[i as int])
        } else {
            all.take(i as int).filter(pred)
        }) by {
            reveal(Seq::filter);
        }
        if holds(allowed, ids[i].as_str()) {
            let ghost prev = out@;
            out.push(ids[i].clone());
            assert(views(out@) == views(prev).push(all[i as int]));
        }
        i += 1;
    }
    assert(all.take(ids.len() as int) == all);
    out
}

/// The strings of `ids` that neither `a` nor `b` holds, in order.
fn keep_absent(ids: &Vec<String>, a: &Vec<String>, b: &Vec<String>) -> (r: Vec<String>)
    ensures
        views(r@) == views(ids@).filter(|x: Seq<char>| !views(a@).contains(x) && !views(b@).contains(x)),
{
    let ghost all = views(ids@);
    let ghost pred = |x: Seq<char>| !views(a@).contains(x) && !views(b@).contains(x);
    let mut out: Vec<String> = Vec::new();
    let mut i: usize = 0;
    while i < ids.len()
        invariant
            i <= ids.len(),
            all == views(ids@),
            pred == (|x: Seq<char>| !views(a@).contains(x) && !views(b@).contains(x)),
            views(out@) == all.take(i as int).filter(pred),
        decreases ids.len() - i,
    {
        assert(all.take(i + 1).drop_last() == all.take(i as int));
        assert(all.take(i + 1).last() == all[i as int]);
        assert(all.take(i + 1).filter(pred) == if pred(all[i as int]) {
            all.take(i as int).filter(pred).push(all[i as int])
        } else {
            all.take(i as int).filter(pred)
        }) by {
            reveal(Seq::filter);
        }
        if !holds(a, ids[i].as_str()) && !holds(b, ids[i].as_str()) {
            let ghost prev = out@;
            out.push(ids[i].clone());
            assert(views(out@) == views(prev).push(all[i as int]));
        }
        i += 1;
    }
    assert(all.take(ids.len() as int) == all);
    out
}

/// `ids` without the string `x`.
fn without(ids: &Vec<String>, x: &str) -> (r: Vec<String>)
    ensures
        views(r@) == views(ids@).filter(|y: Seq<char>| y != x@),
{
    let ghost all = views(ids@);
    let ghost pred = |y: Seq<char>| y != x@;
    let mut out: Vec<String> = Vec::new();
    let mut i: usize = 0;
    while i < ids.len()
        invariant
            i <= ids.len(),
            all == views(ids@),
            pred == (|y: Seq<char>| y != x@),
            views(out@) == all.take(i as int).filter(pred),
        decreases ids.len() - i,
    {
        assert(all.take(i + 1).drop_last() == all.take(i as int));
        assert(all.take(i + 1).last() == all[i as int]);
        assert(all.take(i + 1).filter(pred) == if pred(all[i as int]) {
            all.take(i as int).filter(pred).push(all[i as int])
        } else {
            all.take(i as int).filter(pred)
        }) by {
            reveal(Seq::filter);
        }
        if !str_eq(ids[i].as_str(), x) {
            let ghost prev = out@;
            out.push(ids[i].clone());
            assert(views(out@) == views(prev).push(all[i as int]));
        }
        i += 1;
    }
    assert(all.take(ids.len() as int) == all);
    out
}

/// The ids of the options.
pub open spec fn option_ids(options: Seq<TagChoice>) -> Seq<Seq<char>> {
    options.map_values(|o: TagChoice| o.id@)
}

/// The ids of `ids` that are live options.
pub open spec fn alive_only(ids: Seq<Seq<char>>, alive: Seq<Seq<char>>) -> Seq<Seq<char>> {
    ids.filter(|x: Seq<char>| alive.contains(x))
}

/// What one submission adds: ticked now, not carried by every target at opening.
pub open spec fn diff_add(selected: Seq<Seq<char>>, baseline: Seq<Seq<char>>) -> Seq<Seq<char>> {
    selected.filter(|x: Seq<char>| !baseline.contains(x))
}

/// What one submission removes: carried by all or some targets at opening, and
/// now neither ticked nor partial (the ones carried by all first).
pub open spec fn diff_remove(
    selected: Seq<Seq<char>>,
    partial: Seq<Seq<char>>,
    baseline: Seq<Seq<char>>,
    baseline_partial: Seq<Seq<char>>,
) -> Seq<Seq<char>> {
    (baseline + baseline_partial).filter(|x: Seq<char>| !selected.contains(x) && !partial.contains(x))
}

/// The ticks after writing `on` for `tag`: added at the end when newly ticked,
/// its first occurrence removed when unticked, unchanged otherwise.
pub open spec fn checked(selected: Seq<Seq<char>>, tag: Seq<char>, on: bool) -> Seq<Seq<char>> {
    if on && !selected.contains(tag) {
        selected.push(tag)
    } else if !on && selected.contains(tag) {
        remove_first(selected, tag)
    } else {
        selected
    }
}

/// The ticks after flipping `tag`.
pub open spec fn toggled(selected: Seq<Seq<char>>, tag: Seq<char>) -> Seq<Seq<char>> {
    if selected.contains(tag) {
        remove_first(selected, tag)
    } else {
        selected.push(tag)
    }
}

/// The state the host shares with the dialog: the options, the ticks and partial
/// tags now and at opening, and the busy / read-only / note flags.
pub struct TagDialogState {
    options: Vec<TagChoice>,
    selected: Vec<String>,
    baseline: Vec<String>,
    partial: Vec<String>,
    baseline_partial: Vec<String>,
    busy: bool,
    read_only: bool,
    note: Option<String>,
}

impl TagDialogState {
    /// The options.
    pub closed spec fn options_spec(&self) -> Seq<TagChoice> {
        self.options@
    }

    /// Tags ticked now.
    pub closed spec fn selected_spec(&self) -> Seq<Seq<char>> {
        views(self.selected@)
    }

    /// Tags ticked at opening (or at the last reset).
    pub closed spec fn baseline_spec(&self) -> Seq<Seq<char>> {
        views(self.baseline@)
    }

    /// Tags partial now.
    pub closed spec fn partial_spec(&self) -> Seq<Seq<char>> {
        views(self.partial@)
    }

    /// Tags partial at opening (or at the last reset).
    pub closed spec fn baseline_partial_spec(&self) -> Seq<Seq<char>> {
        views(self.baseline_partial@)
    }

    /// Whether a submission is running.
    pub closed spec fn busy_spec(&self) -> bool {
        self.busy
    }

    /// Whether the project is read-only.
    pub closed spec fn read_only_spec(&self) -> bool {
        self.read_only
    }

    /// The note shown meanwhile.
    pub closed spec fn note_spec(&self) -> Option<Seq<char>> {
        opt_view(self.note)
    }

    /// A single edit: the ticks at opening are also the baseline.
    pub fn new(selected: Vec<String>) -> (s: Self)
        ensures
            s.selected_spec() == views(selected@),
            s.baseline_spec() == views(selected@),
            s.partial_spec() == Seq::<Seq<char>>::empty(),
            s.baseline_partial_spec() == Seq::<Seq<char>>::empty(),
            s.options_spec() == Seq::<TagChoice>::empty(),
            !s.busy_spec() && !s.read_only_spec() && s.note_spec() is None,
    {
        TagDialogState::new_batch(selected, Vec::new())
    }

    /// A batch edit: tags every target carries are ticked, tags some carry are partial.
    pub fn new_batch(selected: Vec<String>, partial: Vec<String>) -> (s: Self)
        ensures
            s.selected_spec() == views(selected@),
            s.baseline_spec() == views(selected@),
            s.partial_spec() == views(partial@),
            s.baseline_partial_spec() == views(partial@),
            s.options_spec() == Seq::<TagChoice>::empty(),
            !s.busy_spec() && !s.read_only_spec() && s.note_spec() is None,
    {
        let baseline = copy_strings(&selected);
        let baseline_partial = copy_strings(&partial);
        let s = TagDialogState {
            options: Vec::new(),
            selected,
            baseline,
            partial,
            baseline_partial,
            busy: false,
            read_only: false,
            note: None,
        };
        assert(s.options_spec() =~= Seq::<TagChoice>::empty());
        s
    }

    /// Replaces the options; ticks and partial tags of tags that no longer exist are dropped.
    pub fn set_options(&mut self, options: Vec<TagChoice>)
        ensures
            final(self).options_spec() == options@,
            final(self).selected_spec() == alive_only(old(self).selected_spec(), option_ids(options@)),
            final(self).baseline_spec() == alive_only(old(self).baseline_spec(), option_ids(options@)),
            final(self).partial_spec() == alive_only(old(self).partial_spec(), option_ids(options@)),
            final(self).baseline_partial_spec() == alive_only(
                old(self).baseline_partial_spec(),
                option_ids(options@),
            ),
            final(self).busy_spec() == old(self).busy_spec(),
            final(self).read_only_spec() == old(self).read_only_spec(),
            final(self).note_spec() == old(self).note_spec(),
    {
        let mut alive: Vec<String> = Vec::new();
        let mut i: usize = 0;
        while i < options.len()
            invariant
                i <= options.len(),
                views(alive@) == option_ids(options@).take(i as int),
            decreases options.len() - i,
        {
            let ghost prev = alive@;
            alive.push(options[i].id.clone());
            assert(views(alive@) == views(prev).push(options@[i as int].id@));
            assert(option_ids(options@).take(i + 1) == option_ids(options@).take(i as int).push(options@[i as int].id@));
            i += 1;
        }
        assert(option_ids(options@).take(options.len() as int) == option_ids(options@));
        self.selected = keep_present(&self.selected, &alive);
        self.baseline = keep_present(&self.baseline, &alive);
        self.partial = keep_present(&self.partial, &alive);
        self.baseline_partial = keep_present(&self.baseline_partial, &alive);
        self.options = options;
    }

    /// A copy of the options.
    pub fn options(&self) -> (r: Vec<TagChoice>)
        ensures
            r@.len() == self.options_spec().len(),
            forall|i: int| 0 <= i < r@.len() ==> (#[trigger] r@[i]).id@ == self.options_spec()[i].id@
                && r@[i].name@ == self.options_spec()[i].name@ && r@[i].count == self.options_spec()[i].count,
    {
        let mut out: Vec<TagChoice> = Vec::new();
        let mut i: usize = 0;
        while i < self.options.len()
            invariant
                i <= self.options.len(),
                out@.len() == i,
                forall|k: int| 0 <= k < i ==> (#[trigger] out@[k]).id@ == self.options@[k].id@
                    && out@[k].name@ == self.options@[k].name@ && out@[k].count == self.options@[k].count,
            decreases self.options.len() - i,
        {
            out.push(TagChoice {
                id: self.options[i].id.clone(),
                name: self.options[i].name.clone(),
                count: self.options[i].count,
            });
            i += 1;
        }
        out
    }

    /// New ticks that also become the baseline (after a submission went through).
    pub fn reset_selection(&mut self, selected: Vec<String>)
        ensures
            final(self).selected_spec() == views(selected@),
            final(self).baseline_spec() == views(selected@),
            final(self).partial_spec() == Seq::<Seq<char>>::empty(),
            final(self).baseline_partial_spec() == Seq::<Seq<char>>::empty(),
            final(self).options_spec() == old(self).options_spec(),
            final(self).busy_spec() == old(self).busy_spec(),
            final(self).read_only_spec() == old(self).read_only_spec(),
            final(self).note_spec() == old(self).note_spec(),
    {
        self.reset_batch(selected, Vec::new());
    }

    /// New ticks and partial tags that also become the baselines.
    pub fn reset_batch(&mut self, selected: Vec<String>, partial: Vec<String>)
        ensures
            final(self).selected_spec() == views(selected@),
            final(self).baseline_spec() == views(selected@),
            final(self).partial_spec() == views(partial@),
            final(self).baseline_partial_spec() == views(partial@),
            final(self).options_spec() == old(self).options_spec(),
            final(self).busy_spec() == old(self).busy_spec(),
            final(self).read_only_spec() == old(self).read_only_spec(),
            final(self).note_spec() == old(self).note_spec(),
    {
        self.baseline = copy_strings(&selected);
        self.selected = selected;
        self.partial = copy_strings(&partial);
        self.baseline_partial = partial;
    }

    /// Writes a tick by value (what a checkbox hands over): a repeated write changes nothing.
    pub fn set_checked(&mut self, tag_id: &str, on: bool)
        ensures
            final(self).selected_spec() == checked(old(self).selected_spec(), tag_id@, on),
            final(self).baseline_spec() == old(self).baseline_spec(),
            final(self).partial_spec() == old(self).partial_spec(),
            final(self).baseline_partial_spec() == old(self).baseline_partial_spec(),
            final(self).options_spec() == old(self).options_spec(),
            final(self).busy_spec() == old(self).busy_spec(),
            final(self).read_only_spec() == old(self).read_only_spec(),
            final(self).note_spec() == old(self).note_spec(),
    {
        let ghost before = views(self.selected@);
        match (on, string_position(&self.selected, tag_id)) {
            (true, None) => {
                self.selected.push(crate::text::owned(tag_id));
                assert(views(self.selected@) == before.push(tag_id@));
            },
            (false, Some(index)) => {
                proof {
                    assert(before[index as int] == tag_id@);
                    lemma_remove_first_at(before, tag_id@, index as int);
                }
                self.selected.remove(index);
                assert(views(self.selected@) == before.remove(index as int));
            },
            (true, Some(index)) => {
                assert(before[index as int] == tag_id@);
            },
            (false, None) => {},
        }
    }

    /// Flips a tick.
    pub fn toggle(&mut self, tag_id: &str)
        ensures
            final(self).selected_spec() == toggled(old(self).selected_spec(), tag_id@),
            final(self).baseline_spec() == old(self).baseline_spec(),
            final(self).partial_spec() == old(self).partial_spec(),
            final(self).baseline_partial_spec() == old(self).baseline_partial_spec(),
            final(self).options_spec() == old(self).options_spec(),
            final(self).busy_spec() == old(self).busy_spec(),
            final(self).read_only_spec() == old(self).read_only_spec(),
            final(self).note_spec() == old(self).note_spec(),
    {
        let ghost before = views(self.selected@);
        match string_position(&self.selected, tag_id) {
            Some(index) => {
                proof {
                    assert(before[index as int] == tag_id@);
                    lemma_remove_first_at(before, tag_id@, index as int);
                }
                self.selected.remove(index);
                assert(views(self.selected@) == before.remove(index as int));
            },
            None => {
                self.selected.push(crate::text::owned(tag_id));
                assert(views(self.selected@) == before.push(tag_id@));
            },
        }
    }

    /// A partial tag clicked: every target gets it (it leaves the partial list and is ticked).
    pub fn promote_partial(&mut self, tag_id: &str)
        ensures
            final(self).partial_spec() == old(self).partial_spec().filter(|y: Seq<char>| y != tag_id@),
            final(self).selected_spec() == if old(self).selected_spec().contains(tag_id@) {
                old(self).selected_spec()
            } else {
                old(self).selected_spec().push(tag_id@)
            },
            final(self).baseline_spec() == old(self).baseline_spec(),
            final(self).baseline_partial_spec() == old(self).baseline_partial_spec(),
            final(self).options_spec() == old(self).options_spec(),
            final(self).busy_spec() == old(self).busy_spec(),
            final(self).read_only_spec() == old(self).read_only_spec(),
            final(self).note_spec() == old(self).note_spec(),
    {
        self.partial = without(&self.partial, tag_id);
        if !holds(&self.selected, tag_id) {
            let ghost before = views(self.selected@);
            self.selected.push(crate::text::owned(tag_id));
            assert(views(self.selected@) == before.push(tag_id@));
        }
    }

    /// The three-state checkbox: ticked means every target has it (a partial tag
    /// is promoted); unticked means none has it (it is no longer partial either).
    pub fn set_checked_three_way(&mut self, tag_id: &str, on: bool)
        ensures
            final(self).partial_spec() == old(self).partial_spec().filter(|y: Seq<char>| y != tag_id@),
            final(self).selected_spec() == if on {
                if old(self).selected_spec().contains(tag_id@) {
                    old(self).selected_spec()
                } else {
                    old(self).selected_spec().push(tag_id@)
                }
            } else {
                old(self).selected_spec().filter(|y: Seq<char>| y != tag_id@)
            },
            final(self).baseline_spec() == old(self).baseline_spec(),
            final(self).baseline_partial_spec() == old(self).baseline_partial_spec(),
            final(self).options_spec() == old(self).options_spec(),
            final(self).busy_spec() == old(self).busy_spec(),
            final(self).read_only_spec() == old(self).read_only_spec(),
            final(self).note_spec() == old(self).note_spec(),
    {
        if on {
            self.promote_partial(tag_id);
            return;
        }
        self.partial = without(&self.partial, tag_id);
        self.selected = without(&self.selected, tag_id);
    }

    /// Whether a tag is ticked.
    pub fn is_selected(&self, tag_id: &str) -> (r: bool)
        ensures
            r == self.selected_spec().contains(tag_id@),
    {
        holds(&self.selected, tag_id)
    }

    /// Whether a tag is partial (some targets only).
    pub fn is_partial(&self, tag_id: &str) -> (r: bool)
        ensures
            r == self.partial_spec().contains(tag_id@),
    {
        holds(&self.partial, tag_id)
    }

    /// A copy of the ticks.
    pub fn selected(&self) -> (r: Vec<String>)
        ensures
            views(r@) == self.selected_spec(),
    {
        copy_strings(&self.selected)
    }

    /// A copy of the partial tags.
    pub fn partial(&self) -> (r: Vec<String>)
        ensures
            views(r@) == self.partial_spec(),
    {
        copy_strings(&self.partial)
    }

    /// The submission: what to add and what to remove since the baseline (both
    /// empty means there is nothing to submit).
    pub fn diff(&self) -> (r: (Vec<String>, Vec<String>))
        ensures
            views(r.0@) == diff_add(self.selected_spec(), self.baseline_spec()),
            views(r.1@) == diff_remove(
                self.selected_spec(),
                self.partial_spec(),
                self.baseline_spec(),
                self.baseline_partial_spec(),
            ),
    {
        let none: Vec<String> = Vec::new();
        assert(views(none@) == Seq::<Seq<char>>::empty());
        let add = keep_absent(&self.selected, &self.baseline, &none);
        assert((|x: Seq<char>| !views(self.baseline@).contains(x) && !views(none@).contains(x)) =~= (|x: Seq<char>|
            !views(self.baseline@).contains(x)));
        let mut both = copy_strings(&self.baseline);
        let mut i: usize = 0;
        let ghost b = views(self.baseline@);
        while i < self.baseline_partial.len()
            invariant
                i <= self.baseline_partial.len(),
                b == views(self.baseline@),
                views(both@) == b + views(self.baseline_partial@).take(i as int),
            decreases self.baseline_partial.len() - i,
        {
            let ghost prev = both@;
            both.push(self.baseline_partial[i].clone());
            assert(views(both@) == views(prev).push(self.baseline_partial@[i as int]@));
            assert(views(self.baseline_partial@).take(i + 1) == views(self.baseline_partial@).take(i as int).push(
                self.baseline_partial@[i as int]@,
            ));
            i += 1;
        }
        assert(views(self.baseline_partial@).take(self.baseline_partial.len() as int) == views(self.baseline_partial@));
        let remove = keep_absent(&both, &self.selected, &self.partial);
        (add, remove)
    }

    /// Marks a submission as running or done.
    pub fn set_busy(&mut self, busy: bool)
        ensures
            final(self).busy_spec() == busy,
            final(self).selected_spec() == old(self).selected_spec(),
            final(self).baseline_spec() == old(self).baseline_spec(),
            final(self).partial_spec() == old(self).partial_spec(),
            final(self).baseline_partial_spec() == old(self).baseline_partial_spec(),
            final(self).options_spec() == old(self).options_spec(),
            final(self).read_only_spec() == old(self).read_only_spec(),
            final(self).note_spec() == old(self).note_spec(),
    {
        self.busy = busy;
    }

    /// Whether a submission is running.
    pub fn busy(&self) -> (b: bool)
        ensures
            b == self.busy_spec(),
    {
        self.busy
    }

    /// Marks the project as read-only or writable.
    pub fn set_read_only(&mut self, read_only: bool)
        ensures
            final(self).read_only_spec() == read_only,
            final(self).selected_spec() == old(self).selected_spec(),
            final(self).baseline_spec() == old(self).baseline_spec(),
            final(self).partial_spec() == old(self).partial_spec(),
            final(self).baseline_partial_spec() == old(self).baseline_partial_spec(),
            final(self).options_spec() == old(self).options_spec(),
            final(self).busy_spec() == old(self).busy_spec(),
            final(self).note_spec() == old(self).note_spec(),
    {
        self.read_only = read_only;
    }

    /// Whether the project is read-only.
    pub fn read_only(&self) -> (b: bool)
        ensures
            b == self.read_only_spec(),
    {
        self.read_only
    }

    /// Sets or clears the note.
    pub fn set_note(&mut self, note: Option<String>)
        ensures
            final(self).note_spec() == opt_view(note),
            final(self).selected_spec() == old(self).selected_spec(),
            final(self).baseline_spec() == old(self).baseline_spec(),
            final(self).partial_spec() == old(self).partial_spec(),
            final(self).baseline_partial_spec() == old(self).baseline_partial_spec(),
            final(self).options_spec() == old(self).options_spec(),
            final(self).busy_spec() == old(self).busy_spec(),
            final(self).read_only_spec() == old(self).read_only_spec(),
    {
        self.note = note;
    }

    /// The note.
    pub fn note(&self) -> (r: Option<String>)
        ensures
            opt_view(r) == self.note_spec(),
    {
        copy_opt_string(&self.note)
    }
}

/// The hint of the tag rename dialog: a blank name is refused, otherwise it says
/// that only the display name changes.
pub open spec fn rename_hint_text(text: Seq<char>) -> Seq<char> {
    if is_blank(text) {
        "标签名不能为空"@
    } else {
        "只改显示名：已打了这个标签的存档不动"@
    }
}

/// The hint of the tag rename dialog and whether saving is enabled (a blank name
/// shows the hint as a warning and cannot be saved).
pub fn rename_hint(text: &str) -> (r: (&'static str, bool))
    ensures
        r.0@ == rename_hint_text(text@),
        r.1 == !is_blank(text@),
{
    if crate::text::blank(text) {
        ("标签名不能为空", false)
    } else {
        ("只改显示名：已打了这个标签的存档不动", true)
    }
}

/// One line of the tag list.
pub struct TagRowLayout {
    /// Every target carries it.
    pub checked: bool,
    /// Only some targets carry it.
    pub partial: bool,
    /// How many archives carry it.
    pub count_label: String,
}

/// What the tag dialog shows for one state.
pub struct TagLayout {
    /// `标签 · name` for one archive, `标签 · N 项` for several.
    pub title: String,
    /// `共 N 个标签 · 已选 K 个`.
    pub count_label: String,
    /// The note of a running submission.
    pub note: Option<String>,
    /// The invitation shown when there is no tag at all.
    pub empty_label: Option<String>,
    /// One line per option, in order.
    pub rows: Vec<TagRowLayout>,
    /// Whether the lines, their boxes and their menus respond (not busy, not read-only).
    pub rows_enabled: bool,
    /// Whether "create and tag" is enabled.
    pub create_enabled: bool,
    /// What the submission would change, or how to make one.
    pub changes_label: String,
    /// What a batch edit means (several targets only).
    pub batch_label: Option<String>,
    /// The main button's label: `应用` with changes, `关闭` without.
    pub apply_label: String,
    /// Whether the main button is enabled.
    pub apply_enabled: bool,
}

impl TagDialogState {
    /// Neither busy nor read-only.
    pub open spec fn can_edit_spec(&self) -> bool {
        !self.busy_spec() && !self.read_only_spec()
    }

    /// Opening the dialog: an empty dictionary takes the seed's options, ticks and
    /// partial tags (which become the baselines); a filled one keeps its own.
    pub fn adopt_seed(&mut self, seed: TagDialogSeed)
        ensures
            old(self).options_spec().len() == 0 ==> {
                &&& final(self).options_spec() == seed.options@
                &&& final(self).selected_spec() == views(seed.selected@)
                &&& final(self).baseline_spec() == views(seed.selected@)
                &&& final(self).partial_spec() == views(seed.partial@)
                &&& final(self).baseline_partial_spec() == views(seed.partial@)
            },
            old(self).options_spec().len() > 0 ==> {
                &&& final(self).options_spec() == old(self).options_spec()
                &&& final(self).selected_spec() == old(self).selected_spec()
                &&& final(self).baseline_spec() == old(self).baseline_spec()
                &&& final(self).partial_spec() == old(self).partial_spec()
                &&& final(self).baseline_partial_spec() == old(self).baseline_partial_spec()
            },
            final(self).busy_spec() == old(self).busy_spec(),
            final(self).read_only_spec() == old(self).read_only_spec(),
            final(self).note_spec() == old(self).note_spec(),
    {
        if self.options.len() == 0 {
            self.set_options(seed.options);
            self.reset_batch(seed.selected, seed.partial);
        }
    }

    /// A click on a line: a partial tag goes to every target, any other flips.
    /// Lines do not respond while busy or read-only.
    pub fn click_row(&mut self, tag_id: &str)
        ensures
            final(self).baseline_spec() == old(self).baseline_spec(),
            final(self).baseline_partial_spec() == old(self).baseline_partial_spec(),
            final(self).options_spec() == old(self).options_spec(),
            final(self).busy_spec() == old(self).busy_spec(),
            final(self).read_only_spec() == old(self).read_only_spec(),
            final(self).note_spec() == old(self).note_spec(),
            !old(self).can_edit_spec() ==> final(self).selected_spec() == old(self).selected_spec()
                && final(self).partial_spec() == old(self).partial_spec(),
            old(self).can_edit_spec() && old(self).partial_spec().contains(tag_id@) ==> {
                &&& final(self).partial_spec() == old(self).partial_spec().filter(|y: Seq<char>| y != tag_id@)
                &&& final(self).selected_spec() == if old(self).selected_spec().contains(tag_id@) {
                    old(self).selected_spec()
                } else {
                    old(self).selected_spec().push(tag_id@)
                }
            },
            old(self).can_edit_spec() && !old(self).partial_spec().contains(tag_id@) ==> {
                &&& final(self).partial_spec() == old(self).partial_spec()
                &&& final(self).selected_spec() == toggled(old(self).selected_spec(), tag_id@)
            },
    {
        if self.busy || self.read_only {
            return;
        }
        if self.is_partial(tag_id) {
            self.promote_partial(tag_id);
        } else {
            self.toggle(tag_id);
        }
    }

    /// "Create and tag" with the name field's text: a blank name, or a busy or
    /// read-only dialog, does nothing; otherwise the state turns busy and the
    /// trimmed name goes to the host (which then clears the field).
    pub fn create(&mut self, text: &str) -> (r: Option<TagDialogEvent>)
        ensures
            final(self).options_spec() == old(self).options_spec(),
            final(self).selected_spec() == old(self).selected_spec(),
            final(self).baseline_spec() == old(self).baseline_spec(),
            final(self).partial_spec() == old(self).partial_spec(),
            final(self).baseline_partial_spec() == old(self).baseline_partial_spec(),
            final(self).read_only_spec() == old(self).read_only_spec(),
            (is_blank(text@) || !old(self).can_edit_spec()) ==> r is None
                && final(self).busy_spec() == old(self).busy_spec()
                && final(self).note_spec() == old(self).note_spec(),
            !(is_blank(text@) || !old(self).can_edit_spec()) ==> {
                &&& r matches Some(TagDialogEvent::CreateAndTag { name }) && name@ == trim(text@)
                &&& final(self).busy_spec()
                &&& final(self).note_spec() == Some("正在新建…"@)
            },
    {
        if crate::text::blank(text) || self.busy || self.read_only {
            return None;
        }
        let name = trimmed(text);
        self.busy = true;
        self.note = Some(owned("正在新建…"));
        Some(TagDialogEvent::CreateAndTag { name })
    }

    /// "Apply": the add and remove lists since the baseline; with no change
    /// nothing is sent, otherwise the state turns busy.
    pub fn apply(&mut self) -> (r: Option<TagDialogEvent>)
        ensures
            final(self).options_spec() == old(self).options_spec(),
            final(self).selected_spec() == old(self).selected_spec(),
            final(self).baseline_spec() == old(self).baseline_spec(),
            final(self).partial_spec() == old(self).partial_spec(),
            final(self).baseline_partial_spec() == old(self).baseline_partial_spec(),
            final(self).read_only_spec() == old(self).read_only_spec(),
            ({
                let add = diff_add(old(self).selected_spec(), old(self).baseline_spec());
                let remove = diff_remove(
                    old(self).selected_spec(),
                    old(self).partial_spec(),
                    old(self).baseline_spec(),
                    old(self).baseline_partial_spec(),
                );
                &&& (add.len() == 0 && remove.len() == 0) ==> r is None
                    && final(self).busy_spec() == old(self).busy_spec()
                    && final(self).note_spec() == old(self).note_spec()
                &&& !(add.len() == 0 && remove.len() == 0) ==> final(self).busy_spec()
                    && final(self).note_spec() == Some("正在打标签…"@)
                    && (r matches Some(TagDialogEvent::Apply { add: a, remove: b }) && views(a@) == add
                        && views(b@) == remove)
            }),
    {
        let (add, remove) = self.diff();
        if add.len() == 0 && remove.len() == 0 {
            return None;
        }
        self.busy = true;
        self.note = Some(owned("正在打标签…"));
        Some(TagDialogEvent::Apply { add, remove })
    }

    /// Renaming tag `tag_id`, now named `current`, to the rename field's text: only
    /// an editable dialog and a name that is not blank and differs from the current
    /// one send it; the state then turns busy.
    pub fn rename(&mut self, tag_id: &str, current: &str, text: &str) -> (r: Option<TagDialogEvent>)
        ensures
            final(self).options_spec() == old(self).options_spec(),
            final(self).selected_spec() == old(self).selected_spec(),
            final(self).baseline_spec() == old(self).baseline_spec(),
            final(self).partial_spec() == old(self).partial_spec(),
            final(self).baseline_partial_spec() == old(self).baseline_partial_spec(),
            final(self).read_only_spec() == old(self).read_only_spec(),
            (is_blank(text@) || trim(text@) == current@ || !old(self).can_edit_spec()) ==> r is None
                && final(self).busy_spec() == old(self).busy_spec()
                && final(self).note_spec() == old(self).note_spec(),
            !(is_blank(text@) || trim(text@) == current@ || !old(self).can_edit_spec()) ==> {
                &&& r matches Some(TagDialogEvent::RenameTag { id, name }) && id@ == tag_id@ && name@ == trim(text@)
                &&& final(self).busy_spec()
                &&& final(self).note_spec() == Some("正在重命名…"@)
            },
    {
        if crate::text::blank(text) || self.busy || self.read_only {
            return None;
        }
        let name = trimmed(text);
        if str_eq(name.as_str(), current) {
            return None;
        }
        self.busy = true;
        self.note = Some(owned("正在重命名…"));
        Some(TagDialogEvent::RenameTag { id: owned(tag_id), name })
    }

    /// The question asked before deleting the tag named `name`.
    pub fn delete_confirmation(name: &str) -> (c: Confirmation)
        ensures
            c.title@ == "删除标签「"@ + name@ + "」？"@,
            c.description@ == "标签会从所有存档上摘掉（关联一并清除），但存档本身不受影响。"@,
            opt_view(c.ok_label) == Some("删除"@),
    {
        let mut title = owned("删除标签「");
        push_str(&mut title, name);
        push_str(&mut title, "」？");
        Confirmation {
            title,
            description: owned("标签会从所有存档上摘掉（关联一并清除），但存档本身不受影响。"),
            ok_label: Some(owned("删除")),
        }
    }

    /// Deleting tag `tag_id` once confirmed: sent only from an editable dialog,
    /// which then turns busy.
    pub fn delete(&mut self, tag_id: &str) -> (r: Option<TagDialogEvent>)
        ensures
            final(self).options_spec() == old(self).options_spec(),
            final(self).selected_spec() == old(self).selected_spec(),
            final(self).baseline_spec() == old(self).baseline_spec(),
            final(self).partial_spec() == old(self).partial_spec(),
            final(self).baseline_partial_spec() == old(self).baseline_partial_spec(),
            final(self).read_only_spec() == old(self).read_only_spec(),
            !old(self).can_edit_spec() ==> r is None && final(self).busy_spec() == old(self).busy_spec()
                && final(self).note_spec() == old(self).note_spec(),
            old(self).can_edit_spec() ==> (r matches Some(TagDialogEvent::DeleteTag { id }) && id@ == tag_id@)
                && final(self).busy_spec() && final(self).note_spec() == Some("正在删除标签…"@),
    {
        if self.busy || self.read_only {
            return None;
        }
        self.busy = true;
        self.note = Some(owned("正在删除标签…"));
        Some(TagDialogEvent::DeleteTag { id: owned(tag_id) })
    }

    /// What the dialog shows now, for the edit of `target_count` archives (the
    /// first named `resource_name`) with `name_text` in the name field.
    pub fn layout(&self, resource_name: &str, target_count: usize, name_text: &str) -> (l: TagLayout)
        ensures
            target_count > 1 ==> l.title@ == "标签 · "@ + dec(target_count as nat) + " 项"@,
            target_count <= 1 ==> l.title@ == "标签 · "@ + resource_name@,
            l.count_label@ == "共 "@ + dec(self.options_spec().len()) + " 个标签 · 已选 "@
                + dec(self.selected_spec().len()) + " 个"@,
            opt_view(l.note) == self.note_spec(),
            l.empty_label is Some <==> self.options_spec().len() == 0,
            l.empty_label matches Some(t) ==> t@ == "还没有任何标签——在下面输入一个名字即可新建"@,
            l.rows@.len() == self.options_spec().len(),
            forall|i: int| 0 <= i < l.rows@.len() ==> {
                let o = self.options_spec()[i];
                &&& (#[trigger] l.rows@[i]).checked == self.selected_spec().contains(o.id@)
                &&& l.rows@[i].partial == self.partial_spec().contains(o.id@)
                &&& l.rows@[i].count_label@ == dec(o.count as nat)
            },
            l.rows_enabled == self.can_edit_spec(),
            l.create_enabled == (self.can_edit_spec() && !is_blank(name_text@)),
            ({
                let add = diff_add(self.selected_spec(), self.baseline_spec()).len();
                let remove = diff_remove(
                    self.selected_spec(),
                    self.partial_spec(),
                    self.baseline_spec(),
                    self.baseline_partial_spec(),
                ).len();
                &&& add + remove > 0 ==> l.changes_label@ == "本次改动：加 "@ + dec(add) + " 个 · 去 "@ + dec(remove)
                    + " 个"@
                &&& add + remove > 0 ==> l.apply_label@ == "应用"@
                &&& add + remove == 0 ==> l.changes_label@ == "勾选标签后「应用」——改动在提交前不落库"@
                &&& add + remove == 0 ==> l.apply_label@ == "关闭"@
            }),
            l.batch_label is Some <==> target_count > 1,
            l.batch_label matches Some(t) ==> t@ == "作用于选中的 "@ + dec(target_count as nat)
                + " 项：勾选 = 全部打上，取消 = 全部摘掉；「部分」= 只有一部分项有它（点一下让全部都有）。"@,
            l.apply_enabled == !self.busy_spec(),
    {
        let title = if target_count > 1 {
            let mut t = owned("标签 · ");
            push_dec(&mut t, target_count as u64);
            push_str(&mut t, " 项");
            t
        } else {
            let mut t = owned("标签 · ");
            push_str(&mut t, resource_name);
            t
        };
        let mut count_label = owned("共 ");
        push_dec(&mut count_label, self.options.len() as u64);
        push_str(&mut count_label, " 个标签 · 已选 ");
        push_dec(&mut count_label, self.selected.len() as u64);
        push_str(&mut count_label, " 个");
        let empty_label = if self.options.len() == 0 {
            Some(owned("还没有任何标签——在下面输入一个名字即可新建"))
        } else {
            None
        };
        let mut rows: Vec<TagRowLayout> = Vec::new();
        let mut i: usize = 0;
        while i < self.options.len()
            invariant
                i <= self.options.len(),
                rows@.len() == i,
                forall|j: int| 0 <= j < i ==> {
                    let o = self.options@[j];
                    &&& (#[trigger] rows@[j]).checked == views(self.selected@).contains(o.id@)
                    &&& rows@[j].partial == views(self.partial@).contains(o.id@)
                    &&& rows@[j].count_label@ == dec(o.count as nat)
                },
            decreases self.options.len() - i,
        {
            let id = self.options[i].id.as_str();
            let mut count_text = String::new();
            push_dec(&mut count_text, self.options[i].count as u64);
            rows.push(TagRowLayout {
                checked: holds(&self.selected, id),
                partial: holds(&self.partial, id),
                count_label: count_text,
            });
            i += 1;
        }
        let can_edit = !self.busy && !self.read_only;
        let (add, remove) = self.diff();
        let (changes_label, apply_label) = if add.len() > 0 || remove.len() > 0 {
            let mut t = owned("本次改动：加 ");
            push_dec(&mut t, add.len() as u64);
            push_str(&mut t, " 个 · 去 ");
            push_dec(&mut t, remove.len() as u64);
            push_str(&mut t, " 个");
            (t, owned("应用"))
        } else {
            (owned("勾选标签后「应用」——改动在提交前不落库"), owned("关闭"))
        };
        let batch_label = if target_count > 1 {
            let mut t = owned("作用于选中的 ");
            push_dec(&mut t, target_count as u64);
            push_str(
                &mut t,
                " 项：勾选 = 全部打上，取消 = 全部摘掉；「部分」= 只有一部分项有它（点一下让全部都有）。",
            );
            Some(t)
        } else {
            None
        };
        TagLayout {
            title,
            count_label,
            note: copy_opt_string(&self.note),
            empty_label,
            rows,
            rows_enabled: can_edit,
            create_enabled: can_edit && !crate::text::blank(name_text),
            changes_label,
            batch_label,
            apply_label,
            apply_enabled: !self.busy,
        }
    }
}

impl Default for TagDialogState {
    fn default() -> (s: Self)
        ensures
            s.selected_spec() == Seq::<Seq<char>>::empty(),
            s.baseline_spec() == Seq::<Seq<char>>::empty(),
            s.partial_spec() == Seq::<Seq<char>>::empty(),
            s.baseline_partial_spec() == Seq::<Seq<char>>::empty(),
            s.options_spec() == Seq::<TagChoice>::empty(),
            !s.busy_spec() && !s.read_only_spec() && s.note_spec() is None,
    {
        TagDialogState::new(Vec::new())
    }
}

/// No tag is both added and removed by one submission.
pub proof fn law_diff_disjoint(
    selected: Seq<Seq<char>>,
    partial: Seq<Seq<char>>,
    baseline: Seq<Seq<char>>,
    baseline_partial: Seq<Seq<char>>,
    tag: Seq<char>,
)
    ensures
        !(diff_add(selected, baseline).contains(tag) && diff_remove(selected, partial, baseline, baseline_partial).contains(tag)),
{
    let add_pred = |x: Seq<char>| !baseline.contains(x);
    let remove_pred = |x: Seq<char>| !selected.contains(x) && !partial.contains(x);
    let add = selected.filter(add_pred);
    let remove = (baseline + baseline_partial).filter(remove_pred);
    if add.contains(tag) && remove.contains(tag) {
        selected.lemma_filter_contains_rev(add_pred, tag);
        let j = choose|j: int| 0 <= j < remove.len() && remove[j] == tag;
        (baseline + baseline_partial).lemma_filter_pred(remove_pred, j);
    }
}

/// Right after opening or a reset, there is nothing to submit.
pub proof fn law_reset_has_no_diff(selected: Seq<Seq<char>>, partial: Seq<Seq<char>>)
    ensures
        diff_add(selected, selected).len() == 0,
        diff_remove(selected, partial, selected, partial).len() == 0,
{
    let add_pred = |x: Seq<char>| !selected.contains(x);
    let add = selected.filter(add_pred);
    if add.len() > 0 {
        selected.lemma_filter_pred(add_pred, 0);
        selected.lemma_filter_contains_rev(add_pred, add[0]);
    }
    let remove_pred = |x: Seq<char>| !selected.contains(x) && !partial.contains(x);
    let both = selected + partial;
    let remove = both.filter(remove_pred);
    if remove.len() > 0 {
        both.lemma_filter_pred(remove_pred, 0);
        both.lemma_filter_contains_rev(remove_pred, remove[0]);
        let k = choose|k: int| 0 <= k < both.len() && both[k] == remove[0];
        if k < selected.len() {
            assert(selected[k] == remove[0]);
        } else {
            assert(partial[k - selected.len()] == remove[0]);
        }
    }
}

/// Flipping a tag that was not ticked twice gives the ticks back unchanged.
pub proof fn law_toggle_twice(selected: Seq<Seq<char>>, tag: Seq<char>)
    requires
        !selected.contains(tag),
    ensures
        toggled(toggled(selected, tag), tag) == selected,
{
    let pushed = selected.push(tag);
    assert(pushed[selected.len() as int] == tag);
    assert(pushed.contains(tag));
    assert forall|j: int| 0 <= j < selected.len() implies pushed[j] != tag by {
        assert(pushed[j] == selected[j]);
    }
    lemma_remove_first_at(pushed, tag, selected.len() as int);
    assert(pushed.remove(selected.len() as int) == selected);
}

} // verus!
