//! The labels of a fresh archive: the tags named in the archive dialog are put on
//! by name (a tag missing from the dictionary is created once, then reused), and
//! each failure becomes a note for the receipt instead of undoing the archive.
//! The store calls between the steps are the host's.

use vstd::prelude::*;

use crate::models::AnalyticsTag;
use crate::seqs::views;
use crate::text::{blank, is_blank, owned, push_str, str_eq, trim, trimmed};

verus! {

/// The id that the dictionary gives a name: the latest entry with that name wins.
pub open spec fn known_id(known: Seq<(Seq<char>, Seq<char>)>, name: Seq<char>) -> Option<Seq<char>>
    decreases known.len(),
{
    if known.len() == 0 {
        None
    } else if known.last().0 == name {
        Some(known.last().1)
    } else {
        known_id(known.drop_last(), name)
    }
}

/// The position of the first name at or after `from` that is not blank (the
/// length when there is none).
pub open spec fn next_named(names: Seq<Seq<char>>, from: int) -> int
    decreases names.len() - from,
{
    if from >= names.len() {
        names.len() as int
    } else if !is_blank(names[from]) {
        from
    } else {
        next_named(names, from + 1)
    }
}

/// The note when a tag could not be created.
pub open spec fn create_failed_text(name: Seq<char>, error: Seq<char>) -> Seq<char> {
    "标签「"@ + name + "」未建立："@ + error
}

/// The note when a tag could not be put on.
pub open spec fn link_failed_text(name: Seq<char>, error: Seq<char>) -> Seq<char> {
    "标签「"@ + name + "」未打上："@ + error
}

/// Where the linker stands.
#[derive(Debug, Clone, Copy, PartialEq, Eq, Structural)]
pub enum LinkPhase {
    /// Ready for the next name.
    Ready,
    /// A tag is being created.
    AwaitCreate,
    /// A tag was just created and is to be put on.
    Created,
    /// A tag is being put on.
    AwaitLink,
}

/// What the host does next.
#[derive(Debug, Clone, PartialEq, Eq)]
pub enum TagLinkStep {
    /// Create a tag of this name (the dictionary has none).
    Create { name: String },
    /// Put the tag `tag_id`, named `name`, on the archive.
    Link { name: String, tag_id: String },
    /// Every name is handled.
    Done,
}

/// Putting tags on an archive by name, one store call at a time.
pub struct TagLinker {
    known: Vec<(String, String)>,
    names: Vec<String>,
    next: usize,
    phase: LinkPhase,
    pending_name: String,
    pending_id: String,
    notes: Vec<String>,
}

/// The view of a dictionary entry.
pub open spec fn entry_view(e: (String, String)) -> (Seq<char>, Seq<char>) {
    (e.0@, e.1@)
}

/// The dictionary of the tags that exist, by name.
pub open spec fn dictionary(tags: Seq<AnalyticsTag>) -> Seq<(Seq<char>, Seq<char>)> {
    tags.map_values(|t: AnalyticsTag| (t.name@, t.id@))
}

impl TagLinker {
    /// The dictionary: names and ids, later entries winning.
    pub closed spec fn known_spec(&self) -> Seq<(Seq<char>, Seq<char>)> {
        self.known@.map_values(|e: (String, String)| entry_view(e))
    }

    /// The names asked for.
    pub closed spec fn names_spec(&self) -> Seq<Seq<char>> {
        views(self.names@)
    }

    /// Names before this position are handled.
    pub closed spec fn next_spec(&self) -> int {
        self.next as int
    }

    pub closed spec fn phase_spec(&self) -> LinkPhase {
        self.phase
    }

    /// The (trimmed) name of the tag in hand.
    pub closed spec fn pending_name_spec(&self) -> Seq<char> {
        self.pending_name@
    }

    /// The id of a tag just created.
    pub closed spec fn pending_id_spec(&self) -> Seq<char> {
        self.pending_id@
    }

    /// The notes so far.
    pub closed spec fn notes_spec(&self) -> Seq<Seq<char>> {
        views(self.notes@)
    }

    /// The internal consistency of a linker.
    pub closed spec fn wf(&self) -> bool {
        self.next <= self.names@.len()
    }

    /// A linker for `names` against the tags that exist.
    pub fn new(existing: &[AnalyticsTag], names: Vec<String>) -> (l: TagLinker)
        ensures
            l.wf(),
            l.known_spec() == dictionary(existing@),
            l.names_spec() == views(names@),
            l.next_spec() == 0,
            l.phase_spec() == LinkPhase::Ready,
            l.notes_spec() == Seq::<Seq<char>>::empty(),
    {
        let mut known: Vec<(String, String)> = Vec::new();
        let mut i: usize = 0;
        while i < existing.len()
            invariant
                i <= existing@.len(),
                known@.map_values(|e: (String, String)| entry_view(e)) == dictionary(existing@).take(i as int),
            decreases existing.len() - i,
        {
            let ghost before = known@;
            known.push((existing[i].name.clone(), existing[i].id.clone()));
            assert(known@.map_values(|e: (String, String)| entry_view(e)) =~= before.map_values(
                |e: (String, String)| entry_view(e),
            ).push((existing@[i as int].name@, existing@[i as int].id@)));
            assert(dictionary(existing@).take(i + 1) =~= dictionary(existing@).take(i as int).push(
                (existing@[i as int].name@, existing@[i as int].id@),
            ));
            i += 1;
        }
        assert(dictionary(existing@).take(existing@.len() as int) =~= dictionary(existing@));
        let l = TagLinker {
            known,
            names,
            next: 0,
            phase: LinkPhase::Ready,
            pending_name: String::new(),
            pending_id: String::new(),
            notes: Vec::new(),
        };
        assert(l.notes_spec() =~= Seq::<Seq<char>>::empty());
        l
    }

    /// The id the dictionary gives `name`.
    fn lookup(&self, name: &str) -> (r: Option<String>)
        ensures
            match r {
                Some(id) => known_id(self.known_spec(), name@) == Some(id@),
                None => known_id(self.known_spec(), name@) is None,
            },
    {
        let ghost kv = self.known_spec();
        let mut i: usize = self.known.len();
        assert(kv.take(kv.len() as int) =~= kv);
        while i > 0
            invariant
                i <= self.known@.len(),
                kv == self.known_spec(),
                kv.len() == self.known@.len(),
                known_id(kv, name@) == known_id(kv.take(i as int), name@),
            decreases i,
        {
            let ghost prefix = kv.take(i as int);
            assert(prefix.last() == kv[i - 1]);
            assert(prefix.drop_last() =~= kv.take(i - 1));
            assert(kv[i - 1] == entry_view(self.known@[i - 1]));
            if str_eq(self.known[i - 1].0.as_str(), name) {
                return Some(self.known[i - 1].1.clone());
            }
            i -= 1;
        }
        assert(kv.take(0) =~= Seq::<(Seq<char>, Seq<char>)>::empty());
        None
    }

    /// The next step: a created tag is put on first; otherwise the next name that
    /// is not blank is taken, trimmed, and put on when the dictionary knows it,
    /// created when it does not; with no name left, done.
    pub fn next_step(&mut self) -> (step: TagLinkStep)
        requires
            old(self).wf(),
            old(self).phase_spec() == LinkPhase::Ready || old(self).phase_spec() == LinkPhase::Created,
        ensures
            final(self).wf(),
            final(self).known_spec() == old(self).known_spec(),
            final(self).names_spec() == old(self).names_spec(),
            final(self).notes_spec() == old(self).notes_spec(),
            old(self).phase_spec() == LinkPhase::Created ==> {
                &&& step matches TagLinkStep::Link { name, tag_id } && name@ == old(self).pending_name_spec()
                    && tag_id@ == old(self).pending_id_spec()
                &&& final(self).phase_spec() == LinkPhase::AwaitLink
                &&& final(self).next_spec() == old(self).next_spec()
                &&& final(self).pending_name_spec() == old(self).pending_name_spec()
            },
            old(self).phase_spec() == LinkPhase::Ready ==> {
                let i = next_named(old(self).names_spec(), old(self).next_spec());
                &&& i == old(self).names_spec().len() ==> step == TagLinkStep::Done
                    && final(self).phase_spec() == LinkPhase::Ready
                    && final(self).next_spec() == i
                &&& i < old(self).names_spec().len() ==> {
                    let name = trim(old(self).names_spec()[i]);
                    &&& final(self).next_spec() == i + 1
                    &&& final(self).pending_name_spec() == name
                    &&& match known_id(old(self).known_spec(), name) {
                        Some(id) => (step matches TagLinkStep::Link { name: n, tag_id } && n@ == name
                            && tag_id@ == id) && final(self).phase_spec() == LinkPhase::AwaitLink,
                        None => (step matches TagLinkStep::Create { name: n } && n@ == name)
                            && final(self).phase_spec() == LinkPhase::AwaitCreate,
                    }
                }
            },
    {
        if self.phase == LinkPhase::Created {
            self.phase = LinkPhase::AwaitLink;
            return TagLinkStep::Link { name: self.pending_name.clone(), tag_id: self.pending_id.clone() };
        }
        let ghost nv = self.names_spec();
        let mut i = self.next;
        while i < self.names.len() && blank(self.names[i].as_str())
            invariant
                self.next <= i <= self.names@.len(),
                nv == views(self.names@),
                next_named(nv, self.next as int) == next_named(nv, i as int),
            decreases self.names.len() - i,
        {
            assert(nv[i as int] == self.names@[i as int]@);
            i += 1;
        }
        self.next = i;
        if i == self.names.len() {
            return TagLinkStep::Done;
        }
        assert(nv[i as int] == self.names@[i as int]@);
        assert(!is_blank(nv[i as int]));
        let name = trimmed(self.names[i].as_str());
        self.next = i + 1;
        self.pending_name = name.clone();
        match self.lookup(name.as_str()) {
            Some(id) => {
                self.phase = LinkPhase::AwaitLink;
                TagLinkStep::Link { name, tag_id: id }
            },
            None => {
                self.phase = LinkPhase::AwaitCreate;
                TagLinkStep::Create { name }
            },
        }
    }

    /// What came of creating the tag in hand: on success the new tag joins the
    /// dictionary (so the same name later in the batch reuses it) and is put on
    /// next; on failure the note says so and the name is given up.
    pub fn created(&mut self, outcome: Result<(String, String), String>)
        requires
            old(self).wf(),
            old(self).phase_spec() == LinkPhase::AwaitCreate,
        ensures
            final(self).wf(),
            final(self).names_spec() == old(self).names_spec(),
            final(self).next_spec() == old(self).next_spec(),
            final(self).pending_name_spec() == old(self).pending_name_spec(),
            match outcome {
                Ok((tag_name, tag_id)) => {
                    &&& final(self).known_spec() == old(self).known_spec().push((tag_name@, tag_id@))
                    &&& final(self).phase_spec() == LinkPhase::Created
                    &&& final(self).pending_id_spec() == tag_id@
                    &&& final(self).notes_spec() == old(self).notes_spec()
                },
                Err(error) => {
                    &&& final(self).known_spec() == old(self).known_spec()
                    &&& final(self).phase_spec() == LinkPhase::Ready
                    &&& final(self).notes_spec() == old(self).notes_spec().push(
                        create_failed_text(old(self).pending_name_spec(), error@),
                    )
                },
            },
    {
        match outcome {
            Ok((tag_name, tag_id)) => {
                let ghost before = self.known@;
                self.pending_id = tag_id.clone();
                self.known.push((tag_name, tag_id));
                assert(self.known@.map_values(|e: (String, String)| entry_view(e)) =~= before.map_values(
                    |e: (String, String)| entry_view(e),
                ).push(entry_view(self.known@.last())));
                self.phase = LinkPhase::Created;
            },
            Err(error) => {
                let mut note = owned("标签「");
                push_str(&mut note, self.pending_name.as_str());
                push_str(&mut note, "」未建立：");
                push_str(&mut note, error.as_str());
                let ghost before = self.notes@;
                self.notes.push(note);
                assert(views(self.notes@) =~= views(before).push(self.notes@.last()@));
                self.phase = LinkPhase::Ready;
            },
        }
    }

    /// What came of putting the tag in hand on: a failure adds a note; either way
    /// the linker is ready for the next name.
    pub fn linked(&mut self, outcome: Result<(), String>)
        requires
            old(self).wf(),
            old(self).phase_spec() == LinkPhase::AwaitLink,
        ensures
            final(self).wf(),
            final(self).known_spec() == old(self).known_spec(),
            final(self).names_spec() == old(self).names_spec(),
            final(self).next_spec() == old(self).next_spec(),
            final(self).phase_spec() == LinkPhase::Ready,
            match outcome {
                Ok(()) => final(self).notes_spec() == old(self).notes_spec(),
                Err(error) => final(self).notes_spec() == old(self).notes_spec().push(
                    link_failed_text(old(self).pending_name_spec(), error@),
                ),
            },
    {
        if let Err(error) = outcome {
            let mut note = owned("标签「");
            push_str(&mut note, self.pending_name.as_str());
            push_str(&mut note, "」未打上：");
            push_str(&mut note, error.as_str());
            let ghost before = self.notes@;
            self.notes.push(note);
            assert(views(self.notes@) =~= views(before).push(self.notes@.last()@));
        }
        self.phase = LinkPhase::Ready;
    }

    /// The notes so far (empty: every tag went on).
    pub fn notes(&self) -> (r: Vec<String>)
        ensures
            views(r@) == self.notes_spec(),
    {
        let mut out: Vec<String> = Vec::new();
        let mut i: usize = 0;
        while i < self.notes.len()
            invariant
                i <= self.notes@.len(),
                views(out@) == views(self.notes@).take(i as int),
            decreases self.notes.len() - i,
        {
            let ghost before = out@;
            out.push(self.notes[i].clone());
            assert(views(out@) =~= views(before).push(self.notes@[i as int]@));
            assert(views(self.notes@).take(i + 1) =~= views(self.notes@).take(i as int).push(self.notes@[i as int]@));
            i += 1;
        }
        assert(views(self.notes@).take(self.notes@.len() as int) =~= views(self.notes@));
        out
    }
}

/// The note when the tag dictionary itself could not be read (one note for the
/// whole batch, not one per name).
pub fn tags_unreadable_note(error: &str) -> (s: String)
    ensures
        s@ == "标签未打上："@ + error@,
{
    let mut s = owned("标签未打上：");
    push_str(&mut s, error);
    s
}

/// The note when the archive could not be filed under its group.
pub fn group_failed_note(error: &str) -> (s: String)
    ensures
        s@ == "分组未归入："@ + error@,
{
    let mut s = owned("分组未归入：");
    push_str(&mut s, error);
    s
}

/// A tag added to the dictionary (as [`TagLinker::created`] does) is what its
/// name looks up from then on, so a later occurrence of the name in the same
/// batch is put on rather than created again ([`TagLinker::next_step`]).
pub proof fn law_created_name_is_reused(known: Seq<(Seq<char>, Seq<char>)>, name: Seq<char>, id: Seq<char>)
    ensures
        known_id(known.push((name, id)), name) == Some(id),
{
    assert(known.push((name, id)).last() == (name, id));
}

} // verus!
