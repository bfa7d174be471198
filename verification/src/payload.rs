//! Payload layer: the managed files under `{project}/resources/` and the hidden
//! version copies. This module holds the path rules; the file operations
//! themselves are the host's.
//!
//! Paths are `/`-separated text; a relative path handed in may also use a backslash.

use vstd::prelude::*;

use crate::error::{ArchiveError, RelPathProblem};
use crate::text::{
    blank, chars_of, has_char, lemma_split_on_nonempty, push_char, push_str, split_chars,
    split_on, string_of, trim, trimmed,
};

verus! {

/// Name of the managed content directory under the project root.
pub const RESOURCES_DIR_NAME: &'static str = "resources";

/// Name of the project's internal metadata directory.
pub const META_DIR_NAME: &'static str = ".RSmeta";

/// Name of the version copy directory (inside the metadata directory).
pub const VERSIONS_DIR_NAME: &'static str = "versions";

/// Payload store of one project.
#[derive(Debug, Clone)]
pub struct PayloadStore {
    project_root: String,
}

/// `base` joined with `name` (`Path::join` for a relative, non-empty `name`).
pub open spec fn join(base: Seq<char>, name: Seq<char>) -> Seq<char> {
    if base.len() == 0 {
        name
    } else if base.last() == '/' {
        base + name
    } else {
        base + seq!['/'] + name
    }
}

/// `base` joined with each of `names`, in order.
pub open spec fn join_all(base: Seq<char>, names: Seq<Seq<char>>) -> Seq<char>
    decreases names.len(),
{
    if names.len() == 0 {
        base
    } else {
        join(join_all(base, names.drop_last()), names.last())
    }
}

/// A path segment refused by the guard: `..`, or a dot-prefixed name other than `.`.
pub open spec fn segment_problem(seg: Seq<char>) -> Option<RelPathProblem> {
    if seg == seq!['.', '.'] {
        Some(RelPathProblem::Traversal)
    } else if seg.len() > 0 && seg[0] == '.' && seg != seq!['.'] {
        Some(RelPathProblem::Hidden)
    } else {
        None
    }
}

/// The first refused segment's problem, in path order.
pub open spec fn first_problem(segs: Seq<Seq<char>>) -> Option<RelPathProblem>
    decreases segs.len(),
{
    if segs.len() == 0 {
        None
    } else {
        match first_problem(segs.drop_last()) {
            Some(p) => Some(p),
            None => segment_problem(segs.last()),
        }
    }
}

/// The segments that name something (empty segments and `.` dropped).
pub open spec fn named_segments(segs: Seq<Seq<char>>) -> Seq<Seq<char>> {
    segs.filter(|s: Seq<char>| s.len() > 0 && s != seq!['.'])
}

/// A drive prefix such as `C:` (absolute or drive-relative on Windows).
pub open spec fn drive_prefixed(t: Seq<char>) -> bool {
    t.len() >= 2 && t[1] == ':' && (('a' <= t[0] && t[0] <= 'z') || ('A' <= t[0] && t[0] <= 'Z'))
}

/// What resolving a relative path gives: the trimmed path, refused when blank,
/// absolute (`/x`, `\\x`, `C:x`), or holding `..` or a dot-prefixed segment (`\\`
/// separates segments as `/` does); otherwise the managed directory joined with its
/// named segments.
pub open spec fn resolve_spec(resources: Seq<char>, rel: Seq<char>) -> Result<Seq<char>, RelPathProblem> {
    let t = trim(rel);
    let u = slashes(t);
    if t.len() == 0 {
        Err(RelPathProblem::Empty)
    } else if u[0] == '/' || drive_prefixed(t) {
        Err(RelPathProblem::Absolute)
    } else {
        match first_problem(split_on(u, '/')) {
            Some(p) => Err(p),
            None => Ok(join_all(resources, named_segments(split_on(u, '/')))),
        }
    }
}

/// The components of a path as `Path::components` yields them: `/` for the root,
/// `.` for a leading current directory, then the names (empty segments and inner `.`
/// dropped).
pub open spec fn components(p: Seq<char>) -> Seq<Seq<char>> {
    let segs = split_on(p, '/');
    if p.len() > 0 && p[0] == '/' {
        seq![seq!['/']] + named_segments(segs)
    } else if segs[0] == seq!['.'] {
        seq![seq!['.']] + named_segments(segs)
    } else {
        named_segments(segs)
    }
}

/// `base` is a component-wise prefix of `path` (`Path::starts_with`).
pub open spec fn path_starts_with(path: Seq<char>, base: Seq<char>) -> bool {
    let a = components(path);
    let b = components(base);
    b.len() <= a.len() && a.subrange(0, b.len() as int) == b
}

/// Joins a path and a name.
fn join_exec(base: &String, name: &Vec<char>) -> (r: String)
    ensures
        r@ == join(base@, name@),
{
    let mut r = base.clone();
    let b = chars_of(base.as_str());
    if b.len() > 0 && b[b.len() - 1] != '/' {
        push_char(&mut r, '/');
    }
    let n = string_of(name);
    push_str(&mut r, n.as_str());
    r
}

/// The problem of one segment.
fn segment_problem_exec(seg: &Vec<char>) -> (r: Option<RelPathProblem>)
    ensures
        r == segment_problem(seg@),
{
    if seg.len() == 2 && seg[0] == '.' && seg[1] == '.' {
        assert(seg@ =~= seq!['.', '.']);
        Some(RelPathProblem::Traversal)
    } else if seg.len() > 0 && seg[0] == '.' && seg.len() != 1 {
        assert(seg@ != seq!['.', '.']) by {
            if seg.len() == 2 {
                assert(seg@[1] != seq!['.', '.'][1]);
            }
        }
        assert(seg@ != seq!['.']) by {
            assert(seg@.len() != 1);
        }
        Some(RelPathProblem::Hidden)
    } else {
        if seg.len() == 2 && seg[0] == '.' {
            assert(seg@ != seq!['.', '.']) by {
                assert(seg@[1] != seq!['.', '.'][1]);
            }
        }
        if seg.len() == 1 && seg[0] == '.' {
            assert(seg@ =~= seq!['.']);
        }
        None
    }
}

/// Whether a segment names something.
fn is_named(seg: &Vec<char>) -> (r: bool)
    ensures
        r == (seg@.len() > 0 && seg@ != seq!['.']),
{
    if seg.len() == 1 && seg[0] == '.' {
        assert(seg@ =~= seq!['.']);
        false
    } else {
        assert(seg@.len() != 1 ==> seg@ != seq!['.']);
        seg.len() > 0
    }
}

/// A safe single directory segment from an id: trimmed, non-empty, no separator,
/// no leading dot, no `..`.
pub open spec fn safe_segment_ok(raw: Seq<char>) -> bool {
    let t = trim(raw);
    &&& t.len() > 0
    &&& t[0] != '.'
    &&& !has_char(t, '/')
    &&& !has_char(t, '\\')
    &&& !crate::text::contains_seq(t, seq!['.', '.'])
}

/// An id made safe as one directory segment (refused when it could escape).
pub fn safe_segment(raw: &str) -> (r: Result<String, ArchiveError>)
    ensures
        match r {
            Ok(s) => safe_segment_ok(raw@) && s@ == trim(raw@),
            Err(e) => !safe_segment_ok(raw@) && (e matches ArchiveError::InvalidId { raw: x } && x@
                == raw@),
        },
{
    let t = trimmed(raw);
    let v = chars_of(t.as_str());
    let dots: Vec<char> = vec!['.', '.'];
    assert(dots@ =~= seq!['.', '.']);
    if v.len() == 0 || v[0] == '.' || crate::text::has_char_exec(&v, '/')
        || crate::text::has_char_exec(&v, '\\') || crate::text::contains_chars(&v, &dots) {
        Err(ArchiveError::InvalidId { raw: crate::text::owned(raw) })
    } else {
        Ok(t)
    }
}

impl PayloadStore {
    /// A store rooted at the project directory.
    pub fn new(project_root: String) -> (s: PayloadStore)
        ensures
            s.root_view() == project_root@,
    {
        PayloadStore { project_root }
    }

    /// The project root, as text.
    pub closed spec fn root_view(&self) -> Seq<char> {
        self.project_root@
    }

    /// The managed directory: `{root}/resources`.
    pub open spec fn resources_view(&self) -> Seq<char> {
        join(self.root_view(), RESOURCES_DIR_NAME@)
    }

    /// The project root.
    pub fn project_root(&self) -> (r: &str)
        ensures
            r@ == self.root_view(),
    {
        self.project_root.as_str()
    }

    /// The managed content root: `{root}/resources`.
    pub fn resources_dir(&self) -> (r: String)
        ensures
            r@ == self.resources_view(),
    {
        join_exec(&self.project_root, &chars_of(RESOURCES_DIR_NAME))
    }

    /// The version copy root: `{root}/.RSmeta/resources/versions`.
    pub fn versions_dir(&self) -> (r: String)
        ensures
            r@ == join(join(join(self.root_view(), META_DIR_NAME@), RESOURCES_DIR_NAME@), VERSIONS_DIR_NAME@),
    {
        let a = join_exec(&self.project_root, &chars_of(META_DIR_NAME));
        let b = join_exec(&a, &chars_of(RESOURCES_DIR_NAME));
        join_exec(&b, &chars_of(VERSIONS_DIR_NAME))
    }

    /// Relative path → path under the managed directory, with the escape guard:
    /// refuses blank, absolute and root-relative paths, `..`, and any dot-prefixed
    /// segment (internal state must not be reachable); `.` segments are no-ops.
    pub fn resolve(&self, rel: &str) -> (r: Result<String, ArchiveError>)
        ensures
            match r {
                Ok(p) => resolve_spec(self.resources_view(), rel@) == Ok::<Seq<char>, RelPathProblem>(p@),
                Err(e) => (e matches ArchiveError::InvalidRelPath { rel: x, problem } && x@ == trim(rel@)
                    && resolve_spec(self.resources_view(), rel@) == Err::<Seq<char>, RelPathProblem>(problem)),
            },
    {
        let t = trimmed(rel);
        let raw = chars_of(t.as_str());
        if raw.len() == 0 {
            return Err(ArchiveError::InvalidRelPath { rel: t, problem: RelPathProblem::Empty });
        }
        let v = chars_of(slash_all(t.as_str()).as_str());
        assert(v@.len() == raw@.len());
        if v[0] == '/' || (raw.len() >= 2 && raw[1] == ':' && (('a' <= raw[0] && raw[0] <= 'z') || ('A' <= raw[0]
            && raw[0] <= 'Z'))) {
            return Err(ArchiveError::InvalidRelPath { rel: t, problem: RelPathProblem::Absolute });
        }
        let segs = split_chars(&v, '/');
        let ghost sv = segs@.map_values(|p: Vec<char>| p@);
        let ghost pred = |s: Seq<char>| s.len() > 0 && s != seq!['.'];
        let mut resolved = self.resources_dir();
        let mut i: usize = 0;
        while i < segs.len()
            invariant
                i <= segs.len(),
                sv == segs@.map_values(|p: Vec<char>| p@),
                sv == split_on(slashes(trim(rel@)), '/'),
                t@ == trim(rel@),
                trim(rel@).len() > 0,
                slashes(trim(rel@))[0] != '/',
                !drive_prefixed(trim(rel@)),
                pred == (|s: Seq<char>| s.len() > 0 && s != seq!['.']),
                first_problem(sv.take(i as int)) is None,
                resolved@ == join_all(self.resources_view(), sv.take(i as int).filter(pred)),
            decreases segs.len() - i,
        {
            assert(sv.take(i + 1).drop_last() == sv.take(i as int));
            assert(sv.take(i + 1).last() == segs@[i as int]@);
            if let Some(problem) = segment_problem_exec(&segs[i]) {
                proof {
                    lemma_first_problem_prefix(sv, (i + 1) as int);
                }
                return Err(ArchiveError::InvalidRelPath { rel: t, problem });
            }
            assert(sv.take(i + 1).filter(pred) == if pred(sv[i as int]) {
                sv.take(i as int).filter(pred).push(sv[i as int])
            } else {
                sv.take(i as int).filter(pred)
            }) by {
                reveal(Seq::filter);
            }
            if is_named(&segs[i]) {
                resolved = join_exec(&resolved, &segs[i]);
                assert(sv.take(i as int).filter(pred).push(sv[i as int]).drop_last() == sv.take(i as int).filter(pred));
            }
            i += 1;
        }
        assert(sv.take(segs.len() as int) == sv);
        Ok(resolved)
    }

    /// Write guard: any path inside the managed directory is refused (payloads are
    /// read-only; edit a checked-out working copy instead).
    pub fn ensure_writable(&self, path: &str) -> (r: Result<(), ArchiveError>)
        ensures
            match r {
                Ok(()) => !path_starts_with(path@, self.resources_view()),
                Err(e) => path_starts_with(path@, self.resources_view())
                    && (e matches ArchiveError::ReadOnlyPayload { path: x } && x@ == path@),
            },
    {
        let dir = self.resources_dir();
        let a = components_exec(path);
        let b = components_exec(dir.as_str());
        let prefix = is_prefix(&b, &a);
        if prefix {
            Err(ArchiveError::ReadOnlyPayload { path: crate::text::owned(path) })
        } else {
            Ok(())
        }
    }
}

/// Whether `b` is a prefix of `a`.
fn is_prefix(b: &Vec<Vec<char>>, a: &Vec<Vec<char>>) -> (r: bool)
    ensures
        r == (b@.len() <= a@.len() && a@.map_values(|p: Vec<char>| p@).subrange(0, b@.len() as int)
            == b@.map_values(|p: Vec<char>| p@)),
{
    let ghost av = a@.map_values(|p: Vec<char>| p@);
    let ghost bv = b@.map_values(|p: Vec<char>| p@);
    if b.len() > a.len() {
        return false;
    }
    let mut i: usize = 0;
    while i < b.len()
        invariant
            i <= b.len() <= a.len(),
            av == a@.map_values(|p: Vec<char>| p@),
            bv == b@.map_values(|p: Vec<char>| p@),
            forall|k: int| 0 <= k < i ==> av[k] == bv[k],
        decreases b.len() - i,
    {
        if !crate::text::chars_eq(&a[i], &b[i]) {
            assert(av.subrange(0, bv.len() as int)[i as int] != bv[i as int]);
            return false;
        }
        i += 1;
    }
    assert(av.subrange(0, bv.len() as int) =~= bv);
    true
}

/// Trailing separators and trailing `.` components removed (what `Path::parent` and
/// `Path::file_name` ignore at the end of a path).
pub open spec fn rtrim_path(s: Seq<char>) -> Seq<char>
    decreases s.len(),
{
    if s.len() > 1 && s.last() == '/' {
        rtrim_path(s.drop_last())
    } else if s.len() > 1 && s.last() == '.' && s[s.len() - 2] == '/' {
        rtrim_path(s.drop_last().drop_last())
    } else {
        s
    }
}

/// The position of the last `c` in `s`, if any.
pub open spec fn last_index_of(s: Seq<char>, c: char) -> Option<int>
    decreases s.len(),
{
    if s.len() == 0 {
        None
    } else if s.last() == c {
        Some(s.len() - 1)
    } else {
        last_index_of(s.drop_last(), c)
    }
}

/// The (parent, file name) of a relative path, as `Path::parent` / `Path::file_name`
/// see it; an empty parent is none.
pub open spec fn split_parent(rel: Seq<char>) -> (Option<Seq<char>>, Seq<char>) {
    let s0 = rtrim_path(rel);
    match last_index_of(s0, '/') {
        None => (None, s0),
        Some(k) => {
            let parent = rtrim_path(s0.subrange(0, k));
            (if parent.len() == 0 {
                None
            } else {
                Some(parent)
            }, s0.subrange(k + 1, s0.len() as int))
        },
    }
}

/// (stem, extension) of a file name, as `Path::file_stem` / `Path::extension` see it;
/// a name that is empty, `.` or `..` has the stem `archive`.
pub open spec fn split_stem(name: Seq<char>) -> (Seq<char>, Option<Seq<char>>) {
    if name.len() == 0 || name == seq!['.'] || name == seq!['.', '.'] {
        ("archive"@, None)
    } else {
        match last_index_of(name, '.') {
            None => (name, None),
            Some(d) => if d == 0 {
                (name, None)
            } else {
                (name.subrange(0, d), Some(name.subrange(d + 1, name.len() as int)))
            },
        }
    }
}

/// Every `\\` replaced by `/`.
pub open spec fn slashes(s: Seq<char>) -> Seq<char> {
    s.map_values(|c: char| if c == '\\' { '/' } else { c })
}

/// The `index`-th alternative of a taken relative path: `stem-index.ext` next to it.
pub open spec fn candidate_path(rel: Seq<char>, index: nat) -> Seq<char> {
    let (parent, name) = split_parent(rel);
    let (stem, ext) = split_stem(name);
    let file = match ext {
        Some(e) => stem + seq!['-'] + crate::text::dec(index) + seq!['.'] + e,
        None => stem + seq!['-'] + crate::text::dec(index),
    };
    slashes(match parent {
        Some(d) => join(d, file),
        None => file,
    })
}

/// Trailing separators and `.` components removed.
fn rtrim_path_exec(v: &Vec<char>, end: usize) -> (r: usize)
    requires
        end <= v.len(),
    ensures
        r <= end,
        v@.subrange(0, r as int) == rtrim_path(v@.subrange(0, end as int)),
{
    let mut e = end;
    while (e > 1 && v[e - 1] == '/') || (e > 1 && v[e - 1] == '.' && v[e - 2] == '/')
        invariant
            e <= end <= v.len(),
            rtrim_path(v@.subrange(0, end as int)) == rtrim_path(v@.subrange(0, e as int)),
        decreases e,
    {
        if v[e - 1] == '/' {
            assert(v@.subrange(0, e as int).drop_last() == v@.subrange(0, e - 1));
            e -= 1;
        } else {
            assert(v@.subrange(0, e as int).drop_last().drop_last() == v@.subrange(0, e - 2));
            e -= 2;
        }
    }
    e
}

/// The last position of `c` before `end`.
fn last_index_exec(v: &Vec<char>, end: usize, c: char) -> (r: Option<usize>)
    requires
        end <= v.len(),
    ensures
        match r {
            Some(k) => k < end && last_index_of(v@.subrange(0, end as int), c) == Some(k as int),
            None => last_index_of(v@.subrange(0, end as int), c) is None,
        },
{
    let mut e = end;
    while e > 0
        invariant
            e <= end <= v.len(),
            last_index_of(v@.subrange(0, end as int), c) == last_index_of(v@.subrange(0, e as int), c),
        decreases e,
    {
        assert(v@.subrange(0, e as int).drop_last() == v@.subrange(0, e - 1));
        if v[e - 1] == c {
            return Some(e - 1);
        }
        e -= 1;
    }
    None
}

/// The characters `v[from..to]`.
fn sub_vec(v: &Vec<char>, from: usize, to: usize) -> (r: Vec<char>)
    requires
        from <= to <= v.len(),
    ensures
        r@ == v@.subrange(from as int, to as int),
{
    let mut r: Vec<char> = Vec::new();
    let mut i = from;
    while i < to
        invariant
            from <= i <= to <= v.len(),
            r@ == v@.subrange(from as int, i as int),
        decreases to - i,
    {
        r.push(v[i]);
        assert(v@.subrange(from as int, i + 1) == v@.subrange(from as int, i as int).push(v@[i as int]));
        i += 1;
    }
    r
}

/// Every `\\` replaced by `/`.
pub(crate) fn slash_all(s: &str) -> (r: String)
    ensures
        r@ == slashes(s@),
{
    let v = chars_of(s);
    let mut out = String::new();
    let mut i: usize = 0;
    while i < v.len()
        invariant
            i <= v.len(),
            out@ == slashes(v@.take(i as int)),
        decreases v.len() - i,
    {
        let c = v[i];
        push_char(&mut out, if c == '\\' { '/' } else { c });
        assert(slashes(v@.take(i + 1)) =~= slashes(v@.take(i as int)).push(
            if c == '\\' { '/' } else { c },
        ));
        i += 1;
    }
    assert(v@.take(v.len() as int) == v@);
    out
}

/// Stem and extension of a file name.
pub(crate) fn stem_of(name: &Vec<char>) -> (r: (Vec<char>, Option<Vec<char>>))
    ensures
        r.0@ == split_stem(name@).0,
        match r.1 {
            Some(e) => split_stem(name@).1 == Some(e@),
            None => split_stem(name@).1 is None,
        },
{
    let special = name.len() == 0 || (name.len() == 1 && name[0] == '.') || (name.len() == 2
        && name[0] == '.' && name[1] == '.');
    proof {
        if name.len() == 1 && name@[0] == '.' {
            assert(name@ =~= seq!['.']);
        }
        if name.len() == 2 && name@[0] == '.' && name@[1] == '.' {
            assert(name@ =~= seq!['.', '.']);
        }
        if !special {
            if name.len() == 1 {
                assert(name@[0] != seq!['.'][0]);
            }
            if name.len() == 2 {
                if name@[0] != '.' {
                    assert(name@[0] != seq!['.', '.'][0]);
                } else {
                    assert(name@[1] != seq!['.', '.'][1]);
                }
            }
        }
    }
    if special {
        proof {
            reveal_strlit("archive");
        }
        return (chars_of("archive"), None);
    }
    assert(name@.subrange(0, name.len() as int) == name@);
    match last_index_exec(name, name.len(), '.') {
        None => (name.clone(), None),
        Some(d) => if d == 0 {
            (name.clone(), None)
        } else {
            (sub_vec(name, 0, d), Some(sub_vec(name, d + 1, name.len())))
        },
    }
}

/// The `index`-th alternative of a relative path.
pub fn candidate_rel_path(rel: &str, index: u64) -> (r: String)
    ensures
        r@ == candidate_path(rel@, index as nat),
{
    let v = chars_of(rel);
    assert(v@.subrange(0, v.len() as int) == v@);
    let e0 = rtrim_path_exec(&v, v.len());
    let s0 = sub_vec(&v, 0, e0);
    assert(s0@.subrange(0, s0.len() as int) == s0@);
    let parts: (Option<Vec<char>>, Vec<char>) = match last_index_exec(&s0, s0.len(), '/') {
        None => (None, s0.clone()),
        Some(k) => {
            let pe = rtrim_path_exec(&s0, k);
            let name = sub_vec(&s0, k + 1, s0.len());
            if pe == 0 {
                (None, name)
            } else {
                (Some(sub_vec(&s0, 0, pe)), name)
            }
        },
    };
    let (parent, name) = parts;
    assert(name@ == split_parent(rel@).1);
    let (stem, ext) = stem_of(&name);
    let mut file = crate::text::string_of(&stem);
    push_char(&mut file, '-');
    crate::text::push_dec(&mut file, index);
    match ext {
        Some(e) => {
            push_char(&mut file, '.');
            push_str(&mut file, crate::text::string_of(&e).as_str());
        },
        None => {},
    }
    let joined = match parent {
        Some(d) => join_exec(&crate::text::string_of(&d), &chars_of(file.as_str())),
        None => file,
    };
    slash_all(joined.as_str())
}

/// The probe `f` answered `ans` for the path `path`.
pub open spec fn answered<F: Fn(&str) -> bool>(f: F, path: Seq<char>, ans: bool) -> bool {
    exists|p: &str| p@ == path && #[trigger] f.ensures((p,), ans)
}

/// Whether a relative path counts as taken: for a path that resolves, what the
/// probe found there; a path that does not resolve counts as taken, so that it is
/// never offered as a free name.
pub open spec fn probed_taken<F: Fn(&str) -> bool>(store: PayloadStore, f: F, rel: Seq<char>, ans: bool) -> bool {
    match resolve_spec(store.resources_view(), rel) {
        Ok(p) => answered(f, p, ans),
        Err(_) => ans,
    }
}

/// Every candidate `stem-2.ext` up to (not including) `stem-n.ext` was answered taken.
pub open spec fn candidates_taken_below<F: Fn(&str) -> bool>(store: PayloadStore, f: F, rel: Seq<char>, n: nat) -> bool {
    forall|j: nat| 2 <= j < n ==> probed_taken(store, f, #[trigger] candidate_path(rel, j), true)
}

/// `stem-i.ext` is the first candidate answered free.
pub open spec fn first_free_candidate<F: Fn(&str) -> bool>(store: PayloadStore, f: F, rel: Seq<char>, i: nat) -> bool {
    &&& 2 <= i < 1000
    &&& probed_taken(store, f, candidate_path(rel, i), false)
    &&& candidates_taken_below(store, f, rel, i)
}

impl PayloadStore {
    /// Whether the target of a relative path is occupied on disk (`probe` answers for
    /// a resolved path); a path that does not resolve counts as taken.
    pub fn rel_path_taken<F: Fn(&str) -> bool>(&self, rel: &str, probe: &F) -> (r: bool)
        requires
            forall|p: &str| #[trigger] probe.requires((p,)),
        ensures
            probed_taken(*self, *probe, rel@, r),
    {
        match self.resolve(rel) {
            Ok(path) => {
                let p = path.as_str();
                let r = probe(p);
                assert(probe.ensures((p,), r));
                r
            },
            Err(_) => true,
        }
    }

    /// A free relative path: `rel` itself when free, else the first free of
    /// `stem-2.ext` … `stem-999.ext` next to it; `rel` again when all are taken.
    /// (What is free is what the probe answered when asked.)
    pub fn free_rel_path<F: Fn(&str) -> bool>(&self, rel: &str, probe: &F) -> (r: String)
        requires
            forall|p: &str| #[trigger] probe.requires((p,)),
        ensures
            (r@ == rel@ && probed_taken(*self, *probe, rel@, false)) || (probed_taken(*self, *probe, rel@, true) && (
            (exists|i: nat| #[trigger] first_free_candidate(*self, *probe, rel@, i) && r@ == candidate_path(rel@, i))
                || (r@ == rel@ && candidates_taken_below(*self, *probe, rel@, 1000)))),
    {
        if !self.rel_path_taken(rel, probe) {
            return crate::text::owned(rel);
        }
        let mut index: u64 = 2;
        while index < 1000
            invariant
                2 <= index <= 1000,
                forall|p: &str| #[trigger] probe.requires((p,)),
                probed_taken(*self, *probe, rel@, true),
                candidates_taken_below(*self, *probe, rel@, index as nat),
            decreases 1000 - index,
        {
            let candidate = candidate_rel_path(rel, index);
            assert(candidate@ == candidate_path(rel@, index as nat));
            if !self.rel_path_taken(candidate.as_str(), probe) {
                assert(first_free_candidate(*self, *probe, rel@, index as nat));
                return candidate;
            }
            index += 1;
        }
        crate::text::owned(rel)
    }
}

/// The first problem of a prefix is the first problem of the whole.
proof fn lemma_first_problem_prefix(segs: Seq<Seq<char>>, n: int)
    requires
        0 <= n <= segs.len(),
        first_problem(segs.take(n)) is Some,
    ensures
        first_problem(segs) == first_problem(segs.take(n)),
    decreases segs.len() - n,
{
    if n < segs.len() {
        assert(segs.take(n + 1).drop_last() == segs.take(n));
        lemma_first_problem_prefix(segs, n + 1);
    } else {
        assert(segs.take(n) == segs);
    }
}

/// The components of a path (see [`components`]).
pub(crate) fn components_exec(p: &str) -> (r: Vec<Vec<char>>)
    ensures
        r@.map_values(|c: Vec<char>| c@) == components(p@),
{
    let v = chars_of(p);
    let segs = split_chars(&v, '/');
    let ghost sv = segs@.map_values(|c: Vec<char>| c@);
    let ghost pred = |s: Seq<char>| s.len() > 0 && s != seq!['.'];
    proof {
        lemma_split_on_nonempty(p@, '/');
    }
    let mut out: Vec<Vec<char>> = Vec::new();
    assert(sv[0] == segs@[0]@);
    if v.len() > 0 && v[0] == '/' {
        let root: Vec<char> = vec!['/'];
        assert(root@ =~= seq!['/']);
        out.push(root);
    } else if segs[0].len() == 1 && segs[0][0] == '.' {
        let cur: Vec<char> = vec!['.'];
        assert(cur@ =~= seq!['.']);
        out.push(cur);
        assert(segs@[0]@ =~= seq!['.']);
    } else {
        assert(segs@[0]@ != seq!['.']) by {
            if segs@[0]@.len() == 1 {
                assert(segs@[0]@[0] != seq!['.'][0]);
            }
        }
    }
    let ghost head = out@.map_values(|c: Vec<char>| c@);
    assert(head =~= if p@.len() > 0 && p@[0] == '/' {
        seq![seq!['/']]
    } else if sv[0] == seq!['.'] {
        seq![seq!['.']]
    } else {
        Seq::empty()
    });
    let mut i: usize = 0;
    while i < segs.len()
        invariant
            i <= segs.len(),
            sv == segs@.map_values(|c: Vec<char>| c@),
            pred == (|s: Seq<char>| s.len() > 0 && s != seq!['.']),
            out@.map_values(|c: Vec<char>| c@) == head + sv.take(i as int).filter(pred),
        decreases segs.len() - i,
    {
        assert(sv.take(i + 1).drop_last() == sv.take(i as int));
        assert(sv.take(i + 1).last() == segs@[i as int]@);
        assert(sv.take(i + 1).filter(pred) == if pred(sv[i as int]) {
            sv.take(i as int).filter(pred).push(sv[i as int])
        } else {
            sv.take(i as int).filter(pred)
        }) by {
            reveal(Seq::filter);
        }
        if is_named(&segs[i]) {
            let ghost before = out@.map_values(|c: Vec<char>| c@);
            out.push(segs[i].clone());
            assert(out@.map_values(|c: Vec<char>| c@) =~= before.push(sv[i as int]));
        }
        i += 1;
    }
    assert(sv.take(segs.len() as int) == sv);
    out
}

/// What `str::parse::<i32>` gives: the spelled integer when it fits in `i32`.
pub open spec fn parsed_i32(s: Seq<char>) -> Option<i32> {
    match crate::text::int_text_value(s) {
        Some(v) => if i32::MIN <= v <= i32::MAX {
            Some(v as i32)
        } else {
            None
        },
        None => None,
    }
}

/// The version numbers that entry names spell, in order (other names skipped).
pub open spec fn spelled_versions(names: Seq<Seq<char>>) -> Seq<i32>
    decreases names.len(),
{
    if names.len() == 0 {
        Seq::empty()
    } else {
        match parsed_i32(names.last()) {
            Some(v) => spelled_versions(names.drop_last()).push(v),
            None => spelled_versions(names.drop_last()),
        }
    }
}

/// The key that puts newer versions first.
pub open spec fn newest_first_key(v: i32) -> (int, Seq<char>) {
    (-(v as int), Seq::empty())
}

/// Which content copies pruning removes: the versions that the copy directory's
/// entry names spell, newest first, past the `keep` newest.
pub fn versions_to_prune(names: &[String], keep: u32) -> (r: Vec<i32>)
    ensures
        exists|sorted: Seq<i32>|
            crate::sorting::arranged_stably(
                sorted,
                spelled_versions(crate::seqs::views(names@)),
                spelled_versions(crate::seqs::views(names@)).map_values(|v: i32| newest_first_key(v)),
            ) && r@ == sorted.skip(if keep as int <= sorted.len() { keep as int } else { sorted.len() as int }),
{
    let ghost all = crate::seqs::views(names@);
    let mut versions: Vec<i32> = Vec::new();
    let mut i: usize = 0;
    while i < names.len()
        invariant
            i <= names.len(),
            all == crate::seqs::views(names@),
            versions@ == spelled_versions(all.take(i as int)),
        decreases names.len() - i,
    {
        assert(all.take(i + 1).drop_last() == all.take(i as int));
        assert(all.take(i + 1).last() == names@[i as int]@);
        match crate::text::parse_i64(names[i].as_str()) {
            Some(v) => {
                if -2147483648 <= v && v <= 2147483647 {
                    versions.push(v as i32);
                }
            },
            None => {},
        }
        i += 1;
    }
    assert(all.take(names.len() as int) == all);
    let ghost spelled = versions@;
    let ghost keys = spelled.map_values(|v: i32| newest_first_key(v));
    let n = versions.len();
    let mut ranks: Vec<i64> = Vec::new();
    let mut texts: Vec<Vec<char>> = Vec::new();
    let mut j: usize = 0;
    while j < n
        invariant
            j <= n == versions.len(),
            spelled == versions@,
            keys == spelled.map_values(|v: i32| newest_first_key(v)),
            ranks.len() == j && texts.len() == j,
            forall|k: int| 0 <= k < j ==> crate::sorting::keys_of(ranks@, texts@)[k] == #[trigger] keys[k],
        decreases n - j,
    {
        let ghost pr = ranks@;
        let ghost pt = texts@;
        ranks.push(-(versions[j] as i64));
        texts.push(Vec::new());
        proof {
            assert forall|k: int| 0 <= k < j + 1 implies crate::sorting::keys_of(ranks@, texts@)[k] == #[trigger] keys[k] by {
                if k < j {
                    assert(ranks@[k] == pr[k] && texts@[k] == pt[k]);
                    assert(crate::sorting::keys_of(ranks@, texts@)[k] == crate::sorting::keys_of(pr, pt)[k]);
                } else {
                    assert(texts@[k]@ == Seq::<char>::empty());
                }
            };
        }
        j += 1;
    }
    assert(crate::sorting::keys_of(ranks@, texts@) == keys);
    let idx = crate::sorting::stable_order(&ranks, &texts);
    let ghost p = idx@.map_values(|x: usize| x as int);
    let ghost sorted = Seq::new(n as nat, |k: int| spelled[p[k]]);
    let start: usize = if (keep as usize) <= n { keep as usize } else { n };
    let mut out: Vec<i32> = Vec::new();
    let mut k: usize = start;
    while k < n
        invariant
            start <= k <= n == idx.len() == versions.len(),
            start as int == (if keep as int <= n { keep as int } else { n as int }),
            forall|a: int| 0 <= a < n ==> #[trigger] idx@[a] < n,
            p == idx@.map_values(|x: usize| x as int),
            spelled == versions@,
            sorted == Seq::new(n as nat, |a: int| spelled[p[a]]),
            out@ == sorted.subrange(start as int, k as int),
        decreases n - k,
    {
        out.push(versions[idx[k]]);
        assert(sorted.subrange(start as int, k + 1) == sorted.subrange(start as int, k as int).push(sorted[k as int]));
        k += 1;
    }
    assert(crate::sorting::sorts_stably(p, keys));
    assert(out@ == sorted.skip(start as int));
    out
}

/// The content fingerprint of a payload: lower-case hex of SHA-256 over its bytes.
pub fn content_fingerprint(bytes: &[u8]) -> (s: String)
    ensures
        s@ == crate::analysis::hex_lower(crate::analysis::sha256(bytes@)),
        s@.len() == 64,
{
    let digest = crate::analysis::sha256_digest(bytes);
    proof {
        lemma_hex_len(digest@);
    }
    crate::analysis::hex_encode(digest.as_slice())
}

/// Hex doubles the length.
proof fn lemma_hex_len(data: Seq<u8>)
    ensures
        crate::analysis::hex_lower(data).len() == 2 * data.len(),
    decreases data.len(),
{
    if data.len() > 0 {
        lemma_hex_len(data.drop_last());
    }
}

// ---------------------------------------------------------------- the escape guard as a law

/// A path component that names something: not empty, not `.`, without `/`.
pub open spec fn plain_name(n: Seq<char>) -> bool {
    n.len() > 0 && n != seq!['.'] && !has_char(n, '/')
}

/// Splitting `s`, a separator, then a piece without separators, adds that piece.
proof fn lemma_split_append(s: Seq<char>, n: Seq<char>)
    requires
        !has_char(n, '/'),
    ensures
        split_on(s + seq!['/'] + n, '/') == split_on(s, '/').push(n),
    decreases n.len(),
{
    let t = s + seq!['/'] + n;
    if n.len() == 0 {
        assert(t.drop_last() == s);
        assert(t.last() == '/');
        assert(n == Seq::<char>::empty());
        assert(split_on(t, '/') == split_on(t.drop_last(), '/').push(Seq::<char>::empty()));
    } else {
        let m = n.drop_last();
        assert(!has_char(m, '/')) by {
            if has_char(m, '/') {
                let i = choose|i: int| 0 <= i < m.len() && m[i] == '/';
                assert(n[i] == '/');
            }
        }
        lemma_split_append(s, m);
        assert(t.drop_last() == s + seq!['/'] + m);
        assert(t.last() == n.last());
        assert(n.last() != '/') by {
            if n.last() == '/' {
                assert(n[n.len() - 1] == '/');
            }
        }
        let p = split_on(s, '/').push(m);
        assert(p.update(p.len() - 1, p.last().push(n.last())) == split_on(s, '/').push(n)) by {
            assert(m.push(n.last()) == n);
        }
        assert(split_on(t, '/') == p.update(p.len() - 1, p.last().push(n.last())));
    }
}

/// Named segments of a list with one more piece.
proof fn lemma_named_push(segs: Seq<Seq<char>>, x: Seq<char>)
    ensures
        named_segments(segs.push(x)) == if x.len() > 0 && x != seq!['.'] {
            named_segments(segs).push(x)
        } else {
            named_segments(segs)
        },
{
    let pred = |s: Seq<char>| s.len() > 0 && s != seq!['.'];
    assert(segs.push(x).drop_last() == segs);
    assert(segs.push(x).filter(pred) == if pred(segs.push(x).last()) {
        segs.push(x).drop_last().filter(pred).push(segs.push(x).last())
    } else {
        segs.push(x).drop_last().filter(pred)
    }) by {
        reveal(Seq::filter);
    }
}

/// Joining a name to a non-empty path adds that name to its components.
proof fn lemma_components_join(base: Seq<char>, name: Seq<char>)
    requires
        base.len() > 0,
        plain_name(name),
    ensures
        components(join(base, name)) == components(base).push(name),
        join(base, name).len() > 0,
{
    let j = join(base, name);
    if base.last() == '/' {
        let b0 = base.drop_last();
        assert(base == b0 + seq!['/'] + Seq::<char>::empty());
        assert(j == b0 + seq!['/'] + name);
        lemma_split_append(b0, name);
        lemma_split_append(b0, Seq::<char>::empty());
        lemma_split_on_nonempty(b0, '/');
        lemma_named_push(split_on(b0, '/'), name);
        lemma_named_push(split_on(b0, '/'), Seq::<char>::empty());
        assert(split_on(j, '/')[0] == split_on(base, '/')[0]);
        assert(j[0] == base[0]);
    } else {
        assert(j == base + seq!['/'] + name);
        lemma_split_append(base, name);
        lemma_split_on_nonempty(base, '/');
        lemma_named_push(split_on(base, '/'), name);
        assert(split_on(j, '/')[0] == split_on(base, '/')[0]);
        assert(j[0] == base[0]);
    }
}

/// Joining names to a non-empty path adds them, in order, to its components.
proof fn lemma_components_join_all(base: Seq<char>, names: Seq<Seq<char>>)
    requires
        base.len() > 0,
        forall|i: int| 0 <= i < names.len() ==> plain_name(#[trigger] names[i]),
    ensures
        components(join_all(base, names)) == components(base) + names,
        join_all(base, names).len() > 0,
    decreases names.len(),
{
    if names.len() == 0 {
        assert(components(base) + names == components(base));
    } else {
        let init = names.drop_last();
        assert forall|i: int| 0 <= i < init.len() implies plain_name(#[trigger] init[i]) by {
            assert(init[i] == names[i]);
        }
        lemma_components_join_all(base, init);
        assert(plain_name(names[names.len() - 1]));
        lemma_components_join(join_all(base, init), names.last());
        assert(components(base) + init.push(names.last()) == (components(base) + init).push(names.last()));
        assert(init.push(names.last()) == names);
    }
}

/// No piece of a split holds the separator.
proof fn lemma_split_pieces_plain(s: Seq<char>)
    ensures
        forall|i: int| 0 <= i < split_on(s, '/').len() ==> !has_char(#[trigger] split_on(s, '/')[i], '/'),
    decreases s.len(),
{
    if s.len() > 0 {
        lemma_split_pieces_plain(s.drop_last());
        lemma_split_on_nonempty(s.drop_last(), '/');
        let p = split_on(s.drop_last(), '/');
        if s.last() != '/' {
            let q = p.update(p.len() - 1, p.last().push(s.last()));
            assert forall|i: int| 0 <= i < q.len() implies !has_char(#[trigger] q[i], '/') by {
                if i == p.len() - 1 {
                    let w = p.last().push(s.last());
                    if has_char(w, '/') {
                        let k = choose|k: int| 0 <= k < w.len() && w[k] == '/';
                        if k < p.last().len() {
                            assert(p.last()[k] == '/');
                            assert(has_char(p[p.len() - 1], '/'));
                        }
                    }
                }
            }
        } else {
            let q = p.push(Seq::<char>::empty());
            assert forall|i: int| 0 <= i < q.len() implies !has_char(#[trigger] q[i], '/') by {
                if i < p.len() {
                    assert(q[i] == p[i]);
                }
            }
        }
    }
}

/// With no problem found, no segment has a problem.
proof fn lemma_no_problem(segs: Seq<Seq<char>>)
    requires
        first_problem(segs) is None,
    ensures
        forall|i: int| 0 <= i < segs.len() ==> segment_problem(#[trigger] segs[i]) is None,
    decreases segs.len(),
{
    if segs.len() > 0 {
        lemma_no_problem(segs.drop_last());
        assert forall|i: int| 0 <= i < segs.len() implies segment_problem(#[trigger] segs[i]) is None by {
            if i < segs.len() - 1 {
                assert(segs[i] == segs.drop_last()[i]);
            }
        }
    }
}

/// A resolved path never leaves the managed directory: its components are the
/// directory's, followed only by plain names that are neither `..` nor
/// dot-prefixed; so the write guard refuses it too.
pub proof fn law_resolved_paths_stay_inside(store: PayloadStore, rel: Seq<char>)
    ensures
        resolve_spec(store.resources_view(), rel) matches Ok(p) ==> {
            &&& path_starts_with(p, store.resources_view())
            &&& forall|i: int|
                components(store.resources_view()).len() <= i < components(p).len() ==> {
                    &&& plain_name(#[trigger] components(p)[i])
                    &&& components(p)[i][0] != '.'
                }
        },
{
    let base = store.resources_view();
    reveal_strlit("resources");
    assert(base.len() > 0);
    if let Ok(p) = resolve_spec(base, rel) {
        let u = slashes(trim(rel));
        let segs = split_on(u, '/');
        let names = named_segments(segs);
        let pred = |s: Seq<char>| s.len() > 0 && s != seq!['.'];
        lemma_split_pieces_plain(u);
        lemma_no_problem(segs);
        assert forall|i: int| 0 <= i < names.len() implies plain_name(#[trigger] names[i]) && names[i][0] != '.' by {
            segs.lemma_filter_pred(pred, i);
            segs.lemma_filter_contains_rev(pred, names[i]);
            let k = choose|k: int| 0 <= k < segs.len() && segs[k] == names[i];
            assert(!has_char(segs[k], '/'));
            assert(segment_problem(segs[k]) is None);
        }
        lemma_components_join_all(base, names);
        assert(components(p) == components(base) + names);
        assert(components(p).subrange(0, components(base).len() as int) == components(base));
        assert forall|i: int|
            components(base).len() <= i < components(p).len() implies plain_name(#[trigger] components(p)[i])
                && components(p)[i][0] != '.' by {
            assert(components(p)[i] == names[i - components(base).len()]);
        }
    }
}

} // verus!
