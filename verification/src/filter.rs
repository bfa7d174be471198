//! Toolbar rules of the archive panel: filtering, sorting and the group sections.
//! Pure functions of the rows; the panel only renders what they return.

use vstd::prelude::*;

use crate::model::{ArchiveKind, ArchiveStatus};
use crate::resource_view::{rows_view, ArchiveRow, GroupOption, RowView};
use crate::seqs::{lemma_remove_first_at, no_dups, remove_first, views};
use crate::text::{
    blank, char_order, chars_of, contains_chars, contains_seq, is_blank, occurs_at, lemma_text_order, lemma_trim_empty_iff_blank,
    lowercase,
    push_char, push_str, str_eq, text_order, to_lowercase, trim, trimmed,
};

verus! {

/// Key of the "all groups" header.
pub const GROUP_ALL: &'static str = "__all__";

/// Key of the "ungrouped" header.
pub const GROUP_UNGROUPED: &'static str = "__ungrouped__";

/// Sort field (the five of the sort menu); compares raw values, not formatted text.
#[derive(Debug, Clone, Copy, PartialEq, Eq, Structural)]
pub enum SortField {
    Name,
    ArchivedAt,
    UpdatedAt,
    Size,
    Version,
}

impl Default for SortField {
    fn default() -> (f: Self)
        ensures
            f == SortField::Name,
    {
        SortField::Name
    }
}

/// Sort direction.
#[derive(Debug, Clone, Copy, PartialEq, Eq, Structural)]
pub enum SortOrder {
    Asc,
    Desc,
}

impl Default for SortOrder {
    fn default() -> (o: Self)
        ensures
            o == SortOrder::Asc,
    {
        SortOrder::Asc
    }
}

/// Menu wording of a field.
pub open spec fn field_label(f: SortField) -> Seq<char> {
    match f {
        SortField::Name => "名称"@,
        SortField::ArchivedAt => "归档时间"@,
        SortField::UpdatedAt => "更新时间"@,
        SortField::Size => "大小"@,
        SortField::Version => "版本号"@,
    }
}

/// Stored key of a field (setting `resources.default_sort`).
pub open spec fn field_key(f: SortField) -> Seq<char> {
    match f {
        SortField::Name => "name"@,
        SortField::ArchivedAt => "archived_at"@,
        SortField::UpdatedAt => "updated_at"@,
        SortField::Size => "size"@,
        SortField::Version => "version"@,
    }
}

/// Short wording of a field (toolbar button).
pub open spec fn field_short_label(f: SortField) -> Seq<char> {
    match f {
        SortField::Name => "名称"@,
        SortField::ArchivedAt => "归档"@,
        SortField::UpdatedAt => "更新"@,
        SortField::Size => "大小"@,
        SortField::Version => "版本"@,
    }
}

/// The field whose stored key is `text`, if any.
pub open spec fn field_of_key(text: Seq<char>) -> Option<SortField> {
    if text == "name"@ {
        Some(SortField::Name)
    } else if text == "archived_at"@ {
        Some(SortField::ArchivedAt)
    } else if text == "updated_at"@ {
        Some(SortField::UpdatedAt)
    } else if text == "size"@ {
        Some(SortField::Size)
    } else if text == "version"@ {
        Some(SortField::Version)
    } else {
        None
    }
}

/// Default direction: names ascending, times, sizes and versions descending.
pub open spec fn field_default_order(f: SortField) -> SortOrder {
    match f {
        SortField::Name => SortOrder::Asc,
        _ => SortOrder::Desc,
    }
}

impl SortField {
    /// The fields in menu order.
    pub const ALL: [SortField; 5] = [
        SortField::Name,
        SortField::ArchivedAt,
        SortField::UpdatedAt,
        SortField::Size,
        SortField::Version,
    ];

    /// Menu wording.
    pub fn label(self) -> (r: &'static str)
        ensures
            r@ == field_label(self),
    {
        match self {
            SortField::Name => "名称",
            SortField::ArchivedAt => "归档时间",
            SortField::UpdatedAt => "更新时间",
            SortField::Size => "大小",
            SortField::Version => "版本号",
        }
    }

    /// Stored key.
    pub fn key(self) -> (r: &'static str)
        ensures
            r@ == field_key(self),
    {
        match self {
            SortField::Name => "name",
            SortField::ArchivedAt => "archived_at",
            SortField::UpdatedAt => "updated_at",
            SortField::Size => "size",
            SortField::Version => "version",
        }
    }

    /// Reads a stored key; an unknown key gives `None` (no guessing).
    pub fn from_key(text: &str) -> (r: Option<SortField>)
        ensures
            r == field_of_key(text@),
    {
        if str_eq(text, "name") {
            Some(SortField::Name)
        } else if str_eq(text, "archived_at") {
            Some(SortField::ArchivedAt)
        } else if str_eq(text, "updated_at") {
            Some(SortField::UpdatedAt)
        } else if str_eq(text, "size") {
            Some(SortField::Size)
        } else if str_eq(text, "version") {
            Some(SortField::Version)
        } else {
            None
        }
    }

    /// Default direction of the field.
    pub fn default_order(self) -> (o: SortOrder)
        ensures
            o == field_default_order(self),
    {
        match self {
            SortField::Name => SortOrder::Asc,
            SortField::ArchivedAt | SortField::UpdatedAt | SortField::Size | SortField::Version => {
                SortOrder::Desc
            },
        }
    }

    /// Short wording for the toolbar button.
    pub fn short_label(self) -> (r: &'static str)
        ensures
            r@ == field_short_label(self),
    {
        match self {
            SortField::Name => "名称",
            SortField::ArchivedAt => "归档",
            SortField::UpdatedAt => "更新",
            SortField::Size => "大小",
            SortField::Version => "版本",
        }
    }
}

/// Reading back the stored key of a field gives the field.
pub proof fn law_field_key_roundtrip(f: SortField)
    ensures
        field_of_key(field_key(f)) == Some(f),
{
    reveal_strlit("name");
    reveal_strlit("archived_at");
    reveal_strlit("updated_at");
    reveal_strlit("size");
    reveal_strlit("version");
    assert("name"@[0] != "archived_at"@[0]);
    assert("name"@[0] != "updated_at"@[0]);
    assert("name"@[0] != "size"@[0]);
    assert("name"@[0] != "version"@[0]);
    assert("archived_at"@[0] != "updated_at"@[0]);
    assert("archived_at"@[0] != "size"@[0]);
    assert("archived_at"@[0] != "version"@[0]);
    assert("updated_at"@[0] != "size"@[0]);
    assert("updated_at"@[0] != "version"@[0]);
    assert("size"@[0] != "version"@[0]);
}

/// The opposite direction.
pub open spec fn flip(o: SortOrder) -> SortOrder {
    match o {
        SortOrder::Asc => SortOrder::Desc,
        SortOrder::Desc => SortOrder::Asc,
    }
}

impl SortOrder {
    /// Clicking the same field again flips the direction.
    pub fn flipped(self) -> (o: SortOrder)
        ensures
            o == flip(self),
    {
        match self {
            SortOrder::Asc => SortOrder::Desc,
            SortOrder::Desc => SortOrder::Asc,
        }
    }

    /// Direction arrow.
    pub fn arrow(self) -> (r: &'static str)
        ensures
            r@ == (match self {
                SortOrder::Asc => "↑"@,
                SortOrder::Desc => "↓"@,
            }),
    {
        match self {
            SortOrder::Asc => "↑",
            SortOrder::Desc => "↓",
        }
    }
}

/// Flipping twice gives the direction back, and flipping always changes it.
pub proof fn law_flip_involutive(o: SortOrder)
    ensures
        flip(flip(o)) == o,
        flip(o) != o,
{
}

/// Toolbar filter (everything empty = no restriction).
#[derive(Debug, Clone, PartialEq, Eq)]
pub struct ResourcesFilter {
    /// Search text, matched case-insensitively against the row's search surface.
    pub query: String,
    /// Kinds to show (empty = any).
    pub kinds: Vec<ArchiveKind>,
    /// Tag ids to show, OR-ed (empty = any).
    pub tags: Vec<String>,
    /// Only rows that need attention.
    pub only_issues: bool,
}

impl Default for ResourcesFilter {
    fn default() -> (f: Self)
        ensures
            f.query@ == Seq::<char>::empty(),
            f.kinds@ == Seq::<ArchiveKind>::empty(),
            f.tags@ == Seq::<String>::empty(),
            !f.only_issues,
    {
        ResourcesFilter { query: String::new(), kinds: Vec::new(), tags: Vec::new(), only_issues: false }
    }
}

/// The filter restricts nothing.
pub open spec fn filter_is_empty(f: ResourcesFilter) -> bool {
    is_blank(f.query@) && f.kinds@.len() == 0 && f.tags@.len() == 0 && !f.only_issues
}

/// The kinds after a toggle: a present kind is removed; an absent one is added, and a
/// selection of all kinds is normalized to the empty (unrestricted) one.
pub open spec fn toggled_kinds(kinds: Seq<ArchiveKind>, kind: ArchiveKind) -> Seq<ArchiveKind> {
    if kinds.contains(kind) {
        remove_first(kinds, kind)
    } else if kinds.len() + 1 == 3 {
        Seq::empty()
    } else {
        kinds.push(kind)
    }
}

/// The tag ids after a toggle: a present id is removed, an absent one appended.
pub open spec fn toggled_tags(tags: Seq<Seq<char>>, tag: Seq<char>) -> Seq<Seq<char>> {
    if tags.contains(tag) {
        remove_first(tags, tag)
    } else {
        tags.push(tag)
    }
}

/// The number of menu conditions (the search text does not count).
pub open spec fn filter_menu_dims(f: ResourcesFilter) -> int {
    f.kinds@.len() + f.tags@.len() + if f.only_issues { 1int } else { 0int }
}

/// The index of a kind in `v`, if present.
fn kind_position(v: &Vec<ArchiveKind>, kind: ArchiveKind) -> (r: Option<usize>)
    ensures
        match r {
            Some(i) => i < v.len() && v@[i as int] == kind && forall|j: int| 0 <= j < i ==> v@[j]
                != kind,
            None => !v@.contains(kind),
        },
{
    let mut i: usize = 0;
    while i < v.len()
        invariant
            i <= v.len(),
            forall|j: int| 0 <= j < i ==> v@[j] != kind,
        decreases v.len() - i,
    {
        if v[i] == kind {
            return Some(i);
        }
        i += 1;
    }
    None
}

/// The index of a string in `v`, if present.
pub fn string_position(v: &Vec<String>, s: &str) -> (r: Option<usize>)
    ensures
        match r {
            Some(i) => i < v.len() && v@[i as int]@ == s@ && forall|j: int| 0 <= j < i ==> v@[j]@
                != s@,
            None => !views(v@).contains(s@),
        },
{
    let mut i: usize = 0;
    while i < v.len()
        invariant
            i <= v.len(),
            forall|j: int| 0 <= j < i ==> v@[j]@ != s@,
        decreases v.len() - i,
    {
        if str_eq(v[i].as_str(), s) {
            return Some(i);
        }
        i += 1;
    }
    assert(!views(v@).contains(s@)) by {
        if views(v@).contains(s@) {
            let j = choose|j: int| 0 <= j < views(v@).len() && views(v@)[j] == s@;
            assert(v@[j]@ == s@);
        }
    }
    None
}

impl ResourcesFilter {
    /// Whether nothing is restricted (decides which empty state the panel shows).
    pub fn is_empty(&self) -> (r: bool)
        ensures
            r == filter_is_empty(*self),
    {
        blank(self.query.as_str()) && self.kinds.len() == 0 && self.tags.len() == 0
            && !self.only_issues
    }

    /// Ticks or unticks a kind; all three ticked is normalized to none.
    pub fn toggle_kind(&mut self, kind: ArchiveKind)
        ensures
            final(self).kinds@ == toggled_kinds(old(self).kinds@, kind),
            final(self).query == old(self).query,
            final(self).tags@ == old(self).tags@,
            final(self).only_issues == old(self).only_issues,
    {
        match kind_position(&self.kinds, kind) {
            Some(index) => {
                proof {
                    lemma_remove_first_at(self.kinds@, kind, index as int);
                }
                self.kinds.remove(index);
            },
            None => {
                self.kinds.push(kind);
                if self.kinds.len() == 3 {
                    self.kinds.clear();
                }
            },
        }
    }

    /// Whether a kind is ticked.
    pub fn has_kind(&self, kind: ArchiveKind) -> (r: bool)
        ensures
            r == self.kinds@.contains(kind),
    {
        kind_position(&self.kinds, kind).is_some()
    }

    /// Ticks or unticks a tag id (no normalization: the tag set is open).
    pub fn toggle_tag(&mut self, tag_id: &str)
        ensures
            views(final(self).tags@) == toggled_tags(views(old(self).tags@), tag_id@),
            final(self).query == old(self).query,
            final(self).kinds@ == old(self).kinds@,
            final(self).only_issues == old(self).only_issues,
    {
        let ghost before = views(self.tags@);
        match string_position(&self.tags, tag_id) {
            Some(index) => {
                proof {
                    assert(before[index as int] == tag_id@);
                    lemma_remove_first_at(before, tag_id@, index as int);
                }
                self.tags.remove(index);
                assert(views(self.tags@) =~= before.remove(index as int));
            },
            None => {
                self.tags.push(crate::text::owned(tag_id));
                assert(views(self.tags@) =~= before.push(tag_id@));
            },
        }
    }

    /// Whether a tag id is ticked.
    pub fn has_tag(&self, tag_id: &str) -> (r: bool)
        ensures
            r == views(self.tags@).contains(tag_id@),
    {
        match string_position(&self.tags, tag_id) {
            Some(i) => {
                assert(views(self.tags@)[i as int] == tag_id@);
                true
            },
            None => false,
        }
    }

    /// Drops a tag id that no longer exists.
    pub fn drop_tag(&mut self, tag_id: &str)
        ensures
            views(final(self).tags@) == views(old(self).tags@).filter(|id: Seq<char>| id != tag_id@),
            final(self).query == old(self).query,
            final(self).kinds@ == old(self).kinds@,
            final(self).only_issues == old(self).only_issues,
    {
        let ghost pred = |id: Seq<char>| id != tag_id@;
        let ghost before = views(self.tags@);
        let mut kept: Vec<String> = Vec::new();
        let mut i: usize = 0;
        while i < self.tags.len()
            invariant
                i <= self.tags.len(),
                before == views(self.tags@),
                pred == (|id: Seq<char>| id != tag_id@),
                views(kept@) == before.take(i as int).filter(pred),
            decreases self.tags.len() - i,
        {
            assert(before.take(i + 1).drop_last() == before.take(i as int));
            assert(before.take(i + 1).last() == before[i as int]);
            assert(before[i as int] == self.tags@[i as int]@);
            assert(pred(before[i as int]) == (before[i as int] != tag_id@));
            assert(before.take(i + 1).filter(pred) == if pred(before[i as int]) {
                before.take(i as int).filter(pred).push(before[i as int])
            } else {
                before.take(i as int).filter(pred)
            }) by {
                reveal(Seq::filter);
            }
            if !str_eq(self.tags[i].as_str(), tag_id) {
                kept.push(self.tags[i].clone());
                assert(views(kept@) =~= before.take(i as int).filter(pred).push(before[i as int]));
            }
            i += 1;
        }
        assert(before.take(self.tags.len() as int) == before);
        self.tags = kept;
    }

    /// Number of menu conditions (kinds, tags, and the issue switch).
    pub fn menu_dims(&self) -> (r: usize)
        requires
            self.kinds.len() + self.tags.len() + 1 <= usize::MAX,
        ensures
            r as int == filter_menu_dims(*self),
    {
        self.kinds.len() + self.tags.len() + if self.only_issues { 1 } else { 0 }
    }
}

/// A selection of kinds is normalized: no kind twice, and never all three.
pub open spec fn kinds_normalized(kinds: Seq<ArchiveKind>) -> bool {
    no_dups(kinds) && kinds.len() < 3
}

/// Toggling keeps a selection normalized, so "all kinds" never shows as a filter.
pub proof fn law_toggle_kind_keeps_normalized(kinds: Seq<ArchiveKind>, kind: ArchiveKind)
    requires
        kinds_normalized(kinds),
    ensures
        kinds_normalized(toggled_kinds(kinds, kind)),
        toggled_kinds(kinds, kind).contains(kind) == (!kinds.contains(kind) && kinds.len() + 1 < 3),
{
    if kinds.contains(kind) {
        let i = choose|i: int| 0 <= i < kinds.len() && kinds[i] == kind;
        let mut first = i;
        assert forall|j: int| 0 <= j < i && kinds[j] == kind implies false by {}
        lemma_remove_first_at(kinds, kind, i);
        let r = kinds.remove(i);
        assert forall|a: int, b: int| 0 <= a < r.len() && 0 <= b < r.len() && a != b implies r[a]
            != r[b] by {
            let a2 = if a < i { a } else { a + 1 };
            let b2 = if b < i { b } else { b + 1 };
            assert(r[a] == kinds[a2]);
            assert(r[b] == kinds[b2]);
        }
        assert(!r.contains(kind)) by {
            if r.contains(kind) {
                let j = choose|j: int| 0 <= j < r.len() && r[j] == kind;
                let j2 = if j < i { j } else { j + 1 };
                assert(kinds[j2] == kind);
            }
        }
    } else if kinds.len() + 1 == 3 {
    } else {
        let r = kinds.push(kind);
        assert forall|a: int, b: int| 0 <= a < r.len() && 0 <= b < r.len() && a != b implies r[a]
            != r[b] by {
            if a < kinds.len() && b < kinds.len() {
            } else if a < kinds.len() {
                assert(kinds.contains(r[a]));
            } else if b < kinds.len() {
                assert(kinds.contains(r[b]));
            }
        }
        assert(r[r.len() - 1] == kind);
    }
}

/// Toggling a tag twice gives the selection back, when it was not ticked before.
pub proof fn law_toggle_tag_twice(tags: Seq<Seq<char>>, tag: Seq<char>)
    requires
        !tags.contains(tag),
    ensures
        toggled_tags(toggled_tags(tags, tag), tag) == tags,
        toggled_tags(tags, tag).contains(tag),
{
    let p = tags.push(tag);
    assert(p[tags.len() as int] == tag);
    assert forall|j: int| 0 <= j < tags.len() implies p[j] != tag by {
        assert(p[j] == tags[j]);
    }
    lemma_remove_first_at(p, tag, tags.len() as int);
    assert(p.remove(tags.len() as int) =~= tags);
}

/// Fields the search text is matched against, for people (same order as the surface).
pub const SEARCH_FIELDS: [&'static str; 5] = ["显示名", "别名", "标签", "来源表", "尾部信息"];

/// The hint shown under "no match".
pub open spec fn no_match_hint_text(query: Seq<char>) -> Seq<char> {
    if is_blank(query) {
        "去掉几个筛选条件，或清空筛选"@
    } else {
        "换个关键词，或改搜这些字段："@ + "显示名"@ + " / "@ + "别名"@ + " / "@ + "标签"@ + " / "@
            + "来源表"@ + " / "@ + "尾部信息"@
    }
}

/// Hint of the "no match" state: names the searchable fields when there is a search
/// text, and points at the filter otherwise.
pub fn no_match_hint(query: &str) -> (s: String)
    ensures
        s@ == no_match_hint_text(query@),
{
    if blank(query) {
        crate::text::owned("去掉几个筛选条件，或清空筛选")
    } else {
        let mut s = crate::text::owned("换个关键词，或改搜这些字段：");
        push_str(&mut s, "显示名");
        push_str(&mut s, " / ");
        push_str(&mut s, "别名");
        push_str(&mut s, " / ");
        push_str(&mut s, "标签");
        push_str(&mut s, " / ");
        push_str(&mut s, "来源表");
        push_str(&mut s, " / ");
        push_str(&mut s, "尾部信息");
        s
    }
}

// ---------------------------------------------------------------- search surface

/// Appends one field to a search surface: empty fields are skipped, fields are
/// lower-cased and separated by one space (so no match spans two fields by accident).
pub open spec fn push_part(h: Seq<char>, part: Seq<char>) -> Seq<char> {
    if part.len() == 0 {
        h
    } else if h.len() == 0 {
        lowercase(part)
    } else {
        h + seq![' '] + lowercase(part)
    }
}

/// The surface made of `parts`, in order.
pub open spec fn fold_parts(parts: Seq<Seq<char>>) -> Seq<char>
    decreases parts.len(),
{
    if parts.len() == 0 {
        Seq::empty()
    } else {
        push_part(fold_parts(parts.drop_last()), parts.last())
    }
}

/// An optional text, empty when absent.
pub open spec fn opt_text(o: Option<Seq<char>>) -> Seq<char> {
    match o {
        Some(s) => s,
        None => Seq::empty(),
    }
}

/// The searchable fields of a row, in the order of [`SEARCH_FIELDS`] as assembled:
/// name, alias, source table, tag names, tail.
pub open spec fn search_parts(r: RowView) -> Seq<Seq<char>> {
    seq![r.name, opt_text(r.alias), opt_text(r.source_table)] + r.tags.map_values(
        |t: (Seq<char>, Seq<char>)| t.1,
    ) + seq![r.tail]
}

/// The lower-cased search surface of a row.
pub open spec fn search_surface(r: RowView) -> Seq<char> {
    fold_parts(search_parts(r))
}

/// What occurs in a text still occurs after more is appended.
proof fn lemma_contains_in_prefix(h: Seq<char>, tail: Seq<char>, n: Seq<char>)
    requires
        contains_seq(h, n),
    ensures
        contains_seq(h + tail, n),
{
    let i = choose|i: int| occurs_at(h, n, i);
    assert((h + tail).subrange(i, i + n.len()) =~= h.subrange(i, i + n.len()));
    assert(occurs_at(h + tail, n, i));
}

/// A text ends with what was appended last.
proof fn lemma_contains_suffix(h: Seq<char>, n: Seq<char>)
    ensures
        contains_seq(h + n, n),
{
    assert((h + n).subrange(h.len() as int, (h.len() + n.len()) as int) =~= n);
    assert(occurs_at(h + n, n, h.len() as int));
}

/// Every non-empty part, lower-cased, occurs in the surface made of the parts.
proof fn lemma_fold_holds_every_part(parts: Seq<Seq<char>>, k: int)
    requires
        0 <= k < parts.len(),
        parts[k].len() > 0,
    ensures
        contains_seq(fold_parts(parts), lowercase(parts[k])),
    decreases parts.len(),
{
    let init = parts.drop_last();
    let h = fold_parts(init);
    if k == parts.len() - 1 {
        if h.len() == 0 {
            lemma_contains_suffix(Seq::empty(), lowercase(parts[k]));
            assert(Seq::<char>::empty() + lowercase(parts[k]) =~= lowercase(parts[k]));
        } else {
            lemma_contains_suffix(h + seq![' '], lowercase(parts[k]));
        }
    } else {
        assert(init[k] == parts[k]);
        lemma_fold_holds_every_part(init, k);
        let last = parts.last();
        if last.len() > 0 {
            if h.len() == 0 {
                assert(contains_seq(h, lowercase(parts[k])));
                assert(lowercase(parts[k]).len() == 0 || false) by {
                    let i = choose|i: int| occurs_at(h, lowercase(parts[k]), i);
                }
                assert(occurs_at(fold_parts(parts), lowercase(parts[k]), 0)) by {
                    assert(fold_parts(parts).subrange(0, 0) =~= lowercase(parts[k]));
                }
            } else {
                lemma_contains_in_prefix(h, seq![' '] + lowercase(last), lowercase(parts[k]));
                assert(h + seq![' '] + lowercase(last) =~= h + (seq![' '] + lowercase(last)));
            }
        }
    }
}

/// Every field of a row that is not empty is searchable: its lower-cased text
/// occurs in the search surface, the name, alias and source table, every tag name
/// and the tail.
pub proof fn law_every_field_is_searchable(r: RowView)
    ensures
        r.name.len() > 0 ==> contains_seq(search_surface(r), lowercase(r.name)),
        opt_text(r.alias).len() > 0 ==> contains_seq(search_surface(r), lowercase(opt_text(r.alias))),
        opt_text(r.source_table).len() > 0 ==> contains_seq(search_surface(r), lowercase(opt_text(r.source_table))),
        forall|k: int|
            0 <= k < r.tags.len() && (#[trigger] r.tags[k]).1.len() > 0 ==> contains_seq(
                search_surface(r),
                lowercase(r.tags[k].1),
            ),
        r.tail.len() > 0 ==> contains_seq(search_surface(r), lowercase(r.tail)),
{
    let parts = search_parts(r);
    let n: int = r.tags.len() as int;
    assert(parts.len() == n + 4);
    if r.name.len() > 0 {
        lemma_fold_holds_every_part(parts, 0);
    }
    if opt_text(r.alias).len() > 0 {
        lemma_fold_holds_every_part(parts, 1);
    }
    if opt_text(r.source_table).len() > 0 {
        lemma_fold_holds_every_part(parts, 2);
    }
    assert forall|k: int| 0 <= k < r.tags.len() && (#[trigger] r.tags[k]).1.len() > 0 implies contains_seq(
        search_surface(r),
        lowercase(r.tags[k].1),
    ) by {
        assert(parts[3 + k] == r.tags[k].1);
        lemma_fold_holds_every_part(parts, 3 + k);
    }
    if r.tail.len() > 0 {
        assert(parts[n + 3] == r.tail);
        lemma_fold_holds_every_part(parts, n + 3);
    }
}

/// Appends a field to the surface being built.
fn push_part_exec(h: &mut String, part: &str)
    ensures
        final(h)@ == push_part(old(h)@, part@),
{
    if part.is_empty() {
        return;
    }
    let lower = to_lowercase(part);
    if h.as_str().is_empty() {
        *h = lower;
    } else {
        push_char(h, ' ');
        push_str(h, lower.as_str());
    }
}

/// The search surface of a row: display name, alias, source table, tag names and
/// tail, lower-cased and joined by spaces.
pub fn search_haystack(row: &ArchiveRow) -> (h: String)
    ensures
        h@ == search_surface(row@),
        row@.name.len() > 0 ==> contains_seq(h@, lowercase(row@.name)),
        opt_text(row@.alias).len() > 0 ==> contains_seq(h@, lowercase(opt_text(row@.alias))),
        opt_text(row@.source_table).len() > 0 ==> contains_seq(h@, lowercase(opt_text(row@.source_table))),
        forall|k: int|
            0 <= k < row@.tags.len() && (#[trigger] row@.tags[k]).1.len() > 0 ==> contains_seq(
                h@,
                lowercase(row@.tags[k].1),
            ),
        row@.tail.len() > 0 ==> contains_seq(h@, lowercase(row@.tail)),
{
    proof {
        law_every_field_is_searchable(row@);
    }
    let ghost parts = search_parts(row@);
    let ghost tag_names = row@.tags.map_values(|t: (Seq<char>, Seq<char>)| t.1);
    let mut h = String::new();
    proof {
        reveal_strlit("");
    }
    assert(fold_parts(Seq::<Seq<char>>::empty()) == Seq::<char>::empty());
    push_part_exec(&mut h, row.name.as_str());
    assert(seq![row@.name].drop_last() =~= Seq::<Seq<char>>::empty());
    assert(h@ == fold_parts(seq![row@.name]));
    let alias: &str = match &row.alias {
        Some(a) => a.as_str(),
        None => "",
    };
    assert(alias@ == opt_text(row@.alias));
    push_part_exec(&mut h, alias);
    assert(seq![row@.name, opt_text(row@.alias)].drop_last() =~= seq![row@.name]);
    assert(h@ == fold_parts(seq![row@.name, opt_text(row@.alias)]));
    let table: &str = match &row.source_table {
        Some(t) => t.as_str(),
        None => "",
    };
    assert(table@ == opt_text(row@.source_table));
    push_part_exec(&mut h, table);
    let ghost head = seq![row@.name, opt_text(row@.alias), opt_text(row@.source_table)];
    assert(head.drop_last() =~= seq![row@.name, opt_text(row@.alias)]);
    assert(h@ == fold_parts(head));
    assert(head + tag_names.take(0) =~= head);
    let mut i: usize = 0;
    while i < row.tags.len()
        invariant
            i <= row.tags.len(),
            tag_names == row@.tags.map_values(|t: (Seq<char>, Seq<char>)| t.1),
            h@ == fold_parts(head + tag_names.take(i as int)),
        decreases row.tags.len() - i,
    {
        push_part_exec(&mut h, row.tags[i].name.as_str());
        proof {
            let p1 = head + tag_names.take(i + 1);
            assert(p1.drop_last() =~= head + tag_names.take(i as int));
            assert(p1.last() == row.tags@[i as int].name@);
        }
        i += 1;
    }
    push_part_exec(&mut h, row.tail.as_str());
    proof {
        assert(tag_names.take(row.tags.len() as int) =~= tag_names);
        let p = head + tag_names + seq![row@.tail];
        assert(p =~= parts);
        assert(p.drop_last() =~= head + tag_names);
    }
    h
}

/// Whether a row needs attention (missing or changed payload).
pub fn needs_attention(row: &ArchiveRow) -> (r: bool)
    ensures
        r == (row.status != ArchiveStatus::Normal),
{
    row.status != ArchiveStatus::Normal
}

/// Whether a row passes the filter: the lower-cased, trimmed search text occurs in
/// its search surface; its kind is among the ticked kinds; one of its tags is among
/// the ticked tags; and it needs attention when only issues are shown. An empty
/// condition passes everything.
pub open spec fn row_matches(f: ResourcesFilter, r: RowView) -> bool {
    &&& (is_blank(f.query@) || contains_seq(search_surface(r), lowercase(trim(f.query@))))
    &&& (f.kinds@.len() == 0 || f.kinds@.contains(r.kind))
    &&& (f.tags@.len() == 0 || exists|i: int|
        0 <= i < r.tags.len() && views(f.tags@).contains(#[trigger] r.tags[i].0))
    &&& !(f.only_issues && r.status == ArchiveStatus::Normal)
}

impl ResourcesFilter {
    /// Whether a single row passes the filter.
    pub fn matches(&self, row: &ArchiveRow) -> (r: bool)
        ensures
            r == row_matches(*self, row@),
            lowercase(trim(self.query@)).len() == 0 <==> is_blank(self.query@),
    {
        let q = to_lowercase(trimmed(self.query.as_str()).as_str());
        proof {
            lemma_trim_empty_iff_blank(self.query@);
        }
        if !q.as_str().is_empty() {
            let hay = chars_of(search_haystack(row).as_str());
            let needle = chars_of(q.as_str());
            if !contains_chars(&hay, &needle) {
                return false;
            }
        }
        if self.kinds.len() != 0 && !self.has_kind(row.kind) {
            return false;
        }
        if self.tags.len() != 0 {
            let mut hit = false;
            let mut i: usize = 0;
            while i < row.tags.len()
                invariant
                    i <= row.tags.len(),
                    hit == exists|k: int|
                        0 <= k < i && views(self.tags@).contains(#[trigger] row@.tags[k].0),
                decreases row.tags.len() - i,
            {
                if self.has_tag(row.tags[i].id.as_str()) {
                    hit = true;
                }
                assert(row@.tags[i as int].0 == row.tags@[i as int].id@);
                i += 1;
            }
            if !hit {
                return false;
            }
        }
        if self.only_issues && row.status == ArchiveStatus::Normal {
            return false;
        }
        true
    }
}

/// An empty filter passes every row.
pub proof fn law_empty_filter_matches_all(f: ResourcesFilter, r: RowView)
    requires
        filter_is_empty(f),
    ensures
        row_matches(f, r),
{
}

// ---------------------------------------------------------------- sorting

/// The sign of an integer.
pub open spec fn sign(x: int) -> int {
    if x < 0 {
        -1
    } else if x == 0 {
        0
    } else {
        1
    }
}

/// Comparison of two optional raw values before the direction is applied: present
/// values by their number; a missing value after every present one in the
/// direction shown (above all of them ascending, below all of them descending),
/// so that it comes last either way.
pub open spec fn opt_order(a: Option<i64>, b: Option<i64>, order: SortOrder) -> int {
    match (a, b) {
        (Some(x), Some(y)) => sign(x - y),
        (None, None) => 0,
        (None, Some(_)) => match order {
            SortOrder::Asc => 1,
            SortOrder::Desc => -1,
        },
        (Some(_), None) => match order {
            SortOrder::Asc => -1,
            SortOrder::Desc => 1,
        },
    }
}

/// Comparison on the chosen field alone.
pub open spec fn field_order(a: RowView, b: RowView, field: SortField, order: SortOrder) -> int {
    match field {
        SortField::Name => text_order(lowercase(a.name), lowercase(b.name)),
        SortField::Version => sign(a.version - b.version),
        SortField::UpdatedAt => sign(a.updated_epoch - b.updated_epoch),
        SortField::ArchivedAt => opt_order(a.archived_epoch, b.archived_epoch, order),
        SortField::Size => opt_order(a.size_bytes, b.size_bytes, order),
    }
}

/// The comparison of the view: the field in the chosen direction, then the
/// lower-cased name ascending (the fallback does not flip with the direction).
pub open spec fn row_order(a: RowView, b: RowView, field: SortField, order: SortOrder) -> int {
    let p = match order {
        SortOrder::Asc => field_order(a, b, field, order),
        SortOrder::Desc => -field_order(a, b, field, order),
    };
    if p != 0 {
        p
    } else {
        text_order(lowercase(a.name), lowercase(b.name))
    }
}

/// `i` goes before `j` in the stable order of `rows`.
pub open spec fn goes_before(rows: Seq<RowView>, i: int, j: int, field: SortField, order: SortOrder) -> bool {
    row_order(rows[i], rows[j], field, order) < 0 || (row_order(rows[i], rows[j], field, order) == 0 && i < j)
}

/// `p` is an arrangement of the indices `0..n`, each once.
pub open spec fn is_permutation(p: Seq<int>, n: int) -> bool {
    &&& p.len() == n
    &&& forall|k: int| 0 <= k < n ==> 0 <= #[trigger] p[k] < n
    &&& forall|k: int, l: int| 0 <= k < n && 0 <= l < n && k != l ==> p[k] != p[l]
}

/// `result` is `rows` sorted by the comparison, stably (rows that compare equal keep
/// their order).
pub open spec fn stably_sorted(result: Seq<RowView>, rows: Seq<RowView>, field: SortField, order: SortOrder) -> bool {
    exists|p: Seq<int>|
        #![trigger is_permutation(p, rows.len() as int)]
        is_permutation(p, rows.len() as int) && result.len() == rows.len() && (forall|k: int|
            0 <= k < rows.len() ==> result[k] == rows[#[trigger] p[k]]) && (forall|k: int, l: int|
            0 <= k < l < rows.len() ==> goes_before(rows, #[trigger] p[k], #[trigger] p[l], field, order))
}

/// The rows that pass the filter, in input order.
pub open spec fn filtered_rows(rows: Seq<RowView>, f: ResourcesFilter) -> Seq<RowView> {
    rows.filter(|r: RowView| row_matches(f, r))
}

/// The comparison on the chosen field is antisymmetric and transitive.
proof fn lemma_primary(a: RowView, b: RowView, c: RowView, field: SortField, order: SortOrder)
    ensures
        field_order(a, b, field, order) == -field_order(b, a, field, order),
        field_order(a, b, field, order) <= 0 && field_order(b, c, field, order) <= 0
            ==> field_order(a, c, field, order) <= 0,
        field_order(a, b, field, order) < 0 && field_order(b, c, field, order) <= 0
            ==> field_order(a, c, field, order) < 0,
        field_order(a, b, field, order) <= 0 && field_order(b, c, field, order) < 0
            ==> field_order(a, c, field, order) < 0,
        field_order(a, b, field, order) >= 0 && field_order(b, c, field, order) >= 0
            ==> field_order(a, c, field, order) >= 0,
        field_order(a, b, field, order) == 0 && field_order(b, c, field, order) == 0
            ==> field_order(a, c, field, order) == 0,
{
    let (x, y, z) = (lowercase(a.name), lowercase(b.name), lowercase(c.name));
    lemma_text_order(x, y, z);
    lemma_text_order(z, y, x);
    lemma_text_order(x, z, y);
    lemma_text_order(y, z, x);
}

/// The comparison of the view is antisymmetric and transitive.
pub proof fn lemma_row_order(a: RowView, b: RowView, c: RowView, field: SortField, order: SortOrder)
    ensures
        row_order(a, b, field, order) == -row_order(b, a, field, order),
        row_order(a, b, field, order) <= 0 && row_order(b, c, field, order) <= 0
            ==> row_order(a, c, field, order) <= 0,
        row_order(a, b, field, order) < 0 && row_order(b, c, field, order) <= 0
            ==> row_order(a, c, field, order) < 0,
        row_order(a, b, field, order) <= 0 && row_order(b, c, field, order) < 0
            ==> row_order(a, c, field, order) < 0,
{
    lemma_primary(a, b, c, field, order);
    lemma_primary(c, b, a, field, order);
    lemma_text_order(lowercase(a.name), lowercase(b.name), lowercase(c.name));
    lemma_text_order(lowercase(c.name), lowercase(b.name), lowercase(a.name));
}

/// Comparison of two optional raw values (missing values last in both directions).
fn opt_compare(a: Option<i64>, b: Option<i64>, order: SortOrder) -> (r: i8)
    ensures
        r as int == opt_order(a, b, order),
{
    match (a, b) {
        (Some(x), Some(y)) => sign_of(x, y),
        (None, None) => 0,
        (None, Some(_)) => match order {
            SortOrder::Asc => 1,
            SortOrder::Desc => -1,
        },
        (Some(_), None) => match order {
            SortOrder::Asc => -1,
            SortOrder::Desc => 1,
        },
    }
}

/// Three-way comparison of two integers.
fn sign_of(a: i64, b: i64) -> (r: i8)
    ensures
        r as int == sign(a - b),
{
    if a < b {
        -1
    } else if a == b {
        0
    } else {
        1
    }
}

/// The comparison of two rows, with their lower-cased names given.
fn compare_rows(
    a: &ArchiveRow,
    b: &ArchiveRow,
    la: &Vec<char>,
    lb: &Vec<char>,
    field: SortField,
    order: SortOrder,
) -> (r: i8)
    requires
        la@ == lowercase(a.name@),
        lb@ == lowercase(b.name@),
    ensures
        r as int == row_order(a@, b@, field, order),
{
    let names = char_order(la, lb);
    let name_sign: i8 = if names < 0 { -1 } else if names == 0 { 0 } else { 1 };
    proof {
        lemma_text_order(la@, lb@, lb@);
    }
    let primary: i8 = match field {
        SortField::Name => name_sign,
        SortField::Version => sign_of(a.version as i64, b.version as i64),
        SortField::UpdatedAt => sign_of(a.updated_epoch, b.updated_epoch),
        SortField::ArchivedAt => opt_compare(a.archived_epoch, b.archived_epoch, order),
        SortField::Size => opt_compare(a.size_bytes, b.size_bytes, order),
    };
    let directed: i8 = match order {
        SortOrder::Asc => primary,
        SortOrder::Desc => -primary,
    };
    if directed != 0 {
        directed
    } else {
        name_sign
    }
}

/// The rows that pass the filter, copied in input order.
fn filter_rows(rows: &Vec<ArchiveRow>, filter: &ResourcesFilter) -> (out: Vec<ArchiveRow>)
    ensures
        rows_view(out@) == filtered_rows(rows_view(rows@), *filter),
{
    let ghost all = rows_view(rows@);
    let ghost pred = |r: RowView| row_matches(*filter, r);
    let mut out: Vec<ArchiveRow> = Vec::new();
    let mut i: usize = 0;
    while i < rows.len()
        invariant
            i <= rows.len(),
            all == rows_view(rows@),
            pred == (|r: RowView| row_matches(*filter, r)),
            rows_view(out@) == all.take(i as int).filter(pred),
        decreases rows.len() - i,
    {
        assert(all.take(i + 1).drop_last() == all.take(i as int));
        assert(all.take(i + 1).last() == rows@[i as int]@);
        assert(all.take(i + 1).filter(pred) == if pred(all[i as int]) {
            all.take(i as int).filter(pred).push(all[i as int])
        } else {
            all.take(i as int).filter(pred)
        }) by {
            reveal(Seq::filter);
        }
        if filter.matches(&rows[i]) {
            let copy = rows[i].duplicate();
            out.push(copy);
            assert(rows_view(out@) =~= all.take(i as int).filter(pred).push(all[i as int]));
        }
        i += 1;
    }
    assert(all.take(rows.len() as int) == all);
    out
}

/// The row has no value for the field it is sorted by (size or archive time).
pub open spec fn missing_key(r: RowView, field: SortField) -> bool {
    match field {
        SortField::Size => r.size_bytes is None,
        SortField::ArchivedAt => r.archived_epoch is None,
        _ => false,
    }
}

/// Sorted by size or by archive time, in either direction, the view puts every row
/// whose value is missing after every row whose value is known.
pub proof fn law_missing_values_sort_last(
    result: Seq<RowView>,
    rows: Seq<RowView>,
    f: ResourcesFilter,
    field: SortField,
    order: SortOrder,
)
    requires
        stably_sorted(result, filtered_rows(rows, f), field, order),
    ensures
        forall|k: int, l: int|
            0 <= k < l < result.len() && #[trigger] missing_key(result[k], field) ==> #[trigger] missing_key(result[l], field),
{
    let src = filtered_rows(rows, f);
    let p = choose|p: Seq<int>|
        #![trigger is_permutation(p, src.len() as int)]
        is_permutation(p, src.len() as int) && result.len() == src.len() && (forall|k: int|
            0 <= k < src.len() ==> result[k] == src[#[trigger] p[k]]) && (forall|k: int, l: int|
            0 <= k < l < src.len() ==> goes_before(src, #[trigger] p[k], #[trigger] p[l], field, order));
    assert forall|k: int, l: int|
        0 <= k < l < result.len() && #[trigger] missing_key(result[k], field) implies #[trigger] missing_key(result[l], field) by {
        assert(goes_before(src, p[k], p[l], field, order));
        assert(result[k] == src[p[k]]);
        assert(result[l] == src[p[l]]);
    }
}

/// Filter, then sort (a new list; the input is not touched).
///
/// The sort is stable and falls back to the lower-cased name, ascending in both
/// directions, so equal keys always come out in the same order.
pub fn apply_view(rows: &[ArchiveRow], filter: &ResourcesFilter, field: SortField, order: SortOrder) -> (result: Vec<ArchiveRow>)
    ensures
        stably_sorted(rows_view(result@), filtered_rows(rows_view(rows@), *filter), field, order),
{
    let mut input: Vec<ArchiveRow> = Vec::new();
    let mut c: usize = 0;
    while c < rows.len()
        invariant
            c <= rows.len(),
            rows_view(input@) == rows_view(rows@).take(c as int),
        decreases rows.len() - c,
    {
        let ghost before = rows_view(input@);
        let copy = rows[c].duplicate();
        input.push(copy);
        assert(rows_view(input@) =~= before.push(rows@[c as int]@));
        assert(rows_view(rows@).take(c + 1) =~= rows_view(rows@).take(c as int).push(rows@[c as int]@));
        c += 1;
    }
    assert(rows_view(rows@).take(rows.len() as int) == rows_view(rows@));
    let kept = filter_rows(&input, filter);
    let ghost fv = rows_view(kept@);
    let n = kept.len();
    let mut lowered: Vec<Vec<char>> = Vec::new();
    let mut i: usize = 0;
    while i < n
        invariant
            i <= n == kept.len(),
            lowered.len() == i,
            forall|k: int| 0 <= k < i ==> (#[trigger] lowered@[k])@ == lowercase(kept@[k].name@),
        decreases n - i,
    {
        lowered.push(chars_of(to_lowercase(kept[i].name.as_str()).as_str()));
        i += 1;
    }
    let mut idx: Vec<usize> = Vec::new();
    let mut k: usize = 0;
    while k < n
        invariant
            k <= n == kept.len() == lowered.len(),
            fv == rows_view(kept@),
            forall|m: int| 0 <= m < n ==> (#[trigger] lowered@[m])@ == lowercase(kept@[m].name@),
            idx.len() == k,
            forall|a: int| 0 <= a < k ==> #[trigger] idx@[a] < k,
            forall|a: int, b: int| 0 <= a < k && 0 <= b < k && a != b ==> idx@[a] != idx@[b],
            forall|a: int, b: int|
                0 <= a < b < k ==> goes_before(fv, #[trigger] idx@[a] as int, #[trigger] idx@[b] as int, field, order),
        decreases n - k,
    {
        let mut p: usize = 0;
        while p < idx.len() && compare_rows(&kept[k], &kept[idx[p]], &lowered[k], &lowered[idx[p]], field, order) >= 0
            invariant
                p <= idx.len() == k < n == kept.len() == lowered.len(),
                fv == rows_view(kept@),
                forall|m: int| 0 <= m < n ==> (#[trigger] lowered@[m])@ == lowercase(kept@[m].name@),
                forall|a: int| 0 <= a < k ==> #[trigger] idx@[a] < k,
                forall|a: int| 0 <= a < p ==> row_order(fv[k as int], fv[#[trigger] idx@[a] as int], field, order) >= 0,
            decreases idx.len() - p,
        {
            p += 1;
        }
        let ghost old_idx = idx@;
        proof {
            assert forall|a: int| 0 <= a < p implies goes_before(fv, #[trigger] old_idx[a] as int, k as int, field, order) by {
                lemma_row_order(fv[k as int], fv[old_idx[a] as int], fv[k as int], field, order);
            }
            if p < k {
                assert forall|b: int| p <= b < k implies goes_before(fv, k as int, #[trigger] old_idx[b] as int, field, order) by {
                    lemma_row_order(fv[k as int], fv[old_idx[p as int] as int], fv[old_idx[b] as int], field, order);
                    if b > p {
                        assert(goes_before(fv, old_idx[p as int] as int, old_idx[b] as int, field, order));
                    }
                }
            }
        }
        idx.insert(p, k);
        proof {
            let ni = idx@;
            assert(ni == old_idx.insert(p as int, k));
            assert forall|a: int| 0 <= a < k + 1 implies #[trigger] ni[a] < k + 1 by {
                if a < p { assert(ni[a] == old_idx[a]); }
                else if a > p { assert(ni[a] == old_idx[a - 1]); }
            }
            assert forall|a: int, b: int| 0 <= a < k + 1 && 0 <= b < k + 1 && a != b implies ni[a] != ni[b] by {
                let a2 = if a < p { a } else { a - 1 };
                let b2 = if b < p { b } else { b - 1 };
                if a != p as int && b != p as int {
                    assert(ni[a] == old_idx[a2]);
                    assert(ni[b] == old_idx[b2]);
                } else if a == p as int {
                    assert(ni[b] == old_idx[b2]);
                } else {
                    assert(ni[a] == old_idx[a2]);
                }
            }
            assert forall|a: int, b: int| 0 <= a < b < k + 1 implies goes_before(fv, #[trigger] ni[a] as int, #[trigger] ni[b] as int, field, order) by {
                if b < p {
                    assert(ni[a] == old_idx[a] && ni[b] == old_idx[b]);
                } else if b == p as int {
                    assert(ni[a] == old_idx[a]);
                } else if a < p {
                    assert(ni[a] == old_idx[a] && ni[b] == old_idx[b - 1]);
                } else if a == p as int {
                    assert(ni[b] == old_idx[b - 1]);
                } else {
                    assert(ni[a] == old_idx[a - 1] && ni[b] == old_idx[b - 1]);
                }
            }
        }
        k += 1;
    }
    let mut result: Vec<ArchiveRow> = Vec::new();
    let mut m: usize = 0;
    while m < n
        invariant
            m <= n == kept.len() == idx.len(),
            fv == rows_view(kept@),
            forall|a: int| 0 <= a < n ==> #[trigger] idx@[a] < n,
            result.len() == m,
            forall|a: int| 0 <= a < m ==> (#[trigger] result@[a])@ == fv[idx@[a] as int],
        decreases n - m,
    {
        result.push(kept[idx[m]].duplicate());
        m += 1;
    }
    proof {
        let p = idx@.map_values(|x: usize| x as int);
        let rv = rows_view(result@);
        assert(fv.len() == n);
        assert(is_permutation(p, fv.len() as int));
        assert forall|a: int| 0 <= a < n implies rv[a] == fv[#[trigger] p[a]] by {}
        assert forall|a: int, b: int| 0 <= a < b < n implies goes_before(fv, #[trigger] p[a], #[trigger] p[b], field, order) by {
            assert(goes_before(fv, idx@[a] as int, idx@[b] as int, field, order));
        }
        assert(stably_sorted(rv, fv, field, order));
    }
    result
}

// ---------------------------------------------------------------- group sections

/// One item of the list: a group header or an archive row.
#[derive(Debug, Clone, PartialEq, Eq)]
pub enum VisibleItem {
    GroupHeader {
        /// [`GROUP_ALL`], [`GROUP_UNGROUPED`] or a group id.
        key: String,
        label: String,
        count: usize,
        /// 0 for "all groups", 1 for the others (indentation only).
        depth: u8,
        collapsed: bool,
    },
    Row(ArchiveRow),
}

/// The mathematical content of a list item.
pub enum ItemView {
    Header { key: Seq<char>, label: Seq<char>, count: nat, depth: u8, collapsed: bool },
    Row(RowView),
}

impl View for VisibleItem {
    type V = ItemView;

    open spec fn view(&self) -> ItemView {
        match self {
            VisibleItem::GroupHeader { key, label, count, depth, collapsed } => ItemView::Header {
                key: key@,
                label: label@,
                count: *count as nat,
                depth: *depth,
                collapsed: *collapsed,
            },
            VisibleItem::Row(r) => ItemView::Row(r@),
        }
    }
}

/// The views of a list of items.
pub open spec fn items_view(s: Seq<VisibleItem>) -> Seq<ItemView> {
    s.map_values(|i: VisibleItem| i@)
}

/// The group a row belongs to, counting only groups that still exist.
pub open spec fn known_folder(r: RowView, ids: Seq<Seq<char>>) -> Option<Seq<char>> {
    match r.folder_id {
        Some(f) => if ids.contains(f) {
            Some(f)
        } else {
            None
        },
        None => None,
    }
}

/// The rows of one section, in input order.
pub open spec fn rows_in(rows: Seq<RowView>, ids: Seq<Seq<char>>, folder: Option<Seq<char>>) -> Seq<RowView> {
    rows.filter(|r: RowView| known_folder(r, ids) == folder)
}

/// Rows as list items.
pub open spec fn row_items(rows: Seq<RowView>) -> Seq<ItemView> {
    rows.map_values(|r: RowView| ItemView::Row(r))
}

/// A section: its header, then its rows unless it is collapsed.
pub open spec fn section(key: Seq<char>, label: Seq<char>, rows: Seq<RowView>, collapsed: bool) -> Seq<ItemView> {
    seq![ItemView::Header { key, label, count: rows.len(), depth: 1, collapsed }] + if collapsed {
        Seq::empty()
    } else {
        row_items(rows)
    }
}

/// The ids of the groups.
pub open spec fn group_ids(groups: Seq<GroupOption>) -> Seq<Seq<char>> {
    groups.map_values(|g: GroupOption| g.id@)
}

/// The sections of the groups, in dictionary order.
pub open spec fn group_sections(
    rows: Seq<RowView>,
    ids: Seq<Seq<char>>,
    groups: Seq<GroupOption>,
    collapsed: Seq<Seq<char>>,
) -> Seq<ItemView>
    decreases groups.len(),
{
    if groups.len() == 0 {
        Seq::empty()
    } else {
        let g = groups.last();
        group_sections(rows, ids, groups.drop_last(), collapsed) + section(
            g.id@,
            g.name@,
            rows_in(rows, ids, Some(g.id@)),
            collapsed.contains(g.id@),
        )
    }
}

/// The list: without groups, the rows alone; with groups, "all groups" (alone when
/// collapsed), then "ungrouped", then each group. Counts are of the rows given;
/// a row whose group no longer exists counts as ungrouped.
pub open spec fn visible_items(rows: Seq<RowView>, groups: Seq<GroupOption>, collapsed: Seq<Seq<char>>) -> Seq<ItemView> {
    if groups.len() == 0 {
        row_items(rows)
    } else {
        let ids = group_ids(groups);
        let all_collapsed = collapsed.contains(GROUP_ALL@);
        let all = ItemView::Header {
            key: GROUP_ALL@,
            label: "全部分组"@,
            count: rows.len(),
            depth: 0,
            collapsed: all_collapsed,
        };
        if all_collapsed {
            seq![all]
        } else {
            seq![all] + section(
                GROUP_UNGROUPED@,
                "未分组"@,
                rows_in(rows, ids, None),
                collapsed.contains(GROUP_UNGROUPED@),
            ) + group_sections(rows, ids, groups, collapsed)
        }
    }
}

/// The number of rows counted under the group headers, over all groups.
pub open spec fn grouped_total(rows: Seq<RowView>, ids: Seq<Seq<char>>, groups: Seq<GroupOption>) -> nat
    decreases groups.len(),
{
    if groups.len() == 0 {
        0
    } else {
        grouped_total(rows, ids, groups.drop_last()) + rows_in(rows, ids, Some(groups.last().id@)).len()
    }
}

/// The number of groups whose id is `folder`.
spec fn groups_named(groups: Seq<GroupOption>, folder: Option<Seq<char>>) -> nat
    decreases groups.len(),
{
    if groups.len() == 0 {
        0
    } else {
        groups_named(groups.drop_last(), folder) + if folder == Some(groups.last().id@) {
            1nat
        } else {
            0nat
        }
    }
}

/// A section gains the new row exactly when the row belongs to it.
proof fn lemma_rows_in_push(rows: Seq<RowView>, r: RowView, ids: Seq<Seq<char>>, folder: Option<Seq<char>>)
    ensures
        rows_in(rows.push(r), ids, folder) == if known_folder(r, ids) == folder {
            rows_in(rows, ids, folder).push(r)
        } else {
            rows_in(rows, ids, folder)
        },
{
    reveal(Seq::filter);
    assert(rows.push(r).drop_last() == rows);
}

/// One more row adds one to each group section it belongs to.
proof fn lemma_grouped_total_push(rows: Seq<RowView>, r: RowView, ids: Seq<Seq<char>>, groups: Seq<GroupOption>)
    ensures
        grouped_total(rows.push(r), ids, groups) == grouped_total(rows, ids, groups) + groups_named(
            groups,
            known_folder(r, ids),
        ),
    decreases groups.len(),
{
    if groups.len() > 0 {
        lemma_grouped_total_push(rows, r, ids, groups.drop_last());
        lemma_rows_in_push(rows, r, ids, Some(groups.last().id@));
    }
}

/// With distinct ids, a known group is named once and no group is named by `None`.
proof fn lemma_groups_named_once(groups: Seq<GroupOption>, folder: Option<Seq<char>>)
    requires
        group_ids(groups).no_duplicates(),
    ensures
        groups_named(groups, folder) == match folder {
            Some(f) => if group_ids(groups).contains(f) {
                1nat
            } else {
                0nat
            },
            None => 0nat,
        },
    decreases groups.len(),
{
    if groups.len() > 0 {
        let ids = group_ids(groups);
        let init = groups.drop_last();
        assert(group_ids(init) == ids.drop_last());
        assert(group_ids(init).no_duplicates());
        lemma_groups_named_once(init, folder);
        assert(ids.last() == groups.last().id@);
        match folder {
            Some(f) => {
                if f == groups.last().id@ {
                    assert(!group_ids(init).contains(f)) by {
                        if group_ids(init).contains(f) {
                            let k = choose|k: int| 0 <= k < group_ids(init).len() && group_ids(init)[k] == f;
                            assert(ids[k] == ids[ids.len() - 1]);
                        }
                    }
                    assert(ids.contains(f));
                } else {
                    assert(ids.contains(f) == group_ids(init).contains(f)) by {
                        if ids.contains(f) {
                            let k = choose|k: int| 0 <= k < ids.len() && ids[k] == f;
                            assert(k < ids.len() - 1);
                            assert(group_ids(init)[k] == f);
                        }
                        if group_ids(init).contains(f) {
                            let k = choose|k: int| 0 <= k < group_ids(init).len() && group_ids(init)[k] == f;
                            assert(ids[k] == f);
                        }
                    }
                }
            },
            None => {},
        }
    }
}

/// With groups of distinct ids, the rows under "ungrouped" and the rows under the
/// groups are all the rows, each counted once: the section counts add up to the
/// count of "all groups".
pub proof fn law_sections_partition_rows(rows: Seq<RowView>, groups: Seq<GroupOption>)
    requires
        group_ids(groups).no_duplicates(),
    ensures
        rows_in(rows, group_ids(groups), None).len() + grouped_total(rows, group_ids(groups), groups) == rows.len(),
    decreases rows.len(),
{
    let ids = group_ids(groups);
    if rows.len() == 0 {
        reveal(Seq::filter);
        assert(rows == Seq::<RowView>::empty());
        lemma_grouped_total_empty(ids, groups);
    } else {
        let init = rows.drop_last();
        let r = rows.last();
        assert(init.push(r) == rows);
        law_sections_partition_rows(init, groups);
        lemma_rows_in_push(init, r, ids, None);
        lemma_grouped_total_push(init, r, ids, groups);
        lemma_groups_named_once(groups, known_folder(r, ids));
        assert(rows_in(rows, ids, None).len() + grouped_total(rows, ids, groups) == rows_in(init, ids, None).len()
            + grouped_total(init, ids, groups) + 1);
    }
}

/// Without rows, no group counts any.
proof fn lemma_grouped_total_empty(ids: Seq<Seq<char>>, groups: Seq<GroupOption>)
    ensures
        grouped_total(Seq::empty(), ids, groups) == 0,
    decreases groups.len(),
{
    reveal(Seq::filter);
    if groups.len() > 0 {
        lemma_grouped_total_empty(ids, groups.drop_last());
    }
}

/// The header a section shows: its key, label, the number of rows filed in it
/// (whether or not it is collapsed), and whether it is collapsed.
pub open spec fn section_header(
    rows: Seq<RowView>,
    ids: Seq<Seq<char>>,
    key: Seq<char>,
    label: Seq<char>,
    folder: Option<Seq<char>>,
    collapsed: Seq<Seq<char>>,
) -> ItemView {
    ItemView::Header {
        key,
        label,
        count: rows.filter(|r: RowView| known_folder(r, ids) == folder).len(),
        depth: 1,
        collapsed: collapsed.contains(key),
    }
}

/// Every group has its header among the group sections, counting its rows.
proof fn lemma_group_headers_listed(
    rows: Seq<RowView>,
    ids: Seq<Seq<char>>,
    groups: Seq<GroupOption>,
    collapsed: Seq<Seq<char>>,
    j: int,
)
    requires
        0 <= j < groups.len(),
    ensures
        group_sections(rows, ids, groups, collapsed).contains(
            section_header(rows, ids, groups[j].id@, groups[j].name@, Some(groups[j].id@), collapsed),
        ),
    decreases groups.len(),
{
    let init = groups.drop_last();
    let prev = group_sections(rows, ids, init, collapsed);
    let g = groups.last();
    let sec = section(g.id@, g.name@, rows_in(rows, ids, Some(g.id@)), collapsed.contains(g.id@));
    assert(group_sections(rows, ids, groups, collapsed) == prev + sec);
    if j == groups.len() - 1 {
        assert((prev + sec)[prev.len() as int] == sec[0]);
        assert(sec[0] == section_header(rows, ids, g.id@, g.name@, Some(g.id@), collapsed));
    } else {
        assert(init[j] == groups[j]);
        lemma_group_headers_listed(rows, ids, init, collapsed, j);
        let h = section_header(rows, ids, groups[j].id@, groups[j].name@, Some(groups[j].id@), collapsed);
        let k = choose|k: int| 0 <= k < prev.len() && prev[k] == h;
        assert((prev + sec)[k] == h);
    }
}

/// With groups shown, the list opens with "all groups" counting every row, then
/// "ungrouped" counting the rows of no existing group, and holds each group's
/// header counting the rows filed in that group; the counts do not depend on
/// collapsing (a collapsed section hides its rows, not its count).
pub proof fn law_headers_count_their_rows(rows: Seq<RowView>, groups: Seq<GroupOption>, collapsed: Seq<Seq<char>>)
    requires
        groups.len() > 0,
    ensures
        visible_items(rows, groups, collapsed)[0] == (ItemView::Header {
            key: GROUP_ALL@,
            label: "全部分组"@,
            count: rows.len(),
            depth: 0,
            collapsed: collapsed.contains(GROUP_ALL@),
        }),
        !collapsed.contains(GROUP_ALL@) ==> visible_items(rows, groups, collapsed)[1] == section_header(
            rows,
            group_ids(groups),
            GROUP_UNGROUPED@,
            "未分组"@,
            None,
            collapsed,
        ),
        !collapsed.contains(GROUP_ALL@) ==> forall|j: int|
            0 <= j < groups.len() ==> visible_items(rows, groups, collapsed).contains(
                section_header(rows, group_ids(groups), (#[trigger] groups[j]).id@, groups[j].name@, Some(groups[j].id@), collapsed),
            ),
{
    let ids = group_ids(groups);
    let items = visible_items(rows, groups, collapsed);
    if !collapsed.contains(GROUP_ALL@) {
        let all = ItemView::Header {
            key: GROUP_ALL@,
            label: "全部分组"@,
            count: rows.len(),
            depth: 0,
            collapsed: false,
        };
        let ung = section(GROUP_UNGROUPED@, "未分组"@, rows_in(rows, ids, None), collapsed.contains(GROUP_UNGROUPED@));
        let gs = group_sections(rows, ids, groups, collapsed);
        assert(items == seq![all] + ung + gs);
        assert(items[1] == ung[0]);
        assert forall|j: int| 0 <= j < groups.len() implies items.contains(
            section_header(rows, ids, (#[trigger] groups[j]).id@, groups[j].name@, Some(groups[j].id@), collapsed),
        ) by {
            lemma_group_headers_listed(rows, ids, groups, collapsed, j);
            let h = section_header(rows, ids, groups[j].id@, groups[j].name@, Some(groups[j].id@), collapsed);
            let k = choose|k: int| 0 <= k < gs.len() && gs[k] == h;
            assert(items[1 + ung.len() + k] == h);
        }
    }
}

/// Whether `s` is among the collapsed keys.
fn is_collapsed(collapsed: &[String], s: &str) -> (r: bool)
    ensures
        r == views(collapsed@).contains(s@),
{
    let mut i: usize = 0;
    while i < collapsed.len()
        invariant
            i <= collapsed.len(),
            forall|k: int| 0 <= k < i ==> collapsed@[k]@ != s@,
        decreases collapsed.len() - i,
    {
        if str_eq(collapsed[i].as_str(), s) {
            assert(views(collapsed@)[i as int] == s@);
            return true;
        }
        i += 1;
    }
    assert(!views(collapsed@).contains(s@)) by {
        if views(collapsed@).contains(s@) {
            let j = choose|j: int| 0 <= j < views(collapsed@).len() && views(collapsed@)[j] == s@;
            assert(collapsed@[j]@ == s@);
        }
    }
    false
}

/// The group a row belongs to (only groups in `ids`).
fn known_folder_exec(row: &ArchiveRow, ids: &Vec<String>) -> (r: Option<String>)
    ensures
        crate::resource_view::opt_view(r) == known_folder(row@, views(ids@)),
{
    match &row.folder_id {
        Some(f) => match string_position(ids, f.as_str()) {
            Some(i) => {
                assert(views(ids@)[i as int] == f@);
                Some(f.clone())
            },
            None => None,
        },
        None => None,
    }
}

/// Whether an optional string equals an optional text.
fn opt_eq(a: &Option<String>, b: &Option<String>) -> (r: bool)
    ensures
        r == (crate::resource_view::opt_view(*a) == crate::resource_view::opt_view(*b)),
{
    match (a, b) {
        (Some(x), Some(y)) => str_eq(x.as_str(), y.as_str()),
        (None, None) => true,
        _ => false,
    }
}

/// The rows of one section, copied in input order.
fn rows_of_section(rows: &[ArchiveRow], ids: &Vec<String>, folder: &Option<String>) -> (out: Vec<ArchiveRow>)
    ensures
        rows_view(out@) == rows_in(rows_view(rows@), views(ids@), crate::resource_view::opt_view(*folder)),
{
    let ghost all = rows_view(rows@);
    let ghost target = crate::resource_view::opt_view(*folder);
    let ghost pred = |r: RowView| known_folder(r, views(ids@)) == target;
    let mut out: Vec<ArchiveRow> = Vec::new();
    let mut i: usize = 0;
    while i < rows.len()
        invariant
            i <= rows.len(),
            all == rows_view(rows@),
            target == crate::resource_view::opt_view(*folder),
            pred == (|r: RowView| known_folder(r, views(ids@)) == target),
            rows_view(out@) == all.take(i as int).filter(pred),
        decreases rows.len() - i,
    {
        assert(all.take(i + 1).drop_last() == all.take(i as int));
        assert(all.take(i + 1).last() == rows@[i as int]@);
        assert(all.take(i + 1).filter(pred) == if pred(all[i as int]) {
            all.take(i as int).filter(pred).push(all[i as int])
        } else {
            all.take(i as int).filter(pred)
        }) by {
            reveal(Seq::filter);
        }
        let f = known_folder_exec(&rows[i], ids);
        if opt_eq(&f, folder) {
            let copy = rows[i].duplicate();
            out.push(copy);
            assert(rows_view(out@) =~= all.take(i as int).filter(pred).push(all[i as int]));
        }
        i += 1;
    }
    assert(all.take(rows.len() as int) == all);
    out
}

/// Appends a section (header, then rows unless collapsed).
fn push_section(items: &mut Vec<VisibleItem>, key: String, label: String, rows: Vec<ArchiveRow>, collapsed: bool)
    ensures
        items_view(final(items)@) == items_view(old(items)@) + section(key@, label@, rows_view(rows@), collapsed),
{
    let ghost before = items_view(items@);
    let count = rows.len();
    items.push(VisibleItem::GroupHeader { key, label, count, depth: 1, collapsed });
    let ghost header = items_view(items@);
    if collapsed {
        assert(items_view(items@) =~= before + section(key@, label@, rows_view(rows@), collapsed));
        return;
    }
    let mut i: usize = 0;
    while i < rows.len()
        invariant
            i <= rows.len(),
            items_view(items@) == header + row_items(rows_view(rows@).take(i as int)),
        decreases rows.len() - i,
    {
        let ghost prev = items_view(items@);
        let copy = rows[i].duplicate();
        items.push(VisibleItem::Row(copy));
        assert(items_view(items@) =~= prev.push(ItemView::Row(rows@[i as int]@)));
        assert(row_items(rows_view(rows@).take(i + 1)) =~= row_items(rows_view(rows@).take(i as int)).push(
            ItemView::Row(rows@[i as int]@),
        ));
        i += 1;
    }
    assert(rows_view(rows@).take(rows.len() as int) == rows_view(rows@));
    assert(items_view(items@) =~= before + section(key@, label@, rows_view(rows@), collapsed));
}

/// The list items of the group sections: "all groups", then "ungrouped", then each
/// group (without groups, the rows alone). Collapsing hides a section's rows but keeps
/// its header; counts are taken from the rows given, and with distinct group ids the
/// section counts add up to all rows (`law_sections_partition_rows`). The collapsed
/// keys are read as a set: a key listed twice counts once.
pub fn build_visible_items(rows: &[ArchiveRow], groups: &[GroupOption], collapsed: &[String]) -> (items: Vec<VisibleItem>)
    ensures
        items_view(items@) == visible_items(rows_view(rows@), groups@, views(collapsed@)),
        groups@.len() > 0 ==> items_view(items@)[0] == (ItemView::Header {
            key: GROUP_ALL@,
            label: "全部分组"@,
            count: rows@.len(),
            depth: 0,
            collapsed: views(collapsed@).contains(GROUP_ALL@),
        }),
        groups@.len() > 0 && !views(collapsed@).contains(GROUP_ALL@) ==> items_view(items@)[1] == section_header(
            rows_view(rows@),
            group_ids(groups@),
            GROUP_UNGROUPED@,
            "未分组"@,
            None,
            views(collapsed@),
        ),
        groups@.len() > 0 && !views(collapsed@).contains(GROUP_ALL@) ==> forall|j: int|
            0 <= j < groups@.len() ==> items_view(items@).contains(
                section_header(
                    rows_view(rows@),
                    group_ids(groups@),
                    (#[trigger] groups@[j]).id@,
                    groups@[j].name@,
                    Some(groups@[j].id@),
                    views(collapsed@),
                ),
            ),
{
    proof {
        if groups@.len() > 0 {
            law_headers_count_their_rows(rows_view(rows@), groups@, views(collapsed@));
        }
    }
    let mut items: Vec<VisibleItem> = Vec::new();
    if groups.len() == 0 {
        let mut i: usize = 0;
        while i < rows.len()
            invariant
                i <= rows.len(),
                items_view(items@) == row_items(rows_view(rows@).take(i as int)),
            decreases rows.len() - i,
        {
            let ghost prev = items_view(items@);
            let copy = rows[i].duplicate();
            items.push(VisibleItem::Row(copy));
            assert(items_view(items@) =~= prev.push(ItemView::Row(rows@[i as int]@)));
            assert(row_items(rows_view(rows@).take(i + 1)) =~= row_items(rows_view(rows@).take(i as int)).push(
                ItemView::Row(rows@[i as int]@),
            ));
            i += 1;
        }
        assert(rows_view(rows@).take(rows.len() as int) == rows_view(rows@));
        return items;
    }
    let mut ids: Vec<String> = Vec::new();
    let mut g: usize = 0;
    while g < groups.len()
        invariant
            g <= groups.len(),
            views(ids@) == group_ids(groups@).take(g as int),
        decreases groups.len() - g,
    {
        let ghost prev = views(ids@);
        let id = groups[g].id.clone();
        assert(id@ == groups@[g as int].id@);
        ids.push(id);
        assert(views(ids@) =~= prev.push(groups@[g as int].id@));
        assert(group_ids(groups@).take(g + 1) =~= group_ids(groups@).take(g as int).push(groups@[g as int].id@));
        g += 1;
    }
    assert(group_ids(groups@).take(groups.len() as int) == group_ids(groups@));
    let all_collapsed = is_collapsed(collapsed, GROUP_ALL);
    items.push(VisibleItem::GroupHeader {
        key: crate::text::owned(GROUP_ALL),
        label: crate::text::owned("全部分组"),
        count: rows.len(),
        depth: 0,
        collapsed: all_collapsed,
    });
    if all_collapsed {
        assert(items_view(items@) =~= visible_items(rows_view(rows@), groups@, views(collapsed@)));
        return items;
    }
    let ungrouped = rows_of_section(rows, &ids, &None);
    let ungrouped_collapsed = is_collapsed(collapsed, GROUP_UNGROUPED);
    push_section(&mut items, crate::text::owned(GROUP_UNGROUPED), crate::text::owned("未分组"), ungrouped, ungrouped_collapsed);
    let ghost head = items_view(items@);
    let mut k: usize = 0;
    while k < groups.len()
        invariant
            k <= groups.len(),
            views(ids@) == group_ids(groups@),
            items_view(items@) == head + group_sections(rows_view(rows@), views(ids@), groups@.take(k as int), views(collapsed@)),
        decreases groups.len() - k,
    {
        let group = &groups[k];
        let is_c = is_collapsed(collapsed, group.id.as_str());
        let members = rows_of_section(rows, &ids, &Some(group.id.clone()));
        push_section(&mut items, group.id.clone(), group.name.clone(), members, is_c);
        assert(groups@.take(k + 1).drop_last() =~= groups@.take(k as int));
        assert(groups@.take(k + 1).last() == groups@[k as int]);
        k += 1;
    }
    assert(groups@.take(groups.len() as int) =~= groups@);
    items
}

} // verus!
