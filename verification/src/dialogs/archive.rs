//! Archive dialog: the fields the user may change (name, alias, tags, group,
//! retention), their parsing and validation.

use vstd::prelude::*;

use crate::filter::string_position;
use crate::model::{keep_label, keep_of_setting, KeepVersions};
use crate::resource_view::{copy_opt_string, opt_view, GroupOption};
use crate::seqs::views;
use crate::text::{blank, chars_of, is_blank, owned, parse_i64, parsed_i64, push_str, str_eq, string_of, trim, trimmed};

verus! {

/// Upper bound of the retention field (to keep every copy, write `-1`).
pub const KEEP_VERSIONS_MAX: u32 = 100;

/// What the dialog shows, prepared by the host.
#[derive(Debug, Clone, PartialEq, Eq)]
pub struct ArchiveDialogSeed {
    /// Where the content comes from, one line, read-only.
    pub source_label: String,
    /// Target path under `resources/`, read-only.
    pub rel_path: String,
    /// Default display name.
    pub name: String,
    /// Source connection (`None`: not recorded).
    pub source_connection: Option<String>,
    /// Where the archive goes when the target is taken (`None`: no conflict).
    pub conflict: Option<ArchiveConflict>,
    /// Existing groups to pick from.
    pub groups: Vec<GroupOption>,
    /// Preselected group (`None`: ungrouped).
    pub group_id: Option<String>,
}

/// A taken target and the place the host picked instead.
#[derive(Debug, Clone, PartialEq, Eq)]
pub struct ArchiveConflict {
    pub taken_rel_path: String,
    pub resolved_rel_path: String,
}

/// What the user filled in.
#[derive(Debug, Clone, PartialEq, Eq)]
pub struct ArchiveDialogResult {
    pub name: String,
    /// `None`: no alias.
    pub alias: Option<String>,
    /// Tags, without blanks and repeats, in typed order.
    pub tags: Vec<String>,
    /// `None`: ungrouped.
    pub group_id: Option<String>,
    /// `None`: follow the setting.
    pub keep_versions: Option<KeepVersions>,
}

/// The raw values of the form's fields.
#[derive(Debug, Clone, PartialEq, Eq)]
pub struct ArchiveDialogInputs {
    pub name: String,
    pub alias: String,
    pub tags: String,
    pub keep_versions: String,
    /// Picked group (`None`: ungrouped).
    pub group_id: Option<String>,
}

/// Separators of the tag field: commas (also full-width), spaces, tabs, newlines.
pub open spec fn is_tag_sep(c: char) -> bool {
    c == ',' || c == '，' || c == ' ' || c == '\t' || c == '\n'
}

/// The pieces between separators (as `str::split` gives them).
pub open spec fn tag_pieces(s: Seq<char>) -> Seq<Seq<char>>
    decreases s.len(),
{
    if s.len() == 0 {
        seq![Seq::empty()]
    } else if is_tag_sep(s.last()) {
        tag_pieces(s.drop_last()).push(Seq::empty())
    } else {
        let p = tag_pieces(s.drop_last());
        p.update(p.len() - 1, p.last().push(s.last()))
    }
}

/// The trimmed pieces, blanks and repeats left out, in order.
pub open spec fn collect_tags(pieces: Seq<Seq<char>>) -> Seq<Seq<char>>
    decreases pieces.len(),
{
    if pieces.len() == 0 {
        Seq::empty()
    } else {
        let prev = collect_tags(pieces.drop_last());
        let t = trim(pieces.last());
        if t.len() == 0 || prev.contains(t) {
            prev
        } else {
            prev.push(t)
        }
    }
}

/// The tags typed in the tag field.
pub open spec fn tags_of_text(s: Seq<char>) -> Seq<Seq<char>> {
    collect_tags(tag_pieces(s))
}

/// There is always at least one piece.
proof fn lemma_tag_pieces_nonempty(s: Seq<char>)
    ensures
        tag_pieces(s).len() >= 1,
    decreases s.len(),
{
    if s.len() > 0 {
        lemma_tag_pieces_nonempty(s.drop_last());
    }
}

/// Splits the tag field: separated by commas (also full-width) and whitespace,
/// trimmed, blanks and repeats dropped, typed order kept.
pub fn parse_tags(text: &str) -> (r: Vec<String>)
    ensures
        views(r@) == tags_of_text(text@),
{
    let v = chars_of(text);
    let mut done: Vec<Vec<char>> = Vec::new();
    let mut current: Vec<char> = Vec::new();
    let mut i: usize = 0;
    proof {
        assert(v@.take(0) == Seq::<char>::empty());
        assert(done@.map_values(|p: Vec<char>| p@).push(current@) == tag_pieces(v@.take(0)));
    }
    while i < v.len()
        invariant
            i <= v.len(),
            done@.map_values(|p: Vec<char>| p@).push(current@) == tag_pieces(v@.take(i as int)),
        decreases v.len() - i,
    {
        let c = v[i];
        let ghost prefix = v@.take(i as int);
        let ghost before = done@.map_values(|p: Vec<char>| p@);
        assert(v@.take(i + 1).drop_last() == prefix);
        assert(v@.take(i + 1).last() == c);
        proof {
            lemma_tag_pieces_nonempty(prefix);
        }
        if c == ',' || c == '，' || c == ' ' || c == '\t' || c == '\n' {
            let finished = current;
            current = Vec::new();
            done.push(finished);
            assert(done@.map_values(|p: Vec<char>| p@) == before.push(finished@));
        } else {
            current.push(c);
            assert(before.push(current@) == tag_pieces(prefix).update(
                tag_pieces(prefix).len() - 1,
                tag_pieces(prefix).last().push(c),
            ));
        }
        i += 1;
    }
    assert(v@.take(v.len() as int) == v@);
    done.push(current);
    let ghost pieces = tag_pieces(v@);
    assert(done@.map_values(|p: Vec<char>| p@) == pieces);
    let mut out: Vec<String> = Vec::new();
    let mut k: usize = 0;
    while k < done.len()
        invariant
            k <= done.len(),
            done@.map_values(|p: Vec<char>| p@) == pieces,
            views(out@) == collect_tags(pieces.take(k as int)),
        decreases done.len() - k,
    {
        assert(pieces.take(k + 1).drop_last() == pieces.take(k as int));
        assert(pieces.take(k + 1).last() == done@[k as int]@);
        let piece = string_of(&done[k]);
        let tag = trimmed(piece.as_str());
        if !tag.as_str().is_empty() {
            match string_position(&out, tag.as_str()) {
                Some(j) => {
                    assert(views(out@)[j as int] == tag@);
                },
                None => {
                    let ghost prev = out@;
                    out.push(tag);
                    assert(views(out@) == views(prev).push(trim(done@[k as int]@)));
                },
            }
        }
        k += 1;
    }
    assert(pieces.take(done.len() as int) == pieces);
    out
}

/// What the retention field reads as: the policy, or the hint of what is wrong.
pub open spec fn keep_versions_reading(text: Seq<char>) -> Result<Option<KeepVersions>, Seq<char>> {
    let t = trim(text);
    if t.len() == 0 {
        Ok(None)
    } else {
        match parsed_i64(t) {
            None => Err("请填数字（留空 = 跟随设置）"@),
            Some(v) => if v < 0 {
                if v == -1 {
                    Ok(Some(KeepVersions::All))
                } else {
                    Err("-1 = 全部保留（留空 = 跟随设置）"@)
                }
            } else if v > 100 {
                Err("最多 100 份（留空 = 跟随设置）"@)
            } else {
                Ok(Some(keep_of_setting(v as int)))
            },
        }
    }
}

/// The view of a parse outcome whose error is a message.
pub open spec fn message_result<T>(r: Result<T, &'static str>) -> Result<T, Seq<char>> {
    match r {
        Ok(v) => Ok(v),
        Err(e) => Err(e@),
    }
}

/// Reads the retention field: empty follows the setting, a number from 0 to
/// [`KEEP_VERSIONS_MAX`] overrides it, `-1` keeps every copy; anything else is an
/// error whose text is the hint shown.
pub fn parse_keep_versions(text: &str) -> (r: Result<Option<KeepVersions>, &'static str>)
    ensures
        message_result(r) == keep_versions_reading(text@),
{
    let t = trimmed(text);
    if t.as_str().is_empty() {
        return Ok(None);
    }
    match parse_i64(t.as_str()) {
        None => Err("请填数字（留空 = 跟随设置）"),
        Some(value) => {
            if value < 0 {
                if value == -1 {
                    Ok(Some(KeepVersions::All))
                } else {
                    Err("-1 = 全部保留（留空 = 跟随设置）")
                }
            } else if value > KEEP_VERSIONS_MAX as i64 {
                Err("最多 100 份（留空 = 跟随设置）")
            } else {
                Ok(Some(KeepVersions::from_setting(value)))
            }
        },
    }
}

/// The hint of the name field: a blank name is refused.
pub open spec fn name_hint_text(name: Seq<char>) -> Option<Seq<char>> {
    if is_blank(name) {
        Some("显示名不能为空"@)
    } else {
        None
    }
}

/// The hint of the name field (`None`: valid).
pub fn name_hint(name: &str) -> (r: Option<&'static str>)
    ensures
        match r {
            Some(h) => name_hint_text(name@) == Some(h@),
            None => name_hint_text(name@) is None,
        },
{
    if blank(name) {
        Some("显示名不能为空")
    } else {
        None
    }
}

/// The result a form gives: `None` when the name is blank or the retention field
/// is wrong; otherwise the trimmed name, the alias when not blank, the tags, the
/// group and the retention.
pub open spec fn archive_submission(
    name: Seq<char>,
    alias: Seq<char>,
    tags: Seq<char>,
    keep: Seq<char>,
) -> Option<(Seq<char>, Option<Seq<char>>, Seq<Seq<char>>, Option<KeepVersions>)> {
    if is_blank(trim(name)) {
        None
    } else {
        match keep_versions_reading(keep) {
            Err(_) => None,
            Ok(k) => Some((
                trim(name),
                if trim(alias).len() > 0 { Some(trim(alias)) } else { None },
                tags_of_text(tags),
                k,
            )),
        }
    }
}

/// Validates the form and takes its values; `None` keeps the dialog open.
pub fn submit_archive(inputs: &ArchiveDialogInputs) -> (r: Option<ArchiveDialogResult>)
    ensures
        match r {
            Some(res) => archive_submission(inputs.name@, inputs.alias@, inputs.tags@, inputs.keep_versions@)
                == Some((res.name@, opt_view(res.alias), views(res.tags@), res.keep_versions))
                && opt_view(res.group_id) == opt_view(inputs.group_id),
            None => archive_submission(inputs.name@, inputs.alias@, inputs.tags@, inputs.keep_versions@) is None,
        },
{
    let name = trimmed(inputs.name.as_str());
    if name_hint(name.as_str()).is_some() {
        return None;
    }
    let keep = match parse_keep_versions(inputs.keep_versions.as_str()) {
        Ok(k) => k,
        Err(_) => {
            return None;
        },
    };
    let alias_text = trimmed(inputs.alias.as_str());
    let alias = if alias_text.as_str().is_empty() { None } else { Some(alias_text) };
    Some(ArchiveDialogResult {
        name,
        alias,
        tags: parse_tags(inputs.tags.as_str()),
        group_id: copy_opt_string(&inputs.group_id),
        keep_versions: keep,
    })
}

/// `i` is the first group with the id `id`.
pub open spec fn first_group(groups: Seq<GroupOption>, id: Seq<char>, i: int) -> bool {
    &&& 0 <= i < groups.len()
    &&& groups[i].id@ == id
    &&& forall|j: int| 0 <= j < i ==> (#[trigger] groups[j]).id@ != id
}

/// The name of the first group with the id `id`, if any.
pub open spec fn group_name_for(groups: Seq<GroupOption>, id: Seq<char>) -> Option<Seq<char>>
    decreases groups.len(),
{
    if groups.len() == 0 {
        None
    } else if groups[0].id@ == id {
        Some(groups[0].name@)
    } else {
        group_name_for(groups.drop_first(), id)
    }
}

proof fn lemma_group_name_found(groups: Seq<GroupOption>, id: Seq<char>, k: int)
    requires
        first_group(groups, id, k),
    ensures
        group_name_for(groups, id) == Some(groups[k].name@),
    decreases groups.len(),
{
    if k > 0 {
        assert(groups[0].id@ != id);
        let rest = groups.drop_first();
        assert forall|j: int| 0 <= j < k - 1 implies (#[trigger] rest[j]).id@ != id by {
            assert(rest[j] == groups[j + 1]);
        }
        assert(rest[k - 1] == groups[k]);
        lemma_group_name_found(rest, id, k - 1);
    }
}

proof fn lemma_group_name_absent(groups: Seq<GroupOption>, id: Seq<char>)
    requires
        forall|j: int| 0 <= j < groups.len() ==> (#[trigger] groups[j]).id@ != id,
    ensures
        group_name_for(groups, id) is None,
    decreases groups.len(),
{
    if groups.len() > 0 {
        assert(groups[0].id@ != id);
        let rest = groups.drop_first();
        assert forall|j: int| 0 <= j < rest.len() implies (#[trigger] rest[j]).id@ != id by {
            assert(rest[j] == groups[j + 1]);
        }
        lemma_group_name_absent(rest, id);
    }
}

/// The name on the group button: the picked group's name, or `未分组` when
/// nothing is picked or the picked id is no longer in the list.
pub open spec fn group_button_text(groups: Seq<GroupOption>, current: Option<Seq<char>>) -> Seq<char> {
    match current {
        Some(id) => match group_name_for(groups, id) {
            Some(name) => name,
            None => "未分组"@,
        },
        None => "未分组"@,
    }
}

/// The note under the retention field: what a valid non-empty entry means.
pub open spec fn keep_note_text(text: Seq<char>) -> Option<Seq<char>> {
    match keep_versions_reading(text) {
        Ok(Some(KeepVersions::All)) => Some("全部保留：不裁剪任何历史内容副本"@),
        Ok(Some(k)) => Some("本次归档："@ + keep_label(k)),
        _ => None,
    }
}

/// A pair of strings by its views.
pub open spec fn pair_view(p: (String, String)) -> (Seq<char>, Seq<char>) {
    (p.0@, p.1@)
}

/// A menu entry by its view.
pub open spec fn entry_view(p: (String, bool)) -> (Seq<char>, bool) {
    (p.0@, p.1)
}

/// What the archive dialog shows for its seed and the current field values.
pub struct ArchiveDialogView {
    /// The read-only block: label and value of source, target and connection.
    pub readonly_rows: Vec<(String, String)>,
    /// The warning when the target is taken.
    pub conflict_line: Option<String>,
    /// The hint under the name field.
    pub name_hint: Option<String>,
    /// The hint under the retention field.
    pub keep_hint: Option<String>,
    /// What a valid retention entry means.
    pub keep_note: Option<String>,
    /// The label of the group button (`name ▾`).
    pub group_label: String,
    /// The entries of the group menu and whether each is ticked: `未分组` first,
    /// then the groups in order.
    pub group_menu: Vec<(String, bool)>,
    /// The confirming button's label.
    pub ok_label: String,
}

/// The position of the first group with the id `id`.
fn find_group(groups: &Vec<GroupOption>, id: &str) -> (r: Option<usize>)
    ensures
        r matches Some(k) ==> first_group(groups@, id@, k as int),
        r is None ==> forall|j: int| 0 <= j < groups@.len() ==> (#[trigger] groups@[j]).id@ != id@,
{
    let mut i: usize = 0;
    while i < groups.len()
        invariant
            i <= groups.len(),
            forall|j: int| 0 <= j < i ==> (#[trigger] groups@[j]).id@ != id@,
        decreases groups.len() - i,
    {
        if str_eq(groups[i].id.as_str(), id) {
            return Some(i);
        }
        i += 1;
    }
    None
}

/// What the archive dialog shows: the confirming button says `改名归档` when the
/// target is taken, the hints follow the current values.
pub fn dialog_view(seed: &ArchiveDialogSeed, inputs: &ArchiveDialogInputs) -> (v: ArchiveDialogView)
    ensures
        v.readonly_rows@.map_values(|p: (String, String)| pair_view(p)) == seq![
            ("来源"@, seed.source_label@),
            ("目标位置"@, seed.rel_path@),
            ("来源连接"@, match seed.source_connection {
                Some(c) => c@,
                None => "未记录"@,
            }),
        ],
        v.conflict_line is Some <==> seed.conflict is Some,
        v.conflict_line matches Some(t) ==> t@ == seed.conflict.unwrap().taken_rel_path@ + " 已被占用：本次将归档为 "@
            + seed.conflict.unwrap().resolved_rel_path@ + "（不覆盖）"@,
        opt_view(v.name_hint) == name_hint_text(inputs.name@),
        opt_view(v.keep_hint) == match keep_versions_reading(inputs.keep_versions@) {
            Err(e) => Some(e),
            Ok(_) => None,
        },
        opt_view(v.keep_note) == keep_note_text(inputs.keep_versions@),
        v.group_label@ == group_button_text(seed.groups@, opt_view(inputs.group_id)) + " ▾"@,
        v.group_menu@.len() == seed.groups@.len() + 1,
        entry_view(v.group_menu@[0]) == ("未分组"@, inputs.group_id is None),
        forall|i: int| 0 <= i < seed.groups@.len() ==> #[trigger] entry_view(v.group_menu@[i + 1]) == (
            seed.groups@[i].name@,
            opt_view(inputs.group_id) == Some(seed.groups@[i].id@),
        ),
        v.ok_label@ == if seed.conflict is Some { "改名归档"@ } else { "归档"@ },
{
    let connection = match &seed.source_connection {
        Some(c) => c.clone(),
        None => owned("未记录"),
    };
    let readonly_rows = vec![
        (owned("来源"), seed.source_label.clone()),
        (owned("目标位置"), seed.rel_path.clone()),
        (owned("来源连接"), connection),
    ];
    assert(readonly_rows@.map_values(|p: (String, String)| pair_view(p)) =~= seq![
        ("来源"@, seed.source_label@),
        ("目标位置"@, seed.rel_path@),
        ("来源连接"@, match seed.source_connection {
            Some(c) => c@,
            None => "未记录"@,
        }),
    ]);
    let conflict_line = match &seed.conflict {
        Some(c) => {
            let mut t = c.taken_rel_path.clone();
            push_str(&mut t, " 已被占用：本次将归档为 ");
            push_str(&mut t, c.resolved_rel_path.as_str());
            push_str(&mut t, "（不覆盖）");
            Some(t)
        },
        None => None,
    };
    let name_hint = match name_hint(inputs.name.as_str()) {
        Some(h) => Some(owned(h)),
        None => None,
    };
    let keep = parse_keep_versions(inputs.keep_versions.as_str());
    let keep_hint = match keep {
        Err(e) => Some(owned(e)),
        Ok(_) => None,
    };
    let keep_note = match keep {
        Ok(Some(KeepVersions::All)) => Some(owned("全部保留：不裁剪任何历史内容副本")),
        Ok(Some(k)) => {
            let mut t = owned("本次归档：");
            let label = k.label();
            push_str(&mut t, label.as_str());
            Some(t)
        },
        _ => None,
    };
    let mut group_label = match &inputs.group_id {
        None => owned("未分组"),
        Some(id) => {
            let found = find_group(&seed.groups, id.as_str());
            match found {
                Some(k) => {
                    proof {
                        lemma_group_name_found(seed.groups@, id@, k as int);
                    }
                    let name = seed.groups[k].name.clone();
                    assert(name@ == seed.groups@[k as int].name@);
                    assert(name@ == group_button_text(seed.groups@, Some(id@)));
                    name
                },
                None => {
                    proof {
                        lemma_group_name_absent(seed.groups@, id@);
                    }
                    let name = owned("未分组");
                    assert(name@ == group_button_text(seed.groups@, Some(id@)));
                    name
                },
            }
        },
    };
    assert(group_label@ == group_button_text(seed.groups@, opt_view(inputs.group_id)));
    push_str(&mut group_label, " ▾");
    let mut group_menu: Vec<(String, bool)> = Vec::new();
    group_menu.push((owned("未分组"), inputs.group_id.is_none()));
    let mut i: usize = 0;
    while i < seed.groups.len()
        invariant
            i <= seed.groups.len(),
            group_menu@.len() == i + 1,
            entry_view(group_menu@[0]) == ("未分组"@, inputs.group_id is None),
            forall|j: int| 0 <= j < i ==> #[trigger] entry_view(group_menu@[j + 1]) == (
                seed.groups@[j].name@,
                opt_view(inputs.group_id) == Some(seed.groups@[j].id@),
            ),
        decreases seed.groups.len() - i,
    {
        let checked = match &inputs.group_id {
            Some(id) => str_eq(id.as_str(), seed.groups[i].id.as_str()),
            None => false,
        };
        group_menu.push((seed.groups[i].name.clone(), checked));
        i += 1;
    }
    let ok_label = if seed.conflict.is_some() { owned("改名归档") } else { owned("归档") };
    ArchiveDialogView {
        readonly_rows,
        conflict_line,
        name_hint,
        keep_hint,
        keep_note,
        group_label,
        group_menu,
        ok_label,
    }
}

} // verus!
