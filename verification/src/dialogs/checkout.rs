//! Checkout dialog: the default name of a work copy and the checks on the name
//! the user types.

use vstd::prelude::*;

use crate::dialogs::archive::pair_view;
use crate::resource_view::opt_view;
use crate::text::{
    ascii_lower_seq, chars_of, dec_int, owned, push_dec_i64, push_str, str_eq, string_of_range, trim, trimmed,
};

verus! {

/// What the dialog shows, prepared by the host.
#[derive(Debug, Clone, PartialEq, Eq)]
pub struct CheckoutDialogSeed {
    /// Display name of the archive.
    pub resource_name: String,
    /// Default file name (see [`suggest_work_copy_name`]).
    pub file_name: String,
    /// Target directory, read-only.
    pub target_dir_label: String,
    /// Version checked out (a new archive will make the next one).
    pub version: i32,
}

/// The raw values of the form.
#[derive(Debug, Clone, PartialEq, Eq)]
pub struct CheckoutDialogInputs {
    pub file_name: String,
    /// Open the copy afterwards.
    pub open_after: bool,
}

/// What the user chose (the target directory stays with the host).
#[derive(Debug, Clone, PartialEq, Eq)]
pub struct CheckoutDialogResult {
    pub file_name: String,
    pub open_after: bool,
}

/// Leading dots removed.
pub open spec fn without_leading_dots(s: Seq<char>) -> Seq<char>
    decreases s.len(),
{
    if s.len() > 0 && s[0] == '.' {
        without_leading_dots(s.drop_first())
    } else {
        s
    }
}

/// The default name of a work copy: `<name>（工作副本）.<ext>`, or without the
/// extension when there is none (an extension may come with or without its dot).
pub open spec fn work_copy_name(display_name: Seq<char>, extension: Option<Seq<char>>) -> Seq<char> {
    match extension {
        Some(ext) => if ext.len() > 0 {
            display_name + "（工作副本）."@ + without_leading_dots(ext)
        } else {
            display_name + "（工作副本）"@
        },
        None => display_name + "（工作副本）"@,
    }
}

/// The default file name of a work copy.
pub fn suggest_work_copy_name(display_name: &str, extension: Option<&str>) -> (s: String)
    ensures
        s@ == work_copy_name(display_name@, match extension { Some(e) => Some(e@), None => None }),
{
    let mut out = String::new();
    push_str(&mut out, display_name);
    match extension {
        Some(ext) => {
            if ext.is_empty() {
                push_str(&mut out, "（工作副本）");
            } else {
                push_str(&mut out, "（工作副本）.");
                let v = chars_of(ext);
                let mut i: usize = 0;
                assert(v@.skip(0) == v@);
                while i < v.len() && v[i] == '.'
                    invariant
                        i <= v.len(),
                        without_leading_dots(v@) == without_leading_dots(v@.skip(i as int)),
                    decreases v.len() - i,
                {
                    assert(v@.skip(i as int).drop_first() == v@.skip(i + 1));
                    i += 1;
                }
                let rest = string_of_range(&v, i, v.len());
                assert(v@.subrange(i as int, v.len() as int) == v@.skip(i as int));
                push_str(&mut out, rest.as_str());
            }
        },
        None => {
            push_str(&mut out, "（工作副本）");
        },
    }
    out
}

/// Characters no file name may hold.
pub open spec fn forbidden_in_name(c: char) -> bool {
    c == '/' || c == '\\' || c == ':' || c == '*' || c == '?' || c == '"' || c == '<' || c == '>' || c == '|'
}

/// Where the first `.` is (the length when there is none).
pub open spec fn first_dot(s: Seq<char>) -> int
    decreases s.len(),
{
    if s.len() == 0 {
        0
    } else if s[0] == '.' {
        0
    } else {
        1 + first_dot(s.drop_first())
    }
}

/// Trailing spaces removed.
pub open spec fn without_trailing_spaces(s: Seq<char>) -> Seq<char>
    decreases s.len(),
{
    if s.len() > 0 && s.last() == ' ' {
        without_trailing_spaces(s.drop_last())
    } else {
        s
    }
}

/// The part of a name before its first dot, without trailing spaces.
pub open spec fn name_stem(s: Seq<char>) -> Seq<char> {
    without_trailing_spaces(s.take(first_dot(s)))
}

/// Device names that Windows reserves.
pub open spec fn reserved_names() -> Seq<Seq<char>> {
    seq![
        "CON"@, "PRN"@, "AUX"@, "NUL"@, "COM1"@, "COM2"@, "COM3"@, "COM4"@, "COM5"@, "COM6"@, "COM7"@,
        "COM8"@, "COM9"@, "LPT1"@, "LPT2"@, "LPT3"@, "LPT4"@, "LPT5"@, "LPT6"@, "LPT7"@, "LPT8"@, "LPT9"@,
    ]
}

/// Device names that Windows reserves (compared without the extension, ignoring ASCII case).
pub const RESERVED_NAMES: [&'static str; 22] = [
    "CON", "PRN", "AUX", "NUL", "COM1", "COM2", "COM3", "COM4", "COM5", "COM6", "COM7", "COM8",
    "COM9", "LPT1", "LPT2", "LPT3", "LPT4", "LPT5", "LPT6", "LPT7", "LPT8", "LPT9",
];

/// The stem is a reserved device name, ignoring ASCII case.
pub open spec fn is_reserved_stem(stem: Seq<char>) -> bool {
    exists|i: int| 0 <= i < 22 && ascii_lower_seq(#[trigger] reserved_names()[i]) == ascii_lower_seq(stem)
}

/// The hint of the file name field: names that cannot be created are refused.
pub open spec fn file_name_hint_text(name: Seq<char>) -> Option<Seq<char>> {
    let t = trim(name);
    if t.len() == 0 {
        Some("文件名不能为空"@)
    } else if t == "."@ || t == ".."@ {
        Some("文件名不能是 . 或 .."@)
    } else if exists|i: int| 0 <= i < t.len() && forbidden_in_name(#[trigger] t[i]) {
        Some("文件名不能包含 \\ / : * ? \" < > |"@)
    } else if is_reserved_stem(name_stem(t)) {
        Some("这是系统保留名，换一个"@)
    } else {
        None
    }
}

/// The stem of a name, as characters.
fn stem_chars(v: &Vec<char>) -> (r: Vec<char>)
    ensures
        r@ == name_stem(v@),
{
    let mut end: usize = 0;
    assert(v@.skip(0) == v@);
    while end < v.len() && v[end] != '.'
        invariant
            end <= v.len(),
            first_dot(v@) == end + first_dot(v@.skip(end as int)),
        decreases v.len() - end,
    {
        assert(v@.skip(end as int).drop_first() == v@.skip(end + 1));
        end += 1;
    }
    assert(first_dot(v@.skip(end as int)) == 0);
    let mut stop = end;
    while stop > 0 && v[stop - 1] == ' '
        invariant
            stop <= end <= v.len(),
            end == first_dot(v@),
            without_trailing_spaces(v@.take(end as int)) == without_trailing_spaces(v@.take(stop as int)),
        decreases stop,
    {
        assert(v@.take(stop as int).drop_last() == v@.take(stop - 1));
        stop -= 1;
    }
    let mut r: Vec<char> = Vec::new();
    let mut k: usize = 0;
    while k < stop
        invariant
            k <= stop <= v.len(),
            r@ == v@.take(k as int),
        decreases stop - k,
    {
        r.push(v[k]);
        assert(v@.take(k + 1) == v@.take(k as int).push(v@[k as int]));
        k += 1;
    }
    r
}

/// The hint of the file name field (`None`: the name can be created). Taken
/// names are not checked here: the host renames around them.
pub fn file_name_hint(name: &str) -> (r: Option<&'static str>)
    ensures
        match r {
            Some(h) => file_name_hint_text(name@) == Some(h@),
            None => file_name_hint_text(name@) is None,
        },
{
    let t = trimmed(name);
    let v = chars_of(t.as_str());
    if v.len() == 0 {
        return Some("文件名不能为空");
    }
    if str_eq(t.as_str(), ".") || str_eq(t.as_str(), "..") {
        return Some("文件名不能是 . 或 ..");
    }
    let mut i: usize = 0;
    while i < v.len()
        invariant
            i <= v.len(),
            v@ == t@,
            t@ == trim(name@),
            t@.len() > 0,
            !(t@ == "."@ || t@ == ".."@),
            forall|k: int| 0 <= k < i ==> !forbidden_in_name(#[trigger] v@[k]),
        decreases v.len() - i,
    {
        let c = v[i];
        if c == '/' || c == '\\' || c == ':' || c == '*' || c == '?' || c == '"' || c == '<' || c == '>' || c == '|' {
            assert(forbidden_in_name(v@[i as int]));
            return Some("文件名不能包含 \\ / : * ? \" < > |");
        }
        i += 1;
    }
    let stem = crate::preview::ascii_lower_chars(&stem_chars(&v));
    let mut j: usize = 0;
    while j < 22
        invariant
            j <= 22,
            stem@ == ascii_lower_seq(name_stem(t@)),
            v@ == t@,
            t@ == trim(name@),
            t@.len() > 0,
            !(t@ == "."@ || t@ == ".."@),
            forall|k: int| 0 <= k < v@.len() ==> !forbidden_in_name(#[trigger] v@[k]),
            forall|k: int| 0 <= k < j ==> ascii_lower_seq(#[trigger] reserved_names()[k]) != stem@,
        decreases 22 - j,
    {
        let candidate: &str = RESERVED_NAMES[j];
        assert(candidate@ == reserved_names()[j as int]);
        let lowered = crate::preview::ascii_lower_chars(&chars_of(candidate));
        if crate::text::chars_eq(&lowered, &stem) {
            assert(ascii_lower_seq(reserved_names()[j as int]) == ascii_lower_seq(name_stem(t@)));
            assert(is_reserved_stem(name_stem(t@)));
            return Some("这是系统保留名，换一个");
        }
        j += 1;
    }
    None
}

/// The result of a form: `None` when the trimmed name has a hint; otherwise the
/// trimmed name and the open-afterwards choice.
pub fn submit_checkout(inputs: &CheckoutDialogInputs) -> (r: Option<CheckoutDialogResult>)
    ensures
        match r {
            Some(res) => file_name_hint_text(trim(inputs.file_name@)) is None && res.file_name@ == trim(
                inputs.file_name@,
            ) && res.open_after == inputs.open_after,
            None => file_name_hint_text(trim(inputs.file_name@)) is Some,
        },
{
    let file_name = trimmed(inputs.file_name.as_str());
    if file_name_hint(file_name.as_str()).is_some() {
        return None;
    }
    Some(CheckoutDialogResult { file_name, open_after: inputs.open_after })
}

/// What the checkout dialog shows for its seed and the current file name.
pub struct CheckoutDialogView {
    /// The read-only block: the archive with its version, and the target directory.
    pub readonly_rows: Vec<(String, String)>,
    /// The hint under the file name field.
    pub file_name_hint: Option<String>,
    /// What taking out does and what archiving the copy again makes.
    pub note: String,
}

/// What the checkout dialog shows: the archive as `name（vN）`, the target
/// directory, the file name hint, and that archiving the copy again makes the next version.
pub fn dialog_view(seed: &CheckoutDialogSeed, file_name: &str) -> (v: CheckoutDialogView)
    requires
        seed.version < i32::MAX,
    ensures
        v.readonly_rows@.map_values(|p: (String, String)| pair_view(p)) == seq![
            ("存档"@, seed.resource_name@ + "（v"@ + dec_int(seed.version as int) + "）"@),
            ("目标目录"@, seed.target_dir_label@),
        ],
        opt_view(v.file_name_hint) == file_name_hint_text(file_name@),
        v.note@ == "本体不动。修改后再次归档将生成 v"@ + dec_int(seed.version + 1),
{
    let mut archive = seed.resource_name.clone();
    push_str(&mut archive, "（v");
    push_dec_i64(&mut archive, seed.version as i64);
    push_str(&mut archive, "）");
    let readonly_rows = vec![(owned("存档"), archive), (owned("目标目录"), seed.target_dir_label.clone())];
    assert(readonly_rows@.map_values(|p: (String, String)| pair_view(p)) =~= seq![
        ("存档"@, seed.resource_name@ + "（v"@ + dec_int(seed.version as int) + "）"@),
        ("目标目录"@, seed.target_dir_label@),
    ]);
    let hint = match file_name_hint(file_name) {
        Some(h) => Some(owned(h)),
        None => None,
    };
    let mut note = owned("本体不动。修改后再次归档将生成 v");
    push_dec_i64(&mut note, seed.version as i64 + 1);
    CheckoutDialogView { readonly_rows, file_name_hint: hint, note }
}

} // verus!
