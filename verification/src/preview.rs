//! Content preview of the detail panel: the first lines of text payloads, only
//! metadata for binary or large ones.

use vstd::prelude::*;

use crate::text::{ascii_lower, ascii_lower_seq, chars_of, push_char, push_str, str_eq};

verus! {

/// Preview line limit.
pub const PREVIEW_MAX_LINES: usize = 20;

/// How many bytes are read for a preview.
pub const PREVIEW_READ_BYTES: usize = 8192;

/// Payloads larger than this are not read.
pub const PREVIEW_MAX_FILE_BYTES: i64 = 1048576;

/// Note for binary or large payloads.
pub const ONLY_META_NOTE: &'static str = "仅元信息（不预览内容）";

/// Note for a cut preview.
pub const TRUNCATED_NOTE: &'static str = "仅显示前 20 行";

/// Note when the payload cannot be read.
pub const UNAVAILABLE_NOTE: &'static str = "本体不在，无可预览的内容";

/// Extensions previewed as text (compared in ASCII lower case).
pub const TEXT_EXTENSIONS: [&'static str; 14] = [
    "sql",
    "md",
    "markdown",
    "txt",
    "text",
    "csv",
    "tsv",
    "json",
    "jsonl",
    "yaml",
    "yml",
    "toml",
    "ini",
    "log",
];

/// The preview content, already in human form.
#[derive(Debug, Clone, PartialEq, Eq)]
pub enum Preview {
    /// Text, cut to [`PREVIEW_MAX_LINES`]; `truncated` = more content follows.
    Text { lines: Vec<String>, truncated: bool },
    /// Metadata only, with the reason.
    OnlyMeta(&'static str),
}

impl Default for Preview {
    fn default() -> (p: Self)
        ensures
            p matches Preview::OnlyMeta(n) && n@ == ONLY_META_NOTE@,
    {
        Preview::OnlyMeta(ONLY_META_NOTE)
    }
}

impl Preview {
    /// The note line: for text only when cut; always for metadata only.
    pub fn note(&self) -> (r: Option<&'static str>)
        ensures
            match self {
                Preview::Text { truncated, .. } => if *truncated {
                    r matches Some(n) && n@ == TRUNCATED_NOTE@
                } else {
                    r is None
                },
                Preview::OnlyMeta(n) => r == Some(*n),
            },
    {
        match self {
            Preview::Text { truncated, .. } => if *truncated {
                Some(TRUNCATED_NOTE)
            } else {
                None
            },
            Preview::OnlyMeta(note) => Some(note),
        }
    }

    /// The lines to show (none for metadata only).
    pub fn lines(&self) -> (r: &[String])
        ensures
            match self {
                Preview::Text { lines, .. } => r@ == lines@,
                Preview::OnlyMeta(_) => r@.len() == 0,
            },
    {
        match self {
            Preview::Text { lines, .. } => lines.as_slice(),
            Preview::OnlyMeta(_) => &[],
        }
    }
}

/// The text after the last `.` of a name (empty when there is none).
pub open spec fn extension_of(name: Seq<char>) -> Seq<char>
    decreases name.len(),
{
    if name.len() == 0 {
        Seq::empty()
    } else if name.last() == '.' {
        Seq::empty()
    } else if !crate::text::has_char(name, '.') {
        Seq::empty()
    } else {
        extension_of(name.drop_last()).push(name.last())
    }
}

/// The text extensions as texts.
pub open spec fn text_extensions() -> Seq<Seq<char>> {
    seq![
        "sql"@,
        "md"@,
        "markdown"@,
        "txt"@,
        "text"@,
        "csv"@,
        "tsv"@,
        "json"@,
        "jsonl"@,
        "yaml"@,
        "yml"@,
        "toml"@,
        "ini"@,
        "log"@,
    ]
}

/// A name is previewed as text when its extension, ASCII lower-cased, is listed.
pub open spec fn textual(name: Seq<char>) -> bool {
    text_extensions().contains(ascii_lower_seq(extension_of(name)))
}

/// The extension of a name, as characters.
fn extension_chars(name: &Vec<char>) -> (e: Vec<char>)
    ensures
        e@ == extension_of(name@),
{
    let mut last_dot: Option<usize> = None;
    let mut i: usize = 0;
    while i < name.len()
        invariant
            i <= name.len(),
            match last_dot {
                Some(d) => d < i && name@[d as int] == '.' && forall|k: int| d < k < i ==> name@[k] != '.',
                None => forall|k: int| 0 <= k < i ==> name@[k] != '.',
            },
        decreases name.len() - i,
    {
        if name[i] == '.' {
            last_dot = Some(i);
        }
        i += 1;
    }
    let mut e: Vec<char> = Vec::new();
    match last_dot {
        None => {
            assert(!crate::text::has_char(name@, '.'));
            proof { lemma_extension_without_dot(name@); }
            e
        },
        Some(d) => {
            let mut k = d + 1;
            while k < name.len()
                invariant
                    d < k <= name.len(),
                    e@ == name@.subrange(d + 1, k as int),
                decreases name.len() - k,
            {
                e.push(name[k]);
                assert(name@.subrange(d + 1, k + 1) == name@.subrange(d + 1, k as int).push(name@[k as int]));
                k += 1;
            }
            proof { lemma_extension_after_dot(name@, d as int); }
            e
        },
    }
}

/// A name without a dot has no extension.
proof fn lemma_extension_without_dot(name: Seq<char>)
    requires
        !crate::text::has_char(name, '.'),
    ensures
        extension_of(name) == Seq::<char>::empty(),
{
}

/// The extension is what follows the last dot.
proof fn lemma_extension_after_dot(name: Seq<char>, d: int)
    requires
        0 <= d < name.len(),
        name[d] == '.',
        forall|k: int| d < k < name.len() ==> name[k] != '.',
    ensures
        extension_of(name) == name.subrange(d + 1, name.len() as int),
    decreases name.len(),
{
    if d == name.len() - 1 {
    } else {
        assert(crate::text::has_char(name, '.'));
        let p = name.drop_last();
        assert forall|k: int| d < k < p.len() implies p[k] != '.' by {
            assert(p[k] == name[k]);
        }
        lemma_extension_after_dot(p, d);
        assert(p.subrange(d + 1, p.len() as int).push(name.last()) =~= name.subrange(d + 1, name.len() as int));
    }
}

/// ASCII lower-casing of characters.
pub(crate) fn ascii_lower_chars(v: &Vec<char>) -> (r: Vec<char>)
    ensures
        r@ == ascii_lower_seq(v@),
{
    let mut r: Vec<char> = Vec::new();
    let mut i: usize = 0;
    while i < v.len()
        invariant
            i <= v.len(),
            r@ == ascii_lower_seq(v@.take(i as int)),
        decreases v.len() - i,
    {
        let c = v[i];
        let l = if 'A' <= c && c <= 'Z' {
            char_add_32(c)
        } else {
            c
        };
        assert(l == ascii_lower(c));
        r.push(l);
        assert(ascii_lower_seq(v@.take(i + 1)) =~= ascii_lower_seq(v@.take(i as int)).push(ascii_lower(c)));
        i += 1;
    }
    assert(v@.take(v.len() as int) == v@);
    r
}

/// An upper-case ASCII letter shifted to lower case.
fn char_add_32(c: char) -> (r: char)
    requires
        'A' <= c && c <= 'Z',
    ensures
        r == ((c as u32) + 32) as char,
{
    let u = (c as u32) + 32;
    assert(u < 128);
    let b = u as u8;
    b as char
}

/// Every entry of [`TEXT_EXTENSIONS`] is a previewed extension, the last included,
/// and nothing else is: a name is textual exactly when its ASCII-lower-cased
/// extension equals one of the listed entries.
pub proof fn law_textual_iff_listed(name: Seq<char>)
    ensures
        textual(name) <==> exists|k: int| 0 <= k < 14 && #[trigger] TEXT_EXTENSIONS@[k]@ == ascii_lower_seq(extension_of(name)),
{
    let ext = ascii_lower_seq(extension_of(name));
    assert forall|k: int| 0 <= k < 14 implies #[trigger] TEXT_EXTENSIONS@[k]@ == text_extensions()[k] by {
        reveal_strlit("sql");
        reveal_strlit("md");
        reveal_strlit("markdown");
        reveal_strlit("txt");
        reveal_strlit("text");
        reveal_strlit("csv");
        reveal_strlit("tsv");
        reveal_strlit("json");
        reveal_strlit("jsonl");
        reveal_strlit("yaml");
        reveal_strlit("yml");
        reveal_strlit("toml");
        reveal_strlit("ini");
        reveal_strlit("log");
    }
    if textual(name) {
        let k = choose|k: int| 0 <= k < text_extensions().len() && text_extensions()[k] == ext;
        assert(TEXT_EXTENSIONS@[k]@ == ext);
    }
    if exists|k: int| 0 <= k < 14 && #[trigger] TEXT_EXTENSIONS@[k]@ == ext {
        let k = choose|k: int| 0 <= k < 14 && #[trigger] TEXT_EXTENSIONS@[k]@ == ext;
        assert(text_extensions()[k] == ext);
    }
}

/// Whether a name (or path) is previewed as text, by its extension, ignoring ASCII case.
pub fn is_textual(name: &str) -> (r: bool)
    ensures
        r == textual(name@),
        r <==> exists|k: int| 0 <= k < 14 && #[trigger] TEXT_EXTENSIONS@[k]@ == ascii_lower_seq(extension_of(name@)),
{
    proof {
        law_textual_iff_listed(name@);
    }
    let chars = chars_of(name);
    let ext = crate::text::string_of(&ascii_lower_chars(&extension_chars(&chars)));
    let mut i: usize = 0;
    while i < 14
        invariant
            i <= 14,
            ext@ == ascii_lower_seq(extension_of(name@)),
            forall|k: int| 0 <= k < i ==> text_extensions()[k] != ext@,
        decreases 14 - i,
    {
        let candidate: &str = TEXT_EXTENSIONS[i];
        assert(candidate@ == text_extensions()[i as int]);
        if str_eq(candidate, ext.as_str()) {
            assert(text_extensions().len() == 14);
            assert(text_extensions()[i as int] == ext@);
            assert(text_extensions().contains(ext@));
            return true;
        }
        i += 1;
    }
    false
}

/// Whether the payload size allows a preview (an unknown size does).
pub fn size_allows_preview(file_size: Option<i64>) -> (r: bool)
    ensures
        r == match file_size {
            Some(size) => size <= PREVIEW_MAX_FILE_BYTES,
            None => true,
        },
{
    match file_size {
        Some(size) => size <= PREVIEW_MAX_FILE_BYTES,
        None => true,
    }
}

/// The pieces of a text between its `\n` characters (one more than there are `\n`).
pub open spec fn pieces(s: Seq<char>) -> Seq<Seq<char>>
    decreases s.len(),
{
    if s.len() == 0 {
        seq![Seq::<char>::empty()]
    } else {
        let p = pieces(s.drop_last());
        if s.last() == '\n' {
            p.push(Seq::empty())
        } else {
            p.update(p.len() - 1, p.last().push(s.last()))
        }
    }
}

/// One character of a preview line: `\r` dropped, a tab expanded to four spaces.
pub open spec fn clean_char(c: char) -> Seq<char> {
    if c == '\r' {
        Seq::empty()
    } else if c == '\t' {
        seq![' ', ' ', ' ', ' ']
    } else {
        seq![c]
    }
}

/// A preview line: every character cleaned.
pub open spec fn clean_line(l: Seq<char>) -> Seq<char>
    decreases l.len(),
{
    if l.len() == 0 {
        Seq::empty()
    } else {
        clean_line(l.drop_last()) + clean_char(l.last())
    }
}

/// Trailing empty lines removed.
pub open spec fn strip_trailing_empty(lines: Seq<Seq<char>>) -> Seq<Seq<char>>
    decreases lines.len(),
{
    if lines.len() > 0 && lines.last().len() == 0 {
        strip_trailing_empty(lines.drop_last())
    } else {
        lines
    }
}

/// All lines of a head, cleaned, without trailing empty lines.
pub open spec fn head_lines(head: Seq<char>) -> Seq<Seq<char>> {
    strip_trailing_empty(pieces(head).map_values(|l: Seq<char>| clean_line(l)))
}

/// The pieces are never empty.
proof fn lemma_pieces_nonempty(s: Seq<char>)
    ensures
        pieces(s).len() >= 1,
    decreases s.len(),
{
    if s.len() > 0 {
        lemma_pieces_nonempty(s.drop_last());
    }
}

/// The head that was read → the preview (text lines, cut to the limit).
///
/// Lines are split at `\n`; a `\r` is dropped and a tab becomes four spaces; trailing
/// empty lines are dropped. The preview is marked cut when the head is not the whole
/// file or has more lines than the limit.
pub fn from_head(head: &str, complete: bool) -> (p: Preview)
    ensures
        p matches Preview::Text { lines, truncated } && crate::seqs::views(lines@)
            == head_lines(head@).take(
            if head_lines(head@).len() > PREVIEW_MAX_LINES {
                PREVIEW_MAX_LINES as int
            } else {
                head_lines(head@).len() as int
            },
        ) && truncated == (!complete || head_lines(head@).len() > PREVIEW_MAX_LINES),
{
    let chars = chars_of(head);
    let ghost cleaned = |l: Seq<char>| clean_line(l);
    let mut done: Vec<String> = Vec::new();
    let mut current = String::new();
    let mut i: usize = 0;
    proof {
        reveal_strlit("    ");
    }
    assert(chars@.take(0) =~= Seq::<char>::empty());
    assert(clean_line(Seq::<char>::empty()) == Seq::<char>::empty());
    while i < chars.len()
        invariant
            i <= chars.len(),
            chars@ == head@,
            cleaned == (|l: Seq<char>| clean_line(l)),
            pieces(chars@.take(i as int)).map_values(cleaned) == crate::seqs::views(done@).push(current@),
        decreases chars.len() - i,
    {
        let c = chars[i];
        let ghost pre = chars@.take(i as int);
        let ghost p = pieces(pre);
        proof {
            lemma_pieces_nonempty(pre);
            assert(chars@.take(i + 1).drop_last() == pre);
            assert(chars@.take(i + 1).last() == c);
        }
        if c == '\n' {
            let ghost old_done = crate::seqs::views(done@);
            assert(p.map_values(cleaned)[p.len() - 1] == clean_line(p.last()));
            assert(p.map_values(cleaned).len() == p.len());
            assert(p.len() == old_done.len() + 1);
            assert(old_done.push(current@)[old_done.len() as int] == current@);
            assert(current@ == clean_line(p.last()));
            let finished = current;
            done.push(finished);
            current = String::new();
            assert(crate::seqs::views(done@) =~= old_done.push(clean_line(p.last())));
            assert(pieces(chars@.take(i + 1)).map_values(cleaned) =~= crate::seqs::views(done@).push(current@));
        } else {
            let ghost before = current@;
            assert(p.map_values(cleaned)[p.len() - 1] == clean_line(p.last()));
            assert(p.map_values(cleaned).len() == p.len());
            assert(p.len() == done@.len() + 1);
            assert(crate::seqs::views(done@).push(current@)[done@.len() as int] == current@);
            assert(before == clean_line(p.last()));
            if c == '\r' {
            } else if c == '\t' {
                proof {
                    reveal_strlit("    ");
                }
                push_str(&mut current, "    ");
            } else {
                push_char(&mut current, c);
            }
            assert(current@ =~= before + clean_char(c));
            assert(clean_line(p.last().push(c)) == clean_line(p.last()) + clean_char(c)) by {
                assert(p.last().push(c).drop_last() == p.last());
            }
            let ghost q = p.update(p.len() - 1, p.last().push(c));
            assert(pieces(chars@.take(i + 1)) == q);
            let ghost target = crate::seqs::views(done@).push(current@);
            assert forall|j: int| 0 <= j < q.len() implies #[trigger] q.map_values(cleaned)[j] == target[j] by {
                if j < q.len() - 1 {
                    assert(q[j] == p[j]);
                    assert(p.map_values(cleaned)[j] == crate::seqs::views(done@).push(before)[j]);
                }
            }
            assert(q.map_values(cleaned) =~= target);
        }
        i += 1;
    }
    assert(chars@.take(chars.len() as int) == chars@);
    done.push(current);
    let ghost all = crate::seqs::views(done@);
    assert(all == pieces(head@).map_values(cleaned));
    while done.len() > 0 && done[done.len() - 1].as_str().is_empty()
        invariant
            strip_trailing_empty(all) == strip_trailing_empty(crate::seqs::views(done@)),
        decreases done.len(),
    {
        let ghost before = crate::seqs::views(done@);
        done.pop();
        assert(crate::seqs::views(done@) =~= before.drop_last());
    }
    let ghost stripped = crate::seqs::views(done@);
    assert(strip_trailing_empty(stripped) == stripped);
    let truncated = !complete || done.len() > PREVIEW_MAX_LINES;
    if done.len() > PREVIEW_MAX_LINES {
        done.truncate(PREVIEW_MAX_LINES);
        assert(crate::seqs::views(done@) =~= stripped.take(PREVIEW_MAX_LINES as int));
    } else {
        assert(stripped.take(stripped.len() as int) =~= stripped);
    }
    Preview::Text { lines: done, truncated }
}

/// A preview never shows more than the line limit.
pub proof fn law_preview_line_limit(head: Seq<char>)
    ensures
        head_lines(head).take(
            if head_lines(head).len() > PREVIEW_MAX_LINES {
                PREVIEW_MAX_LINES as int
            } else {
                head_lines(head).len() as int
            },
        ).len() <= PREVIEW_MAX_LINES,
{
}

} // verus!
