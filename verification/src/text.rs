//! Text primitives shared by the formatting and matching rules.
//!
//! Every rule of the library that reads or writes text goes through here, so
//! that the models (`Seq<char>`) of trimming, case folding, substring search and
//! decimal rendering are stated once.

use vstd::prelude::*;

verus! {

// ---------------------------------------------------------------- models

/// Unicode `White_Space` (what `char::is_whitespace` answers).
pub open spec fn is_ws(c: char) -> bool {
    let u = c as u32;
    ||| (0x09 <= u && u <= 0x0D)
    ||| u == 0x20
    ||| u == 0x85
    ||| u == 0xA0
    ||| u == 0x1680
    ||| (0x2000 <= u && u <= 0x200A)
    ||| u == 0x2028
    ||| u == 0x2029
    ||| u == 0x202F
    ||| u == 0x205F
    ||| u == 0x3000
}

/// Leading whitespace removed.
pub open spec fn trim_start(s: Seq<char>) -> Seq<char>
    decreases s.len(),
{
    if s.len() > 0 && is_ws(s[0]) {
        trim_start(s.drop_first())
    } else {
        s
    }
}

/// Trailing whitespace removed.
pub open spec fn trim_end(s: Seq<char>) -> Seq<char>
    decreases s.len(),
{
    if s.len() > 0 && is_ws(s.last()) {
        trim_end(s.drop_last())
    } else {
        s
    }
}

/// Both ends trimmed (`str::trim`).
pub open spec fn trim(s: Seq<char>) -> Seq<char> {
    trim_end(trim_start(s))
}

/// Only whitespace (or nothing at all).
pub open spec fn is_blank(s: Seq<char>) -> bool {
    forall|i: int| 0 <= i < s.len() ==> #[trigger] is_ws(s[i])
}

/// Unicode lower-casing of a whole string (`str::to_lowercase`).
///
/// Not a per-character map (a final sigma folds by context), so the whole
/// string is the argument.
pub uninterp spec fn lowercase(s: Seq<char>) -> Seq<char>;

/// ASCII lower-casing of one character (`char::to_ascii_lowercase`).
pub open spec fn ascii_lower(c: char) -> char {
    if 'A' <= c && c <= 'Z' {
        ((c as u32) + 32) as char
    } else {
        c
    }
}

/// ASCII lower-casing of a string (`str::to_ascii_lowercase`).
pub open spec fn ascii_lower_seq(s: Seq<char>) -> Seq<char> {
    s.map_values(|c: char| ascii_lower(c))
}

/// `needle` occurs in `hay` at position `i`.
pub open spec fn occurs_at(hay: Seq<char>, needle: Seq<char>, i: int) -> bool {
    0 <= i && i + needle.len() <= hay.len() && hay.subrange(i, i + needle.len()) == needle
}

/// `needle` occurs somewhere in `hay` (`str::contains`); the empty needle always does.
pub open spec fn contains_seq(hay: Seq<char>, needle: Seq<char>) -> bool {
    exists|i: int| occurs_at(hay, needle, i)
}

/// `hay` contains the character `c`.
pub open spec fn has_char(hay: Seq<char>, c: char) -> bool {
    exists|i: int| 0 <= i < hay.len() && hay[i] == c
}

/// The decimal digit character of `d < 10`.
pub open spec fn digit(d: nat) -> char {
    (('0' as u32) + d) as char
}

/// Decimal rendering of a natural number, without leading zeros.
pub open spec fn dec(n: nat) -> Seq<char>
    decreases n,
{
    if n < 10 {
        seq![digit(n)]
    } else {
        dec(n / 10).push(digit(n % 10))
    }
}

/// Decimal rendering of an integer (`-` before the magnitude of a negative one).
pub open spec fn dec_int(n: int) -> Seq<char> {
    if n < 0 {
        seq!['-'].add(dec((-n) as nat))
    } else {
        dec(n as nat)
    }
}

/// Lexicographic order of character sequences by code point (the order of
/// `str` comparison, since UTF-8 preserves code point order).
pub open spec fn seq_lt(a: Seq<char>, b: Seq<char>) -> bool
    decreases a.len(),
{
    if a.len() == 0 {
        b.len() > 0
    } else if b.len() == 0 {
        false
    } else if a[0] == b[0] {
        seq_lt(a.drop_first(), b.drop_first())
    } else {
        a[0] < b[0]
    }
}

// ---------------------------------------------------------------- lemmas

/// Trimming never leaves whitespace at either end.
pub proof fn lemma_trim_start_props(s: Seq<char>)
    ensures
        trim_start(s).len() <= s.len(),
        trim_start(s).len() > 0 ==> !is_ws(trim_start(s)[0]),
        trim_start(s) == s.subrange(s.len() - trim_start(s).len(), s.len() as int),
        is_blank(s.subrange(0, s.len() - trim_start(s).len())),
    decreases s.len(),
{
    if s.len() > 0 && is_ws(s[0]) {
        lemma_trim_start_props(s.drop_first());
        let t = trim_start(s.drop_first());
        assert(s.drop_first().subrange(s.len() - 1 - t.len(), s.len() - 1)
            == s.subrange(s.len() - t.len(), s.len() as int));
        let pre = s.subrange(0, s.len() - t.len());
        let pre1 = s.drop_first().subrange(0, s.len() - 1 - t.len());
        assert forall|i: int| 0 <= i < pre.len() implies #[trigger] is_ws(pre[i]) by {
            if i > 0 {
                assert(pre[i] == pre1[i - 1]);
            }
        }
    } else {
        assert(s.subrange(0, s.len() as int) == s);
    }
}

/// Trailing trimming keeps a prefix.
pub proof fn lemma_trim_end_props(s: Seq<char>)
    ensures
        trim_end(s).len() <= s.len(),
        trim_end(s).len() > 0 ==> !is_ws(trim_end(s).last()),
        trim_end(s) == s.subrange(0, trim_end(s).len() as int),
        is_blank(s.subrange(trim_end(s).len() as int, s.len() as int)),
    decreases s.len(),
{
    if s.len() > 0 && is_ws(s.last()) {
        lemma_trim_end_props(s.drop_last());
        let t = trim_end(s.drop_last());
        assert(s.drop_last().subrange(0, t.len() as int) == s.subrange(0, t.len() as int));
        let post = s.subrange(t.len() as int, s.len() as int);
        let post1 = s.drop_last().subrange(t.len() as int, s.len() - 1);
        assert forall|i: int| 0 <= i < post.len() implies #[trigger] is_ws(post[i]) by {
            if i < post.len() - 1 {
                assert(post[i] == post1[i]);
            }
        }
    } else {
        assert(s.subrange(0, s.len() as int) == s);
    }
}

/// A trimmed string is empty exactly when the string is blank.
pub proof fn lemma_trim_empty_iff_blank(s: Seq<char>)
    ensures
        (trim(s).len() == 0) == is_blank(s),
{
    lemma_trim_start_props(s);
    let a = trim_start(s);
    lemma_trim_end_props(a);
    if trim(s).len() == 0 {
        let k = s.len() - a.len();
        assert forall|i: int| 0 <= i < s.len() implies #[trigger] is_ws(s[i]) by {
            if i < k {
                assert(s.subrange(0, k)[i] == s[i]);
            } else {
                assert(a.subrange(0, a.len() as int)[i - k] == a[i - k]);
                assert(a[i - k] == s[i]);
            }
        }
    } else {
        if is_blank(s) {
            if a.len() > 0 {
                assert(a[0] == s[s.len() - a.len()]);
            }
        }
    }
}

/// Whether a blank string trims to itself when empty.
pub proof fn lemma_blank_empty()
    ensures
        is_blank(Seq::<char>::empty()),
        trim(Seq::<char>::empty()) == Seq::<char>::empty(),
{
}

/// The decimal rendering is non-empty and consists of digits.
pub proof fn lemma_dec_nonempty(n: nat)
    ensures
        dec(n).len() >= 1,
    decreases n,
{
    if n >= 10 {
        lemma_dec_nonempty(n / 10);
    }
}

/// The pieces of `s` between its `sep` characters (one more than there are `sep`).
pub open spec fn split_on(s: Seq<char>, sep: char) -> Seq<Seq<char>>
    decreases s.len(),
{
    if s.len() == 0 {
        seq![Seq::<char>::empty()]
    } else {
        let p = split_on(s.drop_last(), sep);
        if s.last() == sep {
            p.push(Seq::empty())
        } else {
            p.update(p.len() - 1, p.last().push(s.last()))
        }
    }
}

/// There is always at least one piece.
pub proof fn lemma_split_on_nonempty(s: Seq<char>, sep: char)
    ensures
        split_on(s, sep).len() >= 1,
    decreases s.len(),
{
    if s.len() > 0 {
        lemma_split_on_nonempty(s.drop_last(), sep);
    }
}

/// Splits `v` at `sep` (`str::split`), pieces as texts.
pub fn split_chars(v: &Vec<char>, sep: char) -> (r: Vec<Vec<char>>)
    ensures
        r@.map_values(|p: Vec<char>| p@) == split_on(v@, sep),
{
    let mut done: Vec<Vec<char>> = Vec::new();
    let mut current: Vec<char> = Vec::new();
    let mut i: usize = 0;
    assert(v@.take(0) =~= Seq::<char>::empty());
    while i < v.len()
        invariant
            i <= v.len(),
            split_on(v@.take(i as int), sep) == done@.map_values(|p: Vec<char>| p@).push(current@),
        decreases v.len() - i,
    {
        let c = v[i];
        let ghost pre = v@.take(i as int);
        let ghost p = split_on(pre, sep);
        let ghost dv = done@.map_values(|p: Vec<char>| p@);
        proof {
            lemma_split_on_nonempty(pre, sep);
            assert(v@.take(i + 1).drop_last() == pre);
            assert(v@.take(i + 1).last() == c);
            assert(p.len() == dv.len() + 1);
            assert(dv.push(current@)[dv.len() as int] == current@);
        }
        if c == sep {
            let finished = current;
            done.push(finished);
            current = Vec::new();
            assert(done@.map_values(|p: Vec<char>| p@) =~= dv.push(p.last()));
            assert(split_on(v@.take(i + 1), sep) =~= done@.map_values(|p: Vec<char>| p@).push(current@));
        } else {
            let ghost before = current@;
            current.push(c);
            let ghost q = p.update(p.len() - 1, p.last().push(c));
            assert(split_on(v@.take(i + 1), sep) == q);
            let ghost target = dv.push(current@);
            assert forall|j: int| 0 <= j < q.len() implies #[trigger] q[j] == target[j] by {
                if j < q.len() - 1 {
                    assert(q[j] == p[j]);
                    assert(p[j] == dv.push(before)[j]);
                }
            }
            assert(q =~= target);
        }
        i += 1;
    }
    assert(v@.take(v.len() as int) == v@);
    let ghost dv = done@.map_values(|p: Vec<char>| p@);
    done.push(current);
    assert(done@.map_values(|p: Vec<char>| p@) =~= dv.push(current@));
    done
}

/// Three-way comparison of texts: `-1`, `0` or `1`.
pub open spec fn text_order(a: Seq<char>, b: Seq<char>) -> int {
    if seq_lt(a, b) {
        -1
    } else if a == b {
        0
    } else {
        1
    }
}

/// Exactly one of `a < b`, `a == b`, `b < a` holds.
pub proof fn lemma_seq_lt_trichotomy(a: Seq<char>, b: Seq<char>)
    ensures
        !(seq_lt(a, b) && seq_lt(b, a)),
        !(seq_lt(a, b) && a == b),
        seq_lt(a, b) || a == b || seq_lt(b, a),
    decreases a.len(),
{
    if a.len() > 0 && b.len() > 0 && a[0] == b[0] {
        lemma_seq_lt_trichotomy(a.drop_first(), b.drop_first());
        if a.drop_first() == b.drop_first() {
            assert(a =~= seq![a[0]] + a.drop_first());
            assert(b =~= seq![b[0]] + b.drop_first());
        }
    } else if a.len() == 0 && b.len() == 0 {
        assert(a =~= b);
    }
}

/// The order of texts is transitive.
pub proof fn lemma_seq_lt_trans(a: Seq<char>, b: Seq<char>, c: Seq<char>)
    requires
        seq_lt(a, b),
        seq_lt(b, c),
    ensures
        seq_lt(a, c),
    decreases a.len(),
{
    if a.len() > 0 && b.len() > 0 && c.len() > 0 && a[0] == b[0] && b[0] == c[0] {
        lemma_seq_lt_trans(a.drop_first(), b.drop_first(), c.drop_first());
    }
}

/// The three-way comparison of texts is antisymmetric and transitive.
pub proof fn lemma_text_order(a: Seq<char>, b: Seq<char>, c: Seq<char>)
    ensures
        text_order(a, b) == -text_order(b, a),
        text_order(a, a) == 0,
        (text_order(a, b) == 0) == (a == b),
        text_order(a, b) <= 0 && text_order(b, c) <= 0 ==> text_order(a, c) <= 0,
        text_order(a, b) < 0 && text_order(b, c) <= 0 ==> text_order(a, c) < 0,
        text_order(a, b) <= 0 && text_order(b, c) < 0 ==> text_order(a, c) < 0,
        -1 <= text_order(a, b) <= 1,
{
    lemma_seq_lt_trichotomy(a, b);
    lemma_seq_lt_trichotomy(b, c);
    lemma_seq_lt_trichotomy(a, c);
    lemma_seq_lt_trichotomy(a, a);
    if seq_lt(a, b) && seq_lt(b, c) {
        lemma_seq_lt_trans(a, b, c);
    }
}

/// The parts, with `sep` between each two of them.
pub open spec fn join(parts: Seq<Seq<char>>, sep: Seq<char>) -> Seq<char>
    decreases parts.len(),
{
    if parts.len() == 0 {
        Seq::empty()
    } else if parts.len() == 1 {
        parts[0]
    } else {
        join(parts.drop_last(), sep) + sep + parts.last()
    }
}

// ---------------------------------------------------------------- std wrappers

/// Appends one character to a string (`String::push`).
#[verifier::external_body]
pub(crate) fn push_char(s: &mut String, c: char)
    ensures
        final(s)@ == old(s)@.push(c),
{
    s.push(c);
}

/// Unicode lower-casing (`str::to_lowercase`); what it returns is named by [`lowercase`].
/// Its documentation maps each character to its lower-case mapping of one or more
/// characters, so the result is empty exactly when the argument is; that it is
/// idempotent is not promised and not claimed.
#[verifier::external_body]
pub(crate) fn to_lowercase(s: &str) -> (r: String)
    ensures
        r@ == lowercase(s@),
        r@.len() == 0 <==> s@.len() == 0,
{
    s.to_lowercase()
}

// ---------------------------------------------------------------- exec

/// Appends a string slice.
pub(crate) fn push_str(s: &mut String, t: &str)
    ensures
        final(s)@ == old(s)@ + t@,
{
    s.append(t);
}

/// The characters of a string slice, in order.
pub fn chars_of(s: &str) -> (v: Vec<char>)
    ensures
        v@ == s@,
{
    let mut v: Vec<char> = Vec::new();
    for c in it: s.chars()
        invariant
            v@ == it.seq().take(it.index() as int),
    {
        v.push(c);
    }
    v
}

/// A string made of the characters `v[from..to]`.
pub fn string_of_range(v: &Vec<char>, from: usize, to: usize) -> (s: String)
    requires
        from <= to <= v.len(),
    ensures
        s@ == v@.subrange(from as int, to as int),
{
    let mut s = String::new();
    let mut i = from;
    while i < to
        invariant
            from <= i <= to <= v.len(),
            s@ == v@.subrange(from as int, i as int),
        decreases to - i,
    {
        push_char(&mut s, v[i]);
        assert(v@.subrange(from as int, i + 1) == v@.subrange(from as int, i as int).push(v@[i as int]));
        i += 1;
    }
    s
}

/// A string made of the characters of `v`.
pub fn string_of(v: &Vec<char>) -> (s: String)
    ensures
        s@ == v@,
{
    let s = string_of_range(v, 0, v.len());
    assert(v@.subrange(0, v@.len() as int) == v@);
    s
}

/// An owned copy of a string slice.
pub fn owned(s: &str) -> (r: String)
    ensures
        r@ == s@,
{
    s.to_owned()
}

/// Whether `c` is Unicode whitespace.
pub fn char_is_ws(c: char) -> (b: bool)
    ensures
        b == is_ws(c),
{
    let u = c as u32;
    (0x09 <= u && u <= 0x0D) || u == 0x20 || u == 0x85 || u == 0xA0 || u == 0x1680 || (0x2000
        <= u && u <= 0x200A) || u == 0x2028 || u == 0x2029 || u == 0x202F || u == 0x205F || u
        == 0x3000
}

/// The bounds `[a, b)` of the trimmed part of `v`.
pub fn trim_bounds(v: &Vec<char>) -> (r: (usize, usize))
    ensures
        r.0 <= r.1 <= v.len(),
        v@.subrange(r.0 as int, r.1 as int) == trim(v@),
{
    let n = v.len();
    let mut i: usize = 0;
    assert(v@.subrange(0, n as int) == v@);
    while i < n && char_is_ws(v[i])
        invariant
            i <= n == v.len(),
            trim_start(v@) == trim_start(v@.subrange(i as int, n as int)),
        decreases n - i,
    {
        assert(v@.subrange(i as int, n as int).drop_first() == v@.subrange(i + 1, n as int));
        i += 1;
    }
    assert(trim_start(v@.subrange(i as int, n as int)) == v@.subrange(i as int, n as int));
    let ghost a = v@.subrange(i as int, n as int);
    let mut j: usize = n;
    while j > i && char_is_ws(v[j - 1])
        invariant
            i <= j <= n == v.len(),
            a == v@.subrange(i as int, n as int),
            trim_end(a) == trim_end(v@.subrange(i as int, j as int)),
        decreases j,
    {
        assert(v@.subrange(i as int, j as int).drop_last() == v@.subrange(i as int, j - 1));
        j -= 1;
    }
    (i, j)
}

/// `str::trim`, owned.
pub fn trimmed(s: &str) -> (r: String)
    ensures
        r@ == trim(s@),
{
    let v = chars_of(s);
    let (a, b) = trim_bounds(&v);
    string_of_range(&v, a, b)
}

/// Whether the text is blank (`s.trim().is_empty()`).
pub fn blank(s: &str) -> (b: bool)
    ensures
        b == is_blank(s@),
        b == (trim(s@).len() == 0),
{
    let v = chars_of(s);
    proof { lemma_trim_empty_iff_blank(s@); }
    let mut i: usize = 0;
    while i < v.len()
        invariant
            i <= v.len(),
            v@ == s@,
            forall|k: int| 0 <= k < i ==> #[trigger] is_ws(v@[k]),
        decreases v.len() - i,
    {
        if !char_is_ws(v[i]) {
            assert(!is_ws(s@[i as int]));
            proof { lemma_trim_empty_iff_blank(s@); }
            return false;
        }
        i += 1;
    }
    proof { lemma_trim_empty_iff_blank(s@); }
    true
}

/// Whether two character vectors are equal.
pub fn chars_eq(a: &Vec<char>, b: &Vec<char>) -> (r: bool)
    ensures
        r == (a@ == b@),
{
    if a.len() != b.len() {
        return false;
    }
    let mut i: usize = 0;
    while i < a.len()
        invariant
            i <= a.len() == b.len(),
            forall|k: int| 0 <= k < i ==> a@[k] == b@[k],
        decreases a.len() - i,
    {
        if a[i] != b[i] {
            return false;
        }
        i += 1;
    }
    assert(a@ =~= b@);
    true
}

/// Whether two strings are equal (`==` on `str`).
pub fn str_eq(a: &str, b: &str) -> (r: bool)
    ensures
        r == (a@ == b@),
{
    let va = chars_of(a);
    let vb = chars_of(b);
    chars_eq(&va, &vb)
}

/// Whether `needle` occurs in `hay` at position `i`.
fn occurs_at_exec(hay: &Vec<char>, needle: &Vec<char>, i: usize) -> (r: bool)
    requires
        i + needle.len() <= hay.len(),
    ensures
        r == occurs_at(hay@, needle@, i as int),
{
    let mut k: usize = 0;
    while k < needle.len()
        invariant
            k <= needle.len(),
            i + needle.len() <= hay.len(),
            forall|m: int| 0 <= m < k ==> hay@[i + m] == needle@[m],
        decreases needle.len() - k,
    {
        if hay[i + k] != needle[k] {
            assert(hay@.subrange(i as int, i + needle.len())[k as int] != needle@[k as int]);
            return false;
        }
        k += 1;
    }
    assert(hay@.subrange(i as int, i + needle.len()) =~= needle@);
    true
}

/// Substring search (`str::contains`).
pub fn contains_chars(hay: &Vec<char>, needle: &Vec<char>) -> (r: bool)
    ensures
        r == contains_seq(hay@, needle@),
{
    if needle.len() > hay.len() {
        assert forall|i: int| !occurs_at(hay@, needle@, i) by {}
        return false;
    }
    let mut i: usize = 0;
    let last = hay.len() - needle.len();
    while i < last
        invariant
            i <= last,
            last + needle.len() == hay.len(),
            forall|k: int| 0 <= k < i ==> !#[trigger] occurs_at(hay@, needle@, k),
        decreases last - i,
    {
        if occurs_at_exec(hay, needle, i) {
            return true;
        }
        i += 1;
    }
    if occurs_at_exec(hay, needle, last) {
        return true;
    }
    assert forall|k: int| !#[trigger] occurs_at(hay@, needle@, k) by {
        if 0 <= k && k < last {
        }
    }
    false
}

/// Whether `c` occurs in `v`.
pub fn has_char_exec(v: &Vec<char>, c: char) -> (r: bool)
    ensures
        r == has_char(v@, c),
{
    let mut i: usize = 0;
    while i < v.len()
        invariant
            i <= v.len(),
            forall|k: int| 0 <= k < i ==> v@[k] != c,
        decreases v.len() - i,
    {
        if v[i] == c {
            return true;
        }
        i += 1;
    }
    false
}

/// `d < 10` as its digit character.
fn digit_char(d: u64) -> (c: char)
    requires
        d < 10,
    ensures
        c == digit(d as nat),
{
    if d == 0 { '0' }
    else if d == 1 { '1' }
    else if d == 2 { '2' }
    else if d == 3 { '3' }
    else if d == 4 { '4' }
    else if d == 5 { '5' }
    else if d == 6 { '6' }
    else if d == 7 { '7' }
    else if d == 8 { '8' }
    else { '9' }
}

/// Decimal digits of `n`, appended to `s`.
pub fn push_dec(s: &mut String, n: u64)
    ensures
        final(s)@ == old(s)@ + dec(n as nat),
    decreases n,
{
    if n < 10 {
        push_char(s, digit_char(n));
        assert(dec(n as nat) == seq![digit(n as nat)]);
    } else {
        push_dec(s, n / 10);
        push_char(s, digit_char(n % 10));
        assert(old(s)@ + dec((n / 10) as nat) + seq![digit((n % 10) as nat)]
            == old(s)@ + dec(n as nat));
    }
}

/// Decimal digits of a signed integer, appended to `s` (`{}` on `i64`).
pub fn push_dec_i64(s: &mut String, n: i64)
    ensures
        final(s)@ == old(s)@ + dec_int(n as int),
{
    if n < 0 {
        push_char(s, '-');
        let m: u64 = if n == i64::MIN { 9223372036854775808u64 } else { (-n) as u64 };
        push_dec(s, m);
        assert(old(s)@.push('-') + dec(m as nat) == old(s)@ + (seq!['-'] + dec(m as nat)));
    } else {
        push_dec(s, n as u64);
    }
}

/// Lexicographic comparison by code point: `r < 0`, `0`, `> 0` as `a` is before, equal to,
/// or after `b`.
pub fn char_order(a: &Vec<char>, b: &Vec<char>) -> (r: i8)
    ensures
        (r < 0) == seq_lt(a@, b@),
        (r == 0) == (a@ == b@),
        (r > 0) == seq_lt(b@, a@),
{
    let mut i: usize = 0;
    assert(a@.skip(0) == a@);
    assert(b@.skip(0) == b@);
    while i < a.len() && i < b.len()
        invariant
            i <= a.len(),
            i <= b.len(),
            a@.subrange(0, i as int) == b@.subrange(0, i as int),
            seq_lt(a@, b@) == seq_lt(a@.skip(i as int), b@.skip(i as int)),
            seq_lt(b@, a@) == seq_lt(b@.skip(i as int), a@.skip(i as int)),
        decreases a.len() - i,
    {
        let ca = a[i];
        let cb = b[i];
        if ca != cb {
            assert(a@.skip(i as int)[0] == ca);
            assert(b@.skip(i as int)[0] == cb);
            if ca < cb {
                assert(a@.skip(i as int)[0] != b@.skip(i as int)[0]);
                assert(a@ != b@) by { assert(a@[i as int] != b@[i as int]); }
                return -1;
            } else {
                assert(cb < ca);
                assert(a@ != b@) by { assert(a@[i as int] != b@[i as int]); }
                return 1;
            }
        }
        assert(a@.skip(i as int).drop_first() == a@.skip(i + 1));
        assert(b@.skip(i as int).drop_first() == b@.skip(i + 1));
        assert(a@.subrange(0, i + 1) == a@.subrange(0, i as int).push(ca));
        assert(b@.subrange(0, i + 1) == b@.subrange(0, i as int).push(cb));
        i += 1;
    }
    if a.len() == b.len() {
        assert(a@ == a@.subrange(0, i as int));
        assert(b@ == b@.subrange(0, i as int));
        0
    } else if a.len() < b.len() {
        assert(a@.skip(i as int).len() == 0);
        assert(a@ != b@);
        -1
    } else {
        assert(b@.skip(i as int).len() == 0);
        assert(a@ != b@);
        1
    }
}

/// The strings of `parts`, joined by `sep`.
pub fn join_strings(parts: &Vec<String>, sep: &str) -> (r: String)
    ensures
        r@ == join(crate::seqs::views(parts@), sep@),
{
    let ghost all = crate::seqs::views(parts@);
    let mut out = String::new();
    let mut i: usize = 0;
    while i < parts.len()
        invariant
            i <= parts.len(),
            all == crate::seqs::views(parts@),
            out@ == join(all.take(i as int), sep@),
        decreases parts.len() - i,
    {
        if i > 0 {
            push_str(&mut out, sep);
        }
        push_str(&mut out, parts[i].as_str());
        proof {
            assert(all.take(i + 1).drop_last() == all.take(i as int));
            assert(all.take(i + 1).last() == parts@[i as int]@);
            if i == 0 {
                assert(all.take(1)[0] == parts@[0]@);
                assert(out@ == parts@[0]@);
            }
        }
        i += 1;
    }
    assert(all.take(parts.len() as int) == all);
    out
}

/// A non-empty run of ASCII digits.
pub open spec fn is_digit_run(s: Seq<char>) -> bool {
    s.len() > 0 && forall|i: int| 0 <= i < s.len() ==> '0' <= #[trigger] s[i] && s[i] <= '9'
}

/// The value of a run of decimal digits.
pub open spec fn digit_run_value(s: Seq<char>) -> int
    decreases s.len(),
{
    if s.len() == 0 {
        0
    } else {
        digit_run_value(s.drop_last()) * 10 + (s.last() as int - '0' as int)
    }
}

/// The integer a text spells: an optional `+` or `-`, then decimal digits.
pub open spec fn int_text_value(s: Seq<char>) -> Option<int> {
    if s.len() > 0 && (s[0] == '-' || s[0] == '+') {
        if is_digit_run(s.drop_first()) {
            Some(if s[0] == '-' { -digit_run_value(s.drop_first()) } else { digit_run_value(s.drop_first()) })
        } else {
            None
        }
    } else if is_digit_run(s) {
        Some(digit_run_value(s))
    } else {
        None
    }
}

/// What `str::parse::<i64>` gives: the spelled integer when it fits in `i64`.
pub open spec fn parsed_i64(s: Seq<char>) -> Option<i64> {
    match int_text_value(s) {
        Some(v) => if i64::MIN <= v <= i64::MAX {
            Some(v as i64)
        } else {
            None
        },
        None => None,
    }
}

/// Digits only grow a run's value.
proof fn lemma_digit_run_nonneg(s: Seq<char>)
    requires
        forall|i: int| 0 <= i < s.len() ==> '0' <= #[trigger] s[i] && s[i] <= '9',
    ensures
        digit_run_value(s) >= 0,
    decreases s.len(),
{
    if s.len() > 0 {
        lemma_digit_run_nonneg(s.drop_last());
    }
}

/// Parses a signed decimal integer that fits in `i64` (`str::parse::<i64>`).
pub fn parse_i64(text: &str) -> (r: Option<i64>)
    ensures
        r == parsed_i64(text@),
{
    let v = chars_of(text);
    let n = v.len();
    if n == 0 {
        return None;
    }
    let negative = v[0] == '-';
    let start: usize = if v[0] == '-' || v[0] == '+' { 1 } else { 0 };
    if start == n {
        return None;
    }
    let ghost digits = v@.skip(start as int);
    let cap: i128 = 9223372036854775809;
    let mut acc: i128 = 0;
    let mut i: usize = start;
    while i < n
        invariant
            start <= i <= n == v.len(),
            v@ == text@,
            n > 0,
            start == (if v@[0] == '-' || v@[0] == '+' { 1usize } else { 0usize }),
            negative == (v@[0] == '-'),
            digits == v@.skip(start as int),
            forall|k: int| 0 <= k < i - start ==> '0' <= #[trigger] digits[k] && digits[k] <= '9',
            cap == 9223372036854775809,
            0 <= acc <= cap,
            acc == (if digit_run_value(digits.take(i - start)) < cap {
                digit_run_value(digits.take(i - start))
            } else {
                cap as int
            }),
        decreases n - i,
    {
        let c = v[i];
        if c < '0' || c > '9' {
            assert(!is_digit_run(digits)) by {
                assert(digits[i - start] == c);
            };
            if start == 1 {
                assert(digits == v@.drop_first());
            } else {
                assert(digits == v@);
            }
            return None;
        }
        let d: i128 = (c as u32 - '0' as u32) as i128;
        proof {
            let prefix = digits.take(i - start);
            let next = digits.take(i - start + 1);
            assert(next.drop_last() == prefix);
            assert(next.last() == c);
            lemma_digit_run_nonneg(prefix);
        }
        if acc >= cap {
            acc = cap;
        } else {
            assert(0 <= acc < 9223372036854775809);
            assert(0 <= d <= 9);
            let grown: i128 = acc * 10 + d;
            acc = if grown < cap { grown } else { cap };
        }
        i += 1;
    }
    assert(digits.take(n - start) == digits);
    assert(is_digit_run(digits));
    if start == 0 {
        assert(v@.skip(0) == v@);
    }
    if negative {
        if acc <= 9223372036854775808 {
            Some((-acc) as i64)
        } else {
            None
        }
    } else {
        if acc <= 9223372036854775807 {
            Some(acc as i64)
        } else {
            None
        }
    }
}

} // verus!
