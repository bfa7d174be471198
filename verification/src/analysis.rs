//! Fingerprint of analysis archives: definition plus column structure; the row
//! count is metadata only (a table that grows is not a changed archive).

use vstd::prelude::*;

use sha2::Digest;

use crate::text::{push_char, push_str};

verus! {

/// One column: name and type. Order matters (it is the `SELECT *` order).
#[derive(Debug, Clone, PartialEq, Eq)]
pub struct ColumnSpec {
    pub name: String,
    pub data_type: String,
}

impl ColumnSpec {
    /// A column from its name and type.
    pub fn new(name: &str, data_type: &str) -> (c: ColumnSpec)
        ensures
            c.name@ == name@,
            c.data_type@ == data_type@,
    {
        ColumnSpec { name: crate::text::owned(name), data_type: crate::text::owned(data_type) }
    }
}

/// Facts of an analysis table, as the host read them.
#[derive(Debug, Clone, PartialEq, Eq)]
pub struct AnalysisFacts {
    /// Definition (the recipe).
    pub definition_sql: Option<String>,
    /// Columns in declared order.
    pub columns: Vec<ColumnSpec>,
    /// Row count (metadata only; not in the fingerprint).
    pub row_count: Option<i64>,
}

impl Default for AnalysisFacts {
    fn default() -> (f: Self)
        ensures
            f.definition_sql is None,
            f.columns@.len() == 0,
            f.row_count is None,
    {
        AnalysisFacts { definition_sql: None, columns: Vec::new(), row_count: None }
    }
}

/// The columns as (name, type) texts.
pub open spec fn columns_view(columns: Seq<ColumnSpec>) -> Seq<(Seq<char>, Seq<char>)> {
    columns.map_values(|c: ColumnSpec| (c.name@, c.data_type@))
}

/// One line per column, `name\ttype`, joined by `\n`, in declared order.
pub open spec fn digest_of(columns: Seq<(Seq<char>, Seq<char>)>) -> Seq<char>
    decreases columns.len(),
{
    if columns.len() == 0 {
        Seq::empty()
    } else {
        let line = columns.last().0 + seq!['\t'] + columns.last().1;
        if columns.len() == 1 {
            line
        } else {
            digest_of(columns.drop_last()) + seq!['\n'] + line
        }
    }
}

/// The definition text, empty when absent.
pub open spec fn definition_text(o: Option<String>) -> Seq<char> {
    match o {
        Some(d) => d@,
        None => Seq::empty(),
    }
}

/// SHA-256 of a byte string (what `sha2::Sha256` gives over it).
pub uninterp spec fn sha256(data: Seq<u8>) -> Seq<u8>;

/// The lower-case hex digit of a nibble.
pub open spec fn hex_digit(n: u8) -> char {
    if n < 10 {
        (('0' as u8) + n) as char
    } else {
        (('a' as u8) + n - 10) as char
    }
}

/// Lower-case hex of a byte string, two digits per byte, high nibble first.
pub open spec fn hex_lower(data: Seq<u8>) -> Seq<char>
    decreases data.len(),
{
    if data.len() == 0 {
        Seq::empty()
    } else {
        hex_lower(data.drop_last()) + seq![hex_digit(data.last() / 16), hex_digit(data.last() % 16)]
    }
}

/// The UTF-8 bytes of a text.
pub open spec fn utf8(s: Seq<char>) -> Seq<u8> {
    vstd::utf8::encode_utf8(s)
}

/// The fingerprint: hex of SHA-256 over the definition (empty when absent), one NUL
/// byte, and the structure digest.
pub open spec fn fingerprint_of(definition: Option<Seq<char>>, columns: Seq<(Seq<char>, Seq<char>)>) -> Seq<char> {
    let def = match definition {
        Some(d) => d,
        None => Seq::empty(),
    };
    hex_lower(sha256(utf8(def) + seq![0u8] + utf8(digest_of(columns))))
}

/// SHA-256 of `data` (`sha2::Sha256::digest`); its result is named by [`sha256`].
/// The digest is 32 bytes long.
#[verifier::external_body]
pub(crate) fn sha256_digest(data: &[u8]) -> (r: Vec<u8>)
    ensures
        r@ == sha256(data@),
        r@.len() == 32,
{
    <sha2::Sha256 as Digest>::digest(data).to_vec()
}

/// Lower-case hex encoding (`hex::encode`): for each byte, the digit of its high
/// nibble then of its low nibble, from `0123456789abcdef`.
#[verifier::external_body]
pub(crate) fn hex_encode(data: &[u8]) -> (r: String)
    ensures
        r@ == hex_lower(data@),
{
    hex::encode(data)
}

/// Appends the UTF-8 bytes of `s` to `out`.
fn push_utf8(out: &mut Vec<u8>, s: &str)
    ensures
        final(out)@ == old(out)@ + utf8(s@),
{
    let bytes = s.as_bytes();
    let mut i: usize = 0;
    while i < bytes.len()
        invariant
            i <= bytes.len(),
            bytes@ == utf8(s@),
            out@ == old(out)@ + bytes@.take(i as int),
        decreases bytes.len() - i,
    {
        out.push(bytes[i]);
        assert(bytes@.take(i + 1) == bytes@.take(i as int).push(bytes@[i as int]));
        i += 1;
    }
    assert(bytes@.take(bytes.len() as int) == bytes@);
}

impl AnalysisFacts {
    /// Facts from what the engine probed: (name, type) pairs become columns.
    pub fn from_probe(
        definition_sql: Option<String>,
        columns: Vec<(String, String)>,
        row_count: Option<i64>,
    ) -> (f: AnalysisFacts)
        ensures
            f.definition_sql == definition_sql,
            f.row_count == row_count,
            columns_view(f.columns@) == columns@.map_values(|p: (String, String)| (p.0@, p.1@)),
    {
        let mut out: Vec<ColumnSpec> = Vec::new();
        let mut i: usize = 0;
        while i < columns.len()
            invariant
                i <= columns.len(),
                columns_view(out@) == columns@.take(i as int).map_values(
                    |p: (String, String)| (p.0@, p.1@),
                ),
            decreases columns.len() - i,
        {
            let ghost prev = columns_view(out@);
            let name = columns[i].0.clone();
            let data_type = columns[i].1.clone();
            assert(name@ == columns@[i as int].0@ && data_type@ == columns@[i as int].1@);
            out.push(ColumnSpec { name, data_type });
            assert(columns_view(out@) =~= prev.push((columns@[i as int].0@, columns@[i as int].1@)));
            assert(columns_view(out@) =~= columns@.take(i + 1).map_values(
                |p: (String, String)| (p.0@, p.1@),
            ));
            i += 1;
        }
        assert(columns@.take(columns.len() as int) == columns@);
        AnalysisFacts { definition_sql, columns: out, row_count }
    }

    /// Column count, capped at `i32::MAX`.
    pub fn column_count(&self) -> (n: i32)
        ensures
            n as int == if self.columns@.len() > i32::MAX { i32::MAX as int } else {
                self.columns@.len() as int
            },
    {
        if self.columns.len() > 2147483647usize {
            2147483647i32
        } else {
            self.columns.len() as i32
        }
    }

    /// Structure digest: `name\ttype` per column, joined by `\n`, in declared order,
    /// case kept.
    pub fn structure_digest(&self) -> (s: String)
        ensures
            s@ == digest_of(columns_view(self.columns@)),
    {
        let ghost cols = columns_view(self.columns@);
        let mut s = String::new();
        let mut i: usize = 0;
        while i < self.columns.len()
            invariant
                i <= self.columns.len(),
                cols == columns_view(self.columns@),
                s@ == digest_of(cols.take(i as int)),
            decreases self.columns.len() - i,
        {
            if i > 0 {
                push_char(&mut s, '\n');
            }
            push_str(&mut s, self.columns[i].name.as_str());
            push_char(&mut s, '\t');
            push_str(&mut s, self.columns[i].data_type.as_str());
            assert(cols.take(i + 1).drop_last() == cols.take(i as int));
            assert(cols.take(i + 1).last() == cols[i as int]);
            i += 1;
        }
        assert(cols.take(self.columns.len() as int) == cols);
        s
    }

    /// Fingerprint: SHA-256 over definition, a NUL, and the structure digest, in
    /// lower-case hex. The row count is not part of it.
    pub fn fingerprint(&self) -> (s: String)
        ensures
            s@ == fingerprint_of(
                match self.definition_sql {
                    Some(d) => Some(d@),
                    None => None,
                },
                columns_view(self.columns@),
            ),
    {
        let ghost def = definition_text(self.definition_sql);
        let mut data: Vec<u8> = Vec::new();
        match &self.definition_sql {
            Some(d) => push_utf8(&mut data, d.as_str()),
            None => {
                proof {
                    reveal_strlit("");
                }
                push_utf8(&mut data, "");
                assert(utf8(""@) == utf8(Seq::<char>::empty()));
            },
        }
        assert(data@ =~= utf8(def));
        data.push(0u8);
        let digest = self.structure_digest();
        push_utf8(&mut data, digest.as_str());
        assert(data@ =~= utf8(def) + seq![0u8] + utf8(digest_of(columns_view(self.columns@))));
        let hash = sha256_digest(data.as_slice());
        hex_encode(hash.as_slice())
    }
}

/// Two fact sets that differ only in row count have the same fingerprint.
pub proof fn law_row_count_not_in_fingerprint(a: AnalysisFacts, b: AnalysisFacts)
    requires
        a.definition_sql == b.definition_sql,
        columns_view(a.columns@) == columns_view(b.columns@),
    ensures
        fingerprint_of(
            match a.definition_sql {
                Some(d) => Some(d@),
                None => None,
            },
            columns_view(a.columns@),
        ) == fingerprint_of(
            match b.definition_sql {
                Some(d) => Some(d@),
                None => None,
            },
            columns_view(b.columns@),
        ),
{
}

/// Explanation of what an analysis fingerprint covers (tooltip).
pub const FINGERPRINT_HINT: &'static str = "分析表指纹 = 定义 + 列结构；行数变化不算内容变化";

/// Wording of "content changed" for analysis archives.
pub const STRUCTURE_CHANGED_NOTE: &'static str = "结构或定义与归档时不同";

} // verus!
