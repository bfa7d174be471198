//! Rules of the registry store that hold without the database: the column list,
//! page clamping, `LIKE` escaping and size clamping.

use vstd::prelude::*;

use crate::model::ArchiveKind;
use crate::seqs::views;
use crate::text::{
    chars_of, join, join_strings, owned, push_char, push_str, split_chars, split_on, str_eq, string_of, trim, trimmed,
};

verus! {

/// The registry columns, in the order rows are read.
pub const RESOURCE_COLUMNS: &'static str = "id, resource_type, name, alias, config, scope, row_count, column_count, file_size, version, parent_version_id, parent_resource_id, source_query, created_at, updated_at, created_by, deleted_at, kind, content_hash, file_rel_path, readonly, promoted_from, source_connection_id, source_table, definition_sql, archived_at";

/// Largest page size.
pub const MAX_PAGE_SIZE: i32 = 500;

/// Each column prefixed with the table alias: `r.id, r.resource_type, …`.
pub open spec fn qualified_columns(alias: Seq<char>) -> Seq<char> {
    join(
        split_on(RESOURCE_COLUMNS@, ',').map_values(|c: Seq<char>| alias + "."@ + trim(c)),
        ", "@,
    )
}

/// The column list with every column prefixed by the table alias (for joins).
pub fn qualified_resource_columns(alias: &str) -> (s: String)
    ensures
        s@ == qualified_columns(alias@),
{
    let pieces = split_chars(&chars_of(RESOURCE_COLUMNS), ',');
    let ghost ps = pieces@.map_values(|p: Vec<char>| p@);
    let ghost want = split_on(RESOURCE_COLUMNS@, ',').map_values(|c: Seq<char>| alias@ + "."@ + trim(c));
    let mut parts: Vec<String> = Vec::new();
    let mut i: usize = 0;
    while i < pieces.len()
        invariant
            i <= pieces.len(),
            ps == pieces@.map_values(|p: Vec<char>| p@),
            ps == split_on(RESOURCE_COLUMNS@, ','),
            want == ps.map_values(|c: Seq<char>| alias@ + "."@ + trim(c)),
            views(parts@) == want.take(i as int),
        decreases pieces.len() - i,
    {
        let column = trimmed(string_of(&pieces[i]).as_str());
        let mut part = String::new();
        push_str(&mut part, alias);
        push_char(&mut part, '.');
        push_str(&mut part, column.as_str());
        proof {
            reveal_strlit(".");
            assert(alias@.push('.') == alias@ + "."@);
            assert(pieces@[i as int]@ == ps[i as int]);
            assert(part@ == alias@ + "."@ + trim(ps[i as int]));
        }
        let ghost prev = parts@;
        parts.push(part);
        assert(views(parts@) == views(prev).push(want[i as int]));
        assert(want.take(i + 1) == want.take(i as int).push(want[i as int]));
        i += 1;
    }
    assert(want.take(pieces.len() as int) == want);
    join_strings(&parts, ", ")
}

/// Page number at least 1, page size within `1..=MAX_PAGE_SIZE`.
pub open spec fn clamped_page(page: i32, page_size: i32) -> (i32, i32) {
    (
        if page < 1 { 1 } else { page },
        if page_size < 1 { 1 } else if page_size > MAX_PAGE_SIZE { MAX_PAGE_SIZE } else { page_size },
    )
}

/// Clamps paging arguments (a zero or negative page size would divide by zero or
/// lift the limit).
pub fn normalize_pagination(page: i32, page_size: i32) -> (r: (i32, i32))
    ensures
        r == clamped_page(page, page_size),
{
    let p = if page < 1 { 1 } else { page };
    let s = if page_size < 1 { 1 } else if page_size > MAX_PAGE_SIZE { MAX_PAGE_SIZE } else { page_size };
    (p, s)
}

/// The wildcards of `LIKE` and its escape character.
pub open spec fn like_special(c: char) -> bool {
    c == '%' || c == '_' || c == '\\'
}

/// A search term with `%`, `_` and `\` escaped by `\` (for `LIKE … ESCAPE '\'`).
pub open spec fn like_escaped(s: Seq<char>) -> Seq<char>
    decreases s.len(),
{
    if s.len() == 0 {
        Seq::empty()
    } else if like_special(s.last()) {
        like_escaped(s.drop_last()) + seq!['\\', s.last()]
    } else {
        like_escaped(s.drop_last()).push(s.last())
    }
}

/// Escapes a search term for `LIKE`, so that `%` matches itself and not everything.
pub fn escape_like(term: &str) -> (s: String)
    ensures
        s@ == like_escaped(term@),
{
    let v = chars_of(term);
    let mut out = String::new();
    let mut i: usize = 0;
    while i < v.len()
        invariant
            i <= v.len(),
            out@ == like_escaped(v@.take(i as int)),
        decreases v.len() - i,
    {
        let c = v[i];
        assert(v@.take(i + 1).drop_last() == v@.take(i as int));
        assert(v@.take(i + 1).last() == c);
        if c == '%' || c == '_' || c == '\\' {
            push_char(&mut out, '\\');
        }
        push_char(&mut out, c);
        i += 1;
    }
    assert(v@.take(v.len() as int) == v@);
    out
}

/// A size as stored: within `0..=i32::MAX` (larger files are recorded as 2 GiB).
pub open spec fn clamped_size(bytes: Option<i64>) -> Option<i64> {
    match bytes {
        Some(v) => Some(if v < 0 { 0 } else if v > 0x7fff_ffff { 0x7fff_ffff } else { v }),
        None => None,
    }
}

/// Clamps a size before it is written.
pub fn clamp_file_size(bytes: Option<i64>) -> (r: Option<i64>)
    ensures
        r == clamped_size(bytes),
{
    match bytes {
        Some(v) => Some(if v < 0 { 0 } else if v > 0x7fff_ffff { 0x7fff_ffff } else { v }),
        None => None,
    }
}

/// The resource type written for a kind.
pub open spec fn resource_type_word(kind: ArchiveKind) -> Seq<char> {
    crate::model::kind_db_word(kind)
}

/// The default resource type of a kind (its database word).
pub fn default_resource_type(kind: ArchiveKind) -> (s: String)
    ensures
        s@ == resource_type_word(kind),
{
    crate::text::owned(kind.as_db_str())
}

/// Reads a `LIKE` pattern as a literal: `Some` of the characters it stands for
/// when every `%` and `_` is escaped (each `\` takes the next character as is),
/// `None` when a wildcard or a dangling `\` remains.
pub open spec fn like_literal(t: Seq<char>) -> Option<Seq<char>>
    decreases t.len(),
{
    if t.len() == 0 {
        Some(Seq::empty())
    } else if t[0] == '\\' {
        if t.len() < 2 {
            None
        } else {
            match like_literal(t.skip(2)) {
                Some(rest) => Some(seq![t[1]] + rest),
                None => None,
            }
        }
    } else if t[0] == '%' || t[0] == '_' {
        None
    } else {
        match like_literal(t.skip(1)) {
            Some(rest) => Some(seq![t[0]] + rest),
            None => None,
        }
    }
}

proof fn lemma_like_literal_concat(x: Seq<char>, y: Seq<char>, a: Seq<char>, b: Seq<char>)
    requires
        like_literal(x) == Some(a),
        like_literal(y) == Some(b),
    ensures
        like_literal(x + y) == Some(a + b),
    decreases x.len(),
{
    if x.len() == 0 {
        assert(x + y =~= y);
        assert(a =~= Seq::<char>::empty());
        assert(a + b =~= b);
    } else if x[0] == '\\' {
        let rest = like_literal(x.skip(2)).unwrap();
        lemma_like_literal_concat(x.skip(2), y, rest, b);
        assert((x + y).skip(2) =~= x.skip(2) + y);
        assert((x + y)[0] == '\\' && (x + y)[1] == x[1]);
        assert(seq![x[1]] + (rest + b) =~= (seq![x[1]] + rest) + b);
    } else {
        let rest = like_literal(x.skip(1)).unwrap();
        lemma_like_literal_concat(x.skip(1), y, rest, b);
        assert((x + y).skip(1) =~= x.skip(1) + y);
        assert((x + y)[0] == x[0]);
        assert(seq![x[0]] + (rest + b) =~= (seq![x[0]] + rest) + b);
    }
}

/// An escaped search term, read as a `LIKE` pattern, stands for exactly the term:
/// no wildcard is left in it, so `%` typed by the user matches a `%` and not the
/// whole table.
pub proof fn law_escaped_term_is_literal(term: Seq<char>)
    ensures
        like_literal(like_escaped(term)) == Some(term),
    decreases term.len(),
{
    if term.len() > 0 {
        let front = term.drop_last();
        let c = term.last();
        law_escaped_term_is_literal(front);
        let tail = if like_special(c) { seq!['\\', c] } else { seq![c] };
        assert(like_literal(Seq::<char>::empty()) == Some(Seq::<char>::empty()));
        assert(seq![c] + Seq::<char>::empty() =~= seq![c]);
        if like_special(c) {
            assert(tail.skip(2) =~= Seq::<char>::empty());
            assert(tail[0] == '\\' && tail[1] == c && tail.len() == 2);
            assert(like_literal(tail) == Some(seq![c]));
            assert(like_escaped(term) == like_escaped(front) + tail);
        } else {
            assert(tail.skip(1) =~= Seq::<char>::empty());
            assert(tail[0] == c && tail.len() == 1);
            assert(like_literal(tail) == Some(seq![c]));
            assert(like_escaped(term) =~= like_escaped(front) + tail);
        }
        lemma_like_literal_concat(like_escaped(front), tail, front, seq![c]);
        assert(front + seq![c] =~= term);
    }
}

/// A bound value of a query.
#[derive(Debug, Clone, PartialEq, Eq)]
pub enum SqlParam {
    Text(String),
    Integer(i64),
}

/// The mathematical content of a bound value.
pub enum ParamView {
    Text(Seq<char>),
    Integer(i64),
}

/// The view of a bound value.
pub open spec fn param_view(p: SqlParam) -> ParamView {
    match p {
        SqlParam::Text(t) => ParamView::Text(t@),
        SqlParam::Integer(n) => ParamView::Integer(n),
    }
}

/// The views of bound values.
pub open spec fn params_view(s: Seq<SqlParam>) -> Seq<ParamView> {
    s.map_values(|p: SqlParam| param_view(p))
}

/// The search condition (name or alias contains the term).
pub open spec fn search_clause() -> Seq<char> {
    "(name LIKE ? ESCAPE '\\' OR alias LIKE ? ESCAPE '\\')"@
}

/// The folder condition.
pub open spec fn folder_clause() -> Seq<char> {
    "id IN (SELECT resource_id FROM analytics_resource_folder WHERE folder_id = ?)"@
}

/// The pattern a search term is matched with: anywhere in the text.
pub open spec fn like_pattern(term: Seq<char>) -> Seq<char> {
    "%"@ + like_escaped(term) + "%"@
}

/// The conditions of a page query: live rows, then each given restriction.
pub open spec fn page_clauses(
    scope: Option<Seq<char>>,
    resource_type: Option<Seq<char>>,
    folder_id: Option<Seq<char>>,
    search: Option<Seq<char>>,
) -> Seq<Seq<char>> {
    seq!["deleted_at IS NULL"@]
        + (if scope is Some { seq!["scope = ?"@] } else { Seq::empty() })
        + (if resource_type is Some { seq!["resource_type = ?"@] } else { Seq::empty() })
        + (if folder_id is Some { seq![folder_clause()] } else { Seq::empty() })
        + (if search is Some { seq![search_clause()] } else { Seq::empty() })
}

/// The values bound to the conditions, in order (the search pattern twice).
pub open spec fn page_params(
    scope: Option<Seq<char>>,
    resource_type: Option<Seq<char>>,
    folder_id: Option<Seq<char>>,
    search: Option<Seq<char>>,
) -> Seq<ParamView> {
    (match scope {
        Some(v) => seq![ParamView::Text(v)],
        None => Seq::empty(),
    }) + (match resource_type {
        Some(v) => seq![ParamView::Text(v)],
        None => Seq::empty(),
    }) + (match folder_id {
        Some(v) => seq![ParamView::Text(v)],
        None => Seq::empty(),
    }) + (match search {
        Some(q) => seq![ParamView::Text(like_pattern(q)), ParamView::Text(like_pattern(q))],
        None => Seq::empty(),
    })
}

/// The column a page is sorted by: one of five, `created_at` for anything else.
pub open spec fn sort_column(sort_by: Option<Seq<char>>) -> Seq<char> {
    match sort_by {
        Some(k) => if k == "name"@ || k == "created_at"@ || k == "updated_at"@ || k == "row_count"@ || k
            == "file_size"@ {
            k
        } else {
            "created_at"@
        },
        None => "created_at"@,
    }
}

/// The direction of a page: descending only when asked for `desc`.
pub open spec fn sort_direction(sort_order: Option<Seq<char>>) -> Seq<char> {
    if sort_order == Some("desc"@) {
        "DESC"@
    } else {
        "ASC"@
    }
}

/// A page query: the count and the select with their bound values, and the
/// clamped page.
pub struct PageQuery {
    pub count_sql: String,
    pub count_params: Vec<SqlParam>,
    pub select_sql: String,
    pub select_params: Vec<SqlParam>,
    pub page: i32,
    pub page_size: i32,
}

/// The view of an optional string slice.
pub open spec fn opt_str(v: Option<&str>) -> Option<Seq<char>> {
    match v {
        Some(t) => Some(t@),
        None => None,
    }
}

/// Appends a condition and its value when the value is given.
fn push_filter(clauses: &mut Vec<String>, params: &mut Vec<SqlParam>, clause: &str, value: Option<&str>)
    ensures
        views(final(clauses)@) == views(old(clauses)@) + (if value is Some { seq![clause@] } else { Seq::empty() }),
        params_view(final(params)@) == params_view(old(params)@) + (match value {
            Some(v) => seq![ParamView::Text(v@)],
            None => Seq::<ParamView>::empty(),
        }),
{
    match value {
        Some(v) => {
            let ghost c0 = clauses@;
            let ghost p0 = params@;
            clauses.push(owned(clause));
            params.push(SqlParam::Text(owned(v)));
            assert(views(clauses@) =~= views(c0) + seq![clause@]);
            assert(params_view(params@) =~= params_view(p0) + seq![ParamView::Text(v@)]);
        },
        None => {
            assert(views(clauses@) =~= views(clauses@) + Seq::<Seq<char>>::empty());
            assert(params_view(params@) =~= params_view(params@) + Seq::<ParamView>::empty());
        },
    }
}

/// A copy of bound values.
fn copy_params(v: &Vec<SqlParam>) -> (r: Vec<SqlParam>)
    ensures
        params_view(r@) == params_view(v@),
{
    let mut out: Vec<SqlParam> = Vec::new();
    let mut i: usize = 0;
    while i < v.len()
        invariant
            i <= v@.len(),
            params_view(out@) == params_view(v@).take(i as int),
        decreases v.len() - i,
    {
        let p = match &v[i] {
            SqlParam::Text(t) => SqlParam::Text(t.clone()),
            SqlParam::Integer(n) => SqlParam::Integer(*n),
        };
        let ghost before = out@;
        out.push(p);
        assert(params_view(out@) =~= params_view(before).push(param_view(v@[i as int])));
        assert(params_view(v@).take(i + 1) =~= params_view(v@).take(i as int).push(param_view(v@[i as int])));
        i += 1;
    }
    assert(params_view(v@).take(v@.len() as int) =~= params_view(v@));
    out
}

/// The queries of one page of live resources: the restrictions that are given
/// (scope, type, folder, a search in name or alias with its wildcards escaped),
/// the sort column taken from a fixed list (anything else sorts by creation),
/// ascending unless `desc` is asked, and the clamped page turned into a limit
/// and an offset.
pub fn page_query(
    scope: Option<&str>,
    resource_type: Option<&str>,
    folder_id: Option<&str>,
    search: Option<&str>,
    page: i32,
    page_size: i32,
    sort_by: Option<&str>,
    sort_order: Option<&str>,
) -> (q: PageQuery)
    requires
        (clamped_page(page, page_size).0 - 1) * clamped_page(page, page_size).1 <= i32::MAX,
    ensures
        (q.page, q.page_size) == clamped_page(page, page_size),
        ({
            let where_sql = "WHERE "@ + join(
                page_clauses(opt_str(scope), opt_str(resource_type), opt_str(folder_id), opt_str(search)),
                " AND "@,
            );
            &&& q.count_sql@ == "SELECT COUNT(*) FROM analytics_resources "@ + where_sql
            &&& q.select_sql@ == "SELECT "@ + RESOURCE_COLUMNS@ + " FROM analytics_resources "@ + where_sql
                + " ORDER BY "@ + sort_column(opt_str(sort_by)) + " "@ + sort_direction(opt_str(sort_order))
                + " LIMIT ? OFFSET ?"@
        }),
        params_view(q.count_params@) == page_params(
            opt_str(scope),
            opt_str(resource_type),
            opt_str(folder_id),
            opt_str(search),
        ),
        params_view(q.select_params@) == page_params(
            opt_str(scope),
            opt_str(resource_type),
            opt_str(folder_id),
            opt_str(search),
        ) + seq![ParamView::Integer(q.page_size as i64), ParamView::Integer(((q.page - 1) * q.page_size) as i64)],
{
    let (page, page_size) = normalize_pagination(page, page_size);
    let mut clauses: Vec<String> = vec![owned("deleted_at IS NULL")];
    assert(views(clauses@) =~= seq!["deleted_at IS NULL"@]);
    let mut params: Vec<SqlParam> = Vec::new();
    assert(params_view(params@) =~= Seq::<ParamView>::empty());
    push_filter(&mut clauses, &mut params, "scope = ?", scope);
    push_filter(&mut clauses, &mut params, "resource_type = ?", resource_type);
    push_filter(
        &mut clauses,
        &mut params,
        "id IN (SELECT resource_id FROM analytics_resource_folder WHERE folder_id = ?)",
        folder_id,
    );
    let ghost before_search = params_view(params@);
    let ghost clauses_before = views(clauses@);
    match search {
        Some(term) => {
            let mut pattern = owned("%");
            let escaped = escape_like(term);
            push_str(&mut pattern, escaped.as_str());
            push_str(&mut pattern, "%");
            clauses.push(owned("(name LIKE ? ESCAPE '\\' OR alias LIKE ? ESCAPE '\\')"));
            params.push(SqlParam::Text(pattern.clone()));
            params.push(SqlParam::Text(pattern));
            assert(views(clauses@) =~= clauses_before + seq![search_clause()]);
            assert(params_view(params@) =~= before_search + seq![
                ParamView::Text(like_pattern(term@)),
                ParamView::Text(like_pattern(term@)),
            ]);
        },
        None => {},
    }
    assert(views(clauses@) =~= page_clauses(opt_str(scope), opt_str(resource_type), opt_str(folder_id), opt_str(search)));
    assert(params_view(params@) =~= page_params(opt_str(scope), opt_str(resource_type), opt_str(folder_id), opt_str(search)));
    let mut where_sql = owned("WHERE ");
    let joined = join_strings(&clauses, " AND ");
    push_str(&mut where_sql, joined.as_str());
    let mut count_sql = owned("SELECT COUNT(*) FROM analytics_resources ");
    push_str(&mut count_sql, where_sql.as_str());
    let column = match sort_by {
        Some(k) => if str_eq(k, "name") || str_eq(k, "created_at") || str_eq(k, "updated_at") || str_eq(k, "row_count")
            || str_eq(k, "file_size") {
            k
        } else {
            "created_at"
        },
        None => "created_at",
    };
    let direction = match sort_order {
        Some(o) => if str_eq(o, "desc") { "DESC" } else { "ASC" },
        None => "ASC",
    };
    let mut select_sql = owned("SELECT ");
    push_str(&mut select_sql, RESOURCE_COLUMNS);
    push_str(&mut select_sql, " FROM analytics_resources ");
    push_str(&mut select_sql, where_sql.as_str());
    push_str(&mut select_sql, " ORDER BY ");
    push_str(&mut select_sql, column);
    push_str(&mut select_sql, " ");
    push_str(&mut select_sql, direction);
    push_str(&mut select_sql, " LIMIT ? OFFSET ?");
    assert(0 <= (page - 1) * page_size) by (nonlinear_arith)
        requires
            page >= 1,
            page_size >= 1,
    ;
    let offset: i32 = (page - 1) * page_size;
    let count_params = copy_params(&params);
    let ghost base = params_view(params@);
    params.push(SqlParam::Integer(page_size as i64));
    params.push(SqlParam::Integer(offset as i64));
    assert(params_view(params@) =~= base + seq![
        ParamView::Integer(page_size as i64),
        ParamView::Integer(((page - 1) * page_size) as i64),
    ]);
    PageQuery { count_sql, count_params, select_sql, select_params: params, page, page_size }
}

/// The number of pages of `total` rows: one page even when there is no row.
pub open spec fn pages_of(total: int, page_size: int) -> int {
    if total == 0 {
        1
    } else {
        (total + page_size - 1) / page_size
    }
}

/// How many pages `total` rows fill at `page_size` rows a page.
pub fn total_pages(total: i32, page_size: i32) -> (n: i32)
    requires
        total >= 0,
        page_size >= 1,
        total + page_size - 1 <= i32::MAX,
    ensures
        n == pages_of(total as int, page_size as int),
{
    if total == 0 {
        1
    } else {
        (total + (page_size - 1)) / page_size
    }
}

/// Whether the first row of the (clamped) page is addressable as an `i32` offset.
pub fn page_offset_fits(page: i32, page_size: i32) -> (r: bool)
    ensures
        r == ((clamped_page(page, page_size).0 - 1) * clamped_page(page, page_size).1 <= i32::MAX),
{
    let (p, s) = normalize_pagination(page, page_size);
    let a: i64 = p as i64 - 1;
    let b: i64 = s as i64;
    assert(0 <= a * b <= 0x7fff_ffff * 500) by (nonlinear_arith)
        requires
            0 <= a <= 0x7fff_ffff,
            1 <= b <= 500,
    ;
    a * b <= i32::MAX as i64
}

/// One page of a listing from the rows the page query returned and the count of
/// all matching rows: `None` when the count cannot be a row count (negative, or so
/// large that the number of pages does not fit an `i32`); otherwise the rows, the
/// count, the clamped page and size, and the number of pages (at least one).
pub fn page_output(
    items: Vec<crate::models::AnalyticsResource>,
    total: i32,
    page: i32,
    page_size: i32,
) -> (r: Option<crate::models::ListResourcesOutput>)
    ensures
        r is Some <==> total >= 0 && total + clamped_page(page, page_size).1 - 1 <= i32::MAX,
        r matches Some(out) ==> out.items@ == items@ && out.total == total && (out.page, out.page_size)
            == clamped_page(page, page_size) && out.total_pages == pages_of(total as int, out.page_size as int),
{
    let (p, s) = normalize_pagination(page, page_size);
    if total < 0 || total as i64 + s as i64 - 1 > i32::MAX as i64 {
        return None;
    }
    let n = total_pages(total, s);
    Some(crate::models::ListResourcesOutput { items, total, page: p, page_size: s, total_pages: n })
}

/// The conditions of the plain listing: live rows, then each given restriction.
pub open spec fn list_clauses(
    scope: Option<Seq<char>>,
    resource_type: Option<Seq<char>>,
    folder_id: Option<Seq<char>>,
) -> Seq<Seq<char>> {
    page_clauses(scope, resource_type, folder_id, None)
}

/// The query of all live resources with the given restrictions, newest first,
/// and its bound values.
pub fn list_query(scope: Option<&str>, resource_type: Option<&str>, folder_id: Option<&str>) -> (r: (
    String,
    Vec<SqlParam>,
))
    ensures
        r.0@ == "SELECT "@ + RESOURCE_COLUMNS@ + " FROM analytics_resources WHERE "@ + join(
            list_clauses(opt_str(scope), opt_str(resource_type), opt_str(folder_id)),
            " AND "@,
        ) + " ORDER BY created_at DESC"@,
        params_view(r.1@) == page_params(opt_str(scope), opt_str(resource_type), opt_str(folder_id), None),
{
    let mut clauses: Vec<String> = vec![owned("deleted_at IS NULL")];
    assert(views(clauses@) =~= seq!["deleted_at IS NULL"@]);
    let mut params: Vec<SqlParam> = Vec::new();
    assert(params_view(params@) =~= Seq::<ParamView>::empty());
    push_filter(&mut clauses, &mut params, "scope = ?", scope);
    push_filter(&mut clauses, &mut params, "resource_type = ?", resource_type);
    push_filter(
        &mut clauses,
        &mut params,
        "id IN (SELECT resource_id FROM analytics_resource_folder WHERE folder_id = ?)",
        folder_id,
    );
    assert(views(clauses@) =~= list_clauses(opt_str(scope), opt_str(resource_type), opt_str(folder_id)));
    assert(params_view(params@) =~= page_params(opt_str(scope), opt_str(resource_type), opt_str(folder_id), None));
    let mut sql = owned("SELECT ");
    push_str(&mut sql, RESOURCE_COLUMNS);
    push_str(&mut sql, " FROM analytics_resources WHERE ");
    let joined = join_strings(&clauses, " AND ");
    push_str(&mut sql, joined.as_str());
    push_str(&mut sql, " ORDER BY created_at DESC");
    (sql, params)
}

/// The name of a copy: the one asked for, else the original's with `（副本）`.
pub fn cloned_name(original: &str, new_name: Option<&str>) -> (s: String)
    ensures
        s@ == match new_name {
            Some(n) => n@,
            None => original@ + "（副本）"@,
        },
{
    match new_name {
        Some(n) => owned(n),
        None => {
            let mut s = owned(original);
            push_str(&mut s, "（副本）");
            s
        },
    }
}

/// Whatever is asked, a page is sorted by one of five known columns, in one of two
/// directions: nothing from the request reaches the query text there.
pub proof fn law_sort_is_whitelisted(sort_by: Option<Seq<char>>, sort_order: Option<Seq<char>>)
    ensures
        ({
            let c = sort_column(sort_by);
            c == "name"@ || c == "created_at"@ || c == "updated_at"@ || c == "row_count"@ || c == "file_size"@
        }),
        sort_direction(sort_order) == "ASC"@ || sort_direction(sort_order) == "DESC"@,
{
}

} // verus!
