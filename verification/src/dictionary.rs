//! Rules of the folder and tag dictionaries of the registry: names are trimmed
//! and never blank, folders are one level deep, a live name is not taken twice
//! within a scope, and renaming to the current name changes nothing. The store
//! asks the database between the steps.

use vstd::prelude::*;

use crate::resource::{opt_str, params_view, ParamView, SqlParam};
use crate::text::{blank, is_blank, owned, push_str, str_eq, trim, trimmed};

verus! {

/// The two dictionaries.
#[derive(Debug, Clone, Copy, PartialEq, Eq, Structural)]
pub enum Dictionary {
    Folders,
    Tags,
}

/// The table of a dictionary.
pub open spec fn table_name(d: Dictionary) -> Seq<char> {
    match d {
        Dictionary::Folders => "analytics_folders"@,
        Dictionary::Tags => "analytics_tags"@,
    }
}

/// What an entry of a dictionary is called.
pub open spec fn noun(d: Dictionary) -> Seq<char> {
    match d {
        Dictionary::Folders => "分组"@,
        Dictionary::Tags => "标签"@,
    }
}

/// A refusal of the registry store: which table, which operation, and why.
#[derive(Debug, Clone, PartialEq, Eq)]
pub struct StoreRefusal {
    pub store: String,
    pub operation: String,
    pub reason: String,
}

/// The view of a refusal.
pub open spec fn refusal_view(e: StoreRefusal) -> (Seq<char>, Seq<char>, Seq<char>) {
    (e.store@, e.operation@, e.reason@)
}

impl Dictionary {
    /// The table.
    pub fn table(self) -> (r: &'static str)
        ensures
            r@ == table_name(self),
    {
        match self {
            Dictionary::Folders => "analytics_folders",
            Dictionary::Tags => "analytics_tags",
        }
    }

    /// What an entry is called.
    pub fn noun(self) -> (r: &'static str)
        ensures
            r@ == noun(self),
    {
        match self {
            Dictionary::Folders => "分组",
            Dictionary::Tags => "标签",
        }
    }
}

/// A refusal of `operation` on dictionary `d` for `reason`.
fn refusal(d: Dictionary, operation: &str, reason: String) -> (e: StoreRefusal)
    ensures
        refusal_view(e) == (table_name(d), operation@, reason@),
{
    StoreRefusal { store: owned(d.table()), operation: owned(operation), reason }
}

/// `<noun>名不能为空`.
pub open spec fn blank_name_text(d: Dictionary) -> Seq<char> {
    noun(d) + "名不能为空"@
}

/// What a new entry is named: the trimmed name; refused when blank, and a folder
/// refuses a parent (folders are one level deep).
pub open spec fn create_name_of(d: Dictionary, name: Seq<char>, has_parent: bool) -> Result<
    Seq<char>,
    (Seq<char>, Seq<char>, Seq<char>),
> {
    if is_blank(name) {
        Err((table_name(d), "insert"@, blank_name_text(d)))
    } else if d == Dictionary::Folders && has_parent {
        Err((table_name(d), "insert"@, "分组是单层的（没有子分组）——不能指定父分组"@))
    } else {
        Ok(trim(name))
    }
}

/// The name a new entry gets (the store then asks whether it is taken).
pub fn create_name(d: Dictionary, name: &str, parent_folder_id: Option<&str>) -> (r: Result<String, StoreRefusal>)
    ensures
        match r {
            Ok(n) => create_name_of(d, name@, parent_folder_id is Some) == Ok::<
                Seq<char>,
                (Seq<char>, Seq<char>, Seq<char>),
            >(n@),
            Err(e) => create_name_of(d, name@, parent_folder_id is Some) == Err::<
                Seq<char>,
                (Seq<char>, Seq<char>, Seq<char>),
            >(refusal_view(e)),
        },
{
    if blank(name) {
        let mut reason = owned(d.noun());
        push_str(&mut reason, "名不能为空");
        return Err(refusal(d, "insert", reason));
    }
    match (d, parent_folder_id) {
        (Dictionary::Folders, Some(_)) => Err(
            refusal(d, "insert", owned("分组是单层的（没有子分组）——不能指定父分组")),
        ),
        _ => Ok(trimmed(name)),
    }
}

/// The refusal when a live entry of the same name exists: `已经有同名<noun>「name」`.
pub fn taken_refusal(d: Dictionary, operation: &str, name: &str) -> (e: StoreRefusal)
    ensures
        refusal_view(e) == (table_name(d), operation@, "已经有同名"@ + noun(d) + "「"@ + name@ + "」"@),
{
    let mut reason = owned("已经有同名");
    push_str(&mut reason, d.noun());
    push_str(&mut reason, "「");
    push_str(&mut reason, name);
    push_str(&mut reason, "」");
    refusal(d, operation, reason)
}

/// The refusal when the entry to change is gone: `<noun>不存在或已删除`.
pub fn missing_refusal(d: Dictionary, operation: &str) -> (e: StoreRefusal)
    ensures
        refusal_view(e) == (table_name(d), operation@, noun(d) + "不存在或已删除"@),
{
    let mut reason = owned(d.noun());
    push_str(&mut reason, "不存在或已删除");
    refusal(d, operation, reason)
}

/// What a rename does.
#[derive(Debug, Clone, PartialEq, Eq)]
pub enum RenameStep {
    /// The new name is the current one: nothing to write.
    Unchanged,
    /// Rename to this (trimmed) name, once the store found it free.
    Rename(String),
}

/// What renaming an entry named `current` to `name` does: a blank name is
/// refused, the current name changes nothing, anything else is the trimmed name.
pub open spec fn rename_step_of(d: Dictionary, current: Seq<char>, name: Seq<char>) -> Result<
    Option<Seq<char>>,
    (Seq<char>, Seq<char>, Seq<char>),
> {
    if is_blank(name) {
        Err((table_name(d), "rename"@, blank_name_text(d)))
    } else if trim(name) == current {
        Ok(None)
    } else {
        Ok(Some(trim(name)))
    }
}

/// The view of a rename step.
pub open spec fn step_view(s: RenameStep) -> Option<Seq<char>> {
    match s {
        RenameStep::Unchanged => None,
        RenameStep::Rename(n) => Some(n@),
    }
}

/// The name a rename asks for, trimmed; refused when blank (checked before the
/// entry is even read).
pub fn rename_name(d: Dictionary, name: &str) -> (r: Result<String, StoreRefusal>)
    ensures
        match r {
            Ok(n) => !is_blank(name@) && n@ == trim(name@),
            Err(e) => is_blank(name@) && refusal_view(e) == (table_name(d), "rename"@, blank_name_text(d)),
        },
{
    if blank(name) {
        let mut reason = owned(d.noun());
        push_str(&mut reason, "名不能为空");
        return Err(refusal(d, "rename", reason));
    }
    Ok(trimmed(name))
}

/// What renaming an entry does (the store then asks whether the new name is taken).
pub fn rename_step(d: Dictionary, current: &str, name: &str) -> (r: Result<RenameStep, StoreRefusal>)
    ensures
        match r {
            Ok(s) => rename_step_of(d, current@, name@) == Ok::<
                Option<Seq<char>>,
                (Seq<char>, Seq<char>, Seq<char>),
            >(step_view(s)),
            Err(e) => rename_step_of(d, current@, name@) == Err::<
                Option<Seq<char>>,
                (Seq<char>, Seq<char>, Seq<char>),
            >(refusal_view(e)),
        },
{
    if blank(name) {
        let mut reason = owned(d.noun());
        push_str(&mut reason, "名不能为空");
        return Err(refusal(d, "rename", reason));
    }
    let trimmed_name = trimmed(name);
    if str_eq(trimmed_name.as_str(), current) {
        Ok(RenameStep::Unchanged)
    } else {
        Ok(RenameStep::Rename(trimmed_name))
    }
}

/// The columns of a folder row, in the order rows are read.
pub const FOLDER_COLUMNS: &'static str = "id, name, scope, parent_folder_id, sort_order, color, icon, created_at, updated_at, deleted_at";

/// The columns of a tag row, in the order rows are read.
pub const TAG_COLUMNS: &'static str = "id, name, color, icon, scope, created_at, deleted_at";

/// The query of the live folders of a scope (any scope when none is given) under
/// a parent (the top level when none is given), by sort order then name.
pub fn folder_list_query(scope: Option<&str>, parent_folder_id: Option<&str>) -> (r: (String, Vec<SqlParam>))
    ensures
        r.0@ == "SELECT "@ + FOLDER_COLUMNS@ + " FROM analytics_folders WHERE deleted_at IS NULL"@
            + (if scope is Some { " AND scope = ?"@ } else { Seq::empty() })
            + (if parent_folder_id is Some { " AND parent_folder_id = ?"@ } else { " AND parent_folder_id IS NULL"@ })
            + " ORDER BY sort_order ASC, name ASC"@,
        params_view(r.1@) == (match opt_str(scope) {
            Some(v) => seq![ParamView::Text(v)],
            None => Seq::<ParamView>::empty(),
        }) + (match opt_str(parent_folder_id) {
            Some(v) => seq![ParamView::Text(v)],
            None => Seq::<ParamView>::empty(),
        }),
{
    let mut sql = owned("SELECT ");
    push_str(&mut sql, FOLDER_COLUMNS);
    push_str(&mut sql, " FROM analytics_folders WHERE deleted_at IS NULL");
    let mut params: Vec<SqlParam> = Vec::new();
    let ghost empty = params_view(params@);
    assert(empty =~= Seq::<ParamView>::empty());
    let ghost s0 = sql@;
    match scope {
        Some(v) => {
            push_str(&mut sql, " AND scope = ?");
            params.push(SqlParam::Text(owned(v)));
            assert(params_view(params@) =~= seq![ParamView::Text(v@)]);
        },
        None => {
            assert(sql@ =~= s0 + Seq::<char>::empty());
        },
    }
    let ghost s1 = sql@;
    let ghost p1 = params_view(params@);
    match parent_folder_id {
        Some(v) => {
            push_str(&mut sql, " AND parent_folder_id = ?");
            params.push(SqlParam::Text(owned(v)));
            assert(params_view(params@) =~= p1 + seq![ParamView::Text(v@)]);
        },
        None => {
            push_str(&mut sql, " AND parent_folder_id IS NULL");
            assert(params_view(params@) =~= p1 + Seq::<ParamView>::empty());
        },
    }
    push_str(&mut sql, " ORDER BY sort_order ASC, name ASC");
    (sql, params)
}

/// The query of the live tags of a scope (any scope when none is given), by name.
pub fn tag_list_query(scope: Option<&str>) -> (r: (String, Vec<SqlParam>))
    ensures
        r.0@ == "SELECT "@ + TAG_COLUMNS@ + " FROM analytics_tags WHERE deleted_at IS NULL"@
            + (if scope is Some { " AND scope = ?"@ } else { Seq::empty() }) + " ORDER BY name ASC"@,
        params_view(r.1@) == match opt_str(scope) {
            Some(v) => seq![ParamView::Text(v)],
            None => Seq::<ParamView>::empty(),
        },
{
    let mut sql = owned("SELECT ");
    push_str(&mut sql, TAG_COLUMNS);
    push_str(&mut sql, " FROM analytics_tags WHERE deleted_at IS NULL");
    let mut params: Vec<SqlParam> = Vec::new();
    let ghost s0 = sql@;
    match scope {
        Some(v) => {
            push_str(&mut sql, " AND scope = ?");
            params.push(SqlParam::Text(owned(v)));
            assert(params_view(params@) =~= seq![ParamView::Text(v@)]);
        },
        None => {
            assert(sql@ =~= s0 + Seq::<char>::empty());
            assert(params_view(params@) =~= Seq::<ParamView>::empty());
        },
    }
    push_str(&mut sql, " ORDER BY name ASC");
    (sql, params)
}

/// Renaming to a name that differs from the current one only by surrounding
/// whitespace changes nothing.
pub proof fn law_rename_to_same_name_is_unchanged(d: Dictionary, current: Seq<char>, name: Seq<char>)
    requires
        !is_blank(name),
        trim(name) == current,
    ensures
        rename_step_of(d, current, name) == Ok::<Option<Seq<char>>, (Seq<char>, Seq<char>, Seq<char>)>(None),
{
}

} // verus!
