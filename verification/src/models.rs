//! Registry records: resources, folders, tags, version rows and the request
//! records of the store, with instants held as plain seconds and nanoseconds.

use vstd::prelude::*;

verus! {

/// Largest distance from the epoch, in seconds, that an instant may have here:
/// about 253 000 years, inside the calendar range that `chrono` represents.
pub const INSTANT_SECS_LIMIT: i64 = 8_000_000_000_000;

/// One nanosecond short of a second.
pub const NANOS_PER_SEC: u32 = 1_000_000_000;

/// A UTC instant: whole seconds since the Unix epoch and the nanoseconds past them.
#[derive(Debug, Clone, Copy, PartialEq, Eq, Structural)]
pub struct Timestamp {
    pub secs: i64,
    pub nanos: u32,
}

impl Timestamp {
    /// An instant in range: nanoseconds below a second, seconds within
    /// [`INSTANT_SECS_LIMIT`] of the epoch.
    pub open spec fn wf(self) -> bool {
        &&& self.nanos < NANOS_PER_SEC
        &&& -INSTANT_SECS_LIMIT <= self.secs <= INSTANT_SECS_LIMIT
    }

    /// The instant in nanoseconds since the epoch.
    pub open spec fn total_nanos(self) -> int {
        self.secs * 1_000_000_000 + self.nanos
    }

    /// An instant from its parts; `None` when they are out of range.
    pub fn from_parts(secs: i64, nanos: u32) -> (r: Option<Timestamp>)
        ensures
            r matches Some(t) ==> t.secs == secs && t.nanos == nanos && t.wf(),
            r is None <==> !(Timestamp { secs, nanos }).wf(),
    {
        if nanos < NANOS_PER_SEC && -INSTANT_SECS_LIMIT <= secs && secs <= INSTANT_SECS_LIMIT {
            Some(Timestamp { secs, nanos })
        } else {
            None
        }
    }
}

/// An optional instant is in range when present.
pub open spec fn opt_wf(t: Option<Timestamp>) -> bool {
    match t {
        Some(v) => v.wf(),
        None => true,
    }
}

/// The instant that `chrono::DateTime::parse_from_rfc3339` reads from a text, as
/// seconds and nanoseconds since the epoch (UTC); `None` when it refuses the text.
pub uninterp spec fn rfc3339_instant(text: Seq<char>) -> Option<(i64, u32)>;

/// The instant that `chrono::NaiveDateTime::parse_from_str` with
/// `%Y-%m-%d %H:%M:%S` (SQLite's `CURRENT_TIMESTAMP`) reads from a text, taken as
/// UTC; `None` when it refuses the text.
pub uninterp spec fn sqlite_instant(text: Seq<char>) -> Option<(i64, u32)>;

/// Reads an RFC 3339 text with `chrono::DateTime::parse_from_rfc3339`; the result
/// is named [`rfc3339_instant`].
#[verifier::external_body]
fn chrono_rfc3339(text: &str) -> (r: Option<(i64, u32)>)
    ensures
        r == rfc3339_instant(text@),
{
    match chrono::DateTime::parse_from_rfc3339(text) {
        Ok(at) => Some((at.timestamp(), at.timestamp_subsec_nanos())),
        Err(_) => None,
    }
}

/// Reads a `YYYY-MM-DD HH:MM:SS` text with `chrono::NaiveDateTime::parse_from_str`
/// as UTC; the result is named [`sqlite_instant`].
#[verifier::external_body]
fn chrono_sqlite_datetime(text: &str) -> (r: Option<(i64, u32)>)
    ensures
        r == sqlite_instant(text@),
{
    match chrono::NaiveDateTime::parse_from_str(text, "%Y-%m-%d %H:%M:%S") {
        Ok(at) => Some((at.and_utc().timestamp(), at.and_utc().timestamp_subsec_nanos())),
        Err(_) => None,
    }
}

/// The instant a stored text stands for: RFC 3339 as the store writes it, else
/// SQLite's `CURRENT_TIMESTAMP` form (what the update trigger writes); `None`
/// when neither reads it or the instant is out of range.
pub open spec fn stored_instant(text: Seq<char>) -> Option<Timestamp> {
    let parts = match rfc3339_instant(text) {
        Some(p) => Some(p),
        None => sqlite_instant(text),
    };
    match parts {
        Some((secs, nanos)) => if (Timestamp { secs, nanos }).wf() {
            Some(Timestamp { secs, nanos })
        } else {
            None
        },
        None => None,
    }
}

/// Reads an instant stored as text (see [`stored_instant`]).
pub fn parse_stored_instant(text: &str) -> (r: Option<Timestamp>)
    ensures
        r == stored_instant(text@),
{
    let parts = match chrono_rfc3339(text) {
        Some(p) => Some(p),
        None => chrono_sqlite_datetime(text),
    };
    match parts {
        Some((secs, nanos)) => Timestamp::from_parts(secs, nanos),
        None => None,
    }
}

/// One row of the resource registry.
///
/// `config` keeps the configuration document as JSON text.
#[derive(Debug, Clone)]
pub struct AnalyticsResource {
    pub id: String,
    pub resource_type: String,
    pub name: String,
    pub alias: Option<String>,
    pub config: String,
    pub scope: String,
    pub row_count: Option<i32>,
    pub column_count: Option<i32>,
    pub file_size: Option<i32>,
    pub version: i32,
    pub parent_version_id: Option<String>,
    pub parent_resource_id: Option<String>,
    pub source_query: Option<String>,
    pub created_at: Timestamp,
    pub updated_at: Timestamp,
    pub created_by: Option<String>,
    pub deleted_at: Option<Timestamp>,
    /// Archive kind word: `file` / `analysis` / `table_ref`.
    pub kind: String,
    /// Content fingerprint; empty for old rows and references.
    pub content_hash: Option<String>,
    /// Payload path under `resources/`.
    pub file_rel_path: Option<String>,
    /// Read-only mark (non-zero once archived).
    pub readonly: i32,
    /// Draft the archive was promoted from.
    pub promoted_from: Option<String>,
    pub source_connection_id: Option<String>,
    /// Source table `schema.table`.
    pub source_table: Option<String>,
    /// Rebuild definition of an analysis table.
    pub definition_sql: Option<String>,
    /// Moment of archiving (distinct from `updated_at`).
    pub archived_at: Option<Timestamp>,
}

impl AnalyticsResource {
    /// Every instant of the row is in range.
    pub open spec fn wf(&self) -> bool {
        &&& self.created_at.wf()
        &&& self.updated_at.wf()
        &&& opt_wf(self.deleted_at)
        &&& opt_wf(self.archived_at)
    }
}

/// One folder (group) of the registry.
#[derive(Debug, Clone)]
pub struct AnalyticsFolder {
    pub id: String,
    pub name: String,
    pub scope: String,
    pub parent_folder_id: Option<String>,
    pub sort_order: i32,
    pub color: Option<String>,
    pub icon: Option<String>,
    pub created_at: Timestamp,
    pub updated_at: Timestamp,
    pub deleted_at: Option<Timestamp>,
}

/// One tag of the registry.
#[derive(Debug, Clone)]
pub struct AnalyticsTag {
    pub id: String,
    pub name: String,
    pub color: Option<String>,
    pub icon: Option<String>,
    pub scope: String,
    pub created_at: Timestamp,
    pub deleted_at: Option<Timestamp>,
}

/// One item of the registry's recycle list: what was deleted, by whom and when.
#[derive(Debug, Clone)]
pub struct AnalyticsRecycleItem {
    pub id: String,
    pub resource_id: String,
    pub resource_type: String,
    pub resource_name: String,
    /// The deleted record, as the JSON document the store keeps.
    pub resource_data: String,
    pub deleted_by: Option<String>,
    pub deleted_at: Timestamp,
}

/// What a version row's snapshot records of the resource at that time
/// (`None` fields: the snapshot did not carry them).
#[derive(Debug, Clone, PartialEq, Eq)]
pub struct VersionSnapshot {
    pub file_size: Option<i32>,
    pub content_hash: Option<String>,
}

/// One row of the version history.
///
/// `snapshot` is the parsed record of the resource at that version; `None` when
/// the stored document could not be read as one.
#[derive(Debug, Clone)]
pub struct ResourceVersion {
    pub id: String,
    pub resource_id: String,
    pub version: i32,
    pub snapshot: Option<VersionSnapshot>,
    pub created_at: Timestamp,
}

/// Input of a new registry row.
#[derive(Debug, Clone)]
pub struct CreateResourceRequest {
    pub resource_type: String,
    pub name: String,
    pub alias: Option<String>,
    pub config: String,
    pub scope: String,
    pub row_count: Option<i32>,
    pub column_count: Option<i32>,
    pub file_size: Option<i32>,
    pub parent_resource_id: Option<String>,
    pub source_query: Option<String>,
}

/// Input of a new folder.
#[derive(Debug, Clone, PartialEq, Eq)]
pub struct CreateFolderRequest {
    pub name: String,
    pub scope: String,
    pub parent_folder_id: Option<String>,
    pub color: Option<String>,
    pub icon: Option<String>,
}

/// Input of a new tag.
#[derive(Debug, Clone, PartialEq, Eq)]
pub struct CreateTagRequest {
    pub name: String,
    pub color: Option<String>,
    pub icon: Option<String>,
    pub scope: String,
}

/// One page of resources.
#[derive(Debug, Clone)]
pub struct ListResourcesOutput {
    pub items: Vec<AnalyticsResource>,
    pub total: i32,
    pub page: i32,
    pub page_size: i32,
    pub total_pages: i32,
}

/// What a trash entry held.
#[derive(Debug, Clone, Copy, PartialEq, Eq, Structural)]
pub enum TrashKind {
    File,
    Folder,
}

/// The record of one entry of the project trash, shared by the modules.
#[derive(Debug, Clone)]
pub struct TrashManifest {
    pub id: String,
    /// Name it had.
    pub name: String,
    /// The module that put it there (`resources` for this one).
    pub origin: String,
    /// Where it was, relative to the module's directory.
    pub original_rel_path: String,
    pub kind: TrashKind,
    pub deleted_at: Timestamp,
    /// Size in bytes (zero for folders).
    pub size: u64,
}

/// One entry of the project trash.
#[derive(Debug, Clone)]
pub struct TrashEntry {
    pub manifest: TrashManifest,
}

} // verus!
