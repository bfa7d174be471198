//! Domain model of archives: kind, reproduction strength, payload status, the
//! retention policy of content copies, and the records that requests and
//! outcomes carry.

use vstd::prelude::*;

use crate::analysis::AnalysisFacts;
use crate::text::{dec, push_dec, push_str};

verus! {

/// Where an archive's payload lives, which decides how well it can be reproduced.
#[derive(Debug, Clone, Copy, PartialEq, Eq, Structural)]
pub enum ArchiveKind {
    /// A managed file under `resources/`, read-only once archived.
    File,
    /// An analysis table, rebuilt from its definition.
    Analysis,
    /// A reference to a remote table.
    TableRef,
}

impl Default for ArchiveKind {
    fn default() -> (k: Self)
        ensures
            k == ArchiveKind::File,
    {
        ArchiveKind::File
    }
}

/// How well an archive can be reproduced later.
#[derive(Debug, Clone, Copy, PartialEq, Eq, Structural)]
pub enum ReproductionStrength {
    /// Content frozen.
    Strong,
    /// Definition frozen, data rebuildable.
    Medium,
    /// Only where it pointed at the time.
    Weak,
}

/// Payload health, from comparing the registry with the file system.
#[derive(Debug, Clone, Copy, PartialEq, Eq, Structural)]
pub enum ArchiveStatus {
    Normal,
    Missing,
    ContentChanged,
}

/// The database word of a kind.
pub open spec fn kind_db_word(kind: ArchiveKind) -> Seq<char> {
    match kind {
        ArchiveKind::File => "file"@,
        ArchiveKind::Analysis => "analysis"@,
        ArchiveKind::TableRef => "table_ref"@,
    }
}

/// The kind a database word reads as: unknown words fall back to `File`.
pub open spec fn kind_of_db_word(word: Seq<char>) -> ArchiveKind {
    if word == "analysis"@ {
        ArchiveKind::Analysis
    } else if word == "table_ref"@ {
        ArchiveKind::TableRef
    } else {
        ArchiveKind::File
    }
}

/// The interface word of a kind (where the payload lives).
pub open spec fn kind_menu_label(kind: ArchiveKind) -> Seq<char> {
    match kind {
        ArchiveKind::File => "文件"@,
        ArchiveKind::Analysis => "分析表"@,
        ArchiveKind::TableRef => "引用"@,
    }
}

/// The strength that a kind gives.
pub open spec fn kind_strength(kind: ArchiveKind) -> ReproductionStrength {
    match kind {
        ArchiveKind::File => ReproductionStrength::Strong,
        ArchiveKind::Analysis => ReproductionStrength::Medium,
        ArchiveKind::TableRef => ReproductionStrength::Weak,
    }
}

impl ArchiveKind {
    /// All kinds, in the order of the filter menu and of the status line.
    pub const ALL: [ArchiveKind; 3] = [ArchiveKind::File, ArchiveKind::Analysis, ArchiveKind::TableRef];

    /// Interface word: `文件` / `分析表` / `引用`.
    pub fn label(self) -> (r: &'static str)
        ensures
            r@ == kind_menu_label(self),
    {
        match self {
            ArchiveKind::File => "文件",
            ArchiveKind::Analysis => "分析表",
            ArchiveKind::TableRef => "引用",
        }
    }

    /// Database word: `file` / `analysis` / `table_ref`.
    pub fn as_db_str(self) -> (r: &'static str)
        ensures
            r@ == kind_db_word(self),
    {
        match self {
            ArchiveKind::File => "file",
            ArchiveKind::Analysis => "analysis",
            ArchiveKind::TableRef => "table_ref",
        }
    }

    /// Reads a database word; any unknown word reads as `File`.
    pub fn from_db_str(value: &str) -> (k: ArchiveKind)
        ensures
            k == kind_of_db_word(value@),
    {
        if crate::text::str_eq(value, "analysis") {
            ArchiveKind::Analysis
        } else if crate::text::str_eq(value, "table_ref") {
            ArchiveKind::TableRef
        } else {
            ArchiveKind::File
        }
    }

    /// Reproduction strength, derived from the kind.
    pub fn strength(self) -> (s: ReproductionStrength)
        ensures
            s == kind_strength(self),
    {
        match self {
            ArchiveKind::File => ReproductionStrength::Strong,
            ArchiveKind::Analysis => ReproductionStrength::Medium,
            ArchiveKind::TableRef => ReproductionStrength::Weak,
        }
    }

    /// The database word as an owned string (what `Display` writes).
    pub fn to_display_string(self) -> (s: String)
        ensures
            s@ == kind_db_word(self),
    {
        crate::text::owned(self.as_db_str())
    }
}

/// Reading back the database word of a kind gives the kind.
pub proof fn law_kind_db_roundtrip(kind: ArchiveKind)
    ensures
        kind_of_db_word(kind_db_word(kind)) == kind,
{
    reveal_strlit("file");
    reveal_strlit("analysis");
    reveal_strlit("table_ref");
    assert("file"@ != "analysis"@ && "file"@ != "table_ref"@ && "analysis"@ != "table_ref"@)
        by {
        assert("file"@.len() != "analysis"@.len());
        assert("file"@.len() != "table_ref"@.len());
        assert("analysis"@.len() != "table_ref"@.len());
    }
}

/// Where the conclusions of an archive came from.
#[derive(Debug, Clone, PartialEq, Eq)]
pub struct ArchiveBinding {
    /// Relative path of the source draft.
    pub promoted_from: Option<String>,
    /// Source connection id.
    pub source_connection_id: Option<String>,
    /// Source table `schema.table`.
    pub source_table: Option<String>,
}

impl Default for ArchiveBinding {
    fn default() -> (b: Self)
        ensures
            b.promoted_from is None,
            b.source_connection_id is None,
            b.source_table is None,
    {
        ArchiveBinding { promoted_from: None, source_connection_id: None, source_table: None }
    }
}

/// Retention of historical content copies (version rows are always kept).
#[derive(Debug, Clone, Copy, PartialEq, Eq, Structural)]
pub enum KeepVersions {
    /// Keep every copy (setting `-1`).
    All,
    /// Keep only the version metadata (setting `0`).
    MetadataOnly,
    /// Keep the latest `n` copies.
    Keep(u32),
}

/// The policy a setting value reads as: `≤ -1` keeps all, `0` keeps metadata only,
/// a positive value keeps that many copies, capped at `u32::MAX`.
pub open spec fn keep_of_setting(value: int) -> KeepVersions {
    if value <= -1 {
        KeepVersions::All
    } else if value == 0 {
        KeepVersions::MetadataOnly
    } else if value > u32::MAX {
        KeepVersions::Keep(u32::MAX)
    } else {
        KeepVersions::Keep(value as u32)
    }
}

/// The setting value of a policy.
pub open spec fn setting_of_keep(keep: KeepVersions) -> int {
    match keep {
        KeepVersions::All => -1,
        KeepVersions::MetadataOnly => 0,
        KeepVersions::Keep(n) => n as int,
    }
}

/// How many copies pruning keeps; `None` = no pruning.
pub open spec fn keep_limit(keep: KeepVersions) -> Option<u32> {
    match keep {
        KeepVersions::All => None,
        KeepVersions::MetadataOnly => Some(0),
        KeepVersions::Keep(n) => Some(n),
    }
}

/// The human wording of a policy.
pub open spec fn keep_label(keep: KeepVersions) -> Seq<char> {
    match keep {
        KeepVersions::All => "全部保留"@,
        KeepVersions::MetadataOnly => "只留版本元数据"@,
        KeepVersions::Keep(n) => "保留最近 "@ + dec(n as nat) + " 份"@,
    }
}

impl KeepVersions {
    /// Setting value → policy.
    pub fn from_setting(value: i64) -> (k: KeepVersions)
        ensures
            k == keep_of_setting(value as int),
    {
        if value <= -1 {
            KeepVersions::All
        } else if value == 0 {
            KeepVersions::MetadataOnly
        } else if value > 4294967295i64 {
            KeepVersions::Keep(u32::MAX)
        } else {
            KeepVersions::Keep(value as u32)
        }
    }

    /// Policy → setting value.
    pub fn to_setting(self) -> (v: i64)
        ensures
            v as int == setting_of_keep(self),
    {
        match self {
            KeepVersions::All => -1,
            KeepVersions::MetadataOnly => 0,
            KeepVersions::Keep(n) => n as i64,
        }
    }

    /// How many copies pruning keeps; `None` = keep all (no pruning).
    pub fn limit(self) -> (r: Option<u32>)
        ensures
            r == keep_limit(self),
    {
        match self {
            KeepVersions::All => None,
            KeepVersions::MetadataOnly => Some(0),
            KeepVersions::Keep(n) => Some(n),
        }
    }

    /// Human wording, for dialog hints and receipts.
    pub fn label(self) -> (s: String)
        ensures
            s@ == keep_label(self),
    {
        match self {
            KeepVersions::All => crate::text::owned("全部保留"),
            KeepVersions::MetadataOnly => crate::text::owned("只留版本元数据"),
            KeepVersions::Keep(n) => {
                let mut s = crate::text::owned("保留最近 ");
                push_dec(&mut s, n as u64);
                push_str(&mut s, " 份");
                s
            },
        }
    }
}

/// A setting value in `[-1, u32::MAX]` survives the trip to a policy and back.
pub proof fn law_setting_roundtrip(value: int)
    requires
        -1 <= value <= u32::MAX,
    ensures
        setting_of_keep(keep_of_setting(value)) == value,
{
}

/// A policy survives the trip to its setting value and back, except `Keep(0)`, which
/// means the same as `MetadataOnly` and reads back as it.
pub proof fn law_keep_roundtrip(keep: KeepVersions)
    requires
        keep != KeepVersions::Keep(0),
    ensures
        keep_of_setting(setting_of_keep(keep)) == keep,
        keep_limit(keep_of_setting(setting_of_keep(keep))) == keep_limit(keep),
{
}

/// `Keep(0)` prunes exactly as `MetadataOnly` does.
pub proof fn law_keep_zero_is_metadata_only()
    ensures
        keep_limit(KeepVersions::Keep(0)) == keep_limit(KeepVersions::MetadataOnly),
        keep_of_setting(setting_of_keep(KeepVersions::Keep(0))) == KeepVersions::MetadataOnly,
{
}

/// An archive request: a path and metadata (paths are `/`-separated text).
#[derive(Debug, Clone)]
pub struct ArchiveRequest {
    /// Absolute path of the source file.
    pub source_path: String,
    /// Target path relative to `resources/`.
    pub rel_path: String,
    /// Display name.
    pub name: String,
    pub alias: Option<String>,
    pub kind: ArchiveKind,
    /// Facts of an analysis table (its fingerprint replaces the byte fingerprint).
    pub analysis: Option<AnalysisFacts>,
    pub binding: ArchiveBinding,
    /// Initial tags.
    pub tags: Vec<String>,
    /// Group to file it under.
    pub group_id: Option<String>,
    /// Retention policy; `None` follows the setting.
    pub keep_versions: Option<KeepVersions>,
    /// Source archive of a re-archive; `None` for a first archive.
    pub existing_resource_id: Option<String>,
}

/// What undoing an archive needs (kept in memory for a few seconds only).
#[derive(Debug, Clone, PartialEq, Eq)]
pub struct ArchiveUndo {
    pub resource_id: String,
    pub name: String,
    /// Absolute path the payload came from.
    pub source_path: String,
}

/// One target of a tag edit.
#[derive(Debug, Clone, PartialEq, Eq)]
pub struct TagTarget {
    pub id: String,
    pub name: String,
}

/// Outcome of an archive.
#[derive(Debug, Clone, PartialEq, Eq)]
pub struct ArchiveOutcome {
    pub resource_id: String,
    pub version: i32,
    pub content_hash: String,
    pub file_rel_path: String,
    /// `false`: content equal to the current version, no new version.
    pub created_new_version: bool,
    /// Side items (tags, group) that did not land.
    pub notes: Vec<String>,
}

/// A checkout: copy an archive out as a working copy.
#[derive(Debug, Clone)]
pub struct CheckoutRequest {
    pub resource_id: String,
    /// Absolute destination path.
    pub dest_path: String,
}

/// Outcome of a checkout.
#[derive(Debug, Clone)]
pub struct CheckoutOutcome {
    pub resource_id: String,
    pub version: i32,
    pub dest_path: String,
}

/// Origin mark of this module's trash entries (the payload directory's name).
pub const ORIGIN_RESOURCES: &'static str = "resources";

/// One archive moved to the trash.
#[derive(Debug, Clone, PartialEq, Eq)]
pub struct TrashArchiveEntry {
    pub resource_id: String,
    pub name: String,
    pub trash_id: String,
}

/// Why the archive library changed.
#[derive(Debug, Clone, Copy, PartialEq, Eq, Structural)]
pub enum ChangeReason {
    Archived,
    Updated,
    CheckedOut,
    Undone,
    Restored,
    Trashed,
    Untrashed,
}

/// A change event of the archive library.
#[derive(Debug, Clone, PartialEq, Eq)]
pub struct ResourcesChanged {
    pub reason: ChangeReason,
    pub resource_id: Option<String>,
}

/// A new archive row, the minimal input of the registry.
#[derive(Debug, Clone)]
pub struct NewArchiveInput {
    pub resource_type: String,
    pub name: String,
    pub alias: Option<String>,
    pub kind: ArchiveKind,
    pub content_hash: String,
    pub definition_sql: Option<String>,
    pub row_count: Option<i32>,
    pub column_count: Option<i32>,
    pub file_rel_path: String,
    pub file_size: Option<i64>,
    pub binding: ArchiveBinding,
    pub scope: String,
}

} // verus!
