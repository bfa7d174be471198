//! Presentation: registry rows turned into panel rows, details, dialog rows and
//! their texts (sizes, scales, times), with no I/O.

use vstd::prelude::*;

use crate::detail_view::{chips_view, ArchiveDetail, ArchiveTagChip};
use crate::model::{kind_of_db_word, ArchiveKind, ArchiveStatus};
use crate::models::{AnalyticsResource, AnalyticsTag, Timestamp};
use crate::resource_view::{
    opt_view, row_tail, rows_view, tail_text, ArchiveCounts, ArchiveRow, GroupOption,
    ResourcesSnapshot, RowView, TagOption,
};
use crate::seqs::{find_key, lookup};
use crate::detail_view::{short_hash, short_hash_text};
use crate::dialogs::index_repair::{group_rank, repair_rows_view, RepairGroup, RepairRow, RepairRowView};
use crate::indexer::{issues_view, IndexIssue, IndexScanReport, IssueView};
use crate::sorting::{arranged_stably, key_before, keys_of, sorts_stably, stable_order};
use crate::dialogs::trash::{trash_rows_view, TrashRow, TrashRowView};
use crate::models::{ResourceVersion, TrashEntry, TrashKind, TrashManifest};
use crate::dialogs::version::{version_rows_view, VersionRow, VersionRowView};
use crate::text::join;
use crate::text::{blank, is_blank};
use crate::text::{
    chars_of, dec, dec_int, digit, lemma_dec_nonempty, push_char, push_dec, push_dec_i64,
    push_str,
};

verus! {

// ---------------------------------------------------------------- sizes

/// `n / d` rounded to the nearest integer, ties to the even one.
pub open spec fn rounded_div(n: nat, d: nat) -> nat
    recommends
        d > 0,
{
    let q = n / d;
    let r = n % d;
    if 2 * r < d {
        q
    } else if 2 * r > d {
        q + 1
    } else if q % 2 == 0 {
        q
    } else {
        q + 1
    }
}

/// A count of tenths as a number with one decimal: `12` → `1.2`.
pub open spec fn tenths_text(t: nat) -> Seq<char> {
    dec(t / 10) + seq!['.', digit(t % 10)]
}

/// Binary size steps: bytes below 1 KB, then KB, MB and GB with one decimal.
pub open spec fn size_text(b: nat) -> Seq<char> {
    if b < 1024 {
        dec(b) + " B"@
    } else if b < 1048576 {
        tenths_text(rounded_div(b * 10, 1024)) + " KB"@
    } else if b < 1073741824 {
        tenths_text(rounded_div(b * 10, 1048576)) + " MB"@
    } else {
        tenths_text(rounded_div(b * 10, 1073741824)) + " GB"@
    }
}

/// The size label: empty when unknown, negative sizes read as zero.
pub open spec fn size_label(bytes: Option<i32>) -> Seq<char> {
    match bytes {
        None => Seq::empty(),
        Some(b) => size_text(if b < 0 { 0nat } else { b as nat }),
    }
}

/// Appends `t` tenths with one decimal.
fn push_tenths(s: &mut String, t: u64)
    ensures
        final(s)@ == old(s)@ + tenths_text(t as nat),
{
    push_dec(s, t / 10);
    push_char(s, '.');
    push_dec(s, t % 10);
    assert(dec((t % 10) as nat) == seq![digit((t % 10) as nat)]);
    assert(old(s)@ + dec((t / 10) as nat) + seq!['.'] + seq![digit((t % 10) as nat)]
        == old(s)@ + tenths_text(t as nat));
}

/// `n / d` rounded to nearest, ties to even.
fn rounded_div_exec(n: u64, d: u64) -> (q: u64)
    requires
        0 < d <= 0x4000_0000,
        n < 0x1_0000_0000_0000,
    ensures
        q == rounded_div(n as nat, d as nat),
{
    let q = n / d;
    let r = n % d;
    assert(r < d);
    assert(q <= n) by (nonlinear_arith)
        requires
            q == n / d,
            d > 0,
    ;
    if 2 * r < d {
        q
    } else if 2 * r > d {
        q + 1
    } else if q % 2 == 0 {
        q
    } else {
        q + 1
    }
}

/// The size text of a byte count.
fn size_string(v: u64) -> (s: String)
    requires
        v < 0x100_0000_0000,
    ensures
        s@ == size_text(v as nat),
{
    let mut out = String::new();
    if v < 1024 {
        push_dec(&mut out, v);
        push_str(&mut out, " B");
    } else if v < 1048576 {
        push_tenths(&mut out, rounded_div_exec(v * 10, 1024));
        push_str(&mut out, " KB");
    } else if v < 1073741824 {
        push_tenths(&mut out, rounded_div_exec(v * 10, 1048576));
        push_str(&mut out, " MB");
    } else {
        push_tenths(&mut out, rounded_div_exec(v * 10, 1073741824));
        push_str(&mut out, " GB");
    }
    out
}

/// Size text in binary steps: `900 B`, `1.2 KB`, `5.0 MB`; empty when unknown and
/// zero for a negative size.
pub fn format_size(bytes: Option<i32>) -> (s: String)
    ensures
        s@ == size_label(bytes),
{
    match bytes {
        None => String::new(),
        Some(b) => {
            let v: u64 = if b < 0 { 0 } else { b as u64 };
            size_string(v)
        },
    }
}

// ---------------------------------------------------------------- scales

/// Digits grouped by three from the right with `,`: `12480` → `12,480`.
pub open spec fn group_thousands(d: Seq<char>) -> Seq<char>
    decreases d.len(),
{
    if d.len() <= 3 {
        d
    } else {
        group_thousands(d.take(d.len() - 3)) + seq![','] + d.skip(d.len() - 3)
    }
}

/// A non-negative count with thousands separators (negative counts read as zero).
pub open spec fn thousands_text(value: i32) -> Seq<char> {
    group_thousands(dec(if value < 0 { 0nat } else { value as nat }))
}

/// `value` with thousands separators.
fn with_thousands(value: i32) -> (s: String)
    ensures
        s@ == thousands_text(value),
{
    let mut digits = String::new();
    let v: u64 = if value < 0 { 0 } else { value as u64 };
    push_dec(&mut digits, v);
    let d = chars_of(digits.as_str());
    let ghost ds = d@;
    proof {
        lemma_dec_nonempty(v as nat);
    }
    let n = d.len();
    let first: usize = if n % 3 == 0 { 3 } else { n % 3 };
    let mut out = String::new();
    let mut i: usize = 0;
    while i < first
        invariant
            ds == d@,
            1 <= first <= 3,
            first <= n == d.len(),
            i <= first,
            out@ == ds.take(i as int),
        decreases first - i,
    {
        push_char(&mut out, d[i]);
        assert(ds.take(i + 1) == ds.take(i as int).push(ds[i as int]));
        i += 1;
    }
    assert(group_thousands(ds.take(first as int)) == ds.take(first as int));
    while i < n
        invariant
            ds == d@,
            n == d.len(),
            1 <= i <= n,
            (n - i) % 3 == 0,
            out@ == group_thousands(ds.take(i as int)),
        decreases n - i,
    {
        push_char(&mut out, ',');
        let ghost before = out@;
        let mut k: usize = 0;
        while k < 3
            invariant
                ds == d@,
                n == d.len(),
                1 <= i,
                i + 3 <= n,
                k <= 3,
                out@ == before + ds.subrange(i as int, i + k),
            decreases 3 - k,
        {
            push_char(&mut out, d[i + k]);
            assert(ds.subrange(i as int, i + k + 1) == ds.subrange(i as int, i + k).push(ds[i + k]));
            k += 1;
        }
        proof {
            let t = ds.take(i + 3);
            assert(t.take(t.len() - 3) == ds.take(i as int));
            assert(t.skip(t.len() - 3) == ds.subrange(i as int, i + 3));
        }
        i += 3;
    }
    assert(ds.take(n as int) == ds);
    out
}

/// Scale text of an analysis table: `12,480 行 × 18 列`, or whichever part is known.
pub open spec fn scale_label(rows: Option<i32>, columns: Option<i32>) -> Seq<char> {
    match (rows, columns) {
        (Some(r), Some(c)) => thousands_text(r) + " 行 × "@ + dec_int(c as int) + " 列"@,
        (Some(r), None) => thousands_text(r) + " 行"@,
        (None, Some(c)) => dec_int(c as int) + " 列"@,
        (None, None) => Seq::empty(),
    }
}

/// The scale text of an analysis table.
pub fn format_scale(rows: Option<i32>, columns: Option<i32>) -> (s: String)
    ensures
        s@ == scale_label(rows, columns),
{
    let mut out = String::new();
    match (rows, columns) {
        (Some(r), Some(c)) => {
            let grouped = with_thousands(r);
            push_str(&mut out, grouped.as_str());
            push_str(&mut out, " 行 × ");
            push_dec_i64(&mut out, c as i64);
            push_str(&mut out, " 列");
        },
        (Some(r), None) => {
            let grouped = with_thousands(r);
            push_str(&mut out, grouped.as_str());
            push_str(&mut out, " 行");
        },
        (None, Some(c)) => {
            push_dec_i64(&mut out, c as i64);
            push_str(&mut out, " 列");
        },
        (None, None) => {},
    }
    out
}

// ---------------------------------------------------------------- times

/// Whole seconds from `then` to `now`, truncated toward zero.
pub open spec fn whole_secs_between(now: Timestamp, then: Timestamp) -> int {
    let d = now.total_nanos() - then.total_nanos();
    if d >= 0 {
        d / 1_000_000_000
    } else {
        -((-d) / 1_000_000_000)
    }
}

/// Relative time text of an age in seconds: under a minute (or in the future)
/// `刚刚`, then minutes, hours, days, months of 30 days and years of 365 days.
pub open spec fn relative_text(secs: int) -> Seq<char> {
    if secs < 60 {
        "刚刚"@
    } else if secs < 3600 {
        dec((secs / 60) as nat) + " 分钟前"@
    } else if secs < 86400 {
        dec((secs / 3600) as nat) + " 小时前"@
    } else if secs < 2592000 {
        dec((secs / 86400) as nat) + " 天前"@
    } else if secs < 31536000 {
        dec((secs / 2592000) as nat) + " 个月前"@
    } else {
        dec((secs / 31536000) as nat) + " 年前"@
    }
}

/// How long ago `then` was, seen from `now`: `刚刚`, `5 分钟前`, `2 个月前`; a
/// moment after `now` (a clock set back) also reads `刚刚`.
pub fn format_relative_time(now: Timestamp, then: Timestamp) -> (s: String)
    requires
        now.wf(),
        then.wf(),
    ensures
        s@ == relative_text(whole_secs_between(now, then)),
{
    let dn: i128 = (now.secs as i128 - then.secs as i128) * 1_000_000_000
        + (now.nanos as i128 - then.nanos as i128);
    assert(dn == now.total_nanos() - then.total_nanos());
    let secs: i128 = if dn >= 0 {
        dn / 1_000_000_000
    } else {
        -((-dn) / 1_000_000_000)
    };
    let mut out = String::new();
    if secs < 60 {
        push_str(&mut out, "刚刚");
    } else if secs < 3600 {
        push_dec(&mut out, (secs / 60) as u64);
        push_str(&mut out, " 分钟前");
    } else if secs < 86400 {
        push_dec(&mut out, (secs / 3600) as u64);
        push_str(&mut out, " 小时前");
    } else if secs < 2592000 {
        push_dec(&mut out, (secs / 86400) as u64);
        push_str(&mut out, " 天前");
    } else if secs < 31536000 {
        push_dec(&mut out, (secs / 2592000) as u64);
        push_str(&mut out, " 个月前");
    } else {
        push_dec(&mut out, (secs / 31536000) as u64);
        push_str(&mut out, " 年前");
    }
    out
}

/// The text `chrono` writes for an instant with the pattern `%Y-%m-%d %H:%M`
/// (the UTC calendar date and the minute).
pub uninterp spec fn utc_minute_text(secs: i64, nanos: u32) -> Seq<char>;

/// Formats an instant with `chrono::DateTime::<Utc>::from_timestamp` and
/// `DateTime::format("%Y-%m-%d %H:%M")`; the text is named [`utc_minute_text`].
/// In range (`wf`), `from_timestamp` always gives an instant.
#[verifier::external_body]
fn chrono_minute_text(secs: i64, nanos: u32) -> (s: String)
    requires
        (Timestamp { secs, nanos }).wf(),
    ensures
        s@ == utc_minute_text(secs, nanos),
{
    match chrono::DateTime::<chrono::Utc>::from_timestamp(secs, nanos) {
        Some(at) => format!("{}", at.format("%Y-%m-%d %H:%M")),
        None => String::new(),
    }
}

/// Absolute time text `2026-09-16 14:03` (UTC), for the detail panel and dialogs.
pub fn format_timestamp(at: Timestamp) -> (s: String)
    requires
        at.wf(),
    ensures
        s@ == utc_minute_text(at.secs, at.nanos),
{
    chrono_minute_text(at.secs, at.nanos)
}

// ---------------------------------------------------------------- rows

/// The size or scale part of a row's tail, by kind: size for files, scale for
/// analysis tables, `无指纹` for references.
pub open spec fn tail_detail(resource: AnalyticsResource, kind: ArchiveKind) -> Seq<char> {
    match kind {
        ArchiveKind::File => size_label(resource.file_size),
        ArchiveKind::Analysis => scale_label(resource.row_count, resource.column_count),
        ArchiveKind::TableRef => "无指纹"@,
    }
}

/// The tail of a row: size or scale first, then the relative time of the last change.
pub open spec fn row_tail_text(resource: AnalyticsResource, kind: ArchiveKind, now: Timestamp) -> Seq<char> {
    tail_text(
        tail_detail(resource, kind),
        relative_text(whole_secs_between(now, resource.updated_at)),
        resource.version,
    )
}

/// The tail text of one row.
pub fn tail_for(resource: &AnalyticsResource, kind: ArchiveKind, now: Timestamp) -> (s: String)
    requires
        resource.wf(),
        now.wf(),
    ensures
        s@ == row_tail_text(*resource, kind, now),
{
    let detail = match kind {
        ArchiveKind::File => format_size(resource.file_size),
        ArchiveKind::Analysis => format_scale(resource.row_count, resource.column_count),
        ArchiveKind::TableRef => {
            let mut s = String::new();
            push_str(&mut s, "无指纹");
            s
        },
    };
    let modified = format_relative_time(now, resource.updated_at);
    row_tail(detail.as_str(), modified.as_str(), resource.version)
}

/// The chip of a tag: its id and name.
pub open spec fn chip_of(tag: AnalyticsTag) -> (Seq<char>, Seq<char>) {
    (tag.id@, tag.name@)
}

/// Tag rows as chips (id and name), in order.
pub fn tag_chips(tags: &[AnalyticsTag]) -> (r: Vec<ArchiveTagChip>)
    ensures
        chips_view(r@) == tags@.map_values(|t: AnalyticsTag| chip_of(t)),
{
    let mut out: Vec<ArchiveTagChip> = Vec::new();
    let mut i: usize = 0;
    while i < tags.len()
        invariant
            i <= tags.len(),
            chips_view(out@) == tags@.take(i as int).map_values(|t: AnalyticsTag| chip_of(t)),
        decreases tags.len() - i,
    {
        let ghost prev = out@;
        out.push(ArchiveTagChip { id: tags[i].id.clone(), name: tags[i].name.clone() });
        assert(tags@.take(i + 1) == tags@.take(i as int).push(tags@[i as int]));
        assert(chips_view(out@) == chips_view(prev).push(chip_of(tags@[i as int])));
        i += 1;
    }
    assert(tags@.take(tags.len() as int) == tags@);
    out
}

/// The option of a tag: its usage count, zero when unknown or negative (the first
/// count listed for the tag's id counts).
pub open spec fn tag_option_of(tag: AnalyticsTag, counts: Seq<(String, i64)>) -> (Seq<char>, Seq<char>, usize) {
    let n = match lookup(counts, tag.id@) {
        Some(c) => c,
        None => 0i64,
    };
    (tag.id@, tag.name@, (if n < 0 { 0i64 } else { n }) as usize)
}

/// The view of a tag option.
pub open spec fn tag_option_view(t: TagOption) -> (Seq<char>, Seq<char>, usize) {
    (t.id@, t.name@, t.count)
}

/// Tag dictionary and usage counts as options of the filter menu and tag dialog.
/// The counts are read as a map from tag id: where an id is listed twice, its first
/// count is the one used; an id not listed counts zero.
pub fn tag_options(tags: &[AnalyticsTag], counts: &[(String, i64)]) -> (r: Vec<TagOption>)
    ensures
        r@.map_values(|t: TagOption| tag_option_view(t)) == tags@.map_values(
            |t: AnalyticsTag| tag_option_of(t, counts@),
        ),
        forall|i: int, j: int|
            #![trigger r@[i], counts@[j]]
            0 <= i < tags@.len() && 0 <= j < counts@.len() && counts@[j].0@ == tags@[i].id@ && (forall|m: int|
                0 <= m < j ==> (#[trigger] counts@[m]).0@ != tags@[i].id@) ==> r@[i].count == (if counts@[j].1
                < 0 {
                0i64
            } else {
                counts@[j].1
            }) as usize,
        forall|i: int|
            0 <= i < tags@.len() && (forall|j: int| 0 <= j < counts@.len() ==> (#[trigger] counts@[j]).0@ != tags@[i].id@)
                ==> #[trigger] r@[i].count == 0,
{
    let mut out: Vec<TagOption> = Vec::new();
    let mut i: usize = 0;
    while i < tags.len()
        invariant
            i <= tags.len(),
            out@.map_values(|t: TagOption| tag_option_view(t)) == tags@.take(i as int).map_values(
                |t: AnalyticsTag| tag_option_of(t, counts@),
            ),
        decreases tags.len() - i,
    {
        let n: i64 = match find_key(counts, tags[i].id.as_str()) {
            Some(k) => counts[k].1,
            None => 0,
        };
        let clamped: i64 = if n < 0 { 0 } else { n };
        let ghost prev = out@;
        out.push(TagOption { id: tags[i].id.clone(), name: tags[i].name.clone(), count: clamped as usize });
        assert(tags@.take(i + 1) == tags@.take(i as int).push(tags@[i as int]));
        assert(out@.map_values(|t: TagOption| tag_option_view(t)) == prev.map_values(|t: TagOption| tag_option_view(t)).push(
            tag_option_of(tags@[i as int], counts@),
        ));
        i += 1;
    }
    assert(tags@.take(tags.len() as int) == tags@);
    proof {
        let ghost rv = out@.map_values(|t: TagOption| tag_option_view(t));
        assert forall|i: int, j: int|
            #![trigger out@[i], counts@[j]]
            0 <= i < tags@.len() && 0 <= j < counts@.len() && counts@[j].0@ == tags@[i].id@ && (forall|m: int|
                0 <= m < j ==> (#[trigger] counts@[m]).0@ != tags@[i].id@) implies out@[i].count == (if counts@[j].1
                < 0 {
                0i64
            } else {
                counts@[j].1
            }) as usize by {
            crate::seqs::law_lookup_takes_first(counts@, tags@[i].id@, j);
            assert(rv[i] == tag_option_of(tags@[i], counts@));
        }
        assert forall|i: int|
            0 <= i < tags@.len() && (forall|j: int| 0 <= j < counts@.len() ==> (#[trigger] counts@[j]).0@ != tags@[i].id@)
                implies #[trigger] out@[i].count == 0 by {
            crate::seqs::law_lookup_absent(counts@, tags@[i].id@);
            assert(rv[i] == tag_option_of(tags@[i], counts@));
        }
    }
    out
}

/// The status of a row: from the scan's findings, `Normal` when not listed (the
/// first finding listed for the id counts).
pub open spec fn status_of(statuses: Seq<(String, ArchiveStatus)>, id: Seq<char>) -> ArchiveStatus {
    match lookup(statuses, id) {
        Some(s) => s,
        None => ArchiveStatus::Normal,
    }
}

/// The chips of a row: its tags with ids and names, none when not listed (the first
/// list given for the id counts).
pub open spec fn chips_of(tags: Seq<(String, Vec<AnalyticsTag>)>, id: Seq<char>) -> Seq<(Seq<char>, Seq<char>)> {
    match lookup(tags, id) {
        Some(list) => list@.map_values(|t: AnalyticsTag| chip_of(t)),
        None => Seq::empty(),
    }
}

/// The row of a registry record.
pub open spec fn row_of(
    resource: AnalyticsResource,
    statuses: Seq<(String, ArchiveStatus)>,
    tags: Seq<(String, Vec<AnalyticsTag>)>,
    folders: Seq<(String, String)>,
    now: Timestamp,
) -> RowView {
    let kind = kind_of_db_word(resource.kind@);
    RowView {
        id: resource.id@,
        name: resource.name@,
        alias: opt_view(resource.alias),
        kind,
        version: resource.version,
        status: status_of(statuses, resource.id@),
        tail: row_tail_text(resource, kind, now),
        source_table: opt_view(resource.source_table),
        tags: chips_of(tags, resource.id@),
        folder_id: match lookup(folders, resource.id@) {
            Some(f) => Some(f@),
            None => None,
        },
        updated_epoch: resource.updated_at.secs,
        archived_epoch: match resource.archived_at {
            Some(t) => Some(t.secs),
            None => None,
        },
        size_bytes: match resource.file_size {
            Some(b) => Some(b as i64),
            None => None,
        },
    }
}

/// One registry record as a panel row: status from the scan (`Normal` when not
/// listed), tags and group from the lookups, the raw sort keys carried along. Each
/// lookup list is read by its first entry for the id (see `seqs::lookup`).
pub fn to_row(
    resource: &AnalyticsResource,
    statuses: &[(String, ArchiveStatus)],
    tags: &[(String, Vec<AnalyticsTag>)],
    folders: &[(String, String)],
    now: Timestamp,
) -> (r: ArchiveRow)
    requires
        resource.wf(),
        now.wf(),
    ensures
        r@ == row_of(*resource, statuses@, tags@, folders@, now),
{
    let kind = ArchiveKind::from_db_str(resource.kind.as_str());
    let status = match find_key(statuses, resource.id.as_str()) {
        Some(k) => statuses[k].1,
        None => ArchiveStatus::Normal,
    };
    let chips = match find_key(tags, resource.id.as_str()) {
        Some(k) => tag_chips(tags[k].1.as_slice()),
        None => Vec::new(),
    };
    let folder_id = match find_key(folders, resource.id.as_str()) {
        Some(k) => Some(folders[k].1.clone()),
        None => None,
    };
    let archived_epoch = match resource.archived_at {
        Some(t) => Some(t.secs),
        None => None,
    };
    let size_bytes = match resource.file_size {
        Some(b) => Some(b as i64),
        None => None,
    };
    let r = ArchiveRow {
        id: resource.id.clone(),
        name: resource.name.clone(),
        alias: crate::resource_view::copy_opt_string(&resource.alias),
        kind,
        version: resource.version,
        status,
        tail: tail_for(resource, kind, now),
        source_table: crate::resource_view::copy_opt_string(&resource.source_table),
        tags: chips,
        folder_id,
        updated_epoch: resource.updated_at.secs,
        archived_epoch,
        size_bytes,
    };
    assert(r@.tags == chips_of(tags@, resource.id@));
    r
}

/// The size or scale shown in the details, by kind (nothing for references).
pub open spec fn detail_size_text(resource: AnalyticsResource, kind: ArchiveKind) -> Seq<char> {
    match kind {
        ArchiveKind::File => size_label(resource.file_size),
        ArchiveKind::Analysis => scale_label(resource.row_count, resource.column_count),
        ArchiveKind::TableRef => Seq::empty(),
    }
}

/// The history summary: `3 个历史版本`, empty without history.
pub open spec fn history_text(count: i64) -> Seq<char> {
    if count > 0 {
        dec(count as nat) + " 个历史版本"@
    } else {
        Seq::empty()
    }
}

/// What [`to_detail`] gives for a record.
pub open spec fn is_detail_of(
    d: ArchiveDetail,
    resource: AnalyticsResource,
    status: ArchiveStatus,
    history_count: i64,
    tags: Seq<ArchiveTagChip>,
) -> bool {
    let kind = kind_of_db_word(resource.kind@);
    &&& d.id@ == resource.id@
    &&& d.name@ == resource.name@
    &&& opt_view(d.alias) == opt_view(resource.alias)
    &&& d.kind == kind
    &&& d.version == resource.version
    &&& d.status == status
    &&& d.readonly == (resource.readonly != 0)
    &&& d.size_label@ == detail_size_text(resource, kind)
    &&& d.modified_label@ == utc_minute_text(resource.updated_at.secs, resource.updated_at.nanos)
    &&& d.archived_label@ == match resource.archived_at {
        Some(t) => utc_minute_text(t.secs, t.nanos),
        None => Seq::empty(),
    }
    &&& opt_view(d.promoted_from) == opt_view(resource.promoted_from)
    &&& opt_view(d.source_connection_id) == opt_view(resource.source_connection_id)
    &&& opt_view(d.source_table) == opt_view(resource.source_table)
    &&& opt_view(d.content_hash) == opt_view(resource.content_hash)
    &&& opt_view(d.payload_rel_path) == opt_view(resource.file_rel_path)
    &&& d.history_label@ == history_text(history_count)
    &&& chips_view(d.tags@) == chips_view(tags)
    &&& d.group is None
}

/// One record as a detail snapshot, formatted for the read-only panel.
pub fn to_detail(
    resource: &AnalyticsResource,
    status: ArchiveStatus,
    history_count: i64,
    tags: &[ArchiveTagChip],
) -> (d: ArchiveDetail)
    requires
        resource.wf(),
    ensures
        is_detail_of(d, *resource, status, history_count, tags@),
{
    let kind = ArchiveKind::from_db_str(resource.kind.as_str());
    let size_label = match kind {
        ArchiveKind::File => format_size(resource.file_size),
        ArchiveKind::Analysis => format_scale(resource.row_count, resource.column_count),
        ArchiveKind::TableRef => String::new(),
    };
    let archived_label = match resource.archived_at {
        Some(t) => format_timestamp(t),
        None => String::new(),
    };
    let mut history_label = String::new();
    if history_count > 0 {
        push_dec(&mut history_label, history_count as u64);
        push_str(&mut history_label, " 个历史版本");
    }
    let mut chips: Vec<ArchiveTagChip> = Vec::new();
    let mut i: usize = 0;
    while i < tags.len()
        invariant
            i <= tags.len(),
            chips_view(chips@) == chips_view(tags@.take(i as int)),
        decreases tags.len() - i,
    {
        let ghost prev = chips@;
        chips.push(tags[i].duplicate());
        assert(tags@.take(i + 1) == tags@.take(i as int).push(tags@[i as int]));
        assert(chips@ == prev.push(tags@[i as int]));
        assert(chips_view(chips@) == chips_view(prev).push(tags@[i as int]@));
        assert(chips_view(tags@.take(i + 1)) == chips_view(tags@.take(i as int)).push(tags@[i as int]@));
        i += 1;
    }
    assert(tags@.take(tags.len() as int) == tags@);
    ArchiveDetail {
        id: resource.id.clone(),
        name: resource.name.clone(),
        alias: crate::resource_view::copy_opt_string(&resource.alias),
        kind,
        version: resource.version,
        status,
        readonly: resource.readonly != 0,
        size_label,
        modified_label: format_timestamp(resource.updated_at),
        archived_label,
        promoted_from: crate::resource_view::copy_opt_string(&resource.promoted_from),
        source_connection_id: crate::resource_view::copy_opt_string(&resource.source_connection_id),
        source_table: crate::resource_view::copy_opt_string(&resource.source_table),
        content_hash: crate::resource_view::copy_opt_string(&resource.content_hash),
        payload_rel_path: crate::resource_view::copy_opt_string(&resource.file_rel_path),
        history_label,
        tags: chips,
        group: None,
    }
}

/// The counts after one more row: a missing or changed payload counts as such,
/// whatever the kind; a normal row counts under its kind.
pub open spec fn bump(c: ArchiveCounts, r: RowView) -> ArchiveCounts {
    let total = (c.total + 1) as usize;
    match r.status {
        ArchiveStatus::Missing => ArchiveCounts { total, missing: (c.missing + 1) as usize, ..c },
        ArchiveStatus::ContentChanged => ArchiveCounts { total, drifted: (c.drifted + 1) as usize, ..c },
        ArchiveStatus::Normal => match r.kind {
            ArchiveKind::File => ArchiveCounts { total, archived: (c.archived + 1) as usize, ..c },
            ArchiveKind::Analysis => ArchiveCounts { total, analysis: (c.analysis + 1) as usize, ..c },
            ArchiveKind::TableRef => ArchiveCounts { total, table_ref: (c.table_ref + 1) as usize, ..c },
        },
    }
}

/// The status line counts of a list of rows.
pub open spec fn tally(rows: Seq<RowView>) -> ArchiveCounts
    decreases rows.len(),
{
    if rows.len() == 0 {
        ArchiveCounts { total: 0, archived: 0, analysis: 0, table_ref: 0, missing: 0, drifted: 0 }
    } else {
        bump(tally(rows.drop_last()), rows.last())
    }
}

/// Everything a snapshot is built from, gathered by the host in one pass. The lists
/// keyed by resource id are read as maps by their first entry for an id
/// (`seqs::lookup`, `seqs::law_lookup_takes_first`).
pub struct SnapshotInputs<'a> {
    pub resources: &'a [AnalyticsResource],
    /// Scan findings by resource id (rows not listed are `Normal`).
    pub statuses: &'a [(String, ArchiveStatus)],
    /// Number of history versions by resource id.
    pub history_counts: &'a [(String, i64)],
    /// Tags by resource id.
    pub tags: &'a [(String, Vec<AnalyticsTag>)],
    pub tag_dictionary: Vec<TagOption>,
    /// Group (folder id) by resource id.
    pub folders: &'a [(String, String)],
    pub group_dictionary: Vec<GroupOption>,
    pub read_only: bool,
    pub now: Timestamp,
}

/// The history count of a resource, zero when not listed (the first count listed
/// for the id counts).
pub open spec fn history_count_of(counts: Seq<(String, i64)>, id: Seq<char>) -> i64 {
    match lookup(counts, id) {
        Some(c) => c,
        None => 0i64,
    }
}

/// Builds the panel snapshot: one row and one detail per record, in order, the
/// status line counts of the rows, and the read-only flag and dictionaries as given.
pub fn build_snapshot(inputs: SnapshotInputs) -> (snap: ResourcesSnapshot)
    requires
        forall|i: int| 0 <= i < inputs.resources@.len() ==> (#[trigger] inputs.resources@[i]).wf(),
        inputs.now.wf(),
    ensures
        rows_view(snap.rows@) == inputs.resources@.map_values(
            |r: AnalyticsResource| row_of(r, inputs.statuses@, inputs.tags@, inputs.folders@, inputs.now),
        ),
        snap.details@.len() == inputs.resources@.len(),
        forall|i: int| 0 <= i < inputs.resources@.len() ==> is_detail_of(
            #[trigger] snap.details@[i],
            inputs.resources@[i],
            snap.rows@[i].status,
            history_count_of(inputs.history_counts@, inputs.resources@[i].id@),
            snap.rows@[i].tags@,
        ),
        snap.counts == tally(rows_view(snap.rows@)),
        snap.read_only == inputs.read_only,
        snap.tags@ == inputs.tag_dictionary@,
        snap.groups@ == inputs.group_dictionary@,
{
    let SnapshotInputs {
        resources,
        statuses,
        history_counts,
        tags,
        tag_dictionary,
        folders,
        group_dictionary,
        read_only,
        now,
    } = inputs;
    let ghost row_spec = |r: AnalyticsResource| row_of(r, statuses@, tags@, folders@, now);
    let mut counts = ArchiveCounts { total: 0, archived: 0, analysis: 0, table_ref: 0, missing: 0, drifted: 0 };
    let mut rows: Vec<ArchiveRow> = Vec::new();
    let mut details: Vec<ArchiveDetail> = Vec::new();
    let mut i: usize = 0;
    while i < resources.len()
        invariant
            i <= resources.len(),
            forall|k: int| 0 <= k < resources@.len() ==> (#[trigger] resources@[k]).wf(),
            now.wf(),
            row_spec == (|r: AnalyticsResource| row_of(r, statuses@, tags@, folders@, now)),
            rows@.len() == i,
            details@.len() == i,
            rows_view(rows@) == resources@.take(i as int).map_values(row_spec),
            forall|k: int| 0 <= k < i ==> is_detail_of(
                #[trigger] details@[k],
                resources@[k],
                rows@[k].status,
                history_count_of(history_counts@, resources@[k].id@),
                rows@[k].tags@,
            ),
            counts == tally(rows_view(rows@)),
            counts.total == i,
            counts.archived <= i && counts.analysis <= i && counts.table_ref <= i,
            counts.missing <= i && counts.drifted <= i,
        decreases resources.len() - i,
    {
        let resource = &resources[i];
        let row = to_row(resource, statuses, tags, folders, now);
        let ghost before = rows_view(rows@);
        proof {
            assert(rows_view(rows@.push(row)) == before.push(row@));
            assert(rows_view(rows@.push(row)).drop_last() == before);
        }
        match row.status {
            ArchiveStatus::Missing => counts.missing = counts.missing + 1,
            ArchiveStatus::ContentChanged => counts.drifted = counts.drifted + 1,
            ArchiveStatus::Normal => match row.kind {
                ArchiveKind::File => counts.archived = counts.archived + 1,
                ArchiveKind::Analysis => counts.analysis = counts.analysis + 1,
                ArchiveKind::TableRef => counts.table_ref = counts.table_ref + 1,
            },
        }
        counts.total = counts.total + 1;
        let history_count: i64 = match find_key(history_counts, resource.id.as_str()) {
            Some(k) => history_counts[k].1,
            None => 0,
        };
        let detail = to_detail(resource, row.status, history_count, row.tags.as_slice());
        details.push(detail);
        rows.push(row);
        assert(resources@.take(i + 1) == resources@.take(i as int).push(resources@[i as int]));
        assert(rows_view(rows@) == before.push(row_spec(resources@[i as int])));
        i += 1;
    }
    assert(resources@.take(resources.len() as int) == resources@);
    ResourcesSnapshot { rows, counts, read_only, details, tags: tag_dictionary, groups: group_dictionary }
}

/// Where the last segment of a path starts: after its last `/`, or at 0.
pub open spec fn name_start(s: Seq<char>) -> int
    decreases s.len(),
{
    if s.len() == 0 {
        0
    } else if s.last() == '/' {
        s.len() as int
    } else {
        name_start(s.drop_last())
    }
}

/// The last segment of a path (the text after its last `/`).
pub open spec fn file_name_text(s: Seq<char>) -> Seq<char> {
    s.skip(name_start(s))
}

/// The file name of a payload path (the title of an untracked file's row).
pub(crate) fn file_name_of(rel_path: &str) -> (r: String)
    ensures
        r@ == file_name_text(rel_path@),
{
    let v = chars_of(rel_path);
    let mut start: usize = 0;
    let mut i: usize = 0;
    while i < v.len()
        invariant
            i <= v.len(),
            start <= i,
            start == name_start(v@.take(i as int)),
        decreases v.len() - i,
    {
        assert(v@.take(i + 1).drop_last() == v@.take(i as int));
        if v[i] == '/' {
            start = i + 1;
        }
        i += 1;
    }
    assert(v@.take(v.len() as int) == v@);
    crate::text::string_of_range(&v, start, v.len())
}

/// The place of a group in the dialog (its position in [`RepairGroup::ALL`]).
fn group_order(group: RepairGroup) -> (r: u8)
    ensures
        r as int == group_rank(group),
{
    match group {
        RepairGroup::Untracked => 0,
        RepairGroup::Missing => 1,
        RepairGroup::Changed => 2,
    }
}

/// The repair row of a finding.
pub open spec fn repair_row_of(issue: IssueView) -> RepairRowView {
    match issue {
        IssueView::Untracked { rel_path } => RepairRowView {
            group: RepairGroup::Untracked,
            title: file_name_text(rel_path),
            detail: "本体 resources/"@ + rel_path + "：存在但没有登记记录"@,
            hash_detail: Seq::empty(),
            rel_path,
            resource_id: None,
        },
        IssueView::Missing { resource_id, name, rel_path } => RepairRowView {
            group: RepairGroup::Missing,
            title: name,
            detail: "期望位置 resources/"@ + rel_path + "：本体不在了"@,
            hash_detail: Seq::empty(),
            rel_path,
            resource_id: Some(resource_id),
        },
        IssueView::Changed { resource_id, name, rel_path, expected_hash, actual_hash } => RepairRowView {
            group: RepairGroup::Changed,
            title: name,
            detail: "本体 resources/"@ + rel_path + "：内容与登记不符"@,
            hash_detail: "登记 "@ + short_hash_text(Some(expected_hash)) + " · 实际 "@ + short_hash_text(
                Some(actual_hash),
            ),
            rel_path,
            resource_id: Some(resource_id),
        },
    }
}

/// The sort key of a repair row: its group's place, then its payload path.
pub open spec fn repair_key(r: RepairRowView) -> (int, Seq<char>) {
    (group_rank(r.group), r.rel_path)
}

/// A string of the three parts.
fn concat3(a: &str, b: &str, c: &str) -> (s: String)
    ensures
        s@ == a@ + b@ + c@,
{
    let mut out = String::new();
    push_str(&mut out, a);
    push_str(&mut out, b);
    push_str(&mut out, c);
    out
}

/// The repair row of one finding.
fn repair_row(issue: &IndexIssue) -> (r: RepairRow)
    ensures
        r@ == repair_row_of(issue@),
{
    match issue {
        IndexIssue::UntrackedFile { rel_path } => RepairRow {
            group: RepairGroup::Untracked,
            title: file_name_of(rel_path.as_str()),
            detail: concat3("本体 resources/", rel_path.as_str(), "：存在但没有登记记录"),
            hash_detail: String::new(),
            rel_path: rel_path.clone(),
            resource_id: None,
        },
        IndexIssue::MissingPayload { resource_id, name, rel_path } => RepairRow {
            group: RepairGroup::Missing,
            title: name.clone(),
            detail: concat3("期望位置 resources/", rel_path.as_str(), "：本体不在了"),
            hash_detail: String::new(),
            rel_path: rel_path.clone(),
            resource_id: Some(resource_id.clone()),
        },
        IndexIssue::ContentChanged { resource_id, name, rel_path, expected_hash, actual_hash } => {
            let expected = short_hash(Some(expected_hash.as_str()));
            let actual = short_hash(Some(actual_hash.as_str()));
            let mut hash_detail = String::new();
            push_str(&mut hash_detail, "登记 ");
            push_str(&mut hash_detail, expected.as_str());
            push_str(&mut hash_detail, " · 实际 ");
            push_str(&mut hash_detail, actual.as_str());
            RepairRow {
                group: RepairGroup::Changed,
                title: name.clone(),
                detail: concat3("本体 resources/", rel_path.as_str(), "：内容与登记不符"),
                hash_detail,
                rel_path: rel_path.clone(),
                resource_id: Some(resource_id.clone()),
            }
        },
    }
}

/// The rows of the repair dialog: one per finding, ordered by group (as in
/// [`RepairGroup::ALL`]) and within a group by payload path, stably.
pub fn build_repair_rows(report: &IndexScanReport) -> (rows: Vec<RepairRow>)
    ensures
        arranged_stably(
            repair_rows_view(rows@),
            issues_view(report.issues@).map_values(|i: IssueView| repair_row_of(i)),
            issues_view(report.issues@).map_values(|i: IssueView| repair_key(repair_row_of(i))),
        ),
{
    let ghost unsorted = issues_view(report.issues@).map_values(|i: IssueView| repair_row_of(i));
    let ghost keys = issues_view(report.issues@).map_values(|i: IssueView| repair_key(repair_row_of(i)));
    let issues = &report.issues;
    let mut mapped: Vec<RepairRow> = Vec::new();
    let mut ranks: Vec<i64> = Vec::new();
    let mut texts: Vec<Vec<char>> = Vec::new();
    let mut i: usize = 0;
    while i < issues.len()
        invariant
            i <= issues.len(),
            unsorted == issues_view(issues@).map_values(|i: IssueView| repair_row_of(i)),
            keys == issues_view(issues@).map_values(|i: IssueView| repair_key(repair_row_of(i))),
            mapped.len() == i && ranks.len() == i && texts.len() == i,
            forall|k: int| 0 <= k < i ==> (#[trigger] mapped@[k])@ == unsorted[k],
            forall|k: int| 0 <= k < i ==> keys_of(ranks@, texts@)[k] == #[trigger] keys[k],
        decreases issues.len() - i,
    {
        let row = repair_row(&issues[i]);
        let ghost pr = ranks@;
        let ghost pt = texts@;
        ranks.push(group_order(row.group) as i64);
        texts.push(chars_of(row.rel_path.as_str()));
        mapped.push(row);
        proof {
            assert forall|k: int| 0 <= k < i + 1 implies keys_of(ranks@, texts@)[k] == #[trigger] keys[k] by {
                if k < i {
                    assert(ranks@[k] == pr[k] && texts@[k] == pt[k]);
                    assert(keys_of(ranks@, texts@)[k] == keys_of(pr, pt)[k]);
                } else {
                    assert(issues_view(issues@)[k] == issues@[k]@);
                }
            };
        }
        i += 1;
    }
    assert(keys_of(ranks@, texts@) == keys);
    let idx = stable_order(&ranks, &texts);
    let mut out: Vec<RepairRow> = Vec::new();
    let mut m: usize = 0;
    while m < idx.len()
        invariant
            m <= idx.len() == mapped.len(),
            forall|a: int| 0 <= a < idx.len() ==> #[trigger] idx@[a] < mapped.len(),
            out.len() == m,
            forall|a: int| 0 <= a < m ==> (#[trigger] out@[a])@ == mapped@[idx@[a] as int]@,
        decreases idx.len() - m,
    {
        out.push(mapped[idx[m]].duplicate());
        m += 1;
    }
    proof {
        let p = idx@.map_values(|x: usize| x as int);
        assert(sorts_stably(p, keys));
        let rv = repair_rows_view(out@);
        assert forall|k: int| 0 <= k < unsorted.len() implies rv[k] == unsorted[#[trigger] p[k]] by {}
    }
    out
}

/// The entry belongs to this module.
pub open spec fn is_own(m: TrashManifest) -> bool {
    m.origin@ == crate::model::ORIGIN_RESOURCES@
}

/// The trash row of an entry: where it would be restored (its name for entries
/// without a path), file or folder, the absolute deletion time, and the size of files.
pub open spec fn trash_row_of(m: TrashManifest) -> TrashRowView {
    TrashRowView {
        trash_id: m.id@,
        name: m.name@,
        original_label: if is_blank(m.original_rel_path@) {
            m.name@
        } else {
            "resources/"@ + m.original_rel_path@
        },
        kind_label: match m.kind {
            TrashKind::File => "文件"@,
            TrashKind::Folder => "目录"@,
        },
        time_label: utc_minute_text(m.deleted_at.secs, m.deleted_at.nanos),
        size_label: match m.kind {
            TrashKind::File => size_label(Some(if m.size > 0x7fff_ffff { 0x7fff_ffffi32 } else { m.size as i32 })),
            TrashKind::Folder => Seq::empty(),
        },
    }
}

/// The rows of this module's entries, in order.
pub open spec fn own_rows(es: Seq<TrashEntry>) -> Seq<TrashRowView>
    decreases es.len(),
{
    if es.len() == 0 {
        Seq::empty()
    } else if is_own(es.last().manifest) {
        own_rows(es.drop_last()).push(trash_row_of(es.last().manifest))
    } else {
        own_rows(es.drop_last())
    }
}

/// One more entry of origin `o` in a list of counts by origin.
pub open spec fn bump_origin(list: Seq<(Seq<char>, nat)>, o: Seq<char>) -> Seq<(Seq<char>, nat)>
    decreases list.len(),
{
    if list.len() == 0 {
        seq![(o, 1nat)]
    } else if list[0].0 == o {
        list.update(0, (o, list[0].1 + 1))
    } else {
        seq![list[0]] + bump_origin(list.drop_first(), o)
    }
}

/// Counts of other modules' entries by origin, in the order the origins first appear.
pub open spec fn foreign_counts(es: Seq<TrashEntry>) -> Seq<(Seq<char>, nat)>
    decreases es.len(),
{
    if es.len() == 0 {
        Seq::empty()
    } else if is_own(es.last().manifest) {
        foreign_counts(es.drop_last())
    } else {
        bump_origin(foreign_counts(es.drop_last()), es.last().manifest.origin@)
    }
}

/// Bumping an origin found at `p` increments that count; an absent one is appended.
proof fn lemma_bump_origin(list: Seq<(Seq<char>, nat)>, o: Seq<char>, p: int)
    requires
        0 <= p <= list.len(),
        forall|j: int| 0 <= j < p ==> list[j].0 != o,
        p < list.len() ==> list[p].0 == o,
    ensures
        p < list.len() ==> bump_origin(list, o) == list.update(p, (o, list[p].1 + 1)),
        p == list.len() ==> bump_origin(list, o) == list.push((o, 1nat)),
    decreases list.len(),
{
    if list.len() == 0 {
        assert(seq![(o, 1nat)] == list.push((o, 1nat)));
    } else if list[0].0 == o {
    } else {
        lemma_bump_origin(list.drop_first(), o, p - 1);
        if p < list.len() {
            assert(seq![list[0]] + list.drop_first().update(p - 1, (o, list[p].1 + 1)) == list.update(p, (o, list[p].1 + 1)));
        } else {
            assert(seq![list[0]] + list.drop_first().push((o, 1nat)) == list.push((o, 1nat)));
        }
    }
}

/// The sum of the counts in a list of counts by origin.
pub open spec fn counts_total(list: Seq<(Seq<char>, nat)>) -> nat
    decreases list.len(),
{
    if list.len() == 0 {
        0
    } else {
        list[0].1 + counts_total(list.drop_first())
    }
}

/// The number of entries of other modules.
pub open spec fn foreign_entries(es: Seq<TrashEntry>) -> nat
    decreases es.len(),
{
    if es.len() == 0 {
        0
    } else {
        foreign_entries(es.drop_last()) + if is_own(es.last().manifest) {
            0nat
        } else {
            1nat
        }
    }
}

/// The origins of a list of counts by origin.
pub open spec fn origins(list: Seq<(Seq<char>, nat)>) -> Seq<Seq<char>> {
    list.map_values(|x: (Seq<char>, nat)| x.0)
}

/// Bumping an origin adds one to the total.
proof fn lemma_bump_total(list: Seq<(Seq<char>, nat)>, o: Seq<char>)
    ensures
        counts_total(bump_origin(list, o)) == counts_total(list) + 1,
    decreases list.len(),
{
    if list.len() == 0 {
        assert(seq![(o, 1nat)].drop_first() == Seq::<(Seq<char>, nat)>::empty());
        assert(counts_total(Seq::<(Seq<char>, nat)>::empty()) == 0);
        assert(counts_total(list) == 0);
    } else if list[0].0 == o {
        assert(list.update(0, (o, list[0].1 + 1)).drop_first() == list.drop_first());
    } else {
        lemma_bump_total(list.drop_first(), o);
        assert((seq![list[0]] + bump_origin(list.drop_first(), o)).drop_first() == bump_origin(list.drop_first(), o));
    }
}

/// Bumping an origin keeps the origins it had and adds `o`, each origin once.
proof fn lemma_bump_origins(list: Seq<(Seq<char>, nat)>, o: Seq<char>)
    requires
        origins(list).no_duplicates(),
    ensures
        origins(bump_origin(list, o)).no_duplicates(),
        forall|k: Seq<char>| #[trigger] origins(bump_origin(list, o)).contains(k) <==> (origins(list).contains(k) || k == o),
    decreases list.len(),
{
    let b = bump_origin(list, o);
    if list.len() == 0 {
        assert(origins(b) == seq![o]);
        assert forall|k: Seq<char>| origins(b).contains(k) <==> (origins(list).contains(k) || k == o) by {
            if origins(b).contains(k) {
                let j = choose|j: int| 0 <= j < origins(b).len() && origins(b)[j] == k;
                assert(j == 0);
            }
            if k == o {
                assert(origins(b)[0] == k);
            }
        }
    } else if list[0].0 == o {
        assert(origins(b) == origins(list));
        assert(origins(list)[0] == o);
        assert(origins(list).contains(o));
    } else {
        let rest = list.drop_first();
        assert(origins(rest) == origins(list).drop_first());
        lemma_bump_origins(rest, o);
        let br = bump_origin(rest, o);
        assert(origins(b) == seq![list[0].0] + origins(br));
        assert(!origins(rest).contains(list[0].0)) by {
            if origins(rest).contains(list[0].0) {
                let j = choose|j: int| 0 <= j < origins(rest).len() && origins(rest)[j] == list[0].0;
                assert(origins(list)[j + 1] == origins(list)[0]);
            }
        }
        assert(!origins(br).contains(list[0].0));
        assert forall|i: int, j: int|
            0 <= i < origins(b).len() && 0 <= j < origins(b).len() && i != j implies origins(b)[i] != origins(b)[j] by {
            if i > 0 && j > 0 {
                assert(origins(b)[i] == origins(br)[i - 1]);
                assert(origins(b)[j] == origins(br)[j - 1]);
            } else if i == 0 {
                assert(origins(b)[j] == origins(br)[j - 1]);
                assert(origins(br).contains(origins(br)[j - 1]));
            } else {
                assert(origins(b)[i] == origins(br)[i - 1]);
                assert(origins(br).contains(origins(br)[i - 1]));
            }
        }
        assert forall|k: Seq<char>| origins(b).contains(k) <==> (origins(list).contains(k) || k == o) by {
            if origins(b).contains(k) {
                let j = choose|j: int| 0 <= j < origins(b).len() && origins(b)[j] == k;
                if j > 0 {
                    assert(origins(br)[j - 1] == k);
                    assert(origins(br).contains(k));
                    if origins(rest).contains(k) {
                        let m = choose|m: int| 0 <= m < origins(rest).len() && origins(rest)[m] == k;
                        assert(origins(list)[m + 1] == k);
                        assert(origins(list).contains(k));
                    }
                } else {
                    assert(origins(list)[0] == k);
                    assert(origins(list).contains(k));
                }
            }
            if origins(list).contains(k) {
                let j = choose|j: int| 0 <= j < origins(list).len() && origins(list)[j] == k;
                if j > 0 {
                    assert(origins(rest)[j - 1] == k);
                    assert(origins(rest).contains(k));
                    assert(origins(br).contains(k));
                    let m = choose|m: int| 0 <= m < origins(br).len() && origins(br)[m] == k;
                    assert(origins(b)[m + 1] == k);
                    assert(origins(b).contains(k));
                } else {
                    assert(origins(b)[0] == k);
                    assert(origins(b).contains(k));
                }
            }
            if k == o {
                assert(origins(br).contains(k));
                let m = choose|m: int| 0 <= m < origins(br).len() && origins(br)[m] == k;
                assert(origins(b)[m + 1] == k);
                assert(origins(b).contains(k));
            }
        }
    }
}

/// The counts by origin in the trash dialog add up to the number of entries of
/// other modules, and name each origin once.
pub proof fn law_foreign_counts_cover_other_entries(es: Seq<TrashEntry>)
    ensures
        counts_total(foreign_counts(es)) == foreign_entries(es),
        origins(foreign_counts(es)).no_duplicates(),
        own_rows(es).len() + foreign_entries(es) == es.len(),
    decreases es.len(),
{
    if es.len() > 0 {
        law_foreign_counts_cover_other_entries(es.drop_last());
        if !is_own(es.last().manifest) {
            lemma_bump_total(foreign_counts(es.drop_last()), es.last().manifest.origin@);
            lemma_bump_origins(foreign_counts(es.drop_last()), es.last().manifest.origin@);
        }
    }
}

/// The trash dialog's data: this module's rows and the others' counts by origin.
#[derive(Debug, Clone, PartialEq, Eq)]
pub struct TrashSnapshot {
    pub rows: Vec<TrashRow>,
    /// Origin → number of entries (this module left out).
    pub foreign: Vec<(String, usize)>,
}

/// The view of a list of counts by origin.
pub open spec fn origin_counts_view(v: Seq<(String, usize)>) -> Seq<(Seq<char>, nat)> {
    v.map_values(|x: (String, usize)| (x.0@, x.1 as nat))
}

/// The row of one entry.
fn trash_row(m: &TrashManifest) -> (r: TrashRow)
    requires
        m.deleted_at.wf(),
    ensures
        r@ == trash_row_of(*m),
{
    let original_label = if blank(m.original_rel_path.as_str()) {
        m.name.clone()
    } else {
        concat3("resources", "/", m.original_rel_path.as_str())
    };
    proof {
        reveal_strlit("resources");
        reveal_strlit("/");
        reveal_strlit("resources/");
        assert("resources"@ + "/"@ == "resources/"@);
    }
    let kind_label = match m.kind {
        TrashKind::File => crate::text::owned("文件"),
        TrashKind::Folder => crate::text::owned("目录"),
    };
    let size_label = match m.kind {
        TrashKind::File => {
            let clamped: i32 = if m.size > 0x7fff_ffff { 0x7fff_ffff } else { m.size as i32 };
            format_size(Some(clamped))
        },
        TrashKind::Folder => String::new(),
    };
    TrashRow {
        trash_id: m.id.clone(),
        name: m.name.clone(),
        original_label,
        kind_label,
        time_label: format_timestamp(m.deleted_at),
        size_label,
    }
}

/// The trash dialog's data from the project trash: rows for this module's entries
/// only (in the given order), and for the others only their origin and count.
pub fn build_trash_snapshot(entries: &[TrashEntry]) -> (snap: TrashSnapshot)
    requires
        forall|i: int| 0 <= i < entries@.len() ==> (#[trigger] entries@[i]).manifest.deleted_at.wf(),
    ensures
        trash_rows_view(snap.rows@) == own_rows(entries@),
        origin_counts_view(snap.foreign@) == foreign_counts(entries@),
{
    let mut rows: Vec<TrashRow> = Vec::new();
    let mut foreign: Vec<(String, usize)> = Vec::new();
    let mut i: usize = 0;
    while i < entries.len()
        invariant
            i <= entries.len(),
            forall|k: int| 0 <= k < entries@.len() ==> (#[trigger] entries@[k]).manifest.deleted_at.wf(),
            trash_rows_view(rows@) == own_rows(entries@.take(i as int)),
            origin_counts_view(foreign@) == foreign_counts(entries@.take(i as int)),
            forall|k: int| 0 <= k < foreign@.len() ==> (#[trigger] foreign@[k]).1 <= i,
        decreases entries.len() - i,
    {
        let m = &entries[i].manifest;
        assert(entries@.take(i + 1).drop_last() == entries@.take(i as int));
        assert(entries@.take(i + 1).last() == entries@[i as int]);
        if !crate::text::str_eq(m.origin.as_str(), crate::model::ORIGIN_RESOURCES) {
            let ghost before = origin_counts_view(foreign@);
            let mut p: usize = 0;
            while p < foreign.len() && !crate::text::str_eq(foreign[p].0.as_str(), m.origin.as_str())
                invariant
                    p <= foreign.len(),
                    before == origin_counts_view(foreign@),
                    forall|j: int| 0 <= j < p ==> before[j].0 != m.origin@,
                decreases foreign.len() - p,
            {
                p += 1;
            }
            proof {
                lemma_bump_origin(before, m.origin@, p as int);
            }
            if p < foreign.len() {
                let count = foreign[p].1 + 1;
                let key = foreign[p].0.clone();
                foreign.set(p, (key, count));
                assert(origin_counts_view(foreign@) == before.update(p as int, (m.origin@, before[p as int].1 + 1)));
            } else {
                foreign.push((m.origin.clone(), 1));
                assert(origin_counts_view(foreign@) == before.push((m.origin@, 1nat)));
            }
        } else {
            let row = trash_row(m);
            let ghost prev = rows@;
            rows.push(row);
            assert(trash_rows_view(rows@) == trash_rows_view(prev).push(trash_row_of(*m)));
        }
        i += 1;
    }
    assert(entries@.take(entries.len() as int) == entries@);
    TrashSnapshot { rows, foreign }
}

/// A version to list, from the registry row (the current one) or the history.
pub struct Candidate {
    pub version: i32,
    pub size: Option<i32>,
    pub hash: Option<String>,
    pub time: Timestamp,
    pub is_current: bool,
    pub has_copy: bool,
}

/// The mathematical content of a version to list.
pub struct CandidateView {
    pub version: i32,
    pub size: Option<i32>,
    pub hash: Option<Seq<char>>,
    pub time: Timestamp,
    pub is_current: bool,
    pub has_copy: bool,
}

impl View for Candidate {
    type V = CandidateView;

    open spec fn view(&self) -> CandidateView {
        CandidateView {
            version: self.version,
            size: self.size,
            hash: opt_view(self.hash),
            time: self.time,
            is_current: self.is_current,
            has_copy: self.has_copy,
        }
    }
}

/// The current version: on the registry row, its copy being the payload itself.
pub open spec fn current_candidate(current: AnalyticsResource, payload_ok: bool) -> CandidateView {
    CandidateView {
        version: current.version,
        size: current.file_size,
        hash: opt_view(current.content_hash),
        time: match current.archived_at {
            Some(t) => t,
            None => current.updated_at,
        },
        is_current: true,
        has_copy: payload_ok,
    }
}

/// A history version: size and fingerprint from its snapshot (none when unreadable).
pub open spec fn history_candidate(v: ResourceVersion, copies: Seq<i32>) -> CandidateView {
    CandidateView {
        version: v.version,
        size: match v.snapshot {
            Some(snap) => snap.file_size,
            None => None,
        },
        hash: match v.snapshot {
            Some(snap) => opt_view(snap.content_hash),
            None => None,
        },
        time: v.created_at,
        is_current: false,
        has_copy: copies.contains(v.version),
    }
}

/// The versions to list: the current one, then the history in the given order.
pub open spec fn version_candidates(
    current: AnalyticsResource,
    versions: Seq<ResourceVersion>,
    copies: Seq<i32>,
    payload_ok: bool,
) -> Seq<CandidateView> {
    seq![current_candidate(current, payload_ok)] + versions.map_values(
        |v: ResourceVersion| history_candidate(v, copies),
    )
}

/// The sort key of a version: newest first.
pub open spec fn version_key(c: CandidateView) -> (int, Seq<char>) {
    (-(c.version as int), Seq::empty())
}

/// The size change text: `大小不变`, `大小+1.0 KB`, `大小-1.0 KB`.
pub open spec fn size_change_text(d: int) -> Seq<char> {
    if d == 0 {
        "大小不变"@
    } else if d > 0 {
        "大小+"@ + size_text(d as nat)
    } else {
        "大小-"@ + size_text((-d) as nat)
    }
}

/// The parts of a difference: size when both sides know it, fingerprint when both have one.
pub open spec fn delta_parts(previous: CandidateView, current: CandidateView) -> Seq<Seq<char>> {
    (match (current.size, previous.size) {
        (Some(now), Some(before)) => seq![size_change_text(now - before)],
        _ => Seq::empty(),
    }) + (match (current.hash, previous.hash) {
        (Some(now), Some(before)) => seq![if now == before { "指纹相同"@ } else { "指纹已变"@ }],
        _ => Seq::empty(),
    })
}

/// The difference with the previous version: `较 v1 大小+1.0 KB · 指纹已变`; empty
/// when neither side can be compared.
pub open spec fn delta_text(previous: CandidateView, current: CandidateView) -> Seq<char> {
    let parts = delta_parts(previous, current);
    if parts.len() == 0 {
        Seq::empty()
    } else {
        "较 v"@ + dec_int(previous.version as int) + " "@ + join(parts, " · "@)
    }
}

/// The row of a version; the difference is with the next listed one when it is
/// the version just before.
pub open spec fn version_row_of(c: CandidateView, next: Option<CandidateView>) -> VersionRowView {
    VersionRowView {
        version: c.version,
        is_current: c.is_current,
        time_label: utc_minute_text(c.time.secs, c.time.nanos),
        size_label: size_label(c.size),
        hash_short: short_hash_text(c.hash),
        has_copy: c.has_copy,
        delta_label: match next {
            Some(p) => if p.version == c.version - 1 {
                delta_text(p, c)
            } else {
                Seq::empty()
            },
            None => Seq::empty(),
        },
    }
}

/// The rows of versions already in display order.
pub open spec fn rows_from(sorted: Seq<CandidateView>) -> Seq<VersionRowView> {
    Seq::new(
        sorted.len(),
        |k: int| version_row_of(sorted[k], if k + 1 < sorted.len() { Some(sorted[k + 1]) } else { None }),
    )
}

/// Whether `copies` holds `v`.
fn holds_version(copies: &[i32], v: i32) -> (r: bool)
    ensures
        r == copies@.contains(v),
{
    let mut i: usize = 0;
    while i < copies.len()
        invariant
            i <= copies.len(),
            forall|j: int| 0 <= j < i ==> copies@[j] != v,
        decreases copies.len() - i,
    {
        if copies[i] == v {
            assert(copies@[i as int] == v);
            return true;
        }
        i += 1;
    }
    false
}

/// The difference text of two versions.
fn version_delta(previous_version: i32, previous: &Candidate, current: &Candidate) -> (s: String)
    requires
        previous_version == previous.version,
    ensures
        s@ == delta_text(previous@, current@),
{
    let mut parts: Vec<String> = Vec::new();
    match (current.size, previous.size) {
        (Some(now), Some(before)) => {
            let delta: i64 = now as i64 - before as i64;
            let part = if delta == 0 {
                crate::text::owned("大小不变")
            } else if delta > 0 {
                concat3("大小+", size_string(delta as u64).as_str(), "")
            } else {
                concat3("大小-", size_string((-delta) as u64).as_str(), "")
            };
            proof {
                reveal_strlit("");
                assert("大小+"@ + size_text(delta as nat) + ""@ == "大小+"@ + size_text(delta as nat));
                assert("大小-"@ + size_text((-delta) as nat) + ""@ == "大小-"@ + size_text((-delta) as nat));
            }
            parts.push(part);
        },
        _ => {},
    }
    let ghost size_parts = crate::seqs::views(parts@);
    match (&current.hash, &previous.hash) {
        (Some(now), Some(before)) => {
            let same = crate::text::str_eq(now.as_str(), before.as_str());
            parts.push(crate::text::owned(if same { "指纹相同" } else { "指纹已变" }));
            assert(crate::seqs::views(parts@) == size_parts.push(if now@ == before@ { "指纹相同"@ } else { "指纹已变"@ }));
        },
        _ => {},
    }
    assert(crate::seqs::views(parts@) == delta_parts(previous@, current@));
    if parts.len() == 0 {
        return String::new();
    }
    let mut out = String::new();
    push_str(&mut out, "较 v");
    push_dec_i64(&mut out, previous_version as i64);
    push_str(&mut out, " ");
    let joined = crate::text::join_strings(&parts, " · ");
    push_str(&mut out, joined.as_str());
    out
}

/// The version history rows: the current version and the history, newest first,
/// each with its size, short fingerprint, whether its copy exists, and the
/// difference with the version just before when that one is listed next.
pub fn build_version_rows(
    current: &AnalyticsResource,
    versions: &[ResourceVersion],
    copies: &[i32],
    payload_ok: bool,
) -> (rows: Vec<VersionRow>)
    requires
        current.wf(),
        forall|i: int| 0 <= i < versions@.len() ==> (#[trigger] versions@[i]).created_at.wf(),
    ensures
        exists|sorted: Seq<CandidateView>|
            arranged_stably(
                sorted,
                version_candidates(*current, versions@, copies@, payload_ok),
                version_candidates(*current, versions@, copies@, payload_ok).map_values(
                    |c: CandidateView| version_key(c),
                ),
            ) && version_rows_view(rows@) == rows_from(sorted),
{
    let ghost cands = version_candidates(*current, versions@, copies@, payload_ok);
    let ghost keys = cands.map_values(|c: CandidateView| version_key(c));
    let mut candidates: Vec<Candidate> = Vec::new();
    candidates.push(Candidate {
        version: current.version,
        size: current.file_size,
        hash: crate::resource_view::copy_opt_string(&current.content_hash),
        time: match current.archived_at {
            Some(t) => t,
            None => current.updated_at,
        },
        is_current: true,
        has_copy: payload_ok,
    });
    let mut i: usize = 0;
    while i < versions.len()
        invariant
            i <= versions.len(),
            forall|k: int| 0 <= k < versions@.len() ==> (#[trigger] versions@[k]).created_at.wf(),
            current.wf(),
            cands == version_candidates(*current, versions@, copies@, payload_ok),
            candidates.len() == i + 1,
            forall|k: int| 0 <= k <= i ==> (#[trigger] candidates@[k])@ == cands[k],
            forall|k: int| 0 <= k <= i ==> (#[trigger] candidates@[k]).time.wf(),
        decreases versions.len() - i,
    {
        let v = &versions[i];
        let (size, hash) = match &v.snapshot {
            Some(snap) => (snap.file_size, crate::resource_view::copy_opt_string(&snap.content_hash)),
            None => (None, None),
        };
        candidates.push(Candidate {
            version: v.version,
            size,
            hash,
            time: v.created_at,
            is_current: false,
            has_copy: holds_version(copies, v.version),
        });
        assert(cands[i + 1] == history_candidate(versions@[i as int], copies@));
        i += 1;
    }
    let n = candidates.len();
    let mut ranks: Vec<i64> = Vec::new();
    let mut texts: Vec<Vec<char>> = Vec::new();
    let mut j: usize = 0;
    while j < n
        invariant
            j <= n == candidates.len() == cands.len(),
            keys == cands.map_values(|c: CandidateView| version_key(c)),
            forall|k: int| 0 <= k < n ==> (#[trigger] candidates@[k])@ == cands[k],
            ranks.len() == j && texts.len() == j,
            forall|k: int| 0 <= k < j ==> keys_of(ranks@, texts@)[k] == #[trigger] keys[k],
        decreases n - j,
    {
        let ghost pr = ranks@;
        let ghost pt = texts@;
        ranks.push(-(candidates[j].version as i64));
        texts.push(Vec::new());
        proof {
            assert forall|k: int| 0 <= k < j + 1 implies keys_of(ranks@, texts@)[k] == #[trigger] keys[k] by {
                if k < j {
                    assert(ranks@[k] == pr[k] && texts@[k] == pt[k]);
                    assert(keys_of(ranks@, texts@)[k] == keys_of(pr, pt)[k]);
                } else {
                    assert(texts@[k]@ == Seq::<char>::empty());
                }
            };
        }
        j += 1;
    }
    assert(keys_of(ranks@, texts@) == keys);
    let idx = stable_order(&ranks, &texts);
    let ghost p = idx@.map_values(|x: usize| x as int);
    let ghost sorted = Seq::new(n as nat, |k: int| cands[p[k]]);
    let mut out: Vec<VersionRow> = Vec::new();
    let mut k: usize = 0;
    while k < n
        invariant
            k <= n == idx.len() == candidates.len() == cands.len(),
            forall|a: int| 0 <= a < n ==> #[trigger] idx@[a] < n,
            p == idx@.map_values(|x: usize| x as int),
            sorted == Seq::new(n as nat, |a: int| cands[p[a]]),
            forall|a: int| 0 <= a < n ==> (#[trigger] candidates@[a])@ == cands[a],
            forall|a: int| 0 <= a < n ==> (#[trigger] candidates@[a]).time.wf(),
            out.len() == k,
            forall|a: int| 0 <= a < k ==> (#[trigger] out@[a])@ == rows_from(sorted)[a],
        decreases n - k,
    {
        let c = &candidates[idx[k]];
        assert(c@ == sorted[k as int]);
        let delta_label = if k + 1 < n {
            let prev = &candidates[idx[k + 1]];
            assert(prev@ == sorted[k + 1]);
            if prev.version as i64 == c.version as i64 - 1 {
                version_delta(prev.version, prev, c)
            } else {
                String::new()
            }
        } else {
            String::new()
        };
        let hash_short = match &c.hash {
            Some(h) => short_hash(Some(h.as_str())),
            None => short_hash(None),
        };
        out.push(VersionRow {
            version: c.version,
            is_current: c.is_current,
            time_label: format_timestamp(c.time),
            size_label: format_size(c.size),
            hash_short,
            has_copy: c.has_copy,
            delta_label,
        });
        k += 1;
    }
    assert(version_rows_view(out@) == rows_from(sorted));
    assert(arranged_stably(sorted, cands, keys)) by {
        assert(sorts_stably(p, keys));
    };
    out
}

// ---------------------------------------------------------------- laws

/// Every row is counted in exactly one bucket of the status line: the buckets add
/// up to the total, which is the number of rows.
pub proof fn law_counts_partition_rows(rows: Seq<RowView>)
    requires
        rows.len() <= usize::MAX,
    ensures
        tally(rows).total == rows.len(),
        tally(rows).archived + tally(rows).analysis + tally(rows).table_ref + tally(rows).missing
            + tally(rows).drifted == tally(rows).total,
    decreases rows.len(),
{
    if rows.len() > 0 {
        law_counts_partition_rows(rows.drop_last());
        let c = tally(rows.drop_last());
        assert(c.total < usize::MAX);
        assert(c.archived <= c.total && c.analysis <= c.total && c.table_ref <= c.total);
        assert(c.missing <= c.total && c.drifted <= c.total);
    }
}

/// A moment after `now` (a clock set back) reads `刚刚`, never a negative age.
pub proof fn law_future_reads_just_now(now: Timestamp, then: Timestamp)
    requires
        then.total_nanos() > now.total_nanos(),
    ensures
        relative_text(whole_secs_between(now, then)) == "刚刚"@,
{
}

/// A row's tail is never empty: without size and time it shows the version.
pub proof fn law_tail_never_empty(detail: Seq<char>, modified: Seq<char>, version: i32)
    ensures
        tail_text(detail, modified, version).len() > 0,
{
    reveal_strlit("v");
}

/// Version rows come newest first.
pub proof fn law_version_rows_newest_first(sorted: Seq<CandidateView>, cands: Seq<CandidateView>)
    requires
        arranged_stably(sorted, cands, cands.map_values(|c: CandidateView| version_key(c))),
    ensures
        forall|k: int, l: int|
            0 <= k < l < rows_from(sorted).len() ==> #[trigger] rows_from(sorted)[k].version >= #[trigger] rows_from(
                sorted,
            )[l].version,
{
    let keys = cands.map_values(|c: CandidateView| version_key(c));
    let p = choose|p: Seq<int>|
        sorts_stably(p, keys) && sorted.len() == cands.len() && forall|k: int|
            0 <= k < cands.len() ==> sorted[k] == cands[#[trigger] p[k]];
    assert forall|k: int, l: int| 0 <= k < l < rows_from(sorted).len() implies #[trigger] rows_from(sorted)[k].version
        >= #[trigger] rows_from(sorted)[l].version by {
        assert(crate::sorting::key_before(keys, p[k], p[l]));
        assert(sorted[k] == cands[p[k]] && sorted[l] == cands[p[l]]);
    }
}

/// No two listed versions share a number: the history's versions differ from each
/// other and from the current one.
pub open spec fn distinct_versions(current: AnalyticsResource, versions: Seq<ResourceVersion>) -> bool {
    &&& forall|i: int| 0 <= i < versions.len() ==> (#[trigger] versions[i]).version != current.version
    &&& forall|i: int, j: int|
        0 <= i < versions.len() && 0 <= j < versions.len() && i != j ==> (#[trigger] versions[i]).version
            != (#[trigger] versions[j]).version
}

/// With distinct version numbers, the history lists every version once, strictly
/// newest first, with exactly one current row (the registry's version, its copy
/// being the payload); every other row has a copy exactly when one is kept for
/// it, and a row shows a difference only with the version just before it.
pub proof fn law_version_rows_one_current_strictly_newest_first(
    current: AnalyticsResource,
    versions: Seq<ResourceVersion>,
    copies: Seq<i32>,
    payload_ok: bool,
    sorted: Seq<CandidateView>,
)
    requires
        distinct_versions(current, versions),
        arranged_stably(
            sorted,
            version_candidates(current, versions, copies, payload_ok),
            version_candidates(current, versions, copies, payload_ok).map_values(|c: CandidateView| version_key(c)),
        ),
    ensures
        rows_from(sorted).len() == versions.len() + 1,
        forall|k: int, l: int|
            0 <= k < l < rows_from(sorted).len() ==> #[trigger] rows_from(sorted)[k].version > #[trigger] rows_from(
                sorted,
            )[l].version,
        exists|k: int|
            0 <= k < rows_from(sorted).len() && #[trigger] rows_from(sorted)[k].is_current && rows_from(sorted)[k].version
                == current.version && rows_from(sorted)[k].has_copy == payload_ok,
        forall|k: int|
            0 <= k < rows_from(sorted).len() && #[trigger] rows_from(sorted)[k].is_current ==> rows_from(sorted)[k].version
                == current.version,
        forall|k: int|
            0 <= k < rows_from(sorted).len() && !(#[trigger] rows_from(sorted)[k]).is_current ==> rows_from(
                sorted,
            )[k].has_copy == copies.contains(rows_from(sorted)[k].version),
        forall|k: int|
            0 <= k < rows_from(sorted).len() - 1 && rows_from(sorted)[k + 1].version != rows_from(sorted)[k].version - 1
                ==> (#[trigger] rows_from(sorted)[k]).delta_label.len() == 0,
{
    let cands = version_candidates(current, versions, copies, payload_ok);
    let keys = cands.map_values(|c: CandidateView| version_key(c));
    let rows = rows_from(sorted);
    let p = choose|p: Seq<int>|
        sorts_stably(p, keys) && sorted.len() == cands.len() && forall|k: int|
            0 <= k < cands.len() ==> sorted[k] == cands[#[trigger] p[k]];
    assert forall|a: int| 1 <= a < cands.len() implies (#[trigger] cands[a]).version == versions[a - 1].version
        && !cands[a].is_current && cands[a].has_copy == copies.contains(cands[a].version) by {
        assert(cands[a] == history_candidate(versions[a - 1], copies));
    }
    assert(cands[0] == current_candidate(current, payload_ok));
    assert forall|a: int, b: int| 0 <= a < cands.len() && 0 <= b < cands.len() && a != b implies (#[trigger] cands[a]).version
        != (#[trigger] cands[b]).version by {
        if a > 0 && b > 0 {
            assert(versions[a - 1].version != versions[b - 1].version);
        } else if a == 0 {
            assert(versions[b - 1].version != current.version);
        } else {
            assert(versions[a - 1].version != current.version);
        }
    }
    assert forall|k: int, l: int| 0 <= k < l < rows.len() implies #[trigger] rows[k].version > #[trigger] rows[l].version by {
        assert(key_before(keys, p[k], p[l]));
        assert(sorted[k] == cands[p[k]] && sorted[l] == cands[p[l]]);
        assert(p[k] != p[l]);
        assert(cands[p[k]].version != cands[p[l]].version);
    }
    crate::sorting::lemma_permutation_onto(p, cands.len() as int, 0);
    let k0 = choose|k: int| 0 <= k < cands.len() && p[k] == 0;
    assert(sorted[k0] == cands[0]);
    assert(rows[k0].is_current && rows[k0].version == current.version && rows[k0].has_copy == payload_ok);
    assert forall|k: int| 0 <= k < rows.len() && #[trigger] rows[k].is_current implies rows[k].version == current.version by {
        assert(sorted[k] == cands[p[k]]);
        if p[k] != 0 {
            assert(!cands[p[k]].is_current);
        }
    }
    assert forall|k: int| 0 <= k < rows.len() && !(#[trigger] rows[k]).is_current implies rows[k].has_copy
        == copies.contains(rows[k].version) by {
        assert(sorted[k] == cands[p[k]]);
        if p[k] == 0 {
            assert(cands[0].is_current);
        }
    }
}

/// The repair dialog has one row per finding: as many rows as findings, every
/// finding's row listed, every row a finding's; within a group, rows come by
/// payload path.
pub proof fn law_repair_rows_one_per_finding(rows: Seq<RepairRowView>, issues: Seq<IssueView>)
    requires
        arranged_stably(
            rows,
            issues.map_values(|i: IssueView| repair_row_of(i)),
            issues.map_values(|i: IssueView| repair_key(repair_row_of(i))),
        ),
    ensures
        rows.len() == issues.len(),
        forall|i: int| 0 <= i < issues.len() ==> #[trigger] rows.contains(repair_row_of(issues[i])),
        forall|k: int| 0 <= k < rows.len() ==> exists|i: int| 0 <= i < issues.len() && #[trigger] rows[k] == repair_row_of(issues[i]),
        forall|k: int, l: int|
            0 <= k < l < rows.len() && (#[trigger] rows[k]).group == (#[trigger] rows[l]).group ==> crate::text::text_order(
                rows[k].rel_path,
                rows[l].rel_path,
            ) <= 0,
{
    let unsorted = issues.map_values(|i: IssueView| repair_row_of(i));
    let keys = issues.map_values(|i: IssueView| repair_key(repair_row_of(i)));
    let p = choose|p: Seq<int>|
        sorts_stably(p, keys) && rows.len() == unsorted.len() && forall|k: int|
            0 <= k < unsorted.len() ==> rows[k] == unsorted[#[trigger] p[k]];
    assert forall|i: int| 0 <= i < issues.len() implies #[trigger] rows.contains(repair_row_of(issues[i])) by {
        crate::sorting::lemma_permutation_onto(p, issues.len() as int, i);
        let k = choose|k: int| 0 <= k < issues.len() && p[k] == i;
        assert(rows[k] == unsorted[p[k]]);
        assert(unsorted[i] == repair_row_of(issues[i]));
    }
    assert forall|k: int| 0 <= k < rows.len() implies exists|i: int| 0 <= i < issues.len() && #[trigger] rows[k] == repair_row_of(issues[i]) by {
        assert(rows[k] == unsorted[p[k]]);
        assert(unsorted[p[k]] == repair_row_of(issues[p[k]]));
    }
    assert forall|k: int, l: int|
        0 <= k < l < rows.len() && (#[trigger] rows[k]).group == (#[trigger] rows[l]).group implies crate::text::text_order(
            rows[k].rel_path,
            rows[l].rel_path,
        ) <= 0 by {
        assert(key_before(keys, p[k], p[l]));
        assert(rows[k] == unsorted[p[k]] && rows[l] == unsorted[p[l]]);
        assert(keys[p[k]] == repair_key(rows[k]));
        assert(keys[p[l]] == repair_key(rows[l]));
    }
}

/// Repair rows come grouped in the order of [`RepairGroup::ALL`].
pub proof fn law_repair_rows_grouped(rows: Seq<RepairRowView>, unsorted: Seq<RepairRowView>)
    requires
        arranged_stably(rows, unsorted, unsorted.map_values(|r: RepairRowView| repair_key(r))),
    ensures
        forall|k: int, l: int|
            0 <= k < l < rows.len() ==> group_rank(#[trigger] rows[k].group) <= group_rank(#[trigger] rows[l].group),
{
    let keys = unsorted.map_values(|r: RepairRowView| repair_key(r));
    let p = choose|p: Seq<int>|
        sorts_stably(p, keys) && rows.len() == unsorted.len() && forall|k: int|
            0 <= k < unsorted.len() ==> rows[k] == unsorted[#[trigger] p[k]];
    assert forall|k: int, l: int| 0 <= k < l < rows.len() implies group_rank(#[trigger] rows[k].group) <= group_rank(
        #[trigger] rows[l].group,
    ) by {
        assert(crate::sorting::key_before(keys, p[k], p[l]));
        assert(rows[k] == unsorted[p[k]] && rows[l] == unsorted[p[l]]);
    }
}

} // verus!
