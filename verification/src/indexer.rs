//! Index repair: the three kinds of difference between the payload directory (the
//! authority) and the registry (the index). Scanning only reports; every change is
//! made by the caller after the user confirmed it.

use vstd::prelude::*;

use crate::seqs::views;
use crate::text::{push_str, str_eq};

verus! {

/// One difference between payloads and registry.
#[derive(Debug, Clone, PartialEq, Eq)]
pub enum IndexIssue {
    /// A file without a record.
    UntrackedFile { rel_path: String },
    /// A record without its payload.
    MissingPayload { resource_id: String, name: String, rel_path: String },
    /// The payload's fingerprint differs from the recorded one.
    ContentChanged {
        resource_id: String,
        name: String,
        rel_path: String,
        expected_hash: String,
        actual_hash: String,
    },
}

/// The mathematical content of an issue.
pub enum IssueView {
    Untracked { rel_path: Seq<char> },
    Missing { resource_id: Seq<char>, name: Seq<char>, rel_path: Seq<char> },
    Changed {
        resource_id: Seq<char>,
        name: Seq<char>,
        rel_path: Seq<char>,
        expected_hash: Seq<char>,
        actual_hash: Seq<char>,
    },
}

impl View for IndexIssue {
    type V = IssueView;

    open spec fn view(&self) -> IssueView {
        match self {
            IndexIssue::UntrackedFile { rel_path } => IssueView::Untracked { rel_path: rel_path@ },
            IndexIssue::MissingPayload { resource_id, name, rel_path } => IssueView::Missing {
                resource_id: resource_id@,
                name: name@,
                rel_path: rel_path@,
            },
            IndexIssue::ContentChanged { resource_id, name, rel_path, expected_hash, actual_hash } =>
                IssueView::Changed {
                resource_id: resource_id@,
                name: name@,
                rel_path: rel_path@,
                expected_hash: expected_hash@,
                actual_hash: actual_hash@,
            },
        }
    }
}

/// The views of a list of issues.
pub open spec fn issues_view(s: Seq<IndexIssue>) -> Seq<IssueView> {
    s.map_values(|i: IndexIssue| i@)
}

/// The archive an issue concerns (none for an untracked file).
pub open spec fn issue_resource_id(i: IssueView) -> Option<Seq<char>> {
    match i {
        IssueView::Untracked { .. } => None,
        IssueView::Missing { resource_id, .. } => Some(resource_id),
        IssueView::Changed { resource_id, .. } => Some(resource_id),
    }
}

/// The payload path an issue concerns.
pub open spec fn issue_rel_path(i: IssueView) -> Seq<char> {
    match i {
        IssueView::Untracked { rel_path } => rel_path,
        IssueView::Missing { rel_path, .. } => rel_path,
        IssueView::Changed { rel_path, .. } => rel_path,
    }
}

/// The one-line summary of an issue.
pub open spec fn issue_summary(i: IssueView) -> Seq<char> {
    match i {
        IssueView::Untracked { rel_path } => "resources/"@ + rel_path + "：本体存在但没有登记记录"@,
        IssueView::Missing { name, rel_path, .. } => "存档「"@ + name + "」的本体缺失（期望位置 resources/"@
            + rel_path + "）"@,
        IssueView::Changed { name, rel_path, .. } => "存档「"@ + name + "」的内容已变（resources/"@ + rel_path
            + "）"@,
    }
}

impl IndexIssue {
    /// The archive concerned (`None` for an untracked file).
    pub fn resource_id(&self) -> (r: Option<&str>)
        ensures
            match r {
                Some(s) => issue_resource_id(self@) == Some(s@),
                None => issue_resource_id(self@) is None,
            },
    {
        match self {
            IndexIssue::UntrackedFile { .. } => None,
            IndexIssue::MissingPayload { resource_id, .. } => Some(resource_id.as_str()),
            IndexIssue::ContentChanged { resource_id, .. } => Some(resource_id.as_str()),
        }
    }

    /// The payload path concerned.
    pub fn rel_path(&self) -> (r: &str)
        ensures
            r@ == issue_rel_path(self@),
    {
        match self {
            IndexIssue::UntrackedFile { rel_path } => rel_path.as_str(),
            IndexIssue::MissingPayload { rel_path, .. } => rel_path.as_str(),
            IndexIssue::ContentChanged { rel_path, .. } => rel_path.as_str(),
        }
    }

    /// One sentence for the grouped list.
    pub fn summary(&self) -> (s: String)
        ensures
            s@ == issue_summary(self@),
    {
        match self {
            IndexIssue::UntrackedFile { rel_path } => {
                let mut s = crate::text::owned("resources/");
                push_str(&mut s, rel_path.as_str());
                push_str(&mut s, "：本体存在但没有登记记录");
                s
            },
            IndexIssue::MissingPayload { name, rel_path, .. } => {
                let mut s = crate::text::owned("存档「");
                push_str(&mut s, name.as_str());
                push_str(&mut s, "」的本体缺失（期望位置 resources/");
                push_str(&mut s, rel_path.as_str());
                push_str(&mut s, "）");
                s
            },
            IndexIssue::ContentChanged { name, rel_path, .. } => {
                let mut s = crate::text::owned("存档「");
                push_str(&mut s, name.as_str());
                push_str(&mut s, "」的内容已变（resources/");
                push_str(&mut s, rel_path.as_str());
                push_str(&mut s, "）");
                s
            },
        }
    }
}

/// A scan report.
#[derive(Debug, Clone)]
pub struct IndexScanReport {
    pub issues: Vec<IndexIssue>,
}

impl Default for IndexScanReport {
    fn default() -> (r: Self)
        ensures
            r.issues@.len() == 0,
    {
        IndexScanReport { issues: Vec::new() }
    }
}

/// The issues of one variant (0: untracked, 1: missing, 2: changed).
pub open spec fn is_variant(i: IssueView, which: int) -> bool {
    match i {
        IssueView::Untracked { .. } => which == 0,
        IssueView::Missing { .. } => which == 1,
        IssueView::Changed { .. } => which == 2,
    }
}

/// The issues of one variant (0 untracked, 1 missing, 2 changed), in report order.
pub open spec fn of_variant(issues: Seq<IssueView>, which: int) -> Seq<IssueView> {
    issues.filter(|i: IssueView| is_variant(i, which))
}

/// The three lists of a report (untracked files, missing payloads, changed
/// contents) partition its issues: each issue lies in the list of its own variant
/// and in no other, so their lengths add up to the number of issues, and a report
/// is clean exactly when all three lists are empty.
pub proof fn law_issue_lists_partition(issues: Seq<IssueView>)
    ensures
        of_variant(issues, 0).len() + of_variant(issues, 1).len() + of_variant(issues, 2).len() == issues.len(),
        issues.len() == 0 <==> (of_variant(issues, 0).len() == 0 && of_variant(issues, 1).len() == 0 && of_variant(
            issues,
            2,
        ).len() == 0),
        forall|k: int, w: int|
            0 <= k < issues.len() && is_variant(issues[k], w) ==> #[trigger] of_variant(issues, w).contains(
                #[trigger] issues[k],
            ),
        forall|x: IssueView, w: int| #[trigger] of_variant(issues, w).contains(x) ==> issues.contains(x) && is_variant(x, w),
    decreases issues.len(),
{
    reveal(Seq::filter);
    if issues.len() > 0 {
        let init = issues.drop_last();
        law_issue_lists_partition(init);
        assert(issues.drop_last() == init);
    }
    assert forall|k: int, w: int|
        0 <= k < issues.len() && is_variant(issues[k], w) implies #[trigger] of_variant(issues, w).contains(
        #[trigger] issues[k],
    ) by {
        issues.lemma_filter_contains(|i: IssueView| is_variant(i, w), k);
    }
    assert forall|x: IssueView, w: int| #[trigger] of_variant(issues, w).contains(x) implies issues.contains(x)
        && is_variant(x, w) by {
        issues.lemma_filter_contains_rev(|i: IssueView| is_variant(i, w), x);
        let j = choose|j: int| 0 <= j < of_variant(issues, w).len() && of_variant(issues, w)[j] == x;
        issues.lemma_filter_pred(|i: IssueView| is_variant(i, w), j);
    }
}

impl IndexScanReport {
    /// No difference at all.
    pub fn is_clean(&self) -> (r: bool)
        ensures
            r == (self.issues@.len() == 0),
    {
        self.issues.len() == 0
    }

    /// The issues of one variant, in report order.
    fn pick(&self, which: u8) -> (r: Vec<&IndexIssue>)
        ensures
            r@.map_values(|i: &IndexIssue| i@) == issues_view(self.issues@).filter(
                |i: IssueView| is_variant(i, which as int),
            ),
    {
        let ghost all = issues_view(self.issues@);
        let ghost pred = |i: IssueView| is_variant(i, which as int);
        let mut r: Vec<&IndexIssue> = Vec::new();
        let mut k: usize = 0;
        while k < self.issues.len()
            invariant
                k <= self.issues.len(),
                all == issues_view(self.issues@),
                pred == (|i: IssueView| is_variant(i, which as int)),
                r@.map_values(|i: &IndexIssue| i@) == all.take(k as int).filter(pred),
            decreases self.issues.len() - k,
        {
            assert(all.take(k + 1).drop_last() == all.take(k as int));
            assert(all.take(k + 1).last() == self.issues@[k as int]@);
            assert(all.take(k + 1).filter(pred) == if pred(all[k as int]) {
                all.take(k as int).filter(pred).push(all[k as int])
            } else {
                all.take(k as int).filter(pred)
            }) by {
                reveal(Seq::filter);
            }
            let issue = &self.issues[k];
            let hit = match issue {
                IndexIssue::UntrackedFile { .. } => which == 0,
                IndexIssue::MissingPayload { .. } => which == 1,
                IndexIssue::ContentChanged { .. } => which == 2,
            };
            if hit {
                r.push(issue);
                assert(r@.map_values(|i: &IndexIssue| i@) =~= all.take(k as int).filter(pred).push(all[k as int]));
            }
            k += 1;
        }
        assert(all.take(self.issues.len() as int) == all);
        r
    }

    /// The untracked files.
    pub fn untracked_files(&self) -> (r: Vec<&IndexIssue>)
        ensures
            r@.map_values(|i: &IndexIssue| i@) == issues_view(self.issues@).filter(
                |i: IssueView| is_variant(i, 0),
            ),
    {
        self.pick(0)
    }

    /// The records without payload.
    pub fn missing_payloads(&self) -> (r: Vec<&IndexIssue>)
        ensures
            r@.map_values(|i: &IndexIssue| i@) == issues_view(self.issues@).filter(
                |i: IssueView| is_variant(i, 1),
            ),
    {
        self.pick(1)
    }

    /// The payloads whose content changed.
    pub fn content_changes(&self) -> (r: Vec<&IndexIssue>)
        ensures
            r@.map_values(|i: &IndexIssue| i@) == issues_view(self.issues@).filter(
                |i: IssueView| is_variant(i, 2),
            ),
    {
        self.pick(2)
    }
}

/// What the host found about one registry row.
#[derive(Debug, Clone, PartialEq, Eq)]
pub struct IndexRecord {
    pub resource_id: String,
    pub name: String,
    /// Payload path (`None` for old rows without one: not checked).
    pub rel_path: Option<String>,
    /// Recorded fingerprint (`None` for old rows: no basis, no "changed").
    pub content_hash: Option<String>,
    /// The payload is a regular file.
    pub payload_present: bool,
    /// The payload's current fingerprint, computed when present and recorded.
    pub actual_hash: Option<String>,
}

/// The issue a row gives, if any: a present path without payload is missing; a
/// payload whose current fingerprint differs from the recorded one changed.
pub open spec fn record_issue(r: IndexRecord) -> Option<IssueView> {
    match r.rel_path {
        None => None,
        Some(path) => if !r.payload_present {
            Some(IssueView::Missing { resource_id: r.resource_id@, name: r.name@, rel_path: path@ })
        } else {
            match (r.content_hash, r.actual_hash) {
                (Some(expected), Some(actual)) => if actual@ != expected@ {
                    Some(
                        IssueView::Changed {
                            resource_id: r.resource_id@,
                            name: r.name@,
                            rel_path: path@,
                            expected_hash: expected@,
                            actual_hash: actual@,
                        },
                    )
                } else {
                    None
                },
                _ => None,
            }
        },
    }
}

/// The issues of the rows, in row order.
pub open spec fn record_issues(records: Seq<IndexRecord>) -> Seq<IssueView>
    decreases records.len(),
{
    if records.len() == 0 {
        Seq::empty()
    } else {
        let prev = record_issues(records.drop_last());
        match record_issue(records.last()) {
            Some(i) => prev.push(i),
            None => prev,
        }
    }
}

/// The payload paths the rows track.
pub open spec fn registered_paths(records: Seq<IndexRecord>) -> Seq<Seq<char>>
    decreases records.len(),
{
    if records.len() == 0 {
        Seq::empty()
    } else {
        let prev = registered_paths(records.drop_last());
        match records.last().rel_path {
            Some(p) => prev.push(p@),
            None => prev,
        }
    }
}

/// The report: row issues in row order, then the files no row tracks, in file order.
pub open spec fn scan_issues(records: Seq<IndexRecord>, files: Seq<Seq<char>>) -> Seq<IssueView> {
    let known = registered_paths(records);
    record_issues(records) + files.filter(|f: Seq<char>| !known.contains(f)).map_values(
        |f: Seq<char>| IssueView::Untracked { rel_path: f },
    )
}

/// Some record has `p` as its payload path.
pub open spec fn has_record_at(records: Seq<IndexRecord>, p: Seq<char>) -> bool {
    exists|j: int| 0 <= j < records.len() && ((#[trigger] records[j]).rel_path matches Some(q) && q@ == p)
}

/// The tracked paths are exactly the records' payload paths.
proof fn lemma_registered_paths(records: Seq<IndexRecord>, p: Seq<char>)
    ensures
        registered_paths(records).contains(p) <==> has_record_at(records, p),
    decreases records.len(),
{
    if records.len() > 0 {
        let init = records.drop_last();
        lemma_registered_paths(init, p);
        let prev = registered_paths(init);
        if has_record_at(init, p) {
            let j = choose|j: int| 0 <= j < init.len() && ((#[trigger] init[j]).rel_path matches Some(q) && q@ == p);
            assert(records[j] == init[j]);
        }
        if has_record_at(records, p) {
            let j = choose|j: int| 0 <= j < records.len() && ((#[trigger] records[j]).rel_path matches Some(q) && q@ == p);
            if j < records.len() - 1 {
                assert(init[j] == records[j]);
            }
        }
        match records.last().rel_path {
            Some(q) => {
                assert(registered_paths(records) == prev.push(q@));
                if prev.push(q@).contains(p) {
                    let k = choose|k: int| 0 <= k < prev.push(q@).len() && prev.push(q@)[k] == p;
                    if k < prev.len() {
                        assert(prev[k] == p);
                    }
                }
                if prev.contains(p) {
                    let k = choose|k: int| 0 <= k < prev.len() && prev[k] == p;
                    assert(prev.push(q@)[k] == p);
                }
                if q@ == p {
                    assert(prev.push(q@)[prev.len() as int] == p);
                }
            },
            None => {},
        }
    }
}

/// A record never reports an untracked file.
proof fn lemma_record_issues_tracked(records: Seq<IndexRecord>, k: int)
    requires
        0 <= k < record_issues(records).len(),
    ensures
        !(record_issues(records)[k] is Untracked),
    decreases records.len(),
{
    if records.len() > 0 {
        let prev = record_issues(records.drop_last());
        if k < prev.len() {
            lemma_record_issues_tracked(records.drop_last(), k);
            match record_issue(records.last()) {
                Some(i) => assert(prev.push(i)[k] == prev[k]),
                None => {},
            }
        }
    }
}

/// The untracked files of a scan are exactly the files no record has as its
/// payload path, whatever the records' fingerprints: no file a record tracks is
/// reported untracked, and every file no record tracks is.
pub proof fn law_untracked_iff_no_record(records: Seq<IndexRecord>, files: Seq<Seq<char>>)
    ensures
        forall|k: int|
            0 <= k < scan_issues(records, files).len() && (#[trigger] scan_issues(records, files)[k]) is Untracked
                ==> !has_record_at(records, scan_issues(records, files)[k]->Untracked_rel_path),
        forall|i: int|
            0 <= i < files.len() && !has_record_at(records, #[trigger] files[i]) ==> scan_issues(records, files).contains(
                IssueView::Untracked { rel_path: files[i] },
            ),
{
    let known = registered_paths(records);
    let pred = |f: Seq<char>| !known.contains(f);
    let untracked = |f: Seq<char>| IssueView::Untracked { rel_path: f };
    let head = record_issues(records);
    let kept = files.filter(pred);
    let tail = kept.map_values(untracked);
    let all = scan_issues(records, files);
    assert(all == head + tail);
    assert forall|k: int| 0 <= k < all.len() && (#[trigger] all[k]) is Untracked implies !has_record_at(
        records,
        all[k]->Untracked_rel_path,
    ) by {
        if k < head.len() {
            lemma_record_issues_tracked(records, k);
        } else {
            let m = k - head.len();
            assert(all[k] == tail[m]);
            assert(tail[m] == untracked(kept[m]));
            files.lemma_filter_pred(pred, m);
            lemma_registered_paths(records, kept[m]);
        }
    }
    assert forall|i: int| 0 <= i < files.len() && !has_record_at(records, #[trigger] files[i]) implies all.contains(
        IssueView::Untracked { rel_path: files[i] },
    ) by {
        lemma_registered_paths(records, files[i]);
        files.lemma_filter_contains(pred, i);
        let m = choose|m: int| 0 <= m < kept.len() && kept[m] == files[i];
        assert(all[head.len() + m] == tail[m]);
    }
}

/// Whether `s` is among `v`.
fn contains_text(v: &Vec<String>, s: &str) -> (r: bool)
    ensures
        r == views(v@).contains(s@),
{
    match crate::filter::string_position(v, s) {
        Some(i) => {
            assert(views(v@)[i as int] == s@);
            true
        },
        None => false,
    }
}

/// The scan's decision, from what the host read: the registry rows with what it
/// found of their payloads, and the files under `resources/`.
pub fn scan_report(records: &[IndexRecord], files: &[String]) -> (report: IndexScanReport)
    ensures
        issues_view(report.issues@) == scan_issues(records@, views(files@)),
        forall|k: int|
            0 <= k < report.issues@.len() && (#[trigger] issues_view(report.issues@)[k]) is Untracked
                ==> !has_record_at(records@, issues_view(report.issues@)[k]->Untracked_rel_path),
        forall|i: int|
            0 <= i < files@.len() && !has_record_at(records@, #[trigger] files@[i]@) ==> issues_view(
                report.issues@,
            ).contains(IssueView::Untracked { rel_path: files@[i]@ }),
{
    proof {
        law_untracked_iff_no_record(records@, views(files@));
        assert forall|i: int| 0 <= i < files@.len() && !has_record_at(records@, #[trigger] files@[i]@) implies scan_issues(
            records@,
            views(files@),
        ).contains(IssueView::Untracked { rel_path: files@[i]@ }) by {
            assert(views(files@)[i] == files@[i]@);
        }
    }
    let mut issues: Vec<IndexIssue> = Vec::new();
    let mut known: Vec<String> = Vec::new();
    let mut k: usize = 0;
    while k < records.len()
        invariant
            k <= records.len(),
            issues_view(issues@) == record_issues(records@.take(k as int)),
            views(known@) == registered_paths(records@.take(k as int)),
        decreases records.len() - k,
    {
        let rec = &records[k];
        let ghost before = issues_view(issues@);
        let ghost tbefore = views(known@);
        assert(records@.take(k + 1).drop_last() == records@.take(k as int));
        assert(records@.take(k + 1).last() == records@[k as int]);
        match &rec.rel_path {
            None => {},
            Some(path) => {
                known.push(path.clone());
                assert(views(known@) =~= tbefore.push(path@));
                if !rec.payload_present {
                    issues.push(IndexIssue::MissingPayload {
                        resource_id: rec.resource_id.clone(),
                        name: rec.name.clone(),
                        rel_path: path.clone(),
                    });
                    assert(issues_view(issues@) =~= before.push(record_issue(*rec)->0));
                } else {
                    match (&rec.content_hash, &rec.actual_hash) {
                        (Some(expected), Some(actual)) => {
                            if !str_eq(actual.as_str(), expected.as_str()) {
                                issues.push(IndexIssue::ContentChanged {
                                    resource_id: rec.resource_id.clone(),
                                    name: rec.name.clone(),
                                    rel_path: path.clone(),
                                    expected_hash: expected.clone(),
                                    actual_hash: actual.clone(),
                                });
                                assert(issues_view(issues@) =~= before.push(record_issue(*rec)->0));
                            }
                        },
                        _ => {},
                    }
                }
            },
        }
        k += 1;
    }
    assert(records@.take(records.len() as int) == records@);
    let ghost head = issues_view(issues@);
    let ghost fv = views(files@);
    let ghost known_v = views(known@);
    let ghost pred = |f: Seq<char>| !known_v.contains(f);
    let ghost untracked = |f: Seq<char>| IssueView::Untracked { rel_path: f };
    let mut j: usize = 0;
    while j < files.len()
        invariant
            j <= files.len(),
            fv == views(files@),
            known_v == views(known@),
            pred == (|f: Seq<char>| !known_v.contains(f)),
            untracked == (|f: Seq<char>| IssueView::Untracked { rel_path: f }),
            issues_view(issues@) == head + fv.take(j as int).filter(pred).map_values(untracked),
        decreases files.len() - j,
    {
        assert(fv.take(j + 1).drop_last() == fv.take(j as int));
        assert(fv.take(j + 1).last() == files@[j as int]@);
        assert(fv.take(j + 1).filter(pred) == if pred(fv[j as int]) {
            fv.take(j as int).filter(pred).push(fv[j as int])
        } else {
            fv.take(j as int).filter(pred)
        }) by {
            reveal(Seq::filter);
        }
        if !contains_text(&known, files[j].as_str()) {
            let ghost before = issues_view(issues@);
            issues.push(IndexIssue::UntrackedFile { rel_path: files[j].clone() });
            assert(issues_view(issues@) =~= before.push(IssueView::Untracked { rel_path: fv[j as int] }));
            assert(fv.take(j as int).filter(pred).push(fv[j as int]).map_values(untracked) =~= fv.take(
                j as int,
            ).filter(pred).map_values(untracked).push(untracked(fv[j as int])));
        }
        j += 1;
    }
    assert(fv.take(files.len() as int) == fv);
    IndexScanReport { issues }
}

} // verus!
