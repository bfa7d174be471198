//! Archive details: the read-only information sections of the detail panel.

use vstd::prelude::*;

use crate::model::{ArchiveKind, ArchiveStatus};
use crate::resource_view::opt_view;
use crate::text::{dec_int, join, join_strings, push_char, push_dec_i64};

verus! {

/// A tag on a row or detail: id (filters compare it) and name (search compares it).
#[derive(Debug, Clone, PartialEq, Eq)]
pub struct ArchiveTagChip {
    pub id: String,
    pub name: String,
}

impl View for ArchiveTagChip {
    type V = (Seq<char>, Seq<char>);

    open spec fn view(&self) -> (Seq<char>, Seq<char>) {
        (self.id@, self.name@)
    }
}

/// The views of a list of chips.
pub open spec fn chips_view(s: Seq<ArchiveTagChip>) -> Seq<(Seq<char>, Seq<char>)> {
    s.map_values(|c: ArchiveTagChip| c@)
}

impl ArchiveTagChip {
    /// A field-by-field copy.
    pub fn duplicate(&self) -> (r: ArchiveTagChip)
        ensures
            r == *self,
    {
        ArchiveTagChip { id: self.id.clone(), name: self.name.clone() }
    }
}

/// Characters of a fingerprint shown: enough to compare, short enough for the panel.
pub const HASH_PREVIEW_LEN: usize = 12;

/// One archive's details, already formatted by the host.
#[derive(Debug, Clone, PartialEq, Eq)]
pub struct ArchiveDetail {
    pub id: String,
    pub name: String,
    pub alias: Option<String>,
    pub kind: ArchiveKind,
    pub version: i32,
    pub status: ArchiveStatus,
    /// Read-only once archived (analysis tables may not carry the mark).
    pub readonly: bool,
    /// Size (files) or scale (analysis tables); may be empty for old rows.
    pub size_label: String,
    pub modified_label: String,
    pub archived_label: String,
    /// Draft the archive was promoted from.
    pub promoted_from: Option<String>,
    pub source_connection_id: Option<String>,
    pub source_table: Option<String>,
    /// Full fingerprint (shortened when shown).
    pub content_hash: Option<String>,
    /// Payload path under `resources/` (checkout derives the work copy's name from it).
    pub payload_rel_path: Option<String>,
    /// Version history summary, such as `3 个历史版本`; empty without history.
    pub history_label: String,
    /// Tags as chips (id and name): the id lets the panel drop a tag; the detail
    /// rows show only the names, joined by `、`.
    pub tags: Vec<ArchiveTagChip>,
    pub group: Option<String>,
}

/// A fingerprint as shown: its first [`HASH_PREVIEW_LEN`] characters, `—` when absent or empty.
pub open spec fn short_hash_text(hash: Option<Seq<char>>) -> Seq<char> {
    match hash {
        Some(v) => if v.len() == 0 {
            "—"@
        } else if v.len() <= 12 {
            v
        } else {
            v.take(12)
        },
        None => "—"@,
    }
}

/// The shown part of a fingerprint.
pub fn short_hash(hash: Option<&str>) -> (s: String)
    ensures
        s@ == short_hash_text(match hash { Some(h) => Some(h@), None => None }),
{
    match hash {
        Some(value) => {
            if value.is_empty() {
                crate::text::owned("—")
            } else {
                let v = crate::text::chars_of(value);
                let end = if v.len() <= HASH_PREVIEW_LEN { v.len() } else { HASH_PREVIEW_LEN };
                let r = crate::text::string_of_range(&v, 0, end);
                assert(v@.subrange(0, end as int) == (if v@.len() <= 12 { v@ } else { v@.take(12) }));
                r
            }
        },
        None => crate::text::owned("—"),
    }
}

/// The interface name of a kind, shared by the panel and the details.
pub open spec fn kind_name(kind: ArchiveKind) -> Seq<char> {
    match kind {
        ArchiveKind::File => "受管文件"@,
        ArchiveKind::Analysis => "分析表"@,
        ArchiveKind::TableRef => "远端引用"@,
    }
}

/// The interface name of a kind.
pub fn kind_label(kind: ArchiveKind) -> (r: &'static str)
    ensures
        r@ == kind_name(kind),
{
    match kind {
        ArchiveKind::File => "受管文件",
        ArchiveKind::Analysis => "分析表",
        ArchiveKind::TableRef => "远端引用",
    }
}

/// A labelled row when the value is not empty.
pub open spec fn text_row(label: Seq<char>, value: Seq<char>) -> Seq<(Seq<char>, Seq<char>)> {
    if value.len() > 0 {
        seq![(label, value)]
    } else {
        Seq::empty()
    }
}

/// A labelled row when the value is present and not empty.
pub open spec fn opt_row(label: Seq<char>, value: Option<Seq<char>>) -> Seq<(Seq<char>, Seq<char>)> {
    match value {
        Some(v) => text_row(label, v),
        None => Seq::empty(),
    }
}

/// The read-only explanation.
pub open spec fn readonly_text(readonly: bool) -> Seq<char> {
    if readonly {
        "归档后不可写，需取回编辑"@
    } else {
        "可写（非文件型本体不带只读属性）"@
    }
}

/// The basic section: kind, version, read-only always; size and times when known.
pub open spec fn basic_rows(d: ArchiveDetail) -> Seq<(Seq<char>, Seq<char>)> {
    seq![
        ("种类"@, kind_name(d.kind)),
        ("版本"@, "v"@ + dec_int(d.version as int)),
        ("只读"@, readonly_text(d.readonly)),
    ] + text_row("大小"@, d.size_label@) + text_row("修改时间"@, d.modified_label@)
        + text_row("归档时间"@, d.archived_label@)
}

/// The source section: the provenance that is known, and the fingerprint always.
pub open spec fn source_rows(d: ArchiveDetail) -> Seq<(Seq<char>, Seq<char>)> {
    opt_row("来源草稿"@, opt_view(d.promoted_from)) + opt_row("来源连接"@, opt_view(d.source_connection_id))
        + opt_row("来源表"@, opt_view(d.source_table))
        + seq![("内容指纹"@, short_hash_text(opt_view(d.content_hash)))]
}

/// The names of chips.
pub open spec fn chip_names(s: Seq<(Seq<char>, Seq<char>)>) -> Seq<Seq<char>> {
    s.map_values(|c: (Seq<char>, Seq<char>)| c.1)
}

/// The organisation section: tags (joined by `、`) and group, each when present.
pub open spec fn org_rows(d: ArchiveDetail) -> Seq<(Seq<char>, Seq<char>)> {
    (if d.tags@.len() > 0 {
        seq![("标签"@, join(chip_names(chips_view(d.tags@)), "、"@))]
    } else {
        Seq::empty()
    }) + opt_row("分组"@, opt_view(d.group))
}

/// The sections of the detail panel; a section without rows is left out, except
/// the basic and source sections, which always have some.
pub open spec fn detail_sections(d: ArchiveDetail) -> Seq<(Seq<char>, Seq<(Seq<char>, Seq<char>)>)> {
    seq![("基本信息"@, basic_rows(d)), ("来源"@, source_rows(d))]
        + (if d.history_label@.len() > 0 {
            seq![("版本"@, seq![("历史"@, d.history_label@)])]
        } else {
            Seq::empty()
        })
        + (if org_rows(d).len() > 0 {
            seq![("组织"@, org_rows(d))]
        } else {
            Seq::empty()
        })
}

/// The view of a section's rows.
pub open spec fn pairs_view(v: Seq<(&'static str, String)>) -> Seq<(Seq<char>, Seq<char>)> {
    v.map_values(|p: (&'static str, String)| (p.0@, p.1@))
}

/// The view of the sections.
pub open spec fn sections_view(v: Seq<(String, Vec<(&'static str, String)>)>) -> Seq<(Seq<char>, Seq<(Seq<char>, Seq<char>)>)> {
    v.map_values(|s: (String, Vec<(&'static str, String)>)| (s.0@, pairs_view(s.1@)))
}

/// Pushes a labelled row when the value is not empty.
fn push_text_row(rows: &mut Vec<(&'static str, String)>, label: &'static str, value: &String)
    ensures
        pairs_view(final(rows)@) == pairs_view(old(rows)@) + text_row(label@, value@),
{
    if !value.as_str().is_empty() {
        rows.push((label, value.clone()));
        assert(pairs_view(rows@) == pairs_view(old(rows)@).push((label@, value@)));
    } else {
        assert(pairs_view(rows@) == pairs_view(old(rows)@) + Seq::<(Seq<char>, Seq<char>)>::empty());
    }
}

/// Pushes a labelled row when the value is present and not empty.
fn push_opt_row(rows: &mut Vec<(&'static str, String)>, label: &'static str, value: &Option<String>)
    ensures
        pairs_view(final(rows)@) == pairs_view(old(rows)@) + opt_row(label@, opt_view(*value)),
{
    match value {
        Some(v) => {
            push_text_row(rows, label, v);
        },
        None => {
            assert(pairs_view(rows@) == pairs_view(old(rows)@) + Seq::<(Seq<char>, Seq<char>)>::empty());
        },
    }
}

/// The names of a list of chips, in order.
fn chip_name_list(tags: &Vec<ArchiveTagChip>) -> (r: Vec<String>)
    ensures
        crate::seqs::views(r@) == chip_names(chips_view(tags@)),
{
    let mut out: Vec<String> = Vec::new();
    let mut i: usize = 0;
    while i < tags.len()
        invariant
            i <= tags.len(),
            crate::seqs::views(out@) == chip_names(chips_view(tags@.take(i as int))),
        decreases tags.len() - i,
    {
        let ghost prev = out@;
        out.push(tags[i].name.clone());
        assert(tags@.take(i + 1) == tags@.take(i as int).push(tags@[i as int]));
        assert(crate::seqs::views(out@) == crate::seqs::views(prev).push(tags@[i as int].name@));
        assert(chip_names(chips_view(tags@.take(i + 1))) == chip_names(chips_view(tags@.take(i as int))).push(tags@[i as int].name@));
        i += 1;
    }
    assert(tags@.take(tags.len() as int) == tags@);
    out
}

/// Section title → (label, value) rows of the detail panel. Empty values make no
/// row; only states the user must act on show up on their own.
pub fn detail_rows(detail: &ArchiveDetail) -> (r: Vec<(String, Vec<(&'static str, String)>)>)
    ensures
        sections_view(r@) == detail_sections(*detail),
{
    let mut sections: Vec<(String, Vec<(&'static str, String)>)> = Vec::new();

    let mut version = String::new();
    push_char(&mut version, 'v');
    push_dec_i64(&mut version, detail.version as i64);
    assert(version@ == "v"@ + dec_int(detail.version as int)) by {
        reveal_strlit("v");
    };
    let readonly = if detail.readonly {
        crate::text::owned("归档后不可写，需取回编辑")
    } else {
        crate::text::owned("可写（非文件型本体不带只读属性）")
    };
    let mut basic: Vec<(&'static str, String)> = Vec::new();
    basic.push(("种类", crate::text::owned(kind_label(detail.kind))));
    basic.push(("版本", version));
    basic.push(("只读", readonly));
    assert(pairs_view(basic@) == seq![
        ("种类"@, kind_name(detail.kind)),
        ("版本"@, "v"@ + dec_int(detail.version as int)),
        ("只读"@, readonly_text(detail.readonly)),
    ]);
    push_text_row(&mut basic, "大小", &detail.size_label);
    push_text_row(&mut basic, "修改时间", &detail.modified_label);
    push_text_row(&mut basic, "归档时间", &detail.archived_label);
    assert(pairs_view(basic@) == basic_rows(*detail));
    sections.push((crate::text::owned("基本信息"), basic));

    let mut source: Vec<(&'static str, String)> = Vec::new();
    push_opt_row(&mut source, "来源草稿", &detail.promoted_from);
    push_opt_row(&mut source, "来源连接", &detail.source_connection_id);
    push_opt_row(&mut source, "来源表", &detail.source_table);
    let hash = match &detail.content_hash {
        Some(h) => short_hash(Some(h.as_str())),
        None => short_hash(None),
    };
    let ghost before_hash = source@;
    source.push(("内容指纹", hash));
    assert(pairs_view(source@) == pairs_view(before_hash).push(("内容指纹"@, short_hash_text(opt_view(detail.content_hash)))));
    assert(pairs_view(source@) == source_rows(*detail));
    let ghost one = sections@;
    sections.push((crate::text::owned("来源"), source));
    assert(sections@ == one.push(sections@[1]));
    assert(sections_view(sections@) == seq![("基本信息"@, basic_rows(*detail)), ("来源"@, source_rows(*detail))]);

    let ghost two = sections_view(sections@);
    if !detail.history_label.as_str().is_empty() {
        let mut history: Vec<(&'static str, String)> = Vec::new();
        history.push(("历史", detail.history_label.clone()));
        assert(pairs_view(history@) == seq![("历史"@, detail.history_label@)]);
        sections.push((crate::text::owned("版本"), history));
        assert(sections_view(sections@) == two.push(("版本"@, seq![("历史"@, detail.history_label@)])));
    }
    let ghost three = sections_view(sections@);

    let mut org: Vec<(&'static str, String)> = Vec::new();
    if detail.tags.len() > 0 {
        let names = chip_name_list(&detail.tags);
        org.push(("标签", join_strings(&names, "、")));
        assert(pairs_view(org@) == seq![("标签"@, join(chip_names(chips_view(detail.tags@)), "、"@))]);
    }
    assert(pairs_view(org@) == (if detail.tags@.len() > 0 {
        seq![("标签"@, join(chip_names(chips_view(detail.tags@)), "、"@))]
    } else {
        Seq::<(Seq<char>, Seq<char>)>::empty()
    }));
    push_opt_row(&mut org, "分组", &detail.group);
    assert(pairs_view(org@) == org_rows(*detail));
    if org.len() > 0 {
        sections.push((crate::text::owned("组织"), org));
        assert(sections_view(sections@) == three.push(("组织"@, org_rows(*detail))));
    }
    sections
}

/// The alert of a detail: missing payloads, changed content, and references
/// (the weakest kind) even when normal; nothing otherwise.
pub open spec fn alert_text(status: ArchiveStatus, kind: ArchiveKind) -> Option<Seq<char>> {
    match status {
        ArchiveStatus::Missing => Some("本体缺失：可能被手工删除或移动，可用索引修复还原或删除记录"@),
        ArchiveStatus::ContentChanged => Some("内容已变：本体被绕过只读改过，可接受当前内容（生成新版本）或从历史还原"@),
        ArchiveStatus::Normal => match kind {
            ArchiveKind::TableRef => Some("这是引用：源表可能已变更或被删除，使用前建议立即校验"@),
            _ => None,
        },
    }
}

/// The alert line of a detail, when the user has something to act on.
pub fn alert_line(detail: &ArchiveDetail) -> (r: Option<String>)
    ensures
        opt_view(r) == alert_text(detail.status, detail.kind),
{
    match (detail.status, detail.kind) {
        (ArchiveStatus::Missing, _) => {
            Some(crate::text::owned("本体缺失：可能被手工删除或移动，可用索引修复还原或删除记录"))
        },
        (ArchiveStatus::ContentChanged, _) => {
            Some(crate::text::owned("内容已变：本体被绕过只读改过，可接受当前内容（生成新版本）或从历史还原"))
        },
        (ArchiveStatus::Normal, ArchiveKind::TableRef) => {
            Some(crate::text::owned("这是引用：源表可能已变更或被删除，使用前建议立即校验"))
        },
        _ => None,
    }
}

/// The checkout button of the detail panel: whether it is enabled and the line
/// under it, which says where to go when it is not.
pub struct CheckoutAction {
    pub enabled: bool,
    pub hint: &'static str,
}

/// Checkout is blocked in a read-only project and for a missing or changed payload.
pub open spec fn checkout_blocked(status: ArchiveStatus, read_only: bool) -> bool {
    read_only || status == ArchiveStatus::Missing || status == ArchiveStatus::ContentChanged
}

/// The line under the checkout button.
pub open spec fn checkout_hint_text(status: ArchiveStatus, read_only: bool) -> Seq<char> {
    if read_only {
        "项目处于只读模式"@
    } else if checkout_blocked(status, read_only) {
        "本体异常，先在状态行「修复…」处理"@
    } else {
        "复制一份可写的工作副本，本体不动"@
    }
}

/// The checkout button of an archive's detail in a project that is `read_only` or not.
pub fn checkout_action(detail: &ArchiveDetail, read_only: bool) -> (a: CheckoutAction)
    ensures
        a.enabled == !checkout_blocked(detail.status, read_only),
        a.hint@ == checkout_hint_text(detail.status, read_only),
{
    let blocked = read_only || match detail.status {
        ArchiveStatus::Missing | ArchiveStatus::ContentChanged => true,
        ArchiveStatus::Normal => false,
    };
    let hint = if read_only {
        "项目处于只读模式"
    } else if blocked {
        "本体异常，先在状态行「修复…」处理"
    } else {
        "复制一份可写的工作副本，本体不动"
    };
    CheckoutAction { enabled: !blocked, hint }
}

/// The head of the detail panel.
pub struct DetailHeader {
    /// `vN`.
    pub version_label: String,
    /// The strength badge.
    pub badge: &'static str,
    pub tone: crate::resource_view::BadgeTone,
    /// The alias line, when the archive has one.
    pub alias: Option<String>,
    /// `本体缺失` for a missing payload (the head must not look normal then).
    pub missing_label: Option<&'static str>,
}

/// The head of an archive's detail: version, badge and tone, alias, and the
/// missing-payload mark.
pub fn detail_header(detail: &ArchiveDetail) -> (h: DetailHeader)
    ensures
        h.version_label@ == "v"@ + dec_int(detail.version as int),
        h.badge@ == crate::resource_view::badge_text(detail.kind, detail.status),
        h.tone == crate::resource_view::tone_of(detail.kind, detail.status),
        opt_view(h.alias) == opt_view(detail.alias),
        h.missing_label is Some <==> detail.status == ArchiveStatus::Missing,
        h.missing_label matches Some(t) ==> t@ == "本体缺失"@,
{
    let mut version_label = crate::text::owned("v");
    push_dec_i64(&mut version_label, detail.version as i64);
    DetailHeader {
        version_label,
        badge: crate::resource_view::strength_badge(detail.kind, detail.status),
        tone: crate::resource_view::badge_tone(detail.kind, detail.status),
        alias: crate::resource_view::copy_opt_string(&detail.alias),
        missing_label: match detail.status {
            ArchiveStatus::Missing => Some("本体缺失"),
            _ => None,
        },
    }
}

} // verus!
