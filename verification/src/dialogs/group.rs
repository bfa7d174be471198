//! Group name dialog: creating a group or renaming one.

use vstd::prelude::*;

use crate::text::{trim, trimmed};

verus! {

/// What the dialog is for.
#[derive(Debug, Clone, PartialEq, Eq)]
pub enum GroupNameKind {
    /// A new group.
    Create,
    /// Renaming the group `id`.
    Rename { id: String },
}

/// What the dialog submits; the host carries it out.
#[derive(Debug, Clone, PartialEq, Eq)]
pub enum GroupNameEvent {
    Create { name: String },
    Rename { id: String, name: String },
}

/// The hint of the group name field: a blank name is refused.
pub open spec fn group_name_hint_text(value: Seq<char>) -> Option<Seq<char>> {
    if trim(value).len() == 0 {
        Some("分组名不能为空"@)
    } else {
        None
    }
}

/// The hint of the group name field (`None`: valid).
pub fn group_name_hint(value: &str) -> (r: Option<&'static str>)
    ensures
        match r {
            Some(h) => group_name_hint_text(value@) == Some(h@),
            None => group_name_hint_text(value@) is None,
        },
{
    if trimmed(value).as_str().is_empty() {
        Some("分组名不能为空")
    } else {
        None
    }
}

/// What a submission sends: nothing for a blank name; otherwise the trimmed name,
/// with the group's id when renaming.
pub fn group_name_event(kind: &GroupNameKind, value: &str) -> (r: Option<GroupNameEvent>)
    ensures
        match r {
            None => trim(value@).len() == 0,
            Some(GroupNameEvent::Create { name }) => trim(value@).len() > 0 && name@ == trim(value@)
                && kind is Create,
            Some(GroupNameEvent::Rename { id, name }) => trim(value@).len() > 0 && name@ == trim(value@)
                && (kind matches GroupNameKind::Rename { id: k } && k@ == id@),
        },
{
    let name = trimmed(value);
    if name.as_str().is_empty() {
        return None;
    }
    match kind {
        GroupNameKind::Create => Some(GroupNameEvent::Create { name }),
        GroupNameKind::Rename { id } => Some(GroupNameEvent::Rename { id: id.clone(), name }),
    }
}

} // verus!
