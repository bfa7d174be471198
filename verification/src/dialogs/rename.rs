//! Rename dialog (display name or alias): wording by field and the rule that
//! decides whether an edit can be submitted.

use vstd::prelude::*;

use crate::dialogs::archive::{name_hint, name_hint_text};
use crate::text::{str_eq, trim, trimmed};

verus! {

/// The field being edited.
#[derive(Debug, Clone, Copy, PartialEq, Eq, Structural)]
pub enum RenameField {
    /// Display name (a blank one is refused).
    DisplayName,
    /// Alias (blank clears it).
    Alias,
}

/// What the dialog opens with: always an existing archive.
#[derive(Debug, Clone, PartialEq, Eq)]
pub struct RenameSeed {
    pub id: String,
    /// The field's current value (an alias may be empty).
    pub name: String,
    pub field: RenameField,
}

/// What the dialog submits; the host carries it out.
#[derive(Debug, Clone, PartialEq, Eq)]
pub struct RenameEvent {
    pub id: String,
    /// The trimmed new value; an empty alias clears it.
    pub name: String,
    pub field: RenameField,
}

/// Whether an edit can be submitted.
#[derive(Debug, Clone, Copy, PartialEq, Eq)]
pub enum RenameGate {
    /// It can.
    Ready,
    /// Nothing changed: not submitted, and not an error either.
    Unchanged,
    /// Refused, with the reason.
    Blocked(&'static str),
}

/// The dialog title of a field.
pub open spec fn field_title(field: RenameField) -> Seq<char> {
    match field {
        RenameField::DisplayName => "重命名"@,
        RenameField::Alias => "编辑别名"@,
    }
}

/// The placeholder of a field (for the alias it says that blank clears it).
pub open spec fn field_placeholder(field: RenameField) -> Seq<char> {
    match field {
        RenameField::DisplayName => "显示名"@,
        RenameField::Alias => "别名（留空 = 清除）"@,
    }
}

/// The explanation shown when the edit can be submitted.
pub open spec fn field_hint(field: RenameField) -> Seq<char> {
    match field {
        RenameField::DisplayName => "只改显示名：resources/ 下的文件名与路径不变"@,
        RenameField::Alias => "别名只是另一个叫法：不影响显示名、文件名与路径"@,
    }
}

impl RenameField {
    /// The dialog title.
    pub fn title(&self) -> (r: &'static str)
        ensures
            r@ == field_title(*self),
    {
        match self {
            RenameField::DisplayName => "重命名",
            RenameField::Alias => "编辑别名",
        }
    }

    /// The input placeholder.
    pub fn placeholder(&self) -> (r: &'static str)
        ensures
            r@ == field_placeholder(*self),
    {
        match self {
            RenameField::DisplayName => "显示名",
            RenameField::Alias => "别名（留空 = 清除）",
        }
    }

    /// The explanation when the edit can be submitted.
    pub fn hint(&self) -> (r: &'static str)
        ensures
            r@ == field_hint(*self),
    {
        match self {
            RenameField::DisplayName => "只改显示名：resources/ 下的文件名与路径不变",
            RenameField::Alias => "别名只是另一个叫法：不影响显示名、文件名与路径",
        }
    }
}

/// The placeholder of a field (shared by the host and the tests).
pub fn rename_placeholder(field: RenameField) -> (r: &'static str)
    ensures
        r@ == field_placeholder(field),
{
    field.placeholder()
}

/// The decision as a value: `Some(reason)` when blocked, `None` for ready (`true`)
/// or unchanged (`false`).
pub open spec fn gate_of(field: RenameField, current: Seq<char>, value: Seq<char>) -> (Option<Seq<char>>, bool) {
    let t = trim(value);
    match field {
        RenameField::DisplayName => if name_hint_text(t) is Some {
            (name_hint_text(t), false)
        } else if t == trim(current) {
            (None, false)
        } else {
            (None, true)
        },
        RenameField::Alias => if t == trim(current) {
            (None, false)
        } else {
            (None, true)
        },
    }
}

/// The view of a decision: the reason when blocked, and whether it is ready.
pub open spec fn gate_view(g: RenameGate) -> (Option<Seq<char>>, bool) {
    match g {
        RenameGate::Ready => (None, true),
        RenameGate::Unchanged => (None, false),
        RenameGate::Blocked(reason) => (Some(reason@), false),
    }
}

/// Decides whether an edit can be submitted: a blank display name is blocked (a
/// blank alias clears it); a value equal to the current one, both trimmed, is
/// unchanged; anything else is ready.
pub fn rename_gate(field: RenameField, current: &str, value: &str) -> (g: RenameGate)
    ensures
        gate_view(g) == gate_of(field, current@, value@),
{
    let t = trimmed(value);
    let c = trimmed(current);
    match field {
        RenameField::DisplayName => {
            if let Some(hint) = name_hint(t.as_str()) {
                return RenameGate::Blocked(hint);
            }
            if str_eq(t.as_str(), c.as_str()) {
                return RenameGate::Unchanged;
            }
            RenameGate::Ready
        },
        RenameField::Alias => {
            if str_eq(t.as_str(), c.as_str()) {
                return RenameGate::Unchanged;
            }
            RenameGate::Ready
        },
    }
}

} // verus!
