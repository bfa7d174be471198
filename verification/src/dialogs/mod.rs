//! State and rules of the dialogs (archive, checkout, rename, tags, versions,
//! trash, index repair, draft pick, group name); the rendering stays with the host.

pub mod index_repair;
pub mod trash;
pub mod version;
pub mod tag;
pub mod archive;
pub mod checkout;
pub mod group;
pub mod pick;
pub mod rename;

use vstd::prelude::*;

verus! {

/// The question put before an action that cannot be undone.
#[derive(Debug, Clone, PartialEq, Eq)]
pub struct Confirmation {
    pub title: String,
    pub description: String,
    /// The label of the confirming button (`None`: the dialog's default).
    pub ok_label: Option<String>,
}

} // verus!
