//! Errors of the archive library's own rules.

use vstd::prelude::*;

verus! {

/// Why a relative payload path was refused.
#[derive(Debug, Clone, Copy, PartialEq, Eq, Structural)]
pub enum RelPathProblem {
    /// Nothing but whitespace.
    Empty,
    /// Absolute or root-relative.
    Absolute,
    /// A dot-prefixed component (internal state, hidden files).
    Hidden,
    /// A `..` component.
    Traversal,
}

/// An error of the archive rules.
#[derive(Debug, Clone, PartialEq, Eq)]
pub enum ArchiveError {
    /// A relative payload path that the guard refuses.
    InvalidRelPath { rel: String, problem: RelPathProblem },
    /// A write into the read-only payload directory.
    ReadOnlyPayload { path: String },
    /// An id that cannot be a single directory segment.
    InvalidId { raw: String },
}

impl RelPathProblem {
    /// The reason, for messages.
    pub fn reason(self) -> (r: &'static str)
        ensures
            r@ == match self {
                RelPathProblem::Empty => "路径为空"@,
                RelPathProblem::Absolute => "不允许绝对路径 / 根相对路径"@,
                RelPathProblem::Hidden => "不允许点前缀（内部态）路径"@,
                RelPathProblem::Traversal => "不允许 .. / 根 / 前缀组件"@,
            },
    {
        match self {
            RelPathProblem::Empty => "路径为空",
            RelPathProblem::Absolute => "不允许绝对路径 / 根相对路径",
            RelPathProblem::Hidden => "不允许点前缀（内部态）路径",
            RelPathProblem::Traversal => "不允许 .. / 根 / 前缀组件",
        }
    }
}

} // verus!
