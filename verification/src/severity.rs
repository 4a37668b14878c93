//! Severity levels of captured events and their codes on the wire.

use vstd::prelude::*;

verus! {

/// The importance of a captured event, least severe first.
#[derive(Clone, Copy, Debug, PartialEq, Eq, Structural)]
pub enum Severity {
    Trace,
    Debug,
    Info,
    Warn,
    Error,
}

/// The code under which the remote viewer knows a severity.
///
/// The table is fixed by the viewer's protocol and is not an ordinal shift:
/// no code stands between that of `Trace` and that of `Debug`.
pub open spec fn level_code(severity: Severity) -> int {
    match severity {
        Severity::Trace => 1,
        Severity::Debug => 3,
        Severity::Info => 4,
        Severity::Warn => 5,
        Severity::Error => 6,
    }
}

/// Whether `code` is one that the viewer's protocol assigns to a severity.
pub open spec fn is_level_code(code: int) -> bool {
    code == 1 || code == 3 || code == 4 || code == 5 || code == 6
}

impl Severity {
    /// The wire code of this severity.
    pub fn code(self) -> (code: i32)
        ensures
            code == level_code(self),
    {
        match self {
            Severity::Trace => 1,
            Severity::Debug => 3,
            Severity::Info => 4,
            Severity::Warn => 5,
            Severity::Error => 6,
        }
    }
}

/// Every severity has one of the five codes of the protocol, and no other
/// code is ever produced.
pub proof fn lemma_level_code_total(severity: Severity)
    ensures
        is_level_code(level_code(severity)),
{
}

/// Two severities with the same code are the same severity.
pub proof fn lemma_level_code_injective(a: Severity, b: Severity)
    requires
        level_code(a) == level_code(b),
    ensures
        a == b,
{
}

} // verus!
