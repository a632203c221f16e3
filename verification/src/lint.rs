//! Lint declarations and the severities a host can assign to them.

use vstd::prelude::*;

verus! {

/// The severity at which a lint is reported.
#[derive(Debug, Clone, Copy, PartialEq, Eq, Structural, Hash)]
pub enum Level {
    Allow,
    Warn,
    Deny,
    Forbid,
}

/// Whether a lint is reported for code that a macro expanded to.
#[derive(Debug, Clone, Copy, PartialEq, Eq, Structural, Hash)]
pub enum MacroReport {
    /// Never report inside macro expansions.
    No,
    /// Report everywhere.
    All,
}

/// How far a suggested replacement can be trusted.
#[derive(Debug, Clone, Copy, PartialEq, Eq, Structural, Hash)]
pub enum Applicability {
    MachineApplicable,
    MaybeIncorrect,
    HasPlaceholders,
    Unspecified,
}

/// A lint that a plugin may emit.
#[derive(Debug, Clone)]
pub struct Lint {
    pub name: String,
    pub default: Level,
    pub explanation: String,
    pub report_in_macro: MacroReport,
}

} // verus!
