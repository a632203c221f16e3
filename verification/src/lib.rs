//! A stable interface between analysis plugins and the compiler driver that
//! hosts them: opaque node handles, span provenance, the expression kinds with
//! their precedence table, the context through which a plugin resolves handles
//! and emits diagnostics, and the order in which lint passes are notified.

pub mod ids;
pub mod lint;
pub mod span;
pub mod ty;
pub mod expr;
pub mod item;
pub mod diagnostic;
pub mod context;
pub mod lint_pass;
pub mod cli;
