//! Injection of Hoare-style contract checks into function-like declarations.
//!
//! Given a declaration, a contract kind, and a boolean predicate supplied as
//! metadata on the declaration (`precond = "x >= -100"`), the library
//! rebuilds the declaration so that the predicate is checked at run time:
//! before the original body for preconditions, after the body's result is
//! known for postconditions, and both — with paired labels — for
//! invariants.  The hard part is control-flow-correct rewriting: every
//! early exit anywhere in the body must fall through to the exit check
//! instead of escaping it, so the body is wrapped in a single-iteration
//! escapable region (`EscapeRegion`), every exit becomes "record the value
//! in the result slot, leave the region", and the function's value is the
//! unwrapped slot.
//!
//! The host compiler is a collaborator, not part of the library: its front
//! end parses source text and hands over the declaration tree, the
//! metadata entry, and the predicate both as text and as a parsed
//! expression (with the reserved return-alias token as its own atom); its
//! back end renders the rebuilt tree; its build system supplies the
//! debug-assertions signal that gates the `debug_`-prefixed kinds; its
//! diagnostics sink displays the error conditions returned here.
//!
//! Modules, leaves first:
//! - [`ast`]: the declaration/statement/expression trees and their
//!   mathematical views;
//! - [`text`]: names, labels, decimal rendering, blind substring
//!   replacement;
//! - [`contract`]: the three contract kinds;
//! - [`diag`]: the two recoverable error conditions;
//! - [`extract`]: the predicate extractor;
//! - [`rewrite`]: the early-exit rewriter;
//! - [`synth`]: the body synthesizer;
//! - [`dispatch`]: the contract dispatcher and the per-pass instance
//!   counter;
//! - [`sem`]: a big-step semantics for the modeled language;
//! - [`laws`]: the proved guarantees — transparency, early-exit coverage,
//!   precondition ordering, postcondition binding, void handling, name
//!   non-collision.

pub mod ast;
pub mod contract;
pub mod diag;
pub mod dispatch;
pub mod extract;
pub mod laws;
pub mod rewrite;
pub mod sem;
pub mod synth;
pub mod text;
