//! Lint rules for Cairo syntax trees.
//!
//! The host hands over a module as plain data: its items, and for each free
//! function the descendant nodes of its body in pre-order. The scanner walks
//! them once, routes every node by its kind to the rule that reads it, and
//! returns the diagnostics in the order of the walk.
//!
//! - `syntax` and `module` hold what the host hands over.
//! - `lints::single_match` and `erasing_op` are the rules.
//! - `scanner` is the walk and the dispatcher.
//! - `plugin` holds the analyzers and tells the kind of a diagnostic from its
//!   message.
//! - `diagnostic` is what comes out.

pub mod diagnostic;
pub mod erasing_op;
pub mod lints;
pub mod module;
pub mod plugin;
pub mod scanner;
pub mod syntax;
pub mod text;
