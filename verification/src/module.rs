//! A module as the host resolved it: its handle and its items.

use vstd::prelude::*;
use crate::syntax::SyntaxNode;

verus! {

/// The handle by which the host knows a module. The library compares it and
/// hands it on, and reads nothing from it.
#[derive(Clone, Copy, Debug, PartialEq, Eq, Structural)]
pub struct ModuleId(pub u64);

/// The host could not resolve what it was asked for.
#[derive(Clone, Copy, Debug, PartialEq, Eq, Structural)]
pub struct ResolutionError;

/// The body of a free function: all of its descendant nodes in pre-order,
/// depth first, as the tree walker of the host yields them.
#[derive(Clone, Debug, PartialEq, Eq)]
pub struct FunctionBody {
    pub descendants: Vec<SyntaxNode>,
}

/// A declaration directly inside a module.
#[derive(Debug, PartialEq, Eq)]
pub enum ModuleItem {
    /// A function with a body, or the failure to resolve that body.
    FreeFunction(Result<FunctionBody, ResolutionError>),
    /// A function declared for outside linkage; it has no body.
    ExternFunction,
    /// Any other declaration.
    Other,
}

/// A module: its handle, and its items in declaration order, or the failure
/// to list them.
#[derive(Debug, PartialEq, Eq)]
pub struct Module {
    pub id: ModuleId,
    pub items: Result<Vec<ModuleItem>, ResolutionError>,
}

impl ModuleItem {
    /// Whether the item is a free function, resolved or not.
    pub open spec fn is_free_function(&self) -> bool {
        self is FreeFunction
    }
}

} // verus!
