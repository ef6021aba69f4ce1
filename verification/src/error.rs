//! The ways in which a build can fail.

use vstd::prelude::*;

verus! {

/// Why a build produced nothing.
#[derive(Debug, Clone, PartialEq, Eq)]
pub enum BuildError {
    /// A field or a reporter refers to a variable, list or broadcast that
    /// the scope it must be looked up in does not declare. `field` is the
    /// key of the field on its node, where the failure is reported by a
    /// node; `name` is the name that was looked up.
    UnresolvedReference { field: Option<String>, name: String },
    /// A stack holds no block.
    EmptyStack,
    /// A reporter of a variable or list stands in a stack together with
    /// other blocks.
    ChainedReporter,
    /// The build draws more fresh identifiers than it was handed.
    IdentifiersExhausted,
}

} // verus!
