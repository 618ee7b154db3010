//! Pivot-rule vocabulary.

use vstd::prelude::*;

verus! {

/// How strongly a pivot rule's conclusion is established: seen directly in
/// one artifact, corroborated across artifacts, or inferred.
#[derive(Debug, Clone, Copy, PartialEq, Eq, Structural)]
pub enum AssertionLevel {
    Observed,
    Correlated,
    Inferred,
}

} // verus!
