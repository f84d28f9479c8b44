//! Values that pass through the component registry.

use vstd::prelude::*;

verus! {

/// A component could not be imported.
#[derive(Debug, PartialEq, Eq)]
pub struct ComponentImportError;

} // verus!
