//! The capability of contributing components.

use vstd::prelude::*;

use crate::model::component::Component;

verus! {

/// A plugin's supply of components.
pub trait ComponentProvider {
    /// The components that the plugin contributes.
    fn get_components(&self) -> Vec<Component>;
}

} // verus!
