//! The capability of contributing flows.

use vstd::prelude::*;

verus! {

/// A plugin's supply of flows. Each flow is handed over as the JSON text
/// of its definition; the flow manager builds the instances.
pub trait FlowProvider {
    fn get_flows(&self) -> Vec<String>;
}

} // verus!
