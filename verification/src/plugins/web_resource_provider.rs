//! The capability of serving web resources.

use vstd::prelude::*;

verus! {

/// A plugin's supply of web resources.
pub trait WebResourceProvider {
    /// The path under which the resources of the plugin are served.
    fn get_base_path(&self) -> String;
}

} // verus!
