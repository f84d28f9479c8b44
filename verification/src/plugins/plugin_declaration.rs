//! What a plugin library declares of itself.

use vstd::prelude::*;

use crate::plugin::registrar::PluginRegistrar;
use crate::plugins::plugin::Plugin;

verus! {

/// The entry point through which a library registers its plugins.
pub trait PluginRegistration<P: Plugin> {
    /// Registers the plugins of the library with `registrar`.
    fn register(&self, registrar: &mut PluginRegistrar<P>);
}

/// The record that a plugin library exposes: the toolchain it was built
/// with, the version of the plugin interface it was built against, and its
/// entry point. The entry point may be called only once both tokens were
/// found to be those of the host.
pub struct PluginDeclaration<R> {
    pub rustc_version: String,
    pub inexor_rgf_plugin_version: String,
    pub register: R,
}

} // verus!
