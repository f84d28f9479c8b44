//! What a plugin library registers its plugins with.

use std::sync::Arc;
use vstd::prelude::*;

use crate::plugin::proxies::{plugins_with, PluginProxies};
use crate::plugin::proxy::{share, PluginProxy};
use crate::plugins::plugin::Plugin;

verus! {

/// Collects the plugins of one library. Each plugin that is registered is
/// wrapped in a proxy that holds a handle to the library.
pub struct PluginRegistrar<P: Plugin> {
    pub(crate) plugins: PluginProxies<P>,
    lib: Arc<libloading::Library>,
}

impl<P: Plugin> PluginRegistrar<P> {
    /// The plugins that were registered, each under its name.
    pub closed spec fn registered(&self) -> Seq<(Seq<char>, PluginProxy<P>)> {
        self.plugins.entries()
    }

    /// The library whose plugins are collected.
    pub closed spec fn library(&self) -> Arc<libloading::Library> {
        self.lib
    }

    /// A registrar for the plugins of `lib`, without plugins yet.
    pub fn new(lib: Arc<libloading::Library>) -> (registrar: Self)
        ensures
            registrar.registered() == Seq::<(Seq<char>, PluginProxy<P>)>::empty(),
            registrar.library() == lib,
    {
        PluginRegistrar { plugins: PluginProxies::new(), lib }
    }

    /// Registers `plugin` under `name`, behind a proxy that holds the
    /// library. A plugin that was registered under that name before gives
    /// way.
    pub fn register_plugin(&mut self, name: &str, plugin: P)
        ensures
            final(self).library() == old(self).library(),
            exists|proxy: PluginProxy<P>|
                proxy.wrapped() == plugin && proxy.library() == old(self).library()
                    && final(self).registered() == plugins_with(
                    old(self).registered(),
                    name@,
                    proxy,
                ),
    {
        let proxy = PluginProxy::new(plugin, share(&self.lib));
        self.plugins.insert(name.to_owned(), proxy);
    }

    /// The plugins that were registered.
    pub fn into_plugins(self) -> (plugins: PluginProxies<P>)
        ensures
            plugins.entries() == self.registered(),
    {
        self.plugins
    }
}

} // verus!
