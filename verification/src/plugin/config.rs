//! The list of plugins to load.

use vstd::prelude::*;

verus! {

/// One plugin of the list: the name it registers under, the path of its
/// library, and whether it is to be loaded.
#[derive(Debug, PartialEq, Eq)]
pub struct PluginConfig {
    pub name: String,
    pub path: String,
    pub active: bool,
}

/// The plugins of the configuration file, in the order of the file.
#[derive(Debug, PartialEq, Eq)]
pub struct PluginsConfig {
    pub plugin: Vec<PluginConfig>,
}

/// The place of the first active plugin of `plugins` at or behind `from`,
/// or the length of `plugins` where there is none.
pub open spec fn next_active(plugins: Seq<PluginConfig>, from: int) -> int
    decreases plugins.len() - from,
{
    if from < 0 || from >= plugins.len() {
        plugins.len() as int
    } else if plugins[from].active {
        from
    } else {
        next_active(plugins, from + 1)
    }
}

/// Between `from` and the next active plugin no plugin is active.
pub proof fn lemma_next_active(plugins: Seq<PluginConfig>, from: int)
    requires
        0 <= from <= plugins.len(),
    ensures
        from <= next_active(plugins, from) <= plugins.len(),
        next_active(plugins, from) < plugins.len() ==> plugins[next_active(plugins, from)].active,
        forall|i: int| from <= i < next_active(plugins, from) ==> !(#[trigger] plugins[i]).active,
    decreases plugins.len() - from,
{
    if from < plugins.len() && !plugins[from].active {
        lemma_next_active(plugins, from + 1);
    }
}

impl PluginsConfig {
    /// The next plugin to load: the first active plugin at or behind
    /// `from`. The plugins are loaded in the order of the file; whoever
    /// loads them goes on behind the place that was answered.
    pub fn next_to_load(&self, from: usize) -> (next: Option<usize>)
        ensures
            match next {
                Some(place) => {
                    &&& from <= place < self.plugin@.len()
                    &&& place == next_active(self.plugin@, from as int)
                    &&& self.plugin@[place as int].active
                    &&& forall|i: int| from <= i < place ==> !(#[trigger] self.plugin@[i]).active
                },
                None => {
                    &&& next_active(self.plugin@, from as int) == self.plugin@.len()
                    &&& forall|i: int|
                        from <= i < self.plugin@.len() ==> !(#[trigger] self.plugin@[i]).active
                },
            },
    {
        let mut i: usize = from;
        while i < self.plugin.len()
            invariant
                from <= i,
                next_active(self.plugin@, from as int) == next_active(self.plugin@, i as int),
            decreases self.plugin.len() - i,
        {
            if self.plugin[i].active {
                proof {
                    lemma_next_active(self.plugin@, from as int);
                }
                return Some(i);
            }
            i = i + 1;
        }
        proof {
            if from <= self.plugin@.len() {
                lemma_next_active(self.plugin@, from as int);
            }
        }
        None
    }
}

} // verus!
