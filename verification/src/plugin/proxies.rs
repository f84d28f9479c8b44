//! The loaded plugins by name.

use vstd::prelude::*;

use crate::names::{
    first_position, is_first, lemma_absent, lemma_first_position, lemma_first_position_push,
    lemma_is_first,
};
use crate::plugin::proxy::PluginProxy;
use crate::plugins::plugin::Plugin;

verus! {

/// The names of `entries`, in their order.
pub open spec fn plugin_names<P: Plugin>(entries: Seq<(Seq<char>, PluginProxy<P>)>) -> Seq<
    Seq<char>,
> {
    Seq::new(entries.len(), |i: int| entries[i].0)
}

/// Whether no two of `entries` bear one name.
pub open spec fn distinct_plugins<P: Plugin>(entries: Seq<(Seq<char>, PluginProxy<P>)>) -> bool {
    forall|i: int, j: int|
        0 <= i < j < entries.len() ==> (#[trigger] entries[i]).0 != (#[trigger] entries[j]).0
}

/// The plugin of `entries` that is called `name`.
pub open spec fn find_plugin<P: Plugin>(
    entries: Seq<(Seq<char>, PluginProxy<P>)>,
    name: Seq<char>,
) -> Option<PluginProxy<P>> {
    let place = first_position(plugin_names(entries), name);
    if place < entries.len() {
        Some(entries[place].1)
    } else {
        None
    }
}

/// `entries` after `proxy` was put in under `name`: it takes the place of
/// the plugin of that name, or the last place where there was none.
pub open spec fn plugins_with<P: Plugin>(
    entries: Seq<(Seq<char>, PluginProxy<P>)>,
    name: Seq<char>,
    proxy: PluginProxy<P>,
) -> Seq<(Seq<char>, PluginProxy<P>)> {
    let place = first_position(plugin_names(entries), name);
    if place < entries.len() {
        entries.update(place, (name, proxy))
    } else {
        entries.push((name, proxy))
    }
}

/// `entries` after each of `added` was put in, one after the other.
pub open spec fn plugins_with_all<P: Plugin>(
    entries: Seq<(Seq<char>, PluginProxy<P>)>,
    added: Seq<(Seq<char>, PluginProxy<P>)>,
) -> Seq<(Seq<char>, PluginProxy<P>)>
    decreases added.len(),
{
    if added.len() == 0 {
        entries
    } else {
        plugins_with(plugins_with_all(entries, added.drop_last()), added.last().0, added.last().1)
    }
}

/// Putting a plugin in keeps the names distinct, keeps every name that was
/// there, and makes the new name known.
pub proof fn lemma_plugins_with<P: Plugin>(
    entries: Seq<(Seq<char>, PluginProxy<P>)>,
    name: Seq<char>,
    proxy: PluginProxy<P>,
)
    requires
        distinct_plugins(entries),
    ensures
        distinct_plugins(plugins_with(entries, name, proxy)),
        find_plugin(plugins_with(entries, name, proxy), name) == Some(proxy),
        forall|other: Seq<char>|
            other != name ==> #[trigger] find_plugin(plugins_with(entries, name, proxy), other)
                == find_plugin(entries, other),
        plugin_names(plugins_with(entries, name, proxy)) == if plugin_names(entries).contains(
            name,
        ) {
            plugin_names(entries)
        } else {
            plugin_names(entries).push(name)
        },
{
    let names = plugin_names(entries);
    let after = plugins_with(entries, name, proxy);
    let place = first_position(names, name);
    lemma_first_position(names, name);
    if place < entries.len() {
        assert(names[place] == entries[place].0);
        assert(plugin_names(after) =~= names);
        assert forall|i: int, j: int| 0 <= i < j < after.len() implies (#[trigger] after[i]).0 != (
        #[trigger] after[j]).0 by {
            assert(after[i].0 == entries[i].0);
            assert(after[j].0 == entries[j].0);
        }
        assert forall|other: Seq<char>| other != name implies #[trigger] find_plugin(after, other)
            == find_plugin(entries, other) by {
            lemma_first_position(names, other);
            let at = first_position(names, other);
            if at < names.len() {
                assert(names[at] == entries[at].0);
                assert(at != place);
            }
        }
    } else {
        assert(plugin_names(after) =~= names.push(name));
        assert forall|i: int, j: int| 0 <= i < j < after.len() implies (#[trigger] after[i]).0 != (
        #[trigger] after[j]).0 by {
            if j < entries.len() {
            } else {
                assert(names[i] == entries[i].0);
                assert(names.contains(entries[i].0));
            }
        }
        assert(is_first(names.push(name), name, names.len() as int)) by {
            assert forall|j: int| 0 <= j < names.len() implies #[trigger] names.push(name)[j]
                != name by {
                assert(names[j] == names.push(name)[j]);
                if names[j] == name {
                    assert(names.contains(name));
                }
            }
        }
        lemma_is_first(names.push(name), name, names.len() as int);
        assert forall|other: Seq<char>| other != name implies #[trigger] find_plugin(after, other)
            == find_plugin(entries, other) by {
            lemma_first_position_push(names, name, other);
            lemma_first_position(names, other);
        }
    }
}

/// Putting plugins in keeps the names distinct and keeps every name that
/// was there.
pub proof fn lemma_plugins_with_all<P: Plugin>(
    entries: Seq<(Seq<char>, PluginProxy<P>)>,
    added: Seq<(Seq<char>, PluginProxy<P>)>,
)
    requires
        distinct_plugins(entries),
    ensures
        distinct_plugins(plugins_with_all(entries, added)),
        forall|name: Seq<char>|
            #![trigger find_plugin(plugins_with_all(entries, added), name)]
            find_plugin(entries, name) is Some ==> find_plugin(
                plugins_with_all(entries, added),
                name,
            ) is Some,
        plugins_with_all(entries, added).len() >= entries.len(),
    decreases added.len(),
{
    if added.len() > 0 {
        let before = plugins_with_all(entries, added.drop_last());
        lemma_plugins_with_all(entries, added.drop_last());
        lemma_plugins_with(before, added.last().0, added.last().1);
        assert forall|name: Seq<char>|
            #![trigger find_plugin(plugins_with_all(entries, added), name)]
            find_plugin(entries, name) is Some implies find_plugin(
            plugins_with_all(entries, added),
            name,
        ) is Some by {
            assert(find_plugin(before, name) is Some);
            if name != added.last().0 {
                assert(find_plugin(plugins_with(before, added.last().0, added.last().1), name)
                    == find_plugin(before, name));
            }
        }
        lemma_first_position(plugin_names(before), added.last().0);
    }
}

/// The loaded plugins, each under its name. No two plugins bear one name:
/// a plugin that is put in under a name that is taken replaces the plugin
/// of that name.
pub struct PluginProxies<P: Plugin>(Vec<(String, PluginProxy<P>)>);

impl<P: Plugin> PluginProxies<P> {
    #[verifier::type_invariant]
    spec fn distinct(self) -> bool {
        distinct_plugins(self.entries())
    }

    /// The plugins with their names, in the order in which the names came
    /// in.
    pub closed spec fn entries(&self) -> Seq<(Seq<char>, PluginProxy<P>)> {
        Seq::new(self.0@.len(), |i: int| (self.0@[i].0@, self.0@[i].1))
    }

    /// No plugins.
    pub fn new() -> (made: Self)
        ensures
            made.entries() == Seq::<(Seq<char>, PluginProxy<P>)>::empty(),
    {
        let made = PluginProxies(Vec::new());
        assert(made.entries() =~= Seq::<(Seq<char>, PluginProxy<P>)>::empty());
        made
    }

    /// The number of plugins.
    pub fn len(&self) -> (count: usize)
        ensures
            count == self.entries().len(),
            distinct_plugins(self.entries()),
    {
        proof {
            use_type_invariant(self);
        }
        self.0.len()
    }

    /// The name of the plugin at place `i`.
    pub fn name_at(&self, i: usize) -> (name: &String)
        requires
            i < self.entries().len(),
        ensures
            name@ == self.entries()[i as int].0,
    {
        &self.0[i].0
    }

    /// The plugin at place `i`.
    pub fn proxy_at(&self, i: usize) -> (proxy: &PluginProxy<P>)
        requires
            i < self.entries().len(),
        ensures
            *proxy == self.entries()[i as int].1,
    {
        &self.0[i].1
    }

    /// The place of the plugin called `name`.
    pub fn position(&self, name: &String) -> (place: Option<usize>)
        ensures
            match place {
                Some(i) => i < self.entries().len() && first_position(
                    plugin_names(self.entries()),
                    name@,
                ) == i,
                None => first_position(plugin_names(self.entries()), name@)
                    == self.entries().len(),
            },
    {
        let ghost names = plugin_names(self.entries());
        let mut i: usize = 0;
        while i < self.0.len()
            invariant
                i <= self.0.len(),
                names == plugin_names(self.entries()),
                forall|j: int| 0 <= j < i ==> #[trigger] names[j] != name@,
            decreases self.0.len() - i,
        {
            assert(names[i as int] == self.0@[i as int].0@);
            if self.0[i].0 == *name {
                proof {
                    lemma_is_first(names, name@, i as int);
                }
                return Some(i);
            }
            i = i + 1;
        }
        proof {
            lemma_absent(names, name@);
        }
        None
    }

    /// Whether a plugin called `name` is there.
    pub fn has(&self, name: &String) -> (known: bool)
        ensures
            known == find_plugin(self.entries(), name@) is Some,
            known == plugin_names(self.entries()).contains(name@),
    {
        proof {
            lemma_first_position(plugin_names(self.entries()), name@);
        }
        self.position(name).is_some()
    }

    /// The plugin called `name`.
    pub fn get(&self, name: &String) -> (found: Option<&PluginProxy<P>>)
        ensures
            match found {
                Some(proxy) => find_plugin(self.entries(), name@) == Some(*proxy),
                None => find_plugin(self.entries(), name@) is None,
            },
    {
        match self.position(name) {
            Some(i) => Some(&self.0[i].1),
            None => None,
        }
    }

    /// Puts `proxy` in under `name`. It replaces the plugin of that name
    /// where there is one.
    pub fn insert(&mut self, name: String, proxy: PluginProxy<P>)
        ensures
            final(self).entries() == plugins_with(old(self).entries(), name@, proxy),
    {
        proof {
            use_type_invariant(&*self);
            lemma_plugins_with(self.entries(), name@, proxy);
        }
        let place = self.position(&name);
        let ghost before = self.entries();
        let mut entries: Vec<(String, PluginProxy<P>)> = Vec::new();
        core::mem::swap(&mut entries, &mut self.0);
        match place {
            Some(i) => {
                entries.set(i, (name, proxy));
            },
            None => {
                entries.push((name, proxy));
            },
        }
        assert(Seq::new(entries@.len(), |i: int| (entries@[i].0@, entries@[i].1)) =~= plugins_with(
            before,
            name@,
            proxy,
        ));
        self.0 = entries;
    }

    /// Puts every plugin of `added` in, one after the other.
    pub fn extend(&mut self, added: PluginProxies<P>)
        ensures
            final(self).entries() == plugins_with_all(old(self).entries(), added.entries()),
    {
        let mut rest = added.0;
        let ghost all = added.entries();
        let mut taken: Vec<(String, PluginProxy<P>)> = Vec::new();
        // The entries come off the end of `rest`; `taken` turns them round
        // again.
        while rest.len() > 0
            invariant
                rest@.len() + taken@.len() == all.len(),
                forall|i: int|
                    0 <= i < rest@.len() ==> (rest@[i].0@, rest@[i].1) == #[trigger] all[i],
                forall|k: int|
                    rest@.len() <= k < all.len() ==> #[trigger] all[k] == (
                        taken@[all.len() - 1 - k].0@,
                        taken@[all.len() - 1 - k].1,
                    ),
            decreases rest.len(),
        {
            let ghost last = rest@.len() - 1;
            let entry = rest.pop().unwrap();
            assert((entry.0@, entry.1) == all[last]);
            taken.push(entry);
        }
        assert(all.take(0) =~= Seq::<(Seq<char>, PluginProxy<P>)>::empty());
        while taken.len() > 0
            invariant
                taken@.len() <= all.len(),
                forall|k: int|
                    all.len() - taken@.len() <= k < all.len() ==> #[trigger] all[k] == (
                        taken@[all.len() - 1 - k].0@,
                        taken@[all.len() - 1 - k].1,
                    ),
                self.entries() == plugins_with_all(
                    old(self).entries(),
                    all.take(all.len() - taken@.len()),
                ),
            decreases taken.len(),
        {
            let ghost done = all.len() - taken@.len();
            let entry = taken.pop().unwrap();
            proof {
                assert((entry.0@, entry.1) == all[done]);
                assert(all.take(done + 1).drop_last() =~= all.take(done));
                assert(all.take(done + 1).last() == all[done]);
            }
            self.insert(entry.0, entry.1);
        }
        assert(all.take(all.len() as int) =~= all);
    }
}

} // verus!
