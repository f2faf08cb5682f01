//! Groups of plugins added as one unit, with a configurable build order.

use vstd::prelude::*;

use crate::app::App;
use crate::app::AppError;
use crate::plugin::Plugin;
use crate::plugin::PluginDescriptor;

verus! {

/// One plugin inside a group: its descriptor, and whether the group will
/// build it.
#[derive(Debug, Clone, PartialEq, Eq)]
pub struct PluginEntry {
    pub descriptor: PluginDescriptor,
    pub enabled: bool,
}

impl PluginEntry {
    /// An owned copy of this entry, equal to it.
    pub fn duplicate(&self) -> (r: PluginEntry)
        ensures
            r == *self,
    {
        PluginEntry { descriptor: self.descriptor.duplicate(), enabled: self.enabled }
    }
}

/// Whether the entry list has an entry under `key`.
pub open spec fn spec_has_entry(plugins: Seq<(u64, PluginEntry)>, key: u64) -> bool {
    exists|i: int| 0 <= i < plugins.len() && #[trigger] plugins[i].0 == key
}

/// The position of the entry under `key`.
pub open spec fn spec_entry_index(plugins: Seq<(u64, PluginEntry)>, key: u64) -> int {
    choose|i: int| 0 <= i < plugins.len() && #[trigger] plugins[i].0 == key
}

/// The position of the first occurrence of `key` in `order`.
pub open spec fn spec_order_index(order: Seq<u64>, key: u64) -> int {
    choose|i: int| 0 <= i < order.len() && #[trigger] order[i] == key
}

/// `order` with its occurrence of `key` taken out, when it has one.
pub open spec fn spec_order_without(order: Seq<u64>, key: u64) -> Seq<u64> {
    if order.contains(key) {
        order.remove(spec_order_index(order, key))
    } else {
        order
    }
}

/// Whether the entry list keys each plugin at most once.
pub open spec fn spec_entry_keys_unique(plugins: Seq<(u64, PluginEntry)>) -> bool {
    forall|i: int, j: int|
        0 <= i < j < plugins.len() ==> #[trigger] plugins[i].0 != #[trigger] plugins[j].0
}

/// The entry stored under `key`, if the list has one.
pub open spec fn spec_lookup(plugins: Seq<(u64, PluginEntry)>, key: u64) -> Option<PluginEntry> {
    if spec_has_entry(plugins, key) {
        Some(plugins[spec_entry_index(plugins, key)].1)
    } else {
        None
    }
}

/// Collects the build order of a set of plugins before they are added to an
/// app. Plugins inside a group can be reordered, replaced, disabled and
/// re-enabled; a plugin added again moves to its new place in the order.
#[derive(Debug, Clone, PartialEq, Eq)]
pub struct PluginGroupBuilder {
    /// The group's name, used when a build is refused.
    pub group_name: String,
    /// The plugins of the group, keyed by their type keys.
    pub plugins: Vec<(u64, PluginEntry)>,
    /// The keys of the group's plugins, in build order.
    pub order: Vec<u64>,
}

impl PluginGroupBuilder {
    /// The builder's structural invariant: entry keys are unique, the order
    /// names each key at most once, and only keys that have entries.
    pub open spec fn wf(&self) -> bool {
        &&& forall|i: int, j: int|
            0 <= i < j < self.plugins@.len() ==> #[trigger] self.plugins@[i].0
                != #[trigger] self.plugins@[j].0
        &&& forall|i: int, j: int|
            0 <= i < j < self.order@.len() ==> #[trigger] self.order@[i]
                != #[trigger] self.order@[j]
        &&& forall|i: int|
            0 <= i < self.order@.len() ==> spec_has_entry(
                self.plugins@,
                #[trigger] self.order@[i],
            )
    }

    /// Starts an empty builder for the group `PG`.
    pub fn start<PG: PluginGroup>() -> (b: PluginGroupBuilder)
        ensures
            b.wf(),
            b.group_name@ == PG::spec_name(),
            b.plugins@ == Seq::<(u64, PluginEntry)>::empty(),
            b.order@ == Seq::<u64>::empty(),
    {
        PluginGroupBuilder { group_name: PG::name(), plugins: Vec::new(), order: Vec::new() }
    }

    /// Returns the position of the entry under `key`, if the group has one.
    fn entry_position(&self, key: u64) -> (r: Option<usize>)
        ensures
            match r {
                Some(i) => i < self.plugins@.len() && self.plugins@[i as int].0 == key,
                None => !spec_has_entry(self.plugins@, key),
            },
    {
        let mut i: usize = 0;
        while i < self.plugins.len()
            invariant
                i <= self.plugins@.len(),
                forall|j: int| 0 <= j < i ==> #[trigger] self.plugins@[j].0 != key,
            decreases self.plugins@.len() - i,
        {
            if self.plugins[i].0 == key {
                return Some(i);
            }
            i += 1;
        }
        None
    }

    /// Returns the position of the plugin `Target` in the build order.
    /// Every plugin of the group stands in the order, so a missing target
    /// means the plugin is not in the group; that case is ruled out here.
    fn index_of<Target: Plugin>(&self) -> (r: usize)
        requires
            self.wf(),
            self.order@.contains(Target::spec_key()),
        ensures
            r < self.order@.len(),
            self.order@[r as int] == Target::spec_key(),
            r == spec_order_index(self.order@, Target::spec_key()),
    {
        let key = Target::key();
        let mut i: usize = 0;
        while i < self.order.len()
            invariant
                self.wf(),
                i <= self.order@.len(),
                key == Target::spec_key(),
                self.order@.contains(Target::spec_key()),
                forall|j: int| 0 <= j < i ==> self.order@[j] != key,
            decreases self.order@.len() - i,
        {
            if self.order[i] == key {
                proof {
                    let k = spec_order_index(self.order@, key);
                    assert(self.order@.contains(key));
                    assert(0 <= k < self.order@.len() && self.order@[k] == key);
                    if k < i as int {
                        assert(self.order@[k] != key);
                    }
                    if k > i as int {
                        assert(self.order@[i as int] != self.order@[k]);
                    }
                }
                return i;
            }
            i += 1;
        }
        proof {
            let k = choose|k: int| 0 <= k < self.order@.len() && self.order@[k] == key;
            assert(self.order@[k] != key);
        }
        0
    }

    /// Removes `key` from the build order, if it stands there.
    fn remove_order_occurrence(&mut self, key: u64)
        requires
            old(self).wf(),
        ensures
            final(self).order@ == spec_order_without(old(self).order@, key),
            final(self).plugins == old(self).plugins,
            final(self).group_name == old(self).group_name,
            !final(self).order@.contains(key),
            final(self).wf(),
    {
        let mut i: usize = 0;
        while i < self.order.len()
            invariant
                self.wf(),
                *self == *old(self),
                i <= self.order@.len(),
                forall|j: int| 0 <= j < i ==> self.order@[j] != key,
            decreases self.order@.len() - i,
        {
            if self.order[i] == key {
                proof {
                    let k = spec_order_index(self.order@, key);
                    assert(self.order@.contains(key));
                    assert(0 <= k < self.order@.len() && self.order@[k] == key);
                    if k < i as int {
                        assert(self.order@[k] != key);
                    }
                    if k > i as int {
                        assert(self.order@[i as int] != self.order@[k]);
                    }
                }
                self.order.remove(i);
                proof {
                    assert forall|p: int|
                        0 <= p < self.order@.len() implies self.order@[p] != key by {
                        if p < i as int {
                            assert(old(self).order@[p] != key);
                        } else {
                            assert(old(self).order@[p + 1] != key);
                        }
                    }
                    assert forall|p: int, q: int|
                        0 <= p < q < self.order@.len() implies self.order@[p]
                        != self.order@[q] by {
                        let p0 = if p < i as int {
                            p
                        } else {
                            p + 1
                        };
                        let q0 = if q < i as int {
                            q
                        } else {
                            q + 1
                        };
                        assert(old(self).order@[p0] != old(self).order@[q0]);
                    }
                }
                return ;
            }
            i += 1;
        }
        proof {
            assert(!self.order@.contains(key)) by {
                if self.order@.contains(key) {
                    let k = choose|k: int|
                        0 <= k < self.order@.len() && self.order@[k] == key;
                    assert(self.order@[k] != key);
                }
            }
        }
    }

    /// Stores `entry` under `key`, replacing the entry already under that
    /// key if there is one; the build order is left alone.
    fn upsert_plugin_entry_state(&mut self, key: u64, entry: PluginEntry)
        requires
            old(self).wf(),
        ensures
            spec_has_entry(old(self).plugins@, key) ==> final(self).plugins@ == old(
                self,
            ).plugins@.update(spec_entry_index(old(self).plugins@, key), (key, entry)),
            !spec_has_entry(old(self).plugins@, key) ==> final(self).plugins@ == old(
                self,
            ).plugins@.push((key, entry)),
            final(self).order == old(self).order,
            final(self).group_name == old(self).group_name,
            spec_has_entry(final(self).plugins@, key),
            final(self).wf(),
    {
        let position = self.entry_position(key);
        match position {
            Some(i) => {
                proof {
                    let k = spec_entry_index(self.plugins@, key);
                    assert(spec_has_entry(self.plugins@, key));
                    assert(0 <= k < self.plugins@.len() && self.plugins@[k].0 == key);
                    if k < i as int {
                        assert(self.plugins@[k].0 != self.plugins@[i as int].0);
                    }
                    if k > i as int {
                        assert(self.plugins@[i as int].0 != self.plugins@[k].0);
                    }
                }
                self.plugins.set(i, (key, entry));
                proof {
                    assert(final(self).plugins@[i as int].0 == key);
                    assert forall|p: int, q: int|
                        0 <= p < q < self.plugins@.len() implies self.plugins@[p].0
                        != self.plugins@[q].0 by {
                        assert(old(self).plugins@[p].0 != old(self).plugins@[q].0);
                    }
                    assert forall|p: int|
                        0 <= p < self.order@.len() implies spec_has_entry(
                        self.plugins@,
                        self.order@[p],
                    ) by {
                        let w = spec_entry_index(old(self).plugins@, self.order@[p]);
                        assert(spec_has_entry(old(self).plugins@, self.order@[p]));
                        assert(old(self).plugins@[w].0 == self.order@[p]);
                        assert(self.plugins@[w].0 == self.order@[p]);
                    }
                }
            },
            None => {
                self.plugins.push((key, entry));
                proof {
                    let n = old(self).plugins@.len() as int;
                    assert(self.plugins@[n].0 == key);
                    assert forall|p: int, q: int|
                        0 <= p < q < self.plugins@.len() implies self.plugins@[p].0
                        != self.plugins@[q].0 by {
                        if q < n {
                            assert(old(self).plugins@[p].0 != old(self).plugins@[q].0);
                        } else {
                            assert(self.plugins@[p].0 != key);
                        }
                    }
                    assert forall|p: int|
                        0 <= p < self.order@.len() implies spec_has_entry(
                        self.plugins@,
                        self.order@[p],
                    ) by {
                        let w = spec_entry_index(old(self).plugins@, self.order@[p]);
                        assert(spec_has_entry(old(self).plugins@, self.order@[p]));
                        assert(old(self).plugins@[w].0 == self.order@[p]);
                        assert(self.plugins@[w].0 == self.order@[p]);
                    }
                }
            },
        }
    }

    /// Moves `key` to the end of the build order and stores `entry` under
    /// it, replacing any entry already there.
    fn append_entry(&mut self, key: u64, entry: PluginEntry)
        requires
            old(self).wf(),
        ensures
            final(self).wf(),
            spec_entry_added(*old(self), *final(self), key, entry),
    {
        self.remove_order_occurrence(key);
        let ghost cleaned = *self;
        self.upsert_plugin_entry_state(key, entry);
        let ghost mid = *self;
        self.order.push(key);
        proof {
            assert(self.order@ == spec_order_without(old(self).order@, key).push(key));
            assert forall|p: int, q: int|
                0 <= p < q < self.order@.len() implies self.order@[p] != self.order@[q] by {
                if q < self.order@.len() - 1 {
                    assert(mid.order@[p] != mid.order@[q]);
                } else {
                    assert(!cleaned.order@.contains(key));
                    assert(mid.order@[p] == cleaned.order@[p]);
                    if mid.order@[p] == key {
                        assert(cleaned.order@.contains(key));
                    }
                }
            }
            assert(spec_has_entry(self.plugins@, key));
            assert forall|p: int|
                0 <= p < self.order@.len() implies spec_has_entry(
                self.plugins@,
                self.order@[p],
            ) by {
                if p < self.order@.len() - 1 {
                    assert(spec_has_entry(mid.plugins@, mid.order@[p]));
                }
            }
        }
    }

    /// Replaces the configuration of the plugin `T` inside the group,
    /// keeping its place in the order and whether it is enabled. The group
    /// must hold a plugin of that type; a missing one is ruled out here.
    pub fn set<T: Plugin>(self, plugin: &T) -> (r: PluginGroupBuilder)
        requires
            self.wf(),
            spec_has_entry(self.plugins@, T::spec_key()),
        ensures
            r.wf(),
            r.plugins@.len() == self.plugins@.len(),
            ({
                let i = spec_entry_index(self.plugins@, T::spec_key());
                &&& r.plugins@[i].0 == T::spec_key()
                &&& r.plugins@[i].1.enabled == self.plugins@[i].1.enabled
                &&& r.plugins@[i].1.descriptor.key == T::spec_key()
                &&& r.plugins@[i].1.descriptor.name@ == T::spec_name()
                &&& r.plugins@[i].1.descriptor.unique == T::spec_is_unique()
                &&& r.plugins@[i].1.descriptor.action == plugin.spec_build_action()
                &&& r.plugins@ == self.plugins@.update(i, r.plugins@[i])
            }),
            r.order == self.order,
            r.group_name == self.group_name,
    {
        let mut this = self;
        let key = T::key();
        let position = this.entry_position(key);
        match position {
            Some(i) => {
                proof {
                    let k = spec_entry_index(self.plugins@, key);
                    assert(0 <= k < self.plugins@.len() && self.plugins@[k].0 == key);
                    if k < i as int {
                        assert(self.plugins@[k].0 != self.plugins@[i as int].0);
                    }
                    if k > i as int {
                        assert(self.plugins@[i as int].0 != self.plugins@[k].0);
                    }
                }
                let enabled = this.plugins[i].1.enabled;
                let descriptor = PluginDescriptor {
                    key,
                    name: plugin.name(),
                    unique: plugin.is_unique(),
                    action: plugin.build_action(),
                };
                this.plugins.set(i, (key, PluginEntry { descriptor, enabled }));
                proof {
                    assert forall|p: int, q: int|
                        0 <= p < q < this.plugins@.len() implies this.plugins@[p].0
                        != this.plugins@[q].0 by {
                        assert(self.plugins@[p].0 != self.plugins@[q].0);
                    }
                    assert forall|p: int|
                        0 <= p < this.order@.len() implies spec_has_entry(
                        this.plugins@,
                        this.order@[p],
                    ) by {
                        let w = spec_entry_index(self.plugins@, this.order@[p]);
                        assert(spec_has_entry(self.plugins@, this.order@[p]));
                        assert(self.plugins@[w].0 == this.order@[p]);
                        assert(this.plugins@[w].0 == this.order@[p]);
                    }
                }
                this
            },
            None => {
                proof {
                    assert(false);
                }
                this
            },
        }
    }

    /// Adds the plugin `T` at the end of the group's order. A plugin
    /// already in the group moves to the end and is enabled again.
    pub fn add<T: Plugin>(self, plugin: T) -> (r: PluginGroupBuilder)
        requires
            self.wf(),
        ensures
            r.wf(),
            r.order@ == spec_order_without(self.order@, T::spec_key()).push(T::spec_key()),
            spec_has_entry(r.plugins@, T::spec_key()),
            ({
                let i = spec_entry_index(r.plugins@, T::spec_key());
                &&& r.plugins@[i].1.enabled
                &&& r.plugins@[i].1.descriptor.key == T::spec_key()
                &&& r.plugins@[i].1.descriptor.name@ == T::spec_name()
                &&& r.plugins@[i].1.descriptor.unique == T::spec_is_unique()
                &&& r.plugins@[i].1.descriptor.action == plugin.spec_build_action()
            }),
            r.group_name == self.group_name,
    {
        let mut this = self;
        let key = T::key();
        let descriptor = PluginDescriptor {
            key,
            name: plugin.name(),
            unique: plugin.is_unique(),
            action: plugin.build_action(),
        };
        let ghost d = descriptor;
        this.append_entry(key, PluginEntry { descriptor, enabled: true });
        proof {
            let w = if spec_has_entry(self.plugins@, key) {
                spec_entry_index(self.plugins@, key)
            } else {
                self.plugins@.len() as int
            };
            assert(this.plugins@[w] == (key, (PluginEntry { descriptor: d, enabled: true })));
            assert(this.plugins@[w].0 == key);
            let i = spec_entry_index(this.plugins@, key);
            assert(spec_has_entry(this.plugins@, key));
            assert(0 <= i < this.plugins@.len() && this.plugins@[i].0 == key);
            if i < w {
                assert(this.plugins@[i].0 != this.plugins@[w].0);
            }
            if i > w {
                assert(this.plugins@[w].0 != this.plugins@[i].0);
            }
        }
        this
    }
}

impl PluginGroupBuilder {
    /// Adds the plugin `T` right before the plugin `Target` in the build
    /// order. The group must hold `Target`, and the two plugin types must
    /// differ; both are ruled out here rather than reported.
    pub fn add_before<Target: Plugin, T: Plugin>(self, plugin: T) -> (r: PluginGroupBuilder)
        requires
            self.wf(),
            self.order@.contains(Target::spec_key()),
            T::spec_key() != Target::spec_key(),
        ensures
            r.wf(),
            ({
                let cleaned = spec_order_without(self.order@, T::spec_key());
                r.order@ == cleaned.insert(spec_order_index(cleaned, Target::spec_key()), T::spec_key())
            }),
            spec_has_entry(r.plugins@, T::spec_key()),
            ({
                let i = spec_entry_index(r.plugins@, T::spec_key());
                &&& r.plugins@[i].1.enabled
                &&& r.plugins@[i].1.descriptor.key == T::spec_key()
                &&& r.plugins@[i].1.descriptor.name@ == T::spec_name()
                &&& r.plugins@[i].1.descriptor.unique == T::spec_is_unique()
                &&& r.plugins@[i].1.descriptor.action == plugin.spec_build_action()
            }),
            r.group_name == self.group_name,
    {
        let mut this = self;
        let key = T::key();
        let descriptor = PluginDescriptor {
            key,
            name: plugin.name(),
            unique: plugin.is_unique(),
            action: plugin.build_action(),
        };
        let ghost d = descriptor;
        this.remove_order_occurrence(key);
        this.upsert_plugin_entry_state(key, PluginEntry { descriptor, enabled: true });
        proof {
            assert forall|p: int|
                0 <= p < this.order@.len() implies #[trigger] this.order@[p]
                == spec_order_without(self.order@, key)[p] by {}
            assert(this.order@ =~= spec_order_without(self.order@, key));
            assert(this.order@.contains(Target::spec_key())) by {
                let q = spec_order_index(self.order@, Target::spec_key());
                assert(self.order@.contains(Target::spec_key()));
                assert(self.order@[q] == Target::spec_key());
                if self.order@.contains(key) {
                    let rm = spec_order_index(self.order@, key);
                    assert(self.order@[rm] == key);
                    if q < rm {
                        assert(this.order@[q] == Target::spec_key());
                    } else {
                        assert(this.order@[q - 1] == Target::spec_key());
                    }
                } else {
                    assert(this.order@[q] == Target::spec_key());
                }
            }
        }
        let target_index = this.index_of::<Target>();
        this.order.insert(target_index, key);
        proof {
            group_insert_order_wf_proof(self, this, key, target_index as int);
            let w = if spec_has_entry(self.plugins@, key) {
                spec_entry_index(self.plugins@, key)
            } else {
                self.plugins@.len() as int
            };
            assert(this.plugins@[w] == (key, (PluginEntry { descriptor: d, enabled: true })));
            assert(this.plugins@[w].0 == key);
            let i = spec_entry_index(this.plugins@, key);
            assert(spec_has_entry(this.plugins@, key));
            assert(0 <= i < this.plugins@.len() && this.plugins@[i].0 == key);
            if i < w {
                assert(this.plugins@[i].0 != this.plugins@[w].0);
            }
            if i > w {
                assert(this.plugins@[w].0 != this.plugins@[i].0);
            }
        }
        this
    }

    /// Adds the plugin `T` right after the plugin `Target` in the build
    /// order. The group must hold `Target`, and the two plugin types must
    /// differ; both are ruled out here rather than reported.
    pub fn add_after<Target: Plugin, T: Plugin>(self, plugin: T) -> (r: PluginGroupBuilder)
        requires
            self.wf(),
            self.order@.contains(Target::spec_key()),
            T::spec_key() != Target::spec_key(),
        ensures
            r.wf(),
            ({
                let cleaned = spec_order_without(self.order@, T::spec_key());
                r.order@ == cleaned.insert(
                    spec_order_index(cleaned, Target::spec_key()) + 1,
                    T::spec_key(),
                )
            }),
            spec_has_entry(r.plugins@, T::spec_key()),
            ({
                let i = spec_entry_index(r.plugins@, T::spec_key());
                &&& r.plugins@[i].1.enabled
                &&& r.plugins@[i].1.descriptor.key == T::spec_key()
                &&& r.plugins@[i].1.descriptor.name@ == T::spec_name()
                &&& r.plugins@[i].1.descriptor.unique == T::spec_is_unique()
                &&& r.plugins@[i].1.descriptor.action == plugin.spec_build_action()
            }),
            r.group_name == self.group_name,
    {
        let mut this = self;
        let key = T::key();
        let descriptor = PluginDescriptor {
            key,
            name: plugin.name(),
            unique: plugin.is_unique(),
            action: plugin.build_action(),
        };
        let ghost d = descriptor;
        this.remove_order_occurrence(key);
        this.upsert_plugin_entry_state(key, PluginEntry { descriptor, enabled: true });
        proof {
            assert(this.order@ =~= spec_order_without(self.order@, key));
            assert(this.order@.contains(Target::spec_key())) by {
                let q = spec_order_index(self.order@, Target::spec_key());
                assert(self.order@.contains(Target::spec_key()));
                assert(self.order@[q] == Target::spec_key());
                if self.order@.contains(key) {
                    let rm = spec_order_index(self.order@, key);
                    assert(self.order@[rm] == key);
                    if q < rm {
                        assert(this.order@[q] == Target::spec_key());
                    } else {
                        assert(this.order@[q - 1] == Target::spec_key());
                    }
                } else {
                    assert(this.order@[q] == Target::spec_key());
                }
            }
        }
        let order_len = this.order.len();
        let target_position = this.index_of::<Target>();
        proof {
            assert(target_position < order_len);
        }
        let target_index = target_position + 1;
        this.order.insert(target_index, key);
        proof {
            group_insert_order_wf_proof(self, this, key, target_index as int);
            let w = if spec_has_entry(self.plugins@, key) {
                spec_entry_index(self.plugins@, key)
            } else {
                self.plugins@.len() as int
            };
            assert(this.plugins@[w] == (key, (PluginEntry { descriptor: d, enabled: true })));
            assert(this.plugins@[w].0 == key);
            let i = spec_entry_index(this.plugins@, key);
            assert(spec_has_entry(this.plugins@, key));
            assert(0 <= i < this.plugins@.len() && this.plugins@[i].0 == key);
            if i < w {
                assert(this.plugins@[i].0 != this.plugins@[w].0);
            }
            if i > w {
                assert(this.plugins@[w].0 != this.plugins@[i].0);
            }
        }
        this
    }

    /// Enables the plugin `T`, so the group will build it again. The group
    /// must hold a plugin of that type; a missing one is ruled out here.
    pub fn enable<T: Plugin>(self) -> (r: PluginGroupBuilder)
        requires
            self.wf(),
            spec_has_entry(self.plugins@, T::spec_key()),
        ensures
            r.wf(),
            ({
                let i = spec_entry_index(self.plugins@, T::spec_key());
                &&& r.plugins@ == self.plugins@.update(
                    i,
                    (
                        T::spec_key(),
                        (PluginEntry { descriptor: self.plugins@[i].1.descriptor, enabled: true }),
                    ),
                )
            }),
            r.order == self.order,
            r.group_name == self.group_name,
    {
        self.set_enabled::<T>(true)
    }

    /// Disables the plugin `T`: it keeps its place in the group and in the
    /// build order, but the group will not build it. The group must hold a
    /// plugin of that type; a missing one is ruled out here.
    pub fn disable<T: Plugin>(self) -> (r: PluginGroupBuilder)
        requires
            self.wf(),
            spec_has_entry(self.plugins@, T::spec_key()),
        ensures
            r.wf(),
            ({
                let i = spec_entry_index(self.plugins@, T::spec_key());
                &&& r.plugins@ == self.plugins@.update(
                    i,
                    (
                        T::spec_key(),
                        (PluginEntry { descriptor: self.plugins@[i].1.descriptor, enabled: false }),
                    ),
                )
            }),
            r.order == self.order,
            r.group_name == self.group_name,
    {
        self.set_enabled::<T>(false)
    }

    /// Flips whether the group will build the plugin `T`.
    fn set_enabled<T: Plugin>(self, enabled: bool) -> (r: PluginGroupBuilder)
        requires
            self.wf(),
            spec_has_entry(self.plugins@, T::spec_key()),
        ensures
            r.wf(),
            ({
                let i = spec_entry_index(self.plugins@, T::spec_key());
                &&& r.plugins@ == self.plugins@.update(
                    i,
                    (
                        T::spec_key(),
                        (PluginEntry { descriptor: self.plugins@[i].1.descriptor, enabled }),
                    ),
                )
            }),
            r.order == self.order,
            r.group_name == self.group_name,
    {
        let mut this = self;
        let key = T::key();
        let position = this.entry_position(key);
        match position {
            Some(i) => {
                proof {
                    let k = spec_entry_index(self.plugins@, key);
                    assert(0 <= k < self.plugins@.len() && self.plugins@[k].0 == key);
                    if k < i as int {
                        assert(self.plugins@[k].0 != self.plugins@[i as int].0);
                    }
                    if k > i as int {
                        assert(self.plugins@[i as int].0 != self.plugins@[k].0);
                    }
                }
                let descriptor = this.plugins[i].1.descriptor.duplicate();
                this.plugins.set(i, (key, PluginEntry { descriptor, enabled }));
                proof {
                    assert forall|p: int, q: int|
                        0 <= p < q < this.plugins@.len() implies this.plugins@[p].0
                        != this.plugins@[q].0 by {
                        assert(self.plugins@[p].0 != self.plugins@[q].0);
                    }
                    assert forall|p: int|
                        0 <= p < this.order@.len() implies spec_has_entry(
                        this.plugins@,
                        this.order@[p],
                    ) by {
                        let w = spec_entry_index(self.plugins@, this.order@[p]);
                        assert(spec_has_entry(self.plugins@, this.order@[p]));
                        assert(self.plugins@[w].0 == this.order@[p]);
                        assert(this.plugins@[w].0 == this.order@[p]);
                    }
                }
                this
            },
            None => {
                proof {
                    assert(false);
                }
                this
            },
        }
    }

    /// Merges a whole group at the end of this one: each of its plugins is
    /// moved to the end of this group's build order, replacing any plugin
    /// of the same type already here.
    pub fn add_group<G: PluginGroup>(self, group: G) -> (r: PluginGroupBuilder)
        requires
            self.wf(),
        ensures
            r.wf(),
            r.group_name == self.group_name,
    {
        self.add_group_builder(group.build())
    }

    /// Merges the plugins of `built` into this group, in `built`'s build
    /// order. A key that `built` lists without an entry is skipped.
    pub fn add_group_builder(self, built: PluginGroupBuilder) -> (r: PluginGroupBuilder)
        requires
            self.wf(),
        ensures
            r.wf(),
            r.group_name == self.group_name,
            spec_entry_keys_unique(built.plugins@) ==> spec_group_merged(
                self,
                r,
                built.plugins@,
                built.order@,
            ),
    {
        let mut this = self;
        let n = built.order.len();
        let mut k: usize = 0;
        while k < n
            invariant
                this.wf(),
                self.wf(),
                n == built.order@.len(),
                k <= n,
                this.group_name == self.group_name,
                spec_entry_keys_unique(built.plugins@) ==> spec_group_merged(
                    self,
                    this,
                    built.plugins@,
                    built.order@.take(k as int),
                ),
            decreases n - k,
        {
            let ghost before = this;
            let key = built.order[k];
            let position = built.entry_position(key);
            match position {
                Some(i) => {
                    let entry = built.plugins[i].1.duplicate();
                    let ghost entry_value = entry;
                    this.append_entry(key, entry);
                    proof {
                        if spec_entry_keys_unique(built.plugins@) {
                            let w = spec_entry_index(built.plugins@, key);
                            assert(built.plugins@[i as int].0 == key);
                            assert(spec_has_entry(built.plugins@, key));
                            assert(built.plugins@[w].0 == key);
                            if w < i as int {
                                assert(built.plugins@[w].0 != built.plugins@[i as int].0);
                            }
                            if w > i as int {
                                assert(built.plugins@[i as int].0 != built.plugins@[w].0);
                            }
                            assert(spec_lookup(built.plugins@, key) == Some(
                                built.plugins@[i as int].1,
                            ));
                            assert(spec_entry_added(before, this, key, entry_value));
                            assert(built.order@.take(k + 1).drop_last() =~= built.order@.take(
                                k as int,
                            ));
                            assert(built.order@.take(k + 1).last() == built.order@[k as int]);
                            assert(built.order@.take(k + 1).len() == k + 1);
                            assert(spec_group_merged(
                                self,
                                before,
                                built.plugins@,
                                built.order@.take(k + 1).drop_last(),
                            ));
                            lemma_group_merged_step(
                                self,
                                before,
                                this,
                                built.plugins@,
                                built.order@.take(k + 1),
                            );
                        }
                    }
                },
                None => {
                    proof {
                        if spec_entry_keys_unique(built.plugins@) {
                            assert(spec_lookup(built.plugins@, key) is None);
                            assert(this == before);
                            assert(built.order@.take(k + 1).drop_last() =~= built.order@.take(
                                k as int,
                            ));
                            assert(built.order@.take(k + 1).last() == built.order@[k as int]);
                            assert(built.order@.take(k + 1).len() == k + 1);
                            assert(spec_group_merged(
                                self,
                                before,
                                built.plugins@,
                                built.order@.take(k + 1).drop_last(),
                            ));
                            lemma_group_merged_step(
                                self,
                                before,
                                this,
                                built.plugins@,
                                built.order@.take(k + 1),
                            );
                        }
                    }
                },
            }
            k += 1;
        }
        proof {
            assert(built.order@.take(n as int) =~= built.order@);
        }
        this
    }
}

/// After inserting `key` into a cleaned order, the builder is well-formed
/// again: the insertion is the only occurrence of `key`, and its entry is
/// stored.
proof fn group_insert_order_wf_proof(
    input: PluginGroupBuilder,
    result: PluginGroupBuilder,
    key: u64,
    at: int,
)
    requires
        input.wf(),
        forall|i: int, j: int|
            0 <= i < j < result.plugins@.len() ==> #[trigger] result.plugins@[i].0
                != #[trigger] result.plugins@[j].0,
        spec_has_entry(result.plugins@, key),
        forall|p: int|
            0 <= p < spec_order_without(input.order@, key).len() ==> spec_has_entry(
                result.plugins@,
                #[trigger] spec_order_without(input.order@, key)[p],
            ),
        0 <= at <= spec_order_without(input.order@, key).len(),
        result.order@ == spec_order_without(input.order@, key).insert(at, key),
    ensures
        result.wf(),
{
    let cleaned = spec_order_without(input.order@, key);
    assert(!cleaned.contains(key)) by {
        if cleaned.contains(key) {
            let q = choose|q: int| 0 <= q < cleaned.len() && cleaned[q] == key;
            if input.order@.contains(key) {
                let rm = spec_order_index(input.order@, key);
                assert(input.order@[rm] == key);
                if q < rm {
                    assert(input.order@[q] == key);
                    assert(input.order@[q] != input.order@[rm] || q == rm);
                } else {
                    assert(input.order@[q + 1] == key);
                }
            } else {
                assert(input.order@[q] == key);
            }
        }
    }
    assert forall|p: int, q: int|
        0 <= p < q < result.order@.len() implies result.order@[p] != result.order@[q] by {
        let p0 = if p < at {
            p
        } else {
            p - 1
        };
        let q0 = if q < at {
            q
        } else {
            q - 1
        };
        if p == at {
            assert(result.order@[q] == cleaned[q0]);
            if result.order@[q] == key {
                assert(cleaned.contains(key));
            }
        } else if q == at {
            assert(result.order@[p] == cleaned[p0]);
            if result.order@[p] == key {
                assert(cleaned.contains(key));
            }
        } else {
            assert(result.order@[p] == cleaned[p0]);
            assert(result.order@[q] == cleaned[q0]);
            cleaned_unique_helper(input, key, p0, q0);
        }
    }
    assert forall|p: int|
        0 <= p < result.order@.len() implies spec_has_entry(
        result.plugins@,
        #[trigger] result.order@[p],
    ) by {
        if p == at {
        } else {
            let p0 = if p < at {
                p
            } else {
                p - 1
            };
            assert(result.order@[p] == cleaned[p0]);
        }
    }
}

/// Distinct positions of a cleaned order hold distinct keys.
proof fn cleaned_unique_helper(input: PluginGroupBuilder, key: u64, p0: int, q0: int)
    requires
        input.wf(),
        0 <= p0 < q0 < spec_order_without(input.order@, key).len(),
    ensures
        spec_order_without(input.order@, key)[p0] != spec_order_without(input.order@, key)[q0],
{
    let cleaned = spec_order_without(input.order@, key);
    if input.order@.contains(key) {
        let rm = spec_order_index(input.order@, key);
        let p1 = if p0 < rm {
            p0
        } else {
            p0 + 1
        };
        let q1 = if q0 < rm {
            q0
        } else {
            q0 + 1
        };
        assert(cleaned[p0] == input.order@[p1]);
        assert(cleaned[q0] == input.order@[q1]);
        assert(input.order@[p1] != input.order@[q1]);
    } else {
        assert(input.order@[p0] != input.order@[q0]);
    }
}

/// `post` is `pre` with `key` moved to the end of the build order and
/// `entry` stored under it.
pub open spec fn spec_entry_added(
    pre: PluginGroupBuilder,
    post: PluginGroupBuilder,
    key: u64,
    entry: PluginEntry,
) -> bool {
    &&& post.order@ == spec_order_without(pre.order@, key).push(key)
    &&& spec_has_entry(pre.plugins@, key) ==> post.plugins@ == pre.plugins@.update(
        spec_entry_index(pre.plugins@, key),
        (key, entry),
    )
    &&& !spec_has_entry(pre.plugins@, key) ==> post.plugins@ == pre.plugins@.push((key, entry))
    &&& post.group_name == pre.group_name
}

/// One step of a group merge: the plugin under `key` is moved to the end
/// of the build order with its listed entry, or nothing happens when the
/// list has no entry for it.
pub open spec fn spec_merge_step(
    mid: PluginGroupBuilder,
    post: PluginGroupBuilder,
    plugins: Seq<(u64, PluginEntry)>,
    key: u64,
) -> bool {
    match spec_lookup(plugins, key) {
        Some(e) => spec_entry_added(mid, post, key, e),
        None => post == mid,
    }
}

/// `post` is `pre` with the listed plugins merged in, in `order` order:
/// each is moved to the end of the build order and its entry stored.
pub open spec fn spec_group_merged(
    pre: PluginGroupBuilder,
    post: PluginGroupBuilder,
    plugins: Seq<(u64, PluginEntry)>,
    order: Seq<u64>,
) -> bool
    decreases order.len(),
{
    if order.len() == 0 {
        post == pre
    } else {
        exists|mid: PluginGroupBuilder|
            {
                &&& #[trigger] spec_merge_step(mid, post, plugins, order.last())
                &&& spec_group_merged(pre, mid, plugins, order.drop_last())
            }
    }
}

/// One merge step extends the merged relation by the last key of the
/// order.
proof fn lemma_group_merged_step(
    pre: PluginGroupBuilder,
    mid: PluginGroupBuilder,
    post: PluginGroupBuilder,
    plugins: Seq<(u64, PluginEntry)>,
    order: Seq<u64>,
)
    requires
        order.len() > 0,
        spec_group_merged(pre, mid, plugins, order.drop_last()),
        spec_merge_step(mid, post, plugins, order.last()),
    ensures
        spec_group_merged(pre, post, plugins, order),
{
}

/// One plugin registration on an app: the descriptor is appended to the
/// registry, its name recorded when unique, and its setup work applied.
pub open spec fn spec_descriptor_registered(pre: App, post: App, d: PluginDescriptor) -> bool {
    &&& post.plugin_registry@ == pre.plugin_registry@.push(d)
    &&& d.unique ==> post.plugin_names@ == pre.plugin_names@.push(d.name)
    &&& !d.unique ==> post.plugin_names == pre.plugin_names
    &&& crate::app::spec_build_applied(pre, post, d.action)
    &&& post.plugins_state == pre.plugins_state
    &&& post.main_schedule_label == pre.main_schedule_label
}

/// The descriptors of the enabled plugins among `order`, in order.
pub open spec fn spec_enabled_descriptors(
    plugins: Seq<(u64, PluginEntry)>,
    order: Seq<u64>,
) -> Seq<PluginDescriptor>
    decreases order.len(),
{
    if order.len() == 0 {
        Seq::<PluginDescriptor>::empty()
    } else {
        let rest = spec_enabled_descriptors(plugins, order.drop_last());
        match spec_lookup(plugins, order.last()) {
            Some(e) => if e.enabled {
                rest.push(e.descriptor)
            } else {
                rest
            },
            None => rest,
        }
    }
}

/// `post` is `pre` with the listed descriptors registered one after the
/// other.
pub open spec fn spec_descriptors_registered(
    pre: App,
    post: App,
    ds: Seq<PluginDescriptor>,
) -> bool
    decreases ds.len(),
{
    if ds.len() == 0 {
        post == pre
    } else {
        exists|mid: App|
            {
                &&& #[trigger] spec_descriptor_registered(mid, post, ds.last())
                &&& spec_descriptors_registered(pre, mid, ds.drop_last())
            }
    }
}

/// One registration extends the registered relation by the last
/// descriptor.
proof fn lemma_registered_step(pre: App, mid: App, post: App, ds: Seq<PluginDescriptor>)
    requires
        ds.len() > 0,
        spec_descriptors_registered(pre, mid, ds.drop_last()),
        spec_descriptor_registered(mid, post, ds.last()),
    ensures
        spec_descriptors_registered(pre, post, ds),
{
}

/// The enabled descriptors of an order prefix are a prefix of the enabled
/// descriptors of the whole order.
proof fn lemma_enabled_descriptors_prefix(
    plugins: Seq<(u64, PluginEntry)>,
    order: Seq<u64>,
    k: int,
)
    requires
        0 <= k <= order.len(),
    ensures
        spec_enabled_descriptors(plugins, order.take(k)).len() <= spec_enabled_descriptors(
            plugins,
            order,
        ).len(),
        spec_enabled_descriptors(plugins, order.take(k)) == spec_enabled_descriptors(
            plugins,
            order,
        ).take(spec_enabled_descriptors(plugins, order.take(k)).len() as int),
    decreases order.len() - k,
{
    let ds = spec_enabled_descriptors(plugins, order);
    let dsk = spec_enabled_descriptors(plugins, order.take(k));
    if k == order.len() {
        assert(order.take(k) =~= order);
        assert(dsk =~= ds.take(dsk.len() as int));
    } else {
        lemma_enabled_descriptors_prefix(plugins, order, k + 1);
        let dsk1 = spec_enabled_descriptors(plugins, order.take(k + 1));
        assert(order.take(k + 1).drop_last() =~= order.take(k));
        assert(order.take(k + 1).last() == order[k]);
        assert(dsk1 == ds.take(dsk1.len() as int));
        assert(dsk =~= ds.take(dsk.len() as int));
    }
}

impl PluginGroupBuilder {
    /// Consumes the group and registers its enabled plugins on `app`, in
    /// build order. Registration stops at the first enabled unique plugin
    /// whose name the app already has, reporting it; the plugins before it
    /// stay registered.
    pub fn finish(self, app: &mut App) -> (r: Result<(), AppError>)
        requires
            self.wf(),
            old(app).wf(),
        ensures
            final(app).wf(),
            r is Ok ==> spec_descriptors_registered(
                *old(app),
                *final(app),
                spec_enabled_descriptors(self.plugins@, self.order@),
            ),
            r is Err ==> ({
                let ds = spec_enabled_descriptors(self.plugins@, self.order@);
                exists|m: int|
                    {
                        &&& 0 <= m < ds.len()
                        &&& #[trigger] spec_descriptors_registered(
                            *old(app),
                            *final(app),
                            ds.take(m),
                        )
                        &&& ds[m].unique
                        &&& final(app).spec_has_plugin_name(ds[m].name@)
                        &&& (r matches Err(AppError::DuplicatePlugin { plugin_name })
                            && plugin_name@ == ds[m].name@)
                    }
            }),
    {
        let n = self.order.len();
        let mut k: usize = 0;
        while k < n
            invariant
                self.wf(),
                app.wf(),
                n == self.order@.len(),
                k <= n,
                spec_descriptors_registered(
                    *old(app),
                    *app,
                    spec_enabled_descriptors(self.plugins@, self.order@.take(k as int)),
                ),
            decreases n - k,
        {
            let ghost before_app = *app;
            let ghost dsk = spec_enabled_descriptors(self.plugins@, self.order@.take(k as int));
            let key = self.order[k];
            let position = self.entry_position(key);
            proof {
                assert(self.order@.take(k + 1).drop_last() =~= self.order@.take(k as int));
                assert(self.order@.take(k + 1).last() == self.order@[k as int]);
            }
            match position {
                Some(i) => {
                    proof {
                        let w = spec_entry_index(self.plugins@, key);
                        assert(self.plugins@[i as int].0 == key);
                        assert(spec_has_entry(self.plugins@, key));
                        assert(self.plugins@[w].0 == key);
                        if w < i as int {
                            assert(self.plugins@[w].0 != self.plugins@[i as int].0);
                        }
                        if w > i as int {
                            assert(self.plugins@[i as int].0 != self.plugins@[w].0);
                        }
                        assert(spec_lookup(self.plugins@, key) == Some(self.plugins@[i as int].1));
                    }
                    if self.plugins[i].1.enabled {
                        let descriptor = self.plugins[i].1.descriptor.duplicate();
                        let ghost d = descriptor;
                        let result = app.add_plugin_descriptor(descriptor);
                        match result {
                            Ok(_) => {
                                proof {
                                    assert(spec_enabled_descriptors(
                                        self.plugins@,
                                        self.order@.take(k + 1),
                                    ) == dsk.push(d));
                                    assert(spec_descriptor_registered(before_app, *app, d));
                                    assert(dsk.push(d).drop_last() =~= dsk);
                                    lemma_registered_step(
                                        *old(app),
                                        before_app,
                                        *app,
                                        dsk.push(d),
                                    );
                                }
                            },
                            Err(e) => {
                                proof {
                                    let ds = spec_enabled_descriptors(
                                        self.plugins@,
                                        self.order@,
                                    );
                                    let m = dsk.len() as int;
                                    lemma_enabled_descriptors_prefix(
                                        self.plugins@,
                                        self.order@,
                                        k as int,
                                    );
                                    lemma_enabled_descriptors_prefix(
                                        self.plugins@,
                                        self.order@,
                                        k + 1,
                                    );
                                    assert(spec_enabled_descriptors(
                                        self.plugins@,
                                        self.order@.take(k + 1),
                                    ) == dsk.push(d));
                                    assert(dsk.push(d) == ds.take(m + 1));
                                    assert(ds[m] == dsk.push(d)[m]);
                                    assert(ds[m] == d);
                                    assert(dsk == ds.take(m));
                                    assert(spec_descriptors_registered(
                                        *old(app),
                                        *app,
                                        ds.take(m),
                                    ));
                                }
                                return Err(e);
                            },
                        }
                    } else {
                        proof {
                            assert(spec_enabled_descriptors(
                                self.plugins@,
                                self.order@.take(k + 1),
                            ) == dsk);
                        }
                    }
                },
                None => {
                    proof {
                        assert(spec_lookup(self.plugins@, key) is None);
                        assert(spec_enabled_descriptors(
                            self.plugins@,
                            self.order@.take(k + 1),
                        ) == dsk);
                    }
                },
            }
            k += 1;
        }
        proof {
            assert(self.order@.take(n as int) =~= self.order@);
        }
        Ok(())
    }
}

/// Combines several plugins into one unit that can be added to an app.
pub trait PluginGroup: Sized {
    /// This group type's name. An implementation outside this crate that
    /// leaves the default says nothing about its name.
    open spec fn spec_name() -> Seq<char> {
        arbitrary()
    }

    /// Returns this group type's name.
    fn name() -> (n: String)
        ensures
            n@ == Self::spec_name(),
    ;

    /// Lays out the plugins of this group in a builder.
    fn build(self) -> PluginGroupBuilder;
}

impl PluginGroup for PluginGroupBuilder {
    open spec fn spec_name() -> Seq<char> {
        "PluginGroupBuilder"@
    }

    fn name() -> (n: String) {
        "PluginGroupBuilder".to_string()
    }

    fn build(self) -> PluginGroupBuilder {
        self
    }
}

/// A plugin group with nothing in it, a starting point for building one by
/// hand.
#[derive(Debug, Clone, Copy, PartialEq, Eq, Structural)]
pub struct NoopPluginGroup;

impl PluginGroup for NoopPluginGroup {
    open spec fn spec_name() -> Seq<char> {
        "NoopPluginGroup"@
    }

    fn name() -> (n: String) {
        "NoopPluginGroup".to_string()
    }

    fn build(self) -> (b: PluginGroupBuilder)
        ensures
            b.wf(),
            b.group_name@ == Self::spec_name(),
            b.plugins@ == Seq::<(u64, PluginEntry)>::empty(),
            b.order@ == Seq::<u64>::empty(),
    {
        PluginGroupBuilder {
            group_name: "NoopPluginGroup".to_string(),
            plugins: Vec::new(),
            order: Vec::new(),
        }
    }
}

} // verus!
