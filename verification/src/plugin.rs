//! Plugins: named units of app configuration.

use vstd::prelude::*;

use crate::schedule_runner::RunMode;

verus! {

/// What building a plugin sets up on an [`App`](crate::app::App). The setup
/// work of each of the library's plugins is listed here; applying an action
/// is the app's job, so one audited dispatcher covers every plugin.
#[derive(Debug, Clone, Copy, PartialEq, Eq, Structural)]
pub enum BuildAction {
    /// Registers the plugin and sets up nothing further.
    Nothing,
    /// The main schedule, its order resource, and the main-runner system.
    MainSchedule,
    /// Task-pool upkeep systems in the three update phases. The pools
    /// themselves live with the host.
    TaskPools,
    /// The frame counter resource and the system that advances it.
    FrameCount,
    /// The clock and strategy resources and the system that advances them.
    Time,
    /// Hands the app a runner with the given run mode.
    ScheduleRunner(RunMode),
}

/// A plugin as the registry stores it: its type key, its name, whether a
/// second plugin of the same name may be added, and its setup work.
#[derive(Debug, Clone, PartialEq, Eq)]
pub struct PluginDescriptor {
    /// A key standing for the plugin's type; two plugin types must not
    /// share a key.
    pub key: u64,
    /// The plugin's name; duplicate detection goes by it.
    pub name: String,
    /// Whether at most one plugin of this name may be added to an app.
    pub unique: bool,
    /// The setup work that adding the plugin performs.
    pub action: BuildAction,
}

impl PluginDescriptor {
    /// An owned copy of this descriptor, equal to it.
    pub fn duplicate(&self) -> (r: PluginDescriptor)
        ensures
            r == *self,
    {
        PluginDescriptor {
            key: self.key,
            name: self.name.clone(),
            unique: self.unique,
            action: self.action,
        }
    }
}

/// A unit of app configuration: adding it to an app registers it and
/// performs its setup work.
pub trait Plugin {
    /// The key standing for this plugin type. An implementation outside
    /// this crate that leaves the default says nothing about its key.
    open spec fn spec_key() -> u64 {
        arbitrary()
    }

    /// This plugin type's name.
    open spec fn spec_name() -> Seq<char> {
        arbitrary()
    }

    /// Whether at most one plugin of this name may be added to an app.
    open spec fn spec_is_unique() -> bool {
        arbitrary()
    }

    /// The setup work this plugin performs, which may depend on its
    /// configuration.
    open spec fn spec_build_action(&self) -> BuildAction {
        arbitrary()
    }

    /// Returns the key standing for this plugin type.
    fn key() -> (k: u64)
        ensures
            k == Self::spec_key(),
    ;

    /// Returns this plugin's name.
    fn name(&self) -> (n: String)
        ensures
            n@ == Self::spec_name(),
    ;

    /// Returns whether at most one plugin of this name may be added.
    fn is_unique(&self) -> (u: bool)
        ensures
            u == Self::spec_is_unique(),
    ;

    /// Returns the setup work this plugin performs.
    fn build_action(&self) -> (a: BuildAction)
        ensures
            a == self.spec_build_action(),
    ;
}

} // verus!
