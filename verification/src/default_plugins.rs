//! The plugin groups a typical app starts from.

use vstd::prelude::*;

use crate::hierarchy::HierarchyPlugin;
use crate::plugin::Plugin;
use crate::plugin_group::PluginGroup;
use crate::plugin_group::PluginGroupBuilder;
use crate::schedule_runner::ScheduleRunnerPlugin;
use crate::task_pool_plugin::TaskPoolPlugin;
use crate::time::TimePlugin;

verus! {

/// The plugins of a full application: task pools, time keeping, and the
/// entity hierarchy. The update cycle is expected to be driven from
/// outside, so the group carries no schedule runner.
#[derive(Debug, Clone, Copy, PartialEq, Eq, Structural)]
pub struct DefaultPlugins;

impl PluginGroup for DefaultPlugins {
    open spec fn spec_name() -> Seq<char> {
        "DefaultPlugins"@
    }

    fn name() -> (n: String) {
        "DefaultPlugins".to_string()
    }

    fn build(self) -> (b: PluginGroupBuilder)
        ensures
            b.wf(),
            b.group_name@ == Self::spec_name(),
            b.order@ == seq![
                TaskPoolPlugin::spec_key(),
                TimePlugin::spec_key(),
                HierarchyPlugin::spec_key(),
            ],
    {
        let group = PluginGroupBuilder {
            group_name: "DefaultPlugins".to_string(),
            plugins: Vec::new(),
            order: Vec::new(),
        };
        let b = group.add(TaskPoolPlugin::default()).add(TimePlugin).add(HierarchyPlugin);
        proof {
            assert(b.order@ =~= seq![
                TaskPoolPlugin::spec_key(),
                TimePlugin::spec_key(),
                HierarchyPlugin::spec_key(),
            ]);
        }
        b
    }
}

/// The plugins of a minimal headless application: task pools, time
/// keeping, and a schedule runner to drive the update cycle.
#[derive(Debug, Clone, Copy, PartialEq, Eq, Structural)]
pub struct MinimalPlugins;

impl PluginGroup for MinimalPlugins {
    open spec fn spec_name() -> Seq<char> {
        "MinimalPlugins"@
    }

    fn name() -> (n: String) {
        "MinimalPlugins".to_string()
    }

    fn build(self) -> (b: PluginGroupBuilder)
        ensures
            b.wf(),
            b.group_name@ == Self::spec_name(),
            b.order@ == seq![
                TaskPoolPlugin::spec_key(),
                TimePlugin::spec_key(),
                ScheduleRunnerPlugin::spec_key(),
            ],
    {
        let group = PluginGroupBuilder {
            group_name: "MinimalPlugins".to_string(),
            plugins: Vec::new(),
            order: Vec::new(),
        };
        let b = group.add(TaskPoolPlugin::default()).add(TimePlugin).add(
            ScheduleRunnerPlugin::default(),
        );
        proof {
            assert(b.order@ =~= seq![
                TaskPoolPlugin::spec_key(),
                TimePlugin::spec_key(),
                ScheduleRunnerPlugin::spec_key(),
            ]);
        }
        b
    }
}

} // verus!
