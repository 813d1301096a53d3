//! The registry reporter: read-only inspection of an assembled `System`.

use vstd::prelude::*;

use crate::registry::System;
use crate::PluginV;

verus! {

/// What the reporter emits for one plugin: its three fields, in declared
/// order of the plugins.
pub struct PluginSummary {
    pub name: String,
    pub plugin_type: String,
    pub schedule_file: String,
}

/// The mathematical view of a summary.
pub struct SummaryV {
    pub name: Seq<char>,
    pub plugin_type: Seq<char>,
    pub schedule_file: Seq<char>,
}

impl View for PluginSummary {
    type V = SummaryV;

    open spec fn view(&self) -> SummaryV {
        SummaryV {
            name: self.name@,
            plugin_type: self.plugin_type@,
            schedule_file: self.schedule_file@,
        }
    }
}

/// The summary a plugin is reported as.
pub open spec fn spec_summary(p: PluginV) -> SummaryV {
    SummaryV { name: p.name, plugin_type: p.plugin_type, schedule_file: p.schedule_file }
}

/// What describing a plugin sequence emits: one summary per plugin, in the
/// same order.
pub open spec fn spec_describe(plugins: Seq<PluginV>) -> Seq<SummaryV> {
    plugins.map_values(|p: PluginV| spec_summary(p))
}

/// Emits one summary per plugin, in declared order. Pure and total: a
/// well-formed system cannot fail to be described.
pub fn describe(system: &System) -> (r: Vec<PluginSummary>)
    ensures
        r@.map_values(|s: PluginSummary| s@) =~= spec_describe(system@),
{
    let n = system.len();
    let mut out: Vec<PluginSummary> = Vec::new();
    let mut i: usize = 0;
    while i < n
        invariant
            i <= n,
            n == system@.len(),
            out@.len() == i,
            forall|j: int| 0 <= j < i ==> out@[j]@ == spec_summary(system@[j]),
        decreases n - i,
    {
        let p = system.get(i);
        out.push(
            PluginSummary {
                name: p.name.clone(),
                plugin_type: p.plugin_type.clone(),
                schedule_file: p.schedule_file.clone(),
            },
        );
        i = i + 1;
    }
    out
}

} // verus!
