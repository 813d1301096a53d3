//! A configuration-driven plugin registry for a small automation platform.
//!
//! A root descriptor names an ordered list of plugin descriptor files; each
//! plugin descriptor binds a named device driver to a schedule file. This
//! crate resolves a root descriptor into an immutable, queryable `System`
//! registry, validating every plugin on the way and failing closed on the
//! first defect.

use vstd::prelude::*;

pub mod laws;
pub mod parse;
pub mod registry;
pub mod report;
pub mod store;
pub mod toml_doc;

pub use parse::{parse_plugin, parse_system, ParseError, SystemConfig};
pub use registry::{load_plugin, load_system, ConfigError, System, ValidationReason};
pub use report::{describe, PluginSummary};
pub use store::DocStore;

verus! {

/// A plugin descriptor: one controllable device driver binding.
#[derive(Debug)]
pub struct Plugin {
    pub plugin_type: String,
    pub name: String,
    pub schedule_file: String,
}

/// The mathematical view of a plugin: its three fields as character
/// sequences.
pub struct PluginV {
    pub plugin_type: Seq<char>,
    pub name: Seq<char>,
    pub schedule_file: Seq<char>,
}

impl View for Plugin {
    type V = PluginV;

    open spec fn view(&self) -> PluginV {
        PluginV {
            plugin_type: self.plugin_type@,
            name: self.name@,
            schedule_file: self.schedule_file@,
        }
    }
}

/// A usable plugin identity needs a non-empty name and driver type.
pub open spec fn plugin_v_valid(p: PluginV) -> bool {
    p.plugin_type.len() > 0 && p.name.len() > 0
}

impl Plugin {
    /// A usable plugin identity needs a non-empty name and driver type.
    pub open spec fn valid(&self) -> bool {
        plugin_v_valid(self@)
    }
}

} // verus!
