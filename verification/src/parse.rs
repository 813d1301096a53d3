//! The descriptor parser.
//!
//! Turns descriptor text into the two typed shapes this crate knows: the
//! plugin shape (three required string fields) and the system shape (one
//! required array of path strings). Unknown extra keys are tolerated.

use vstd::prelude::*;

use crate::toml_doc::{parse_table, table_get_string, table_get_string_array, toml_doc_rep};
use crate::{Plugin, PluginV};

verus! {

/// Why a descriptor text was rejected.
#[derive(Clone, Copy, Debug)]
pub enum ParseError {
    /// The text is not a well-formed structured document.
    Syntax,
    /// The document is well-formed, but a required field is missing or has
    /// the wrong primitive type.
    Schema,
}

/// The plugin shape read from a parsed document's string entries: present
/// exactly when all three required fields are strings of the document.
pub open spec fn spec_plugin_of(strings: Map<Seq<char>, Seq<char>>) -> Option<PluginV> {
    if strings.contains_key("plugin_type"@) && strings.contains_key("name"@)
        && strings.contains_key("schedule_file"@) {
        Some(
            PluginV {
                plugin_type: strings["plugin_type"@],
                name: strings["name"@],
                schedule_file: strings["schedule_file"@],
            },
        )
    } else {
        None
    }
}

/// The system shape read from a parsed document's string-array entries:
/// present exactly when the document has an array of strings under
/// `plugins`.
pub open spec fn spec_paths_of(arrays: Map<Seq<char>, Seq<Seq<char>>>) -> Option<Seq<Seq<char>>> {
    if arrays.contains_key("plugins"@) {
        Some(arrays["plugins"@])
    } else {
        None
    }
}

/// Parses descriptor text against the plugin shape.
pub fn parse_plugin(text: &str) -> (r: Result<Plugin, ParseError>)
    ensures
        match r {
            Ok(p) => toml_doc_rep(text@) matches Some(rep) && spec_plugin_of(rep.0) == Some(p@),
            Err(e) => match e {
                ParseError::Syntax => toml_doc_rep(text@) is None,
                ParseError::Schema => toml_doc_rep(text@) matches Some(rep) && spec_plugin_of(
                    rep.0,
                ) is None,
            },
        },
{
    let table = match parse_table(text) {
        Some(t) => t,
        None => {
            return Err(ParseError::Syntax);
        },
    };
    let plugin_type = match table_get_string(&table, "plugin_type") {
        Some(s) => s,
        None => {
            return Err(ParseError::Schema);
        },
    };
    let name = match table_get_string(&table, "name") {
        Some(s) => s,
        None => {
            return Err(ParseError::Schema);
        },
    };
    let schedule_file = match table_get_string(&table, "schedule_file") {
        Some(s) => s,
        None => {
            return Err(ParseError::Schema);
        },
    };
    Ok(Plugin { plugin_type, name, schedule_file })
}

/// The transient result of parsing a root descriptor: the ordered plugin
/// descriptor paths, consumed to build a `System` and then discarded.
pub struct SystemConfig {
    pub plugins: Vec<String>,
}

impl View for SystemConfig {
    type V = Seq<Seq<char>>;

    open spec fn view(&self) -> Seq<Seq<char>> {
        self.plugins@.map_values(|s: String| s@)
    }
}

/// Parses descriptor text against the system shape.
pub fn parse_system(text: &str) -> (r: Result<SystemConfig, ParseError>)
    ensures
        match r {
            Ok(c) => toml_doc_rep(text@) matches Some(rep) && spec_paths_of(rep.1) == Some(c@),
            Err(e) => match e {
                ParseError::Syntax => toml_doc_rep(text@) is None,
                ParseError::Schema => toml_doc_rep(text@) matches Some(rep) && spec_paths_of(
                    rep.1,
                ) is None,
            },
        },
{
    let table = match parse_table(text) {
        Some(t) => t,
        None => {
            return Err(ParseError::Syntax);
        },
    };
    match table_get_string_array(&table, "plugins") {
        Some(paths) => Ok(SystemConfig { plugins: paths }),
        None => Err(ParseError::Schema),
    }
}

} // verus!
