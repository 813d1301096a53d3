//! The plugin and system resolvers.
//!
//! `load_plugin` turns one descriptor path into a validated `Plugin`;
//! `load_system` folds a root descriptor's path list, in declared order,
//! into a `System` registry. Resolution is all-or-nothing: the first
//! failure is returned and no partial `System` is produced.

use vstd::prelude::*;

use crate::parse::{parse_plugin, parse_system, spec_paths_of, spec_plugin_of, ParseError};
use crate::store::DocStore;
use crate::toml_doc::toml_doc_rep;
use crate::{plugin_v_valid, Plugin, PluginV};

verus! {

/// Why a semantically unacceptable descriptor was rejected.
#[derive(Debug)]
pub enum ValidationReason {
    /// `plugin_type` is the empty string.
    EmptyPluginType,
    /// `name` is the empty string.
    EmptyName,
    /// Another plugin of the same system already carries this name.
    DuplicateName { name: String },
}

/// The view of a `ValidationReason`.
pub enum ReasonV {
    EmptyPluginType,
    EmptyName,
    DuplicateName { name: Seq<char> },
}

impl View for ValidationReason {
    type V = ReasonV;

    open spec fn view(&self) -> ReasonV {
        match self {
            ValidationReason::EmptyPluginType => ReasonV::EmptyPluginType,
            ValidationReason::EmptyName => ReasonV::EmptyName,
            ValidationReason::DuplicateName { name } => ReasonV::DuplicateName { name: name@ },
        }
    }
}

/// Why resolution failed. Every variant carries the offending file path.
#[derive(Debug)]
pub enum ConfigError {
    /// The document at `path` could not be read.
    Io { path: String },
    /// The document at `path` could not be parsed.
    Parse { path: String, error: ParseError },
    /// The document at `path` is schema-valid but semantically unacceptable.
    Validation { path: String, reason: ValidationReason },
}

/// The view of a `ConfigError`.
pub enum ErrV {
    Io { path: Seq<char> },
    Parse { path: Seq<char>, error: ParseError },
    Validation { path: Seq<char>, reason: ReasonV },
}

impl View for ConfigError {
    type V = ErrV;

    open spec fn view(&self) -> ErrV {
        match self {
            ConfigError::Io { path } => ErrV::Io { path: path@ },
            ConfigError::Parse { path, error } => ErrV::Parse { path: path@, error: *error },
            ConfigError::Validation { path, reason } => ErrV::Validation {
                path: path@,
                reason: reason@,
            },
        }
    }
}

/// What resolving one plugin descriptor yields, given the document found at
/// `path` (`None` when the document could not be read).
pub open spec fn spec_load_plugin(doc: Option<Seq<char>>, path: Seq<char>) -> Result<
    PluginV,
    ErrV,
> {
    match doc {
        None => Err(ErrV::Io { path }),
        Some(text) => match toml_doc_rep(text) {
            None => Err(ErrV::Parse { path, error: ParseError::Syntax }),
            Some(rep) => match spec_plugin_of(rep.0) {
                None => Err(ErrV::Parse { path, error: ParseError::Schema }),
                Some(p) => if p.plugin_type.len() == 0 {
                    Err(ErrV::Validation { path, reason: ReasonV::EmptyPluginType })
                } else if p.name.len() == 0 {
                    Err(ErrV::Validation { path, reason: ReasonV::EmptyName })
                } else {
                    Ok(p)
                },
            },
        },
    }
}

/// Resolves the plugin descriptor stored under `path` into a validated
/// `Plugin`.
pub fn load_plugin(store: &DocStore, path: &str) -> (r: Result<Plugin, ConfigError>)
    ensures
        match r {
            Ok(p) => spec_load_plugin(store.spec_read(path@), path@) == Ok::<PluginV, ErrV>(p@)
                && p.valid(),
            Err(e) => spec_load_plugin(store.spec_read(path@), path@) == Err::<PluginV, ErrV>(e@),
        },
{
    let text = match store.read(path) {
        Some(t) => t,
        None => {
            return Err(ConfigError::Io { path: path.to_owned() });
        },
    };
    let plugin = match parse_plugin(text.as_str()) {
        Ok(p) => p,
        Err(error) => {
            return Err(ConfigError::Parse { path: path.to_owned(), error });
        },
    };
    if plugin.plugin_type.as_str().is_empty() {
        return Err(
            ConfigError::Validation {
                path: path.to_owned(),
                reason: ValidationReason::EmptyPluginType,
            },
        );
    }
    if plugin.name.as_str().is_empty() {
        return Err(
            ConfigError::Validation { path: path.to_owned(), reason: ValidationReason::EmptyName },
        );
    }
    Ok(plugin)
}

/// Whether some plugin among `plugins` already carries `name`.
pub open spec fn spec_has_name(plugins: Seq<PluginV>, name: Seq<char>) -> bool {
    exists|i: int| 0 <= i < plugins.len() && plugins[i].name == name
}

/// Whether the names of `plugins` are pairwise distinct.
pub open spec fn spec_names_unique(plugins: Seq<PluginV>) -> bool {
    forall|i: int, j: int|
        0 <= i < j < plugins.len() ==> plugins[i].name != plugins[j].name
}

/// What appending the plugin resolved from `doc` at `path` to an already
/// resolved sequence yields: the extended sequence, or the first error.
pub open spec fn spec_add_plugin(
    plugins: Seq<PluginV>,
    doc: Option<Seq<char>>,
    path: Seq<char>,
) -> Result<Seq<PluginV>, ErrV> {
    match spec_load_plugin(doc, path) {
        Err(e) => Err(e),
        Ok(p) => if spec_has_name(plugins, p.name) {
            Err(ErrV::Validation { path, reason: ReasonV::DuplicateName { name: p.name } })
        } else {
            Ok(plugins.push(p))
        },
    }
}

/// The ordered registry of all plugins a root descriptor declares.
#[derive(Debug)]
pub struct System {
    plugins: Vec<Plugin>,
}

impl View for System {
    type V = Seq<PluginV>;

    closed spec fn view(&self) -> Seq<PluginV> {
        self.plugins@.map_values(|p: Plugin| p@)
    }
}

impl System {
    /// Every registered plugin is validated and names are pairwise
    /// distinct.
    pub open spec fn wf(&self) -> bool {
        (forall|i: int| 0 <= i < self@.len() ==> plugin_v_valid(self@[i])) && spec_names_unique(
            self@,
        )
    }

    /// A system with no plugins yet.
    pub fn new() -> (s: System)
        ensures
            s@ =~= Seq::<PluginV>::empty(),
            s.wf(),
    {
        System { plugins: Vec::new() }
    }

    /// How many plugins the system holds.
    pub fn len(&self) -> (n: usize)
        ensures
            n == self@.len(),
    {
        self.plugins.len()
    }

    /// The plugin at position `i`, in declared order.
    pub fn get(&self, i: usize) -> (p: &Plugin)
        requires
            i < self@.len(),
        ensures
            p@ == self@[i as int],
    {
        &self.plugins[i]
    }

    /// Whether some registered plugin already carries `name`.
    pub fn contains_name(&self, name: &str) -> (r: bool)
        ensures
            r == spec_has_name(self@, name@),
    {
        let key: String = name.to_owned();
        let n = self.plugins.len();
        let mut i: usize = 0;
        while i < n
            invariant
                i <= n,
                n == self.plugins.len(),
                key@ == name@,
                forall|j: int| 0 <= j < i ==> self@[j].name != name@,
            decreases n - i,
        {
            if self.plugins[i].name == key {
                proof {
                    assert(self@[i as int] == self.plugins@[i as int]@);
                    assert(spec_has_name(self@, name@));
                }
                return true;
            }
            i = i + 1;
        }
        false
    }

    /// Resolves the plugin descriptor stored under `path` and appends it to
    /// the registry, rejecting a duplicate name. On failure the system is
    /// unchanged.
    pub fn add_plugin(&mut self, store: &DocStore, path: &str) -> (r: Result<(), ConfigError>)
        ensures
            match r {
                Ok(_) => spec_add_plugin(old(self)@, store.spec_read(path@), path@) == Ok::<
                    Seq<PluginV>,
                    ErrV,
                >(final(self)@),
                Err(e) => final(self)@ == old(self)@ && spec_add_plugin(
                    old(self)@,
                    store.spec_read(path@),
                    path@,
                ) == Err::<Seq<PluginV>, ErrV>(e@),
            },
            old(self).wf() ==> final(self).wf(),
    {
        let plugin = match load_plugin(store, path) {
            Ok(p) => p,
            Err(e) => {
                return Err(e);
            },
        };
        if self.contains_name(plugin.name.as_str()) {
            return Err(
                ConfigError::Validation {
                    path: path.to_owned(),
                    reason: ValidationReason::DuplicateName { name: plugin.name },
                },
            );
        }
        let ghost added = plugin@;
        self.plugins.push(plugin);
        proof {
            assert(self@ =~= old(self)@.push(added));
            if old(self).wf() {
                assert forall|i: int, j: int|
                    0 <= i < j < self@.len() implies self@[i].name != self@[j].name by {
                    if j == self@.len() - 1 {
                        assert(!(old(self)@[i].name == added.name));
                    }
                }
            }
        }
        Ok(())
    }
}

/// What resolving the first `n` of `paths` against `store` yields: the
/// plugins in declared order, or the first error.
pub open spec fn spec_load_all(store: DocStore, paths: Seq<Seq<char>>, n: int) -> Result<
    Seq<PluginV>,
    ErrV,
>
    decreases n,
{
    if n <= 0 {
        Ok(Seq::empty())
    } else {
        match spec_load_all(store, paths, n - 1) {
            Err(e) => Err(e),
            Ok(ps) => spec_add_plugin(ps, store.spec_read(paths[n - 1]), paths[n - 1]),
        }
    }
}

/// What resolving a root descriptor stored under `path` yields.
pub open spec fn spec_load_system(store: DocStore, path: Seq<char>) -> Result<Seq<PluginV>, ErrV> {
    match store.spec_read(path) {
        None => Err(ErrV::Io { path }),
        Some(text) => match toml_doc_rep(text) {
            None => Err(ErrV::Parse { path, error: ParseError::Syntax }),
            Some(rep) => match spec_paths_of(rep.1) {
                None => Err(ErrV::Parse { path, error: ParseError::Schema }),
                Some(paths) => spec_load_all(store, paths, paths.len() as int),
            },
        },
    }
}

/// The plugin descriptor paths a root descriptor stored under `root`
/// declares, when it can be read and parsed against the system shape.
pub open spec fn spec_root_paths(store: DocStore, root: Seq<char>) -> Option<Seq<Seq<char>>> {
    match store.spec_read(root) {
        None => None,
        Some(text) => match toml_doc_rep(text) {
            None => None,
            Some(rep) => spec_paths_of(rep.1),
        },
    }
}

/// Once resolution of a prefix has failed, resolving any longer prefix
/// fails with the same error.
pub proof fn lemma_load_all_err_persists(store: DocStore, paths: Seq<Seq<char>>, m: int, n: int)
    requires
        0 <= m <= n,
        spec_load_all(store, paths, m) is Err,
    ensures
        spec_load_all(store, paths, n) == spec_load_all(store, paths, m),
    decreases n - m,
{
    if m < n {
        lemma_load_all_err_persists(store, paths, m, n - 1);
    }
}

/// Resolves the root descriptor stored under `path` into a `System`,
/// resolving every referenced plugin descriptor in declared order.
pub fn load_system(store: &DocStore, path: &str) -> (r: Result<System, ConfigError>)
    ensures
        match r {
            Ok(s) => spec_load_system(*store, path@) == Ok::<Seq<PluginV>, ErrV>(s@) && s.wf(),
            Err(e) => spec_load_system(*store, path@) == Err::<Seq<PluginV>, ErrV>(e@),
        },
{
    let text = match store.read(path) {
        Some(t) => t,
        None => {
            return Err(ConfigError::Io { path: path.to_owned() });
        },
    };
    let config = match parse_system(text.as_str()) {
        Ok(c) => c,
        Err(error) => {
            return Err(ConfigError::Parse { path: path.to_owned(), error });
        },
    };
    let mut system = System::new();
    let n = config.plugins.len();
    let mut i: usize = 0;
    while i < n
        invariant
            i <= n,
            n == config.plugins.len(),
            spec_load_all(*store, config@, i as int) == Ok::<Seq<PluginV>, ErrV>(system@),
            system.wf(),
            spec_load_system(*store, path@) == spec_load_all(
                *store,
                config@,
                config@.len() as int,
            ),
        decreases n - i,
    {
        proof {
            assert(config@[i as int] == config.plugins@[i as int]@);
        }
        match system.add_plugin(store, config.plugins[i].as_str()) {
            Ok(_) => {},
            Err(e) => {
                proof {
                    lemma_load_all_err_persists(*store, config@, i as int + 1, n as int);
                }
                return Err(e);
            },
        }
        i = i + 1;
    }
    Ok(system)
}

} // verus!
