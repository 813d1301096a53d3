//! The library's general laws, stated over the resolution model and proved
//! once for all inputs.

use vstd::prelude::*;

use crate::registry::{
    lemma_load_all_err_persists, spec_load_all, spec_load_plugin, spec_load_system,
    spec_root_paths, ErrV, System,
};
use crate::report::spec_describe;
use crate::store::DocStore;
use crate::PluginV;

verus! {

/// Round-trip: describing a system yields, per plugin and in the same
/// order, exactly the plugin's own name, type and schedule file.
pub proof fn lemma_report_round_trip(system: System)
    ensures
        spec_describe(system@).len() == system@.len(),
        forall|i: int|
            0 <= i < system@.len() ==> spec_describe(system@)[i].name == (
            #[trigger] system@[i]).name,
        forall|i: int|
            0 <= i < system@.len() ==> spec_describe(system@)[i].plugin_type == (
            #[trigger] system@[i]).plugin_type,
        forall|i: int|
            0 <= i < system@.len() ==> spec_describe(system@)[i].schedule_file == (
            #[trigger] system@[i]).schedule_file,
{
}

/// Order preservation: a fully resolved path list yields one plugin per
/// declared path, in declared order, each the resolution of its own path.
pub proof fn lemma_order_preserved(store: DocStore, paths: Seq<Seq<char>>, plugins: Seq<PluginV>)
    requires
        spec_load_all(store, paths, paths.len() as int) == Ok::<Seq<PluginV>, ErrV>(plugins),
    ensures
        plugins.len() == paths.len(),
        forall|k: int|
            0 <= k < paths.len() ==> spec_load_plugin(store.spec_read(paths[k]), paths[k]) == Ok::<
                PluginV,
                ErrV,
            >(plugins[k]),
{
    lemma_prefix_resolved(store, paths, paths.len() as int, plugins);
}

proof fn lemma_prefix_resolved(store: DocStore, paths: Seq<Seq<char>>, n: int, plugins: Seq<PluginV>)
    requires
        0 <= n <= paths.len(),
        spec_load_all(store, paths, n) == Ok::<Seq<PluginV>, ErrV>(plugins),
    ensures
        plugins.len() == n,
        forall|k: int|
            0 <= k < n ==> spec_load_plugin(store.spec_read(paths[k]), paths[k]) == Ok::<
                PluginV,
                ErrV,
            >(plugins[k]),
    decreases n,
{
    if n > 0 {
        let prev = spec_load_all(store, paths, n - 1);
        assert(prev is Ok);
        let ps = prev->Ok_0;
        lemma_prefix_resolved(store, paths, n - 1, ps);
        assert(spec_load_plugin(store.spec_read(paths[n - 1]), paths[n - 1]) is Ok);
        assert(plugins == ps.push(
            spec_load_plugin(store.spec_read(paths[n - 1]), paths[n - 1])->Ok_0,
        ));
    }
}

/// Fail-closed: when every path before position `k` resolves and the path
/// at `k` does not, resolving the whole list yields an error, never a
/// registry of the first `k` plugins.
pub proof fn lemma_fail_closed(store: DocStore, paths: Seq<Seq<char>>, k: int)
    requires
        0 <= k < paths.len(),
        forall|j: int|
            0 <= j < k ==> spec_load_plugin(store.spec_read(paths[j]), paths[j]) is Ok,
        spec_load_plugin(store.spec_read(paths[k]), paths[k]) is Err,
    ensures
        spec_load_all(store, paths, paths.len() as int) is Err,
{
    if spec_load_all(store, paths, k) is Err {
        lemma_load_all_err_persists(store, paths, k, paths.len() as int);
    } else {
        assert(spec_load_all(store, paths, k + 1) is Err);
        lemma_load_all_err_persists(store, paths, k + 1, paths.len() as int);
    }
}

/// Empty system: a root descriptor that declares no plugin paths resolves
/// to a registry with zero plugins, and no error.
pub proof fn lemma_empty_system(store: DocStore, paths: Seq<Seq<char>>)
    requires
        paths.len() == 0,
    ensures
        spec_load_all(store, paths, paths.len() as int) == Ok::<Seq<PluginV>, ErrV>(
            Seq::<PluginV>::empty(),
        ),
{
}

/// Order preservation, read off a resolved root descriptor: the registry
/// holds one plugin per path the root declares, in declared order, each the
/// resolution of its own path.
pub proof fn lemma_system_order_preserved(store: DocStore, root: Seq<char>, plugins: Seq<PluginV>)
    requires
        spec_load_system(store, root) == Ok::<Seq<PluginV>, ErrV>(plugins),
    ensures
        spec_root_paths(store, root) matches Some(paths) && plugins.len() == paths.len()
            && (forall|k: int|
            0 <= k < paths.len() ==> spec_load_plugin(store.spec_read(paths[k]), paths[k]) == Ok::<
                PluginV,
                ErrV,
            >(plugins[k])),
{
    let paths = spec_root_paths(store, root)->Some_0;
    lemma_order_preserved(store, paths, plugins);
}

/// Fail-closed, read off a root descriptor: when some declared path fails
/// to resolve although every path before it resolves, the whole system
/// fails to resolve.
pub proof fn lemma_system_fail_closed(store: DocStore, root: Seq<char>, paths: Seq<Seq<char>>, k: int)
    requires
        spec_root_paths(store, root) == Some(paths),
        0 <= k < paths.len(),
        forall|j: int|
            0 <= j < k ==> spec_load_plugin(store.spec_read(paths[j]), paths[j]) is Ok,
        spec_load_plugin(store.spec_read(paths[k]), paths[k]) is Err,
    ensures
        spec_load_system(store, root) is Err,
{
    lemma_fail_closed(store, paths, k);
}

/// Empty system, read off a root descriptor: one that declares no plugin
/// paths resolves to a registry with zero plugins, and no error.
pub proof fn lemma_system_empty(store: DocStore, root: Seq<char>)
    requires
        spec_root_paths(store, root) == Some(Seq::<Seq<char>>::empty()),
    ensures
        spec_load_system(store, root) == Ok::<Seq<PluginV>, ErrV>(Seq::<PluginV>::empty()),
{
}

} // verus!
