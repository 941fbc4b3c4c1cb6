//! Events that do not answer what was asked.

use vstd::prelude::*;

use crate::context::LibZfs;
use crate::dataset::Dataset;
use crate::kinds::DatasetTypeMask;
use crate::native::{Answer, Event, RunView};
use crate::pool::ZPool;
use crate::string::SafeString;

verus! {

/// Whether an answer, if it is that the event was stray, leaves the state as it was.
pub open spec fn keeps<V>(answer: Answer<V>, run: RunView) -> bool {
    answer matches Answer::Stray(left) ==> left == run
}

/// An event that does not answer what an operation of the context asked changes nothing:
/// the operation stays in the state in which the event met it.
pub proof fn stray_event_changes_no_context_operation(
    libzfs: LibZfs,
    name: SafeString,
    types: DatasetTypeMask,
    names: Seq<SafeString>,
    run: RunView,
    event: Event,
)
    ensures
        keeps(LibZfs::spec_new(run, event), run),
        keeps(libzfs.spec_get_last_error(run, event), run),
        keeps(libzfs.spec_pool_by_name(name, run, event), run),
        keeps(libzfs.spec_dataset_by_name(name, types, run, event), run),
        keeps(libzfs.spec_build_nvlist(names, run, event), run),
        keeps(libzfs.spec_create_snapshots(names, run, event), run),
        keeps(libzfs.spec_destroy_snapshots(names, run, event), run),
        keeps(libzfs.spec_get_zpools(run, event), run),
{
}

/// An event that does not answer what an operation of a pool asked changes nothing.
pub proof fn stray_event_changes_no_pool_operation(pool: ZPool, run: RunView, event: Event)
    ensures
        keeps(pool.spec_get_state(run, event), run),
        keeps(pool.spec_get_name(run, event), run),
        keeps(pool.spec_get_datasets(run, event), run),
{
}

/// An event that does not answer what an operation of a dataset asked changes nothing.
pub proof fn stray_event_changes_no_dataset_operation(
    dataset: Dataset,
    run: RunView,
    event: Event,
)
    ensures
        keeps(dataset.spec_get_type(run, event), run),
        keeps(dataset.spec_get_name(run, event), run),
        keeps(dataset.spec_get_pool(run, event), run),
        keeps(dataset.spec_get_pool_name(run, event), run),
        keeps(dataset.spec_get_snapshots(run, event), run),
        keeps(dataset.spec_get_snapshots_ordered(run, event), run),
        keeps(dataset.spec_foreach_snapshot(run, event), run),
        keeps(dataset.spec_foreach_snapshot_ordered(run, event), run),
        keeps(dataset.spec_get_child_filesystems(run, event), run),
        keeps(dataset.spec_get_all_dependents(run, event), run),
        keeps(dataset.spec_duplicate(run, event), run),
{
}

} // verus!
