//! What holds of the index of every disk.

use vstd::prelude::*;
use crate::disk::{
    answer,
    indexed,
    lemma_scan_comes_to_indexed,
    probed,
    pruned,
    scan_on,
    shelved,
    with_file,
    with_files,
    with_root_entry,
    with_roots,
    DiskModel,
};
use crate::index::{CollectionModel, RomModel, StateModel};
use crate::scan::{
    scan_request,
    scan_step,
    wanted,
    EntryModel,
    Level,
    ListingModel,
    ScanModel,
};
use crate::scan_laws::{lemma_scan_step_keeps_index_valid, lemma_scan_step_only_adds, scan_inv};

verus! {

/// Whether each rom of `roms` from `from` on has the length that `disk` gives
/// for its box art: 0 where the file is not there, else the file's length.
pub open spec fn sizes_from_disk(disk: DiskModel, roms: Seq<RomModel>, from: int) -> bool {
    forall|k: int|
        0 <= k && from <= k < roms.len() ==> probed(disk, (#[trigger] roms[k]).boxart_path) == Ok::<
            u64,
            Seq<char>,
        >(roms[k].boxart_size)
}

proof fn lemma_with_file_sizes(
    disk: DiskModel,
    folder: Seq<char>,
    state: StateModel,
    collection: CollectionModel,
    listed: Result<EntryModel, Seq<char>>,
    from: int,
)
    requires
        sizes_from_disk(disk, state.index.roms, from),
    ensures
        sizes_from_disk(
            disk,
            with_file(disk, folder, state, collection, listed).0.index.roms,
            from,
        ),
        state.index.roms.is_prefix_of(
            with_file(disk, folder, state, collection, listed).0.index.roms,
        ),
{
    let roms = with_file(disk, folder, state, collection, listed).0.index.roms;
    assert forall|k: int| 0 <= k && from <= k < roms.len() implies probed(
        disk,
        (#[trigger] roms[k]).boxart_path,
    ) == Ok::<u64, Seq<char>>(roms[k].boxart_size) by {
        if k < state.index.roms.len() {
            assert(roms[k] == state.index.roms[k]);
        }
    }
}

proof fn lemma_with_files_sizes(
    disk: DiskModel,
    folder: Seq<char>,
    state: StateModel,
    collection: CollectionModel,
    files: ListingModel,
    at: int,
    from: int,
)
    requires
        sizes_from_disk(disk, state.index.roms, from),
    ensures
        sizes_from_disk(
            disk,
            with_files(disk, folder, state, collection, files, at).0.index.roms,
            from,
        ),
        state.index.roms.is_prefix_of(
            with_files(disk, folder, state, collection, files, at).0.index.roms,
        ),
    decreases files.len() - at,
{
    if 0 <= at < files.len() {
        let (grown, filled) = with_file(disk, folder, state, collection, files[at]);
        lemma_with_file_sizes(disk, folder, state, collection, files[at], from);
        lemma_with_files_sizes(disk, folder, grown, filled, files, at + 1, from);
    }
}

proof fn lemma_with_roots_sizes(
    disk: DiskModel,
    state: StateModel,
    roots: ListingModel,
    at: int,
    from: int,
)
    requires
        sizes_from_disk(disk, state.index.roms, from),
    ensures
        sizes_from_disk(disk, with_roots(disk, state, roots, at).index.roms, from),
        state.index.roms.is_prefix_of(with_roots(disk, state, roots, at).index.roms),
    decreases roots.len() - at,
{
    if 0 <= at < roots.len() {
        let listed = roots[at];
        let next = with_root_entry(disk, state, listed);
        if wanted(Level::Root, listed) {
            let entry = listed->Ok_0;
            if (disk.listing)(entry.path) is Ok {
                lemma_with_files_sizes(
                    disk,
                    entry.path,
                    state,
                    CollectionModel { name: entry.name, rom_indices: Seq::empty() },
                    (disk.listing)(entry.path)->Ok_0,
                    0,
                    from,
                );
            }
        }
        lemma_with_roots_sizes(disk, next, roots, at + 1, from);
    }
}

/// Every rom that indexing adds has the length that the disk gives for the
/// file at its `boxart_path`: 0 where the file is not there, the file's length
/// where it is. So a rom's `boxart_size` is 0 exactly when its box art is not
/// there, unless the file is there and holds no byte. The roms that the state
/// had before stay as they are, in their places.
pub proof fn lemma_indexed_sizes_are_true(disk: DiskModel, state: StateModel)
    ensures
        sizes_from_disk(disk, indexed(disk, state).0.index.roms, state.index.roms.len() as int),
        state.index.roms.is_prefix_of(indexed(disk, state).0.index.roms),
        forall|k: int|
            state.index.roms.len() <= k < indexed(disk, state).0.index.roms.len() ==> {
                let rom = #[trigger] indexed(disk, state).0.index.roms[k];
                (disk.found)(rom.boxart_path) is Ok && (rom.boxart_size == 0 <==> (disk.found)(
                    rom.boxart_path,
                ) == Ok::<bool, Seq<char>>(false) || (disk.length)(rom.boxart_path) == Ok::<
                    u64,
                    Seq<char>,
                >(0))
            },
{
    if (disk.listing)(state.roms_folder) is Ok {
        lemma_with_roots_sizes(
            disk,
            state,
            (disk.listing)(state.roms_folder)->Ok_0,
            0,
            state.index.roms.len() as int,
        );
    }
    let roms = indexed(disk, state).0.index.roms;
    assert forall|k: int| state.index.roms.len() <= k < roms.len() implies {
        let rom = #[trigger] roms[k];
        (disk.found)(rom.boxart_path) is Ok && (rom.boxart_size == 0 <==> (disk.found)(
            rom.boxart_path,
        ) == Ok::<bool, Seq<char>>(false) || (disk.length)(rom.boxart_path) == Ok::<
            u64,
            Seq<char>,
        >(0))
    } by {
        assert(probed(disk, roms[k].boxart_path) == Ok::<u64, Seq<char>>(roms[k].boxart_size));
    }
}

/// Answering requests from a disk only adds to the state, and keeps it valid
/// as far as the roms can be counted in a `usize`.
proof fn lemma_scan_on_keeps_index_valid(
    disk: DiskModel,
    state: StateModel,
    scan: ScanModel,
    steps: nat,
)
    requires
        scan_inv(state, scan),
        scan_on(disk, state, scan, steps).0.index.roms.len() <= usize::MAX,
    ensures
        scan_inv(scan_on(disk, state, scan, steps).0, scan_on(disk, state, scan, steps).1),
    decreases steps,
{
    if steps > 0 {
        let reply = answer(disk, scan_request(state, scan));
        let (after, onward) = scan_step(state, scan, reply);
        lemma_scan_on_only_adds(disk, after, onward, (steps - 1) as nat);
        lemma_scan_step_keeps_index_valid(state, scan, reply);
        lemma_scan_on_keeps_index_valid(disk, after, onward, (steps - 1) as nat);
    }
}

proof fn lemma_scan_on_only_adds(disk: DiskModel, state: StateModel, scan: ScanModel, steps: nat)
    ensures
        state.index.roms.is_prefix_of(scan_on(disk, state, scan, steps).0.index.roms),
    decreases steps,
{
    if steps > 0 {
        let reply = answer(disk, scan_request(state, scan));
        let (after, onward) = scan_step(state, scan, reply);
        lemma_scan_step_only_adds(state, scan, reply);
        lemma_scan_on_only_adds(disk, after, onward, (steps - 1) as nat);
    }
}

/// The index of every disk is valid: indexed from a fresh state, no
/// collection names a place that is no rom of the index, and no collection is
/// empty. The one bound is the machine's: the roms can be counted in a `usize`.
pub proof fn lemma_indexed_is_valid(disk: DiskModel, roms_folder: Seq<char>)
    requires
        indexed(disk, StateModel::fresh(roms_folder)).0.index.roms.len() <= usize::MAX,
    ensures
        indexed(disk, StateModel::fresh(roms_folder)).0.index.wf(),
        indexed(disk, StateModel::fresh(roms_folder)).0.index.pruned(),
{
    let fresh = StateModel::fresh(roms_folder);
    let steps = lemma_scan_comes_to_indexed(disk, fresh);
    lemma_scan_on_keeps_index_valid(disk, fresh, ScanModel::start(), steps);
}

/// Indexing the same disk twice gives the same index, whatever had been logged
/// before either time: the index, and whether the scan fails as a whole, depend
/// on the directory, on the index before and on the disk alone.
pub proof fn lemma_indexed_again_is_the_same(
    disk: DiskModel,
    first: StateModel,
    second: StateModel,
)
    requires
        first.roms_folder == second.roms_folder,
        first.index == second.index,
    ensures
        indexed(disk, first).0.index == indexed(disk, second).0.index,
        indexed(disk, first).1 == indexed(disk, second).1,
{
    if (disk.listing)(first.roms_folder) is Ok {
        lemma_with_roots_same(disk, first, second, (disk.listing)(first.roms_folder)->Ok_0, 0);
    }
}

proof fn lemma_with_files_same(
    disk: DiskModel,
    folder: Seq<char>,
    first: StateModel,
    second: StateModel,
    collection: CollectionModel,
    files: ListingModel,
    at: int,
)
    requires
        first.roms_folder == second.roms_folder,
        first.index == second.index,
    ensures
        with_files(disk, folder, first, collection, files, at).0.index == with_files(
            disk,
            folder,
            second,
            collection,
            files,
            at,
        ).0.index,
        with_files(disk, folder, first, collection, files, at).1 == with_files(
            disk,
            folder,
            second,
            collection,
            files,
            at,
        ).1,
        with_files(disk, folder, first, collection, files, at).0.roms_folder == with_files(
            disk,
            folder,
            second,
            collection,
            files,
            at,
        ).0.roms_folder,
    decreases files.len() - at,
{
    if 0 <= at < files.len() {
        let (grown_first, filled) = with_file(disk, folder, first, collection, files[at]);
        let (grown_second, _) = with_file(disk, folder, second, collection, files[at]);
        lemma_with_files_same(disk, folder, grown_first, grown_second, filled, files, at + 1);
    }
}

proof fn lemma_with_roots_same(
    disk: DiskModel,
    first: StateModel,
    second: StateModel,
    roots: ListingModel,
    at: int,
)
    requires
        first.roms_folder == second.roms_folder,
        first.index == second.index,
    ensures
        with_roots(disk, first, roots, at).index == with_roots(disk, second, roots, at).index,
        with_roots(disk, first, roots, at).roms_folder == with_roots(
            disk,
            second,
            roots,
            at,
        ).roms_folder,
    decreases roots.len() - at,
{
    if 0 <= at < roots.len() {
        let listed = roots[at];
        if wanted(Level::Root, listed) {
            let entry = listed->Ok_0;
            if (disk.listing)(entry.path) is Ok {
                lemma_with_files_same(
                    disk,
                    entry.path,
                    first,
                    second,
                    CollectionModel { name: entry.name, rom_indices: Seq::empty() },
                    (disk.listing)(entry.path)->Ok_0,
                    0,
                );
            }
        }
        lemma_with_roots_same(
            disk,
            with_root_entry(disk, first, listed),
            with_root_entry(disk, second, listed),
            roots,
            at + 1,
        );
    }
}

} // verus!
