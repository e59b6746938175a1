//! What holds of every scan, whatever the caller reports.

use vstd::prelude::*;
use crate::failure::quoted_text;
use crate::index::{non_empty, CollectionModel, IndexModel, RomModel, StateModel};
use crate::scan::{
    keep_rom,
    logged_between,
    media_path,
    next_wanted,
    scan_request,
    scan_step,
    seek_folder,
    seek_rom,
    unmeasured_text,
    unprobed_text,
    Level,
    ScanModel,
    ScanReplyModel,
    ScanRequestModel,
    Stage,
};
use crate::strings::{
    ERROR_PREFIX_INDEX_COLLECTION,
    ERROR_PREFIX_MEDIA_DIR,
    ERROR_PREFIX_READ_COLLECTION,
};

verus! {

/// A scan from its first request on: the state and the scan after each of
/// `replies` has been heard in turn.
pub open spec fn scan_run(state: StateModel, scan: ScanModel, replies: Seq<ScanReplyModel>) -> (
    StateModel,
    ScanModel,
)
    decreases replies.len(),
{
    if replies.len() == 0 {
        (state, scan)
    } else {
        let (before, waiting) = scan_run(state, scan, replies.drop_last());
        scan_step(before, waiting, replies.last())
    }
}

/// Whether a scan at this stage has touched the index of its state, or may leave
/// it with empty collections.
pub open spec fn settled(stage: Stage) -> bool {
    stage == Stage::Root || stage == Stage::Finished
}

/// What every step of a scan keeps: no collection, in the index or in the
/// making, points outside the roms, and before the first listing and after the
/// last step no collection of the index is empty.
pub open spec fn scan_inv(state: StateModel, scan: ScanModel) -> bool {
    &&& scan.fits(state)
    &&& settled(scan.stage) ==> state.index.pruned()
}

/// Pruning keeps only collections that hold a rom, and invents none.
pub proof fn lemma_non_empty_sound(collections: Seq<CollectionModel>, count: nat)
    requires
        forall|c: int| 0 <= c < collections.len() ==> (#[trigger] collections[c]).within(count),
    ensures
        forall|c: int|
            0 <= c < non_empty(collections).len() ==> {
                &&& (#[trigger] non_empty(collections)[c]).within(count)
                &&& !non_empty(collections)[c].is_empty()
            },
    decreases collections.len(),
{
    if collections.len() > 0 {
        let rest = collections.drop_last();
        assert forall|c: int| 0 <= c < rest.len() implies (#[trigger] rest[c]).within(count) by {
            assert(rest[c] == collections[c]);
        }
        lemma_non_empty_sound(rest, count);
        assert(collections.last() == collections[collections.len() - 1]);
        assert forall|c: int| 0 <= c < non_empty(collections).len() implies {
            &&& (#[trigger] non_empty(collections)[c]).within(count)
            &&& !non_empty(collections)[c].is_empty()
        } by {
            if c < non_empty(rest).len() {
                assert(non_empty(collections)[c] == non_empty(rest)[c]);
            }
        }
    }
}

proof fn lemma_seek_folder_inv(state: StateModel, scan: ScanModel, from: int)
    requires
        scan.fits(state),
    ensures
        scan_inv(seek_folder(state, scan, from).0, seek_folder(state, scan, from).1),
        seek_folder(state, scan, from).1.stage != Stage::Root,
        seek_folder(state, scan, from).0.index.roms == state.index.roms,
{
    lemma_non_empty_sound(state.index.collections, state.index.roms.len());
}

proof fn lemma_seek_rom_inv(state: StateModel, scan: ScanModel, from: int)
    requires
        scan.fits(state),
    ensures
        scan_inv(seek_rom(state, scan, from).0, seek_rom(state, scan, from).1),
        seek_rom(state, scan, from).1.stage != Stage::Root,
        seek_rom(state, scan, from).0.index.roms == state.index.roms,
{
    let stop = next_wanted(Level::Collection, scan.files, from);
    if stop >= scan.files.len() {
        let errors = state.errors + logged_between(
            Level::Collection,
            scan.files,
            from,
            stop,
        );
        let shelved = StateModel {
            errors,
            index: IndexModel {
                collections: state.index.collections.push(scan.collection),
                ..state.index
            },
            ..state
        };
        assert(shelved.index.wf());
        lemma_seek_folder_inv(
            shelved,
            ScanModel { next_file: stop, collection: CollectionModel::blank(), ..scan },
            scan.next_root,
        );
    }
}

proof fn lemma_keep_rom_inv(state: StateModel, scan: ScanModel, size: u64)
    requires
        scan.fits(state),
        state.index.roms.len() < usize::MAX,
    ensures
        scan_inv(keep_rom(state, scan, size).0, keep_rom(state, scan, size).1),
        keep_rom(state, scan, size).1.stage != Stage::Root,
        keep_rom(state, scan, size).0.index.roms == state.index.roms.push(
            RomModel { boxart_size: size, ..scan.rom },
        ),
{
    let grown = StateModel {
        index: IndexModel {
            roms: state.index.roms.push(RomModel { boxart_size: size, ..scan.rom }),
            ..state.index
        },
        ..state
    };
    let filled = ScanModel {
        collection: CollectionModel {
            rom_indices: scan.collection.rom_indices.push(state.index.roms.len() as usize),
            ..scan.collection
        },
        ..scan
    };
    assert(grown.index.wf()) by {
        assert forall|c: int| 0 <= c < grown.index.collections.len() implies (
        #[trigger] grown.index.collections[c]).within(grown.index.roms.len()) by {
            assert(state.index.collections[c].within(state.index.roms.len()));
        }
    }
    assert(filled.collection.within(grown.index.roms.len()));
    lemma_seek_rom_inv(grown, filled, scan.next_file);
}

/// No step of a scan makes a collection point outside the roms, takes a rom out
/// of the index or moves one; and the step that ends a scan leaves no collection
/// empty. The one bound is the machine's: the roms after the step can be counted
/// in a `usize`.
pub proof fn lemma_scan_step_keeps_index_valid(
    state: StateModel,
    scan: ScanModel,
    reply: ScanReplyModel,
)
    requires
        scan_inv(state, scan),
        scan_step(state, scan, reply).0.index.roms.len() <= usize::MAX,
    ensures
        scan_inv(scan_step(state, scan, reply).0, scan_step(state, scan, reply).1),
        state.index.roms.is_prefix_of(scan_step(state, scan, reply).0.index.roms),
        scan.stage != Stage::Root ==> scan_step(state, scan, reply).1.stage != Stage::Root,
{
    let (after, onward) = scan_step(state, scan, reply);
    match (scan.stage, reply) {
        (Stage::Root, ScanReplyModel::Listed(Err(error))) => {},
        (Stage::Root, ScanReplyModel::Listed(Ok(listing))) => {
            lemma_seek_folder_inv(state, ScanModel { roots: listing, ..scan }, 0);
        },
        (Stage::Folder, ScanReplyModel::Listed(Err(error))) => {
            let cause = quoted_text(
                ERROR_PREFIX_READ_COLLECTION@,
                scan.folder,
                error,
            );
            lemma_seek_folder_inv(
                state.logged(
                    quoted_text(
                        ERROR_PREFIX_INDEX_COLLECTION@,
                        scan.folder,
                        cause,
                    ),
                ),
                scan,
                scan.next_root,
            );
        },
        (Stage::Folder, ScanReplyModel::Listed(Ok(listing))) => {},
        (Stage::Sidecar, ScanReplyModel::Found(Ok(true))) => {
            lemma_seek_rom_inv(state, scan, 0);
        },
        (Stage::Sidecar, ScanReplyModel::Found(_)) => {},
        (Stage::SidecarCreate, ScanReplyModel::Created(Ok(()))) => {
            lemma_seek_rom_inv(state, scan, 0);
        },
        (Stage::SidecarCreate, ScanReplyModel::Created(Err(error))) => {
            let cause = quoted_text(
                ERROR_PREFIX_MEDIA_DIR@,
                media_path(scan.folder),
                error,
            );
            lemma_seek_folder_inv(
                state.logged(
                    quoted_text(
                        ERROR_PREFIX_INDEX_COLLECTION@,
                        scan.folder,
                        cause,
                    ),
                ),
                scan,
                scan.next_root,
            );
        },
        (Stage::Boxart, ScanReplyModel::Found(Ok(false))) => {
            lemma_keep_rom_inv(state, scan, 0);
        },
        (Stage::Boxart, ScanReplyModel::Found(Ok(true))) => {},
        (Stage::Boxart, ScanReplyModel::Found(Err(error))) => {
            lemma_seek_rom_inv(
                state.logged(unprobed_text(scan.rom.boxart_path, error)),
                scan,
                scan.next_file,
            );
        },
        (Stage::BoxartSize, ScanReplyModel::Measured(Ok(size))) => {
            lemma_keep_rom_inv(state, scan, size);
        },
        (Stage::BoxartSize, ScanReplyModel::Measured(Err(_))) => {
            lemma_seek_rom_inv(
                state.logged(unmeasured_text(scan.rom.boxart_path)),
                scan,
                scan.next_file,
            );
        },
        _ => {},
    }
}

/// Which roms a step adds: the rom whose box art was looked for, when the caller
/// reports that the box art is not there or how long it is; none otherwise. No
/// step takes a rom out or changes one.
pub proof fn lemma_scan_step_roms(state: StateModel, scan: ScanModel, reply: ScanReplyModel)
    ensures
        scan_step(state, scan, reply).0.index.roms == match (scan.stage, reply) {
            (Stage::Boxart, ScanReplyModel::Found(Ok(false))) => state.index.roms.push(
                RomModel { boxart_size: 0, ..scan.rom },
            ),
            (Stage::BoxartSize, ScanReplyModel::Measured(Ok(size))) => state.index.roms.push(
                RomModel { boxart_size: size, ..scan.rom },
            ),
            _ => state.index.roms,
        },
{
}

/// A step of a scan only adds: the directory of the state stays, what was
/// logged stays logged in its place, and every rom stays where it is.
pub proof fn lemma_scan_step_only_adds(state: StateModel, scan: ScanModel, reply: ScanReplyModel)
    ensures
        scan_step(state, scan, reply).0.roms_folder == state.roms_folder,
        state.errors.is_prefix_of(scan_step(state, scan, reply).0.errors),
        state.index.roms.is_prefix_of(scan_step(state, scan, reply).0.index.roms),
{
    lemma_scan_step_roms(state, scan, reply);
}

/// A rom's `boxart_size` is 0 exactly when its box art was not there when the
/// scan looked. This holds of every rom that a step adds, on any answer but one:
/// that the box art is there and holds no byte. The rom's `boxart_path` is the
/// path that the scan asked about.
pub proof fn lemma_boxart_size_tells_presence(
    state: StateModel,
    scan: ScanModel,
    reply: ScanReplyModel,
)
    requires
        scan_step(state, scan, reply).0.index.roms.len() > state.index.roms.len(),
        reply != ScanReplyModel::Measured(Ok(0)),
    ensures
        ({
            let rom = scan_step(state, scan, reply).0.index.roms.last();
            &&& rom.boxart_size == 0 <==> reply == ScanReplyModel::Found(Ok(false))
            &&& scan_request(state, scan) == ScanRequestModel::Exists(rom.boxart_path)
                || scan_request(state, scan) == ScanRequestModel::Measure(rom.boxart_path)
        }),
{
    lemma_scan_step_roms(state, scan, reply);
}

/// The index that a scan builds from a fresh state is valid after every reply,
/// whatever the replies are: no collection points outside the roms, and once the
/// scan is over no collection is empty. The one bound is the machine's: the roms
/// can be counted in a `usize`.
pub proof fn lemma_scanned_index_is_valid(roms_folder: Seq<char>, replies: Seq<ScanReplyModel>)
    requires
        scan_run(StateModel::fresh(roms_folder), ScanModel::start(), replies).0.index.roms.len()
            <= usize::MAX,
    ensures
        ({
            let (state, scan) = scan_run(
                StateModel::fresh(roms_folder),
                ScanModel::start(),
                replies,
            );
            &&& state.index.wf()
            &&& scan.stage == Stage::Finished ==> state.index.pruned()
        }),
{
    lemma_scan_run_keeps_index_valid(StateModel::fresh(roms_folder), ScanModel::start(), replies);
}

/// What `lemma_scan_step_keeps_index_valid` says of one step holds of any number.
pub proof fn lemma_scan_run_keeps_index_valid(
    state: StateModel,
    scan: ScanModel,
    replies: Seq<ScanReplyModel>,
)
    requires
        scan_inv(state, scan),
        scan_run(state, scan, replies).0.index.roms.len() <= usize::MAX,
    ensures
        scan_inv(scan_run(state, scan, replies).0, scan_run(state, scan, replies).1),
        state.index.roms.is_prefix_of(scan_run(state, scan, replies).0.index.roms),
    decreases replies.len(),
{
    if replies.len() > 0 {
        let (before, waiting) = scan_run(state, scan, replies.drop_last());
        lemma_scan_step_roms(before, waiting, replies.last());
        lemma_scan_run_keeps_index_valid(state, scan, replies.drop_last());
        lemma_scan_step_keeps_index_valid(before, waiting, replies.last());
    }
}

/// Two scans that stand at the same place and index the same directory ask for
/// the same thing and, on the same reply, go on to the same place with the same
/// index, whatever either has logged.
pub proof fn lemma_scan_step_is_repeatable(
    first: StateModel,
    second: StateModel,
    scan: ScanModel,
    reply: ScanReplyModel,
)
    requires
        first.roms_folder == second.roms_folder,
        first.index == second.index,
    ensures
        scan_request(first, scan) == scan_request(second, scan),
        scan_step(first, scan, reply).1 == scan_step(second, scan, reply).1,
        scan_step(first, scan, reply).0.index == scan_step(second, scan, reply).0.index,
        scan_step(first, scan, reply).0.roms_folder == scan_step(second, scan, reply).0.roms_folder,
{
}

/// Scanning the same directory twice gives the same index, as long as the
/// caller reports the same both times: the index does not depend on what was
/// logged before or is logged on the way, and neither does any request.
pub proof fn lemma_scan_is_repeatable(
    first: StateModel,
    second: StateModel,
    scan: ScanModel,
    replies: Seq<ScanReplyModel>,
)
    requires
        first.roms_folder == second.roms_folder,
        first.index == second.index,
    ensures
        scan_run(first, scan, replies).1 == scan_run(second, scan, replies).1,
        scan_run(first, scan, replies).0.index == scan_run(second, scan, replies).0.index,
        scan_run(first, scan, replies).0.roms_folder == scan_run(
            second,
            scan,
            replies,
        ).0.roms_folder,
        scan_request(scan_run(first, scan, replies).0, scan_run(first, scan, replies).1)
            == scan_request(scan_run(second, scan, replies).0, scan_run(second, scan, replies).1),
    decreases replies.len(),
{
    if replies.len() > 0 {
        lemma_scan_is_repeatable(first, second, scan, replies.drop_last());
        let (before_first, waiting) = scan_run(first, scan, replies.drop_last());
        let (before_second, _) = scan_run(second, scan, replies.drop_last());
        lemma_scan_step_is_repeatable(before_first, before_second, waiting, replies.last());
    }
    let (after_first, onward) = scan_run(first, scan, replies);
    let (after_second, _) = scan_run(second, scan, replies);
    lemma_scan_step_is_repeatable(after_first, after_second, onward, ScanReplyModel::Created(Ok(())));
}

} // verus!
