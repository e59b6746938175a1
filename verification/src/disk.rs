//! What a scan comes to when the caller tells the truth about one disk.
//!
//! A disk is given by what it answers; the index that a scan of it builds is
//! stated entry by entry, without the machine; and the machine is shown to
//! arrive at it.

use vstd::prelude::*;
use crate::failure::quoted_text;
use crate::index::{non_empty, CollectionModel, IndexModel, RomModel, StateModel};
use crate::scan::{
    boxart_path,
    logged_between,
    media_path,
    next_wanted,
    passed_over,
    scan_request,
    scan_step,
    seek_folder,
    seek_rom,
    unmeasured_text,
    unprobed_text,
    wanted,
    EntryModel,
    Level,
    ListingModel,
    ScanModel,
    ScanReplyModel,
    ScanRequestModel,
    Stage,
};
use crate::strings::{
    ERROR_PREFIX_DIR_READ,
    ERROR_PREFIX_INDEX_COLLECTION,
    ERROR_PREFIX_MEDIA_DIR,
    ERROR_PREFIX_READ_COLLECTION,
};

verus! {

/// A disk, as far as a scan can tell: what each question about a path is
/// answered with. The answers do not change while the scan runs.
pub struct DiskModel {
    /// The listing of a directory.
    pub listing: spec_fn(Seq<char>) -> Result<ListingModel, Seq<char>>,
    /// Whether a path exists.
    pub found: spec_fn(Seq<char>) -> Result<bool, Seq<char>>,
    /// What comes of creating a directory.
    pub created: spec_fn(Seq<char>) -> Result<(), Seq<char>>,
    /// The length of a file.
    pub length: spec_fn(Seq<char>) -> Result<u64, Seq<char>>,
}

/// What a caller that tells the truth about `disk` replies to `request`.
pub open spec fn answer(disk: DiskModel, request: ScanRequestModel) -> ScanReplyModel {
    match request {
        ScanRequestModel::List(path) => ScanReplyModel::Listed((disk.listing)(path)),
        ScanRequestModel::Exists(path) => ScanReplyModel::Found((disk.found)(path)),
        ScanRequestModel::CreateDir(path) => ScanReplyModel::Created((disk.created)(path)),
        ScanRequestModel::Measure(path) => ScanReplyModel::Measured((disk.length)(path)),
        ScanRequestModel::Done(_) => ScanReplyModel::Created(Ok(())),
    }
}

/// The state and the scan after `steps` requests have been answered from `disk`.
pub open spec fn scan_on(disk: DiskModel, state: StateModel, scan: ScanModel, steps: nat) -> (
    StateModel,
    ScanModel,
)
    decreases steps,
{
    if steps == 0 {
        (state, scan)
    } else {
        let (after, onward) = scan_step(state, scan, answer(disk, scan_request(state, scan)));
        scan_on(disk, after, onward, (steps - 1) as nat)
    }
}

/// The length that a rom gets whose box art lies at `path`: 0 where the file is
/// not there, its length where it is; or what is logged where the disk does not
/// say.
pub open spec fn probed(disk: DiskModel, path: Seq<char>) -> Result<u64, Seq<char>> {
    match (disk.found)(path) {
        Ok(false) => Ok(0),
        Ok(true) => match (disk.length)(path) {
            Ok(size) => Ok(size),
            Err(_) => Err(unmeasured_text(path)),
        },
        Err(error) => Err(unprobed_text(path, error)),
    }
}

/// What one entry of the directory at `folder` adds to the state and to the
/// collection of that directory: a file with a stem adds the rom of that name,
/// or, where its box art cannot be looked at, what is logged of that; any other
/// entry adds what is logged of it, if anything.
pub open spec fn with_file(
    disk: DiskModel,
    folder: Seq<char>,
    state: StateModel,
    collection: CollectionModel,
    listed: Result<EntryModel, Seq<char>>,
) -> (StateModel, CollectionModel) {
    if wanted(Level::Collection, listed) {
        let stem = listed->Ok_0.stem->Some_0;
        let path = boxart_path(folder, stem);
        match probed(disk, path) {
            Ok(size) => (
                StateModel {
                    index: IndexModel {
                        roms: state.index.roms.push(
                            RomModel { name: stem, boxart_path: path, boxart_size: size },
                        ),
                        ..state.index
                    },
                    ..state
                },
                CollectionModel {
                    rom_indices: collection.rom_indices.push(state.index.roms.len() as usize),
                    ..collection
                },
            ),
            Err(error) => (state.logged(error), collection),
        }
    } else {
        (
            StateModel {
                errors: state.errors + passed_over(Level::Collection, listed),
                ..state
            },
            collection,
        )
    }
}

/// What the entries of `files` from `from` on add, one after the other.
pub open spec fn with_files(
    disk: DiskModel,
    folder: Seq<char>,
    state: StateModel,
    collection: CollectionModel,
    files: ListingModel,
    from: int,
) -> (StateModel, CollectionModel)
    decreases files.len() - from,
{
    if from < 0 || from >= files.len() {
        (state, collection)
    } else {
        let (grown, filled) = with_file(disk, folder, state, collection, files[from]);
        with_files(disk, folder, grown, filled, files, from + 1)
    }
}

/// Whether the collection at `folder` has a media folder once the scan has
/// seen to it: it is there, or it can be created.
pub open spec fn media_folder_ready(disk: DiskModel, folder: Seq<char>) -> Result<
    (),
    Seq<char>,
> {
    match (disk.found)(media_path(folder)) {
        Ok(true) => Ok(()),
        _ => (disk.created)(media_path(folder)),
    }
}

/// What is logged of a collection that is given up, and why.
pub open spec fn given_up_text(folder: Seq<char>, cause: Seq<char>) -> Seq<char> {
    quoted_text(ERROR_PREFIX_INDEX_COLLECTION@, folder, cause)
}

/// What one entry of the directory to index adds to the state. A directory adds
/// a collection of its name with the roms that its entries give, empty or not;
/// where it cannot be listed or its media folder cannot be made, it adds what is
/// logged of that and nothing else. Any other entry adds what is logged of it, if
/// anything.
pub open spec fn with_root_entry(
    disk: DiskModel,
    state: StateModel,
    listed: Result<EntryModel, Seq<char>>,
) -> StateModel {
    if wanted(Level::Root, listed) {
        let entry = listed->Ok_0;
        match (disk.listing)(entry.path) {
            Err(error) => state.logged(
                given_up_text(
                    entry.path,
                    quoted_text(ERROR_PREFIX_READ_COLLECTION@, entry.path, error),
                ),
            ),
            Ok(files) => match media_folder_ready(disk, entry.path) {
                Err(error) => state.logged(
                    given_up_text(
                        entry.path,
                        quoted_text(ERROR_PREFIX_MEDIA_DIR@, media_path(entry.path), error),
                    ),
                ),
                Ok(()) => {
                    let (grown, filled) = with_files(
                        disk,
                        entry.path,
                        state,
                        CollectionModel { name: entry.name, rom_indices: Seq::empty() },
                        files,
                        0,
                    );
                    shelved(grown, filled)
                },
            },
        }
    } else {
        StateModel { errors: state.errors + passed_over(Level::Root, listed), ..state }
    }
}

/// `state` with `collection` as the last collection of its index.
pub open spec fn shelved(state: StateModel, collection: CollectionModel) -> StateModel {
    StateModel {
        index: IndexModel {
            collections: state.index.collections.push(collection),
            ..state.index
        },
        ..state
    }
}

/// `state` without the empty collections of its index.
pub open spec fn pruned(state: StateModel) -> StateModel {
    StateModel {
        index: IndexModel { collections: non_empty(state.index.collections), ..state.index },
        ..state
    }
}

/// What the entries of `roots` from `from` on add, one after the other.
pub open spec fn with_roots(disk: DiskModel, state: StateModel, roots: ListingModel, from: int)
    -> StateModel
    decreases roots.len() - from,
{
    if from < 0 || from >= roots.len() {
        state
    } else {
        with_roots(disk, with_root_entry(disk, state, roots[from]), roots, from + 1)
    }
}

/// What indexing the directory of `state` on `disk` comes to: the state
/// afterwards and, where the directory cannot be listed, why the scan failed as a
/// whole. Then the state is untouched. Else each entry has added what it adds,
/// in the order of the listing, and the empty collections have left.
pub open spec fn indexed(disk: DiskModel, state: StateModel) -> (StateModel, Option<Seq<char>>) {
    match (disk.listing)(state.roms_folder) {
        Err(error) => (state, Some(quoted_text(ERROR_PREFIX_DIR_READ@, state.roms_folder, error))),
        Ok(roots) => (pruned(with_roots(disk, state, roots, 0)), None),
    }
}


/// Answering `first` requests and then `second` more is answering them all.
pub proof fn lemma_scan_on_adds(
    disk: DiskModel,
    state: StateModel,
    scan: ScanModel,
    first: nat,
    second: nat,
)
    ensures
        scan_on(disk, state, scan, first + second) == scan_on(
            disk,
            scan_on(disk, state, scan, first).0,
            scan_on(disk, state, scan, first).1,
            second,
        ),
    decreases first,
{
    if first > 0 {
        let (after, onward) = scan_step(state, scan, answer(disk, scan_request(state, scan)));
        lemma_scan_on_adds(disk, after, onward, (first - 1) as nat, second);
        assert(first + second - 1 == (first - 1) as nat + second);
    }
}

/// Where a walk stops: not before `from`, not behind the end, at an entry that
/// is wanted if at any, and behind none that is.
pub proof fn lemma_next_wanted(level: Level, listing: ListingModel, from: int)
    requires
        0 <= from <= listing.len(),
    ensures
        from <= next_wanted(level, listing, from) <= listing.len(),
        next_wanted(level, listing, from) < listing.len() ==> wanted(
            level,
            listing[next_wanted(level, listing, from)],
        ),
        forall|k: int|
            from <= k < next_wanted(level, listing, from) ==> !wanted(level, #[trigger] listing[k]),
    decreases listing.len() - from,
{
    if from < listing.len() && !wanted(level, listing[from]) {
        lemma_next_wanted(level, listing, from + 1);
    }
}

/// What is logged of a stretch of entries is what is logged of the first, then
/// of the rest.
pub proof fn lemma_logged_between_front(level: Level, listing: ListingModel, from: int, to: int)
    requires
        0 <= from < to <= listing.len(),
    ensures
        logged_between(level, listing, from, to) == passed_over(level, listing[from])
            + logged_between(level, listing, from + 1, to),
    decreases to - from,
{
    if to == from + 1 {
        assert(logged_between(level, listing, from, from) =~= Seq::empty());
        assert(logged_between(level, listing, from + 1, to) =~= Seq::empty());
        assert(logged_between(level, listing, from, to) =~= passed_over(level, listing[from])
            + logged_between(level, listing, from + 1, to));
    } else {
        lemma_logged_between_front(level, listing, from, to - 1);
        assert(logged_between(level, listing, from, to) =~= passed_over(level, listing[from])
            + logged_between(level, listing, from + 1, to));
    }
}

/// The entries that a walk through a collection passes over add what is logged
/// of them and nothing else.
proof fn lemma_files_passed_over(
    disk: DiskModel,
    folder: Seq<char>,
    state: StateModel,
    collection: CollectionModel,
    files: ListingModel,
    from: int,
)
    requires
        0 <= from <= files.len(),
    ensures
        with_files(disk, folder, state, collection, files, from) == with_files(
            disk,
            folder,
            StateModel {
                errors: state.errors + logged_between(
                    Level::Collection,
                    files,
                    from,
                    next_wanted(Level::Collection, files, from),
                ),
                ..state
            },
            collection,
            files,
            next_wanted(Level::Collection, files, from),
        ),
    decreases files.len() - from,
{
    let stop = next_wanted(Level::Collection, files, from);
    if from < files.len() && !wanted(Level::Collection, files[from]) {
        lemma_next_wanted(Level::Collection, files, from + 1);
        let passed = StateModel {
            errors: state.errors + passed_over(Level::Collection, files[from]),
            ..state
        };
        lemma_files_passed_over(disk, folder, passed, collection, files, from + 1);
        lemma_logged_between_front(Level::Collection, files, from, stop);
        assert(passed.errors + logged_between(Level::Collection, files, from + 1, stop)
            =~= state.errors + logged_between(Level::Collection, files, from, stop));
    } else {
        assert(state.errors + logged_between(Level::Collection, files, from, stop)
            =~= state.errors);
    }
}

/// The entries that a walk through the directory to index passes over add what
/// is logged of them and nothing else.
proof fn lemma_roots_passed_over(disk: DiskModel, state: StateModel, roots: ListingModel, from: int)
    requires
        0 <= from <= roots.len(),
    ensures
        with_roots(disk, state, roots, from) == with_roots(
            disk,
            StateModel {
                errors: state.errors + logged_between(
                    Level::Root,
                    roots,
                    from,
                    next_wanted(Level::Root, roots, from),
                ),
                ..state
            },
            roots,
            next_wanted(Level::Root, roots, from),
        ),
    decreases roots.len() - from,
{
    let stop = next_wanted(Level::Root, roots, from);
    if from < roots.len() && !wanted(Level::Root, roots[from]) {
        lemma_next_wanted(Level::Root, roots, from + 1);
        let passed = StateModel {
            errors: state.errors + passed_over(Level::Root, roots[from]),
            ..state
        };
        lemma_roots_passed_over(disk, passed, roots, from + 1);
        lemma_logged_between_front(Level::Root, roots, from, stop);
        assert(passed.errors + logged_between(Level::Root, roots, from + 1, stop)
            =~= state.errors + logged_between(Level::Root, roots, from, stop));
    } else {
        assert(state.errors + logged_between(Level::Root, roots, from, stop) =~= state.errors);
    }
}


/// From the entry `from` of a collection's directory on, a scan that is
/// answered from `disk` comes, after some requests, to the end of the directory
/// with all that the entries add; there the collection joins the index and the
/// walk through the directory to index goes on. Returns the number of requests
/// and the scan as it stands then.
proof fn lemma_collection_walk(disk: DiskModel, state: StateModel, scan: ScanModel, from: int)
    -> (walk: (nat, ScanModel))
    requires
        0 <= from <= scan.files.len(),
    ensures
        ({
            let (grown, filled) = with_files(
                disk,
                scan.folder,
                state,
                scan.collection,
                scan.files,
                from,
            );
            let (begun, waiting) = seek_rom(state, scan, from);
            &&& scan_on(disk, begun, waiting, walk.0) == seek_folder(
                shelved(grown, filled),
                walk.1,
                scan.next_root,
            )
            &&& walk.1.roots == scan.roots
            &&& walk.1.fatal == scan.fatal
        }),
    decreases scan.files.len() - from,
{
    let files = scan.files;
    let stop = next_wanted(Level::Collection, files, from);
    lemma_next_wanted(Level::Collection, files, from);
    lemma_files_passed_over(disk, scan.folder, state, scan.collection, files, from);
    let passed = StateModel {
        errors: state.errors + logged_between(Level::Collection, files, from, stop),
        ..state
    };
    if stop >= files.len() {
        (0, ScanModel { next_file: stop, collection: CollectionModel::blank(), ..scan })
    } else {
        let stem = files[stop]->Ok_0.stem->Some_0;
        let path = boxart_path(scan.folder, stem);
        let waiting = ScanModel {
            stage: Stage::Boxart,
            next_file: stop + 1,
            rom: RomModel { name: stem, boxart_path: path, boxart_size: 0 },
            ..scan
        };
        assert(seek_rom(state, scan, from) == (passed, waiting));
        assert(scan_request(passed, waiting) == ScanRequestModel::Exists(path));
        match (disk.found)(path) {
            Ok(false) => {
                let grown = StateModel {
                    index: IndexModel {
                        roms: passed.index.roms.push(
                            RomModel { name: stem, boxart_path: path, boxart_size: 0 },
                        ),
                        ..passed.index
                    },
                    ..passed
                };
                let filled = ScanModel {
                    collection: CollectionModel {
                        rom_indices: scan.collection.rom_indices.push(
                            passed.index.roms.len() as usize,
                        ),
                        ..scan.collection
                    },
                    ..waiting
                };
                let (steps, onward) = lemma_collection_walk(disk, grown, filled, stop + 1);
                assert(scan_step(passed, waiting, answer(disk, scan_request(passed, waiting)))
                    == seek_rom(grown, filled, stop + 1));
                assert(with_file(disk, scan.folder, passed, scan.collection, files[stop]) == (
                    grown,
                    filled.collection,
                ));
                (steps + 1, onward)
            },
            Ok(true) => {
                let measuring = ScanModel { stage: Stage::BoxartSize, ..waiting };
                assert(scan_step(passed, waiting, answer(disk, scan_request(passed, waiting)))
                    == (passed, measuring));
                assert(scan_request(passed, measuring) == ScanRequestModel::Measure(path));
                match (disk.length)(path) {
                    Ok(size) => {
                        let grown = StateModel {
                            index: IndexModel {
                                roms: passed.index.roms.push(
                                    RomModel { name: stem, boxart_path: path, boxart_size: size },
                                ),
                                ..passed.index
                            },
                            ..passed
                        };
                        let filled = ScanModel {
                            collection: CollectionModel {
                                rom_indices: scan.collection.rom_indices.push(
                                    passed.index.roms.len() as usize,
                                ),
                                ..scan.collection
                            },
                            ..measuring
                        };
                        let (steps, onward) = lemma_collection_walk(disk, grown, filled, stop + 1);
                        assert(scan_step(
                            passed,
                            measuring,
                            answer(disk, scan_request(passed, measuring)),
                        ) == seek_rom(grown, filled, stop + 1));
                        assert(with_file(disk, scan.folder, passed, scan.collection, files[stop])
                            == (grown, filled.collection));
                        assert(scan_on(disk, passed, waiting, steps + 2) == scan_on(
                            disk,
                            passed,
                            measuring,
                            steps + 1,
                        ));
                        (steps + 2, onward)
                    },
                    Err(_) => {
                        let logged = passed.logged(unmeasured_text(path));
                        let (steps, onward) = lemma_collection_walk(
                            disk,
                            logged,
                            measuring,
                            stop + 1,
                        );
                        assert(scan_step(
                            passed,
                            measuring,
                            answer(disk, scan_request(passed, measuring)),
                        ) == seek_rom(logged, measuring, stop + 1));
                        assert(with_file(disk, scan.folder, passed, scan.collection, files[stop])
                            == (logged, scan.collection));
                        assert(scan_on(disk, passed, waiting, steps + 2) == scan_on(
                            disk,
                            passed,
                            measuring,
                            steps + 1,
                        ));
                        (steps + 2, onward)
                    },
                }
            },
            Err(error) => {
                let logged = passed.logged(unprobed_text(path, error));
                let (steps, onward) = lemma_collection_walk(disk, logged, waiting, stop + 1);
                assert(scan_step(passed, waiting, answer(disk, scan_request(passed, waiting)))
                    == seek_rom(logged, waiting, stop + 1));
                assert(with_file(disk, scan.folder, passed, scan.collection, files[stop]) == (
                    logged,
                    scan.collection,
                ));
                (steps + 1, onward)
            },
        }
    }
}


/// From the entry `from` of the directory to index on, a scan that is answered
/// from `disk` is over after some requests, with all that the entries add and
/// without the empty collections. Returns the number of requests.
proof fn lemma_root_walk(disk: DiskModel, state: StateModel, scan: ScanModel, from: int) -> (steps:
    nat)
    requires
        0 <= from <= scan.roots.len(),
    ensures
        ({
            let (begun, waiting) = seek_folder(state, scan, from);
            let (after, onward) = scan_on(disk, begun, waiting, steps);
            &&& onward.stage == Stage::Finished
            &&& onward.fatal == scan.fatal
            &&& after == pruned(with_roots(disk, state, scan.roots, from))
        }),
    decreases scan.roots.len() - from,
{
    let roots = scan.roots;
    let stop = next_wanted(Level::Root, roots, from);
    lemma_next_wanted(Level::Root, roots, from);
    lemma_roots_passed_over(disk, state, roots, from);
    let passed = StateModel {
        errors: state.errors + logged_between(Level::Root, roots, from, stop),
        ..state
    };
    if stop >= roots.len() {
        0
    } else {
        let entry = roots[stop]->Ok_0;
        let media = media_path(entry.path);
        let listing = ScanModel {
            stage: Stage::Folder,
            next_root: stop + 1,
            folder: entry.path,
            collection: CollectionModel { name: entry.name, rom_indices: Seq::empty() },
            ..scan
        };
        assert(seek_folder(state, scan, from) == (passed, listing));
        assert(scan_request(passed, listing) == ScanRequestModel::List(entry.path));
        match (disk.listing)(entry.path) {
            Err(error) => {
                let logged = passed.logged(
                    given_up_text(
                        entry.path,
                        quoted_text(ERROR_PREFIX_READ_COLLECTION@, entry.path, error),
                    ),
                );
                let rest = lemma_root_walk(disk, logged, listing, stop + 1);
                assert(scan_step(passed, listing, answer(disk, scan_request(passed, listing)))
                    == seek_folder(logged, listing, stop + 1));
                assert(with_root_entry(disk, passed, roots[stop]) == logged);
                rest + 1
            },
            Ok(files) => {
                let probing = ScanModel {
                    stage: Stage::Sidecar,
                    files,
                    next_file: 0,
                    ..listing
                };
                assert(scan_step(passed, listing, answer(disk, scan_request(passed, listing)))
                    == (passed, probing));
                assert(scan_request(passed, probing) == ScanRequestModel::Exists(media));
                let making = ScanModel { stage: Stage::SidecarCreate, ..probing };
                let found = (disk.found)(media) == Ok::<bool, Seq<char>>(true);
                if !found {
                    assert(scan_step(passed, probing, answer(disk, scan_request(passed, probing)))
                        == (passed, making));
                    assert(scan_request(passed, making) == ScanRequestModel::CreateDir(media));
                }
                // The scan as it stands when the media folder has been seen to, and
                // the requests it took to get there.
                let ready = if found { probing } else { making };
                let before: nat = if found { 2 } else { 3 };
                match media_folder_ready(disk, entry.path) {
                    Err(error) => {
                        let logged = passed.logged(
                            given_up_text(
                                entry.path,
                                quoted_text(ERROR_PREFIX_MEDIA_DIR@, media, error),
                            ),
                        );
                        let rest = lemma_root_walk(disk, logged, making, stop + 1);
                        assert(scan_step(
                            passed,
                            making,
                            answer(disk, scan_request(passed, making)),
                        ) == seek_folder(logged, making, stop + 1));
                        assert(with_root_entry(disk, passed, roots[stop]) == logged);
                        assert(scan_on(disk, passed, listing, rest + 3) == scan_on(
                            disk,
                            passed,
                            probing,
                            rest + 2,
                        ));
                        assert(scan_on(disk, passed, probing, rest + 2) == scan_on(
                            disk,
                            passed,
                            making,
                            rest + 1,
                        ));
                        rest + 3
                    },
                    Ok(()) => {
                        let (walked, shelving) = lemma_collection_walk(disk, passed, ready, 0);
                        let (grown, filled) = with_files(
                            disk,
                            entry.path,
                            passed,
                            ready.collection,
                            files,
                            0,
                        );
                        let rest = lemma_root_walk(
                            disk,
                            shelved(grown, filled),
                            shelving,
                            stop + 1,
                        );
                        assert(with_root_entry(disk, passed, roots[stop]) == shelved(
                            grown,
                            filled,
                        ));
                        assert(scan_step(passed, ready, answer(disk, scan_request(passed, ready)))
                            == seek_rom(passed, ready, 0));
                        let (begun, waiting) = seek_rom(passed, ready, 0);
                        lemma_scan_on_adds(disk, begun, waiting, walked, rest);
                        assert(scan_on(disk, passed, ready, walked + rest + 1) == scan_on(
                            disk,
                            begun,
                            waiting,
                            walked + rest,
                        ));
                        if found {
                            assert(scan_on(disk, passed, listing, walked + rest + 2) == scan_on(
                                disk,
                                passed,
                                probing,
                                walked + rest + 1,
                            ));
                        } else {
                            assert(scan_on(disk, passed, listing, walked + rest + 3) == scan_on(
                                disk,
                                passed,
                                probing,
                                walked + rest + 2,
                            ));
                            assert(scan_on(disk, passed, probing, walked + rest + 2) == scan_on(
                                disk,
                                passed,
                                making,
                                walked + rest + 1,
                            ));
                        }
                        walked + rest + before
                    },
                }
            },
        }
    }
}

/// A scan that is answered from `disk` ends, and ends with `indexed`: after
/// the number of requests that is returned the scan is over; where the directory
/// could not be listed it has failed as a whole, for that reason, and left the
/// state untouched; else the state is what the entries of the directory add to
/// it, one after the other, without the empty collections. Any further request
/// changes nothing.
pub proof fn lemma_scan_comes_to_indexed(disk: DiskModel, state: StateModel) -> (steps: nat)
    ensures
        ({
            let (after, onward) = scan_on(disk, state, ScanModel::start(), steps);
            &&& onward.stage == Stage::Finished
            &&& (after, onward.fatal) == indexed(disk, state)
            &&& scan_request(after, onward) == ScanRequestModel::Done(
                match indexed(disk, state).1 {
                    Some(error) => Err(error),
                    None => Ok(()),
                },
            )
            &&& forall|more: nat| scan_on(disk, after, onward, more) == (after, onward)
        }),
{
    let start = ScanModel::start();
    assert(scan_request(state, start) == ScanRequestModel::List(state.roms_folder));
    let first = scan_step(state, start, answer(disk, scan_request(state, start)));
    let rest = match (disk.listing)(state.roms_folder) {
        Err(error) => {
            assert(first.1.stage == Stage::Finished);
            assert((first.0, first.1.fatal) == indexed(disk, state));
            0nat
        },
        Ok(roots) => {
            let listed = ScanModel { roots, ..start };
            assert(first == seek_folder(state, listed, 0));
            lemma_root_walk(disk, state, listed, 0)
        },
    };
    assert(scan_on(disk, state, start, rest + 1) == scan_on(disk, first.0, first.1, rest));
    let (after, onward) = scan_on(disk, state, start, rest + 1);
    assert(onward.stage == Stage::Finished);
    assert((after, onward.fatal) == indexed(disk, state));
    assert forall|more: nat| scan_on(disk, after, onward, more) == (after, onward) by {
        lemma_finished_scan_stays(disk, after, onward, more);
    }
    rest + 1
}

/// A scan that is over stays as it is, whatever it is told.
pub proof fn lemma_finished_scan_stays(
    disk: DiskModel,
    state: StateModel,
    scan: ScanModel,
    steps: nat,
)
    requires
        scan.stage == Stage::Finished,
    ensures
        scan_on(disk, state, scan, steps) == (state, scan),
    decreases steps,
{
    if steps > 0 {
        lemma_finished_scan_stays(disk, state, scan, (steps - 1) as nat);
    }
}

} // verus!
