//! Indexing a directory of roms without touching the file system: the library
//! decides what has to be read or created next, the caller does it and reports
//! what came of it.

use vstd::prelude::*;
use vstd::string::*;
use crate::failure::{quoted_text, Failure};
use crate::index::{
    collection_models,
    lemma_collection_models_push,
    lemma_rom_models_push,
    lemma_texts_push,
    non_empty,
    texts,
    Collection,
    CollectionModel,
    IndexModel,
    Rom,
    RomModel,
    State,
    StateModel,
};
use crate::scan_laws::{lemma_scan_step_keeps_index_valid, scan_inv};
use crate::strings::{
    BOXART_EXTENSION,
    ERROR_PREFIX_DIR_ENTRY,
    ERROR_PREFIX_DIR_READ,
    ERROR_PREFIX_DIR_TYPE,
    ERROR_PREFIX_FILE_STEM,
    ERROR_PREFIX_GET_METADATA,
    ERROR_PREFIX_INDEX_COLLECTION,
    ERROR_PREFIX_MEDIA_DIR,
    ERROR_PREFIX_READ_COLLECTION,
    MEDIA_FOLDER,
    PATH_SEPARATOR,
    QUOTE,
    THEN_CAUSE,
};

verus! {

/// What an entry of a directory is.
#[derive(Debug, Clone, Copy, PartialEq, Eq)]
pub enum EntryKind {
    Directory,
    File,
    Other,
}

/// One entry of a directory as the caller found it: its path, its name, the
/// stem of its name where it has one, and its kind or why that is not known.
#[derive(Debug, PartialEq, Eq)]
pub struct Entry {
    pub path: String,
    pub name: String,
    pub stem: Option<String>,
    pub kind: Result<EntryKind, String>,
}

/// What an `Entry` is, as contracts speak of it.
pub struct EntryModel {
    pub path: Seq<char>,
    pub name: Seq<char>,
    pub stem: Option<Seq<char>>,
    pub kind: Result<EntryKind, Seq<char>>,
}

/// A directory's listing as contracts speak of it: each entry, or why it could
/// not be read.
pub type ListingModel = Seq<Result<EntryModel, Seq<char>>>;

impl View for Entry {
    type V = EntryModel;

    open spec fn view(&self) -> EntryModel {
        EntryModel {
            path: self.path@,
            name: self.name@,
            stem: match self.stem {
                Some(stem) => Some(stem@),
                None => None,
            },
            kind: match self.kind {
                Ok(kind) => Ok(kind),
                Err(error) => Err(error@),
            },
        }
    }
}

pub open spec fn listed_model(listed: Result<Entry, String>) -> Result<EntryModel, Seq<char>> {
    match listed {
        Ok(entry) => Ok(entry@),
        Err(error) => Err(error@),
    }
}

pub open spec fn listing_model(listing: Seq<Result<Entry, String>>) -> ListingModel {
    listing.map_values(|listed: Result<Entry, String>| listed_model(listed))
}

/// What the caller is asked to do next.
#[derive(Debug, PartialEq, Eq)]
pub enum ScanRequest {
    /// List the entries of this directory.
    List(String),
    /// Find out whether this path exists.
    Exists(String),
    /// Create this directory.
    CreateDir(String),
    /// Measure the length of this file in bytes.
    Measure(String),
    /// Nothing: the scan is over, and failed as a whole where this holds an error.
    Done(Result<(), String>),
}

pub enum ScanRequestModel {
    List(Seq<char>),
    Exists(Seq<char>),
    CreateDir(Seq<char>),
    Measure(Seq<char>),
    Done(Result<(), Seq<char>>),
}

impl View for ScanRequest {
    type V = ScanRequestModel;

    open spec fn view(&self) -> ScanRequestModel {
        match self {
            ScanRequest::List(path) => ScanRequestModel::List(path@),
            ScanRequest::Exists(path) => ScanRequestModel::Exists(path@),
            ScanRequest::CreateDir(path) => ScanRequestModel::CreateDir(path@),
            ScanRequest::Measure(path) => ScanRequestModel::Measure(path@),
            ScanRequest::Done(Ok(())) => ScanRequestModel::Done(Ok(())),
            ScanRequest::Done(Err(error)) => ScanRequestModel::Done(Err(error@)),
        }
    }
}

/// What came of the last request. An error is the cause as the system gave it.
#[derive(Debug, PartialEq, Eq)]
pub enum ScanReply {
    Listed(Result<Vec<Result<Entry, String>>, String>),
    Found(Result<bool, String>),
    Created(Result<(), String>),
    Measured(Result<u64, String>),
}

pub enum ScanReplyModel {
    Listed(Result<ListingModel, Seq<char>>),
    Found(Result<bool, Seq<char>>),
    Created(Result<(), Seq<char>>),
    Measured(Result<u64, Seq<char>>),
}

impl View for ScanReply {
    type V = ScanReplyModel;

    open spec fn view(&self) -> ScanReplyModel {
        match self {
            ScanReply::Listed(Ok(listing)) => ScanReplyModel::Listed(Ok(listing_model(listing@))),
            ScanReply::Listed(Err(error)) => ScanReplyModel::Listed(Err(error@)),
            ScanReply::Found(Ok(found)) => ScanReplyModel::Found(Ok(*found)),
            ScanReply::Found(Err(error)) => ScanReplyModel::Found(Err(error@)),
            ScanReply::Created(Ok(())) => ScanReplyModel::Created(Ok(())),
            ScanReply::Created(Err(error)) => ScanReplyModel::Created(Err(error@)),
            ScanReply::Measured(Ok(size)) => ScanReplyModel::Measured(Ok(*size)),
            ScanReply::Measured(Err(error)) => ScanReplyModel::Measured(Err(error@)),
        }
    }
}

/// Where a scan stands: what it has asked for and waits to hear of.
#[derive(Debug, Clone, Copy, PartialEq, Eq)]
pub enum Stage {
    /// The listing of the directory to index.
    Root,
    /// The listing of a collection's directory.
    Folder,
    /// Whether the collection's media folder exists.
    Sidecar,
    /// The creation of the collection's media folder.
    SidecarCreate,
    /// Whether a rom's box art exists.
    Boxart,
    /// The length of a rom's box art.
    BoxartSize,
    /// Nothing more.
    Finished,
}

/// Which listing is walked: that of the directory to index, in search of
/// collections, or that of a collection, in search of roms.
#[derive(Debug, Clone, Copy, PartialEq, Eq)]
pub enum Level {
    Root,
    Collection,
}

/// The progress of one scan. It holds the listings that are being walked, the
/// collection that is being filled and the rom whose box art is being looked for.
#[derive(Debug, PartialEq, Eq)]
pub struct Scan {
    stage: Stage,
    roots: Vec<Result<Entry, String>>,
    next_root: usize,
    folder: String,
    files: Vec<Result<Entry, String>>,
    next_file: usize,
    collection: Collection,
    rom: Rom,
    fatal: Option<String>,
}

/// What a `Scan` is, as contracts speak of it.
pub struct ScanModel {
    pub stage: Stage,
    /// The listing of the directory to index.
    pub roots: ListingModel,
    /// The first of `roots` that has not been looked at.
    pub next_root: int,
    /// The path of the collection that is being indexed.
    pub folder: Seq<char>,
    /// The listing of that collection's directory.
    pub files: ListingModel,
    /// The first of `files` that has not been looked at.
    pub next_file: int,
    /// The collection as far as it has been filled.
    pub collection: CollectionModel,
    /// The rom whose box art is being looked for.
    pub rom: RomModel,
    /// Why the scan failed as a whole, if it did.
    pub fatal: Option<Seq<char>>,
}

impl View for Scan {
    type V = ScanModel;

    closed spec fn view(&self) -> ScanModel {
        ScanModel {
            stage: self.stage,
            roots: listing_model(self.roots@),
            next_root: self.next_root as int,
            folder: self.folder@,
            files: listing_model(self.files@),
            next_file: self.next_file as int,
            collection: self.collection@,
            rom: self.rom@,
            fatal: match self.fatal {
                Some(error) => Some(error@),
                None => None,
            },
        }
    }
}

/// The media folder of the collection at `folder`.
pub open spec fn media_path(folder: Seq<char>) -> Seq<char> {
    folder + PATH_SEPARATOR@ + MEDIA_FOLDER@
}

/// Where the box art of the rom named `stem` lies, in the collection at `folder`.
pub open spec fn boxart_path(folder: Seq<char>, stem: Seq<char>) -> Seq<char> {
    media_path(folder) + PATH_SEPARATOR@ + stem + BOXART_EXTENSION@
}

/// Whether a walk stops at `listed`: at a directory when it looks for
/// collections, at a file with a stem when it looks for roms.
pub open spec fn wanted(level: Level, listed: Result<EntryModel, Seq<char>>) -> bool {
    match listed {
        Ok(entry) => match level {
            Level::Root => entry.kind == Ok::<EntryKind, Seq<char>>(EntryKind::Directory),
            Level::Collection => entry.kind == Ok::<EntryKind, Seq<char>>(EntryKind::File)
                && entry.stem is Some,
        },
        Err(_) => false,
    }
}

/// What is logged of an entry that a walk passes over: that it could not be
/// read, that its kind is not known, or, of a file among roms, that it has no
/// stem. Of any other entry nothing is logged.
pub open spec fn passed_over(level: Level, listed: Result<EntryModel, Seq<char>>) -> Seq<
    Seq<char>,
> {
    match listed {
        Err(error) => seq![ERROR_PREFIX_DIR_ENTRY@ + error],
        Ok(entry) => match entry.kind {
            Err(error) => seq![quoted_text(ERROR_PREFIX_DIR_TYPE@, entry.path, error)],
            Ok(kind) => if level == Level::Collection && kind == EntryKind::File
                && entry.stem is None {
                seq![ERROR_PREFIX_FILE_STEM@ + entry.path]
            } else {
                seq![]
            },
        },
    }
}

/// The place of the first entry at or behind `from` that a walk stops at; the
/// listing's length where there is none, and `from` where it lies behind the end.
pub open spec fn next_wanted(level: Level, listing: ListingModel, from: int) -> int
    decreases listing.len() - from,
{
    if from < 0 || from >= listing.len() {
        from
    } else if wanted(level, listing[from]) {
        from
    } else {
        next_wanted(level, listing, from + 1)
    }
}

/// What is logged of the entries from `from` up to `to`, in their order.
pub open spec fn logged_between(level: Level, listing: ListingModel, from: int, to: int) -> Seq<
    Seq<char>,
>
    decreases to - from,
{
    if to <= from || from < 0 || to > listing.len() {
        Seq::empty()
    } else {
        logged_between(level, listing, from, to - 1) + passed_over(level, listing[to - 1])
    }
}

impl ScanModel {
    /// A scan that has asked for the listing of the directory to index.
    pub open spec fn start() -> ScanModel {
        ScanModel {
            stage: Stage::Root,
            roots: Seq::empty(),
            next_root: 0,
            folder: Seq::empty(),
            files: Seq::empty(),
            next_file: 0,
            collection: CollectionModel::blank(),
            rom: RomModel { name: Seq::empty(), boxart_path: Seq::empty(), boxart_size: 0 },
            fatal: None,
        }
    }

    /// The collection that is being filled points at roms of `state` only, and so
    /// does every collection of its index.
    pub open spec fn fits(self, state: StateModel) -> bool {
        &&& state.index.wf()
        &&& self.collection.within(state.index.roms.len())
    }
}

/// The walk through the directory to index goes on from its entry `from`: what
/// is passed over is logged; at the next directory a collection is begun and its
/// listing asked for; at the end the empty collections leave the index and the
/// scan is over.
pub open spec fn seek_folder(state: StateModel, scan: ScanModel, from: int) -> (
    StateModel,
    ScanModel,
) {
    let stop = next_wanted(Level::Root, scan.roots, from);
    let errors = state.errors + logged_between(Level::Root, scan.roots, from, stop);
    if stop < scan.roots.len() {
        let entry = scan.roots[stop]->Ok_0;
        (
            StateModel { errors, ..state },
            ScanModel {
                stage: Stage::Folder,
                next_root: stop + 1,
                folder: entry.path,
                collection: CollectionModel { name: entry.name, rom_indices: Seq::empty() },
                ..scan
            },
        )
    } else {
        (
            StateModel {
                errors,
                index: IndexModel {
                    collections: non_empty(state.index.collections),
                    ..state.index
                },
                ..state
            },
            ScanModel { stage: Stage::Finished, next_root: stop, ..scan },
        )
    }
}

/// The walk through a collection's directory goes on from its entry `from`:
/// what is passed over is logged; at the next file with a stem a rom is begun and
/// its box art looked for; at the end the collection joins the index, none is
/// left in the making, and the walk through the directory to index goes on.
pub open spec fn seek_rom(state: StateModel, scan: ScanModel, from: int) -> (
    StateModel,
    ScanModel,
) {
    let stop = next_wanted(Level::Collection, scan.files, from);
    let errors = state.errors + logged_between(Level::Collection, scan.files, from, stop);
    if stop < scan.files.len() {
        let stem = scan.files[stop]->Ok_0.stem->Some_0;
        (
            StateModel { errors, ..state },
            ScanModel {
                stage: Stage::Boxart,
                next_file: stop + 1,
                rom: RomModel {
                    name: stem,
                    boxart_path: boxart_path(scan.folder, stem),
                    boxart_size: 0,
                },
                ..scan
            },
        )
    } else {
        seek_folder(
            StateModel {
                errors,
                index: IndexModel {
                    collections: state.index.collections.push(scan.collection),
                    ..state.index
                },
                ..state
            },
            ScanModel { next_file: stop, collection: CollectionModel::blank(), ..scan },
            scan.next_root,
        )
    }
}

/// The collection that is being indexed is given up for `cause`, which is logged
/// with the collection's path; the walk through the directory to index goes on.
pub open spec fn skip_folder(state: StateModel, scan: ScanModel, cause: Seq<char>) -> (
    StateModel,
    ScanModel,
) {
    seek_folder(
        state.logged(quoted_text(ERROR_PREFIX_INDEX_COLLECTION@, scan.folder, cause)),
        scan,
        scan.next_root,
    )
}

/// The rom whose box art was looked for joins the index and its collection, with
/// `size` as the length of its box art; the walk through the collection goes on.
pub open spec fn keep_rom(state: StateModel, scan: ScanModel, size: u64) -> (
    StateModel,
    ScanModel,
) {
    seek_rom(
        StateModel {
            index: IndexModel {
                roms: state.index.roms.push(RomModel { boxart_size: size, ..scan.rom }),
                ..state.index
            },
            ..state
        },
        ScanModel {
            collection: CollectionModel {
                rom_indices: scan.collection.rom_indices.push(state.index.roms.len() as usize),
                ..scan.collection
            },
            ..scan
        },
        scan.next_file,
    )
}

/// The rom whose box art was looked for is left out and `error` logged; the walk
/// through the collection goes on.
pub open spec fn skip_rom(state: StateModel, scan: ScanModel, error: Seq<char>) -> (
    StateModel,
    ScanModel,
) {
    seek_rom(state.logged(error), scan, scan.next_file)
}

/// What is logged where a box-art file that exists cannot be measured.
pub open spec fn unmeasured_text(path: Seq<char>) -> Seq<char> {
    ERROR_PREFIX_GET_METADATA@ + path + QUOTE@
}

/// What is logged where it cannot be found out whether a box-art file exists.
pub open spec fn unprobed_text(path: Seq<char>, error: Seq<char>) -> Seq<char> {
    ERROR_PREFIX_GET_METADATA@ + path + THEN_CAUSE@ + error + QUOTE@
}

/// One step of a scan: the state and the scan after `reply` has been heard. A
/// reply that does not answer what the scan waits for changes nothing.
pub open spec fn scan_step(state: StateModel, scan: ScanModel, reply: ScanReplyModel) -> (
    StateModel,
    ScanModel,
) {
    match (scan.stage, reply) {
        (Stage::Root, ScanReplyModel::Listed(Err(error))) => (
            state,
            ScanModel {
                stage: Stage::Finished,
                fatal: Some(quoted_text(ERROR_PREFIX_DIR_READ@, state.roms_folder, error)),
                ..scan
            },
        ),
        (Stage::Root, ScanReplyModel::Listed(Ok(listing))) => seek_folder(
            state,
            ScanModel { roots: listing, ..scan },
            0,
        ),
        (Stage::Folder, ScanReplyModel::Listed(Err(error))) => skip_folder(
            state,
            scan,
            quoted_text(ERROR_PREFIX_READ_COLLECTION@, scan.folder, error),
        ),
        (Stage::Folder, ScanReplyModel::Listed(Ok(listing))) => (
            state,
            ScanModel { stage: Stage::Sidecar, files: listing, next_file: 0, ..scan },
        ),
        (Stage::Sidecar, ScanReplyModel::Found(Ok(true))) => seek_rom(state, scan, 0),
        (Stage::Sidecar, ScanReplyModel::Found(_)) => (
            state,
            ScanModel { stage: Stage::SidecarCreate, ..scan },
        ),
        (Stage::SidecarCreate, ScanReplyModel::Created(Ok(()))) => seek_rom(state, scan, 0),
        (Stage::SidecarCreate, ScanReplyModel::Created(Err(error))) => skip_folder(
            state,
            scan,
            quoted_text(ERROR_PREFIX_MEDIA_DIR@, media_path(scan.folder), error),
        ),
        (Stage::Boxart, ScanReplyModel::Found(Ok(false))) => keep_rom(state, scan, 0),
        (Stage::Boxart, ScanReplyModel::Found(Ok(true))) => (
            state,
            ScanModel { stage: Stage::BoxartSize, ..scan },
        ),
        (Stage::Boxart, ScanReplyModel::Found(Err(error))) => skip_rom(
            state,
            scan,
            unprobed_text(scan.rom.boxart_path, error),
        ),
        (Stage::BoxartSize, ScanReplyModel::Measured(Ok(size))) => keep_rom(state, scan, size),
        (Stage::BoxartSize, ScanReplyModel::Measured(Err(_))) => skip_rom(
            state,
            scan,
            unmeasured_text(scan.rom.boxart_path),
        ),
        _ => (state, scan),
    }
}

/// What a scan waits for: the request that its next reply answers.
pub open spec fn scan_request(state: StateModel, scan: ScanModel) -> ScanRequestModel {
    match scan.stage {
        Stage::Root => ScanRequestModel::List(state.roms_folder),
        Stage::Folder => ScanRequestModel::List(scan.folder),
        Stage::Sidecar => ScanRequestModel::Exists(media_path(scan.folder)),
        Stage::SidecarCreate => ScanRequestModel::CreateDir(media_path(scan.folder)),
        Stage::Boxart => ScanRequestModel::Exists(scan.rom.boxart_path),
        Stage::BoxartSize => ScanRequestModel::Measure(scan.rom.boxart_path),
        Stage::Finished => ScanRequestModel::Done(
            match scan.fatal {
                Some(error) => Err(error),
                None => Ok(()),
            },
        ),
    }
}


impl Scan {
    /// A scan that has asked for the listing of the directory to index.
    pub fn new() -> (scan: Scan)
        ensures
            scan@ == ScanModel::start(),
    {
        let scan = Scan {
            stage: Stage::Root,
            roots: Vec::new(),
            next_root: 0,
            folder: String::new(),
            files: Vec::new(),
            next_file: 0,
            collection: Collection { name: String::new(), rom_indices: Vec::new() },
            rom: Rom { name: String::new(), boxart_path: String::new(), boxart_size: 0 },
            fatal: None,
        };
        assert(scan@.roots =~= Seq::empty());
        assert(scan@.files =~= Seq::empty());
        scan
    }

    /// Where the scan stands.
    pub fn stage(&self) -> (stage: Stage)
        ensures
            stage == self@.stage,
    {
        self.stage
    }
}

/// The path of the media folder of the collection at `folder`.
pub fn media_folder(folder: &String) -> (path: String)
    ensures
        path@ == media_path(folder@),
{
    let mut path = folder.clone();
    path.append(PATH_SEPARATOR);
    path.append(MEDIA_FOLDER);
    path
}

/// The path of the box art of the rom named `stem`, in the collection at `folder`.
pub fn boxart_file(folder: &String, stem: &String) -> (path: String)
    ensures
        path@ == boxart_path(folder@, stem@),
{
    let mut path = media_folder(folder);
    path.append(PATH_SEPARATOR);
    path.append(stem.as_str());
    path.append(BOXART_EXTENSION);
    path
}

/// Walks `entries` from `from` to the first entry that is wanted, logging in
/// `errors` what is to be said of those passed over.
fn seek(level: Level, entries: &Vec<Result<Entry, String>>, from: usize, errors: &mut Vec<String>)
    -> (stop: usize)
    ensures
        stop == next_wanted(level, listing_model(entries@), from as int),
        texts(final(errors)@) == texts(old(errors)@) + logged_between(
            level,
            listing_model(entries@),
            from as int,
            stop as int,
        ),
        from <= stop,
        stop < entries.len() ==> wanted(level, listing_model(entries@)[stop as int]),
{
    let ghost listing = listing_model(entries@);
    let mut at = from;
    assert(texts(errors@) =~= texts(errors@) + Seq::<Seq<char>>::empty());
    while at < entries.len()
        invariant
            from <= at,
            listing == listing_model(entries@),
            next_wanted(level, listing, from as int) == next_wanted(level, listing, at as int),
            texts(errors@) == texts(old(errors)@) + logged_between(
                level,
                listing,
                from as int,
                at as int,
            ),
        decreases entries.len() - at,
    {
        let ghost before = errors@;
        assert(listing[at as int] == listed_model(entries@[at as int]));
        match &entries[at] {
            Err(error) => {
                let text = Failure::DirEntry { error: error.clone() }.describe();
                proof {
                    lemma_texts_push(before, text);
                }
                errors.push(text);
            },
            Ok(entry) => match &entry.kind {
                Err(error) => {
                    let text = Failure::DirType {
                        path: entry.path.clone(),
                        error: error.clone(),
                    }.describe();
                    proof {
                        lemma_texts_push(before, text);
                    }
                    errors.push(text);
                },
                Ok(kind) => match level {
                    Level::Root => match kind {
                        EntryKind::Directory => {
                            return at;
                        },
                        _ => {},
                    },
                    Level::Collection => match kind {
                        EntryKind::File => {
                            if entry.stem.is_some() {
                                return at;
                            }
                            let text = Failure::FileStem { path: entry.path.clone() }.describe();
                            proof {
                                lemma_texts_push(before, text);
                            }
                            errors.push(text);
                        },
                        _ => {},
                    },
                },
            },
        }
        assert(!wanted(level, listing[at as int]));
        assert(texts(errors@) =~= texts(before) + passed_over(level, listing[at as int]));
        assert(texts(errors@) =~= texts(old(errors)@) + logged_between(
            level,
            listing,
            from as int,
            at + 1,
        ));
        at += 1;
    }
    at
}


/// Drops the empty collections, keeping the others in their order.
fn prune(collections: &mut Vec<Collection>)
    ensures
        collection_models(final(collections)@) == non_empty(collection_models(old(collections)@)),
{
    let ghost all = collection_models(collections@);
    let mut kept: Vec<Collection> = Vec::new();
    let mut at: usize = 0;
    assert(all.take(0) =~= Seq::empty());
    assert(collection_models(kept@) =~= Seq::empty());
    while at < collections.len()
        invariant
            at <= collections.len(),
            all.len() == collections.len(),
            forall|k: int| at <= k < all.len() ==> all[k] == (#[trigger] collections@[k])@,
            collection_models(kept@) == non_empty(all.take(at as int)),
        decreases collections.len() - at,
    {
        let mut taken = Collection { name: String::new(), rom_indices: Vec::new() };
        std::mem::swap(&mut collections[at], &mut taken);
        proof {
            assert(taken@ == all[at as int]);
            assert(all.take(at + 1).drop_last() =~= all.take(at as int));
            assert(all.take(at + 1).last() == all[at as int]);
            lemma_collection_models_push(kept@, taken);
        }
        if taken.rom_indices.len() != 0 {
            kept.push(taken);
        }
        at += 1;
    }
    assert(all.take(at as int) =~= all);
    *collections = kept;
}


impl State {
    /// Goes on through the directory to index from its entry `from`.
    fn seek_folder(&mut self, scan: &mut Scan, from: usize)
        ensures
            (final(self)@, final(scan)@) == seek_folder(old(self)@, old(scan)@, from as int),
    {
        let stop = seek(Level::Root, &scan.roots, from, &mut self.errors);
        if stop < scan.roots.len() {
            assert(scan@.roots[stop as int] == listed_model(scan.roots@[stop as int]));
            match &scan.roots[stop] {
                Ok(entry) => {
                    scan.folder = entry.path.clone();
                    scan.collection =
                    Collection { name: entry.name.clone(), rom_indices: Vec::new() };
                },
                Err(_) => {
                    assert(false);
                },
            }
            scan.next_root = stop + 1;
            scan.stage = Stage::Folder;
        } else {
            prune(&mut self.index.collections);
            scan.next_root = stop;
            scan.stage = Stage::Finished;
        }
    }

    /// Goes on through the directory of the collection from its entry `from`.
    fn seek_rom(&mut self, scan: &mut Scan, from: usize)
        ensures
            (final(self)@, final(scan)@) == seek_rom(old(self)@, old(scan)@, from as int),
    {
        let stop = seek(Level::Collection, &scan.files, from, &mut self.errors);
        if stop < scan.files.len() {
            assert(scan@.files[stop as int] == listed_model(scan.files@[stop as int]));
            match &scan.files[stop] {
                Ok(entry) => match &entry.stem {
                    Some(stem) => {
                        scan.rom =
                        Rom {
                            name: stem.clone(),
                            boxart_path: boxart_file(&scan.folder, stem),
                            boxart_size: 0,
                        };
                    },
                    None => {
                        assert(false);
                    },
                },
                Err(_) => {
                    assert(false);
                },
            }
            scan.next_file = stop + 1;
            scan.stage = Stage::Boxart;
        } else {
            let mut shelved = Collection { name: String::new(), rom_indices: Vec::new() };
            std::mem::swap(&mut scan.collection, &mut shelved);
            proof {
                lemma_collection_models_push(self.index.collections@, shelved);
            }
            self.index.collections.push(shelved);
            scan.next_file = stop;
            let onward = scan.next_root;
            self.seek_folder(scan, onward);
        }
    }

    /// Gives up the collection that is being indexed, for `cause`.
    fn skip_folder(&mut self, scan: &mut Scan, cause: String)
        ensures
            (final(self)@, final(scan)@) == skip_folder(old(self)@, old(scan)@, cause@),
    {
        let text = Failure::IndexCollection { path: scan.folder.clone(), cause }.describe();
        self.record(text);
        let onward = scan.next_root;
        self.seek_folder(scan, onward);
    }

    /// Takes the rom whose box art was looked for into the index.
    fn keep_rom(&mut self, scan: &mut Scan, size: u64)
        ensures
            (final(self)@, final(scan)@) == keep_rom(old(self)@, old(scan)@, size),
    {
        let place = self.index.roms.len();
        let rom = Rom {
            name: scan.rom.name.clone(),
            boxart_path: scan.rom.boxart_path.clone(),
            boxart_size: size,
        };
        proof {
            lemma_rom_models_push(self.index.roms@, rom);
        }
        self.index.roms.push(rom);
        scan.collection.rom_indices.push(place);
        let onward = scan.next_file;
        self.seek_rom(scan, onward);
    }

    /// Leaves out the rom whose box art was looked for, and logs `error`.
    fn skip_rom(&mut self, scan: &mut Scan, error: String)
        ensures
            (final(self)@, final(scan)@) == skip_rom(old(self)@, old(scan)@, error@),
    {
        self.record(error);
        let onward = scan.next_file;
        self.seek_rom(scan, onward);
    }
}


impl State {
    /// The request that `scan` waits to hear of.
    pub fn scan_request(&self, scan: &Scan) -> (request: ScanRequest)
        ensures
            request@ == scan_request(self@, scan@),
    {
        match scan.stage {
            Stage::Root => ScanRequest::List(self.roms_folder.clone()),
            Stage::Folder => ScanRequest::List(scan.folder.clone()),
            Stage::Sidecar => ScanRequest::Exists(media_folder(&scan.folder)),
            Stage::SidecarCreate => ScanRequest::CreateDir(media_folder(&scan.folder)),
            Stage::Boxart => ScanRequest::Exists(scan.rom.boxart_path.clone()),
            Stage::BoxartSize => ScanRequest::Measure(scan.rom.boxart_path.clone()),
            Stage::Finished => match &scan.fatal {
                Some(error) => ScanRequest::Done(Err(error.clone())),
                None => ScanRequest::Done(Ok(())),
            },
        }
    }

    /// One step of indexing a collection: hears `reply` on the collection's
    /// listing, on its media folder or on the box art of one of its roms.
    fn index_collection_folder(&mut self, scan: &mut Scan, reply: ScanReply)
        requires
            old(scan)@.stage != Stage::Root,
        ensures
            (final(self)@, final(scan)@) == scan_step(old(self)@, old(scan)@, reply@),
    {
        match scan.stage {
            Stage::Folder => match reply {
                ScanReply::Listed(Ok(listing)) => {
                    scan.files = listing;
                    scan.next_file = 0;
                    scan.stage = Stage::Sidecar;
                },
                ScanReply::Listed(Err(error)) => {
                    let cause = Failure::ReadCollection {
                        path: scan.folder.clone(),
                        error,
                    }.describe();
                    self.skip_folder(scan, cause);
                },
                _ => {},
            },
            Stage::Sidecar => match reply {
                ScanReply::Found(Ok(true)) => {
                    self.seek_rom(scan, 0);
                },
                ScanReply::Found(_) => {
                    scan.stage = Stage::SidecarCreate;
                },
                _ => {},
            },
            Stage::SidecarCreate => match reply {
                ScanReply::Created(Ok(())) => {
                    self.seek_rom(scan, 0);
                },
                ScanReply::Created(Err(error)) => {
                    let cause = Failure::MediaDir {
                        path: media_folder(&scan.folder),
                        error,
                    }.describe();
                    self.skip_folder(scan, cause);
                },
                _ => {},
            },
            Stage::Boxart => match reply {
                ScanReply::Found(Ok(false)) => {
                    self.keep_rom(scan, 0);
                },
                ScanReply::Found(Ok(true)) => {
                    scan.stage = Stage::BoxartSize;
                },
                ScanReply::Found(Err(error)) => {
                    let text = Failure::ProbeMetadata {
                        path: scan.rom.boxart_path.clone(),
                        error,
                    }.describe();
                    self.skip_rom(scan, text);
                },
                _ => {},
            },
            Stage::BoxartSize => match reply {
                ScanReply::Measured(Ok(size)) => {
                    self.keep_rom(scan, size);
                },
                ScanReply::Measured(Err(_)) => {
                    let text = Failure::GetMetadata {
                        path: scan.rom.boxart_path.clone(),
                    }.describe();
                    self.skip_rom(scan, text);
                },
                _ => {},
            },
            _ => {},
        }
    }

    /// One step of indexing the roms under `roms_folder`: hears `reply`, which
    /// answers the request that `scan` waited for, and returns the next request.
    ///
    /// The listing of `roms_folder` comes first. Where it cannot be had the scan
    /// is over and has failed as a whole; nothing else makes it fail. Each
    /// directory in it is a collection, each file with a stem in a collection's
    /// directory a rom of it. Whatever goes wrong with one entry is logged in
    /// `errors` and that entry left out. When the last collection is done, the
    /// empty ones leave the index.
    ///
    /// A scan that starts from a state with a valid index keeps it valid: after
    /// every step each place that a collection names is a rom of the index, and
    /// after the last step no collection is empty. What a scan comes to when
    /// every reply is true of one disk is stated in `crate::disk`.
    pub fn index_roms(&mut self, scan: &mut Scan, reply: ScanReply) -> (request: ScanRequest)
        ensures
            (final(self)@, final(scan)@) == scan_step(old(self)@, old(scan)@, reply@),
            request@ == scan_request(final(self)@, final(scan)@),
            scan_inv(old(self)@, old(scan)@) ==> scan_inv(final(self)@, final(scan)@),
    {
        match scan.stage {
            Stage::Root => match reply {
                ScanReply::Listed(Ok(listing)) => {
                    scan.roots = listing;
                    self.seek_folder(scan, 0);
                },
                ScanReply::Listed(Err(error)) => {
                    scan.fatal =
                    Some(
                        Failure::ReadDir { path: self.roms_folder.clone(), error }.describe(),
                    );
                    scan.stage = Stage::Finished;
                },
                _ => {},
            },
            _ => {
                self.index_collection_folder(scan, reply);
            },
        }
        let count = self.index.roms.len();
        proof {
            assert(self@.index.roms.len() == count);
            if scan_inv(old(self)@, old(scan)@) {
                lemma_scan_step_keeps_index_valid(old(self)@, old(scan)@, reply@);
            }
        }
        self.scan_request(scan)
    }
}

} // verus!
