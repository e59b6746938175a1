//! The index of one scan and the state that a session carries from view to view.

use vstd::prelude::*;

verus! {

/// What a `Rom` is, as contracts speak of it.
pub struct RomModel {
    pub name: Seq<char>,
    pub boxart_path: Seq<char>,
    pub boxart_size: u64,
}

/// What a `Collection` is, as contracts speak of it.
pub struct CollectionModel {
    pub name: Seq<char>,
    pub rom_indices: Seq<usize>,
}

/// What an `Index` is, as contracts speak of it.
pub struct IndexModel {
    pub roms: Seq<RomModel>,
    pub collections: Seq<CollectionModel>,
}

/// What a `State` is, as contracts speak of it.
pub struct StateModel {
    pub roms_folder: Seq<char>,
    pub index: IndexModel,
    pub errors: Seq<Seq<char>>,
}

/// One indexed file. `boxart_size` is the length of its box art in bytes, 0
/// where it has none.
#[derive(Debug, Clone, PartialEq, Eq)]
pub struct Rom {
    pub name: String,
    pub boxart_path: String,
    pub boxart_size: u64,
}

/// A named group of roms, each given by its place in the index.
#[derive(Debug, Clone, PartialEq, Eq)]
pub struct Collection {
    pub name: String,
    pub rom_indices: Vec<usize>,
}

/// All that one scan found: the roms in the order they were met, and the
/// collections that hold them.
#[derive(Debug, Clone, PartialEq, Eq)]
pub struct Index {
    pub roms: Vec<Rom>,
    pub collections: Vec<Collection>,
}

/// What a session knows: the directory it indexes, the index, and every error
/// met so far, oldest first.
#[derive(Debug, Clone, PartialEq, Eq)]
pub struct State {
    pub roms_folder: String,
    pub index: Index,
    pub errors: Vec<String>,
}

/// The contents of each text of `texts`.
pub open spec fn texts(texts: Seq<String>) -> Seq<Seq<char>> {
    texts.map_values(|text: String| text@)
}

pub open spec fn rom_models(roms: Seq<Rom>) -> Seq<RomModel> {
    roms.map_values(|rom: Rom| rom@)
}

pub open spec fn collection_models(collections: Seq<Collection>) -> Seq<CollectionModel> {
    collections.map_values(|collection: Collection| collection@)
}

impl View for Rom {
    type V = RomModel;

    open spec fn view(&self) -> RomModel {
        RomModel {
            name: self.name@,
            boxart_path: self.boxart_path@,
            boxart_size: self.boxart_size,
        }
    }
}

impl View for Collection {
    type V = CollectionModel;

    open spec fn view(&self) -> CollectionModel {
        CollectionModel { name: self.name@, rom_indices: self.rom_indices@ }
    }
}

impl View for Index {
    type V = IndexModel;

    open spec fn view(&self) -> IndexModel {
        IndexModel {
            roms: rom_models(self.roms@),
            collections: collection_models(self.collections@),
        }
    }
}

impl View for State {
    type V = StateModel;

    open spec fn view(&self) -> StateModel {
        StateModel {
            roms_folder: self.roms_folder@,
            index: self.index@,
            errors: texts(self.errors@),
        }
    }
}

impl CollectionModel {
    /// Every rom of the collection has a place among `count` roms.
    pub open spec fn within(self, count: nat) -> bool {
        forall|k: int| 0 <= k < self.rom_indices.len() ==> #[trigger] self.rom_indices[k] < count
    }

    pub open spec fn is_empty(self) -> bool {
        self.rom_indices.len() == 0
    }

    /// A collection without a name or a rom: what stands where none is in the making.
    pub open spec fn blank() -> CollectionModel {
        CollectionModel { name: Seq::empty(), rom_indices: Seq::empty() }
    }
}

impl IndexModel {
    pub open spec fn empty() -> IndexModel {
        IndexModel { roms: Seq::empty(), collections: Seq::empty() }
    }

    /// No collection points outside the roms.
    pub open spec fn wf(self) -> bool {
        forall|c: int|
            0 <= c < self.collections.len() ==> (#[trigger] self.collections[c]).within(
                self.roms.len(),
            )
    }

    /// No collection is empty.
    pub open spec fn pruned(self) -> bool {
        forall|c: int| 0 <= c < self.collections.len() ==> !(#[trigger] self.collections[c]).is_empty()
    }
}

impl StateModel {
    /// The state a session starts from: nothing indexed, nothing gone wrong.
    pub open spec fn fresh(roms_folder: Seq<char>) -> StateModel {
        StateModel { roms_folder, index: IndexModel::empty(), errors: Seq::empty() }
    }

    /// This state with `error` logged last.
    pub open spec fn logged(self, error: Seq<char>) -> StateModel {
        StateModel { errors: self.errors.push(error), ..self }
    }
}

/// The collections of `collections` that hold a rom, in their order.
pub open spec fn non_empty(collections: Seq<CollectionModel>) -> Seq<CollectionModel>
    decreases collections.len(),
{
    if collections.len() == 0 {
        Seq::empty()
    } else if collections.last().is_empty() {
        non_empty(collections.drop_last())
    } else {
        non_empty(collections.drop_last()).push(collections.last())
    }
}

impl Index {
    /// An index of nothing.
    pub fn new() -> (index: Index)
        ensures
            index@ == IndexModel::empty(),
    {
        let index = Index { roms: Vec::new(), collections: Vec::new() };
        assert(index@.roms =~= Seq::empty());
        assert(index@.collections =~= Seq::empty());
        index
    }
}

impl Default for Index {
    fn default() -> (index: Index)
        ensures
            index@ == IndexModel::empty(),
    {
        Index::new()
    }
}

impl State {
    /// The state a session starts from, given the directory to index.
    pub fn new(roms_folder: String) -> (state: State)
        ensures
            state@ == StateModel::fresh(roms_folder@),
    {
        let state = State { roms_folder, index: Index::new(), errors: Vec::new() };
        assert(state@.errors =~= Seq::empty());
        state
    }

    /// Logs `error` behind the errors met so far.
    pub fn record(&mut self, error: String)
        ensures
            final(self)@ == old(self)@.logged(error@),
    {
        self.errors.push(error);
        assert(texts(self.errors@) =~= texts(old(self).errors@).push(error@));
    }
}

/// Pushing a text onto a list pushes its contents onto the list's contents.
pub proof fn lemma_texts_push(list: Seq<String>, text: String)
    ensures
        texts(list.push(text)) == texts(list).push(text@),
{
    assert(texts(list.push(text)) =~= texts(list).push(text@));
}

pub proof fn lemma_rom_models_push(roms: Seq<Rom>, rom: Rom)
    ensures
        rom_models(roms.push(rom)) == rom_models(roms).push(rom@),
{
    assert(rom_models(roms.push(rom)) =~= rom_models(roms).push(rom@));
}

pub proof fn lemma_collection_models_push(collections: Seq<Collection>, collection: Collection)
    ensures
        collection_models(collections.push(collection)) == collection_models(collections).push(
            collection@,
        ),
{
    assert(collection_models(collections.push(collection)) =~= collection_models(
        collections,
    ).push(collection@));
}

} // verus!
