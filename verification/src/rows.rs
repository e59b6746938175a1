//! The rows of a list of roms: the roms of the index among the places asked
//! for, in the order of their names.

use vstd::prelude::*;
use crate::index::{RomModel, State};

verus! {

/// Whether `first` stands before `second` in a dictionary that orders the
/// characters by their code points, or is the same text.
pub open spec fn text_le(first: Seq<char>, second: Seq<char>) -> bool
    decreases first.len(),
{
    if first.len() == 0 {
        true
    } else if second.len() == 0 {
        false
    } else if first[0] == second[0] {
        text_le(first.drop_first(), second.drop_first())
    } else {
        (first[0] as u32) < (second[0] as u32)
    }
}

/// Compares with `<=` on `str`, std's `PartialOrd::le`. std orders strings by
/// their bytes, one after the other, and documents that this is the order of the
/// code points; a text stands behind each of its proper beginnings.
#[verifier::external_body]
fn name_le(first: &str, second: &str) -> (le: bool)
    ensures
        le == text_le(first@, second@),
{
    first <= second
}

pub proof fn lemma_text_le_reflexive(text: Seq<char>)
    ensures
        text_le(text, text),
    decreases text.len(),
{
    if text.len() > 0 {
        lemma_text_le_reflexive(text.drop_first());
    }
}

pub proof fn lemma_text_le_total(first: Seq<char>, second: Seq<char>)
    ensures
        text_le(first, second) || text_le(second, first),
    decreases first.len(),
{
    if first.len() > 0 && second.len() > 0 {
        if first[0] == second[0] {
            lemma_text_le_total(first.drop_first(), second.drop_first());
        } else {
            vstd::utf8::char_u32_cast(first[0], first[0] as u32);
            vstd::utf8::char_u32_cast(second[0], second[0] as u32);
        }
    }
}

pub proof fn lemma_text_le_transitive(first: Seq<char>, second: Seq<char>, third: Seq<char>)
    requires
        text_le(first, second),
        text_le(second, third),
    ensures
        text_le(first, third),
    decreases first.len(),
{
    if first.len() > 0 && second.len() > 0 && third.len() > 0 && first[0] == second[0]
        && second[0] == third[0] {
        lemma_text_le_transitive(first.drop_first(), second.drop_first(), third.drop_first());
    }
}

/// The places of `rom_indices` that lie among `count` roms, in their order.
pub open spec fn known_places(rom_indices: Seq<usize>, count: nat) -> Seq<usize>
    decreases rom_indices.len(),
{
    if rom_indices.len() == 0 {
        Seq::empty()
    } else if rom_indices.last() < count {
        known_places(rom_indices.drop_last(), count).push(rom_indices.last())
    } else {
        known_places(rom_indices.drop_last(), count)
    }
}

/// The name of the rom at `place`.
pub open spec fn name_at(roms: Seq<RomModel>, place: usize) -> Seq<char> {
    roms[place as int].name
}

/// Whether `rows` are `places` sorted by the names of their roms, places with
/// the same name in the order they had. `origin` says for each row where in
/// `places` it comes from.
pub open spec fn rows_sort(
    roms: Seq<RomModel>,
    places: Seq<usize>,
    rows: Seq<usize>,
    origin: Seq<int>,
) -> bool {
    &&& rows.len() == places.len()
    &&& origin.len() == places.len()
    &&& forall|k: int|
        0 <= k < rows.len() ==> 0 <= #[trigger] origin[k] < places.len() && rows[k]
            == places[origin[k]]
    &&& forall|i: int, j: int|
        0 <= i < j < rows.len() ==> {
            &&& #[trigger] origin[i] != #[trigger] origin[j]
            &&& text_le(name_at(roms, rows[i]), name_at(roms, rows[j]))
            &&& name_at(roms, rows[i]) == name_at(roms, rows[j]) ==> origin[i] < origin[j]
        }
}

impl State {
    /// The rows of a list of the roms at `rom_indices`: each place that is a rom
    /// of the index, once for each time it is asked for, sorted by the rom's name.
    /// Roms of the same name keep the order in which they were asked for. A place
    /// that is no rom of the index gets no row.
    pub fn rom_rows(&self, rom_indices: &Vec<usize>) -> (rows: Vec<usize>)
        ensures
            exists|origin: Seq<int>|
                rows_sort(
                    self@.index.roms,
                    known_places(rom_indices@, self@.index.roms.len()),
                    rows@,
                    origin,
                ),
            forall|k: int| 0 <= k < rows.len() ==> (#[trigger] rows[k]) < self.index.roms.len(),
    {
        let ghost roms = self@.index.roms;
        let ghost count = roms.len();
        let mut rows: Vec<usize> = Vec::new();
        let ghost mut origin: Seq<int> = Seq::empty();
        let mut at: usize = 0;
        assert(rom_indices@.take(0) =~= Seq::empty());
        while at < rom_indices.len()
            invariant
                at <= rom_indices.len(),
                roms == self@.index.roms,
                count == self.index.roms.len(),
                rows_sort(roms, known_places(rom_indices@.take(at as int), count), rows@, origin),
                forall|k: int| 0 <= k < rows.len() ==> (#[trigger] rows[k]) < count,
            decreases rom_indices.len() - at,
        {
            let place = rom_indices[at];
            let ghost places = known_places(rom_indices@.take(at as int), count);
            proof {
                assert(rom_indices@.take(at + 1).drop_last() =~= rom_indices@.take(at as int));
                assert(rom_indices@.take(at + 1).last() == place);
            }
            if place < self.index.roms.len() {
                let mut before: usize = rows.len();
                while before > 0 && !name_le(
                    self.index.roms[rows[before - 1]].name.as_str(),
                    self.index.roms[place].name.as_str(),
                )
                    invariant
                        before <= rows.len(),
                        place < count,
                        roms == self@.index.roms,
                        count == self.index.roms.len(),
                        forall|k: int| 0 <= k < rows.len() ==> (#[trigger] rows[k]) < count,
                        forall|k: int|
                            before <= k < rows.len() ==> !text_le(
                                name_at(roms, #[trigger] rows[k]),
                                name_at(roms, place),
                            ),
                    decreases before,
                {
                    before -= 1;
                }
                let ghost sorted = rows@;
                let ghost came = origin;
                rows.insert(before, place);
                proof {
                    origin = came.insert(before as int, places.len() as int);
                    let grown = places.push(place);
                    assert forall|k: int| 0 <= k < rows.len() implies 0 <= #[trigger] origin[k]
                        < grown.len() && rows[k] == grown[origin[k]] by {
                        if k < before {
                            assert(origin[k] == came[k]);
                        } else if k > before {
                            assert(origin[k] == came[k - 1]);
                            assert(rows[k] == sorted[k - 1]);
                        }
                    }
                    assert forall|i: int, j: int| 0 <= i < j < rows.len() implies {
                        &&& #[trigger] origin[i] != #[trigger] origin[j]
                        &&& text_le(name_at(roms, rows[i]), name_at(roms, rows[j]))
                        &&& name_at(roms, rows[i]) == name_at(roms, rows[j]) ==> origin[i]
                            < origin[j]
                    } by {
                        let low = if i < before { i } else { i - 1 };
                        let high = if j < before { j } else { j - 1 };
                        if i != before {
                            assert(origin[i] == came[low] && rows[i] == sorted[low]);
                        }
                        if j != before {
                            assert(origin[j] == came[high] && rows[j] == sorted[high]);
                        }
                        if j == before {
                            assert(text_le(name_at(roms, sorted[before - 1]), name_at(roms, place)));
                            if i < before - 1 {
                                lemma_text_le_transitive(
                                    name_at(roms, sorted[i]),
                                    name_at(roms, sorted[before - 1]),
                                    name_at(roms, place),
                                );
                            }
                        } else if i == before {
                            assert(!text_le(name_at(roms, sorted[high]), name_at(roms, place)));
                            lemma_text_le_total(name_at(roms, sorted[high]), name_at(roms, place));
                            lemma_text_le_reflexive(name_at(roms, place));
                        }
                    }
                }
            }
            at += 1;
        }
        assert(rom_indices@.take(at as int) =~= rom_indices@);
        rows
    }
}

} // verus!
