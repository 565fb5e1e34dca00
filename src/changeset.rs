use vstd::prelude::*;
use crate::cell::{CellCoordinate, CellValue, CoordKey, Edit};

verus! {

/// The pending edits of one save: at most one edit per coordinate, the last
/// one written winning. Edits are kept in the order in which their coordinate
/// was first edited.
pub struct Changeset {
    entries: Vec<(CellCoordinate, Edit)>,
    model: Ghost<Map<CoordKey, CellValue>>,
}

impl View for Changeset {
    type V = Map<CoordKey, CellValue>;

    closed spec fn view(&self) -> Map<CoordKey, CellValue> {
        self.model@
    }
}

/// The index of the entry at `coord`'s position, if there is one.
fn position_of(entries: &Vec<(CellCoordinate, Edit)>, coord: &CellCoordinate) -> (r: Option<usize>)
    ensures
        match r {
            Some(i) => i < entries@.len() && entries@[i as int].0.key() == coord.key(),
            None => forall|m: int| 0 <= m < entries@.len() ==> entries@[m].0.key() != coord.key(),
        },
{
    let mut i: usize = 0;
    while i < entries.len()
        invariant
            0 <= i <= entries@.len(),
            forall|m: int| 0 <= m < i ==> entries@[m].0.key() != coord.key(),
        decreases entries@.len() - i,
    {
        if entries[i].0.same_position(coord) {
            return Some(i);
        }
        i = i + 1;
    }
    None
}

impl Changeset {
    #[verifier::type_invariant]
    spec fn well_formed(&self) -> bool {
        &&& forall|i: int, j: int|
            0 <= i < j < self.entries@.len() ==> self.entries@[i].0.key()
                != self.entries@[j].0.key()
        &&& forall|i: int|
            0 <= i < self.entries@.len() ==> {
                &&& #[trigger] self.model@.contains_key(self.entries@[i].0.key())
                &&& self.model@[self.entries@[i].0.key()] == self.entries@[i].1.new_value
            }
        &&& forall|k: CoordKey|
            #[trigger] self.model@.contains_key(k) ==> exists|i: int|
                0 <= i < self.entries@.len() && #[trigger] self.entries@[i].0.key() == k
    }

    /// The edit pending for a position, if any.
    pub open spec fn edit_at(&self, sheet: Seq<char>, row: int, col: int) -> Option<CellValue> {
        if self@.contains_key((sheet, row, col)) {
            Some(self@[(sheet, row, col)])
        } else {
            None
        }
    }

    /// `edits` holds every pending edit on the named sheet, each once, and nothing else.
    pub open spec fn lists_sheet_edits<'a>(
        &self,
        sheet: Seq<char>,
        edits: Seq<(&'a CellCoordinate, &'a Edit)>,
    ) -> bool {
        &&& forall|j: int|
            0 <= j < edits.len() ==> {
                &&& (#[trigger] edits[j]).0.sheet_name@ == sheet
                &&& self@.contains_key(edits[j].0.key())
                &&& self@[edits[j].0.key()] == edits[j].1.new_value
            }
        &&& forall|k: CoordKey|
            #[trigger] self@.contains_key(k) && k.0 == sheet ==> exists|j: int|
                0 <= j < edits.len() && #[trigger] edits[j].0.key() == k
        &&& forall|j1: int, j2: int|
            0 <= j1 < j2 < edits.len() ==> edits[j1].0.key() != edits[j2].0.key()
    }

    /// An empty changeset.
    pub fn new() -> (r: Changeset)
        ensures
            r@ == Map::<CoordKey, CellValue>::empty(),
    {
        Changeset { entries: Vec::new(), model: Ghost(Map::empty()) }
    }

    /// Records an edit, replacing any edit already pending for the same coordinate.
    pub fn insert(&mut self, coord: CellCoordinate, edit: Edit)
        ensures
            final(self)@ == old(self)@.insert(coord.key(), edit.new_value),
    {
        proof {
            use_type_invariant(&*self);
        }
        let mut taken = Changeset::new();
        std::mem::swap(self, &mut taken);
        proof {
            use_type_invariant(&taken);
        }
        let ghost old_model = taken.model@;
        let Changeset { entries, model: _ } = taken;
        let mut entries = entries;
        let ghost old_entries = entries@;
        let ghost new_model = old_model.insert(coord.key(), edit.new_value);
        let found = position_of(&entries, &coord);
        if let Some(i) = found {
            entries.set(i, (coord, edit));
            assert forall|k: CoordKey| #[trigger] new_model.contains_key(k) implies exists|m: int|
                0 <= m < entries@.len() && #[trigger] entries@[m].0.key() == k by {
                if k != old_entries[i as int].0.key() {
                    let m = choose|m: int|
                        0 <= m < old_entries.len() && #[trigger] old_entries[m].0.key() == k;
                    assert(entries@[m].0.key() == k);
                } else {
                    assert(entries@[i as int].0.key() == k);
                }
            }
        } else {
            entries.push((coord, edit));
            assert forall|k: CoordKey| #[trigger] new_model.contains_key(k) implies exists|m: int|
                0 <= m < entries@.len() && #[trigger] entries@[m].0.key() == k by {
                if k != entries@[old_entries.len() as int].0.key() {
                    let m = choose|m: int|
                        0 <= m < old_entries.len() && #[trigger] old_entries[m].0.key() == k;
                    assert(entries@[m].0.key() == k);
                }
            }
        }
        *self = Changeset { entries, model: Ghost(new_model) };
    }

    /// Every pending edit whose coordinate lies on the named sheet, each once,
    /// in the changeset's order. The changeset is left as it is.
    pub fn edits_for_sheet<'a>(&'a self, sheet_name: &String) -> (r: Vec<(&'a CellCoordinate, &'a Edit)>)
        ensures
            self.lists_sheet_edits(sheet_name@, r@),
    {
        proof {
            use_type_invariant(self);
        }
        let mut out: Vec<(&'a CellCoordinate, &'a Edit)> = Vec::new();
        let ghost mut idx: Seq<int> = Seq::empty();
        let mut i: usize = 0;
        while i < self.entries.len()
            invariant
                0 <= i <= self.entries@.len(),
                idx.len() == out@.len(),
                forall|j1: int, j2: int|
                    0 <= j1 < j2 < self.entries@.len() ==> self.entries@[j1].0.key()
                        != self.entries@[j2].0.key(),
                forall|j: int|
                    0 <= j < out@.len() ==> {
                        &&& 0 <= #[trigger] idx[j] < i
                        &&& *out@[j].0 == self.entries@[idx[j]].0
                        &&& *out@[j].1 == self.entries@[idx[j]].1
                        &&& out@[j].0.sheet_name@ == sheet_name@
                    },
                forall|j1: int, j2: int| 0 <= j1 < j2 < out@.len() ==> idx[j1] < idx[j2],
                forall|m: int|
                    0 <= m < i && (#[trigger] self.entries@[m]).0.sheet_name@ == sheet_name@
                        ==> exists|j: int| 0 <= j < out@.len() && idx[j] == m,
            decreases self.entries@.len() - i,
        {
            let entry = &self.entries[i];
            if entry.0.sheet_name == *sheet_name {
                let ghost before = idx;
                out.push((&entry.0, &entry.1));
                proof {
                    idx = idx.push(i as int);
                    assert forall|m: int|
                        0 <= m < i + 1 && (#[trigger] self.entries@[m]).0.sheet_name@ == sheet_name@
                            implies exists|j: int| 0 <= j < out@.len() && idx[j] == m by {
                        if m == i {
                            assert(idx[before.len() as int] == m);
                        } else {
                            let j = choose|j: int| 0 <= j < before.len() && before[j] == m;
                            assert(idx[j] == m);
                        }
                    }
                }
            }
            i = i + 1;
        }
        proof {
            assert forall|k: CoordKey| #[trigger] self@.contains_key(k) && k.0 == sheet_name@ implies exists|j: int|
                0 <= j < out@.len() && #[trigger] out@[j].0.key() == k by {
                let m = choose|m: int|
                    0 <= m < self.entries@.len() && #[trigger] self.entries@[m].0.key() == k;
                assert(self.entries@[m].0.sheet_name@ == sheet_name@);
                let j = choose|j: int| 0 <= j < out@.len() && idx[j] == m;
                assert(out@[j].0.key() == k);
            }
            assert forall|j: int| 0 <= j < out@.len() implies {
                &&& (#[trigger] out@[j]).0.sheet_name@ == sheet_name@
                &&& self@.contains_key(out@[j].0.key())
                &&& self@[out@[j].0.key()] == out@[j].1.new_value
            } by {
                assert(self.model@.contains_key(self.entries@[idx[j]].0.key()));
            }
            assert forall|j1: int, j2: int| 0 <= j1 < j2 < out@.len() implies out@[j1].0.key() != out@[j2].0.key() by {
                assert(idx[j1] < idx[j2]);
            }
        }
        out
    }
}

} // verus!
