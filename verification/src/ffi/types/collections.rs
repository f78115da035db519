//! The collections of the boundary: the counted array, and the map from
//! names to values in which the host keeps texts.

use vstd::prelude::*;
use std::sync::Arc;
use crate::ffi::types::std_types::Uint;
use crate::ffi::types::traits::{ShallowCopy, share};
use crate::ffi::utils::strings::str_eq;

verus! {

/// A counted sequence of items.
#[derive(Debug)]
pub struct Array<T> {
    data: Arc<Vec<T>>,
    len: Uint,
}

impl<T> View for Array<T> {
    type V = Seq<T>;

    closed spec fn view(&self) -> Seq<T> {
        self.data@
    }
}

impl<T> Array<T> {
    #[verifier::type_invariant]
    spec fn well_formed(self) -> bool {
        self.len == self.data@.len()
    }

    /// The array of the items of `vector`, in their order. The count of an
    /// array is a `Uint`, so the vector may not hold more than that.
    pub fn from_vec(vector: Vec<T>) -> (arr: Array<T>)
        requires
            vector@.len() <= Uint::MAX,
        ensures
            arr@ == vector@,
    {
        let len: Uint = vector.len() as Uint;
        Array { data: Arc::new(vector), len }
    }

    /// The number of items.
    pub fn len(&self) -> (n: Uint)
        ensures
            n == self@.len(),
    {
        proof {
            use_type_invariant(self);
        }
        self.len
    }

    /// The item at `i`.
    pub fn get(&self, i: Uint) -> (item: &T)
        requires
            i < self@.len(),
        ensures
            *item == self@[i as int],
    {
        &self.data[i as usize]
    }

    /// Lets go of the items: the array is empty afterwards.
    pub fn free_contents(&mut self)
        ensures
            final(self)@ == Seq::<T>::empty(),
    {
        *self = Array { data: Arc::new(Vec::new()), len: 0 };
    }
}

impl<T> ShallowCopy for Array<T> {
    fn shallow_copy(&self) -> (copy: Self) {
        proof {
            use_type_invariant(self);
        }
        Array { data: share(&self.data), len: self.len }
    }
}

/// Takes an array from its owner and releases it.
pub fn free_array<T>(arr: Array<T>) {
}

/// Pairs of a name and a value, as texts.
pub type Pairs = Seq<(Seq<char>, Seq<char>)>;

/// No name occurs twice among `pairs`.
pub open spec fn distinct_names(pairs: Pairs) -> bool {
    forall|i: int, j: int| 0 <= i < j < pairs.len() ==> pairs[i].0 != pairs[j].0
}

/// Some pair of `pairs` has the name `name`.
pub open spec fn has_name(pairs: Pairs, name: Seq<char>) -> bool {
    exists|i: int| 0 <= i < pairs.len() && pairs[i].0 == name
}

/// The map that pairs make when they are entered one after the other: a
/// later pair replaces an earlier one of the same name.
pub open spec fn map_of(pairs: Pairs) -> Map<Seq<char>, Seq<char>>
    decreases pairs.len(),
{
    if pairs.len() == 0 {
        Map::empty()
    } else {
        map_of(pairs.drop_last()).insert(pairs.last().0, pairs.last().1)
    }
}

/// The names of `map_of(pairs)` are the names that occur among `pairs`.
pub proof fn lemma_map_of_names(pairs: Pairs, name: Seq<char>)
    ensures
        map_of(pairs).contains_key(name) <==> has_name(pairs, name),
    decreases pairs.len(),
{
    if pairs.len() > 0 {
        let front = pairs.drop_last();
        lemma_map_of_names(front, name);
        if has_name(pairs, name) {
            let i = choose|i: int| 0 <= i < pairs.len() && pairs[i].0 == name;
            if i < front.len() {
                assert(front[i].0 == name);
            }
        }
        if has_name(front, name) {
            let i = choose|i: int| 0 <= i < front.len() && front[i].0 == name;
            assert(pairs[i].0 == name);
        }
        if pairs.last().0 == name {
            assert(pairs[pairs.len() - 1].0 == name);
        }
    }
}

/// The value of a name is the value of the last pair that has the name.
pub proof fn lemma_map_of_value(pairs: Pairs, i: int)
    requires
        0 <= i < pairs.len(),
        forall|j: int| i < j < pairs.len() ==> pairs[j].0 != pairs[i].0,
    ensures
        map_of(pairs).contains_key(pairs[i].0),
        map_of(pairs)[pairs[i].0] == pairs[i].1,
    decreases pairs.len(),
{
    if i < pairs.len() - 1 {
        let front = pairs.drop_last();
        assert(front[i] == pairs[i]);
        assert forall|j: int| i < j < front.len() implies front[j].0 != front[i].0 by {
            assert(front[j] == pairs[j]);
        }
        lemma_map_of_value(front, i);
        assert(pairs[pairs.len() - 1].0 != pairs[i].0);
    }
}

/// Where no name occurs twice, the map has as many entries as there are
/// pairs.
pub proof fn lemma_map_of_len(pairs: Pairs)
    requires
        distinct_names(pairs),
    ensures
        map_of(pairs).dom().finite(),
        map_of(pairs).dom().len() == pairs.len(),
    decreases pairs.len(),
{
    if pairs.len() > 0 {
        let front = pairs.drop_last();
        lemma_map_of_len(front);
        lemma_map_of_names(front, pairs.last().0);
        if has_name(front, pairs.last().0) {
            let i = choose|i: int| 0 <= i < front.len() && front[i].0 == pairs.last().0;
            assert(pairs[i].0 == pairs[pairs.len() - 1].0);
        }
    }
}

/// Entering a pair at the end enters it in the map.
pub proof fn lemma_map_of_push(pairs: Pairs, name: Seq<char>, value: Seq<char>)
    ensures
        map_of(pairs.push((name, value))) == map_of(pairs).insert(name, value),
{
    assert(pairs.push((name, value)).drop_last() =~= pairs);
}

/// Where no name occurs twice, giving the pair of a name a new value is
/// entering the name with that value.
pub proof fn lemma_map_of_update(pairs: Pairs, i: int, value: Seq<char>)
    requires
        distinct_names(pairs),
        0 <= i < pairs.len(),
    ensures
        map_of(pairs.update(i, (pairs[i].0, value))) == map_of(pairs).insert(pairs[i].0, value),
    decreases pairs.len(),
{
    let name = pairs[i].0;
    let updated = pairs.update(i, (name, value));
    let front = pairs.drop_last();
    if i == pairs.len() - 1 {
        assert(updated.drop_last() =~= front);
        assert(map_of(updated) =~= map_of(pairs).insert(name, value));
    } else {
        assert(front[i] == pairs[i]);
        assert(updated.drop_last() =~= front.update(i, (name, value)));
        lemma_map_of_update(front, i, value);
        assert(pairs.last().0 != name);
        assert(map_of(updated) =~= map_of(pairs).insert(name, value));
    }
}

/// The texts of the pairs that a map stores.
spec fn pairs_of(stored: Seq<(String, String)>) -> Pairs {
    stored.map_values(|e: (String, String)| (e.0@, e.1@))
}

/// A map from names to values, both texts, that keeps its entries in the
/// order in which their names were first entered.
#[derive(Debug)]
pub struct StringMap {
    entries: Vec<(String, String)>,
}

impl View for StringMap {
    type V = Map<Seq<char>, Seq<char>>;

    open spec fn view(&self) -> Map<Seq<char>, Seq<char>> {
        map_of(self.entries())
    }
}

impl StringMap {
    /// The entries, in the order in which their names were first entered.
    pub closed spec fn entries(&self) -> Pairs {
        pairs_of(self.entries@)
    }

    #[verifier::type_invariant]
    spec fn well_formed(self) -> bool {
        distinct_names(self.entries())
    }

    /// The map without entries.
    pub fn new() -> (map: StringMap)
        ensures
            map.entries() == Pairs::empty(),
            map@ == Map::<Seq<char>, Seq<char>>::empty(),
    {
        let map = StringMap { entries: Vec::new() };
        assert(map.entries() =~= Pairs::empty());
        map
    }

    /// The number of entries.
    pub fn len(&self) -> (n: usize)
        ensures
            n == self.entries().len(),
            n == self@.dom().len(),
            distinct_names(self.entries()),
    {
        proof {
            use_type_invariant(self);
            lemma_map_of_len(self.entries());
        }
        self.entries.len()
    }

    /// The entry at `i`, as name and value.
    pub fn entry(&self, i: usize) -> (pair: (&String, &String))
        requires
            i < self.entries().len(),
        ensures
            (pair.0@, pair.1@) == self.entries()[i as int],
    {
        (&self.entries[i].0, &self.entries[i].1)
    }

    /// The place of the entry named `name`.
    fn find(&self, name: &str) -> (place: Option<usize>)
        ensures
            place matches Some(i) ==> i < self.entries().len() && self.entries()[i as int].0
                == name@,
            place is None ==> !has_name(self.entries(), name@),
    {
        let mut i: usize = 0;
        while i < self.entries.len()
            invariant
                0 <= i <= self.entries().len(),
                self.entries().len() == self.entries@.len(),
                forall|j: int| 0 <= j < i ==> self.entries()[j].0 != name@,
            decreases self.entries().len() - i,
        {
            if str_eq(self.entries[i].0.as_str(), name) {
                return Some(i);
            }
            i += 1;
        }
        None
    }

    /// Whether an entry is named `name`.
    pub fn contains_key(&self, name: &str) -> (found: bool)
        ensures
            found == self@.contains_key(name@),
    {
        proof {
            lemma_map_of_names(self.entries(), name@);
        }
        self.find(name).is_some()
    }

    /// The value entered under `name`, if there is one.
    pub fn get(&self, name: &str) -> (value: Option<&String>)
        ensures
            value is Some <==> self@.contains_key(name@),
            value matches Some(v) ==> v@ == self@[name@],
    {
        proof {
            use_type_invariant(self);
            lemma_map_of_names(self.entries(), name@);
        }
        match self.find(name) {
            Some(i) => {
                proof {
                    lemma_map_of_value(self.entries(), i as int);
                }
                Some(&self.entries[i].1)
            },
            None => None,
        }
    }

    /// Enters `value` under `name`. A value that was there before is
    /// replaced, and the entry keeps its place; a new name goes to the end.
    pub fn insert(&mut self, name: String, value: String)
        ensures
            final(self)@ == old(self)@.insert(name@, value@),
            has_name(old(self).entries(), name@) ==> exists|i: int|
                0 <= i < old(self).entries().len() && old(self).entries()[i].0 == name@
                    && final(self).entries() == old(self).entries().update(i, (name@, value@)),
            !has_name(old(self).entries(), name@) ==> final(self).entries() == old(
                self,
            ).entries().push((name@, value@)),
    {
        proof {
            use_type_invariant(&*self);
        }
        let ghost before = self.entries();
        let place = self.find(name.as_str());
        let mut entries: Vec<(String, String)> = Vec::new();
        core::mem::swap(&mut self.entries, &mut entries);
        match place {
            Some(i) => {
                entries[i] = (name, value);
                proof {
                    assert(pairs_of(entries@) =~= before.update(i as int, (name@, value@)));
                    lemma_map_of_update(before, i as int, value@);
                }
                self.entries = entries;
            },
            None => {
                entries.push((name, value));
                proof {
                    assert(pairs_of(entries@) =~= before.push((name@, value@)));
                    lemma_map_of_push(before, name@, value@);
                }
                self.entries = entries;
            },
        }
    }
}

impl Clone for StringMap {
    /// A map of its own with the same entries in the same order.
    fn clone(&self) -> (copy: Self)
        ensures
            copy.entries() == self.entries(),
            copy@ == self@,
    {
        proof {
            use_type_invariant(self);
        }
        let mut entries: Vec<(String, String)> = Vec::new();
        let mut i: usize = 0;
        while i < self.entries.len()
            invariant
                0 <= i <= self.entries@.len(),
                entries@.len() == i,
                forall|j: int|
                    0 <= j < i ==> (#[trigger] entries@[j]).0@ == self.entries@[j].0@
                        && entries@[j].1@ == self.entries@[j].1@,
            decreases self.entries@.len() - i,
        {
            entries.push((self.entries[i].0.clone(), self.entries[i].1.clone()));
            i += 1;
        }
        assert(pairs_of(entries@) =~= self.entries());
        StringMap { entries }
    }
}

} // verus!
