//! A small map from text to text that remembers the order in which its keys
//! arrived.

use vstd::prelude::*;

verus! {

/// The index of the first entry of `entries` whose key is `key`, if there is
/// one.
pub open spec fn position_of(entries: Seq<(Seq<char>, Seq<char>)>, key: Seq<char>) -> Option<
    int,
>
    decreases entries.len(),
{
    if entries.len() == 0 {
        None
    } else {
        match position_of(entries.drop_last(), key) {
            Some(i) => Some(i),
            None => if entries.last().0 == key {
                Some(entries.len() - 1)
            } else {
                None
            },
        }
    }
}

/// Whether no key occurs twice in `entries`.
pub open spec fn distinct_keys(entries: Seq<(Seq<char>, Seq<char>)>) -> bool {
    forall|i: int, j: int|
        0 <= i < j < entries.len() ==> (#[trigger] entries[i]).0 != (#[trigger] entries[j]).0
}

/// Where `position_of` finds a key there is one, and nowhere before; where it
/// finds none there is none.
pub proof fn lemma_position_of(entries: Seq<(Seq<char>, Seq<char>)>, key: Seq<char>)
    ensures
        match position_of(entries, key) {
            Some(i) => 0 <= i < entries.len() && entries[i].0 == key && forall|j: int|
                0 <= j < i ==> (#[trigger] entries[j]).0 != key,
            None => forall|j: int| 0 <= j < entries.len() ==> (#[trigger] entries[j]).0 != key,
        },
    decreases entries.len(),
{
    if entries.len() > 0 {
        lemma_position_of(entries.drop_last(), key);
        let front = entries.drop_last();
        assert forall|j: int| 0 <= j < front.len() implies front[j] == entries[j] by {}
        match position_of(front, key) {
            Some(i) => {
                assert forall|j: int| 0 <= j < i implies (#[trigger] entries[j]).0 != key by {
                    assert(front[j].0 != key);
                }
            },
            None => {
                assert forall|j: int| 0 <= j < front.len() implies (#[trigger] entries[j]).0
                    != key by {
                    assert(front[j].0 != key);
                }
            },
        }
    }
}

/// A map from text to text. No key occurs twice, and the entries keep the
/// order in which their keys were first inserted.
#[derive(Clone, Debug)]
pub struct TextMap {
    entries: Vec<(String, String)>,
}

impl View for TextMap {
    type V = Seq<(Seq<char>, Seq<char>)>;

    /// The entries in order, key first.
    closed spec fn view(&self) -> Seq<(Seq<char>, Seq<char>)> {
        Seq::new(self.entries.len() as nat, |i: int| (self.entries[i].0@, self.entries[i].1@))
    }
}

impl TextMap {
    /// The invariant of the type: no key occurs twice. [`TextMap::new`]
    /// establishes it and [`TextMap::insert`] keeps it.
    pub open spec fn inv(&self) -> bool {
        distinct_keys(self@)
    }

    /// The empty map.
    pub fn new() -> (r: Self)
        ensures
            r@ == Seq::<(Seq<char>, Seq<char>)>::empty(),
            r.inv(),
    {
        let r = TextMap { entries: Vec::new() };
        assert(r@ =~= Seq::<(Seq<char>, Seq<char>)>::empty());
        r
    }

    /// Number of entries.
    pub fn len(&self) -> (n: usize)
        ensures
            n == self@.len(),
    {
        self.entries.len()
    }

    /// Key of the entry at `index`.
    pub fn key_at(&self, index: usize) -> (r: &String)
        requires
            index < self@.len(),
        ensures
            r@ == self@[index as int].0,
    {
        &self.entries[index].0
    }

    /// Value of the entry at `index`.
    pub fn value_at(&self, index: usize) -> (r: &String)
        requires
            index < self@.len(),
        ensures
            r@ == self@[index as int].1,
    {
        &self.entries[index].1
    }

    fn find(&self, key: &str) -> (r: Option<usize>)
        ensures
            match r {
                Some(i) => position_of(self@, key@) == Some(i as int),
                None => position_of(self@, key@) is None,
            },
    {
        let mut i: usize = 0;
        while i < self.entries.len()
            invariant
                i <= self.entries.len(),
                position_of(self@.take(i as int), key@) is None,
            decreases self.entries.len() - i,
        {
            let ghost next = self@.take(i as int + 1);
            assert(next.drop_last() =~= self@.take(i as int));
            assert(next.last() == self@[i as int]);
            if crate::text::same_text(self.entries[i].0.as_str(), key) {
                proof {
                    lemma_found_stays(self@, key@, i as int + 1);
                }
                return Some(i);
            }
            i = i + 1;
        }
        assert(self@.take(i as int) =~= self@);
        None
    }

    /// The value stored under `key`, if there is one.
    pub fn get(&self, key: &str) -> (r: Option<&String>)
        ensures
            match position_of(self@, key@) {
                Some(i) => r is Some && r->Some_0@ == self@[i].1,
                None => r is None,
            },
    {
        proof {
            lemma_position_of(self@, key@);
        }
        match self.find(key) {
            Some(i) => Some(&self.entries[i].1),
            None => None,
        }
    }

    /// Stores `value` under `key`: in place of the value that the key had, or
    /// as a new last entry.
    pub fn insert(&mut self, key: String, value: String)
        requires
            old(self).inv(),
        ensures
            final(self).inv(),
            match position_of(old(self)@, key@) {
                Some(i) => final(self)@ == old(self)@.update(i, (key@, value@)),
                None => final(self)@ == old(self)@.push((key@, value@)),
            },
    {
        proof {
            lemma_position_of(self@, key@);
        }
        let ghost before = self@;
        match self.find(key.as_str()) {
            Some(i) => {
                let ghost k = key@;
                let ghost v = value@;
                self.entries.set(i, (key, value));
                assert(self@ =~= before.update(i as int, (k, v)));
                assert(distinct_keys(self@)) by {
                    assert forall|a: int, b: int| 0 <= a < b < self@.len() implies (
                    #[trigger] self@[a]).0 != (#[trigger] self@[b]).0 by {
                        assert(before[a].0 != before[b].0);
                    }
                }
            },
            None => {
                let ghost k = key@;
                let ghost v = value@;
                self.entries.push((key, value));
                assert(self@ =~= before.push((k, v)));
                assert(distinct_keys(self@)) by {
                    assert forall|a: int, b: int| 0 <= a < b < self@.len() implies (
                    #[trigger] self@[a]).0 != (#[trigger] self@[b]).0 by {
                        if b < before.len() {
                            assert(before[a].0 != before[b].0);
                        } else {
                            assert(before[a].0 != k);
                        }
                    }
                }
            },
        }
    }
}

/// A key found among the first entries is what a search of all entries finds.
pub proof fn lemma_found_stays(entries: Seq<(Seq<char>, Seq<char>)>, key: Seq<char>, upto: int)
    requires
        0 < upto <= entries.len(),
        position_of(entries.take(upto - 1), key) is None,
        entries[upto - 1].0 == key,
    ensures
        position_of(entries, key) == Some(upto - 1),
    decreases entries.len() - upto,
{
    let head = entries.take(upto);
    assert(head.drop_last() =~= entries.take(upto - 1));
    assert(position_of(head, key) == Some(upto - 1));
    if upto < entries.len() {
        lemma_prefix_position(entries, key, upto);
    } else {
        assert(head =~= entries);
    }
}

/// A key found among the first `upto` entries is found at the same place among
/// all of them.
pub proof fn lemma_prefix_position(entries: Seq<(Seq<char>, Seq<char>)>, key: Seq<char>, upto: int)
    requires
        0 <= upto <= entries.len(),
        position_of(entries.take(upto), key) is Some,
    ensures
        position_of(entries, key) == position_of(entries.take(upto), key),
    decreases entries.len() - upto,
{
    if upto < entries.len() {
        let longer = entries.take(upto + 1);
        assert(longer.drop_last() =~= entries.take(upto));
        lemma_prefix_position(entries, key, upto + 1);
    } else {
        assert(entries.take(upto) =~= entries);
    }
}

} // verus!
