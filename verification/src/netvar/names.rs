//! A map from field keys to machine words, in which a later write of a key
//! replaces the earlier one.

use vstd::prelude::*;
use vstd::string::*;

verus! {

/// The map that a sequence of writes leaves behind when they are applied to
/// `start` in order: of two writes of one key, the later one stays.
pub open spec fn write_all(start: Map<Seq<char>, usize>, writes: Seq<(Seq<char>, usize)>) -> Map<
    Seq<char>,
    usize,
>
    decreases writes.len(),
{
    if writes.len() == 0 {
        start
    } else {
        write_all(start, writes.drop_last()).insert(writes.last().0, writes.last().1)
    }
}

/// Writing `a + b` is writing `a` and then `b`.
pub proof fn lemma_write_all_concat(
    start: Map<Seq<char>, usize>,
    a: Seq<(Seq<char>, usize)>,
    b: Seq<(Seq<char>, usize)>,
)
    ensures
        write_all(start, a + b) == write_all(write_all(start, a), b),
    decreases b.len(),
{
    if b.len() == 0 {
        assert(a + b =~= a);
    } else {
        lemma_write_all_concat(start, a, b.drop_last());
        assert((a + b).drop_last() =~= a + b.drop_last());
        assert((a + b).last() == b.last());
    }
}

/// A key is in the result exactly if it was there at the start or was written.
pub proof fn lemma_write_all_dom(
    start: Map<Seq<char>, usize>,
    writes: Seq<(Seq<char>, usize)>,
    key: Seq<char>,
)
    ensures
        write_all(start, writes).dom().contains(key) <==> start.dom().contains(key) || exists|
            i: int,
        |
            0 <= i < writes.len() && #[trigger] writes[i].0 == key,
    decreases writes.len(),
{
    if writes.len() > 0 {
        let front = writes.drop_last();
        lemma_write_all_dom(start, front, key);
        if exists|i: int| 0 <= i < front.len() && #[trigger] front[i].0 == key {
            let i = choose|i: int| 0 <= i < front.len() && #[trigger] front[i].0 == key;
            assert(writes[i].0 == key);
        }
        if exists|i: int| 0 <= i < writes.len() && #[trigger] writes[i].0 == key {
            let i = choose|i: int| 0 <= i < writes.len() && #[trigger] writes[i].0 == key;
            if i < front.len() {
                assert(front[i].0 == key);
            }
        }
    }
}

/// The last write of a key decides its value: if no write after the one at
/// `i` has the same key, the result holds the value written at `i`.
pub proof fn lemma_write_all_last_wins(
    start: Map<Seq<char>, usize>,
    writes: Seq<(Seq<char>, usize)>,
    i: int,
)
    requires
        0 <= i < writes.len(),
        forall|j: int| i < j < writes.len() ==> (#[trigger] writes[j]).0 != writes[i].0,
    ensures
        write_all(start, writes).dom().contains(writes[i].0),
        write_all(start, writes)[writes[i].0] == writes[i].1,
    decreases writes.len(),
{
    if i < writes.len() - 1 {
        let front = writes.drop_last();
        assert(front[i] == writes[i]);
        assert forall|j: int| i < j < front.len() implies (#[trigger] front[j]).0
            != front[i].0 by {
            assert(front[j] == writes[j]);
        }
        lemma_write_all_last_wins(start, front, i);
        assert(writes.last() == writes[writes.len() - 1]);
    }
}

/// A key that no write names keeps what it had at the start.
pub proof fn lemma_write_all_untouched(
    start: Map<Seq<char>, usize>,
    writes: Seq<(Seq<char>, usize)>,
    key: Seq<char>,
)
    requires
        forall|j: int| 0 <= j < writes.len() ==> (#[trigger] writes[j]).0 != key,
    ensures
        write_all(start, writes).dom().contains(key) == start.dom().contains(key),
        write_all(start, writes)[key] == start[key],
    decreases writes.len(),
{
    if writes.len() > 0 {
        let front = writes.drop_last();
        assert forall|j: int| 0 <= j < front.len() implies (#[trigger] front[j]).0 != key by {
            assert(front[j] == writes[j]);
        }
        lemma_write_all_untouched(start, front, key);
        assert(writes.last() == writes[writes.len() - 1]);
    }
}

/// The value of the last write of `key` among `writes`, if there is one.
pub open spec fn last_write(writes: Seq<(Seq<char>, usize)>, key: Seq<char>) -> Option<usize>
    decreases writes.len(),
{
    if writes.len() == 0 {
        None
    } else if writes.last().0 == key {
        Some(writes.last().1)
    } else {
        last_write(writes.drop_last(), key)
    }
}

/// After a sequence of writes a key holds the value of its last write, or,
/// where it was not written, what it had at the start.
pub proof fn lemma_write_all_last_write(
    start: Map<Seq<char>, usize>,
    writes: Seq<(Seq<char>, usize)>,
    key: Seq<char>,
)
    ensures
        write_all(start, writes).dom().contains(key) <==> last_write(writes, key) is Some
            || start.dom().contains(key),
        last_write(writes, key) is Some ==> write_all(start, writes)[key] == last_write(
            writes,
            key,
        )->0,
        last_write(writes, key) is None ==> write_all(start, writes)[key] == start[key],
    decreases writes.len(),
{
    if writes.len() > 0 {
        lemma_write_all_last_write(start, writes.drop_last(), key);
    }
}

/// Among the writes `a + b`, the last write of a key is its last write in
/// `b`, or, where `b` does not write it, its last write in `a`.
pub proof fn lemma_last_write_concat(
    a: Seq<(Seq<char>, usize)>,
    b: Seq<(Seq<char>, usize)>,
    key: Seq<char>,
)
    ensures
        last_write(a + b, key) == if last_write(b, key) is Some {
            last_write(b, key)
        } else {
            last_write(a, key)
        },
    decreases b.len(),
{
    if b.len() == 0 {
        assert(a + b =~= a);
    } else {
        assert((a + b).drop_last() =~= a + b.drop_last());
        assert((a + b).last() == b.last());
        lemma_last_write_concat(a, b.drop_last(), key);
    }
}

/// A key has a last write exactly if some write names it.
pub proof fn lemma_last_write_some(writes: Seq<(Seq<char>, usize)>, key: Seq<char>)
    ensures
        last_write(writes, key) is Some <==> exists|i: int|
            0 <= i < writes.len() && #[trigger] writes[i].0 == key,
    decreases writes.len(),
{
    if writes.len() > 0 {
        let front = writes.drop_last();
        lemma_last_write_some(front, key);
        if exists|i: int| 0 <= i < front.len() && #[trigger] front[i].0 == key {
            let i = choose|i: int| 0 <= i < front.len() && #[trigger] front[i].0 == key;
            assert(writes[i].0 == key);
        }
        if exists|i: int| 0 <= i < writes.len() && #[trigger] writes[i].0 == key {
            let i = choose|i: int| 0 <= i < writes.len() && #[trigger] writes[i].0 == key;
            if i < front.len() {
                assert(front[i].0 == key);
            }
        }
    }
}

/// A map from keys to words. Each key is held once.
pub struct NameMap {
    entries: Vec<(String, usize)>,
}

/// The keys and values of `entries`, as writes in the order of the vector.
pub closed spec fn as_writes(entries: Seq<(String, usize)>) -> Seq<(Seq<char>, usize)> {
    entries.map_values(|e: (String, usize)| (e.0@, e.1))
}

impl View for NameMap {
    type V = Map<Seq<char>, usize>;

    closed spec fn view(&self) -> Map<Seq<char>, usize> {
        write_all(Map::empty(), as_writes(self.entries@))
    }
}

impl NameMap {
    #[verifier::type_invariant]
    spec fn distinct_keys(&self) -> bool {
        forall|i: int, j: int|
            0 <= i < j < self.entries@.len() ==> (#[trigger] self.entries@[i]).0@ != (
            #[trigger] self.entries@[j]).0@
    }

    /// What the map holds under `key`, if anything.
    pub open spec fn spec_get(&self, key: Seq<char>) -> Option<usize> {
        if self@.dom().contains(key) {
            Some(self@[key])
        } else {
            None
        }
    }

    /// The map holds the value of each of its entries under that entry's key,
    /// and nothing under a key that no entry has.
    proof fn lemma_entries(&self)
        requires
            self.distinct_keys(),
        ensures
            forall|i: int|
                0 <= i < self.entries@.len() ==> self.spec_get((#[trigger] self.entries@[i]).0@)
                    == Some(self.entries@[i].1),
            forall|key: Seq<char>|
                (forall|i: int|
                    0 <= i < self.entries@.len() ==> (#[trigger] self.entries@[i]).0@ != key)
                    ==> !self@.dom().contains(key),
    {
        let writes = as_writes(self.entries@);
        assert forall|i: int| 0 <= i < self.entries@.len() implies self.spec_get(
            (#[trigger] self.entries@[i]).0@,
        ) == Some(self.entries@[i].1) by {
            assert forall|j: int| i < j < writes.len() implies (#[trigger] writes[j]).0
                != writes[i].0 by {
                assert(self.entries@[i].0@ != self.entries@[j].0@);
            }
            lemma_write_all_last_wins(Map::empty(), writes, i);
        }
        assert forall|key: Seq<char>|
            (forall|i: int|
                0 <= i < self.entries@.len() ==> (#[trigger] self.entries@[i]).0@
                    != key) implies !self@.dom().contains(key) by {
            assert forall|j: int| 0 <= j < writes.len() implies (#[trigger] writes[j]).0
                != key by {
                assert(self.entries@[j].0@ != key);
            }
            lemma_write_all_untouched(Map::empty(), writes, key);
        }
    }

    /// A map that holds nothing.
    pub fn new() -> (m: NameMap)
        ensures
            m@ == Map::<Seq<char>, usize>::empty(),
    {
        let m = NameMap { entries: Vec::new() };
        assert(as_writes(m.entries@) =~= Seq::empty());
        m
    }

    /// How many keys the map holds.
    pub fn len(&self) -> (n: usize)
        ensures
            n == self@.dom().len(),
            self@.dom().finite(),
    {
        proof {
            use_type_invariant(self);
            lemma_distinct_len(self.entries@);
        }
        self.entries.len()
    }

    /// Whether the map holds nothing.
    pub fn is_empty(&self) -> (b: bool)
        ensures
            b == (self@ == Map::<Seq<char>, usize>::empty()),
    {
        proof {
            use_type_invariant(self);
            self.lemma_entries();
            if self.entries@.len() == 0 {
                assert(as_writes(self.entries@) =~= Seq::empty());
            } else {
                assert(self.spec_get(self.entries@[0].0@) is Some);
            }
        }
        self.entries.len() == 0
    }

    /// The value under `key`, if the map holds one.
    pub fn get(&self, key: &String) -> (value: Option<usize>)
        ensures
            value == self.spec_get(key@),
    {
        let mut i: usize = 0;
        while i < self.entries.len()
            invariant
                i <= self.entries@.len(),
                forall|j: int| 0 <= j < i ==> (#[trigger] self.entries@[j]).0@ != key@,
            decreases self.entries.len() - i,
        {
            if self.entries[i].0 == *key {
                proof {
                    use_type_invariant(self);
                    self.lemma_entries();
                    assert(self.spec_get(self.entries@[i as int].0@) == Some(
                        self.entries@[i as int].1,
                    ));
                }
                return Some(self.entries[i].1);
            }
            i += 1;
        }
        proof {
            use_type_invariant(self);
            self.lemma_entries();
        }
        None
    }

    /// Puts `value` under `key`, in place of what was there.
    pub fn insert(&mut self, key: String, value: usize)
        ensures
            final(self)@ == old(self)@.insert(key@, value),
    {
        proof {
            use_type_invariant(&*self);
        }
        let mut taken = NameMap::new();
        core::mem::swap(self, &mut taken);
        let NameMap { entries } = taken;
        let mut entries = entries;
        let ghost before = entries@;
        let mut i: usize = 0;
        let mut found = false;
        while !found && i < entries.len()
            invariant
                i <= entries@.len(),
                entries@ == before,
                found ==> i < entries@.len() && entries@[i as int].0@ == key@,
                forall|j: int| 0 <= j < i ==> (#[trigger] entries@[j]).0@ != key@,
            decreases entries.len() - i + if found { 0int } else { 1int },
        {
            if entries[i].0 == key {
                found = true;
            } else {
                i += 1;
            }
        }
        if found {
            proof {
                lemma_replace(before, i as int, (key, value));
            }
            entries.set(i, (key, value));
        } else {
            entries.push((key, value));
            proof {
                assert(as_writes(entries@).drop_last() =~= as_writes(before));
            }
        }
        *self = NameMap { entries };
    }
}

/// A sequence of entries with distinct keys makes a map with as many keys.
proof fn lemma_distinct_len(entries: Seq<(String, usize)>)
    requires
        forall|i: int, j: int|
            0 <= i < j < entries.len() ==> (#[trigger] entries[i]).0@ != (#[trigger] entries[j]).0@,
    ensures
        write_all(Map::empty(), as_writes(entries)).dom().finite(),
        write_all(Map::empty(), as_writes(entries)).dom().len() == entries.len(),
    decreases entries.len(),
{
    let writes = as_writes(entries);
    if entries.len() == 0 {
        assert(writes =~= Seq::empty());
    } else {
        let shorter = entries.drop_last();
        lemma_distinct_len(shorter);
        assert(as_writes(shorter) =~= writes.drop_last());
        let last = entries.last();
        assert forall|j: int| 0 <= j < as_writes(shorter).len() implies (#[trigger] as_writes(
            shorter,
        )[j]).0 != last.0@ by {
            assert(entries[j].0@ != entries[entries.len() - 1].0@);
        }
        lemma_write_all_untouched(Map::empty(), as_writes(shorter), last.0@);
    }
}

/// Replacing the entry at `i` by one with the same key is a write of that key.
proof fn lemma_replace(entries: Seq<(String, usize)>, i: int, entry: (String, usize))
    requires
        0 <= i < entries.len(),
        entries[i].0@ == entry.0@,
        forall|a: int, b: int|
            0 <= a < b < entries.len() ==> (#[trigger] entries[a]).0@ != (#[trigger] entries[b]).0@,
    ensures
        write_all(Map::empty(), as_writes(entries.update(i, entry))) == write_all(
            Map::empty(),
            as_writes(entries),
        ).insert(entry.0@, entry.1),
        forall|a: int, b: int|
            0 <= a < b < entries.len() ==> (#[trigger] entries.update(i, entry)[a]).0@ != (
            #[trigger] entries.update(i, entry)[b]).0@,
{
    let after = entries.update(i, entry);
    let w0 = as_writes(entries);
    let w1 = as_writes(after);
    let m0 = write_all(Map::empty(), w0);
    let m1 = write_all(Map::empty(), w1);
    let target = m0.insert(entry.0@, entry.1);
    assert forall|a: int, b: int| 0 <= a < b < entries.len() implies (#[trigger] after[a]).0@ != (
    #[trigger] after[b]).0@ by {
        assert(entries[a].0@ != entries[b].0@);
    }
    assert forall|k: int| 0 <= k < entries.len() implies (#[trigger] w1[k]).0 == w0[k].0 by {
        assert(after[k].0@ == entries[k].0@);
    }
    assert forall|key: Seq<char>| #[trigger]
        m1.dom().contains(key) == target.dom().contains(key) && (m1.dom().contains(key)
            ==> m1[key] == target[key]) by {
        lemma_write_all_dom(Map::empty(), w0, key);
        lemma_write_all_dom(Map::empty(), w1, key);
        if exists|k: int| 0 <= k < w0.len() && #[trigger] w0[k].0 == key {
            let k = choose|k: int| 0 <= k < w0.len() && #[trigger] w0[k].0 == key;
            assert(w1[k].0 == key);
            assert forall|j: int| k < j < w0.len() implies (#[trigger] w0[j]).0 != w0[k].0 by {
                assert(entries[k].0@ != entries[j].0@);
            }
            assert forall|j: int| k < j < w1.len() implies (#[trigger] w1[j]).0 != w1[k].0 by {
                assert(after[k].0@ != after[j].0@);
            }
            lemma_write_all_last_wins(Map::empty(), w0, k);
            lemma_write_all_last_wins(Map::empty(), w1, k);
            if k == i {
                assert(key == entry.0@);
                assert(w1[k].1 == entry.1);
            } else {
                assert(after[k] == entries[k]);
                assert(entries[k].0@ != entries[i].0@);
                assert(w1[k].1 == w0[k].1);
            }
        } else {
            assert(w0[i].0 == entry.0@);
            assert(key != entry.0@);
            if exists|k: int| 0 <= k < w1.len() && #[trigger] w1[k].0 == key {
                let k = choose|k: int| 0 <= k < w1.len() && #[trigger] w1[k].0 == key;
                assert(w0[k].0 == key);
            }
        }
    }
    assert(m1 =~= target);
}

} // verus!
