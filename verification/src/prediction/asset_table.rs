//! A small table from asset ids to values.

use vstd::prelude::*;

verus! {

/// The values that are kept for assets, at most one for each.
pub struct AssetTable<T> {
    entries: Vec<(String, T)>,
}

/// The value that the list holds for an asset.
pub open spec fn lookup<T>(entries: Seq<(String, T)>, key: Seq<char>) -> Option<T>
    decreases entries.len(),
{
    if entries.len() == 0 {
        None
    } else if entries.last().0@ == key {
        Some(entries.last().1)
    } else {
        lookup(entries.drop_last(), key)
    }
}

/// The table that a list stands for.
pub open spec fn as_map<T>(entries: Seq<(String, T)>) -> Map<Seq<char>, T> {
    Map::new(|k: Seq<char>| lookup(entries, k) is Some, |k: Seq<char>| lookup(entries, k)->0)
}

/// Whether no asset is in the list twice.
pub open spec fn distinct<T>(entries: Seq<(String, T)>) -> bool {
    forall|i: int, j: int|
        0 <= i < j < entries.len() ==> (#[trigger] entries[i]).0@ != (#[trigger] entries[j]).0@
}

/// An entry is found under its asset.
proof fn lemma_found<T>(entries: Seq<(String, T)>, i: int)
    requires
        distinct(entries),
        0 <= i < entries.len(),
    ensures
        lookup(entries, entries[i].0@) == Some(entries[i].1),
    decreases entries.len(),
{
    if i < entries.len() - 1 {
        assert(entries[i].0@ != entries[entries.len() - 1].0@);
        lemma_found(entries.drop_last(), i);
        assert(entries.drop_last()[i] == entries[i]);
    }
}

/// An asset without an entry is not found.
proof fn lemma_absent<T>(entries: Seq<(String, T)>, key: Seq<char>)
    requires
        forall|i: int| 0 <= i < entries.len() ==> (#[trigger] entries[i]).0@ != key,
    ensures
        lookup(entries, key) is None,
    decreases entries.len(),
{
    if entries.len() > 0 {
        assert(entries[entries.len() - 1].0@ != key);
        assert forall|i: int| 0 <= i < entries.drop_last().len() implies (
        #[trigger] entries.drop_last()[i]).0@ != key by {
            assert(entries.drop_last()[i] == entries[i]);
        }
        lemma_absent(entries.drop_last(), key);
    }
}

/// Taking an entry out takes its asset out of the table, and nothing else.
proof fn lemma_removed<T>(entries: Seq<(String, T)>, i: int)
    requires
        distinct(entries),
        0 <= i < entries.len(),
    ensures
        distinct(entries.remove(i)),
        as_map(entries.remove(i)) == as_map(entries).remove(entries[i].0@),
{
    let rest = entries.remove(i);
    let key = entries[i].0@;
    assert forall|a: int, b: int| 0 <= a < b < rest.len() implies (#[trigger] rest[a]).0@ != (
    #[trigger] rest[b]).0@ by {
        let c = if a < i { a } else { a + 1 };
        let d = if b < i { b } else { b + 1 };
        assert(rest[a] == entries[c] && rest[b] == entries[d]);
    }
    assert forall|k: Seq<char>| #[trigger] lookup(rest, k) == (if k == key {
        None
    } else {
        lookup(entries, k)
    }) by {
        if k == key {
            assert forall|a: int| 0 <= a < rest.len() implies (#[trigger] rest[a]).0@ != k by {
                let c = if a < i { a } else { a + 1 };
                assert(rest[a] == entries[c]);
                assert(entries[c].0@ != entries[i].0@);
            }
            lemma_absent(rest, k);
        } else if exists|a: int| 0 <= a < entries.len() && (#[trigger] entries[a]).0@ == k {
            let a = choose|a: int| 0 <= a < entries.len() && (#[trigger] entries[a]).0@ == k;
            let b = if a < i { a } else { a - 1 };
            lemma_found(entries, a);
            assert(rest[b] == entries[a]);
            lemma_found(rest, b);
        } else {
            lemma_absent(entries, k);
            assert forall|a: int| 0 <= a < rest.len() implies (#[trigger] rest[a]).0@ != k by {
                let c = if a < i { a } else { a + 1 };
                assert(rest[a] == entries[c]);
            }
            lemma_absent(rest, k);
        }
    }
    lemma_found(entries, i);
    assert(as_map(rest) =~= as_map(entries).remove(key));
}

impl<T> View for AssetTable<T> {
    type V = Map<Seq<char>, T>;

    closed spec fn view(&self) -> Map<Seq<char>, T> {
        as_map(self.entries@)
    }
}

impl<T> AssetTable<T> {
    /// No asset is in the table twice.
    pub closed spec fn wf(&self) -> bool {
        distinct(self.entries@)
    }

    /// An empty table.
    pub fn new() -> (r: Self)
        ensures
            r.wf(),
            r@ == Map::<Seq<char>, T>::empty(),
    {
        let r = AssetTable { entries: Vec::new() };
        assert(r@ =~= Map::<Seq<char>, T>::empty());
        r
    }

    /// Where an asset's entry is; the length where there is none.
    fn position(&self, key: &str) -> (r: usize)
        requires
            self.wf(),
        ensures
            r <= self.entries@.len(),
            r < self.entries@.len() ==> self.entries@[r as int].0@ == key@ && self@.contains_key(key@)
                && self@[key@] == self.entries@[r as int].1,
            r == self.entries@.len() ==> !self@.contains_key(key@),
    {
        let wanted = key.to_owned();
        let mut i: usize = 0;
        while i < self.entries.len()
            invariant
                self.wf(),
                wanted@ == key@,
                i <= self.entries@.len(),
                forall|k: int| 0 <= k < i ==> (#[trigger] self.entries@[k]).0@ != key@,
            decreases self.entries@.len() - i,
        {
            if self.entries[i].0 == wanted {
                proof {
                    lemma_found(self.entries@, i as int);
                }
                return i;
            }
            i = i + 1;
        }
        proof {
            lemma_absent(self.entries@, key@);
        }
        i
    }

    /// The value of an asset.
    pub fn get(&self, key: &str) -> (r: Option<&T>)
        requires
            self.wf(),
        ensures
            r == (if self@.contains_key(key@) { Some(&self@[key@]) } else { None }),
    {
        let i: usize = self.position(key);
        if i < self.entries.len() {
            Some(&self.entries[i].1)
        } else {
            None
        }
    }

    /// Takes an asset out of the table.
    pub fn remove(&mut self, key: &str) -> (r: Option<T>)
        requires
            old(self).wf(),
        ensures
            final(self).wf(),
            final(self)@ == old(self)@.remove(key@),
            r == (if old(self)@.contains_key(key@) { Some(old(self)@[key@]) } else { None }),
    {
        let i: usize = self.position(key);
        if i < self.entries.len() {
            proof {
                lemma_removed(self.entries@, i as int);
            }
            let (_, value) = self.entries.remove(i);
            Some(value)
        } else {
            assert(self@ =~= self@.remove(key@));
            None
        }
    }

    /// Gives an asset a value, in place of the one that it had.
    pub fn insert(&mut self, key: &str, value: T)
        requires
            old(self).wf(),
        ensures
            final(self).wf(),
            final(self)@ == old(self)@.insert(key@, value),
    {
        let _ = self.remove(key);
        let ghost before = self.entries@;
        self.entries.push((key.to_owned(), value));
        proof {
            let after = self.entries@;
            assert(after.drop_last() =~= before);
            assert forall|a: int, b: int| 0 <= a < b < after.len() implies (
            #[trigger] after[a]).0@ != (#[trigger] after[b]).0@ by {
                assert(after[a] == before[a]);
                if b < before.len() {
                    assert(after[b] == before[b]);
                } else {
                    lemma_found(before, a);
                    assert(!as_map(before).contains_key(key@));
                }
            }
            assert(after.last().0@ == key@ && after.last().1 == value);
            assert forall|k: Seq<char>| #[trigger] lookup(after, k) == (if k == key@ {
                Some(value)
            } else {
                lookup(before, k)
            }) by {}
            assert(as_map(before) == old(self)@.remove(key@));
            assert forall|k: Seq<char>| k != key@ implies lookup(before, k) == #[trigger] lookup(
                old(self).entries@,
                k,
            ) by {
                assert(as_map(before).contains_key(k) == as_map(old(self).entries@).contains_key(k));
                if as_map(before).contains_key(k) {
                    assert(as_map(before)[k] == as_map(old(self).entries@)[k]);
                }
            }
            assert(self@ =~= old(self)@.insert(key@, value));
        }
    }
}

/// A list without duplicates stands for the table of its entries: each asset has the value that
/// stands beside it, and an asset without an entry has none.
pub proof fn law_table_holds_its_entries<T>(entries: Seq<(String, T)>, i: int, key: Seq<char>)
    requires
        distinct(entries),
        0 <= i < entries.len(),
    ensures
        as_map(entries).contains_key(entries[i].0@),
        as_map(entries)[entries[i].0@] == entries[i].1,
        as_map(entries).contains_key(key) ==> exists|k: int|
            0 <= k < entries.len() && (#[trigger] entries[k]).0@ == key,
{
    lemma_found(entries, i);
    if forall|k: int| 0 <= k < entries.len() ==> (#[trigger] entries[k]).0@ != key {
        lemma_absent(entries, key);
    }
}

} // verus!
