use crate::address::Address;
use crate::error::Error;
use crate::u256::U256;
use vstd::prelude::*;

verus! {

/// A key of a `Mapping`: a value that can be told apart from another.
pub trait Key: Copy {
    /// Whether the two keys are the same.
    fn same(&self, other: &Self) -> (r: bool)
        ensures
            r == (*self == *other),
    ;
}

impl Key for Address {
    fn same(&self, other: &Self) -> (r: bool) {
        self.id == other.id
    }
}

/// Amounts by key. A key that was never set holds zero, so every key has an
/// amount: the view is a map on all keys.
pub struct Mapping<K: Key> {
    /// A key occurs in at most one entry that counts: the first with it.
    entries: Vec<(K, U256)>,
}

impl<K: Key> View for Mapping<K> {
    type V = Map<K, nat>;

    /// The amount under every key.
    closed spec fn view(&self) -> Map<K, nat> {
        Map::total(|key: K| Self::value_in(self.entries@, key))
    }
}

impl<K: Key> Mapping<K> {
    /// The amount that the entries hold for a key: that of the first entry
    /// with this key, zero where there is none.
    spec fn value_in(entries: Seq<(K, U256)>, key: K) -> nat
        decreases entries.len(),
    {
        if entries.len() == 0 {
            0
        } else if entries[0].0 == key {
            entries[0].1@
        } else {
            Self::value_in(entries.drop_first(), key)
        }
    }

    proof fn lemma_value_at_first(entries: Seq<(K, U256)>, key: K, i: int)
        requires
            0 <= i < entries.len(),
            entries[i].0 == key,
            forall|j: int| 0 <= j < i ==> entries[j].0 != key,
        ensures
            Self::value_in(entries, key) == entries[i].1@,
        decreases i,
    {
        if i > 0 {
            Self::lemma_value_at_first(entries.drop_first(), key, i - 1);
        }
    }

    proof fn lemma_value_absent(entries: Seq<(K, U256)>, key: K)
        requires
            forall|j: int| 0 <= j < entries.len() ==> entries[j].0 != key,
        ensures
            Self::value_in(entries, key) == 0,
        decreases entries.len(),
    {
        if entries.len() > 0 {
            Self::lemma_value_absent(entries.drop_first(), key);
        }
    }

    proof fn lemma_value_after_update(
        entries: Seq<(K, U256)>,
        key: K,
        amount: U256,
        i: int,
        other: K,
    )
        requires
            0 <= i < entries.len(),
            entries[i].0 == key,
            other != key,
        ensures
            Self::value_in(entries.update(i, (key, amount)), other) == Self::value_in(
                entries,
                other,
            ),
        decreases entries.len(),
    {
        let updated = entries.update(i, (key, amount));
        if i > 0 {
            assert(updated.drop_first() =~= entries.drop_first().update(i - 1, (key, amount)));
            Self::lemma_value_after_update(entries.drop_first(), key, amount, i - 1, other);
        } else {
            assert(updated.drop_first() =~= entries.drop_first());
        }
    }

    proof fn lemma_value_after_push(entries: Seq<(K, U256)>, key: K, amount: U256, other: K)
        requires
            forall|j: int| 0 <= j < entries.len() ==> entries[j].0 != key,
        ensures
            Self::value_in(entries.push((key, amount)), other) == (if other == key {
                amount@
            } else {
                Self::value_in(entries, other)
            }),
        decreases entries.len(),
    {
        let pushed = entries.push((key, amount));
        if entries.len() > 0 {
            assert(pushed.drop_first() =~= entries.drop_first().push((key, amount)));
            Self::lemma_value_after_push(entries.drop_first(), key, amount, other);
        } else {
            assert(pushed.drop_first() =~= entries);
        }
    }

    /// Every key has an amount.
    pub proof fn lemma_every_key_is_held(&self, key: K)
        ensures
            self@.dom().contains(key),
    {
    }

    /// The mapping in which every key holds zero.
    pub fn new() -> (mapping: Self)
        ensures
            forall|key: K| mapping@[key] == 0,
    {
        let mapping = Mapping { entries: Vec::new() };
        assert forall|key: K| mapping@[key] == 0 by {
            Self::lemma_value_absent(mapping.entries@, key);
        }
        mapping
    }

    /// The place of the first entry with this key.
    fn position(&self, key: &K) -> (r: Option<usize>)
        ensures
            match r {
                Some(i) => {
                    &&& i < self.entries@.len()
                    &&& self.entries@[i as int].0 == *key
                    &&& forall|j: int| 0 <= j < i ==> self.entries@[j].0 != *key
                },
                None => forall|j: int| 0 <= j < self.entries@.len() ==> self.entries@[j].0 != *key,
            },
    {
        let mut i: usize = 0;
        while i < self.entries.len()
            invariant
                i <= self.entries@.len(),
                forall|j: int| 0 <= j < i ==> self.entries@[j].0 != *key,
            decreases self.entries@.len() - i,
        {
            if self.entries[i].0.same(key) {
                return Some(i);
            }
            i += 1;
        }
        None
    }

    /// The amount under a key, zero where the key was never set.
    pub fn get_or_default(&self, key: &K) -> (amount: U256)
        ensures
            amount@ == self@[*key],
    {
        match self.position(key) {
            Some(i) => {
                proof {
                    Self::lemma_value_at_first(self.entries@, *key, i as int);
                }
                self.entries[i].1
            },
            None => {
                proof {
                    Self::lemma_value_absent(self.entries@, *key);
                }
                U256::zero()
            },
        }
    }

    /// Puts an amount under a key, in place of what the key held. No other
    /// key changes.
    pub fn set(&mut self, key: &K, amount: U256)
        ensures
            final(self)@ == old(self)@.insert(*key, amount@),
    {
        let ghost before = self.entries@;
        match self.position(key) {
            Some(i) => {
                self.entries[i] = (*key, amount);
                proof {
                    Self::lemma_value_at_first(self.entries@, *key, i as int);
                    assert forall|other: K| other != *key implies Self::value_in(
                        self.entries@,
                        other,
                    ) == Self::value_in(before, other) by {
                        Self::lemma_value_after_update(before, *key, amount, i as int, other);
                    }
                }
            },
            None => {
                self.entries.push((*key, amount));
                proof {
                    assert forall|other: K|
                        Self::value_in(self.entries@, other) == (if other == *key {
                            amount@
                        } else {
                            Self::value_in(before, other)
                        }) by {
                        Self::lemma_value_after_push(before, *key, amount, other);
                    }
                }
            },
        }
        assert(self@ =~= old(self)@.insert(*key, amount@));
    }

    /// Adds an amount to what a key holds. Refused, with nothing changed,
    /// where the sum would exceed 2^256 - 1.
    pub fn add(&mut self, key: &K, amount: U256) -> (r: Result<(), Error>)
        ensures
            old(self)@[*key] + amount@ > U256::spec_max() ==> {
                &&& r === Err(Error::ArithmeticOverflow)
                &&& *final(self) == *old(self)
            },
            old(self)@[*key] + amount@ <= U256::spec_max() ==> {
                &&& r === Ok(())
                &&& final(self)@ == old(self)@.insert(*key, old(self)@[*key] + amount@)
            },
    {
        let current = self.get_or_default(key);
        match current.checked_add(amount) {
            Some(sum) => {
                self.set(key, sum);
                Ok(())
            },
            None => Err(Error::ArithmeticOverflow),
        }
    }

    /// Takes an amount off what a key holds. Refused, with nothing changed,
    /// where the key holds less.
    pub fn subtract(&mut self, key: &K, amount: U256) -> (r: Result<(), Error>)
        ensures
            amount@ > old(self)@[*key] ==> {
                &&& r === Err(Error::ArithmeticUnderflow)
                &&& *final(self) == *old(self)
            },
            amount@ <= old(self)@[*key] ==> {
                &&& r === Ok(())
                &&& final(self)@ == old(self)@.insert(*key, (old(self)@[*key] - amount@) as nat)
            },
    {
        let current = self.get_or_default(key);
        match current.checked_sub(amount) {
            Some(difference) => {
                self.set(key, difference);
                Ok(())
            },
            None => Err(Error::ArithmeticUnderflow),
        }
    }
}

} // verus!
