use vstd::prelude::*;

use crate::errors::{contains_key, unique_keys};
use crate::key::{Key, KEY_BYTES};

verus! {

/// The persisted state of a multisig authority.
///
/// `padding` is reserved space: when owners are removed the freed bytes are
/// kept here, so the record never shrinks and owners can be added back later
/// without growing the record.
#[derive(Clone, Debug)]
pub struct Multisig {
    pub owners: Vec<Key>,
    pub threshold: u8,
    pub nonce: u8,
    pub owner_set_seqno: u32,
    pub padding: Vec<u8>,
}

impl Multisig {
    /// Owners are unique and the threshold lies in `1..=owners.len()`.
    pub open spec fn wf(&self) -> bool {
        &&& unique_keys(self.owners@)
        &&& 0 < self.threshold
        &&& self.threshold as int <= self.owners@.len()
    }

    /// Bytes available to the owner list: what it uses now plus the padding.
    pub open spec fn capacity(&self) -> int {
        KEY_BYTES * self.owners@.len() + self.padding@.len()
    }

    /// Size of the encoded record: each field in order, each list with a
    /// 4-byte length prefix.
    pub open spec fn spec_len(&self) -> int {
        4 + KEY_BYTES * self.owners@.len() + 1 + 1 + 4 + 4 + self.padding@.len()
    }

    /// The record's size fits in memory.
    pub open spec fn fits(&self) -> bool {
        self.spec_len() <= usize::MAX
    }

    pub fn len(&self) -> (r: usize)
        requires
            self.fits(),
        ensures
            r == self.spec_len(),
    {
        4 + KEY_BYTES * self.owners.len() + 1 + 1 + 4 + 4 + self.padding.len()
    }

    /// Whether the record's size fits in memory, which the mutating
    /// operations ask of their input.
    pub fn size_fits(&self) -> (r: bool)
        ensures
            r == self.fits(),
    {
        let n = self.owners.len() as u128;
        let p = self.padding.len() as u128;
        n * 32 + p + 14 <= usize::MAX as u128
    }
}

/// `i` is the position of the first occurrence of `key` in `keys`.
pub open spec fn is_first_index(keys: Seq<Key>, key: Key, i: int) -> bool {
    &&& 0 <= i < keys.len()
    &&& keys[i] == key
    &&& forall|j: int| 0 <= j < i ==> keys[j] != key
}

/// The position of the first occurrence of `key` in `keys`, where it occurs.
pub open spec fn first_index(keys: Seq<Key>, key: Key) -> int {
    choose|i: int| is_first_index(keys, key, i)
}

/// A key that occurs has exactly one first position.
pub proof fn lemma_first_index(keys: Seq<Key>, key: Key, i: int)
    requires
        is_first_index(keys, key, i),
    ensures
        first_index(keys, key) == i,
{
    let c = first_index(keys, key);
    assert(is_first_index(keys, key, c));
    if c < i {
        assert(keys[c] != key);
    } else if i < c {
        assert(keys[i] != key);
    }
}

/// A key that occurs has a first position.
pub proof fn lemma_first_index_exists(keys: Seq<Key>, key: Key)
    requires
        contains_key(keys, key),
    ensures
        is_first_index(keys, key, first_index(keys, key)),
    decreases keys.len(),
{
    if keys.last() == key && !contains_key(keys.drop_last(), key) {
        let i = keys.len() - 1;
        assert forall|j: int| 0 <= j < i implies keys[j] != key by {
            if keys[j] == key {
                assert(keys.drop_last()[j] == key);
            }
        }
        assert(is_first_index(keys, key, i));
        lemma_first_index(keys, key, i);
    } else {
        let k = choose|k: int| 0 <= k < keys.len() && keys[k] == key;
        if k == keys.len() - 1 {
            assert(keys.last() == key);
        } else {
            assert(keys.drop_last()[k] == key);
        }
        assert(contains_key(keys.drop_last(), key));
        let d = keys.drop_last();
        lemma_first_index_exists(d, key);
        let i = first_index(d, key);
        assert(keys[i] == d[i]);
        assert forall|j: int| 0 <= j < i implies keys[j] != key by {
            assert(keys[j] == d[j]);
        }
        assert(is_first_index(keys, key, i));
        lemma_first_index(keys, key, i);
    }
}

/// Position of the first occurrence of `key` in `keys`.
pub fn position(keys: &Vec<Key>, key: &Key) -> (r: Option<usize>)
    ensures
        match r {
            Some(i) => is_first_index(keys@, *key, i as int) && i as int == first_index(
                keys@,
                *key,
            ),
            None => !contains_key(keys@, *key),
        },
{
    let mut i: usize = 0;
    while i < keys.len()
        invariant
            i <= keys@.len(),
            forall|j: int| 0 <= j < i ==> keys@[j] != *key,
        decreases keys@.len() - i,
    {
        if keys[i] == *key {
            proof {
                lemma_first_index(keys@, *key, i as int);
            }
            return Some(i);
        }
        i = i + 1;
    }
    None
}

} // verus!
