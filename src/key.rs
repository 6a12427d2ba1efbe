use vstd::prelude::*;

verus! {

/// Number of bytes in an account key.
pub const KEY_BYTES: usize = 32;

/// A 32-byte account identity.
#[derive(Clone, Copy, Debug)]
pub struct Key(pub [u8; 32]);

impl Key {
    /// The key's bytes.
    pub open spec fn bytes(self) -> Seq<u8> {
        self.0@
    }

    /// The key with the given bytes.
    pub fn new(bytes: [u8; 32]) -> (r: Key)
        ensures
            r.0 == bytes,
    {
        Key(bytes)
    }

    /// The key's bytes.
    pub fn to_bytes(&self) -> (r: [u8; 32])
        ensures
            r == self.0,
    {
        self.0
    }
}

/// Two keys are equal exactly when their bytes are.
pub proof fn lemma_bytes_eq(a: Key, b: Key)
    ensures
        (a.bytes() == b.bytes()) == (a == b),
{
    if a.bytes() == b.bytes() {
        assert forall|i: int| 0 <= i < 32 implies a.0[i] == b.0[i] by {
            assert(a.0[i] == a.0@[i]);
            assert(b.0[i] == b.0@[i]);
        }
        assert(a.0 =~= b.0);
    }
}

impl PartialEq for Key {
    fn eq(&self, other: &Key) -> (r: bool) {
        let mut i: usize = 0;
        while i < KEY_BYTES
            invariant
                i <= KEY_BYTES,
                forall|j: int| 0 <= j < i ==> self.0[j] == other.0[j],
            decreases KEY_BYTES - i,
        {
            if self.0[i] != other.0[i] {
                return false;
            }
            i = i + 1;
        }
        assert(self.0 =~= other.0);
        true
    }
}

impl vstd::std_specs::cmp::PartialEqSpecImpl for Key {
    open spec fn obeys_eq_spec() -> bool {
        true
    }

    open spec fn eq_spec(&self, other: &Key) -> bool {
        self.0 == other.0
    }
}

impl Eq for Key {
}

} // verus!
