use vstd::prelude::*;

use crate::bounds::IDENTITY_BYTES;

verus! {

/// The identity of a principal: the 32 bytes of its public key.
///
/// The ledger never inspects an identity beyond comparing it for equality,
/// so it carries the key material as plain bytes.
#[derive(Debug)]
pub struct Identity {
    bytes: Vec<u8>,
}

impl View for Identity {
    type V = Seq<u8>;

    closed spec fn view(&self) -> Seq<u8> {
        self.bytes@
    }
}

impl Identity {
    /// A well-formed identity holds exactly the bytes of one public key.
    pub open spec fn wf(&self) -> bool {
        self@.len() == IDENTITY_BYTES
    }

    /// Builds an identity from the bytes of a public key; refuses any byte
    /// string that is not exactly one key long.
    pub fn from_bytes(bytes: Vec<u8>) -> (r: Option<Identity>)
        ensures
            bytes@.len() == IDENTITY_BYTES ==> (r matches Some(id) && id@ == bytes@ && id.wf()),
            bytes@.len() != IDENTITY_BYTES ==> r is None,
    {
        if bytes.len() == IDENTITY_BYTES as usize {
            Some(Identity { bytes })
        } else {
            None
        }
    }

    /// The single-writer check compares identities byte for byte.
    pub fn equals(&self, other: &Identity) -> (r: bool)
        ensures
            r == (self@ == other@),
    {
        if self.bytes.len() != other.bytes.len() {
            assert(self@ != other@);
            return false;
        }
        let n = self.bytes.len();
        let mut i: usize = 0;
        while i < n
            invariant
                i <= n,
                n == self@.len(),
                n == other@.len(),
                forall|j: int| 0 <= j < i ==> self@[j] == other@[j],
            decreases n - i,
        {
            if self.bytes[i] != other.bytes[i] {
                assert(self@ != other@) by {
                    if self@ == other@ {
                        assert(self@[i as int] == other@[i as int]);
                    }
                }
                return false;
            }
            i += 1;
        }
        proof {
            assert(self@ =~= other@);
        }
        true
    }

    /// An owned copy of this identity.
    pub fn duplicate(&self) -> (r: Identity)
        ensures
            r@ == self@,
    {
        let n = self.bytes.len();
        let mut bytes: Vec<u8> = Vec::new();
        let mut i: usize = 0;
        while i < n
            invariant
                i <= n,
                n == self@.len(),
                bytes@ == self@.subrange(0, i as int),
            decreases n - i,
        {
            bytes.push(self.bytes[i]);
            proof {
                assert(bytes@ =~= self@.subrange(0, i + 1));
            }
            i += 1;
        }
        proof {
            assert(bytes@ =~= self@);
        }
        Identity { bytes }
    }

    /// The bytes of the public key behind this identity.
    pub fn as_bytes(&self) -> (r: &Vec<u8>)
        ensures
            r@ == self@,
    {
        &self.bytes
    }
}

} // verus!
