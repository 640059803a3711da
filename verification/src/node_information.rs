use vstd::prelude::*;

use crate::primitives::{
    ed25519_keypair, node_id_of, public_of, ripemd160, secret_of, sha3_256,
};

verus! {

/// A node's cryptographic identity: a 32-byte root seed, the ed25519 keypair
/// generated from it, and a 20-byte identifier hashed from the public key.
pub struct NodeInfo {
    pub seed: Vec<u8>,
    pub secret_key: Vec<u8>,
    pub public_key: Vec<u8>,
    pub node_id: Vec<u8>,
}

/// The outcome of looking a stored seed up: the stored bytes, a miss, or a
/// failure of the storage layer itself.
pub enum LookupOutcome {
    Found(Vec<u8>),
    NotFound,
    StorageError,
}

/// The seed that a lookup outcome recovers: the stored bytes when they are
/// exactly 32 of them, and nothing on a miss, a storage failure, or a stored
/// value of any other length.
pub open spec fn recovered_seed(outcome: LookupOutcome) -> Option<Seq<u8>> {
    match outcome {
        LookupOutcome::Found(b) => {
            if b@.len() == 32 {
                Some(b@)
            } else {
                None
            }
        },
        LookupOutcome::NotFound => None,
        LookupOutcome::StorageError => None,
    }
}

/// Byte-for-byte equality of two byte slices.
fn bytes_eq(a: &[u8], b: &[u8]) -> (r: bool)
    ensures
        r == (a@ == b@),
{
    if a.len() != b.len() {
        return false;
    }
    let mut i: usize = 0;
    while i < a.len()
        invariant
            i <= a@.len(),
            a@.len() == b@.len(),
            forall|j: int| 0 <= j < i ==> a@[j] == b@[j],
        decreases a@.len() - i,
    {
        if a[i] != b[i] {
            return false;
        }
        i += 1;
    }
    proof {
        assert(a@ =~= b@);
    }
    true
}

impl NodeInfo {
    /// The invariant of every live identity: the seed is 32 bytes, the keys
    /// are the pair generated from it, and the identifier is the double hash
    /// of the public key.
    pub open spec fn wf(self) -> bool {
        &&& self.seed@.len() == 32
        &&& self.secret_key@ == secret_of(self.seed@)
        &&& self.public_key@ == public_of(self.seed@)
        &&& self.node_id@ == node_id_of(self.public_key@)
    }

    /// Derives the full identity from a 32-byte seed: keypair first, then
    /// the identifier as RIPEMD-160 of SHA3-256 of the public key.
    pub fn init_node(seed_s: &[u8]) -> (r: NodeInfo)
        requires
            seed_s@.len() == 32,
        ensures
            r.wf(),
            r.seed@ == seed_s@,
    {
        let seed = vstd::slice::slice_to_vec(seed_s);
        let (secret_key, public_key) = ed25519_keypair(seed.as_slice());
        let digest = sha3_256(public_key.as_slice());
        let node_id = ripemd160(digest.as_slice());
        NodeInfo { seed, secret_key, public_key, node_id }
    }

    /// Recomputes the identifier from the live public key; on a well-formed
    /// identity it equals the stored one.
    pub fn get_node(&self) -> (r: Vec<u8>)
        requires
            self.wf(),
        ensures
            r@ == node_id_of(self.public_key@),
            r@ == self.node_id@,
    {
        let digest = sha3_256(self.public_key.as_slice());
        ripemd160(digest.as_slice())
    }

    /// Health check: regenerates the keypair from the stored seed and
    /// compares it byte for byte against the stored keys. On a well-formed
    /// identity it always passes.
    pub fn check_key(&self) -> (r: bool)
        ensures
            r == (self.seed@.len() == 32
                && self.secret_key@ == secret_of(self.seed@)
                && self.public_key@ == public_of(self.seed@)),
            r ==> self.secret_key@.len() == 64 && self.public_key@.len() == 32,
            self.wf() ==> r,
    {
        if self.seed.len() != 32 {
            return false;
        }
        let (secret_key, public_key) = ed25519_keypair(self.seed.as_slice());
        let secret_ok = bytes_eq(self.secret_key.as_slice(), secret_key.as_slice());
        let public_ok = bytes_eq(self.public_key.as_slice(), public_key.as_slice());
        secret_ok && public_ok
    }

    /// Mints a fresh identity from 32 random bytes.
    fn rebuild_key() -> (r: NodeInfo)
        ensures
            r.wf(),
    {
        let mut seed: Vec<u8> = Vec::new();
        let mut i: usize = 0;
        while i < 32
            invariant
                i <= 32,
                seed@.len() == i,
            decreases 32 - i,
        {
            let b: u8 = rand::random::<u8>();
            seed.push(b);
            i += 1;
        }
        NodeInfo::init_node(seed.as_slice())
    }

    /// The bootstrap decision: a stored 32-byte seed is recovered and the
    /// identity derived from it; anything else — a miss, a storage failure,
    /// or a malformed stored value — falls back to a freshly generated seed.
    /// Every outcome yields a well-formed identity.
    pub fn bootstrap_from(outcome: LookupOutcome) -> (r: NodeInfo)
        ensures
            r.wf(),
            (recovered_seed(outcome) matches Some(s) ==> r.seed@ == s),
    {
        match outcome {
            LookupOutcome::Found(bytes) => {
                if bytes.len() == 32 {
                    NodeInfo::init_node(bytes.as_slice())
                } else {
                    NodeInfo::rebuild_key()
                }
            },
            LookupOutcome::NotFound => NodeInfo::rebuild_key(),
            LookupOutcome::StorageError => NodeInfo::rebuild_key(),
        }
    }
}

/// Derivation is deterministic: two well-formed identities whose seeds agree
/// agree on the keypair and the identifier too. In particular, repeated
/// derivation from one seed, and repeated bootstraps that recover one stored
/// seed, build identical identities.
pub proof fn lemma_same_seed_same_identity(a: NodeInfo, b: NodeInfo)
    requires
        a.wf(),
        b.wf(),
        a.seed@ == b.seed@,
    ensures
        a.secret_key@ == b.secret_key@,
        a.public_key@ == b.public_key@,
        a.node_id@ == b.node_id@,
{
}

} // verus!
