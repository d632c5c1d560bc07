//! The verified key/value view of remote state.
//!
//! The external proof verifier turns `(proof_bytes, root_hash)` into a list
//! of key/value entries; this wrapper carries those entries to the caller
//! exactly — nothing added, nothing dropped, nothing reordered.

use vstd::prelude::*;

verus! {

use crate::error::Error;

/// The first value bound to `key` in `entries`, if any.
pub open spec fn lookup(entries: Seq<(Seq<u8>, Seq<u8>)>, key: Seq<u8>) -> Option<Seq<u8>>
    decreases entries.len(),
{
    if entries.len() == 0 {
        None
    } else if entries[0].0 == key {
        Some(entries[0].1)
    } else {
        lookup(entries.drop_first(), key)
    }
}

/// A key/value view of remote state, authenticated against the root hash of
/// the envelope it came from.
pub struct VerifiedStore {
    /// The verified entries, in the order the proof verifier produced them.
    pub entries: Vec<(Vec<u8>, Vec<u8>)>,
}

impl VerifiedStore {
    /// The entries as mathematical sequences.
    pub open spec fn view_entries(self) -> Seq<(Seq<u8>, Seq<u8>)> {
        self.entries@.map_values(|e: (Vec<u8>, Vec<u8>)| (e.0@, e.1@))
    }

    /// Wraps the proof verifier's output. The store holds exactly the given
    /// entries: the transport layer adds and drops none.
    pub fn from_entries(entries: Vec<(Vec<u8>, Vec<u8>)>) -> (s: Self)
        ensures
            s.entries == entries,
    {
        VerifiedStore { entries }
    }

    /// The number of entries.
    pub fn len(&self) -> (n: usize)
        ensures
            n == self.entries@.len(),
    {
        self.entries.len()
    }

    /// The first value stored under `key`, exactly as `lookup` says.
    pub fn get(&self, key: &Vec<u8>) -> (r: Option<&Vec<u8>>)
        ensures
            match r {
                Some(v) => lookup(self.view_entries(), key@) == Some(v@),
                None => lookup(self.view_entries(), key@) is None,
            },
    {
        let n = self.entries.len();
        let mut i: usize = 0;
        proof {
            assert(self.view_entries().skip(0) =~= self.view_entries());
        }
        while i < n
            invariant
                0 <= i <= n,
                n == self.entries@.len(),
                lookup(self.view_entries(), key@) == lookup(
                    self.view_entries().skip(i as int),
                    key@,
                ),
            decreases n - i,
        {
            proof {
                assert(self.view_entries().skip(i as int)[0] == (
                    self.entries@[i as int].0@,
                    self.entries@[i as int].1@,
                ));
            }
            if bytes_eq(&self.entries[i].0, key) {
                return Some(&self.entries[i].1);
            }
            proof {
                assert(self.view_entries().skip(i as int).drop_first() =~= self.view_entries().skip(
                    i as int + 1,
                ));
            }
            i = i + 1;
        }
        proof {
            assert(self.view_entries().skip(n as int) =~= Seq::<(Seq<u8>, Seq<u8>)>::empty());
        }
        None
    }
}

/// Wraps what the external proof verifier answered: a store holding exactly
/// the entries it returned, or its failure as a `Proof` error carrying its
/// diagnostic verbatim.
pub fn verifier_outcome(result: Result<Vec<(Vec<u8>, Vec<u8>)>, String>) -> (r: Result<
    VerifiedStore,
    Error,
>)
    ensures
        result matches Ok(entries) ==> (r matches Ok(s) && s.entries == entries),
        result matches Err(diagnostic) ==> r == Err::<VerifiedStore, Error>(
            Error::Proof(diagnostic),
        ),
{
    match result {
        Ok(entries) => Ok(VerifiedStore::from_entries(entries)),
        Err(diagnostic) => Err(Error::Proof(diagnostic)),
    }
}

/// Byte-sequence equality.
pub fn bytes_eq(a: &Vec<u8>, b: &Vec<u8>) -> (r: bool)
    ensures
        r == (a@ == b@),
{
    if a.len() != b.len() {
        proof {
            assert(a@.len() != b@.len());
        }
        return false;
    }
    let n = a.len();
    let mut i: usize = 0;
    while i < n
        invariant
            0 <= i <= n,
            n == a@.len() && n == b@.len(),
            forall|j: int| 0 <= j < i ==> a@[j] == b@[j],
        decreases n - i,
    {
        if a[i] != b[i] {
            return false;
        }
        i = i + 1;
    }
    proof {
        assert(a@ =~= b@);
    }
    true
}

} // verus!
