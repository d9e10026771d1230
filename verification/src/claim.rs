//! The claim ledger: each message key is admitted once.

use vstd::prelude::*;
use crate::bytes::same_bytes;

verus! {

/// What identifies a message among all attested messages.
#[derive(Debug, Clone, Copy, PartialEq, Eq)]
pub struct ClaimKey {
    pub chain: u16,
    pub emitter: [u8; 32],
    pub sequence: u64,
}

impl ClaimKey {
    /// The key as chain, emitter bytes and sequence.
    pub open spec fn view(&self) -> (u16, Seq<u8>, u64) {
        (self.chain, self.emitter@, self.sequence)
    }

    /// Whether `self` and `other` are the same key.
    pub fn same(&self, other: &ClaimKey) -> (r: bool)
        ensures
            r == (self@ == other@),
    {
        self.chain == other.chain && self.sequence == other.sequence && same_bytes(
            &self.emitter,
            &other.emitter,
        )
    }
}

/// Why a claim was not admitted.
#[derive(Debug, Clone, Copy, PartialEq, Eq, Structural)]
pub enum ClaimError {
    /// A record for the key exists already.
    AlreadyClaimed,
}

/// The records of the messages consumed so far. Records are only ever added.
#[derive(Debug)]
pub struct ClaimLedger {
    pub records: Vec<ClaimKey>,
}

/// What one claim of `key` does to the set of records `ledger`, and whether it is
/// admitted.
pub open spec fn claimed(ledger: Set<(u16, Seq<u8>, u64)>, key: (u16, Seq<u8>, u64)) -> (
    Set<(u16, Seq<u8>, u64)>,
    bool,
) {
    (ledger.insert(key), !ledger.contains(key))
}

/// How many of the claims `calls`, made in order on `ledger`, are claims of `key` that
/// are admitted.
pub open spec fn admitted(
    ledger: Set<(u16, Seq<u8>, u64)>,
    calls: Seq<(u16, Seq<u8>, u64)>,
    key: (u16, Seq<u8>, u64),
) -> nat
    decreases calls.len(),
{
    if calls.len() == 0 {
        0
    } else {
        let here: nat = if calls[0] == key && claimed(ledger, calls[0]).1 {
            1
        } else {
            0
        };
        here + admitted(claimed(ledger, calls[0]).0, calls.skip(1), key)
    }
}

impl ClaimLedger {
    /// The set of keys that have a record.
    pub open spec fn view(&self) -> Set<(u16, Seq<u8>, u64)> {
        Set::new(
            |k: (u16, Seq<u8>, u64)|
                exists|i: int| 0 <= i < self.records@.len() && #[trigger] self.records@[i]@ == k,
        )
    }

    /// A ledger without records.
    pub fn new() -> (r: ClaimLedger)
        ensures
            r@ == Set::<(u16, Seq<u8>, u64)>::empty(),
            r.records@.len() == 0,
    {
        let r = ClaimLedger { records: Vec::new() };
        assert(r@ =~= Set::<(u16, Seq<u8>, u64)>::empty());
        r
    }

    /// Whether `key` has a record.
    pub fn is_claimed(&self, key: &ClaimKey) -> (r: bool)
        ensures
            r == self@.contains(key@),
    {
        let mut i: usize = 0;
        while i < self.records.len()
            invariant
                i <= self.records@.len(),
                forall|j: int| 0 <= j < i ==> #[trigger] self.records@[j]@ != key@,
            decreases self.records@.len() - i,
        {
            if self.records[i].same(key) {
                return true;
            }
            i += 1;
        }
        false
    }

    /// Admits `key` if it has no record yet, and records it; refuses it otherwise and
    /// leaves the ledger as it is.
    pub fn claim(&mut self, key: ClaimKey) -> (r: Result<(), ClaimError>)
        ensures
            final(self)@ == claimed(old(self)@, key@).0,
            r is Ok <==> claimed(old(self)@, key@).1,
            r is Err ==> final(self).records@ == old(self).records@,
            r is Ok ==> final(self).records@ == old(self).records@.push(key),
    {
        if self.is_claimed(&key) {
            assert(self@ =~= self@.insert(key@));
            Err(ClaimError::AlreadyClaimed)
        } else {
            let ghost before = self.records@;
            self.records.push(key);
            assert(self@ =~= old(self)@.insert(key@)) by {
                assert forall|k: (u16, Seq<u8>, u64)| old(self)@.insert(key@).contains(k)
                    implies self@.contains(k) by {
                    if k == key@ {
                        assert(self.records@[before.len() as int]@ == k);
                    } else {
                        let i = choose|i: int| 0 <= i < before.len() && #[trigger] before[i]@ == k;
                        assert(self.records@[i]@ == k);
                    }
                }
                assert forall|k: (u16, Seq<u8>, u64)| self@.contains(k) implies old(
                    self,
                )@.insert(key@).contains(k) by {
                    let i = choose|i: int|
                        0 <= i < self.records@.len() && #[trigger] self.records@[i]@ == k;
                    if i < before.len() {
                        assert(before[i]@ == k);
                    }
                }
            }
            Ok(())
        }
    }
}

/// Of any claims made in order on a ledger, exactly one claim of `key` is admitted if
/// `key` is claimed at all and had no record before; none is admitted otherwise.
pub proof fn lemma_single_claim(
    ledger: Set<(u16, Seq<u8>, u64)>,
    calls: Seq<(u16, Seq<u8>, u64)>,
    key: (u16, Seq<u8>, u64),
)
    ensures
        admitted(ledger, calls, key) == if !ledger.contains(key) && calls.contains(key) {
            1nat
        } else {
            0nat
        },
    decreases calls.len(),
{
    if calls.len() > 0 {
        let rest = calls.skip(1);
        lemma_single_claim(ledger.insert(calls[0]), rest, key);
        if rest.contains(key) {
            let i = choose|i: int| 0 <= i < rest.len() && rest[i] == key;
            assert(calls[i + 1] == key);
        }
        if calls.contains(key) && calls[0] != key {
            let i = choose|i: int| 0 <= i < calls.len() && calls[i] == key;
            assert(rest[i - 1] == key);
        }
    }
}

/// A record, once made, stays: after a further claim, of any key, the key is still
/// recorded, and a claim of the key itself is refused.
pub proof fn lemma_claims_only_grow(
    ledger: Set<(u16, Seq<u8>, u64)>,
    key: (u16, Seq<u8>, u64),
    next: (u16, Seq<u8>, u64),
)
    requires
        ledger.contains(key),
    ensures
        claimed(ledger, next).0.contains(key),
        !claimed(ledger, key).1,
{
}

} // verus!
