use xc_swap::claim::{ClaimError, ClaimKey, ClaimLedger};

fn key(sequence: u64) -> ClaimKey {
    ClaimKey { chain: 2, emitter: [5u8; 32], sequence }
}

#[test]
fn first_claim_is_admitted() {
    let mut ledger = ClaimLedger::new();
    assert!(!ledger.is_claimed(&key(7)));
    assert_eq!(ledger.claim(key(7)), Ok(()));
    assert!(ledger.is_claimed(&key(7)));
    assert_eq!(ledger.records, vec![key(7)]);
}

#[test]
fn second_claim_is_refused() {
    let mut ledger = ClaimLedger::new();
    assert_eq!(ledger.claim(key(7)), Ok(()));
    assert_eq!(ledger.claim(key(7)), Err(ClaimError::AlreadyClaimed));
    assert_eq!(ledger.claim(key(7)), Err(ClaimError::AlreadyClaimed));
    assert_eq!(ledger.records.len(), 1);
}

#[test]
fn exactly_one_of_many_claims_is_admitted() {
    let mut ledger = ClaimLedger::new();
    let calls = [7u64, 8, 7, 9, 7, 8, 7];
    let mut admitted = 0;
    for s in calls {
        if s == 7 && ledger.claim(key(s)).is_ok() {
            admitted += 1;
        } else if s != 7 {
            let _ = ledger.claim(key(s));
        }
    }
    assert_eq!(admitted, 1);
    assert_eq!(ledger.records.len(), 3);
}

#[test]
fn keys_differ_by_each_field() {
    let mut ledger = ClaimLedger::new();
    assert_eq!(ledger.claim(key(7)), Ok(()));
    assert_eq!(ledger.claim(ClaimKey { chain: 3, emitter: [5u8; 32], sequence: 7 }), Ok(()));
    assert_eq!(ledger.claim(ClaimKey { chain: 2, emitter: [6u8; 32], sequence: 7 }), Ok(()));
    assert_eq!(ledger.claim(key(8)), Ok(()));
    assert!(key(7).same(&key(7)));
    assert!(!key(7).same(&key(8)));
}
