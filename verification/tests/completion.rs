use xc_swap::claim::ClaimKey;
use xc_swap::codec::{DecodeError, MessageData};
use xc_swap::complete::{
    check_accounts, complete_checked, complete_transfer_and_swap, Checks, ClaimableVaa,
    CompleteError, CompleteTransferAndSwap, CompleteTransferAndSwapData, CustodyAccount, Ledger,
};
use xc_swap::derivation::{Account, AccountId, MismatchError, Registry, Role};

const THIS_CHAIN: u16 = 1;
const RENT: u64 = 2_039_280;
const EMITTER: [u8; 32] = [0xE0; 32];
const ASSET: [u8; 32] = [0xAA; 32];

fn id(b: u8) -> AccountId {
    AccountId { bytes: [b; 32] }
}

fn registry() -> Registry {
    Registry { program_id: id(7), token_bridge: id(8) }
}

fn payload(amount: u64, asset_chain: u16) -> Vec<u8> {
    let mut out = vec![3u8];
    out.extend_from_slice(&[0u8; 24]);
    out.extend_from_slice(&amount.to_be_bytes());
    out.extend_from_slice(&ASSET);
    out.extend_from_slice(&asset_chain.to_be_bytes());
    out.extend_from_slice(&[0xBB; 32]);
    out.extend_from_slice(&THIS_CHAIN.to_be_bytes());
    out.extend_from_slice(&[0xCC; 32]);
    out.extend_from_slice(b"swap");
    out
}

fn message(sequence: u64, payload: Vec<u8>) -> MessageData {
    MessageData {
        vaa_version: 1,
        consistency_level: 32,
        vaa_time: 0,
        vaa_signature_account: [0u8; 32],
        submission_time: 0,
        nonce: 0,
        sequence,
        emitter_chain: 2,
        emitter_address: EMITTER,
        payload,
    }
}

/// The accounts that a correct caller names for a wrapped asset of chain 2.
fn accounts(sequence: u64, amount: u64) -> CompleteTransferAndSwap {
    let r = registry();
    let mint = id(0x44);
    CompleteTransferAndSwap {
        payer: id(1),
        config: xc_swap::derivation::derive(&r, &Role::Config).unwrap(),
        vaa: ClaimableVaa {
            message: message(sequence, payload(amount, 2)),
            claim: xc_swap::derivation::derive(&r, &Role::ClaimRecord { chain: 2, emitter: EMITTER, sequence }).unwrap(),
        },
        chain_registration: xc_swap::derivation::derive(&r, &Role::Endpoint { chain: 2, emitter: EMITTER }).unwrap(),
        custody: xc_swap::derivation::derive(&r, &Role::CustodyAccount { mint }).unwrap(),
        custody_signer: id(0x55),
        to_fees: id(0x66),
        mint,
        wrapped_meta: xc_swap::derivation::derive(&r, &Role::WrappedAssetMeta { chain: 2, asset: ASSET }).unwrap(),
        mint_authority: xc_swap::derivation::derive(&r, &Role::MintAuthority).unwrap(),
        token_bridge: id(8),
    }
}

fn ledger() -> Ledger {
    let r = registry();
    let mut l = Ledger::new(r, THIS_CHAIN, RENT);
    l.register_endpoint(xc_swap::derivation::derive(&r, &Role::Endpoint { chain: 2, emitter: EMITTER }).unwrap());
    l
}

fn run(l: &mut Ledger, accs: &CompleteTransferAndSwap) -> Result<u64, CompleteError> {
    complete_transfer_and_swap(l, accs, RENT, Ok(()), CompleteTransferAndSwapData {}).map(|c| c.balance)
}

#[test]
fn first_completion_succeeds() {
    let mut l = ledger();
    let mut accs = accounts(7, 500);
    let mut posted = b"vaa".to_vec();
    posted.extend_from_slice(&[1, 32]);
    posted.extend_from_slice(&0u32.to_le_bytes());
    posted.extend_from_slice(&[0u8; 32]);
    posted.extend_from_slice(&0u32.to_le_bytes());
    posted.extend_from_slice(&0u32.to_le_bytes());
    posted.extend_from_slice(&7u64.to_le_bytes());
    posted.extend_from_slice(&2u16.to_le_bytes());
    posted.extend_from_slice(&EMITTER);
    posted.extend_from_slice(&(payload(500, 2).len() as u32).to_le_bytes());
    posted.extend_from_slice(&payload(500, 2));
    accs.vaa.message = xc_swap::codec::get_message_data(&posted).unwrap();
    assert_eq!(accs.vaa.message.emitter_chain, 2);
    assert_eq!(accs.vaa.message.sequence, 7);
    let done =
        complete_transfer_and_swap(&mut l, &accs, RENT, Ok(()), CompleteTransferAndSwapData {}).unwrap();
    assert_eq!(done.amount, 500);
    assert_eq!(done.balance, 500);
    assert_eq!(l.custody.len(), 1);
    assert_eq!(l.custody[0].balance, 500);
    assert_eq!(l.claims.records, vec![ClaimKey { chain: 2, emitter: EMITTER, sequence: 7 }]);
    assert!(l.claims.is_claimed(&ClaimKey { chain: 2, emitter: EMITTER, sequence: 7 }));
}

#[test]
fn resubmission_is_already_claimed() {
    let mut l = ledger();
    let accs = accounts(7, 500);
    assert_eq!(run(&mut l, &accs), Ok(500));
    let custody_after_first = l.custody.clone();
    assert_eq!(run(&mut l, &accs), Err(CompleteError::AlreadyClaimed));
    assert_eq!(l.custody, custody_after_first);
    assert_eq!(l.custody[0].balance, 500);
    assert_eq!(l.claims.records.len(), 1);
}

#[test]
fn wrong_custody_is_a_mismatch() {
    let mut l = ledger();
    let mut accs = accounts(7, 500);
    accs.custody = id(0x99);
    assert_eq!(
        run(&mut l, &accs),
        Err(CompleteError::Mismatch(MismatchError { supplied: id(0x99), account: Account::Custody }))
    );
    assert!(l.custody.is_empty());
    assert!(l.claims.records.is_empty());
    assert!(!l.claims.is_claimed(&ClaimKey { chain: 2, emitter: EMITTER, sequence: 7 }));
}

#[test]
fn first_transfer_creates_custody() {
    let mut l = ledger();
    let accs = accounts(1, 12_345);
    assert!(l.find_custody(&accs.custody).is_none());
    let done =
        complete_transfer_and_swap(&mut l, &accs, RENT + 10, Ok(()), CompleteTransferAndSwapData {})
            .unwrap();
    let expected_id = xc_swap::derivation::derive(&registry(), &Role::CustodyAccount { mint: id(0x44) }).unwrap();
    assert_eq!(
        l.custody,
        vec![CustodyAccount {
            id: expected_id,
            mint: id(0x44),
            owner: id(0x55),
            lamports: RENT,
            balance: 12_345,
        }]
    );
    let ix = done.initialize.expect("the account was created");
    assert_eq!(ix.program_id.bytes, spl_token::id().to_bytes());
    assert_eq!(ix.data, vec![1u8]);
    assert_eq!(ix.accounts.len(), 4);
    assert_eq!(ix.accounts[0].id, expected_id);
    assert!(ix.accounts[0].is_writable);
    assert_eq!(ix.accounts[1].id, id(0x44));
    assert!(!ix.accounts[1].is_writable);
    assert_eq!(ix.accounts[2].id, id(0x55));
    assert!(ix.accounts.iter().all(|a| !a.is_signer));
}

#[test]
fn second_transfer_of_an_asset_reuses_custody() {
    let mut l = ledger();
    assert_eq!(run(&mut l, &accounts(1, 100)), Ok(100));
    let done =
        complete_transfer_and_swap(&mut l, &accounts(2, 50), 0, Ok(()), CompleteTransferAndSwapData {})
            .unwrap();
    assert_eq!(done.initialize, None);
    assert_eq!(done.balance, 150);
    assert_eq!(l.custody.len(), 1);
    assert_eq!(l.custody[0].lamports, RENT);
    assert_eq!(l.claims.records.len(), 2);
}

#[test]
fn provisioning_twice_creates_once() {
    let mut l = ledger();
    let mint = id(0x44);
    let custody = xc_swap::derivation::derive(&registry(), &Role::CustodyAccount { mint }).unwrap();
    let first = l.provision_custody(&custody, &mint, &id(0x55), RENT).unwrap();
    assert!(first.is_some());
    let after_first = l.custody.clone();
    assert_eq!(l.provision_custody(&custody, &mint, &id(0x55), RENT), Ok(None));
    assert_eq!(l.provision_custody(&custody, &mint, &id(0x55), 0), Ok(None));
    assert_eq!(l.custody, after_first);
    assert_eq!(l.custody[0].balance, 0);
    assert_eq!(l.custody[0].lamports, RENT);
}

#[test]
fn provisioning_checks_derivation_and_funding() {
    let mut l = ledger();
    let mint = id(0x44);
    let custody = xc_swap::derivation::derive(&registry(), &Role::CustodyAccount { mint }).unwrap();
    assert_eq!(
        l.provision_custody(&mint, &mint, &id(0x55), RENT),
        Err(CompleteError::Mismatch(MismatchError { supplied: mint, account: Account::Custody }))
    );
    assert_eq!(
        l.provision_custody(&custody, &mint, &id(0x55), RENT - 1),
        Err(CompleteError::InsufficientFunding)
    );
    assert!(l.custody.is_empty());
}

#[test]
fn failed_consumer_leaves_no_claim() {
    let mut l = ledger();
    let accs = accounts(7, 500);
    assert_eq!(
        complete_transfer_and_swap(&mut l, &accs, RENT, Err(42), CompleteTransferAndSwapData {}),
        Err(CompleteError::Downstream(42))
    );
    assert!(l.claims.records.is_empty());
    assert!(l.custody.is_empty());
    assert_eq!(run(&mut l, &accs), Ok(500));
}

#[test]
fn consumer_is_not_asked_without_payload() {
    let mut l = ledger();
    let mut accs = accounts(7, 500);
    accs.vaa.message.payload.truncate(133);
    let done =
        complete_transfer_and_swap(&mut l, &accs, RENT, Err(42), CompleteTransferAndSwapData {})
            .unwrap();
    assert_eq!(done.balance, 500);
    assert_eq!(done.recipient, [0xBB; 32]);
    assert_eq!(l.claims.records.len(), 1);
}

#[test]
fn unregistered_emitter_is_refused() {
    let mut l = Ledger::new(registry(), THIS_CHAIN, RENT);
    assert_eq!(run(&mut l, &accounts(7, 500)), Err(CompleteError::UnregisteredEmitter));
    assert!(l.claims.records.is_empty());
}

#[test]
fn wrong_config_registration_claim_or_meta_is_a_mismatch() {
    let mut l = ledger();
    let mut accs = accounts(7, 500);
    accs.config = id(0x10);
    assert_eq!(
        run(&mut l, &accs),
        Err(CompleteError::Mismatch(MismatchError { supplied: id(0x10), account: Account::Config }))
    );
    let mut accs = accounts(7, 500);
    accs.chain_registration = id(0x11);
    assert_eq!(
        run(&mut l, &accs),
        Err(CompleteError::Mismatch(MismatchError {
            supplied: id(0x11),
            account: Account::ChainRegistration
        }))
    );
    let mut accs = accounts(7, 500);
    accs.vaa.claim = accounts(8, 500).vaa.claim;
    assert_eq!(
        run(&mut l, &accs),
        Err(CompleteError::Mismatch(MismatchError {
            supplied: accs.vaa.claim,
            account: Account::Claim
        }))
    );
    let mut accs = accounts(7, 500);
    accs.wrapped_meta = id(0x12);
    assert_eq!(
        run(&mut l, &accs),
        Err(CompleteError::Mismatch(MismatchError {
            supplied: id(0x12),
            account: Account::WrappedMeta
        }))
    );
    assert!(l.claims.records.is_empty());
    assert!(l.custody.is_empty());
}

#[test]
fn native_asset_names_its_own_mint() {
    let r = registry();
    let mut l = ledger();
    let mut accs = accounts(7, 500);
    accs.vaa.message.payload = payload(500, THIS_CHAIN);
    assert_eq!(
        run(&mut l, &accs),
        Err(CompleteError::Mismatch(MismatchError { supplied: id(0x44), account: Account::Mint }))
    );
    accs.mint = AccountId { bytes: ASSET };
    accs.custody = xc_swap::derivation::derive(&r, &Role::CustodyAccount { mint: accs.mint }).unwrap();
    accs.wrapped_meta = id(0);
    assert_eq!(run(&mut l, &accs), Ok(500));
    assert_eq!(l.custody[0].mint, AccountId { bytes: ASSET });
}

#[test]
fn payload_that_is_no_transfer_is_refused() {
    let mut l = ledger();
    let mut accs = accounts(7, 500);
    accs.vaa.message.payload = vec![3u8; 10];
    assert_eq!(run(&mut l, &accs), Err(CompleteError::Decode(DecodeError::Truncated)));
    accs.vaa.message.payload = payload(500, 2);
    accs.vaa.message.payload[0] = 1;
    assert_eq!(run(&mut l, &accs), Err(CompleteError::Decode(DecodeError::UnknownVersion)));
}

#[test]
fn custody_that_cannot_be_funded_is_refused() {
    let mut l = ledger();
    let accs = accounts(7, 500);
    assert_eq!(
        complete_transfer_and_swap(&mut l, &accs, RENT - 1, Ok(()), CompleteTransferAndSwapData {}),
        Err(CompleteError::InsufficientFunding)
    );
    assert!(l.custody.is_empty());
    assert!(l.claims.records.is_empty());
}

#[test]
fn balance_that_would_overflow_is_refused() {
    let mut l = ledger();
    assert_eq!(run(&mut l, &accounts(1, u64::MAX)), Ok(u64::MAX));
    assert_eq!(run(&mut l, &accounts(2, 1)), Err(CompleteError::BalanceOverflow));
    assert_eq!(l.custody[0].balance, u64::MAX);
    assert_eq!(l.claims.records.len(), 1);
    assert_eq!(run(&mut l, &accounts(2, 0)), Ok(u64::MAX));
}

#[test]
fn registration_is_looked_up_by_identifier() {
    let mut l = Ledger::new(registry(), THIS_CHAIN, RENT);
    assert!(!l.is_registered(&id(3)));
    l.register_endpoint(id(3));
    assert!(l.is_registered(&id(3)));
    assert!(!l.is_registered(&id(4)));
}

const ALL_PASSED: Checks =
    Checks { config: true, chain_registration: true, claim: true, wrapped_meta: true, custody: true };

#[test]
fn check_accounts_recomputes_every_derivation() {
    let accs = accounts(7, 500);
    assert_eq!(check_accounts(&registry(), &accs), ALL_PASSED);
    let mut forged = accounts(7, 500);
    forged.custody = id(0x99);
    forged.config = id(0x98);
    assert_eq!(
        check_accounts(&registry(), &forged),
        Checks { config: false, custody: false, ..ALL_PASSED }
    );
    let mut other = accounts(7, 500);
    other.vaa.message.sequence = 8;
    assert_eq!(check_accounts(&registry(), &other), Checks { claim: false, ..ALL_PASSED });
    let mut short = accounts(7, 500);
    short.vaa.message.payload.truncate(10);
    assert_eq!(check_accounts(&registry(), &short), Checks { wrapped_meta: false, ..ALL_PASSED });
}

#[test]
fn checked_completion_goes_by_the_checks_it_is_given() {
    let mut l = ledger();
    let accs = accounts(7, 500);
    assert_eq!(
        complete_checked(&mut l, &accs, Checks { claim: false, ..ALL_PASSED }, RENT, Ok(())),
        Err(CompleteError::Mismatch(MismatchError {
            supplied: accs.vaa.claim,
            account: Account::Claim
        }))
    );
    assert_eq!(
        complete_checked(
            &mut l,
            &accs,
            Checks { config: false, claim: false, ..ALL_PASSED },
            RENT,
            Ok(())
        ),
        Err(CompleteError::Mismatch(MismatchError {
            supplied: accs.config,
            account: Account::Config
        }))
    );
    assert!(l.claims.records.is_empty());
    let done = complete_checked(&mut l, &accs, ALL_PASSED, RENT, Ok(())).unwrap();
    assert_eq!(done.balance, 500);
    assert_eq!(
        complete_checked(&mut l, &accs, ALL_PASSED, RENT, Ok(())),
        Err(CompleteError::AlreadyClaimed)
    );
}

#[test]
fn provision_at_takes_the_identifier_as_given() {
    let mut l = ledger();
    let first = l.provision_at(&id(0x70), &id(0x44), &id(0x55), RENT).unwrap();
    assert!(first.is_some());
    assert_eq!(l.provision_at(&id(0x70), &id(0x44), &id(0x55), 0), Ok(None));
    assert_eq!(
        l.provision_at(&id(0x71), &id(0x44), &id(0x55), RENT - 1),
        Err(CompleteError::InsufficientFunding)
    );
    assert_eq!(l.custody.len(), 1);
    assert_eq!(l.find_custody(&id(0x70)), Some(0));
    assert_eq!(l.find_custody(&id(0x71)), None);
}
