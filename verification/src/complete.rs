//! Completion of a transfer: every supplied account is checked against its derivation,
//! the message is claimed, custody is provisioned on first use, and the amount is
//! credited, all or nothing.

use vstd::prelude::*;
use crate::bytes::{same_bytes, u16_be_at, u64_be_at};
use crate::claim::{ClaimKey, ClaimLedger};
use crate::codec::{
    transfer_error, DecodeError, MessageData, PayloadTransferWithPayload,
};
use crate::derivation::{
    address_of, derived, verified, verify, wrapped_meta_seeds, Account, AccountId,
    ClaimDerivationData, CustodyAccountDerivationData, EndpointDerivationData, MismatchError,
    Registry, Role, WrappedDerivationData,
};

verus! {

/// The holding that backs the transfers of one asset.
#[derive(Debug, Clone, Copy, PartialEq, Eq)]
pub struct CustodyAccount {
    /// Where the account lives: the identifier derived from `mint`.
    pub id: AccountId,
    /// The asset that is held.
    pub mint: AccountId,
    /// Who signs for the holding.
    pub owner: AccountId,
    /// What the account was funded with when it was created.
    pub lamports: u64,
    /// Amount of the asset that is held.
    pub balance: u64,
}

/// A posted message together with the account that records its claim.
#[derive(Debug, Clone)]
pub struct ClaimableVaa {
    pub message: MessageData,
    pub claim: AccountId,
}

/// The accounts that a caller names for one completion.
#[derive(Debug, Clone)]
pub struct CompleteTransferAndSwap {
    pub payer: AccountId,
    pub config: AccountId,
    /// Signed message for the transfer, with its claim account.
    pub vaa: ClaimableVaa,
    pub chain_registration: AccountId,
    pub custody: AccountId,
    pub custody_signer: AccountId,
    pub to_fees: AccountId,
    pub mint: AccountId,
    pub wrapped_meta: AccountId,
    pub mint_authority: AccountId,
    pub token_bridge: AccountId,
}

/// Instruction data of a completion: it has none.
#[derive(Debug, Clone, Copy, PartialEq, Eq, Default)]
pub struct CompleteTransferAndSwapData {}

/// Why a completion was refused. Whatever the reason, the ledger is as it was.
#[derive(Debug, Clone, Copy, PartialEq, Eq)]
pub enum CompleteError {
    /// The message's payload is not a transfer.
    Decode(DecodeError),
    /// A supplied account is not the derived one.
    Mismatch(MismatchError),
    /// The emitter has no registration on this ledger.
    UnregisteredEmitter,
    /// The message was consumed before.
    AlreadyClaimed,
    /// The payer cannot fund a new custody account.
    InsufficientFunding,
    /// The custody balance cannot take the amount.
    BalanceOverflow,
    /// The consumer of the payload failed, with this code.
    Downstream(u64),
}

/// An account that an instruction names, and what the instruction may do with it.
#[derive(Debug, Clone, Copy, PartialEq, Eq)]
pub struct AccountMeta {
    pub id: AccountId,
    pub is_signer: bool,
    pub is_writable: bool,
}

/// An instruction for another program of the ledger.
#[derive(Debug, Clone, PartialEq, Eq)]
pub struct Instruction {
    pub program_id: AccountId,
    pub accounts: Vec<AccountMeta>,
    pub data: Vec<u8>,
}

/// Whether `ix` initialises the token account `account` for `mint` under `owner`: the
/// account writable, the mint, the owner and one more account read only, nobody signing,
/// and the one byte 1 as data.
pub open spec fn initializes_account(
    ix: Instruction,
    account: Seq<u8>,
    mint: Seq<u8>,
    owner: Seq<u8>,
) -> bool {
    &&& ix.accounts@.len() == 4
    &&& ix.accounts@[0].id.bytes@ == account
    &&& ix.accounts@[0].is_writable
    &&& ix.accounts@[1].id.bytes@ == mint
    &&& !ix.accounts@[1].is_writable
    &&& ix.accounts@[2].id.bytes@ == owner
    &&& !ix.accounts@[2].is_writable
    &&& !ix.accounts@[3].is_writable
    &&& forall|i: int| 0 <= i < 4 ==> !(#[trigger] ix.accounts@[i]).is_signer
    &&& ix.data@ == seq![1u8]
}

/// Calls `spl_token::instruction::initialize_account` for the token program
/// `spl_token::id()`. With that program the call does not fail; the contract states the
/// instruction's accounts with their flags and its data, and leaves open the two
/// identifiers that the token standard fixes: the program's and the rent account's.
#[verifier::external_body]
fn initialize_account(account: &[u8; 32], mint: &[u8; 32], owner: &[u8; 32]) -> (r: Option<
    Instruction,
>)
    ensures
        r is Some,
        initializes_account(r.unwrap(), account@, mint@, owner@),
{
    let key = |b: &[u8; 32]| spl_token::solana_program::pubkey::Pubkey::new_from_array(*b);
    let token = spl_token::id();
    match spl_token::instruction::initialize_account(&token, &key(account), &key(mint), &key(owner)) {
        Ok(ix) => Some(Instruction {
            program_id: AccountId { bytes: ix.program_id.to_bytes() },
            accounts: ix.accounts.iter().map(|m| AccountMeta {
                id: AccountId { bytes: m.pubkey.to_bytes() }, is_signer: m.is_signer, is_writable: m.is_writable,
            }).collect(),
            data: ix.data,
        }),
        Err(_) => None,
    }
}

/// What a completion did.
#[derive(Debug, Clone, PartialEq, Eq)]
pub struct Completion {
    /// The instruction that initialises the custody account, if this completion created
    /// the account.
    pub initialize: Option<Instruction>,
    /// Amount credited to custody.
    pub amount: u64,
    /// Whom the transfer names as recipient.
    pub recipient: [u8; 32],
    /// Custody balance after the credit.
    pub balance: u64,
}

/// The state that completions read and change.
#[derive(Debug)]
pub struct Ledger {
    /// The identifiers that accounts are derived from.
    pub registry: Registry,
    /// Chain identifier of this ledger: assets of this chain are native.
    pub chain_id: u16,
    /// Least funding with which an account may be created.
    pub rent_exempt_minimum: u64,
    /// Identifiers at which an emitter's registration exists.
    pub endpoints: Vec<AccountId>,
    /// Records of the messages consumed.
    pub claims: ClaimLedger,
    /// The custody accounts that exist.
    pub custody: Vec<CustodyAccount>,
}

/// Index of the first account of `custody` that lives at `id`.
pub open spec fn custody_position(custody: Seq<CustodyAccount>, id: Seq<u8>) -> Option<int>
    decreases custody.len(),
{
    if custody.len() == 0 {
        None
    } else {
        match custody_position(custody.drop_last(), id) {
            Some(i) => Some(i),
            None => if custody.last().id.bytes@ == id {
                Some(custody.len() - 1)
            } else {
                None
            },
        }
    }
}

/// Whether a registration exists at `id`.
pub open spec fn registered(endpoints: Seq<AccountId>, id: AccountId) -> bool {
    exists|i: int| 0 <= i < endpoints.len() && #[trigger] endpoints[i].bytes@ == id.bytes@
}

/// The custody accounts after provisioning one at `id` for `mint`: a new, empty account
/// funded with `rent` is added if none lives at `id` and `funds` cover `rent`; otherwise
/// nothing changes.
pub open spec fn provisioned(
    custody: Seq<CustodyAccount>,
    id: AccountId,
    mint: AccountId,
    owner: AccountId,
    rent: u64,
    funds: u64,
) -> Seq<CustodyAccount> {
    if custody_position(custody, id.bytes@) is Some || funds < rent {
        custody
    } else {
        custody.push(CustodyAccount { id, mint, owner, lamports: rent, balance: 0 })
    }
}

/// The custody accounts after `amount` is added to the balance of the account at `id`.
pub open spec fn credited(custody: Seq<CustodyAccount>, id: Seq<u8>, amount: u64) -> Seq<
    CustodyAccount,
> {
    match custody_position(custody, id) {
        Some(i) => custody.update(
            i,
            CustodyAccount { balance: (custody[i].balance + amount) as u64, ..custody[i] },
        ),
        None => custody,
    }
}

impl EndpointDerivationData {
    /// The seeds of the registration of the emitter of the message of `accs`.
    pub fn from(accs: &CompleteTransferAndSwap) -> (r: EndpointDerivationData)
        ensures
            r.emitter_chain == accs.vaa.message.emitter_chain,
            r.emitter_address == accs.vaa.message.emitter_address,
    {
        EndpointDerivationData {
            emitter_chain: accs.vaa.message.emitter_chain,
            emitter_address: accs.vaa.message.emitter_address,
        }
    }

    /// The role that these seeds describe.
    pub fn role(&self) -> (r: Role)
        ensures
            r == (Role::Endpoint { chain: self.emitter_chain, emitter: self.emitter_address }),
    {
        Role::Endpoint { chain: self.emitter_chain, emitter: self.emitter_address }
    }
}

impl ClaimDerivationData {
    /// The seeds of the claim record of the message of `accs`.
    pub fn from(accs: &CompleteTransferAndSwap) -> (r: ClaimDerivationData)
        ensures
            r.emitter_chain == accs.vaa.message.emitter_chain,
            r.emitter_address == accs.vaa.message.emitter_address,
            r.sequence == accs.vaa.message.sequence,
    {
        ClaimDerivationData {
            emitter_address: accs.vaa.message.emitter_address,
            emitter_chain: accs.vaa.message.emitter_chain,
            sequence: accs.vaa.message.sequence,
        }
    }

    /// The role that these seeds describe.
    pub fn role(&self) -> (r: Role)
        ensures
            r == (Role::ClaimRecord {
                chain: self.emitter_chain,
                emitter: self.emitter_address,
                sequence: self.sequence,
            }),
    {
        Role::ClaimRecord {
            chain: self.emitter_chain,
            emitter: self.emitter_address,
            sequence: self.sequence,
        }
    }

    /// The key that these seeds claim.
    pub fn key(&self) -> (r: ClaimKey)
        ensures
            r == (ClaimKey {
                chain: self.emitter_chain,
                emitter: self.emitter_address,
                sequence: self.sequence,
            }),
    {
        ClaimKey {
            chain: self.emitter_chain,
            emitter: self.emitter_address,
            sequence: self.sequence,
        }
    }
}

impl WrappedDerivationData {
    /// The seeds of the metadata of the asset that `transfer` moves.
    pub fn from(transfer: &PayloadTransferWithPayload) -> (r: WrappedDerivationData)
        ensures
            r.token_chain == transfer.token_chain,
            r.token_address == transfer.token_address,
    {
        WrappedDerivationData {
            token_chain: transfer.token_chain,
            token_address: transfer.token_address,
        }
    }

    /// The role that these seeds describe.
    pub fn role(&self) -> (r: Role)
        ensures
            r == (Role::WrappedAssetMeta { chain: self.token_chain, asset: self.token_address }),
    {
        Role::WrappedAssetMeta { chain: self.token_chain, asset: self.token_address }
    }
}

impl CustodyAccountDerivationData {
    /// The seeds of the custody account of the mint that `accs` names.
    pub fn from(accs: &CompleteTransferAndSwap) -> (r: CustodyAccountDerivationData)
        ensures
            r.mint == accs.mint,
    {
        CustodyAccountDerivationData { mint: accs.mint }
    }

    /// The role that these seeds describe.
    pub fn role(&self) -> (r: Role)
        ensures
            r == (Role::CustodyAccount { mint: self.mint }),
    {
        Role::CustodyAccount { mint: self.mint }
    }
}

/// The key under which `m` is claimed.
pub open spec fn key_of(m: MessageData) -> ClaimKey {
    ClaimKey { chain: m.emitter_chain, emitter: m.emitter_address, sequence: m.sequence }
}

/// The first of two refusals.
pub open spec fn or_else(a: Option<CompleteError>, b: Option<CompleteError>) -> Option<
    CompleteError,
> {
    if a is Some {
        a
    } else {
        b
    }
}

/// Which of the accounts that a caller named are the derived ones.
#[derive(Debug, Clone, Copy, PartialEq, Eq, Structural)]
pub struct Checks {
    pub config: bool,
    pub chain_registration: bool,
    pub claim: bool,
    /// Whether the metadata account is the one derived from the asset that the transfer
    /// names; false where the payload is no transfer.
    pub wrapped_meta: bool,
    pub custody: bool,
}

/// What recomputing every derivation finds for the accounts `accs` under `registry`.
pub open spec fn checks_of(registry: Registry, accs: CompleteTransferAndSwap) -> Checks {
    let m = accs.vaa.message;
    let p = m.payload@;
    Checks {
        config: verified(accs.config, registry, Role::Config) is Ok,
        chain_registration: verified(
            accs.chain_registration,
            registry,
            Role::Endpoint { chain: m.emitter_chain, emitter: m.emitter_address },
        ) is Ok,
        claim: verified(
            accs.vaa.claim,
            registry,
            Role::ClaimRecord {
                chain: m.emitter_chain,
                emitter: m.emitter_address,
                sequence: m.sequence,
            },
        ) is Ok,
        wrapped_meta: transfer_error(p) is None && address_of(
            registry,
            wrapped_meta_seeds(u16_be_at(p, 65) as u16, p.subrange(33, 65)),
        ) == Some(accs.wrapped_meta.bytes@),
        custody: verified(accs.custody, registry, Role::CustodyAccount { mint: accs.mint }) is Ok,
    }
}

/// The refusal of `supplied` as `account`, unless the check of it passed.
pub open spec fn mismatch_unless(passed: bool, supplied: AccountId, account: Account) -> Option<
    CompleteError,
> {
    if passed {
        None
    } else {
        Some(CompleteError::Mismatch(MismatchError { supplied, account }))
    }
}

/// Refusal of a payload that is no transfer.
pub open spec fn decode_refusal(accs: CompleteTransferAndSwap) -> Option<CompleteError> {
    match transfer_error(accs.vaa.message.payload@) {
        Some(e) => Some(CompleteError::Decode(e)),
        None => None,
    }
}

/// Refusal of an emitter: the supplied registration is not the derived one, or none
/// exists there.
pub open spec fn registration_refusal(
    ledger: Ledger,
    accs: CompleteTransferAndSwap,
    checks: Checks,
) -> Option<CompleteError> {
    or_else(
        mismatch_unless(
            checks.chain_registration,
            accs.chain_registration,
            Account::ChainRegistration,
        ),
        if registered(ledger.endpoints@, accs.chain_registration) {
            None
        } else {
            Some(CompleteError::UnregisteredEmitter)
        },
    )
}

/// Refusal of a claim: the supplied claim account is not the derived one, or the message
/// has a record already.
pub open spec fn claim_refusal(
    ledger: Ledger,
    accs: CompleteTransferAndSwap,
    checks: Checks,
) -> Option<CompleteError> {
    or_else(
        mismatch_unless(checks.claim, accs.vaa.claim, Account::Claim),
        if ledger.claims@.contains(key_of(accs.vaa.message)@) {
            Some(CompleteError::AlreadyClaimed)
        } else {
            None
        },
    )
}

/// Refusal of the asset's accounts. An asset of this ledger's chain is native: the
/// supplied mint must be the asset's address. Any other asset is wrapped: the supplied
/// metadata account must be the one derived from the asset's chain and address. Either
/// way the supplied custody account must be the one derived from the mint.
pub open spec fn asset_refusal(
    ledger: Ledger,
    accs: CompleteTransferAndSwap,
    checks: Checks,
) -> Option<CompleteError> {
    let p = accs.vaa.message.payload@;
    or_else(
        if u16_be_at(p, 65) == ledger.chain_id {
            mismatch_unless(accs.mint.bytes@ == p.subrange(33, 65), accs.mint, Account::Mint)
        } else {
            mismatch_unless(checks.wrapped_meta, accs.wrapped_meta, Account::WrappedMeta)
        },
        mismatch_unless(checks.custody, accs.custody, Account::Custody),
    )
}

/// Whether the transfer in `payload` carries bytes for a consumer.
pub open spec fn has_consumer_payload(payload: Seq<u8>) -> bool {
    payload.len() > 133
}

/// Refusal of the effect: a custody account that has to be created and cannot be funded,
/// a balance that cannot take the amount, or, where the transfer carries bytes for a
/// consumer, a consumer that failed.
pub open spec fn effect_refusal(
    ledger: Ledger,
    accs: CompleteTransferAndSwap,
    payer_lamports: u64,
    downstream: Result<(), u64>,
) -> Option<CompleteError> {
    let amount = u64_be_at(accs.vaa.message.payload@, 25);
    or_else(
        match custody_position(ledger.custody@, accs.custody.bytes@) {
            None => if payer_lamports < ledger.rent_exempt_minimum {
                Some(CompleteError::InsufficientFunding)
            } else {
                None
            },
            Some(i) => if ledger.custody@[i].balance + amount > u64::MAX {
                Some(CompleteError::BalanceOverflow)
            } else {
                None
            },
        },
        match downstream {
            Err(code) if has_consumer_payload(accs.vaa.message.payload@) => Some(
                CompleteError::Downstream(code),
            ),
            _ => None,
        },
    )
}

/// Why a completion is refused, if it is, where `checks` says which accounts are the
/// derived ones: the first check that fails, in the order payload, configuration,
/// registration, claim, asset, effect.
pub open spec fn refusal_given(
    ledger: Ledger,
    accs: CompleteTransferAndSwap,
    checks: Checks,
    payer_lamports: u64,
    downstream: Result<(), u64>,
) -> Option<CompleteError> {
    or_else(
        decode_refusal(accs),
        or_else(
            mismatch_unless(checks.config, accs.config, Account::Config),
            or_else(
                registration_refusal(ledger, accs, checks),
                or_else(
                    claim_refusal(ledger, accs, checks),
                    or_else(
                        asset_refusal(ledger, accs, checks),
                        effect_refusal(ledger, accs, payer_lamports, downstream),
                    ),
                ),
            ),
        ),
    )
}

/// Why a completion is refused, if it is, every derivation recomputed from the ledger's
/// registry.
pub open spec fn refusal(
    ledger: Ledger,
    accs: CompleteTransferAndSwap,
    payer_lamports: u64,
    downstream: Result<(), u64>,
) -> Option<CompleteError> {
    refusal_given(ledger, accs, checks_of(ledger.registry, accs), payer_lamports, downstream)
}

/// What a completion that is not refused leaves: the message claimed, a custody account
/// at the supplied identifier, created if there was none, with the amount added to its
/// balance, and nothing else changed; and in `done` what was done.
pub open spec fn completed(
    before: Ledger,
    after: Ledger,
    accs: CompleteTransferAndSwap,
    payer_lamports: u64,
    done: Completion,
) -> bool {
    let amount = u64_be_at(accs.vaa.message.payload@, 25) as u64;
    let key = key_of(accs.vaa.message);
    &&& !before.claims@.contains(key@)
    &&& after.claims@ == before.claims@.insert(key@)
    &&& after.claims.records@ == before.claims.records@.push(key)
    &&& after.custody@ == credited(
        provisioned(
            before.custody@,
            accs.custody,
            accs.mint,
            accs.custody_signer,
            before.rent_exempt_minimum,
            payer_lamports,
        ),
        accs.custody.bytes@,
        amount,
    )
    &&& after.registry == before.registry
    &&& after.chain_id == before.chain_id
    &&& after.rent_exempt_minimum == before.rent_exempt_minimum
    &&& after.endpoints == before.endpoints
    &&& done.amount == amount
    &&& done.recipient@ == accs.vaa.message.payload@.subrange(67, 99)
    &&& done.initialize is Some == (custody_position(before.custody@, accs.custody.bytes@) is None)
    &&& done.initialize is Some ==> initializes_account(
        done.initialize.unwrap(),
        accs.custody.bytes@,
        accs.mint.bytes@,
        accs.custody_signer.bytes@,
    )
    &&& custody_position(after.custody@, accs.custody.bytes@) is Some
    &&& done.balance == after.custody@[custody_position(
        after.custody@,
        accs.custody.bytes@,
    ).unwrap()].balance
}

/// What `custody_position` finds: the first account at `id`, or that there is none.
pub proof fn lemma_custody_position(custody: Seq<CustodyAccount>, id: Seq<u8>)
    ensures
        match custody_position(custody, id) {
            Some(i) => 0 <= i < custody.len() && custody[i].id.bytes@ == id && forall|j: int|
                0 <= j < i ==> (#[trigger] custody[j]).id.bytes@ != id,
            None => forall|j: int|
                0 <= j < custody.len() ==> (#[trigger] custody[j]).id.bytes@ != id,
        },
    decreases custody.len(),
{
    if custody.len() > 0 {
        lemma_custody_position(custody.drop_last(), id);
        assert forall|j: int| 0 <= j < custody.len() - 1 implies custody.drop_last()[j]
            == custody[j] by {}
        match custody_position(custody.drop_last(), id) {
            Some(i) => {
                assert(custody.drop_last()[i] == custody[i]);
                assert forall|j: int| 0 <= j < i implies (#[trigger] custody[j]).id.bytes@
                    != id by {
                    assert(custody.drop_last()[j] == custody[j]);
                }
            },
            None => {
                assert forall|j: int| 0 <= j < custody.len() - 1 implies (
                #[trigger] custody[j]).id.bytes@ != id by {
                    assert(custody.drop_last()[j] == custody[j]);
                }
            },
        }
    }
}

impl Ledger {
    /// No two custody accounts live at one identifier.
    pub open spec fn distinct(&self) -> bool {
        forall|i: int, j: int|
            0 <= i < j < self.custody@.len() ==> (#[trigger] self.custody@[i]).id.bytes@ != (
            #[trigger] self.custody@[j]).id.bytes@
    }

    /// No two custody accounts live at one identifier, and each lives at the identifier
    /// derived from its mint.
    pub open spec fn wf(&self) -> bool {
        &&& self.distinct()
        &&& forall|i: int|
            0 <= i < self.custody@.len() ==> derived(
                self.registry,
                Role::CustodyAccount { mint: (#[trigger] self.custody@[i]).mint },
            ) == Some(self.custody@[i].id.bytes@)
    }

    /// Whether `other` differs from `self` in its custody accounts at most.
    pub open spec fn same_but_custody(&self, other: Ledger) -> bool {
        &&& other.registry == self.registry
        &&& other.chain_id == self.chain_id
        &&& other.rent_exempt_minimum == self.rent_exempt_minimum
        &&& other.endpoints == self.endpoints
        &&& other.claims == self.claims
    }

    /// A ledger without registrations, claims or custody.
    pub fn new(registry: Registry, chain_id: u16, rent_exempt_minimum: u64) -> (r: Ledger)
        ensures
            r.wf(),
            r.registry == registry,
            r.chain_id == chain_id,
            r.rent_exempt_minimum == rent_exempt_minimum,
            r.endpoints@.len() == 0,
            r.claims@ == Set::<(u16, Seq<u8>, u64)>::empty(),
            r.claims.records@.len() == 0,
            r.custody@.len() == 0,
    {
        Ledger {
            registry,
            chain_id,
            rent_exempt_minimum,
            endpoints: Vec::new(),
            claims: ClaimLedger::new(),
            custody: Vec::new(),
        }
    }

    /// Records that a registration exists at `id`.
    pub fn register_endpoint(&mut self, id: AccountId)
        ensures
            final(self).endpoints@ == old(self).endpoints@.push(id),
            registered(final(self).endpoints@, id),
            final(self).registry == old(self).registry,
            final(self).chain_id == old(self).chain_id,
            final(self).rent_exempt_minimum == old(self).rent_exempt_minimum,
            final(self).claims == old(self).claims,
            final(self).custody == old(self).custody,
    {
        self.endpoints.push(id);
        assert(self.endpoints@[self.endpoints@.len() - 1].bytes@ == id.bytes@);
    }

    /// Whether a registration exists at `id`.
    pub fn is_registered(&self, id: &AccountId) -> (r: bool)
        ensures
            r == registered(self.endpoints@, *id),
    {
        let mut i: usize = 0;
        while i < self.endpoints.len()
            invariant
                i <= self.endpoints@.len(),
                forall|j: int| 0 <= j < i ==> (#[trigger] self.endpoints@[j]).bytes@ != id.bytes@,
            decreases self.endpoints@.len() - i,
        {
            if self.endpoints[i].same(id) {
                return true;
            }
            i += 1;
        }
        false
    }

    /// Index of the custody account that lives at `id`.
    pub fn find_custody(&self, id: &AccountId) -> (r: Option<usize>)
        ensures
            match r {
                Some(i) => custody_position(self.custody@, id.bytes@) == Some(i as int),
                None => custody_position(self.custody@, id.bytes@) is None,
            },
    {
        let mut i: usize = 0;
        while i < self.custody.len()
            invariant
                i <= self.custody@.len(),
                forall|j: int| 0 <= j < i ==> (#[trigger] self.custody@[j]).id.bytes@ != id.bytes@,
            decreases self.custody@.len() - i,
        {
            if self.custody[i].id.same(id) {
                proof {
                    lemma_custody_position(self.custody@, id.bytes@);
                }
                return Some(i);
            }
            i += 1;
        }
        proof {
            lemma_custody_position(self.custody@, id.bytes@);
        }
        None
    }

    /// Makes sure that a custody account for `mint` exists at `custody`. An account that
    /// exists is left as it is; a new one is created empty, funded with the least funding
    /// from `payer_lamports`. Answers with the instruction that initialises the account if
    /// it was created. That `custody` is the identifier derived from `mint` is for the
    /// caller to have checked.
    pub fn provision_at(
        &mut self,
        custody: &AccountId,
        mint: &AccountId,
        owner: &AccountId,
        payer_lamports: u64,
    ) -> (r: Result<Option<Instruction>, CompleteError>)
        ensures
            old(self).same_but_custody(*final(self)),
            old(self).distinct() ==> final(self).distinct(),
            r is Err ==> *final(self) == *old(self),
            if custody_position(old(self).custody@, custody.bytes@) is Some {
                r == Ok::<Option<Instruction>, CompleteError>(None)
            } else if payer_lamports < old(self).rent_exempt_minimum {
                r == Err::<Option<Instruction>, CompleteError>(CompleteError::InsufficientFunding)
            } else {
                r is Ok && r.unwrap() is Some && initializes_account(
                    r.unwrap().unwrap(),
                    custody.bytes@,
                    mint.bytes@,
                    owner.bytes@,
                )
            },
            r is Ok ==> final(self).custody@ == provisioned(
                old(self).custody@,
                *custody,
                *mint,
                *owner,
                old(self).rent_exempt_minimum,
                payer_lamports,
            ),
    {
        if self.find_custody(custody).is_some() {
            return Ok(None);
        }
        if payer_lamports < self.rent_exempt_minimum {
            return Err(CompleteError::InsufficientFunding);
        }
        proof {
            lemma_custody_position(self.custody@, custody.bytes@);
        }
        self.custody.push(
            CustodyAccount {
                id: *custody,
                mint: *mint,
                owner: *owner,
                lamports: self.rent_exempt_minimum,
                balance: 0,
            },
        );
        Ok(initialize_account(&custody.bytes, &mint.bytes, &owner.bytes))
    }

    /// Checks that `custody` is the identifier derived from `mint`, and then makes sure
    /// that a custody account exists there, as `provision_at` does.
    pub fn provision_custody(
        &mut self,
        custody: &AccountId,
        mint: &AccountId,
        owner: &AccountId,
        payer_lamports: u64,
    ) -> (r: Result<Option<Instruction>, CompleteError>)
        ensures
            old(self).same_but_custody(*final(self)),
            old(self).wf() ==> final(self).wf(),
            r is Err ==> *final(self) == *old(self),
            match verified(*custody, old(self).registry, Role::CustodyAccount { mint: *mint }) {
                Err(e) => r == Err::<Option<Instruction>, CompleteError>(
                    CompleteError::Mismatch(e),
                ),
                Ok(_) => if custody_position(old(self).custody@, custody.bytes@) is Some {
                    r == Ok::<Option<Instruction>, CompleteError>(None)
                } else if payer_lamports < old(self).rent_exempt_minimum {
                    r == Err::<Option<Instruction>, CompleteError>(
                        CompleteError::InsufficientFunding,
                    )
                } else {
                    r is Ok && r.unwrap() is Some && initializes_account(
                        r.unwrap().unwrap(),
                        custody.bytes@,
                        mint.bytes@,
                        owner.bytes@,
                    )
                },
            },
            r is Ok ==> final(self).custody@ == provisioned(
                old(self).custody@,
                *custody,
                *mint,
                *owner,
                old(self).rent_exempt_minimum,
                payer_lamports,
            ),
    {
        match verify(custody, &self.registry, &Role::CustodyAccount { mint: *mint }) {
            Err(e) => Err(CompleteError::Mismatch(e)),
            Ok(_) => self.provision_at(custody, mint, owner, payer_lamports),
        }
    }

    /// Adds `amount` to the balance of the custody account at index `i`.
    fn credit(&mut self, i: usize, amount: u64) -> (balance: u64)
        requires
            i < old(self).custody@.len(),
            old(self).custody@[i as int].balance + amount <= u64::MAX,
        ensures
            old(self).same_but_custody(*final(self)),
            balance == old(self).custody@[i as int].balance + amount,
            final(self).custody@ == old(self).custody@.update(
                i as int,
                CustodyAccount { balance, ..old(self).custody@[i as int] },
            ),
    {
        let mut account: CustodyAccount = self.custody[i];
        account.balance = account.balance + amount;
        self.custody.set(i, account);
        account.balance
    }
}

/// Recomputes the derivation of every account of `accs` that a completion checks, and
/// says which of them are the derived ones.
pub fn check_accounts(registry: &Registry, accs: &CompleteTransferAndSwap) -> (r: Checks)
    ensures
        r == checks_of(*registry, *accs),
{
    let endpoint = EndpointDerivationData::from(accs).role();
    let record = ClaimDerivationData::from(accs).role();
    let custody = CustodyAccountDerivationData::from(accs).role();
    let wrapped_meta = match PayloadTransferWithPayload::deserialize(
        accs.vaa.message.payload.as_slice(),
    ) {
        Ok(transfer) => verify(
            &accs.wrapped_meta,
            registry,
            &WrappedDerivationData::from(&transfer).role(),
        ).is_ok(),
        Err(_) => false,
    };
    Checks {
        config: verify(&accs.config, registry, &Role::Config).is_ok(),
        chain_registration: verify(&accs.chain_registration, registry, &endpoint).is_ok(),
        claim: verify(&accs.vaa.claim, registry, &record).is_ok(),
        wrapped_meta,
        custody: verify(&accs.custody, registry, &custody).is_ok(),
    }
}

/// Completes the transfer that the message of `accs` attests, where `checks` says which
/// of the supplied accounts are the derived ones.
///
/// Every account that the transfer needs must have passed its check; the emitter must be
/// registered; the message must not have been claimed; the custody account is created if
/// it does not exist, which `payer_lamports` must fund; the amount is credited to
/// custody; and where the transfer carries bytes for a consumer, `downstream`, the
/// outcome of handing them to the consumer, must be a success. If all of this holds the
/// message is recorded as claimed. If anything fails the ledger is left exactly as it
/// was, the claim included.
pub fn complete_checked(
    ledger: &mut Ledger,
    accs: &CompleteTransferAndSwap,
    checks: Checks,
    payer_lamports: u64,
    downstream: Result<(), u64>,
) -> (r: Result<Completion, CompleteError>)
    ensures
        match r {
            Err(e) => refusal_given(*old(ledger), *accs, checks, payer_lamports, downstream)
                == Some(e) && *final(ledger) == *old(ledger),
            Ok(done) => refusal_given(*old(ledger), *accs, checks, payer_lamports, downstream)
                is None && completed(*old(ledger), *final(ledger), *accs, payer_lamports, done),
        },
        old(ledger).distinct() ==> final(ledger).distinct(),
{
    let message = &accs.vaa.message;
    let transfer = match PayloadTransferWithPayload::deserialize(message.payload.as_slice()) {
        Ok(t) => t,
        Err(e) => {
            return Err(CompleteError::Decode(e));
        },
    };
    if !checks.config {
        return Err(mismatch_of(accs.config, Account::Config));
    }
    if !checks.chain_registration {
        return Err(mismatch_of(accs.chain_registration, Account::ChainRegistration));
    }
    if !ledger.is_registered(&accs.chain_registration) {
        return Err(CompleteError::UnregisteredEmitter);
    }
    if !checks.claim {
        return Err(mismatch_of(accs.vaa.claim, Account::Claim));
    }
    let key = ClaimDerivationData::from(accs).key();
    if ledger.claims.is_claimed(&key) {
        return Err(CompleteError::AlreadyClaimed);
    }
    if transfer.token_chain == ledger.chain_id {
        if !same_bytes(&accs.mint.bytes, &transfer.token_address) {
            return Err(mismatch_of(accs.mint, Account::Mint));
        }
    } else if !checks.wrapped_meta {
        return Err(mismatch_of(accs.wrapped_meta, Account::WrappedMeta));
    }
    if !checks.custody {
        return Err(mismatch_of(accs.custody, Account::Custody));
    }
    match ledger.find_custody(&accs.custody) {
        None => {
            if payer_lamports < ledger.rent_exempt_minimum {
                return Err(CompleteError::InsufficientFunding);
            }
        },
        Some(i) => {
            proof {
                lemma_custody_position(ledger.custody@, accs.custody.bytes@);
            }
            if ledger.custody[i].balance > u64::MAX - transfer.amount {
                return Err(CompleteError::BalanceOverflow);
            }
        },
    }
    if transfer.payload.len() > 0 {
        match downstream {
            Err(code) => {
                return Err(CompleteError::Downstream(code));
            },
            Ok(_) => {},
        }
    }
    proof {
        lemma_custody_position(ledger.custody@, accs.custody.bytes@);
    }
    let initialize = ledger.provision_at(
        &accs.custody,
        &accs.mint,
        &accs.custody_signer,
        payer_lamports,
    ).unwrap();
    proof {
        lemma_provisioned_position(
            old(ledger).custody@,
            accs.custody,
            accs.mint,
            accs.custody_signer,
            old(ledger).rent_exempt_minimum,
            payer_lamports,
        );
        lemma_custody_position(ledger.custody@, accs.custody.bytes@);
    }
    let at = ledger.find_custody(&accs.custody).unwrap();
    let ghost before = ledger.custody@;
    let balance = ledger.credit(at, transfer.amount);
    proof {
        lemma_credit_keeps_ids(before, accs.custody.bytes@, transfer.amount);
        lemma_custody_position(ledger.custody@, accs.custody.bytes@);
    }
    ledger.claims.claim(key).unwrap();
    Ok(Completion { initialize, amount: transfer.amount, recipient: transfer.to, balance })
}

/// The refusal of `supplied` as `account`.
fn mismatch_of(supplied: AccountId, account: Account) -> (r: CompleteError)
    ensures
        r == CompleteError::Mismatch(MismatchError { supplied, account }),
{
    CompleteError::Mismatch(MismatchError { supplied, account })
}

/// Completes the transfer that the message of `accs` attests.
///
/// The supplied accounts are checked against what the message and the ledger's registry
/// derive, and the completion then goes as `complete_checked` says: all of it, or nothing.
pub fn complete_transfer_and_swap(
    ledger: &mut Ledger,
    accs: &CompleteTransferAndSwap,
    payer_lamports: u64,
    downstream: Result<(), u64>,
    _data: CompleteTransferAndSwapData,
) -> (r: Result<Completion, CompleteError>)
    ensures
        match r {
            Err(e) => refusal(*old(ledger), *accs, payer_lamports, downstream) == Some(e)
                && *final(ledger) == *old(ledger),
            Ok(done) => refusal(*old(ledger), *accs, payer_lamports, downstream) is None
                && completed(*old(ledger), *final(ledger), *accs, payer_lamports, done),
        },
        old(ledger).wf() ==> final(ledger).wf(),
{
    let checks = check_accounts(&ledger.registry, accs);
    let r = complete_checked(ledger, accs, checks, payer_lamports, downstream);
    proof {
        if r is Ok && old(ledger).wf() {
            lemma_custody_position(old(ledger).custody@, accs.custody.bytes@);
            lemma_custody_position(ledger.custody@, accs.custody.bytes@);
            lemma_credit_keeps_ids(
                provisioned(
                    old(ledger).custody@,
                    accs.custody,
                    accs.mint,
                    accs.custody_signer,
                    old(ledger).rent_exempt_minimum,
                    payer_lamports,
                ),
                accs.custody.bytes@,
                u64_be_at(accs.vaa.message.payload@, 25) as u64,
            );
        }
    }
    r
}

/// After provisioning with funds that cover the rent, an account lives at the
/// identifier: the one that was there, or the new one with nothing in it.
pub proof fn lemma_provisioned_position(
    custody: Seq<CustodyAccount>,
    id: AccountId,
    mint: AccountId,
    owner: AccountId,
    rent: u64,
    funds: u64,
)
    requires
        custody_position(custody, id.bytes@) is Some || funds >= rent,
    ensures
        ({
            let after = provisioned(custody, id, mint, owner, rent, funds);
            match custody_position(custody, id.bytes@) {
                Some(i) => after == custody && custody_position(after, id.bytes@) == Some(i),
                None => custody_position(after, id.bytes@) == Some(custody.len() as int)
                    && after[custody.len() as int].balance == 0
                    && after[custody.len() as int].lamports == rent,
            }
        }),
{
    let after = provisioned(custody, id, mint, owner, rent, funds);
    if custody_position(custody, id.bytes@) is None {
        assert(after.drop_last() =~= custody);
    }
}

/// Crediting an account moves no account: every identifier is found where it was.
pub proof fn lemma_credit_keeps_ids(custody: Seq<CustodyAccount>, id: Seq<u8>, amount: u64)
    ensures
        credited(custody, id, amount).len() == custody.len(),
        forall|j: int|
            0 <= j < custody.len() ==> (#[trigger] credited(custody, id, amount)[j]).id
                == custody[j].id && credited(custody, id, amount)[j].mint == custody[j].mint,
        custody_position(credited(custody, id, amount), id) == custody_position(custody, id),
{
    let after = credited(custody, id, amount);
    lemma_custody_position(custody, id);
    lemma_custody_position(after, id);
    match custody_position(custody, id) {
        Some(i) => {
            assert(after[i].id.bytes@ == id);
            match custody_position(after, id) {
                Some(k) => {
                    if k < i {
                        assert(custody[k].id.bytes@ == after[k].id.bytes@);
                    } else if i < k {
                        assert(after[i].id.bytes@ == id);
                    }
                },
                None => {},
            }
        },
        None => {
            match custody_position(after, id) {
                Some(k) => {
                    assert(custody[k].id.bytes@ == id);
                },
                None => {},
            }
        },
    }
}

/// Provisioning twice is provisioning once: where an account lives at the identifier
/// after the first call, because it was there or because the call created it, a second
/// call changes nothing, whatever funds it is offered: it neither creates nor funds the
/// account again.
pub proof fn lemma_provision_idempotent(
    custody: Seq<CustodyAccount>,
    id: AccountId,
    mint: AccountId,
    owner: AccountId,
    rent: u64,
    funds: u64,
    funds_again: u64,
)
    requires
        custody_position(custody, id.bytes@) is Some || funds >= rent,
    ensures
        provisioned(
            provisioned(custody, id, mint, owner, rent, funds),
            id,
            mint,
            owner,
            rent,
            funds_again,
        ) == provisioned(custody, id, mint, owner, rent, funds),
{
    lemma_provisioned_position(custody, id, mint, owner, rent, funds);
}

/// A consumer that fails on the bytes handed to it refuses the completion, whatever else
/// holds: with the contract of `complete_transfer_and_swap`, the ledger then is as it was
/// and holds no claim that it did not hold before.
pub proof fn lemma_failed_consumer_refuses(
    ledger: Ledger,
    accs: CompleteTransferAndSwap,
    payer_lamports: u64,
    code: u64,
)
    requires
        has_consumer_payload(accs.vaa.message.payload@),
    ensures
        refusal(ledger, accs, payer_lamports, Err(code)) is Some,
        forall|checks: Checks|
            #[trigger] refusal_given(ledger, accs, checks, payer_lamports, Err(code)) is Some,
{
}

/// A message that has a record is refused, whatever else holds.
pub proof fn lemma_claimed_message_refused(
    ledger: Ledger,
    accs: CompleteTransferAndSwap,
    payer_lamports: u64,
    downstream: Result<(), u64>,
)
    requires
        ledger.claims@.contains(key_of(accs.vaa.message)@),
    ensures
        refusal(ledger, accs, payer_lamports, downstream) is Some,
        forall|checks: Checks|
            #[trigger] refusal_given(ledger, accs, checks, payer_lamports, downstream) is Some,
{
}

/// In a well-formed ledger an asset has at most one custody account.
pub proof fn lemma_one_custody_per_asset(ledger: Ledger, i: int, j: int)
    requires
        ledger.wf(),
        0 <= i < ledger.custody@.len(),
        0 <= j < ledger.custody@.len(),
        ledger.custody@[i].mint == ledger.custody@[j].mint,
    ensures
        i == j,
{
}

} // verus!
