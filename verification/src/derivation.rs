//! The registry of derived accounts: one table from each role and its seeds to the
//! identifier that the role must occupy.

use vstd::prelude::*;
use crate::bytes::{
    array32_to_vec, lemma_u16_be_injective, lemma_u64_be_injective, same_bytes, u16_be,
    u16_be_bytes, u64_be, u64_be_bytes,
};

verus! {

/// An identifier in the destination ledger's address space.
#[derive(Debug, Clone, Copy, PartialEq, Eq)]
pub struct AccountId {
    pub bytes: [u8; 32],
}

impl AccountId {
    /// Whether `self` and `other` are the same identifier, byte for byte.
    pub fn same(&self, other: &AccountId) -> (r: bool)
        ensures
            r == (self.bytes@ == other.bytes@),
    {
        same_bytes(&self.bytes, &other.bytes)
    }
}

/// The two identifiers that every derivation starts from: the program under which
/// accounts are derived, and the token bridge that the program serves.
#[derive(Debug, Clone, Copy, PartialEq, Eq)]
pub struct Registry {
    pub program_id: AccountId,
    pub token_bridge: AccountId,
}

/// A role that a derived account plays, with the seeds that tell one account of the role
/// from another.
#[derive(Debug, Clone, Copy, PartialEq, Eq)]
pub enum Role {
    /// The bridge's configuration.
    Config,
    /// The custody of the asset minted by `mint`.
    CustodyAccount { mint: AccountId },
    /// The registration of the emitter `emitter` on chain `chain`.
    Endpoint { chain: u16, emitter: [u8; 32] },
    /// The metadata of the asset `asset` of chain `chain`, wrapped on this ledger.
    WrappedAssetMeta { chain: u16, asset: [u8; 32] },
    /// The authority that signs for minting.
    MintAuthority,
    /// The record that the message `sequence` of `emitter` on `chain` was consumed.
    ClaimRecord { chain: u16, emitter: [u8; 32], sequence: u64 },
}

/// The accounts of a completion whose identifiers are checked.
#[derive(Debug, Clone, Copy, PartialEq, Eq, Structural)]
pub enum Account {
    Config,
    Custody,
    ChainRegistration,
    WrappedMeta,
    MintAuthority,
    Claim,
    Mint,
}

/// Seeds of the configuration account.
pub struct TokenBridgeConfigAccountDerivationData {
    pub token_bridge: AccountId,
}

/// Seeds of the mint authority.
pub struct TokenBridgeMintSignerDerivationData {
    pub token_bridge: AccountId,
}

/// Seeds of an emitter's registration.
pub struct EndpointDerivationData {
    pub emitter_chain: u16,
    pub emitter_address: [u8; 32],
}

/// Seeds of a wrapped asset's metadata.
pub struct WrappedDerivationData {
    pub token_chain: u16,
    pub token_address: [u8; 32],
}

/// Seeds of an asset's custody account.
pub struct CustodyAccountDerivationData {
    pub mint: AccountId,
}

/// Seeds of a claim record.
pub struct ClaimDerivationData {
    pub emitter_address: [u8; 32],
    pub emitter_chain: u16,
    pub sequence: u64,
}

/// The ASCII bytes of `config`.
pub open spec fn config_label() -> Seq<u8> {
    seq![99u8, 111u8, 110u8, 102u8, 105u8, 103u8]
}

/// The ASCII bytes of `mint_signer`.
pub open spec fn mint_signer_label() -> Seq<u8> {
    seq![109u8, 105u8, 110u8, 116u8, 95u8, 115u8, 105u8, 103u8, 110u8, 101u8, 114u8]
}

/// The ASCII bytes of `meta`.
pub open spec fn meta_label() -> Seq<u8> {
    seq![109u8, 101u8, 116u8, 97u8]
}

/// Seeds of the registration of `emitter` on `chain`.
pub open spec fn endpoint_seeds(chain: u16, emitter: Seq<u8>) -> Seq<Seq<u8>> {
    seq![u16_be(chain), emitter]
}

/// Seeds of the metadata of the wrapped asset `asset` of `chain`.
pub open spec fn wrapped_meta_seeds(chain: u16, asset: Seq<u8>) -> Seq<Seq<u8>> {
    seq![meta_label(), u16_be(chain), asset]
}

/// Seeds of the claim record of message `sequence` of `emitter` on `chain`.
pub open spec fn claim_seeds(emitter: Seq<u8>, chain: u16, sequence: u64) -> Seq<Seq<u8>> {
    seq![emitter, u16_be(chain), u64_be(sequence)]
}

/// The ordered seeds of `role` under the token bridge `token_bridge`. Integers are
/// written most significant byte first.
pub open spec fn role_seeds(role: Role, token_bridge: AccountId) -> Seq<Seq<u8>> {
    match role {
        Role::Config => seq![config_label(), token_bridge.bytes@],
        Role::CustodyAccount { mint } => seq![mint.bytes@],
        Role::Endpoint { chain, emitter } => endpoint_seeds(chain, emitter@),
        Role::WrappedAssetMeta { chain, asset } => wrapped_meta_seeds(chain, asset@),
        Role::MintAuthority => seq![mint_signer_label(), token_bridge.bytes@],
        Role::ClaimRecord { chain, emitter, sequence } => claim_seeds(emitter@, chain, sequence),
    }
}

/// The byte strings that a list of seeds holds.
pub open spec fn byte_strings(seeds: Seq<Vec<u8>>) -> Seq<Seq<u8>> {
    Seq::new(seeds.len(), |i: int| seeds[i]@)
}

impl TokenBridgeConfigAccountDerivationData {
    pub fn seeds(&self) -> (r: Vec<Vec<u8>>)
        ensures
            byte_strings(r@) == role_seeds(Role::Config, self.token_bridge),
    {
        let label: Vec<u8> = vec![99u8, 111u8, 110u8, 102u8, 105u8, 103u8];
        assert(label@ =~= config_label());
        let mut out: Vec<Vec<u8>> = Vec::new();
        out.push(label);
        out.push(array32_to_vec(&self.token_bridge.bytes));
        assert(byte_strings(out@) =~= role_seeds(Role::Config, self.token_bridge));
        out
    }
}

impl TokenBridgeMintSignerDerivationData {
    pub fn seeds(&self) -> (r: Vec<Vec<u8>>)
        ensures
            byte_strings(r@) == role_seeds(Role::MintAuthority, self.token_bridge),
    {
        let label: Vec<u8> = vec![
            109u8,
            105u8,
            110u8,
            116u8,
            95u8,
            115u8,
            105u8,
            103u8,
            110u8,
            101u8,
            114u8,
        ];
        assert(label@ =~= mint_signer_label());
        let mut out: Vec<Vec<u8>> = Vec::new();
        out.push(label);
        out.push(array32_to_vec(&self.token_bridge.bytes));
        assert(byte_strings(out@) =~= role_seeds(Role::MintAuthority, self.token_bridge));
        out
    }
}

impl EndpointDerivationData {
    pub fn seeds(&self) -> (r: Vec<Vec<u8>>)
        ensures
            byte_strings(r@) == endpoint_seeds(self.emitter_chain, self.emitter_address@),
    {
        let mut out: Vec<Vec<u8>> = Vec::new();
        out.push(u16_be_bytes(self.emitter_chain));
        out.push(array32_to_vec(&self.emitter_address));
        assert(byte_strings(out@) =~= endpoint_seeds(self.emitter_chain, self.emitter_address@));
        out
    }
}

impl WrappedDerivationData {
    pub fn seeds(&self) -> (r: Vec<Vec<u8>>)
        ensures
            byte_strings(r@) == wrapped_meta_seeds(self.token_chain, self.token_address@),
    {
        let label: Vec<u8> = vec![109u8, 101u8, 116u8, 97u8];
        assert(label@ =~= meta_label());
        let mut out: Vec<Vec<u8>> = Vec::new();
        out.push(label);
        out.push(u16_be_bytes(self.token_chain));
        out.push(array32_to_vec(&self.token_address));
        assert(byte_strings(out@) =~= wrapped_meta_seeds(self.token_chain, self.token_address@));
        out
    }
}

impl CustodyAccountDerivationData {
    pub fn seeds(&self) -> (r: Vec<Vec<u8>>)
        ensures
            byte_strings(r@) == seq![self.mint.bytes@],
    {
        let mut out: Vec<Vec<u8>> = Vec::new();
        out.push(array32_to_vec(&self.mint.bytes));
        assert(byte_strings(out@) =~= seq![self.mint.bytes@]);
        out
    }
}

impl ClaimDerivationData {
    pub fn seeds(&self) -> (r: Vec<Vec<u8>>)
        ensures
            byte_strings(r@) == claim_seeds(
                self.emitter_address@,
                self.emitter_chain,
                self.sequence,
            ),
    {
        let mut out: Vec<Vec<u8>> = Vec::new();
        out.push(array32_to_vec(&self.emitter_address));
        out.push(u16_be_bytes(self.emitter_chain));
        out.push(u64_be_bytes(self.sequence));
        assert(byte_strings(out@) =~= claim_seeds(
            self.emitter_address@,
            self.emitter_chain,
            self.sequence,
        ));
        out
    }
}

impl Role {
    /// The account of a completion that plays this role.
    pub open spec fn account_spec(self) -> Account {
        match self {
            Role::Config => Account::Config,
            Role::CustodyAccount { .. } => Account::Custody,
            Role::Endpoint { .. } => Account::ChainRegistration,
            Role::WrappedAssetMeta { .. } => Account::WrappedMeta,
            Role::MintAuthority => Account::MintAuthority,
            Role::ClaimRecord { .. } => Account::Claim,
        }
    }

    /// The account of a completion that plays this role.
    pub fn account(&self) -> (r: Account)
        ensures
            r == self.account_spec(),
    {
        match self {
            Role::Config => Account::Config,
            Role::CustodyAccount { .. } => Account::Custody,
            Role::Endpoint { .. } => Account::ChainRegistration,
            Role::WrappedAssetMeta { .. } => Account::WrappedMeta,
            Role::MintAuthority => Account::MintAuthority,
            Role::ClaimRecord { .. } => Account::Claim,
        }
    }

    /// The ordered seeds of this role under the token bridge `token_bridge`.
    pub fn seeds(&self, token_bridge: &AccountId) -> (r: Vec<Vec<u8>>)
        ensures
            byte_strings(r@) == role_seeds(*self, *token_bridge),
    {
        match self {
            Role::Config => TokenBridgeConfigAccountDerivationData {
                token_bridge: *token_bridge,
            }.seeds(),
            Role::CustodyAccount { mint } => CustodyAccountDerivationData { mint: *mint }.seeds(),
            Role::Endpoint { chain, emitter } => EndpointDerivationData {
                emitter_chain: *chain,
                emitter_address: *emitter,
            }.seeds(),
            Role::WrappedAssetMeta { chain, asset } => WrappedDerivationData {
                token_chain: *chain,
                token_address: *asset,
            }.seeds(),
            Role::MintAuthority => TokenBridgeMintSignerDerivationData {
                token_bridge: *token_bridge,
            }.seeds(),
            Role::ClaimRecord { chain, emitter, sequence } => ClaimDerivationData {
                emitter_address: *emitter,
                emitter_chain: *chain,
                sequence: *sequence,
            }.seeds(),
        }
    }
}

/// The program-derived address of `seeds` under the program `program_id`, with the bump
/// seed that gives it; `None` where the seeds have none.
pub uninterp spec fn program_address(seeds: Seq<Seq<u8>>, program_id: Seq<u8>) -> Option<
    (Seq<u8>, u8),
>;

/// Calls `Pubkey::try_find_program_address` of `solana_program`. The contract names the
/// result, which depends on the seeds and the program alone, and claims nothing else of
/// it: not that an address is found, nor which.
#[verifier::external_body]
fn find_program_address(seeds: &Vec<Vec<u8>>, program_id: &[u8; 32]) -> (r: Option<
    ([u8; 32], u8),
>)
    ensures
        match r {
            Some((address, bump)) => program_address(byte_strings(seeds@), program_id@) == Some(
                (address@, bump),
            ),
            None => program_address(byte_strings(seeds@), program_id@) is None,
        },
{
    let parts: Vec<&[u8]> = seeds.iter().map(|s| s.as_slice()).collect();
    let program = solana_program::pubkey::Pubkey::new_from_array(*program_id);
    match solana_program::pubkey::Pubkey::try_find_program_address(&parts, &program) {
        Some((address, bump)) => Some((address.to_bytes(), bump)),
        None => None,
    }
}

/// The bytes of the identifier that `seeds` derive to under `registry`; `None` where they
/// have no address.
pub open spec fn address_of(registry: Registry, seeds: Seq<Seq<u8>>) -> Option<Seq<u8>> {
    match program_address(seeds, registry.program_id.bytes@) {
        Some((address, _)) => Some(address),
        None => None,
    }
}

/// The bytes of the identifier that `role` must occupy under `registry`; `None` where the
/// role's seeds have no address.
pub open spec fn derived(registry: Registry, role: Role) -> Option<Seq<u8>> {
    address_of(registry, role_seeds(role, registry.token_bridge))
}

/// A supplied identifier that is not the one its role derives to.
#[derive(Debug, Clone, Copy, PartialEq, Eq)]
pub struct MismatchError {
    /// The identifier that was supplied.
    pub supplied: AccountId,
    /// The account it was supplied as.
    pub account: Account,
}

/// What `verify` answers for `candidate` in the role `role`.
pub open spec fn verified(candidate: AccountId, registry: Registry, role: Role) -> Result<
    (),
    MismatchError,
> {
    if derived(registry, role) == Some(candidate.bytes@) {
        Ok(())
    } else {
        Err(MismatchError { supplied: candidate, account: role.account_spec() })
    }
}

/// The identifier that `role` must occupy under `registry`.
pub fn derive(registry: &Registry, role: &Role) -> (r: Option<AccountId>)
    ensures
        match r {
            Some(id) => derived(*registry, *role) == Some(id.bytes@),
            None => derived(*registry, *role) is None,
        },
{
    let seeds = role.seeds(&registry.token_bridge);
    match find_program_address(&seeds, &registry.program_id.bytes) {
        Some((address, _)) => Some(AccountId { bytes: address }),
        None => None,
    }
}

/// Compares `candidate` with `found`, the identifier that was derived for `account`, byte
/// for byte. Where nothing was derived, nothing matches.
pub fn check_derived(candidate: &AccountId, found: &Option<AccountId>, account: Account) -> (r:
    Result<(), MismatchError>)
    ensures
        r == (match *found {
            Some(id) if id.bytes@ == candidate.bytes@ => Ok::<(), MismatchError>(()),
            _ => Err::<(), MismatchError>(MismatchError { supplied: *candidate, account }),
        }),
{
    match found {
        Some(id) => {
            if id.same(candidate) {
                Ok(())
            } else {
                Err(MismatchError { supplied: *candidate, account })
            }
        },
        None => Err(MismatchError { supplied: *candidate, account }),
    }
}

/// Recomputes the identifier of `role` and compares it with `candidate`, byte for byte.
pub fn verify(candidate: &AccountId, registry: &Registry, role: &Role) -> (r: Result<
    (),
    MismatchError,
>)
    ensures
        r == verified(*candidate, *registry, *role),
{
    let found = derive(registry, role);
    check_derived(candidate, &found, role.account())
}

/// Derivation is a function of the registry and the role: two identifiers that each are
/// what a role derives to are the same identifier.
pub proof fn lemma_derive_deterministic(registry: Registry, role: Role, a: AccountId, b: AccountId)
    requires
        derived(registry, role) == Some(a.bytes@),
        derived(registry, role) == Some(b.bytes@),
    ensures
        a == b,
{
    assert(a.bytes =~= b.bytes);
}

/// No identifier but the derived one passes verification: any other is a mismatch that
/// names it.
pub proof fn lemma_no_forgery(x: AccountId, registry: Registry, role: Role)
    requires
        derived(registry, role) != Some(x.bytes@),
    ensures
        verified(x, registry, role) == Err::<(), MismatchError>(
            MismatchError { supplied: x, account: role.account_spec() },
        ),
{
}

/// The table of roles gives no two roles the same seeds: under one token bridge, roles
/// with equal seeds are the same role with the same parameters.
pub proof fn lemma_role_seeds_injective(a: Role, b: Role, token_bridge: AccountId)
    requires
        role_seeds(a, token_bridge) == role_seeds(b, token_bridge),
    ensures
        a == b,
{
    let sa = role_seeds(a, token_bridge);
    let sb = role_seeds(b, token_bridge);
    assert(sa.len() == sb.len());
    assert(sa[0].len() == sb[0].len());
    match (a, b) {
        (Role::CustodyAccount { mint: m1 }, Role::CustodyAccount { mint: m2 }) => {
            assert(sa[0] == sb[0]);
            assert(m1.bytes =~= m2.bytes);
        },
        (Role::Endpoint { chain: c1, emitter: e1 }, Role::Endpoint { chain: c2, emitter: e2 }) => {
            assert(sa[0] == sb[0] && sa[1] == sb[1]);
            lemma_u16_be_injective(c1, c2);
            assert(e1 =~= e2);
        },
        (
            Role::WrappedAssetMeta { chain: c1, asset: a1 },
            Role::WrappedAssetMeta { chain: c2, asset: a2 },
        ) => {
            assert(sa[1] == sb[1] && sa[2] == sb[2]);
            lemma_u16_be_injective(c1, c2);
            assert(a1 =~= a2);
        },
        (
            Role::ClaimRecord { chain: c1, emitter: e1, sequence: s1 },
            Role::ClaimRecord { chain: c2, emitter: e2, sequence: s2 },
        ) => {
            assert(sa[0] == sb[0] && sa[1] == sb[1] && sa[2] == sb[2]);
            lemma_u16_be_injective(c1, c2);
            lemma_u64_be_injective(s1, s2);
            assert(e1 =~= e2);
        },
        _ => {},
    }
}

/// The derived identifier itself passes verification.
pub proof fn lemma_derived_verifies(x: AccountId, registry: Registry, role: Role)
    requires
        derived(registry, role) == Some(x.bytes@),
    ensures
        verified(x, registry, role) is Ok,
{
}

} // verus!
