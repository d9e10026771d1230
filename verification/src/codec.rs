//! The strict decoder for posted messages.

use vstd::prelude::*;
use crate::bytes::{
    copy_range, read_array32, read_u16_be, read_u16_le, read_u32_le, read_u64_be, read_u64_le,
    u16_be_at, u16_le_at, u32_le_at, u64_be_at, u64_le_at,
};

verus! {

/// Length of the tag and the fixed-width fields, the payload's length prefix included.
pub const HEADER_LEN: usize = 95;

/// The tag of the one supported format: the ASCII letters `vaa`.
pub open spec fn supported_tag() -> Seq<u8> {
    seq![118u8, 97u8, 97u8]
}

/// How far an emitter asks its message to have settled before it is attested.
#[derive(Debug, Clone, Copy, PartialEq, Eq, Structural)]
pub enum ConsistencyLevel {
    Confirmed,
    Finalized,
}

/// What an emitter hands over to have a message posted.
#[derive(Debug, Clone)]
pub struct PostMessageData {
    /// Nonce chosen by the emitter.
    pub nonce: u32,
    /// Application payload.
    pub payload: Vec<u8>,
    /// Settlement that the emitter asks for.
    pub consistency_level: ConsistencyLevel,
}

/// The commands of the core bridge, in the order of their instruction tags.
#[derive(Debug, Clone, Copy, PartialEq, Eq, Structural)]
pub enum CoreBridgeInstruction {
    Initialize,
    PostMessage,
    PostVAA,
    SetFees,
    TransferFees,
    UpgradeContract,
    UpgradeGuardianSet,
    VerifySignatures,
}

/// The commands of the token bridge, in the order of their instruction tags.
#[derive(Debug, Clone, Copy, PartialEq, Eq, Structural)]
pub enum TokenBridgeInstruction {
    Initialize,
    AttestToken,
    CompleteNative,
    CompleteWrapped,
    TransferWrapped,
    TransferNative,
    RegisterChain,
    CreateWrapped,
    UpgradeContract,
    CompleteNativeWithPayload,
    CompleteWrappedWithPayload,
    TransferWrappedWithPayload,
    TransferNativeWithPayload,
}

/// Configuration of the core bridge, set once when it is initialised.
#[derive(Debug, Clone, Copy, PartialEq, Eq, Structural)]
pub struct BridgeConfig {
    /// How long a guardian set stays valid after it was replaced.
    pub guardian_set_expiration_time: u32,
    /// What posting a message costs.
    pub fee: u64,
}

/// State of the core bridge.
#[derive(Debug, Clone, Copy, PartialEq, Eq, Structural)]
pub struct BridgeData {
    /// Index of the guardian set whose signatures are accepted.
    pub guardian_set_index: u32,
    /// Funds in the collection account.
    pub last_lamports: u64,
    /// Configuration of the bridge.
    pub config: BridgeConfig,
}

/// Why a byte buffer is not a posted message.
#[derive(Debug, Clone, Copy, PartialEq, Eq, Structural)]
pub enum DecodeError {
    /// The buffer ends before the fields it announces.
    Truncated,
    /// The format tag is not the supported one.
    UnknownVersion,
    /// Bytes are left over after the payload.
    TrailingBytes,
    /// The amount of a transfer does not fit in 64 bits.
    AmountOutOfRange,
}

/// The body of an attested message as it is posted on the destination ledger.
#[derive(Debug, Clone)]
pub struct MessageData {
    /// Header of the posted message.
    pub vaa_version: u8,
    /// Level of consistency requested by the emitter.
    pub consistency_level: u8,
    /// Time the attestation was submitted.
    pub vaa_time: u32,
    /// Account where the signatures are stored.
    pub vaa_signature_account: [u8; 32],
    /// Time the posted message was created.
    pub submission_time: u32,
    /// Nonce chosen by the emitter.
    pub nonce: u32,
    /// Sequence number of this message, per emitter.
    pub sequence: u64,
    /// Chain of the emitter.
    pub emitter_chain: u16,
    /// Address of the emitter.
    pub emitter_address: [u8; 32],
    /// Application payload.
    pub payload: Vec<u8>,
}

/// A posted message, decoded from behind its format tag.
#[derive(Debug, Clone)]
pub struct PostedMessageData(pub MessageData);

/// Whether `m` holds exactly the fields laid out in `s` behind the tag, with a payload
/// of `s`'s announced length.
pub open spec fn fields_match(m: MessageData, s: Seq<u8>) -> bool {
    &&& m.vaa_version == s[3]
    &&& m.consistency_level == s[4]
    &&& m.vaa_time == u32_le_at(s, 5)
    &&& m.vaa_signature_account@ == s.subrange(9, 41)
    &&& m.submission_time == u32_le_at(s, 41)
    &&& m.nonce == u32_le_at(s, 45)
    &&& m.sequence == u64_le_at(s, 49)
    &&& m.emitter_chain == u16_le_at(s, 57)
    &&& m.emitter_address@ == s.subrange(59, 91)
    &&& m.payload@ == s.subrange(95, 95 + u32_le_at(s, 91))
}

/// What decoding the front of `s` gives: the error, or the number of bytes that the
/// message occupies.
pub open spec fn decoded_len(s: Seq<u8>) -> Result<int, DecodeError> {
    if s.len() < 95 {
        Err(DecodeError::Truncated)
    } else if s.subrange(0, 3) != supported_tag() {
        Err(DecodeError::UnknownVersion)
    } else if s.len() < 95 + u32_le_at(s, 91) {
        Err(DecodeError::Truncated)
    } else {
        Ok(95 + u32_le_at(s, 91))
    }
}

/// What decoding the whole of `s` gives: as `decoded_len`, but bytes behind the payload
/// are an error.
pub open spec fn decoded_whole(s: Seq<u8>) -> Result<int, DecodeError> {
    match decoded_len(s) {
        Ok(n) => if n == s.len() {
            Ok(n)
        } else {
            Err(DecodeError::TrailingBytes)
        },
        Err(e) => Err(e),
    }
}

impl PostedMessageData {
    /// Decodes one posted message from the front of `buf` and returns it with the number
    /// of bytes it occupies; what follows those bytes is not looked at.
    pub fn deserialize(buf: &[u8]) -> (r: Result<(PostedMessageData, usize), DecodeError>)
        ensures
            match r {
                Ok((m, n)) => decoded_len(buf@) == Ok::<int, DecodeError>(n as int)
                    && fields_match(m.0, buf@),
                Err(e) => decoded_len(buf@) == Err::<int, DecodeError>(e),
            },
    {
        if buf.len() < HEADER_LEN {
            return Err(DecodeError::Truncated);
        }
        if buf[0] != 118 || buf[1] != 97 || buf[2] != 97 {
            return Err(DecodeError::UnknownVersion);
        }
        assert(buf@.subrange(0, 3) =~= supported_tag());
        let announced: usize = read_u32_le(buf, 91) as usize;
        if buf.len() - HEADER_LEN < announced {
            return Err(DecodeError::Truncated);
        }
        let end: usize = HEADER_LEN + announced;
        let m = MessageData {
            vaa_version: buf[3],
            consistency_level: buf[4],
            vaa_time: read_u32_le(buf, 5),
            vaa_signature_account: read_array32(buf, 9),
            submission_time: read_u32_le(buf, 41),
            nonce: read_u32_le(buf, 45),
            sequence: read_u64_le(buf, 49),
            emitter_chain: read_u16_le(buf, 57),
            emitter_address: read_array32(buf, 59),
            payload: copy_range(buf, HEADER_LEN, end),
        };
        Ok((PostedMessageData(m), end))
    }
}

/// Decodes the data of an account that holds a posted message. The whole buffer must be
/// the message.
pub fn get_message_data(data: &[u8]) -> (r: Result<MessageData, DecodeError>)
    ensures
        match r {
            Ok(m) => decoded_whole(data@) is Ok && fields_match(m, data@),
            Err(e) => decoded_whole(data@) == Err::<int, DecodeError>(e),
        },
{
    match PostedMessageData::deserialize(data) {
        Ok((posted, n)) => {
            if n == data.len() {
                Ok(posted.0)
            } else {
                Err(DecodeError::TrailingBytes)
            }
        },
        Err(e) => Err(e),
    }
}

/// Kind tag of a transfer that carries a payload of its own.
pub const TRANSFER_WITH_PAYLOAD: u8 = 3;

/// Length of the fixed-width fields of a transfer.
pub const TRANSFER_LEN: usize = 133;

/// A transfer of an asset, with a free-form payload for whoever consumes it.
#[derive(Debug, Clone)]
pub struct PayloadTransferWithPayload {
    /// Amount that is transferred.
    pub amount: u64,
    /// Address of the asset on its chain of origin.
    pub token_address: [u8; 32],
    /// Chain of origin of the asset.
    pub token_chain: u16,
    /// Address of the recipient.
    pub to: [u8; 32],
    /// Chain of the recipient.
    pub to_chain: u16,
    /// Address of the sender.
    pub from_address: [u8; 32],
    /// What the sender hands to the consumer.
    pub payload: Vec<u8>,
}

/// Whether the 24 bytes of `s` from offset 1 on are all zero: the upper bytes of the
/// 256-bit amount.
pub open spec fn amount_fits(s: Seq<u8>) -> bool {
    forall|i: int| 1 <= i < 25 ==> #[trigger] s[i] == 0
}

/// Why `s` is not a transfer, if it is none.
pub open spec fn transfer_error(s: Seq<u8>) -> Option<DecodeError> {
    if s.len() < 133 {
        Some(DecodeError::Truncated)
    } else if s[0] != 3 {
        Some(DecodeError::UnknownVersion)
    } else if !amount_fits(s) {
        Some(DecodeError::AmountOutOfRange)
    } else {
        None
    }
}

/// Whether `t` holds exactly the fields laid out in `s`, the payload being all that
/// follows them. Integers stand most significant byte first.
pub open spec fn transfer_matches(t: PayloadTransferWithPayload, s: Seq<u8>) -> bool {
    &&& t.amount == u64_be_at(s, 25)
    &&& t.token_address@ == s.subrange(33, 65)
    &&& t.token_chain == u16_be_at(s, 65)
    &&& t.to@ == s.subrange(67, 99)
    &&& t.to_chain == u16_be_at(s, 99)
    &&& t.from_address@ == s.subrange(101, 133)
    &&& t.payload@ == s.subrange(133, s.len() as int)
}

impl PayloadTransferWithPayload {
    /// Decodes the payload of a message as a transfer.
    pub fn deserialize(buf: &[u8]) -> (r: Result<PayloadTransferWithPayload, DecodeError>)
        ensures
            match r {
                Ok(t) => transfer_error(buf@) is None && transfer_matches(t, buf@),
                Err(e) => transfer_error(buf@) == Some(e),
            },
    {
        if buf.len() < TRANSFER_LEN {
            return Err(DecodeError::Truncated);
        }
        if buf[0] != TRANSFER_WITH_PAYLOAD {
            return Err(DecodeError::UnknownVersion);
        }
        let mut i: usize = 1;
        while i < 25
            invariant
                1 <= i <= 25,
                buf@.len() >= 133,
                buf@[0] == 3,
                forall|j: int| 1 <= j < i ==> buf@[j] == 0,
            decreases 25 - i,
        {
            if buf[i] != 0 {
                assert(!amount_fits(buf@)) by {
                    assert(buf@[i as int] != 0);
                }
                return Err(DecodeError::AmountOutOfRange);
            }
            i += 1;
        }
        Ok(
            PayloadTransferWithPayload {
                amount: read_u64_be(buf, 25),
                token_address: read_array32(buf, 33),
                token_chain: read_u16_be(buf, 65),
                to: read_array32(buf, 67),
                to_chain: read_u16_be(buf, 99),
                from_address: read_array32(buf, 101),
                payload: copy_range(buf, TRANSFER_LEN, buf.len()),
            },
        )
    }
}

} // verus!
