use xc_swap::bytes::{read_u16_be, read_u16_le, read_u32_le, read_u64_be, read_u64_le, u16_be_bytes, u64_be_bytes};
use xc_swap::codec::{get_message_data, DecodeError, PayloadTransferWithPayload, PostedMessageData};

fn emitter() -> [u8; 32] {
    let mut e = [0u8; 32];
    for (i, b) in e.iter_mut().enumerate() {
        *b = (i as u8) + 1;
    }
    e
}

fn posted(payload: &[u8]) -> Vec<u8> {
    let mut out = b"vaa".to_vec();
    out.push(1); // version
    out.push(32); // consistency level
    out.extend_from_slice(&0x0102_0304u32.to_le_bytes()); // attestation time
    out.extend_from_slice(&[9u8; 32]); // signature account
    out.extend_from_slice(&1_650_000_000u32.to_le_bytes()); // submission time
    out.extend_from_slice(&77u32.to_le_bytes()); // nonce
    out.extend_from_slice(&7u64.to_le_bytes()); // sequence
    out.extend_from_slice(&2u16.to_le_bytes()); // emitter chain
    out.extend_from_slice(&emitter());
    out.extend_from_slice(&(payload.len() as u32).to_le_bytes());
    out.extend_from_slice(payload);
    out
}

fn transfer(amount: u64, blob: &[u8]) -> Vec<u8> {
    let mut out = vec![3u8];
    out.extend_from_slice(&[0u8; 24]);
    out.extend_from_slice(&amount.to_be_bytes());
    out.extend_from_slice(&[0xAAu8; 32]); // asset
    out.extend_from_slice(&2u16.to_be_bytes()); // asset chain
    out.extend_from_slice(&[0xBBu8; 32]); // recipient
    out.extend_from_slice(&1u16.to_be_bytes()); // recipient chain
    out.extend_from_slice(&[0xCCu8; 32]); // sender
    out.extend_from_slice(blob);
    out
}

#[test]
fn integers_are_read_at_their_offsets() {
    let s = [0x01u8, 0x02, 0x03, 0x04, 0x05, 0x06, 0x07, 0x08, 0x09];
    assert_eq!(read_u16_le(&s, 0), 0x0201);
    assert_eq!(read_u16_be(&s, 0), 0x0102);
    assert_eq!(read_u32_le(&s, 1), 0x0504_0302);
    assert_eq!(read_u64_le(&s, 1), 0x0908_0706_0504_0302);
    assert_eq!(read_u64_be(&s, 0), 0x0102_0304_0506_0708);
}

#[test]
fn integers_are_written_most_significant_first() {
    assert_eq!(u16_be_bytes(0x1234), vec![0x12, 0x34]);
    assert_eq!(
        u64_be_bytes(0x0102_0304_0506_0708),
        vec![1, 2, 3, 4, 5, 6, 7, 8]
    );
    assert_eq!(u64_be_bytes(u64::MAX), vec![0xFF; 8]);
    assert_eq!(u16_be_bytes(2), 2u16.to_be_bytes().to_vec());
}

#[test]
fn decodes_every_field() {
    let buf = posted(&[0xDE, 0xAD, 0xBE, 0xEF]);
    let m = get_message_data(&buf).unwrap();
    assert_eq!(m.vaa_version, 1);
    assert_eq!(m.consistency_level, 32);
    assert_eq!(m.vaa_time, 0x0102_0304);
    assert_eq!(m.vaa_signature_account, [9u8; 32]);
    assert_eq!(m.submission_time, 1_650_000_000);
    assert_eq!(m.nonce, 77);
    assert_eq!(m.sequence, 7);
    assert_eq!(m.emitter_chain, 2);
    assert_eq!(m.emitter_address, emitter());
    assert_eq!(m.payload, vec![0xDE, 0xAD, 0xBE, 0xEF]);
}

#[test]
fn decodes_what_borsh_writes() {
    let fields = (
        1u8,
        1u8,
        5u32,
        [3u8; 32],
        6u32,
        7u32,
        0xFFEE_DDCC_BBAA_9988u64,
        0xABCDu16,
        emitter(),
        vec![1u8, 2, 3],
    );
    let mut buf = b"vaa".to_vec();
    buf.extend_from_slice(&borsh::to_vec(&fields).unwrap());
    let m = get_message_data(&buf).unwrap();
    assert_eq!(m.vaa_time, 5);
    assert_eq!(m.vaa_signature_account, [3u8; 32]);
    assert_eq!(m.submission_time, 6);
    assert_eq!(m.nonce, 7);
    assert_eq!(m.sequence, 0xFFEE_DDCC_BBAA_9988);
    assert_eq!(m.emitter_chain, 0xABCD);
    assert_eq!(m.emitter_address, emitter());
    assert_eq!(m.payload, vec![1u8, 2, 3]);
}

#[test]
fn empty_payload_is_a_message() {
    let buf = posted(&[]);
    assert_eq!(buf.len(), 95);
    let m = get_message_data(&buf).unwrap();
    assert!(m.payload.is_empty());
}

#[test]
fn short_buffer_is_truncated() {
    let buf = posted(&[]);
    assert_eq!(get_message_data(&buf[..94]).unwrap_err(), DecodeError::Truncated);
    assert_eq!(get_message_data(&[]).unwrap_err(), DecodeError::Truncated);
    assert_eq!(get_message_data(b"va").unwrap_err(), DecodeError::Truncated);
}

#[test]
fn short_payload_is_truncated() {
    let buf = posted(&[1, 2, 3, 4]);
    assert_eq!(
        get_message_data(&buf[..buf.len() - 1]).unwrap_err(),
        DecodeError::Truncated
    );
}

#[test]
fn other_tag_is_unknown_version() {
    let mut buf = posted(&[1, 2]);
    buf[0] = b'm';
    buf[1] = b's';
    buf[2] = b'g';
    assert_eq!(get_message_data(&buf).unwrap_err(), DecodeError::UnknownVersion);
}

#[test]
fn bytes_after_the_payload_are_refused() {
    let mut buf = posted(&[1, 2]);
    buf.push(0);
    assert_eq!(get_message_data(&buf).unwrap_err(), DecodeError::TrailingBytes);
}

#[test]
fn deserialize_reports_what_it_consumed() {
    let mut buf = posted(&[1, 2]);
    buf.extend_from_slice(&[5, 5, 5]);
    let (m, n) = PostedMessageData::deserialize(&buf).unwrap();
    assert_eq!(n, 97);
    assert_eq!(m.0.payload, vec![1, 2]);
}

#[test]
fn transfer_decodes_every_field() {
    let t = PayloadTransferWithPayload::deserialize(&transfer(1_000_000, b"swap")).unwrap();
    assert_eq!(t.amount, 1_000_000);
    assert_eq!(t.token_address, [0xAA; 32]);
    assert_eq!(t.token_chain, 2);
    assert_eq!(t.to, [0xBB; 32]);
    assert_eq!(t.to_chain, 1);
    assert_eq!(t.from_address, [0xCC; 32]);
    assert_eq!(t.payload, b"swap".to_vec());
}

#[test]
fn transfer_payload_may_be_empty() {
    let t = PayloadTransferWithPayload::deserialize(&transfer(u64::MAX, &[])).unwrap();
    assert_eq!(t.amount, u64::MAX);
    assert!(t.payload.is_empty());
}

#[test]
fn transfer_errors() {
    let good = transfer(5, &[]);
    assert_eq!(
        PayloadTransferWithPayload::deserialize(&good[..132]).unwrap_err(),
        DecodeError::Truncated
    );
    let mut other = good.clone();
    other[0] = 1;
    assert_eq!(
        PayloadTransferWithPayload::deserialize(&other).unwrap_err(),
        DecodeError::UnknownVersion
    );
    let mut large = good.clone();
    large[24] = 1;
    assert_eq!(
        PayloadTransferWithPayload::deserialize(&large).unwrap_err(),
        DecodeError::AmountOutOfRange
    );
}
