//! The signature-proof envelope: the fixed binary layout of the record that a
//! companion operation carries, and the checks that accept it.
//!
//! The hosting environment has already checked that the signature embedded in
//! such a record is a valid signature of the embedded message by the embedded
//! key. What is decided here is whether the record has the one accepted shape
//! and names the identity that the caller expects.

use vstd::prelude::*;
use vstd::slice::slice_to_vec;
use crate::error::ErrorCode;
use crate::identity::{bytes_equal, Identity, IDENTITY_LEN};

verus! {

/// Number of bytes in the header that opens a signature-proof record.
pub const HEADER_LEN: usize = 16;

/// Companion index that stands for "this same record".
pub const SAME_RECORD: u16 = 0xFFFF;

/// One operation of the atomic batch, as far as the verifier reads it.
#[derive(Debug, PartialEq, Eq)]
pub struct Operation {
    /// Identifier of the module that the operation is addressed to.
    pub module: Identity,
    /// The operation's payload.
    pub payload: Vec<u8>,
}

/// The 16-bit little-endian number at `at`.
pub open spec fn le_u16(data: Seq<u8>, at: int) -> int
    recommends
        0 <= at,
        at + 1 < data.len(),
{
    data[at] as int + 256 * (data[at + 1] as int)
}

/// Byte 0: how many signatures the record holds.
pub open spec fn signature_count(data: Seq<u8>) -> int {
    data[0] as int
}

/// Byte 1: padding.
pub open spec fn padding(data: Seq<u8>) -> int {
    data[1] as int
}

/// Bytes 2 and 3: where in the record the signature starts.
pub open spec fn signature_offset(data: Seq<u8>) -> int {
    le_u16(data, 2)
}

/// Bytes 4 and 5: the operation that holds the signature.
pub open spec fn signature_companion(data: Seq<u8>) -> int {
    le_u16(data, 4)
}

/// Bytes 6 and 7: where in the record the key starts.
pub open spec fn public_key_offset(data: Seq<u8>) -> int {
    le_u16(data, 6)
}

/// Bytes 8 and 9: the operation that holds the key.
pub open spec fn public_key_companion(data: Seq<u8>) -> int {
    le_u16(data, 8)
}

/// Bytes 10 and 11: where in the record the message starts.
pub open spec fn message_offset(data: Seq<u8>) -> int {
    le_u16(data, 10)
}

/// Bytes 12 and 13: how many bytes the message has.
pub open spec fn message_len(data: Seq<u8>) -> int {
    le_u16(data, 12)
}

/// Bytes 14 and 15: the operation that holds the message.
pub open spec fn message_companion(data: Seq<u8>) -> int {
    le_u16(data, 14)
}

/// The key that the record embeds, directly behind the header.
pub open spec fn embedded_key(data: Seq<u8>) -> Seq<u8> {
    data.subrange(HEADER_LEN as int, HEADER_LEN + IDENTITY_LEN)
}

/// The header describes a single signature whose key, signature and message
/// all lie in this same record, with the key directly behind the header and
/// the signature directly behind the key.
pub open spec fn header_is_canonical(data: Seq<u8>, identity_len: int) -> bool {
    &&& signature_count(data) == 1
    &&& padding(data) == 0
    &&& signature_offset(data) == HEADER_LEN + identity_len
    &&& signature_companion(data) == SAME_RECORD
    &&& public_key_offset(data) == HEADER_LEN
    &&& public_key_companion(data) == SAME_RECORD
    &&& message_companion(data) == SAME_RECORD
}

/// The record is long enough to hold header and key, its header is canonical,
/// its key is `identity`, and the message it announces lies inside it.
pub open spec fn proves_identity(data: Seq<u8>, identity: Seq<u8>) -> bool {
    &&& data.len() >= HEADER_LEN + IDENTITY_LEN
    &&& header_is_canonical(data, identity.len() as int)
    &&& embedded_key(data) == identity
    &&& message_offset(data) + message_len(data) <= data.len()
}

/// The bytes that the record announces as its message.
pub open spec fn signed_message(data: Seq<u8>) -> Seq<u8> {
    data.subrange(message_offset(data), message_offset(data) + message_len(data))
}

/// Reads the 16-bit little-endian number at `at`.
fn read_u16(data: &[u8], at: usize) -> (value: usize)
    requires
        at + 1 < data@.len(),
    ensures
        value == le_u16(data@, at as int),
        value <= 0xFFFF,
{
    let low: usize = data[at] as usize;
    let high: usize = data[at + 1] as usize;
    low + 256 * high
}

/// Checks a signature-proof record against the identity that is expected to
/// have signed, and hands out the signed message.
///
/// The record is accepted exactly when [`proves_identity`] holds. Every other
/// record, a truncated one included, is turned down as
/// [`ErrorCode::InvalidInstruction`].
pub fn check_ed25519_data(data: &[u8], pubkey: &[u8]) -> (result: Result<Vec<u8>, ErrorCode>)
    ensures
        match result {
            Ok(message) => proves_identity(data@, pubkey@) && message@ == signed_message(data@),
            Err(e) => !proves_identity(data@, pubkey@) && e == ErrorCode::InvalidInstruction,
        },
{
    if pubkey.len() != IDENTITY_LEN || data.len() < HEADER_LEN + IDENTITY_LEN {
        return Err(ErrorCode::InvalidInstruction);
    }
    let num_signatures: u8 = data[0];
    let padding: u8 = data[1];
    let signature_offset: usize = read_u16(data, 2);
    let signature_instruction_index: usize = read_u16(data, 4);
    let public_key_offset: usize = read_u16(data, 6);
    let public_key_instruction_index: usize = read_u16(data, 8);
    let message_data_offset: usize = read_u16(data, 10);
    let message_data_size: usize = read_u16(data, 12);
    let message_instruction_index: usize = read_u16(data, 14);

    let exp_public_key_offset: usize = HEADER_LEN;
    let exp_signature_offset: usize = exp_public_key_offset + pubkey.len();
    let same_record: usize = SAME_RECORD as usize;

    if num_signatures != 1 || padding != 0 || signature_offset != exp_signature_offset
        || signature_instruction_index != same_record || public_key_offset
        != exp_public_key_offset || public_key_instruction_index != same_record
        || message_instruction_index != same_record {
        return Err(ErrorCode::InvalidInstruction);
    }
    let data_pubkey: &[u8] = &data[HEADER_LEN..HEADER_LEN + IDENTITY_LEN];
    if !bytes_equal(data_pubkey, pubkey) {
        return Err(ErrorCode::InvalidInstruction);
    }
    if message_data_offset + message_data_size > data.len() {
        return Err(ErrorCode::InvalidInstruction);
    }
    let data_msg: &[u8] = &data[message_data_offset..message_data_offset + message_data_size];
    Ok(slice_to_vec(data_msg))
}

/// Checks that `ix` is addressed to the signature-verification module and
/// that its payload proves `pubkey`, and hands out the signed message.
pub fn verify_ed25519_ix(ix: &Operation, signature_module: &Identity, pubkey: &[u8]) -> (result:
    Result<Vec<u8>, ErrorCode>)
    ensures
        match result {
            Ok(message) => ix.module@ == signature_module@ && proves_identity(
                ix.payload@,
                pubkey@,
            ) && message@ == signed_message(ix.payload@),
            Err(e) => !(ix.module@ == signature_module@ && proves_identity(ix.payload@, pubkey@))
                && e == ErrorCode::InvalidInstruction,
        },
{
    if !bytes_equal(ix.module.as_slice(), signature_module.as_slice()) {
        return Err(ErrorCode::InvalidInstruction);
    }
    check_ed25519_data(ix.payload.as_slice(), pubkey)
}

/// The operation at `current_index` has a companion directly before it, that
/// companion is addressed to `signature_module`, and its payload proves
/// `identity`.
pub open spec fn companion_proves(
    batch: Seq<Operation>,
    current_index: int,
    signature_module: Seq<u8>,
    identity: Seq<u8>,
) -> bool {
    &&& 0 < current_index <= batch.len()
    &&& batch[current_index - 1].module@ == signature_module
    &&& proves_identity(batch[current_index - 1].payload@, identity)
}

/// The message that the companion of the operation at `current_index` carries.
pub open spec fn companion_message(batch: Seq<Operation>, current_index: int) -> Seq<u8> {
    signed_message(batch[current_index - 1].payload@)
}

/// Looks up the companion of the operation at `current_index`, the operation
/// directly before it in `batch`, checks it as a signature proof of
/// `expected_identity`, and hands out the signed message.
///
/// Only the companion is read. A first operation has none, and neither has an
/// index beyond the batch: both are turned down.
pub fn verify_companion(
    batch: &[Operation],
    current_index: usize,
    signature_module: &Identity,
    expected_identity: &[u8],
) -> (result: Result<Vec<u8>, ErrorCode>)
    ensures
        match result {
            Ok(message) => companion_proves(
                batch@,
                current_index as int,
                signature_module@,
                expected_identity@,
            ) && message@ == companion_message(batch@, current_index as int),
            Err(e) => !companion_proves(
                batch@,
                current_index as int,
                signature_module@,
                expected_identity@,
            ) && e == ErrorCode::InvalidInstruction,
        },
{
    if current_index == 0 || current_index > batch.len() {
        return Err(ErrorCode::InvalidInstruction);
    }
    let ed25519_ix_index: usize = current_index - 1;
    verify_ed25519_ix(&batch[ed25519_ix_index], signature_module, expected_identity)
}

/// A record in which any one of the fixed header fields departs from the
/// layout is rejected, whatever else it holds and whoever is expected: a
/// signature count other than 1, a padding other than 0, a signature offset
/// other than 48, a key offset other than 16, or a companion index that
/// points away from this record.
pub proof fn lemma_wrong_header_field_is_rejected(data: Seq<u8>, identity: Seq<u8>)
    requires
        signature_count(data) != 1 || padding(data) != 0 || signature_offset(data) != 48
            || signature_companion(data) != 0xFFFF || public_key_offset(data) != 16
            || public_key_companion(data) != 0xFFFF || message_companion(data) != 0xFFFF,
    ensures
        !proves_identity(data, identity),
{
    if proves_identity(data, identity) {
        assert(embedded_key(data).len() == IDENTITY_LEN);
    }
}

/// Whether the byte at `at` belongs to a part of the record whose value the
/// layout or the expected identity fixes: every header field but the
/// message's offset and length, and the embedded key.
pub open spec fn is_fixed_byte(at: int) -> bool {
    0 <= at < 10 || 14 <= at < HEADER_LEN + IDENTITY_LEN
}

/// A record that is accepted is no longer accepted once any single byte of a
/// fixed header field, or of the embedded key, is changed.
pub proof fn lemma_perturbed_record_is_rejected(
    data: Seq<u8>,
    identity: Seq<u8>,
    at: int,
    byte: u8,
)
    requires
        proves_identity(data, identity),
        is_fixed_byte(at),
        byte != data[at],
    ensures
        !proves_identity(data.update(at, byte), identity),
{
    let changed = data.update(at, byte);
    if at >= HEADER_LEN {
        assert(embedded_key(changed)[at - HEADER_LEN] == byte);
        assert(embedded_key(data)[at - HEADER_LEN] == data[at]);
    }
}

/// The header of a record that holds one signature over a message at
/// `message_at`, `message_len` bytes long, with key and signature in place.
pub open spec fn canonical_header(message_at: int, message_len: int) -> Seq<u8> {
    seq![
        1u8, 0u8,
        48u8, 0u8,
        0xFFu8, 0xFFu8,
        16u8, 0u8,
        0xFFu8, 0xFFu8,
        (message_at % 256) as u8, (message_at / 256) as u8,
        (message_len % 256) as u8, (message_len / 256) as u8,
        0xFFu8, 0xFFu8,
    ]
}

/// The record that a signer builds: header, key, signature, message, with
/// nothing between them.
pub open spec fn canonical_record(identity: Seq<u8>, signature: Seq<u8>, message: Seq<u8>) -> Seq<
    u8,
> {
    canonical_header(HEADER_LEN + identity.len() + signature.len(), message.len() as int)
        + identity + signature + message
}

/// A record built as [`canonical_record`] says proves the identity that it
/// embeds, and the message it hands out is the message it was built from.
pub proof fn lemma_canonical_record_is_accepted(
    identity: Seq<u8>,
    signature: Seq<u8>,
    message: Seq<u8>,
)
    requires
        identity.len() == IDENTITY_LEN,
        HEADER_LEN + identity.len() + signature.len() + message.len() <= 0xFFFF,
    ensures
        proves_identity(canonical_record(identity, signature, message), identity),
        signed_message(canonical_record(identity, signature, message)) == message,
{
    let record = canonical_record(identity, signature, message);
    assert(embedded_key(record) =~= identity);
    assert(signed_message(record) =~= message);
}

} // verus!
