//! Public identities, and their textual form.

use std::str::FromStr;
use anchor_lang::prelude::Pubkey;
use anchor_lang::solana_program::ed25519_program;
use vstd::prelude::*;

verus! {

/// Number of bytes in a public identity.
pub const IDENTITY_LEN: usize = 32;

/// A public identity: the key that authenticates a signer and, by derivation,
/// locates an account.
pub type Identity = [u8; 32];

/// The address text of an identity: its base-58 form, as the bytes of the text.
pub uninterp spec fn base58_text(identity: Seq<u8>) -> Seq<u8>;

/// The identity that an address text stands for, if it stands for one.
pub uninterp spec fn parsed_identity(text: Seq<char>) -> Option<Seq<u8>>;

/// Address of the module that verifies Ed25519 signatures.
pub const SIGNATURE_MODULE_ADDRESS: &'static str = "Ed25519SigVerify111111111111111111111111111";

/// Makes a `solana_pubkey::Pubkey`, which `anchor_lang` hands on, with
/// `Pubkey::new_from_array` and formats it with its `Display`, which writes
/// the base-58 form of the 32 bytes and nothing else. Nothing is proved of
/// the encoding. The contract gives it a name: the text depends on the 32
/// bytes alone.
#[verifier::external_body]
pub(crate) fn pubkey_text(identity: &Identity) -> (text: Vec<u8>)
    ensures
        text@ == base58_text(identity@),
{
    Pubkey::new_from_array(*identity).to_string().into_bytes()
}

/// Calls `Pubkey::from_str` of `solana_pubkey`, which decodes a base-58 text
/// into 32 bytes and returns an error for every text that is not the base-58
/// form of 32 bytes. Nothing is proved of the decoding. The contract gives it
/// a name: whether the text stands for an identity, and for which, depends on
/// the text alone.
#[verifier::external_body]
pub(crate) fn pubkey_from_text(text: &str) -> (identity: Option<Identity>)
    ensures
        identity is Some <==> parsed_identity(text@) is Some,
        identity matches Some(id) ==> parsed_identity(text@) == Some(id@),
{
    match Pubkey::from_str(text) {
        Ok(key) => Some(key.to_bytes()),
        Err(_) => None,
    }
}

/// Reads `solana_program::ed25519_program::ID`, the key that `solana_sdk_ids`
/// declares from the address text [`SIGNATURE_MODULE_ADDRESS`]. The contract
/// claims that much: the bytes are the identity that this address stands for.
#[verifier::external_body]
pub(crate) fn ed25519_program_id() -> (id: Identity)
    ensures
        parsed_identity(SIGNATURE_MODULE_ADDRESS@) == Some(id@),
{
    ed25519_program::ID.to_bytes()
}

/// Whether two byte strings are the same, byte for byte.
pub(crate) fn bytes_equal(left: &[u8], right: &[u8]) -> (same: bool)
    ensures
        same == (left@ == right@),
{
    if left.len() != right.len() {
        return false;
    }
    let mut at: usize = 0;
    while at < left.len()
        invariant
            left@.len() == right@.len(),
            at <= left@.len(),
            forall|k: int| 0 <= k < at ==> left@[k] == right@[k],
        decreases left@.len() - at,
    {
        if left[at] != right[at] {
            return false;
        }
        at += 1;
    }
    assert(left@ =~= right@);
    true
}

} // verus!
