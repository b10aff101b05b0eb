//! Who may withdraw: the two ways in which an account's withdrawal authority
//! is passed on.
//!
//! The current authority may name its successor itself. The device may name
//! one without the current authority's help, by signing a message that says
//! so in words that fit no other purpose.

use vstd::prelude::*;
use vstd::string::StringSliceAdditionalSpecFns;
use crate::config::Config;
use crate::envelope::{companion_message, companion_proves, verify_companion, Operation};
use crate::error::ErrorCode;
use crate::identity::{base58_text, bytes_equal, pubkey_text, Identity};
use crate::ledger::RewardAccount;

verus! {

/// The words that open a handover message. The address text of the new
/// authority follows them directly.
pub const HANDOVER_PREFIX: &'static str = "I want to claim: ";

/// The handover message that names the authority whose address text is
/// `authority_text`.
pub open spec fn handover_text(authority_text: Seq<u8>) -> Seq<u8> {
    HANDOVER_PREFIX.spec_bytes() + authority_text
}

/// The one message by which the device hands the account to `new_authority`.
pub open spec fn handover_message(new_authority: Seq<u8>) -> Seq<u8> {
    handover_text(base58_text(new_authority))
}

impl RewardAccount {
    /// The account with `new_authority` as its withdrawal authority.
    pub open spec fn handed_to(self, new_authority: Identity) -> RewardAccount {
        RewardAccount {
            device_pubkey: self.device_pubkey,
            withdraw_authority: new_authority,
            total_claimed: self.total_claimed,
        }
    }
}

/// The handover prefix is these seventeen bytes, the ASCII codes of its
/// characters.
pub proof fn lemma_handover_prefix_bytes()
    ensures
        HANDOVER_PREFIX.spec_bytes() == seq![
            73u8, 32, 119, 97, 110, 116, 32, 116, 111, 32, 99, 108, 97, 105, 109, 58, 32,
        ],
{
    reveal_strlit("I want to claim: ");
    vstd::string::is_ascii_spec_bytes(HANDOVER_PREFIX);
    assert(HANDOVER_PREFIX.spec_bytes() =~= seq![
        73u8, 32, 119, 97, 110, 116, 32, 116, 111, 32, 99, 108, 97, 105, 109, 58, 32,
    ]);
}

/// Whether `message` is, byte for byte, the handover message for the
/// authority whose address text is `authority_text`.
pub fn is_handover_text(message: &[u8], authority_text: &[u8]) -> (same: bool)
    ensures
        same == (message@ == handover_text(authority_text@)),
{
    let prefix: &[u8] = HANDOVER_PREFIX.as_bytes();
    if message.len() < prefix.len() {
        return false;
    }
    let head: &[u8] = &message[0..prefix.len()];
    let tail: &[u8] = &message[prefix.len()..message.len()];
    let same = bytes_equal(head, prefix) && bytes_equal(tail, authority_text);
    proof {
        if same {
            assert(message@ =~= head@ + tail@);
        } else if message@ == handover_text(authority_text@) {
            assert(head@ =~= prefix@);
            assert(tail@ =~= authority_text@);
        }
    }
    same
}

/// Passes the withdrawal authority on at the request of `current_authority`,
/// which must be the authority on record.
pub fn change_authority(
    account: &mut RewardAccount,
    current_authority: &Identity,
    new_authority: Identity,
) -> (result: Result<(), ErrorCode>)
    ensures
        current_authority@ == old(account).withdraw_authority@ ==> result is Ok && *final(account)
            == old(account).handed_to(new_authority),
        current_authority@ != old(account).withdraw_authority@ ==> result == Err::<(), ErrorCode>(
            ErrorCode::Unauthorized,
        ) && *final(account) == *old(account),
{
    if !bytes_equal(current_authority.as_slice(), account.withdraw_authority.as_slice()) {
        return Err(ErrorCode::Unauthorized);
    }
    account.withdraw_authority = new_authority;
    Ok(())
}

/// Passes the withdrawal authority on to `new_authority` if `message`, which
/// the device has signed, is the handover message for the address text
/// `authority_text`. Any other message leaves the account as it was.
///
/// The caller vouches that `message` was signed by the account's device and
/// that `authority_text` is the address text of `new_authority`;
/// [`change_authority_with_device_sig`] establishes both.
pub fn accept_handover(
    account: &mut RewardAccount,
    message: &[u8],
    authority_text: &[u8],
    new_authority: Identity,
) -> (result: Result<(), ErrorCode>)
    ensures
        message@ == handover_text(authority_text@) ==> result is Ok && *final(account) == old(
            account,
        ).handed_to(new_authority),
        message@ != handover_text(authority_text@) ==> result == Err::<(), ErrorCode>(
            ErrorCode::InvalidSignature,
        ) && *final(account) == *old(account),
{
    if !is_handover_text(message, authority_text) {
        return Err(ErrorCode::InvalidSignature);
    }
    account.withdraw_authority = new_authority;
    Ok(())
}

/// What a handover by the device comes to.
pub open spec fn device_handover_outcome(
    account: RewardAccount,
    batch: Seq<Operation>,
    current_index: int,
    config: Config,
    new_authority: Identity,
) -> Result<RewardAccount, ErrorCode> {
    if !companion_proves(batch, current_index, config.signature_module@, account.device_pubkey@) {
        Err(ErrorCode::InvalidInstruction)
    } else if companion_message(batch, current_index) != handover_message(new_authority@) {
        Err(ErrorCode::InvalidSignature)
    } else {
        Ok(account.handed_to(new_authority))
    }
}

/// Passes the withdrawal authority on to `new_authority` at the request of
/// the device, without the current authority taking part.
///
/// The request is the operation at `current_index` of `batch`. Its companion
/// must prove the account's device, and the message that the device signed
/// must be exactly [`handover_message`] for `new_authority`.
pub fn change_authority_with_device_sig(
    account: &mut RewardAccount,
    batch: &[Operation],
    current_index: usize,
    config: &Config,
    new_authority: Identity,
) -> (result: Result<(), ErrorCode>)
    ensures
        match result {
            Ok(()) => device_handover_outcome(
                *old(account),
                batch@,
                current_index as int,
                *config,
                new_authority,
            ) == Ok::<RewardAccount, ErrorCode>(*final(account)),
            Err(e) => device_handover_outcome(
                *old(account),
                batch@,
                current_index as int,
                *config,
                new_authority,
            ) == Err::<RewardAccount, ErrorCode>(e) && *final(account) == *old(account),
        },
        result is Ok <==> companion_proves(
            batch@,
            current_index as int,
            config.signature_module@,
            old(account).device_pubkey@,
        ) && companion_message(batch@, current_index as int) == handover_message(new_authority@),
        final(account).device_pubkey == old(account).device_pubkey,
        final(account).total_claimed == old(account).total_claimed,
{
    let message = match verify_companion(
        batch,
        current_index,
        &config.signature_module,
        account.device_pubkey.as_slice(),
    ) {
        Err(e) => { return Err(e); },
        Ok(message) => message,
    };
    let authority_text = pubkey_text(&new_authority);
    accept_handover(account, message.as_slice(), authority_text.as_slice(), new_authority)
}

} // verus!
