//! The reward ledger: the per-device account record, the amount that an
//! attested lifetime total entitles to, and the counter of what was paid out.
//!
//! The oracle attests a running total, never an amount to pay now. What is
//! paid is the difference between that total and the account's counter, so an
//! attestation that is submitted again finds nothing left to pay.

use vstd::prelude::*;
use crate::config::Config;
use crate::envelope::{companion_proves, verify_companion, Operation};
use crate::error::ErrorCode;
use crate::identity::Identity;

verus! {

/// The reward account of one device.
#[derive(Clone, Copy, Debug, PartialEq, Eq)]
pub struct RewardAccount {
    /// The device that the account belongs to. Never changes.
    pub device_pubkey: Identity,
    /// The identity that may draw rewards and pass this right on.
    pub withdraw_authority: Identity,
    /// All rewards paid out so far. Never decreases.
    pub total_claimed: u64,
}

/// What an attested lifetime total of `lifetime_rewards` entitles to on an
/// account that has been paid `total_claimed`: the difference, unless there is
/// none or the attestation lags behind the account.
pub open spec fn claimable(total_claimed: u64, lifetime_rewards: u64) -> Result<u64, ErrorCode> {
    if lifetime_rewards < total_claimed {
        Err(ErrorCode::InvalidRewardAmount)
    } else if lifetime_rewards == total_claimed {
        Err(ErrorCode::NoRewardsToClaim)
    } else {
        Ok((lifetime_rewards - total_claimed) as u64)
    }
}

/// How a claim is decided: the companion of the claim must prove the oracle,
/// and then the ledger says what is due.
pub open spec fn claim_outcome(
    account: RewardAccount,
    batch: Seq<Operation>,
    current_index: int,
    config: Config,
    lifetime_rewards: u64,
) -> Result<u64, ErrorCode> {
    if companion_proves(batch, current_index, config.signature_module@, config.oracle@) {
        claimable(account.total_claimed, lifetime_rewards)
    } else {
        Err(ErrorCode::InvalidInstruction)
    }
}

impl RewardAccount {
    /// The account after `amount` more has been paid out.
    pub open spec fn recorded(self, amount: u64) -> Result<RewardAccount, ErrorCode> {
        if self.total_claimed + amount > u64::MAX {
            Err(ErrorCode::RewardOverflow)
        } else {
            Ok(
                RewardAccount {
                    device_pubkey: self.device_pubkey,
                    withdraw_authority: self.withdraw_authority,
                    total_claimed: (self.total_claimed + amount) as u64,
                },
            )
        }
    }

    /// The rewards that an attested lifetime total of `lifetime_rewards`
    /// entitles this account to.
    pub fn rewards_to_claim(&self, lifetime_rewards: u64) -> (result: Result<u64, ErrorCode>)
        ensures
            result == claimable(self.total_claimed, lifetime_rewards),
    {
        match lifetime_rewards.checked_sub(self.total_claimed) {
            None => Err(ErrorCode::InvalidRewardAmount),
            Some(rewards_to_claim) => {
                if rewards_to_claim == 0 {
                    Err(ErrorCode::NoRewardsToClaim)
                } else {
                    Ok(rewards_to_claim)
                }
            },
        }
    }
}

/// Creates the account of the device `device_pubkey`. The payer of the
/// creation becomes its first withdrawal authority, and nothing has been paid
/// out yet.
pub fn initialize_reward_account(payer: Identity, device_pubkey: Identity) -> (account:
    RewardAccount)
    ensures
        account.device_pubkey == device_pubkey,
        account.withdraw_authority == payer,
        account.total_claimed == 0,
{
    RewardAccount { device_pubkey, withdraw_authority: payer, total_claimed: 0 }
}

/// Decides a claim of the rewards that the oracle attests, and hands out the
/// amount that the treasury is to move to the claimant.
///
/// The claim is the operation at `current_index` of `batch`; its companion
/// must prove the oracle of `config`. What the oracle's message says is not
/// looked at. The account is not touched: once the treasury has moved the
/// amount, [`record_claim`] advances the counter.
pub fn claim_rewards(
    account: &RewardAccount,
    batch: &[Operation],
    current_index: usize,
    config: &Config,
    lifetime_rewards: u64,
    _timestamp: u64,
) -> (result: Result<u64, ErrorCode>)
    ensures
        result == claim_outcome(*account, batch@, current_index as int, *config, lifetime_rewards),
        result matches Ok(amount) ==> 0 < amount && account.total_claimed + amount
            == lifetime_rewards,
        companion_proves(batch@, current_index as int, config.signature_module@, config.oracle@)
            ==> {
            &&& lifetime_rewards < account.total_claimed ==> result == Err::<u64, ErrorCode>(
                ErrorCode::InvalidRewardAmount,
            )
            &&& lifetime_rewards == account.total_claimed ==> result == Err::<u64, ErrorCode>(
                ErrorCode::NoRewardsToClaim,
            )
            &&& lifetime_rewards > account.total_claimed ==> result == Ok::<u64, ErrorCode>(
                (lifetime_rewards - account.total_claimed) as u64,
            )
        },
{
    match verify_companion(batch, current_index, &config.signature_module, config.oracle.as_slice()) {
        Err(e) => Err(e),
        Ok(_message) => account.rewards_to_claim(lifetime_rewards),
    }
}

/// Advances the account's counter by an amount that the treasury has moved.
///
/// Fails, and leaves the account as it was, if the counter would leave the
/// 64-bit range. The transfer and this step belong to one atomic request: if
/// this step fails the request as a whole has failed.
pub fn record_claim(account: &mut RewardAccount, amount: u64) -> (result: Result<(), ErrorCode>)
    ensures
        match result {
            Ok(()) => old(account).recorded(amount) == Ok::<RewardAccount, ErrorCode>(
                *final(account),
            ),
            Err(e) => old(account).recorded(amount) == Err::<RewardAccount, ErrorCode>(e)
                && *final(account) == *old(account),
        },
        final(account).device_pubkey == old(account).device_pubkey,
        final(account).withdraw_authority == old(account).withdraw_authority,
        final(account).total_claimed >= old(account).total_claimed,
{
    match account.total_claimed.checked_add(amount) {
        None => Err(ErrorCode::RewardOverflow),
        Some(total_claimed) => {
            account.total_claimed = total_claimed;
            Ok(())
        },
    }
}

/// A claim that is granted pays exactly the difference between the attested
/// lifetime total and the account's counter, and once that amount is recorded
/// the counter is exactly the attested total.
pub proof fn lemma_granted_claim_reaches_attested_total(
    account: RewardAccount,
    batch: Seq<Operation>,
    current_index: int,
    config: Config,
    lifetime_rewards: u64,
)
    requires
        companion_proves(batch, current_index, config.signature_module@, config.oracle@),
        lifetime_rewards > account.total_claimed,
    ensures
        claim_outcome(account, batch, current_index, config, lifetime_rewards) == Ok::<
            u64,
            ErrorCode,
        >((lifetime_rewards - account.total_claimed) as u64),
        account.recorded((lifetime_rewards - account.total_claimed) as u64) is Ok,
        account.recorded(
            (lifetime_rewards - account.total_claimed) as u64,
        )->Ok_0.total_claimed == lifetime_rewards,
{
}

/// An attestation pays once. After a granted claim has been recorded, a
/// second claim of the same lifetime total, with whatever proof of the oracle
/// it comes, finds no rewards to claim; and an older, lower total is turned
/// down as invalid.
pub proof fn lemma_attestation_pays_once(
    account: RewardAccount,
    batch: Seq<Operation>,
    current_index: int,
    config: Config,
    lifetime_rewards: u64,
    next_batch: Seq<Operation>,
    next_index: int,
    earlier_rewards: u64,
)
    requires
        claim_outcome(account, batch, current_index, config, lifetime_rewards) is Ok,
        companion_proves(next_batch, next_index, config.signature_module@, config.oracle@),
        earlier_rewards < lifetime_rewards,
    ensures
        account.recorded(
            claim_outcome(account, batch, current_index, config, lifetime_rewards)->Ok_0,
        ) is Ok,
        claim_outcome(
            account.recorded(
                claim_outcome(account, batch, current_index, config, lifetime_rewards)->Ok_0,
            )->Ok_0,
            next_batch,
            next_index,
            config,
            lifetime_rewards,
        ) == Err::<u64, ErrorCode>(ErrorCode::NoRewardsToClaim),
        claim_outcome(
            account.recorded(
                claim_outcome(account, batch, current_index, config, lifetime_rewards)->Ok_0,
            )->Ok_0,
            next_batch,
            next_index,
            config,
            earlier_rewards,
        ) == Err::<u64, ErrorCode>(ErrorCode::InvalidRewardAmount),
{
}

} // verus!
