use vstd::prelude::*;

verus! {

/// Why a request was turned down. Every failure aborts the whole request;
/// none of them is retried.
#[derive(Clone, Copy, Debug, PartialEq, Eq, Structural)]
pub enum ErrorCode {
    /// A device-signed handover message is not the required text.
    InvalidSignature,
    /// The caller is not the recorded withdrawal authority.
    Unauthorized,
    /// The attested lifetime total is below what was already paid out.
    InvalidRewardAmount,
    /// The attested lifetime total equals what was already paid out.
    NoRewardsToClaim,
    /// The counter of paid-out rewards would leave the 64-bit range.
    RewardOverflow,
    /// The companion signature proof is missing, malformed, or belongs to
    /// another module.
    InvalidInstruction,
}

impl ErrorCode {
    /// The message shown to the caller.
    pub fn message(&self) -> (text: &'static str)
        ensures
            text@ == self.message_text(),
    {
        match self {
            ErrorCode::InvalidSignature => "Invalid signature",
            ErrorCode::Unauthorized => "Unauthorized",
            ErrorCode::InvalidRewardAmount => "Invalid reward amount",
            ErrorCode::NoRewardsToClaim => "No rewards to claim",
            ErrorCode::RewardOverflow => "Reward overflow",
            ErrorCode::InvalidInstruction => "Invalid instruction",
        }
    }

    pub open spec fn message_text(&self) -> Seq<char> {
        match self {
            ErrorCode::InvalidSignature => "Invalid signature"@,
            ErrorCode::Unauthorized => "Unauthorized"@,
            ErrorCode::InvalidRewardAmount => "Invalid reward amount"@,
            ErrorCode::NoRewardsToClaim => "No rewards to claim"@,
            ErrorCode::RewardOverflow => "Reward overflow"@,
            ErrorCode::InvalidInstruction => "Invalid instruction"@,
        }
    }
}

} // verus!
