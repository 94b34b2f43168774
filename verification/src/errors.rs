use vstd::prelude::*;

verus! {

/// A principal: an authenticated caller identity, as the host hands it in.
pub type AccountId = u64;

/// An amount of native value.
pub type Balance = u128;

/// Why an operation was refused. Every failure leaves all state exactly as it
/// was before the call began.
#[derive(Clone, Copy, Debug, PartialEq, Eq, Structural)]
pub enum Error {
    /// The caller is not the registry owner.
    NotOwner,
    /// The caller is not the authorized aggregator.
    NotAuthorized,
    /// No campaign exists under the given id.
    CampaignNotFound,
    /// The campaign is not approved yet, or has been killed.
    CampaignNotActive,
    /// The value attached to a submission is below the required minimum.
    InsufficientDeposit,
    /// The campaign's escrow no longer covers one payout.
    CampaignOutOfFunds,
    /// The caller's claimable balance is zero.
    NothingToWithdraw,
    /// The underlying value movement could not be performed.
    TransferError,
}

/// An outbound native-value transfer that the host must perform on behalf of
/// the library: the host either delivers it or aborts the whole enclosing
/// transaction, so a returned `Payment` is atomic with the state change that
/// produced it.
#[derive(Clone, Copy, Debug, PartialEq, Eq, Structural)]
pub struct Payment {
    pub to: AccountId,
    pub amount: Balance,
}

} // verus!
