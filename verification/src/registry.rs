use vstd::prelude::*;

use crate::errors::{AccountId, Balance, Error, Payment};
use crate::vault::{deposit_fits, deposit_map, RewardVault, Split};

verus! {

/// One advertiser's escrowed pay-per-impression agreement. A campaign is
/// created Pending, may be approved once (never revoked), and may be killed
/// (terminal). Its escrow only decreases after creation.
#[derive(Clone, Copy, Debug, PartialEq, Eq, Structural)]
pub struct Campaign {
    pub advertiser: AccountId,
    pub reward_vault: AccountId,
    pub payout_per_impression: Balance,
    pub max_impressions: u64,
    pub initial_deposit: Balance,
    pub deposit_remaining: Balance,
    pub approved: bool,
    pub killed: bool,
}

impl Campaign {
    /// The escrow never exceeds what was deposited at creation, and a killed
    /// campaign retains no escrow.
    pub open spec fn wf(self) -> bool {
        &&& self.deposit_remaining <= self.initial_deposit
        &&& self.killed ==> self.deposit_remaining == 0
    }

    /// Impressions are recorded only against an approved, not-killed campaign.
    pub open spec fn active(self) -> bool {
        self.approved && !self.killed
    }
}

/// The campaign a submission creates: Pending, with the whole attached value
/// (any excess above the required minimum included) locked as escrow.
pub open spec fn submitted_campaign(
    advertiser: AccountId,
    value: Balance,
    payout_per_impression: Balance,
    max_impressions: u64,
    reward_vault: AccountId,
) -> Campaign {
    Campaign {
        advertiser,
        reward_vault,
        payout_per_impression,
        max_impressions,
        initial_deposit: value,
        deposit_remaining: value,
        approved: false,
        killed: false,
    }
}

/// What recording one impression against the given campaign table and balance
/// table comes to: either the error the registry reports, or the new campaign
/// table and the new balance table, with exactly one payout moved from the
/// campaign's escrow into the four-way split.
pub open spec fn record_outcome(
    campaigns: Seq<Campaign>,
    balances: Map<AccountId, Balance>,
    split: Split,
    treasury: AccountId,
    id: u64,
    user: AccountId,
    publisher: AccountId,
    staker: AccountId,
) -> Result<(Seq<Campaign>, Map<AccountId, Balance>), Error> {
    if id >= campaigns.len() {
        Err(Error::CampaignNotFound)
    } else {
        let c = campaigns[id as int];
        if !c.active() {
            Err(Error::CampaignNotActive)
        } else if c.deposit_remaining < c.payout_per_impression {
            Err(Error::CampaignOutOfFunds)
        } else if !deposit_fits(
            balances,
            split,
            c.payout_per_impression,
            user,
            publisher,
            staker,
            treasury,
        ) {
            Err(Error::TransferError)
        } else {
            Ok(
                (
                    campaigns.update(
                        id as int,
                        Campaign {
                            deposit_remaining: (c.deposit_remaining
                                - c.payout_per_impression) as u128,
                            ..c
                        },
                    ),
                    deposit_map(
                        balances,
                        split,
                        c.payout_per_impression,
                        user,
                        publisher,
                        staker,
                        treasury,
                    ),
                ),
            )
        }
    }
}

/// A killed campaign never becomes live again: once `killed` is set on a
/// campaign, recording an impression against it fails `CampaignNotActive`,
/// whatever else the tables hold.
pub proof fn lemma_killed_blocks_impressions(
    campaigns: Seq<Campaign>,
    balances: Map<AccountId, Balance>,
    split: Split,
    treasury: AccountId,
    id: u64,
    user: AccountId,
    publisher: AccountId,
    staker: AccountId,
)
    requires
        id < campaigns.len(),
        campaigns[id as int].killed,
    ensures
        record_outcome(campaigns, balances, split, treasury, id, user, publisher, staker) == Err::<
            (Seq<Campaign>, Map<AccountId, Balance>),
            Error,
        >(Error::CampaignNotActive),
{
}

/// Owns the campaign table: an append-only arena whose index is the campaign
/// id, so ids are allocated strictly increasing and never reused.
pub struct CampaignRegistry {
    pub owner: AccountId,
    pub campaigns: Vec<Campaign>,
}

impl CampaignRegistry {
    pub open spec fn wf(&self) -> bool {
        forall|i: int| 0 <= i < self.campaigns@.len() ==> (#[trigger] self.campaigns@[i]).wf()
    }

    /// Once a campaign is killed it stays killed, whatever the operation did.
    pub open spec fn kills_preserved(pre: Seq<Campaign>, post: Seq<Campaign>) -> bool {
        forall|i: int|
            0 <= i < pre.len() && (#[trigger] pre[i]).killed ==> i < post.len() && post[i].killed
    }

    /// An empty registry owned by its deployer.
    pub fn new(caller: AccountId) -> (r: CampaignRegistry)
        ensures
            r.wf(),
            r.owner == caller,
            r.campaigns@ == Seq::<Campaign>::empty(),
    {
        CampaignRegistry { owner: caller, campaigns: Vec::new() }
    }

    /// The number of campaigns ever submitted; ids run from zero to one below
    /// this count.
    pub fn campaign_count(&self) -> (r: u64)
        ensures
            r == self.campaigns@.len(),
    {
        self.campaigns.len() as u64
    }

    /// The campaign stored under `id`, if any.
    pub fn get_campaign(&self, id: u64) -> (r: Option<Campaign>)
        ensures
            id < self.campaigns@.len() ==> r == Some(self.campaigns@[id as int]),
            id >= self.campaigns@.len() ==> r is None,
    {
        if id < self.campaigns.len() as u64 {
            Some(self.campaigns[id as usize])
        } else {
            None
        }
    }

    /// Creates a Pending campaign escrowing the whole attached `value`. Fails
    /// `InsufficientDeposit`, changing nothing, exactly when `value` is below
    /// `payout_per_impression * max_impressions`; otherwise returns the new
    /// campaign's id, the next index of the arena.
    pub fn submit_campaign(
        &mut self,
        caller: AccountId,
        value: Balance,
        payout_per_impression: Balance,
        max_impressions: u64,
        reward_vault: AccountId,
    ) -> (r: Result<u64, Error>)
        requires
            old(self).wf(),
        ensures
            final(self).wf(),
            final(self).owner == old(self).owner,
            r is Ok <==> value as int >= payout_per_impression as int * max_impressions as int,
            r is Err ==> *final(self) == *old(self) && r == Err::<u64, Error>(
                Error::InsufficientDeposit,
            ),
            r is Ok ==> r == Ok::<u64, Error>(old(self).campaigns@.len() as u64)
                && final(self).campaigns@ == old(self).campaigns@.push(
                submitted_campaign(
                    caller,
                    value,
                    payout_per_impression,
                    max_impressions,
                    reward_vault,
                ),
            ),
            Self::kills_preserved(old(self).campaigns@, final(self).campaigns@),
    {
        match payout_per_impression.checked_mul(max_impressions as u128) {
            Some(required) => {
                if value < required {
                    return Err(Error::InsufficientDeposit);
                }
            },
            None => {
                // The exact product exceeds the balance type, so no attachable
                // value can reach it.
                return Err(Error::InsufficientDeposit);
            },
        }
        let id = self.campaigns.len() as u64;
        self.campaigns.push(
            Campaign {
                advertiser: caller,
                reward_vault,
                payout_per_impression,
                max_impressions,
                initial_deposit: value,
                deposit_remaining: value,
                approved: false,
                killed: false,
            },
        );
        Ok(id)
    }

    /// Marks the campaign approved; approving again changes nothing further.
    /// Restricted to the registry owner.
    pub fn approve(&mut self, caller: AccountId, id: u64) -> (r: Result<(), Error>)
        requires
            old(self).wf(),
        ensures
            final(self).wf(),
            final(self).owner == old(self).owner,
            caller != old(self).owner ==> r == Err::<(), Error>(Error::NotOwner) && *final(self)
                == *old(self),
            caller == old(self).owner && id >= old(self).campaigns@.len() ==> r == Err::<(), Error>(
                Error::CampaignNotFound,
            ) && *final(self) == *old(self),
            caller == old(self).owner && id < old(self).campaigns@.len() ==> r == Ok::<(), Error>(
                (),
            ) && final(self).campaigns@ == old(self).campaigns@.update(
                id as int,
                (Campaign { approved: true, ..old(self).campaigns@[id as int] }),
            ),
            Self::kills_preserved(old(self).campaigns@, final(self).campaigns@),
    {
        if caller != self.owner {
            return Err(Error::NotOwner);
        }
        if id >= self.campaigns.len() as u64 {
            return Err(Error::CampaignNotFound);
        }
        let i = id as usize;
        let mut c = self.campaigns[i];
        c.approved = true;
        self.campaigns[i] = c;
        Ok(())
    }

    /// Records one impression: checks the campaign is known, active and
    /// funded, forwards exactly one payout into the vault's four-way split,
    /// and only after that deposit succeeds decrements the escrow — so a
    /// failed sub-call leaves every table untouched. The host routes the call
    /// to the vault the campaign was submitted against.
    pub fn record_impression(
        &mut self,
        vault: &mut RewardVault,
        id: u64,
        user: AccountId,
        publisher: AccountId,
        staker: AccountId,
    ) -> (r: Result<(), Error>)
        requires
            old(self).wf(),
            old(vault).wf(),
        ensures
            final(self).wf(),
            final(vault).wf(),
            final(self).owner == old(self).owner,
            final(vault).owner == old(vault).owner,
            final(vault).split == old(vault).split,
            final(vault).treasury == old(vault).treasury,
            ({
                let outcome = record_outcome(
                    old(self).campaigns@,
                    old(vault).balance_map(),
                    old(vault).split,
                    old(vault).treasury,
                    id,
                    user,
                    publisher,
                    staker,
                );
                match outcome {
                    Ok(next) => r is Ok && final(self).campaigns@ == next.0
                        && final(vault).balance_map() == next.1,
                    Err(e) => r == Err::<(), Error>(e) && *final(self) == *old(self)
                        && *final(vault) == *old(vault),
                }
            }),
            Self::kills_preserved(old(self).campaigns@, final(self).campaigns@),
    {
        if id >= self.campaigns.len() as u64 {
            return Err(Error::CampaignNotFound);
        }
        let i = id as usize;
        let mut c = self.campaigns[i];
        if !(c.approved && !c.killed) {
            return Err(Error::CampaignNotActive);
        }
        if c.deposit_remaining < c.payout_per_impression {
            return Err(Error::CampaignOutOfFunds);
        }
        match vault.deposit(c.payout_per_impression, user, publisher, staker) {
            Ok(()) => {},
            Err(e) => {
                return Err(e);
            },
        }
        c.deposit_remaining = c.deposit_remaining - c.payout_per_impression;
        self.campaigns[i] = c;
        Ok(())
    }

    /// Kills the campaign (terminal, idempotent) and zeroes its escrow. When
    /// escrow remained, the refund to the advertiser is returned as a
    /// `Payment` the host must deliver in the same transaction, so the
    /// liability is never dropped without the refund travelling with it.
    /// Restricted to the registry owner.
    pub fn kill(&mut self, caller: AccountId, id: u64) -> (r: Result<Option<Payment>, Error>)
        requires
            old(self).wf(),
        ensures
            final(self).wf(),
            final(self).owner == old(self).owner,
            caller != old(self).owner ==> r == Err::<Option<Payment>, Error>(Error::NotOwner)
                && *final(self) == *old(self),
            caller == old(self).owner && id >= old(self).campaigns@.len() ==> r == Err::<
                Option<Payment>,
                Error,
            >(Error::CampaignNotFound) && *final(self) == *old(self),
            caller == old(self).owner && id < old(self).campaigns@.len() ==> ({
                let c = old(self).campaigns@[id as int];
                &&& final(self).campaigns@ == old(self).campaigns@.update(
                    id as int,
                    (Campaign { killed: true, deposit_remaining: 0u128, ..c }),
                )
                &&& r == Ok::<Option<Payment>, Error>(
                    if c.deposit_remaining > 0 {
                        Some(Payment { to: c.advertiser, amount: c.deposit_remaining })
                    } else {
                        None
                    },
                )
            }),
            Self::kills_preserved(old(self).campaigns@, final(self).campaigns@),
    {
        if caller != self.owner {
            return Err(Error::NotOwner);
        }
        if id >= self.campaigns.len() as u64 {
            return Err(Error::CampaignNotFound);
        }
        let i = id as usize;
        let mut c = self.campaigns[i];
        let refund = c.deposit_remaining;
        c.killed = true;
        c.deposit_remaining = 0;
        self.campaigns[i] = c;
        if refund > 0 {
            Ok(Some(Payment { to: c.advertiser, amount: refund }))
        } else {
            Ok(None)
        }
    }

    /// An identical copy of the registry.
    pub fn duplicate(&self) -> (r: CampaignRegistry)
        ensures
            r.owner == self.owner,
            r.campaigns@ == self.campaigns@,
    {
        let n = self.campaigns.len();
        let mut out: Vec<Campaign> = Vec::new();
        let mut i: usize = 0;
        while i < n
            invariant
                n == self.campaigns.len(),
                i <= n,
                out@ == self.campaigns@.subrange(0, i as int),
            decreases n - i,
        {
            let c = self.campaigns[i];
            out.push(c);
            i += 1;
        }
        proof {
            assert(out@ =~= self.campaigns@);
        }
        CampaignRegistry { owner: self.owner, campaigns: out }
    }
}

} // verus!
