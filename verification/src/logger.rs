use vstd::prelude::*;

use crate::errors::{AccountId, Balance, Error};
use crate::registry::{record_outcome, Campaign, CampaignRegistry};
use crate::vault::{RewardVault, Split};

verus! {

/// One queued impression: the campaign it consumes escrow from, then the
/// viewer, the publisher and the staker it pays.
pub type ImpressionRecord = (u64, AccountId, AccountId, AccountId);

/// What forwarding the records from index `i` onwards comes to: the first
/// failing record's error, or the campaign table and balance table after
/// every record was applied in order.
pub open spec fn batch_outcome_from(
    campaigns: Seq<Campaign>,
    balances: Map<AccountId, Balance>,
    split: Split,
    treasury: AccountId,
    records: Seq<ImpressionRecord>,
    i: int,
) -> Result<(Seq<Campaign>, Map<AccountId, Balance>), Error>
    decreases records.len() - i,
{
    if i < 0 || i >= records.len() {
        Ok((campaigns, balances))
    } else {
        let rec = records[i];
        match record_outcome(campaigns, balances, split, treasury, rec.0, rec.1, rec.2, rec.3) {
            Ok(next) => batch_outcome_from(next.0, next.1, split, treasury, records, i + 1),
            Err(e) => Err(e),
        }
    }
}

/// What a whole batch comes to: all records applied in order, or the error of
/// the first record that fails.
pub open spec fn batch_outcome(
    campaigns: Seq<Campaign>,
    balances: Map<AccountId, Balance>,
    split: Split,
    treasury: AccountId,
    records: Seq<ImpressionRecord>,
) -> Result<(Seq<Campaign>, Map<AccountId, Balance>), Error> {
    batch_outcome_from(campaigns, balances, split, treasury, records, 0)
}

/// Stateless gateway for the off-chain aggregator: it authorizes a batch of
/// impression submissions and forwards them, all or nothing, to the registry.
pub struct ImpressionLogger {
    pub owner: AccountId,
    pub registry: AccountId,
}

impl ImpressionLogger {
    /// A logger whose authorized aggregator is its deployer, forwarding to
    /// the registry at the given address.
    pub fn new(caller: AccountId, registry: AccountId) -> (r: ImpressionLogger)
        ensures
            r.owner == caller,
            r.registry == registry,
    {
        ImpressionLogger { owner: caller, registry }
    }

    /// Forwards one `record_impression` per record, in order, all or nothing:
    /// if any record fails, every effect of the earlier records in the same
    /// batch is discarded, both tables are left exactly as they were, and the
    /// batch reports that record's error. Restricted to the authorized
    /// aggregator. The host routes the call to the registry the logger was
    /// constructed over.
    pub fn batch_record(
        &self,
        caller: AccountId,
        registry: &mut CampaignRegistry,
        vault: &mut RewardVault,
        records: &Vec<ImpressionRecord>,
    ) -> (r: Result<(), Error>)
        requires
            old(registry).wf(),
            old(vault).wf(),
        ensures
            final(registry).wf(),
            final(vault).wf(),
            final(registry).owner == old(registry).owner,
            final(vault).owner == old(vault).owner,
            final(vault).split == old(vault).split,
            final(vault).treasury == old(vault).treasury,
            caller != self.owner ==> r == Err::<(), Error>(Error::NotAuthorized)
                && *final(registry) == *old(registry) && *final(vault) == *old(vault),
            caller == self.owner ==> ({
                let outcome = batch_outcome(
                    old(registry).campaigns@,
                    old(vault).balance_map(),
                    old(vault).split,
                    old(vault).treasury,
                    records@,
                );
                match outcome {
                    Ok(next) => r is Ok && final(registry).campaigns@ == next.0
                        && final(vault).balance_map() == next.1,
                    Err(e) => r == Err::<(), Error>(e) && *final(registry) == *old(registry)
                        && *final(vault) == *old(vault),
                }
            }),
            CampaignRegistry::kills_preserved(old(registry).campaigns@, final(registry).campaigns@),
    {
        if caller != self.owner {
            return Err(Error::NotAuthorized);
        }
        let ghost orig_campaigns = registry.campaigns@;
        let ghost orig_balances = vault.balance_map();
        let ghost split = vault.split;
        let ghost treasury = vault.treasury;
        let mut staged_registry = registry.duplicate();
        let mut staged_vault = vault.duplicate();
        let n = records.len();
        let mut i: usize = 0;
        while i < n
            invariant
                caller == self.owner,
                *registry == *old(registry),
                *vault == *old(vault),
                n == records@.len(),
                i <= n,
                staged_registry.wf(),
                staged_vault.wf(),
                staged_registry.owner == registry.owner,
                staged_vault.owner == vault.owner,
                staged_vault.split == split,
                staged_vault.treasury == treasury,
                orig_campaigns == registry.campaigns@,
                orig_balances == vault.balance_map(),
                split == vault.split,
                treasury == vault.treasury,
                registry.wf(),
                vault.wf(),
                batch_outcome_from(orig_campaigns, orig_balances, split, treasury, records@, 0)
                    == batch_outcome_from(
                    staged_registry.campaigns@,
                    staged_vault.balance_map(),
                    split,
                    treasury,
                    records@,
                    i as int,
                ),
                CampaignRegistry::kills_preserved(orig_campaigns, staged_registry.campaigns@),
            decreases n - i,
        {
            let rec = records[i];
            let ghost pre_campaigns = staged_registry.campaigns@;
            match staged_registry.record_impression(&mut staged_vault, rec.0, rec.1, rec.2, rec.3) {
                Ok(()) => {},
                Err(e) => {
                    return Err(e);
                },
            }
            proof {
                assert(CampaignRegistry::kills_preserved(
                    orig_campaigns,
                    staged_registry.campaigns@,
                )) by {
                    assert(forall|k: int|
                        0 <= k < orig_campaigns.len() && (#[trigger] orig_campaigns[k]).killed
                            ==> k < staged_registry.campaigns@.len()
                            && staged_registry.campaigns@[k].killed) by {
                        assert(forall|k: int|
                            0 <= k < orig_campaigns.len() && (#[trigger] orig_campaigns[k]).killed
                                ==> k < pre_campaigns.len() && pre_campaigns[k].killed);
                    }
                }
            }
            i += 1;
        }
        *registry = staged_registry;
        *vault = staged_vault;
        Ok(())
    }
}

} // verus!
