use ad_escrow::errors::{Error, Payment};
use ad_escrow::logger::ImpressionLogger;
use ad_escrow::registry::CampaignRegistry;
use ad_escrow::vault::RewardVault;

const OWNER: u64 = 1;
const ADVERTISER: u64 = 2;
const USER: u64 = 3;
const PUBLISHER: u64 = 4;
const STAKER: u64 = 5;
const TREASURY: u64 = 6;
const AGGREGATOR: u64 = 7;
const OUTSIDER: u64 = 8;
const VAULT_ADDR: u64 = 100;
const REGISTRY_ADDR: u64 = 101;

fn funded_pair() -> (CampaignRegistry, RewardVault) {
    let mut registry = CampaignRegistry::new(OWNER);
    let vault = RewardVault::new(OWNER, TREASURY);
    let id = registry
        .submit_campaign(ADVERTISER, 1000, 100, 10, VAULT_ADDR)
        .unwrap();
    assert_eq!(id, 0);
    (registry, vault)
}

#[test]
fn submission_escrows_the_whole_attached_value() {
    let mut registry = CampaignRegistry::new(OWNER);
    let id = registry
        .submit_campaign(ADVERTISER, 1000, 100, 10, VAULT_ADDR)
        .unwrap();
    assert_eq!(id, 0);
    let c = registry.get_campaign(0).unwrap();
    assert_eq!(c.advertiser, ADVERTISER);
    assert_eq!(c.reward_vault, VAULT_ADDR);
    assert_eq!(c.payout_per_impression, 100);
    assert_eq!(c.max_impressions, 10);
    assert_eq!(c.deposit_remaining, 1000);
    assert_eq!(c.initial_deposit, 1000);
    assert!(!c.approved);
    assert!(!c.killed);
    assert_eq!(registry.campaign_count(), 1);
}

#[test]
fn underfunded_submission_is_rejected() {
    let mut registry = CampaignRegistry::new(OWNER);
    assert_eq!(
        registry.submit_campaign(ADVERTISER, 999, 100, 10, VAULT_ADDR),
        Err(Error::InsufficientDeposit)
    );
    assert_eq!(registry.campaign_count(), 0);
    // The required minimum exceeds the balance type, so no value can fund it.
    assert_eq!(
        registry.submit_campaign(ADVERTISER, u128::MAX, u128::MAX, 2, VAULT_ADDR),
        Err(Error::InsufficientDeposit)
    );
    // Excess value above the minimum is accepted and locked in full.
    let id = registry
        .submit_campaign(ADVERTISER, 1500, 100, 10, VAULT_ADDR)
        .unwrap();
    assert_eq!(registry.get_campaign(id).unwrap().deposit_remaining, 1500);
}

#[test]
fn ids_are_allocated_strictly_increasing() {
    let mut registry = CampaignRegistry::new(OWNER);
    for expected in 0..4 {
        let id = registry
            .submit_campaign(ADVERTISER, 1000, 100, 10, VAULT_ADDR)
            .unwrap();
        assert_eq!(id, expected);
    }
    assert_eq!(registry.campaign_count(), 4);
}

#[test]
fn approval_is_owner_only_and_idempotent() {
    let (mut registry, _) = funded_pair();
    assert_eq!(registry.approve(OUTSIDER, 0), Err(Error::NotOwner));
    assert!(!registry.get_campaign(0).unwrap().approved);
    assert_eq!(registry.approve(OWNER, 0), Ok(()));
    assert!(registry.get_campaign(0).unwrap().approved);
    assert_eq!(registry.approve(OWNER, 0), Ok(()));
    assert!(registry.get_campaign(0).unwrap().approved);
    assert_eq!(registry.approve(OWNER, 9), Err(Error::CampaignNotFound));
}

#[test]
fn impressions_consume_the_escrow_until_exhausted() {
    let (mut registry, mut vault) = funded_pair();
    assert_eq!(
        registry.record_impression(&mut vault, 0, USER, PUBLISHER, STAKER),
        Err(Error::CampaignNotActive)
    );
    assert_eq!(registry.approve(OWNER, 0), Ok(()));
    for n in 1..=10u128 {
        assert_eq!(
            registry.record_impression(&mut vault, 0, USER, PUBLISHER, STAKER),
            Ok(())
        );
        let c = registry.get_campaign(0).unwrap();
        assert_eq!(c.deposit_remaining, 1000 - 100 * n);
        assert!(c.deposit_remaining <= c.initial_deposit);
    }
    assert_eq!(registry.get_campaign(0).unwrap().deposit_remaining, 0);
    assert_eq!(
        registry.record_impression(&mut vault, 0, USER, PUBLISHER, STAKER),
        Err(Error::CampaignOutOfFunds)
    );
    // Ten payouts of 100 went through the default split.
    assert_eq!(vault.balance_of(USER), 500);
    assert_eq!(vault.balance_of(PUBLISHER), 400);
    assert_eq!(vault.balance_of(STAKER), 50);
    assert_eq!(vault.balance_of(TREASURY), 50);
}

#[test]
fn impression_against_unknown_campaign_fails() {
    let (mut registry, mut vault) = funded_pair();
    assert_eq!(
        registry.record_impression(&mut vault, 7, USER, PUBLISHER, STAKER),
        Err(Error::CampaignNotFound)
    );
}

#[test]
fn kill_refunds_the_remaining_escrow_and_is_terminal() {
    let (mut registry, mut vault) = funded_pair();
    assert_eq!(registry.approve(OWNER, 0), Ok(()));
    assert_eq!(
        registry.record_impression(&mut vault, 0, USER, PUBLISHER, STAKER),
        Ok(())
    );
    assert_eq!(registry.kill(OUTSIDER, 0), Err(Error::NotOwner));
    assert_eq!(registry.kill(OWNER, 9), Err(Error::CampaignNotFound));
    let refund = registry.kill(OWNER, 0).unwrap();
    assert_eq!(refund, Some(Payment { to: ADVERTISER, amount: 900 }));
    let c = registry.get_campaign(0).unwrap();
    assert!(c.killed);
    assert_eq!(c.deposit_remaining, 0);
    assert_eq!(
        registry.record_impression(&mut vault, 0, USER, PUBLISHER, STAKER),
        Err(Error::CampaignNotActive)
    );
    // Killing again changes nothing and owes no further refund.
    assert_eq!(registry.kill(OWNER, 0), Ok(None));
}

#[test]
fn batch_is_aggregator_only() {
    let (mut registry, mut vault) = funded_pair();
    assert_eq!(registry.approve(OWNER, 0), Ok(()));
    let logger = ImpressionLogger::new(AGGREGATOR, REGISTRY_ADDR);
    let records = vec![(0, USER, PUBLISHER, STAKER)];
    assert_eq!(
        logger.batch_record(OUTSIDER, &mut registry, &mut vault, &records),
        Err(Error::NotAuthorized)
    );
    assert_eq!(registry.get_campaign(0).unwrap().deposit_remaining, 1000);
    assert_eq!(
        logger.batch_record(AGGREGATOR, &mut registry, &mut vault, &records),
        Ok(())
    );
    assert_eq!(registry.get_campaign(0).unwrap().deposit_remaining, 900);
}

#[test]
fn failing_batch_rolls_back_every_earlier_record() {
    let (mut registry, mut vault) = funded_pair();
    assert_eq!(registry.approve(OWNER, 0), Ok(()));
    let logger = ImpressionLogger::new(AGGREGATOR, REGISTRY_ADDR);
    // Three valid records, then one naming an unknown campaign.
    let records = vec![
        (0, USER, PUBLISHER, STAKER),
        (0, USER, PUBLISHER, STAKER),
        (0, USER, PUBLISHER, STAKER),
        (42, USER, PUBLISHER, STAKER),
    ];
    assert_eq!(
        logger.batch_record(AGGREGATOR, &mut registry, &mut vault, &records),
        Err(Error::CampaignNotFound)
    );
    // Zero net change across every touched campaign and balance.
    let c = registry.get_campaign(0).unwrap();
    assert_eq!(c.deposit_remaining, 1000);
    assert_eq!(vault.balance_of(USER), 0);
    assert_eq!(vault.balance_of(PUBLISHER), 0);
    assert_eq!(vault.balance_of(STAKER), 0);
    assert_eq!(vault.balance_of(TREASURY), 0);
}

#[test]
fn successful_batch_applies_every_record_in_order() {
    let (mut registry, mut vault) = funded_pair();
    assert_eq!(registry.approve(OWNER, 0), Ok(()));
    let logger = ImpressionLogger::new(AGGREGATOR, REGISTRY_ADDR);
    assert_eq!(logger.owner, AGGREGATOR);
    assert_eq!(logger.registry, REGISTRY_ADDR);
    let records = vec![
        (0, USER, PUBLISHER, STAKER),
        (0, USER, PUBLISHER, STAKER),
        (0, USER, PUBLISHER, STAKER),
    ];
    assert_eq!(
        logger.batch_record(AGGREGATOR, &mut registry, &mut vault, &records),
        Ok(())
    );
    assert_eq!(registry.get_campaign(0).unwrap().deposit_remaining, 700);
    assert_eq!(vault.balance_of(USER), 150);
    assert_eq!(vault.balance_of(PUBLISHER), 120);
    assert_eq!(vault.balance_of(STAKER), 15);
    assert_eq!(vault.balance_of(TREASURY), 15);
}

#[test]
fn killed_campaign_blocks_batched_impressions_too() {
    let (mut registry, mut vault) = funded_pair();
    assert_eq!(registry.approve(OWNER, 0), Ok(()));
    assert!(registry.kill(OWNER, 0).is_ok());
    let logger = ImpressionLogger::new(AGGREGATOR, REGISTRY_ADDR);
    let records = vec![(0, USER, PUBLISHER, STAKER)];
    assert_eq!(
        logger.batch_record(AGGREGATOR, &mut registry, &mut vault, &records),
        Err(Error::CampaignNotActive)
    );
    assert_eq!(vault.balance_of(USER), 0);
}

#[test]
fn zero_payout_campaign_records_without_spending() {
    let mut registry = CampaignRegistry::new(OWNER);
    let mut vault = RewardVault::new(OWNER, TREASURY);
    let id = registry.submit_campaign(ADVERTISER, 0, 0, 5, VAULT_ADDR).unwrap();
    assert_eq!(registry.approve(OWNER, id), Ok(()));
    assert_eq!(
        registry.record_impression(&mut vault, id, USER, PUBLISHER, STAKER),
        Ok(())
    );
    assert_eq!(registry.get_campaign(id).unwrap().deposit_remaining, 0);
    assert_eq!(vault.balance_of(USER), 0);
}

#[test]
fn kill_of_pending_campaign_refunds_everything() {
    let (mut registry, _) = funded_pair();
    let refund = registry.kill(OWNER, 0).unwrap();
    assert_eq!(refund, Some(Payment { to: ADVERTISER, amount: 1000 }));
    let c = registry.get_campaign(0).unwrap();
    assert!(c.killed);
    assert!(!c.approved);
    assert_eq!(c.deposit_remaining, 0);
}

#[test]
fn empty_batch_succeeds_and_changes_nothing() {
    let (mut registry, mut vault) = funded_pair();
    let logger = ImpressionLogger::new(AGGREGATOR, REGISTRY_ADDR);
    let records: Vec<(u64, u64, u64, u64)> = Vec::new();
    assert_eq!(
        logger.batch_record(AGGREGATOR, &mut registry, &mut vault, &records),
        Ok(())
    );
    assert_eq!(registry.get_campaign(0).unwrap().deposit_remaining, 1000);
}
