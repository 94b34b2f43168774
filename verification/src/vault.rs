use vstd::prelude::*;

use crate::errors::{AccountId, Balance, Error, Payment};
use crate::ledger::{zero_balances, Ledger};

verus! {

/// How every deposited amount is divided, in parts-per-10000: the viewer, the
/// publisher and the staker named by the impression, and the vault's fixed
/// treasury account.
#[derive(Clone, Copy, Debug, PartialEq, Eq, Structural)]
pub struct Split {
    pub user: u16,
    pub publisher: u16,
    pub staker: u16,
    pub treasury: u16,
}

impl Split {
    pub open spec fn total_weight(self) -> int {
        self.user as int + self.publisher as int + self.staker as int + self.treasury as int
    }

    /// The four weights account for the whole denominator, so a split can
    /// neither create value nor lose more than rounding dust.
    pub open spec fn valid(self) -> bool {
        self.total_weight() == 10000
    }
}

/// The split a vault is constructed with: 50% viewer, 40% publisher,
/// 5% staker, 5% treasury.
pub open spec fn default_split() -> Split {
    Split { user: 5000u16, publisher: 4000u16, staker: 500u16, treasury: 500u16 }
}

/// The portion of `value` owed to a party with weight `weight`, rounded down.
pub open spec fn share(value: Balance, weight: u16) -> int {
    (value as int) * (weight as int) / 10000
}

/// `value` can be multiplied by `weight` in machine arithmetic.
pub open spec fn mul_fits(value: Balance, weight: u16) -> bool {
    (value as int) * (weight as int) <= u128::MAX as int
}

/// Crediting `amount` to `a` stays within the balance type.
pub open spec fn credit_fits(m: Map<AccountId, Balance>, a: AccountId, amount: int) -> bool {
    m[a] + amount <= u128::MAX as int
}

/// The balance table after `amount` is credited to `a`.
pub open spec fn credit_map(m: Map<AccountId, Balance>, a: AccountId, amount: int) -> Map<
    AccountId,
    Balance,
> {
    m.insert(a, (m[a] + amount) as u128)
}

/// Whether a whole four-way deposit of `value` fits in machine arithmetic:
/// each weighting fits, and each credit fits when applied in order (the same
/// account may be named more than once, so the credits accumulate).
pub open spec fn deposit_fits(
    m: Map<AccountId, Balance>,
    split: Split,
    value: Balance,
    user: AccountId,
    publisher: AccountId,
    staker: AccountId,
    treasury: AccountId,
) -> bool {
    let m1 = credit_map(m, user, share(value, split.user));
    let m2 = credit_map(m1, publisher, share(value, split.publisher));
    let m3 = credit_map(m2, staker, share(value, split.staker));
    &&& mul_fits(value, split.user)
    &&& mul_fits(value, split.publisher)
    &&& mul_fits(value, split.staker)
    &&& mul_fits(value, split.treasury)
    &&& credit_fits(m, user, share(value, split.user))
    &&& credit_fits(m1, publisher, share(value, split.publisher))
    &&& credit_fits(m2, staker, share(value, split.staker))
    &&& credit_fits(m3, treasury, share(value, split.treasury))
}

/// The balance table after a four-way deposit of `value`: each party is
/// credited the floor of its weighted portion, in order.
pub open spec fn deposit_map(
    m: Map<AccountId, Balance>,
    split: Split,
    value: Balance,
    user: AccountId,
    publisher: AccountId,
    staker: AccountId,
    treasury: AccountId,
) -> Map<AccountId, Balance> {
    let m1 = credit_map(m, user, share(value, split.user));
    let m2 = credit_map(m1, publisher, share(value, split.publisher));
    let m3 = credit_map(m2, staker, share(value, split.staker));
    credit_map(m3, treasury, share(value, split.treasury))
}

/// Holds per-account claimable balances and divides every deposit four ways
/// by a fixed split. The owner is recorded at construction but no vault
/// operation is restricted to it.
pub struct RewardVault {
    pub owner: AccountId,
    pub split: Split,
    pub treasury: AccountId,
    pub balances: Ledger,
}

impl RewardVault {
    /// The balance table: every account has a balance, zero unless credited.
    pub open spec fn balance_map(&self) -> Map<AccountId, Balance> {
        self.balances@
    }

    pub open spec fn wf(&self) -> bool {
        self.balances.wf() && self.split.valid()
    }

    /// A vault with the default split and no balances.
    pub fn new(caller: AccountId, treasury: AccountId) -> (r: RewardVault)
        ensures
            r.wf(),
            r.owner == caller,
            r.treasury == treasury,
            r.split == default_split(),
            r.balance_map() == zero_balances(),
    {
        RewardVault {
            owner: caller,
            split: Split { user: 5000, publisher: 4000, staker: 500, treasury: 500 },
            treasury,
            balances: Ledger::new(),
        }
    }

    /// A vault with a caller-chosen split; a split whose weights do not sum
    /// to exactly 10000 is rejected.
    pub fn new_with_split(caller: AccountId, treasury: AccountId, split: Split) -> (r: Option<
        RewardVault,
    >)
        ensures
            r is Some <==> split.valid(),
            (r matches Some(v) ==> v.wf() && v.owner == caller && v.treasury == treasury
                && v.split == split && v.balance_map() == zero_balances()),
    {
        let sum: u32 = split.user as u32 + split.publisher as u32 + split.staker as u32
            + split.treasury as u32;
        if sum == 10000 {
            Some(RewardVault { owner: caller, split, treasury, balances: Ledger::new() })
        } else {
            None
        }
    }

    /// The claimable balance held for `a`.
    pub fn balance_of(&self, a: AccountId) -> (r: Balance)
        requires
            self.wf(),
        ensures
            r == self.balance_map()[a],
    {
        self.balances.get(a)
    }

    /// Splits the attached `value` among the three supplied identities and the
    /// configured treasury, crediting each the floor of its weighted portion;
    /// the rounding dust is credited to no one. Fails, changing nothing, only
    /// when a weighting or a credit would exceed the balance type.
    pub fn deposit(
        &mut self,
        value: Balance,
        user: AccountId,
        publisher: AccountId,
        staker: AccountId,
    ) -> (r: Result<(), Error>)
        requires
            old(self).wf(),
        ensures
            final(self).wf(),
            final(self).owner == old(self).owner,
            final(self).split == old(self).split,
            final(self).treasury == old(self).treasury,
            r is Ok <==> deposit_fits(
                old(self).balance_map(),
                old(self).split,
                value,
                user,
                publisher,
                staker,
                old(self).treasury,
            ),
            r is Ok ==> final(self).balance_map() == deposit_map(
                old(self).balance_map(),
                old(self).split,
                value,
                user,
                publisher,
                staker,
                old(self).treasury,
            ),
            r is Err ==> *final(self) == *old(self) && r == Err::<(), Error>(Error::TransferError),
    {
        let su = match value.checked_mul(self.split.user as u128) {
            Some(p) => p / 10000,
            None => {
                return Err(Error::TransferError);
            },
        };
        let sp = match value.checked_mul(self.split.publisher as u128) {
            Some(p) => p / 10000,
            None => {
                return Err(Error::TransferError);
            },
        };
        let ss = match value.checked_mul(self.split.staker as u128) {
            Some(p) => p / 10000,
            None => {
                return Err(Error::TransferError);
            },
        };
        let st = match value.checked_mul(self.split.treasury as u128) {
            Some(p) => p / 10000,
            None => {
                return Err(Error::TransferError);
            },
        };
        let mut staged = self.balances.duplicate();

        let b_user = staged.get(user);
        let b_user_new = match b_user.checked_add(su) {
            Some(x) => x,
            None => {
                return Err(Error::TransferError);
            },
        };
        staged.set(user, b_user_new);

        let b_publisher = staged.get(publisher);
        let b_publisher_new = match b_publisher.checked_add(sp) {
            Some(x) => x,
            None => {
                return Err(Error::TransferError);
            },
        };
        staged.set(publisher, b_publisher_new);

        let b_staker = staged.get(staker);
        let b_staker_new = match b_staker.checked_add(ss) {
            Some(x) => x,
            None => {
                return Err(Error::TransferError);
            },
        };
        staged.set(staker, b_staker_new);

        let b_treasury = staged.get(self.treasury);
        let b_treasury_new = match b_treasury.checked_add(st) {
            Some(x) => x,
            None => {
                return Err(Error::TransferError);
            },
        };
        staged.set(self.treasury, b_treasury_new);

        self.balances = staged;
        Ok(())
    }

    /// Pays the caller its whole claimable balance: the balance is zeroed in
    /// storage before the returned `Payment` leaves the library, so nothing
    /// re-entering during the payout can observe a stale balance. Fails
    /// `NothingToWithdraw`, changing nothing, exactly when the balance is zero.
    pub fn withdraw(&mut self, caller: AccountId) -> (r: Result<Payment, Error>)
        requires
            old(self).wf(),
        ensures
            final(self).wf(),
            final(self).owner == old(self).owner,
            final(self).split == old(self).split,
            final(self).treasury == old(self).treasury,
            old(self).balance_map()[caller] == 0 ==> r == Err::<Payment, Error>(
                Error::NothingToWithdraw,
            ) && *final(self) == *old(self),
            old(self).balance_map()[caller] > 0 ==> r == Ok::<Payment, Error>(
                (Payment { to: caller, amount: old(self).balance_map()[caller] }),
            ) && final(self).balance_map() == old(self).balance_map().insert(caller, 0u128),
    {
        let amount = self.balances.get(caller);
        if amount == 0 {
            return Err(Error::NothingToWithdraw);
        }
        self.balances.set(caller, 0);
        Ok(Payment { to: caller, amount })
    }

    /// An identical copy of the vault.
    pub fn duplicate(&self) -> (r: RewardVault)
        requires
            self.wf(),
        ensures
            r.wf(),
            r.owner == self.owner,
            r.split == self.split,
            r.treasury == self.treasury,
            r.balance_map() == self.balance_map(),
    {
        RewardVault {
            owner: self.owner,
            split: self.split,
            treasury: self.treasury,
            balances: self.balances.duplicate(),
        }
    }
}

/// For every deposited amount and every valid split, the four credited
/// portions together never exceed the deposit, and fall short of it by at
/// most 3 units: each of the four floors loses less than one unit, and the
/// total loss is a whole number of units.
pub proof fn lemma_split_conservation(value: Balance, s: Split)
    requires
        s.valid(),
    ensures
        share(value, s.user) + share(value, s.publisher) + share(value, s.staker) + share(
            value,
            s.treasury,
        ) <= value as int,
        share(value, s.user) + share(value, s.publisher) + share(value, s.staker) + share(
            value,
            s.treasury,
        ) >= value as int - 3,
{
    let v = value as int;
    let wu = s.user as int;
    let wp = s.publisher as int;
    let ws = s.staker as int;
    let wt = s.treasury as int;
    vstd::arithmetic::div_mod::lemma_fundamental_div_mod(v * wu, 10000);
    vstd::arithmetic::div_mod::lemma_fundamental_div_mod(v * wp, 10000);
    vstd::arithmetic::div_mod::lemma_fundamental_div_mod(v * ws, 10000);
    vstd::arithmetic::div_mod::lemma_fundamental_div_mod(v * wt, 10000);
    vstd::arithmetic::div_mod::lemma_mod_bound(v * wu, 10000);
    vstd::arithmetic::div_mod::lemma_mod_bound(v * wp, 10000);
    vstd::arithmetic::div_mod::lemma_mod_bound(v * ws, 10000);
    vstd::arithmetic::div_mod::lemma_mod_bound(v * wt, 10000);
    assert(v * wu + v * wp + v * ws + v * wt == v * (wu + wp + ws + wt)) by (nonlinear_arith);
    let q = v * wu / 10000 + v * wp / 10000 + v * ws / 10000 + v * wt / 10000;
    let rsum = v * wu % 10000 + v * wp % 10000 + v * ws % 10000 + v * wt % 10000;
    assert(10000 * q + rsum == v * 10000);
    assert(10000 * (v - q) == rsum);
    assert(0 <= rsum <= 39996);
}

} // verus!
