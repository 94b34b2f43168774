use vstd::prelude::*;

use crate::errors::{AccountId, Balance};

verus! {

/// The balance table as specifications see it: a total map in which every
/// account has a balance, zero unless it was ever credited. An account whose
/// stored entry is zero and an account with no entry are indistinguishable,
/// which matches the observable behaviour of the ledger.
pub open spec fn zero_balances() -> Map<AccountId, Balance> {
    Map::total(|a: AccountId| 0u128)
}

/// The map described by a sequence of (account, amount) entries, later entries
/// overriding earlier ones; accounts without an entry hold zero.
pub open spec fn map_of(s: Seq<(AccountId, Balance)>) -> Map<AccountId, Balance>
    decreases s.len(),
{
    if s.len() == 0 {
        zero_balances()
    } else {
        map_of(s.drop_last()).insert(s.last().0, s.last().1)
    }
}

/// No account appears twice among the entries.
pub open spec fn distinct_accounts(s: Seq<(AccountId, Balance)>) -> bool {
    forall|i: int, j: int| 0 <= i < j < s.len() ==> s[i].0 != s[j].0
}

/// Per-account claimable balances: entries are created lazily at the first
/// credit and never removed; a missing entry means a zero balance.
pub struct Ledger {
    entries: Vec<(AccountId, Balance)>,
}

impl View for Ledger {
    type V = Map<AccountId, Balance>;

    closed spec fn view(&self) -> Map<AccountId, Balance> {
        map_of(self.entries@)
    }
}

proof fn lemma_map_of_absent(s: Seq<(AccountId, Balance)>, a: AccountId)
    requires
        forall|i: int| 0 <= i < s.len() ==> (#[trigger] s[i]).0 != a,
    ensures
        map_of(s)[a] == 0u128,
    decreases s.len(),
{
    if s.len() > 0 {
        lemma_map_of_absent(s.drop_last(), a);
    }
}

proof fn lemma_map_of_found(s: Seq<(AccountId, Balance)>, i: int)
    requires
        distinct_accounts(s),
        0 <= i < s.len(),
    ensures
        map_of(s)[s[i].0] == s[i].1,
    decreases s.len(),
{
    if i == s.len() - 1 {
    } else {
        lemma_map_of_found(s.drop_last(), i);
    }
}

proof fn lemma_map_of_update(s: Seq<(AccountId, Balance)>, i: int, v: Balance)
    requires
        distinct_accounts(s),
        0 <= i < s.len(),
    ensures
        map_of(s.update(i, (s[i].0, v))) =~= map_of(s).insert(s[i].0, v),
    decreases s.len(),
{
    let t = s.update(i, (s[i].0, v));
    if i == s.len() - 1 {
        assert(t.drop_last() =~= s.drop_last());
    } else {
        lemma_map_of_update(s.drop_last(), i, v);
        assert(t.drop_last() =~= s.drop_last().update(i, (s[i].0, v)));
        assert(s[i].0 != s.last().0);
    }
}

impl Ledger {
    /// The entries name pairwise distinct accounts.
    pub closed spec fn wf(&self) -> bool {
        distinct_accounts(self.entries@)
    }

    /// An empty ledger: every balance is zero.
    pub fn new() -> (r: Ledger)
        ensures
            r.wf(),
            r@ == zero_balances(),
    {
        Ledger { entries: Vec::new() }
    }

    /// The balance held for `a`; zero when `a` was never credited.
    pub fn get(&self, a: AccountId) -> (r: Balance)
        requires
            self.wf(),
        ensures
            r == self@[a],
    {
        let n = self.entries.len();
        let mut i: usize = 0;
        while i < n
            invariant
                n == self.entries.len(),
                i <= n,
                self.wf(),
                forall|j: int| 0 <= j < i ==> (#[trigger] self.entries@[j]).0 != a,
            decreases n - i,
        {
            if self.entries[i].0 == a {
                proof {
                    lemma_map_of_found(self.entries@, i as int);
                }
                return self.entries[i].1;
            }
            i += 1;
        }
        proof {
            lemma_map_of_absent(self.entries@, a);
        }
        0
    }

    /// Sets the balance held for `a` to `v`, creating the entry if needed.
    pub fn set(&mut self, a: AccountId, v: Balance)
        requires
            old(self).wf(),
        ensures
            final(self).wf(),
            final(self)@ == old(self)@.insert(a, v),
    {
        let n = self.entries.len();
        let mut i: usize = 0;
        while i < n
            invariant
                n == self.entries.len(),
                i <= n,
                self.wf(),
                self == old(self),
                forall|j: int| 0 <= j < i ==> (#[trigger] self.entries@[j]).0 != a,
            decreases n - i,
        {
            if self.entries[i].0 == a {
                proof {
                    lemma_map_of_update(self.entries@, i as int, v);
                }
                self.entries[i] = (a, v);
                return;
            }
            i += 1;
        }
        proof {
            let s = self.entries@;
            assert(s.push((a, v)).drop_last() =~= s);
        }
        self.entries.push((a, v));
    }

    /// An identical copy of the ledger.
    pub fn duplicate(&self) -> (r: Ledger)
        requires
            self.wf(),
        ensures
            r.wf(),
            r@ == self@,
    {
        let n = self.entries.len();
        let mut out: Vec<(AccountId, Balance)> = Vec::new();
        let mut i: usize = 0;
        while i < n
            invariant
                n == self.entries.len(),
                i <= n,
                out@ == self.entries@.subrange(0, i as int),
            decreases n - i,
        {
            let e = self.entries[i];
            out.push(e);
            i += 1;
        }
        proof {
            assert(out@ =~= self.entries@);
        }
        Ledger { entries: out }
    }
}

} // verus!
