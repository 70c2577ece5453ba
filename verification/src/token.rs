//! The fungible-credit ledger: total supply, per-account balances,
//! pending-reward accrual and spending allowances.
//!
//! Conservation is the module's central invariant: at every committed state
//! the recorded total supply equals the sum of all account balances
//! ([`Pallet::conserves`]). Pending rewards are not yet part of the supply;
//! claiming them mints the claimed amount into circulation, so every
//! mutating operation preserves the invariant.

use vstd::prelude::*;

use crate::base::Origin;
use crate::base::appended;
use crate::kv::KvMap;

verus! {

/// Ledger parameters.
#[derive(Clone, Copy, PartialEq, Eq, Structural, Debug)]
pub struct Config {
    /// Credits minted per whole kilowatt-hour of verified energy.
    pub mint_rate_per_kwh: u128,
}

/// Ledger failures.
#[derive(Clone, Copy, PartialEq, Eq, Structural, Debug)]
pub enum Error {
    /// The operation needs a different kind of caller.
    BadOrigin,
    InsufficientBalance,
    InsufficientAllowance,
    Overflow,
    NotAuthorized,
    /// The caller has no pending reward accrual to claim.
    NothingToClaim,
}

/// Ledger events; each successful operation appends exactly one.
#[derive(Clone, Copy, PartialEq, Eq, Structural, Debug)]
pub enum Event {
    TokensMinted { to: u64, amount: u128 },
    TokensBurned { from: u64, amount: u128 },
    Transfer { from: u64, to: u64, amount: u128 },
    RewardsClaimed { account: u64, amount: u128 },
    Approval { owner: u64, spender: u64, amount: u128 },
}

/// The sum of all stored balance values.
pub open spec fn sum_vals(s: Seq<(u64, u128)>) -> int
    decreases s.len(),
{
    if s.len() == 0 {
        0
    } else {
        sum_vals(s.drop_last()) + s.last().1
    }
}

pub proof fn lemma_sum_nonneg(s: Seq<(u64, u128)>)
    ensures
        sum_vals(s) >= 0,
    decreases s.len(),
{
    if s.len() > 0 {
        lemma_sum_nonneg(s.drop_last());
    }
}

pub proof fn lemma_sum_push(s: Seq<(u64, u128)>, p: (u64, u128))
    ensures
        sum_vals(s.push(p)) == sum_vals(s) + p.1,
{
    assert(s.push(p).drop_last() =~= s);
    assert(s.push(p).last() == p);
}

pub proof fn lemma_sum_update(s: Seq<(u64, u128)>, i: int, p: (u64, u128))
    requires
        0 <= i < s.len(),
    ensures
        sum_vals(s.update(i, p)) == sum_vals(s) - s[i].1 + p.1,
    decreases s.len(),
{
    let t = s.update(i, p);
    if i == s.len() - 1 {
        assert(t.drop_last() =~= s.drop_last());
        assert(t.last() == p);
    } else {
        assert(t.drop_last() =~= s.drop_last().update(i, p));
        assert(t.last() == s.last());
        lemma_sum_update(s.drop_last(), i, p);
    }
}

pub proof fn lemma_elem_le_sum(s: Seq<(u64, u128)>, i: int)
    requires
        0 <= i < s.len(),
    ensures
        s[i].1 <= sum_vals(s),
    decreases s.len(),
{
    if i == s.len() - 1 {
        lemma_sum_nonneg(s.drop_last());
    } else {
        lemma_elem_le_sum(s.drop_last(), i);
        assert(s.drop_last()[i] == s[i]);
        lemma_sum_nonneg(Seq::<(u64, u128)>::empty());
        assert(s.last().1 >= 0);
    }
}

/// How a balance map's sum changes when one account's balance is set.
proof fn lemma_set_bal_sum(pre: KvMap<u64, u128>, post: KvMap<u64, u128>, a: u64, v: u128)
    requires
        pre.wf(),
        (if pre.has(a) {
            post.seq() == pre.seq().update(pre.index_of(a), (a, v))
        } else {
            post.seq() == pre.seq().push((a, v))
        }),
    ensures
        sum_vals(post.seq()) == sum_vals(pre.seq()) - (match pre.val_of(a) {
            Some(x) => x as int,
            None => 0,
        }) + v,
{
    if pre.has(a) {
        pre.lemma_index(a);
        lemma_sum_update(pre.seq(), pre.index_of(a), (a, v));
    } else {
        lemma_sum_push(pre.seq(), (a, v));
    }
}

/// The reward for an energy reading: whole kilowatt-hours times the mint
/// rate, saturating at the largest representable amount.
pub open spec fn reward_amount(energy_wh: u64, mint_rate_per_kwh: u128) -> int {
    let raw = (energy_wh as int / 1000) * mint_rate_per_kwh as int;
    if raw <= u128::MAX {
        raw
    } else {
        u128::MAX as int
    }
}

/// The token ledger state.
pub struct Pallet {
    pub config: Config,
    pub total_supply: u128,
    pub balances: KvMap<u64, u128>,
    pub pending_rewards: KvMap<u64, u128>,
    pub allowances: KvMap<(u64, u64), u128>,
    pub events: Vec<Event>,
}

impl Pallet {
    /// The spendable balance of `a` (zero when absent).
    pub open spec fn bal(self, a: u64) -> u128 {
        match self.balances.val_of(a) {
            Some(v) => v,
            None => 0,
        }
    }

    /// The unclaimed pending reward of `a` (zero when absent).
    pub open spec fn pending(self, a: u64) -> u128 {
        match self.pending_rewards.val_of(a) {
            Some(v) => v,
            None => 0,
        }
    }

    /// The allowance `owner` has granted `spender` (zero when absent).
    pub open spec fn allowance(self, owner: u64, spender: u64) -> u128 {
        match self.allowances.val_of((owner, spender)) {
            Some(v) => v,
            None => 0,
        }
    }

    /// Token conservation: the total supply equals the sum of all balances.
    pub open spec fn conserves(self) -> bool {
        self.total_supply as int == sum_vals(self.balances.seq())
    }

    pub open spec fn wf(self) -> bool {
        &&& self.balances.wf()
        &&& self.pending_rewards.wf()
        &&& self.allowances.wf()
        &&& self.conserves()
    }

    /// An empty ledger.
    pub fn new(config: Config) -> (r: Pallet)
        ensures
            r.wf(),
            r.config == config,
            r.total_supply == 0,
            forall|a: u64| r.bal(a) == 0 && r.pending(a) == 0,
            forall|o: u64, s: u64| r.allowance(o, s) == 0,
            r.events@ == Seq::<Event>::empty(),
    {
        let r = Pallet {
            config,
            total_supply: 0,
            balances: KvMap::new(),
            pending_rewards: KvMap::new(),
            allowances: KvMap::new(),
            events: Vec::new(),
        };
        proof {
            assert(r.events@ =~= Seq::<Event>::empty());
        }
        r
    }

    /// Conservation bounds every single balance by the total supply.
    pub proof fn lemma_bal_le_supply(self, a: u64)
        requires
            self.wf(),
        ensures
            self.bal(a) <= self.total_supply,
    {
        if self.balances.has(a) {
            self.balances.lemma_index(a);
            lemma_elem_le_sum(self.balances.seq(), self.balances.index_of(a));
        } else {
            lemma_sum_nonneg(self.balances.seq());
        }
    }

    pub fn balance_of(&self, a: u64) -> (r: u128)
        requires
            self.wf(),
        ensures
            r == self.bal(a),
    {
        match self.balances.get(&a) {
            Some(v) => *v,
            None => 0,
        }
    }

    pub fn pending_of(&self, a: u64) -> (r: u128)
        requires
            self.wf(),
        ensures
            r == self.pending(a),
    {
        match self.pending_rewards.get(&a) {
            Some(v) => *v,
            None => 0,
        }
    }

    pub fn allowance_of(&self, owner: u64, spender: u64) -> (r: u128)
        requires
            self.wf(),
        ensures
            r == self.allowance(owner, spender),
    {
        match self.allowances.get(&(owner, spender)) {
            Some(v) => *v,
            None => 0,
        }
    }

    /// Privileged issuance: credits `to` and grows the total supply.
    pub fn mint(&mut self, origin: Origin, to: u64, amount: u128) -> (r: Result<(), Error>)
        requires
            old(self).wf(),
        ensures
            final(self).wf(),
            (match r {
                Ok(_) => {
                    &&& origin == Origin::Root
                    &&& old(self).bal(to) + amount <= u128::MAX
                    &&& old(self).total_supply + amount <= u128::MAX
                    &&& final(self).bal(to) == old(self).bal(to) + amount
                    &&& final(self).total_supply == old(self).total_supply + amount
                    &&& forall|a: u64|
                        a != to ==> #[trigger] final(self).bal(a) == old(self).bal(a)
                    &&& final(self).pending_rewards == old(self).pending_rewards
                    &&& final(self).allowances == old(self).allowances
                    &&& final(self).config == old(self).config
                    &&& appended(old(self).events@, final(self).events@)
                    &&& (final(self).events@.last() matches Event::TokensMinted {
                        to: t,
                        amount: m,
                    } && t == to && m == amount)
                },
                Err(e) => {
                    &&& *final(self) == *old(self)
                    &&& (if origin != Origin::Root {
                        e == Error::BadOrigin
                    } else {
                        e == Error::Overflow && (old(self).bal(to) + amount > u128::MAX
                            || old(self).total_supply + amount > u128::MAX)
                    })
                },
            }),
    {
        match origin {
            Origin::Root => {}
            Origin::Signed(_) => {
                return Err(Error::BadOrigin);
            }
        }
        let b = self.balance_of(to);
        let b2 = match b.checked_add(amount) {
            Some(x) => x,
            None => {
                return Err(Error::Overflow);
            }
        };
        let s2 = match self.total_supply.checked_add(amount) {
            Some(x) => x,
            None => {
                return Err(Error::Overflow);
            }
        };
        self.balances.set(to, b2);
        proof {
            lemma_set_bal_sum(old(self).balances, self.balances, to, b2);
        }
        self.total_supply = s2;
        self.events.push(Event::TokensMinted { to, amount });
        Ok(())
    }

    /// Moves `amount` from the caller to `to`; both sides commit together.
    pub fn transfer(&mut self, origin: Origin, to: u64, amount: u128) -> (r: Result<(), Error>)
        requires
            old(self).wf(),
        ensures
            final(self).wf(),
            (match r {
                Ok(_) => origin matches Origin::Signed(from) && {
                    &&& old(self).bal(from) >= amount
                    &&& (if from == to {
                        final(self).balances == old(self).balances
                    } else {
                        &&& old(self).bal(to) + amount <= u128::MAX
                        &&& final(self).bal(from) == old(self).bal(from) - amount
                        &&& final(self).bal(to) == old(self).bal(to) + amount
                        &&& forall|a: u64|
                            a != from && a != to ==> #[trigger] final(self).bal(a) == old(
                                self,
                            ).bal(a)
                    })
                    &&& final(self).total_supply == old(self).total_supply
                    &&& final(self).pending_rewards == old(self).pending_rewards
                    &&& final(self).allowances == old(self).allowances
                    &&& final(self).config == old(self).config
                    &&& appended(old(self).events@, final(self).events@)
                    &&& (final(self).events@.last() matches Event::Transfer {
                        from: f,
                        to: t,
                        amount: m,
                    } && f == from && t == to && m == amount)
                },
                Err(e) => {
                    &&& *final(self) == *old(self)
                    &&& (match origin {
                        Origin::Root => e == Error::BadOrigin,
                        Origin::Signed(from) => {
                            if old(self).bal(from) < amount {
                                e == Error::InsufficientBalance
                            } else {
                                &&& e == Error::Overflow
                                &&& from != to
                                &&& old(self).bal(to) + amount > u128::MAX
                            }
                        },
                    })
                },
            }),
    {
        let from = match origin {
            Origin::Signed(w) => w,
            Origin::Root => {
                return Err(Error::BadOrigin);
            }
        };
        let bf = self.balance_of(from);
        if bf < amount {
            return Err(Error::InsufficientBalance);
        }
        if from == to {
            self.events.push(Event::Transfer { from, to, amount });
            return Ok(());
        }
        let bt = self.balance_of(to);
        let bt2 = match bt.checked_add(amount) {
            Some(x) => x,
            None => {
                return Err(Error::Overflow);
            }
        };
        self.balances.set(from, bf - amount);
        let ghost mid = *self;
        proof {
            lemma_set_bal_sum(old(self).balances, mid.balances, from, (bf - amount) as u128);
        }
        self.balances.set(to, bt2);
        proof {
            lemma_set_bal_sum(mid.balances, self.balances, to, bt2);
        }
        self.events.push(Event::Transfer { from, to, amount });
        Ok(())
    }

    /// Destroys `amount` of the caller's balance and of the total supply.
    pub fn burn(&mut self, origin: Origin, amount: u128) -> (r: Result<(), Error>)
        requires
            old(self).wf(),
        ensures
            final(self).wf(),
            (match r {
                Ok(_) => origin matches Origin::Signed(from) && {
                    &&& old(self).bal(from) >= amount
                    &&& final(self).bal(from) == old(self).bal(from) - amount
                    &&& final(self).total_supply == old(self).total_supply - amount
                    &&& forall|a: u64|
                        a != from ==> #[trigger] final(self).bal(a) == old(self).bal(a)
                    &&& final(self).pending_rewards == old(self).pending_rewards
                    &&& final(self).allowances == old(self).allowances
                    &&& final(self).config == old(self).config
                    &&& appended(old(self).events@, final(self).events@)
                    &&& (final(self).events@.last() matches Event::TokensBurned {
                        from: f,
                        amount: m,
                    } && f == from && m == amount)
                },
                Err(e) => {
                    &&& *final(self) == *old(self)
                    &&& (match origin {
                        Origin::Root => e == Error::BadOrigin,
                        Origin::Signed(from) => e == Error::InsufficientBalance && old(self).bal(
                            from,
                        ) < amount,
                    })
                },
            }),
    {
        let from = match origin {
            Origin::Signed(w) => w,
            Origin::Root => {
                return Err(Error::BadOrigin);
            }
        };
        let bf = self.balance_of(from);
        let bf2 = match bf.checked_sub(amount) {
            Some(x) => x,
            None => {
                return Err(Error::InsufficientBalance);
            }
        };
        proof {
            self.lemma_bal_le_supply(from);
        }
        let s2 = self.total_supply - amount;
        self.balances.set(from, bf2);
        proof {
            lemma_set_bal_sum(old(self).balances, self.balances, from, bf2);
        }
        self.total_supply = s2;
        self.events.push(Event::TokensBurned { from, amount });
        Ok(())
    }

    /// Atomically moves the caller's whole pending accrual into spendable
    /// balance. The claimed amount enters circulation here, so the total
    /// supply grows by it and conservation is preserved.
    pub fn claim_rewards(&mut self, origin: Origin) -> (r: Result<(), Error>)
        requires
            old(self).wf(),
        ensures
            final(self).wf(),
            (match r {
                Ok(_) => origin matches Origin::Signed(who) && {
                    &&& old(self).pending(who) > 0
                    &&& old(self).bal(who) + old(self).pending(who) <= u128::MAX
                    &&& old(self).total_supply + old(self).pending(who) <= u128::MAX
                    &&& final(self).pending(who) == 0
                    &&& final(self).bal(who) == old(self).bal(who) + old(self).pending(who)
                    &&& final(self).total_supply == old(self).total_supply + old(self).pending(
                        who,
                    )
                    &&& forall|a: u64|
                        a != who ==> #[trigger] final(self).bal(a) == old(self).bal(a)
                    &&& forall|a: u64|
                        a != who ==> #[trigger] final(self).pending(a) == old(self).pending(a)
                    &&& final(self).allowances == old(self).allowances
                    &&& final(self).config == old(self).config
                    &&& appended(old(self).events@, final(self).events@)
                    &&& (final(self).events@.last() matches Event::RewardsClaimed {
                        account,
                        amount,
                    } && account == who && amount == old(self).pending(who))
                },
                Err(e) => {
                    &&& *final(self) == *old(self)
                    &&& (match origin {
                        Origin::Root => e == Error::BadOrigin,
                        Origin::Signed(who) => {
                            if old(self).pending(who) == 0 {
                                e == Error::NothingToClaim
                            } else {
                                &&& e == Error::Overflow
                                &&& (old(self).bal(who) + old(self).pending(who) > u128::MAX
                                    || old(self).total_supply + old(self).pending(who)
                                    > u128::MAX)
                            }
                        },
                    })
                },
            }),
    {
        let who = match origin {
            Origin::Signed(w) => w,
            Origin::Root => {
                return Err(Error::BadOrigin);
            }
        };
        let rew = self.pending_of(who);
        if rew == 0 {
            return Err(Error::NothingToClaim);
        }
        let b = self.balance_of(who);
        let b2 = match b.checked_add(rew) {
            Some(x) => x,
            None => {
                return Err(Error::Overflow);
            }
        };
        let s2 = match self.total_supply.checked_add(rew) {
            Some(x) => x,
            None => {
                return Err(Error::Overflow);
            }
        };
        self.pending_rewards.set(who, 0);
        self.balances.set(who, b2);
        proof {
            lemma_set_bal_sum(old(self).balances, self.balances, who, b2);
        }
        self.total_supply = s2;
        self.events.push(Event::RewardsClaimed { account: who, amount: rew });
        Ok(())
    }

    /// Sets (overwrites) the allowance of `spender` on the caller's funds.
    pub fn approve(&mut self, origin: Origin, spender: u64, amount: u128) -> (r: Result<
        (),
        Error,
    >)
        requires
            old(self).wf(),
        ensures
            final(self).wf(),
            (match r {
                Ok(_) => origin matches Origin::Signed(owner) && {
                    &&& final(self).allowance(owner, spender) == amount
                    &&& forall|p: (u64, u64)|
                        p != (owner, spender) ==> #[trigger] final(self).allowances.val_of(p)
                            == old(self).allowances.val_of(p)
                    &&& final(self).balances == old(self).balances
                    &&& final(self).pending_rewards == old(self).pending_rewards
                    &&& final(self).total_supply == old(self).total_supply
                    &&& final(self).config == old(self).config
                    &&& appended(old(self).events@, final(self).events@)
                    &&& (final(self).events@.last() matches Event::Approval {
                        owner: o,
                        spender: s,
                        amount: m,
                    } && o == owner && s == spender && m == amount)
                },
                Err(e) => *final(self) == *old(self) && e == Error::BadOrigin && origin
                    == Origin::Root,
            }),
    {
        let owner = match origin {
            Origin::Signed(w) => w,
            Origin::Root => {
                return Err(Error::BadOrigin);
            }
        };
        self.allowances.set((owner, spender), amount);
        self.events.push(Event::Approval { owner, spender, amount });
        Ok(())
    }

    /// The reward owed for a verified energy reading: whole kilowatt-hours
    /// times the configured mint rate (fractional kilowatt-hours earn
    /// nothing), saturating at the largest representable amount.
    pub fn calculate_reward(&self, energy_wh: u64) -> (r: u128)
        ensures
            r as int == reward_amount(energy_wh, self.config.mint_rate_per_kwh),
    {
        let kwh: u64 = energy_wh / 1000;
        let rate = self.config.mint_rate_per_kwh;
        match (kwh as u128).checked_mul(rate) {
            Some(x) => x,
            None => u128::MAX,
        }
    }

    /// Credits a reward accrual (saturating), leaving supply and balances
    /// untouched; the amount joins the supply only when claimed.
    pub fn add_pending_reward(&mut self, account: u64, amount: u128)
        requires
            old(self).wf(),
        ensures
            final(self).wf(),
            final(self).pending(account) == (if old(self).pending(account) + amount <= u128::MAX {
                old(self).pending(account) + amount
            } else {
                u128::MAX as int
            }),
            forall|a: u64| a != account ==> #[trigger] final(self).pending(a) == old(self).pending(a),
            final(self).balances == old(self).balances,
            final(self).allowances == old(self).allowances,
            final(self).total_supply == old(self).total_supply,
            final(self).events == old(self).events,
            final(self).config == old(self).config,
    {
        let p = self.pending_of(account);
        let p2 = p.saturating_add(amount);
        self.pending_rewards.set(account, p2);
    }

    /// End-of-batch hook invoked by the external driver once all operations
    /// of a block have been processed; reserved for batched reward
    /// distribution and currently a no-op.
    pub fn on_finalize(&mut self, _now: u64)
        ensures
            *final(self) == *old(self),
    {
    }
}

} // verus!
