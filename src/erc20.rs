//! The token ledger: per-account balances, per-owner/per-spender allowances,
//! a total supply that always equals the sum of all balances, and the
//! token's metadata. Every operation either succeeds whole or fails leaving
//! the ledger and the event log as they were.
use crate::address::Address;
use crate::amount::{Amount, amount_bound, checked_add, checked_sub, lemma_amount_bounded};
use crate::table::{
    amount_at, keys_unique, lemma_amount_at_absent, lemma_amount_at_index,
    lemma_one_within_total, lemma_push, lemma_two_within_total, lemma_update, total_of,
};
use vstd::prelude::*;

verus! {

/// The key of an allowance: `spender` may move `owner`'s tokens.
#[derive(Clone, Copy, Debug, PartialEq, Eq, Structural)]
pub struct AllowanceKey {
    pub owner: Address,
    pub spender: Address,
}

/// A debit of `want` from `from`, which holds only `have`.
#[derive(Clone, Copy, Debug, PartialEq, Eq, Structural)]
pub struct InsufficientBalance {
    pub from: Address,
    pub have: Amount,
    pub want: Amount,
}

/// A delegated transfer of `want` by `spender`, whom `owner` allowed only `have`.
#[derive(Clone, Copy, Debug, PartialEq, Eq, Structural)]
pub struct InsufficientAllowance {
    pub owner: Address,
    pub spender: Address,
    pub have: Amount,
    pub want: Amount,
}

/// A mint of `want` to `to` that would carry the supply, now `supply`, past 2^256 - 1.
#[derive(Clone, Copy, Debug, PartialEq, Eq, Structural)]
pub struct SupplyOverflow {
    pub to: Address,
    pub supply: Amount,
    pub want: Amount,
}

/// The ways the ledger's operations may fail.
#[derive(Clone, Copy, Debug, PartialEq, Eq, Structural)]
pub enum Erc20Error {
    InsufficientBalance(InsufficientBalance),
    InsufficientAllowance(InsufficientAllowance),
    SupplyOverflow(SupplyOverflow),
}

/// A notification recorded by a successful operation.
#[derive(Clone, Copy, Debug, PartialEq, Eq, Structural)]
pub enum Event {
    Transfer { from: Address, to: Address, value: Amount },
    Approval { owner: Address, spender: Address, value: Amount },
}

/// The ledger. Accounts and allowances without an entry hold 0.
pub struct Erc20 {
    balances: Vec<(Address, Amount)>,
    allowances: Vec<(AllowanceKey, Amount)>,
    total_supply: Amount,
    name: String,
    symbol: String,
    decimals: u8,
}

impl Erc20 {
    /// The balance of account `a`.
    pub closed spec fn balance(self, a: Address) -> nat {
        amount_at(self.balances@, a)
    }

    /// The amount that `spender` may still move out of `owner`'s balance.
    pub closed spec fn allowance_of(self, owner: Address, spender: Address) -> nat {
        amount_at(self.allowances@, AllowanceKey { owner, spender })
    }

    /// The recorded total supply.
    pub closed spec fn supply(self) -> nat {
        self.total_supply@
    }

    /// The sum of the balances of all accounts.
    pub closed spec fn balance_sum(self) -> nat {
        total_of(self.balances@)
    }

    /// The token's name.
    pub closed spec fn name_spec(self) -> Seq<char> {
        self.name@
    }

    /// The token's symbol.
    pub closed spec fn symbol_spec(self) -> Seq<char> {
        self.symbol@
    }

    /// The token's number of decimals.
    pub closed spec fn decimals_spec(self) -> u8 {
        self.decimals
    }

    /// The ledger's invariant: one entry per account and per allowance key,
    /// and the supply equals the sum of the balances.
    pub closed spec fn wf(self) -> bool {
        &&& keys_unique(self.balances@)
        &&& keys_unique(self.allowances@)
        &&& self.total_supply@ == total_of(self.balances@)
    }

    /// What the balance of `a` becomes when `v` is debited from `from` and
    /// then credited to `to`.
    pub open spec fn balance_after_move(self, from: Address, to: Address, v: nat, a: Address) -> int {
        if a == from && a == to {
            self.balance(a) as int
        } else if a == from {
            self.balance(a) - v
        } else if a == to {
            self.balance(a) + v as int
        } else {
            self.balance(a) as int
        }
    }

    /// Every balance of `self` is that of `before` after moving `v` from `from` to `to`.
    pub open spec fn balances_moved(self, before: Self, from: Address, to: Address, v: nat) -> bool {
        forall|a: Address| #![trigger self.balance(a)]
            self.balance(a) == before.balance_after_move(from, to, v, a)
    }

    /// `self` and `other` agree on every balance.
    pub open spec fn same_balances(self, other: Self) -> bool {
        forall|a: Address| #![trigger self.balance(a)] self.balance(a) == other.balance(a)
    }

    /// `self` and `other` agree on every allowance.
    pub open spec fn same_allowances(self, other: Self) -> bool {
        forall|o: Address, s: Address| #![trigger self.allowance_of(o, s)]
            self.allowance_of(o, s) == other.allowance_of(o, s)
    }

    /// The allowances of `before`, with `owner`'s allowance to `spender` set to `v`.
    pub open spec fn allowance_set(self, before: Self, owner: Address, spender: Address, v: nat) -> bool {
        forall|o: Address, s: Address| #![trigger self.allowance_of(o, s)]
            self.allowance_of(o, s) == if o == owner && s == spender {
                v
            } else {
                before.allowance_of(o, s)
            }
    }

    /// `self` and `other` have the same name, symbol and decimals.
    pub open spec fn same_metadata(self, other: Self) -> bool {
        &&& self.name_spec() == other.name_spec()
        &&& self.symbol_spec() == other.symbol_spec()
        &&& self.decimals_spec() == other.decimals_spec()
    }

    /// `after` is `before` once `v` has moved from `from` to `to`.
    pub open spec fn transfer_done(before: Self, after: Self, from: Address, to: Address, v: nat) -> bool {
        &&& before.balance(from) >= v
        &&& after.balances_moved(before, from, to, v)
        &&& after.supply() == before.supply()
        &&& after.same_allowances(before)
        &&& after.same_metadata(before)
    }

    /// `after` is `before` once `spender` has moved `v` from `from` to `to`
    /// under `from`'s allowance.
    pub open spec fn transfer_from_done(
        before: Self,
        after: Self,
        spender: Address,
        from: Address,
        to: Address,
        v: nat,
    ) -> bool {
        &&& before.allowance_of(from, spender) >= v
        &&& before.balance(from) >= v
        &&& after.balances_moved(before, from, to, v)
        &&& after.supply() == before.supply()
        &&& after.allowance_set(before, from, spender, (before.allowance_of(from, spender) - v) as nat)
        &&& after.same_metadata(before)
    }

    /// `after` is `before` once `owner` has allowed `spender` exactly `v`.
    pub open spec fn approve_done(before: Self, after: Self, owner: Address, spender: Address, v: nat) -> bool {
        &&& after.same_balances(before)
        &&& after.supply() == before.supply()
        &&& after.allowance_set(before, owner, spender, v)
        &&& after.same_metadata(before)
    }

    /// `after` is `before` once `v` has been created in account `to`.
    pub open spec fn mint_done(before: Self, after: Self, to: Address, v: nat) -> bool {
        &&& forall|a: Address| #![trigger after.balance(a)]
            after.balance(a) == if a == to {
                before.balance(a) + v as int
            } else {
                before.balance(a) as int
            }
        &&& after.supply() == before.supply() + v
        &&& after.same_allowances(before)
        &&& after.same_metadata(before)
    }

    /// `after` is `before` once `v` has been destroyed from account `from`.
    pub open spec fn burn_done(before: Self, after: Self, from: Address, v: nat) -> bool {
        &&& before.balance(from) >= v
        &&& forall|a: Address| #![trigger after.balance(a)]
            after.balance(a) == if a == from {
                before.balance(a) - v
            } else {
                before.balance(a) as int
            }
        &&& after.supply() == before.supply() - v
        &&& after.same_allowances(before)
        &&& after.same_metadata(before)
    }

    /// An empty ledger: no balances, no allowances, supply 0, empty metadata.
    pub fn new() -> (r: Erc20)
        ensures
            r.wf(),
            forall|a: Address| #![trigger r.balance(a)] r.balance(a) == 0,
            forall|o: Address, s: Address| #![trigger r.allowance_of(o, s)] r.allowance_of(o, s) == 0,
            r.supply() == 0,
            r.name_spec().len() == 0,
            r.symbol_spec().len() == 0,
            r.decimals_spec() == 0,
    {
        let r = Erc20 {
            balances: Vec::new(),
            allowances: Vec::new(),
            total_supply: Amount::zero(),
            name: String::new(),
            symbol: String::new(),
            decimals: 0,
        };
        assert forall|a: Address| #![trigger r.balance(a)] r.balance(a) == 0 by {
            lemma_amount_at_absent(r.balances@, a);
        }
        assert forall|o: Address, s: Address| #![trigger r.allowance_of(o, s)]
            r.allowance_of(o, s) == 0 by {
            lemma_amount_at_absent(r.allowances@, AllowanceKey { owner: o, spender: s });
        }
        r
    }

    /// Sets the token's name, symbol and decimals; the accounts are untouched.
    pub fn initialize(&mut self, name: String, symbol: String, decimals: u8)
        requires
            old(self).wf(),
        ensures
            final(self).wf(),
            final(self).same_balances(*old(self)),
            final(self).same_allowances(*old(self)),
            final(self).supply() == old(self).supply(),
            final(self).name_spec() == name@,
            final(self).symbol_spec() == symbol@,
            final(self).decimals_spec() == decimals,
    {
        self.name = name;
        self.symbol = symbol;
        self.decimals = decimals;
    }

    fn find_balance(&self, a: Address) -> (r: Option<usize>)
        ensures
            match r {
                Some(i) => i < self.balances@.len() && self.balances@[i as int].0 == a,
                None => forall|i: int| 0 <= i < self.balances@.len() ==> self.balances@[i].0 != a,
            },
    {
        let mut i: usize = 0;
        while i < self.balances.len()
            invariant
                i <= self.balances@.len(),
                forall|j: int| 0 <= j < i ==> self.balances@[j].0 != a,
            decreases self.balances@.len() - i,
        {
            if self.balances[i].0 == a {
                return Some(i);
            }
            i = i + 1;
        }
        None
    }

    fn find_allowance(&self, k: AllowanceKey) -> (r: Option<usize>)
        ensures
            match r {
                Some(i) => i < self.allowances@.len() && self.allowances@[i as int].0 == k,
                None => forall|i: int|
                    0 <= i < self.allowances@.len() ==> self.allowances@[i].0 != k,
            },
    {
        let mut i: usize = 0;
        while i < self.allowances.len()
            invariant
                i <= self.allowances@.len(),
                forall|j: int| 0 <= j < i ==> self.allowances@[j].0 != k,
            decreases self.allowances@.len() - i,
        {
            if self.allowances[i].0 == k {
                return Some(i);
            }
            i = i + 1;
        }
        None
    }

    fn read_balance(&self, a: Address) -> (r: Amount)
        requires
            keys_unique(self.balances@),
        ensures
            r@ == self.balance(a),
    {
        match self.find_balance(a) {
            Some(i) => {
                proof {
                    lemma_amount_at_index(self.balances@, i as int);
                }
                self.balances[i].1
            },
            None => {
                proof {
                    lemma_amount_at_absent(self.balances@, a);
                }
                Amount::zero()
            },
        }
    }

    fn write_balance(&mut self, a: Address, v: Amount)
        requires
            keys_unique(old(self).balances@),
        ensures
            keys_unique(final(self).balances@),
            forall|b: Address| #![trigger final(self).balance(b)]
                final(self).balance(b) == if b == a {
                    v@
                } else {
                    old(self).balance(b)
                },
            final(self).balance_sum() == old(self).balance_sum() - old(self).balance(a) + v@,
            final(self).allowances == old(self).allowances,
            final(self).total_supply == old(self).total_supply,
            final(self).name == old(self).name,
            final(self).symbol == old(self).symbol,
            final(self).decimals == old(self).decimals,
    {
        match self.find_balance(a) {
            Some(i) => {
                proof {
                    lemma_amount_at_index(self.balances@, i as int);
                    lemma_update(self.balances@, i as int, v);
                }
                self.balances.set(i, (a, v));
            },
            None => {
                proof {
                    lemma_amount_at_absent(self.balances@, a);
                    lemma_push(self.balances@, a, v);
                }
                self.balances.push((a, v));
            },
        }
    }

    fn read_allowance(&self, owner: Address, spender: Address) -> (r: Amount)
        requires
            keys_unique(self.allowances@),
        ensures
            r@ == self.allowance_of(owner, spender),
    {
        let k = AllowanceKey { owner, spender };
        match self.find_allowance(k) {
            Some(i) => {
                proof {
                    lemma_amount_at_index(self.allowances@, i as int);
                }
                self.allowances[i].1
            },
            None => {
                proof {
                    lemma_amount_at_absent(self.allowances@, k);
                }
                Amount::zero()
            },
        }
    }

    fn write_allowance(&mut self, owner: Address, spender: Address, v: Amount)
        requires
            keys_unique(old(self).allowances@),
        ensures
            keys_unique(final(self).allowances@),
            final(self).allowance_set(*old(self), owner, spender, v@),
            final(self).balances == old(self).balances,
            final(self).total_supply == old(self).total_supply,
            final(self).name == old(self).name,
            final(self).symbol == old(self).symbol,
            final(self).decimals == old(self).decimals,
    {
        let k = AllowanceKey { owner, spender };
        match self.find_allowance(k) {
            Some(i) => {
                proof {
                    lemma_update(self.allowances@, i as int, v);
                }
                self.allowances.set(i, (k, v));
            },
            None => {
                proof {
                    lemma_push(self.allowances@, k, v);
                }
                self.allowances.push((k, v));
            },
        }
        assert forall|o: Address, s: Address| #![trigger self.allowance_of(o, s)]
            self.allowance_of(o, s) == if o == owner && s == spender {
                v@
            } else {
                old(self).allowance_of(o, s)
            } by {
            assert(AllowanceKey { owner: o, spender: s } == k <==> (o == owner && s == spender));
        }
    }

    /// Moves `value` from `from` to `to` and records the transfer; fails,
    /// changing nothing, when `from` holds less than `value`.
    fn move_balance(&mut self, from: Address, to: Address, value: Amount, events: &mut Vec<Event>) -> (r: Result<(), Erc20Error>)
        requires
            old(self).wf(),
        ensures
            final(self).wf(),
            r is Ok <==> old(self).balance(from) >= value@,
            match r {
                Ok(_) => {
                    &&& Erc20::transfer_done(*old(self), *final(self), from, to, value@)
                    &&& final(self).allowances == old(self).allowances
                    &&& final(events)@ == old(events)@.push(Event::Transfer { from, to, value })
                },
                Err(e) => {
                    &&& *final(self) == *old(self)
                    &&& final(events)@ == old(events)@
                    &&& e == Erc20Error::InsufficientBalance(
                        InsufficientBalance { from, have: e->InsufficientBalance_0.have, want: value },
                    )
                    &&& e->InsufficientBalance_0.have@ == old(self).balance(from)
                },
            },
    {
        let have = self.read_balance(from);
        let left = match checked_sub(have, value) {
            Some(left) => left,
            None => {
                return Err(Erc20Error::InsufficientBalance(InsufficientBalance { from, have, want: value }));
            },
        };
        proof {
            lemma_amount_bounded(self.total_supply);
            lemma_one_within_total(self.balances@, from);
            if from != to {
                lemma_two_within_total(self.balances@, from, to);
            }
        }
        self.write_balance(from, left);
        let to_have = self.read_balance(to);
        let credited = match checked_add(to_have, value) {
            Some(c) => c,
            None => {
                // unreachable: every balance is within the supply, which fits in 256 bits
                proof {
                    assert(false);
                }
                return Err(Erc20Error::InsufficientBalance(InsufficientBalance { from, have, want: value }));
            },
        };
        self.write_balance(to, credited);
        events.push(Event::Transfer { from, to, value });
        Ok(())
    }

    /// Moves `value` from `caller` to `to`. Fails with `InsufficientBalance`,
    /// changing nothing, when `caller` holds less than `value`.
    pub fn transfer(&mut self, caller: Address, to: Address, value: Amount, events: &mut Vec<Event>) -> (r: Result<bool, Erc20Error>)
        requires
            old(self).wf(),
        ensures
            final(self).wf(),
            r is Ok <==> old(self).balance(caller) >= value@,
            match r {
                Ok(b) => {
                    &&& b
                    &&& Erc20::transfer_done(*old(self), *final(self), caller, to, value@)
                    &&& final(events)@ == old(events)@.push(Event::Transfer { from: caller, to, value })
                },
                Err(e) => {
                    &&& *final(self) == *old(self)
                    &&& final(events)@ == old(events)@
                    &&& e == Erc20Error::InsufficientBalance(
                        InsufficientBalance { from: caller, have: e->InsufficientBalance_0.have, want: value },
                    )
                    &&& e->InsufficientBalance_0.have@ == old(self).balance(caller)
                },
            },
    {
        match self.move_balance(caller, to, value, events) {
            Ok(_) => Ok(true),
            Err(e) => Err(e),
        }
    }

    /// `caller` moves `value` from `from` to `to` under `from`'s allowance to
    /// `caller`, which goes down by `value`. Fails, changing nothing, with
    /// `InsufficientAllowance` when that allowance is below `value`, else with
    /// `InsufficientBalance` when `from` holds less than `value`.
    pub fn transfer_from(
        &mut self,
        caller: Address,
        from: Address,
        to: Address,
        value: Amount,
        events: &mut Vec<Event>,
    ) -> (r: Result<bool, Erc20Error>)
        requires
            old(self).wf(),
        ensures
            final(self).wf(),
            r is Ok <==> (old(self).allowance_of(from, caller) >= value@ && old(self).balance(from) >= value@),
            match r {
                Ok(b) => {
                    &&& b
                    &&& Erc20::transfer_from_done(*old(self), *final(self), caller, from, to, value@)
                    &&& final(events)@ == old(events)@.push(Event::Transfer { from, to, value })
                },
                Err(e) => {
                    &&& *final(self) == *old(self)
                    &&& final(events)@ == old(events)@
                    &&& if old(self).allowance_of(from, caller) < value@ {
                        &&& e == Erc20Error::InsufficientAllowance(
                            InsufficientAllowance {
                                owner: from,
                                spender: caller,
                                have: e->InsufficientAllowance_0.have,
                                want: value,
                            },
                        )
                        &&& e->InsufficientAllowance_0.have@ == old(self).allowance_of(from, caller)
                    } else {
                        &&& e == Erc20Error::InsufficientBalance(
                            InsufficientBalance { from, have: e->InsufficientBalance_0.have, want: value },
                        )
                        &&& e->InsufficientBalance_0.have@ == old(self).balance(from)
                    }
                },
            },
    {
        let allowed = self.read_allowance(from, caller);
        let remaining = match checked_sub(allowed, value) {
            Some(rem) => rem,
            None => {
                return Err(Erc20Error::InsufficientAllowance(
                    InsufficientAllowance { owner: from, spender: caller, have: allowed, want: value },
                ));
            },
        };
        let have = self.read_balance(from);
        if checked_sub(have, value).is_none() {
            return Err(Erc20Error::InsufficientBalance(InsufficientBalance { from, have, want: value }));
        }
        self.write_allowance(from, caller, remaining);
        match self.move_balance(from, to, value, events) {
            Ok(_) => Ok(true),
            Err(e) => Err(e),
        }
    }

    /// Sets `caller`'s allowance to `spender` to exactly `value`, replacing
    /// any earlier one, and records the approval. Always succeeds.
    pub fn approve(&mut self, caller: Address, spender: Address, value: Amount, events: &mut Vec<Event>) -> (r: bool)
        requires
            old(self).wf(),
        ensures
            final(self).wf(),
            r,
            Erc20::approve_done(*old(self), *final(self), caller, spender, value@),
            final(events)@ == old(events)@.push(Event::Approval { owner: caller, spender, value }),
    {
        self.write_allowance(caller, spender, value);
        events.push(Event::Approval { owner: caller, spender, value });
        true
    }

    /// Creates `value` in account `to`, raising the supply by as much, and
    /// records a transfer from the zero address. Fails with `SupplyOverflow`,
    /// changing nothing, when the supply would pass 2^256 - 1.
    pub fn mint(&mut self, to: Address, value: Amount, events: &mut Vec<Event>) -> (r: Result<(), Erc20Error>)
        requires
            old(self).wf(),
        ensures
            final(self).wf(),
            r is Ok <==> old(self).supply() + value@ < amount_bound(),
            match r {
                Ok(_) => {
                    &&& Erc20::mint_done(*old(self), *final(self), to, value@)
                    &&& final(events)@ == old(events)@.push(
                        Event::Transfer { from: Address::zero_spec(), to, value },
                    )
                },
                Err(e) => {
                    &&& *final(self) == *old(self)
                    &&& final(events)@ == old(events)@
                    &&& e == Erc20Error::SupplyOverflow(
                        SupplyOverflow { to, supply: e->SupplyOverflow_0.supply, want: value },
                    )
                    &&& e->SupplyOverflow_0.supply@ == old(self).supply()
                },
            },
    {
        let supply = self.total_supply;
        let new_supply = match checked_add(supply, value) {
            Some(s) => s,
            None => {
                return Err(Erc20Error::SupplyOverflow(SupplyOverflow { to, supply, want: value }));
            },
        };
        let have = self.read_balance(to);
        proof {
            lemma_one_within_total(self.balances@, to);
        }
        let credited = match checked_add(have, value) {
            Some(c) => c,
            None => {
                // unreachable: every balance is within the supply, which fits in 256 bits
                proof {
                    assert(false);
                }
                return Err(Erc20Error::SupplyOverflow(SupplyOverflow { to, supply, want: value }));
            },
        };
        self.total_supply = new_supply;
        self.write_balance(to, credited);
        events.push(Event::Transfer { from: Address::zero(), to, value });
        Ok(())
    }

    /// Destroys `value` from account `from`, lowering the supply by as much,
    /// and records a transfer to the zero address. Fails with
    /// `InsufficientBalance`, changing nothing, when `from` holds less than `value`.
    pub fn burn(&mut self, from: Address, value: Amount, events: &mut Vec<Event>) -> (r: Result<(), Erc20Error>)
        requires
            old(self).wf(),
        ensures
            final(self).wf(),
            r is Ok <==> old(self).balance(from) >= value@,
            match r {
                Ok(_) => {
                    &&& Erc20::burn_done(*old(self), *final(self), from, value@)
                    &&& final(events)@ == old(events)@.push(
                        Event::Transfer { from, to: Address::zero_spec(), value },
                    )
                },
                Err(e) => {
                    &&& *final(self) == *old(self)
                    &&& final(events)@ == old(events)@
                    &&& e == Erc20Error::InsufficientBalance(
                        InsufficientBalance { from, have: e->InsufficientBalance_0.have, want: value },
                    )
                    &&& e->InsufficientBalance_0.have@ == old(self).balance(from)
                },
            },
    {
        let have = self.read_balance(from);
        let left = match checked_sub(have, value) {
            Some(l) => l,
            None => {
                return Err(Erc20Error::InsufficientBalance(InsufficientBalance { from, have, want: value }));
            },
        };
        proof {
            lemma_one_within_total(self.balances@, from);
        }
        let new_supply = match checked_sub(self.total_supply, value) {
            Some(s) => s,
            None => {
                // unreachable: every balance is within the supply, which fits in 256 bits
                proof {
                    assert(false);
                }
                return Err(Erc20Error::InsufficientBalance(InsufficientBalance { from, have, want: value }));
            },
        };
        self.total_supply = new_supply;
        self.write_balance(from, left);
        events.push(Event::Transfer { from, to: Address::zero(), value });
        Ok(())
    }

    /// The token's name.
    pub fn name(&self) -> (r: String)
        ensures
            r@ == self.name_spec(),
    {
        self.name.clone()
    }

    /// The token's symbol.
    pub fn symbol(&self) -> (r: String)
        ensures
            r@ == self.symbol_spec(),
    {
        self.symbol.clone()
    }

    /// The number of decimals the token is displayed with.
    pub fn decimals(&self) -> (r: u8)
        ensures
            r == self.decimals_spec(),
    {
        self.decimals
    }

    /// The total supply.
    pub fn total_supply(&self) -> (r: Amount)
        ensures
            r@ == self.supply(),
    {
        self.total_supply
    }

    /// The balance of `owner`.
    pub fn balance_of(&self, owner: Address) -> (r: Amount)
        requires
            self.wf(),
        ensures
            r@ == self.balance(owner),
    {
        self.read_balance(owner)
    }

    /// The amount that `spender` may still move out of `owner`'s balance.
    pub fn allowance(&self, owner: Address, spender: Address) -> (r: Amount)
        requires
            self.wf(),
        ensures
            r@ == self.allowance_of(owner, spender),
    {
        self.read_allowance(owner, spender)
    }
}

/// In every well-formed ledger, and so in every state the operations reach
/// from `Erc20::new`, the total supply equals the sum of all balances.
pub proof fn lemma_supply_is_sum_of_balances(l: Erc20)
    requires
        l.wf(),
    ensures
        l.supply() == l.balance_sum(),
{
}

/// A transfer between two distinct accounts debits the sender by exactly the
/// value, credits the receiver by exactly the value, leaves every other
/// balance alone, and changes neither the supply nor the sum of balances.
pub proof fn lemma_transfer_conserves(before: Erc20, after: Erc20, from: Address, to: Address, v: nat)
    requires
        before.wf(),
        after.wf(),
        Erc20::transfer_done(before, after, from, to, v),
        from != to,
    ensures
        after.balance(from) == before.balance(from) - v,
        after.balance(to) == before.balance(to) + v,
        forall|a: Address| a != from && a != to ==> #[trigger] after.balance(a) == before.balance(a),
        after.supply() == before.supply(),
        after.balance_sum() == before.balance_sum(),
{
    assert(after.balance(from) == before.balance_after_move(from, to, v, from));
    assert(after.balance(to) == before.balance_after_move(from, to, v, to));
}

/// A transfer from an account to itself leaves every balance as it was.
pub proof fn lemma_self_transfer_keeps_balances(before: Erc20, after: Erc20, caller: Address, v: nat)
    requires
        Erc20::transfer_done(before, after, caller, caller, v),
    ensures
        after.same_balances(before),
        after.balance(caller) == before.balance(caller),
{
    assert(after.balance(caller) == before.balance_after_move(caller, caller, v, caller));
}

/// After an approval the allowance is the approved value, whatever it was
/// before: approvals replace, they do not add up.
pub proof fn lemma_approve_overwrites(before: Erc20, after: Erc20, owner: Address, spender: Address, v: nat)
    requires
        Erc20::approve_done(before, after, owner, spender, v),
    ensures
        after.allowance_of(owner, spender) == v,
{
}

/// A delegated transfer lowers the spender's allowance by exactly the value
/// and has on the balances the same effect as a plain transfer of that
/// value from the owner to the receiver.
pub proof fn lemma_transfer_from_accounting(
    before: Erc20,
    after: Erc20,
    spender: Address,
    from: Address,
    to: Address,
    v: nat,
)
    requires
        Erc20::transfer_from_done(before, after, spender, from, to, v),
    ensures
        after.allowance_of(from, spender) == before.allowance_of(from, spender) - v,
        forall|t: Erc20| #[trigger] Erc20::transfer_done(before, t, from, to, v) ==> t.same_balances(after),
{
    assert(after.allowance_of(from, spender) == before.allowance_of(from, spender) - v);
    assert forall|t: Erc20| #[trigger] Erc20::transfer_done(before, t, from, to, v) implies t.same_balances(after) by {
        assert forall|a: Address| #![trigger t.balance(a)] t.balance(a) == after.balance(a) by {
            assert(t.balance(a) == before.balance_after_move(from, to, v, a));
            assert(after.balance(a) == before.balance_after_move(from, to, v, a));
        }
    }
}

} // verus!
