//! The deployable token: the ledger together with the entry points that act
//! on behalf of the calling account.
use crate::address::Address;
use crate::amount::{Amount, amount_bound};
use crate::erc20::{Erc20, Erc20Error, Event, InsufficientBalance, SupplyOverflow};
use vstd::prelude::*;

verus! {

/// A token whose holders mint to themselves or to others and burn their own
/// tokens; all accounting is the embedded ledger's.
pub struct StylusToken {
    pub erc20: Erc20,
}

impl StylusToken {
    /// A token with an empty ledger.
    pub fn new() -> (r: StylusToken)
        ensures
            r.erc20.wf(),
            forall|a: Address| #![trigger r.erc20.balance(a)] r.erc20.balance(a) == 0,
            r.erc20.supply() == 0,
    {
        StylusToken { erc20: Erc20::new() }
    }

    /// Sets the token's name, symbol and decimals.
    pub fn constructor(&mut self, name: String, symbol: String, decimals: u8)
        requires
            old(self).erc20.wf(),
        ensures
            final(self).erc20.wf(),
            final(self).erc20.same_balances(old(self).erc20),
            final(self).erc20.same_allowances(old(self).erc20),
            final(self).erc20.supply() == old(self).erc20.supply(),
            final(self).erc20.name_spec() == name@,
            final(self).erc20.symbol_spec() == symbol@,
            final(self).erc20.decimals_spec() == decimals,
    {
        self.erc20.initialize(name, symbol, decimals);
    }

    /// Mints `value` to the calling account `caller`.
    pub fn mint(&mut self, caller: Address, value: Amount, events: &mut Vec<Event>) -> (r: Result<(), Erc20Error>)
        requires
            old(self).erc20.wf(),
        ensures
            final(self).erc20.wf(),
            r is Ok <==> old(self).erc20.supply() + value@ < amount_bound(),
            match r {
                Ok(_) => {
                    &&& Erc20::mint_done(old(self).erc20, final(self).erc20, caller, value@)
                    &&& final(events)@ == old(events)@.push(
                        Event::Transfer { from: Address::zero_spec(), to: caller, value },
                    )
                },
                Err(e) => {
                    &&& *final(self) == *old(self)
                    &&& final(events)@ == old(events)@
                    &&& e == Erc20Error::SupplyOverflow(
                        SupplyOverflow { to: caller, supply: e->SupplyOverflow_0.supply, want: value },
                    )
                    &&& e->SupplyOverflow_0.supply@ == old(self).erc20.supply()
                },
            },
    {
        self.erc20.mint(caller, value, events)
    }

    /// Mints `value` to account `to`.
    pub fn mint_to(&mut self, to: Address, value: Amount, events: &mut Vec<Event>) -> (r: Result<(), Erc20Error>)
        requires
            old(self).erc20.wf(),
        ensures
            final(self).erc20.wf(),
            r is Ok <==> old(self).erc20.supply() + value@ < amount_bound(),
            match r {
                Ok(_) => {
                    &&& Erc20::mint_done(old(self).erc20, final(self).erc20, to, value@)
                    &&& final(events)@ == old(events)@.push(
                        Event::Transfer { from: Address::zero_spec(), to, value },
                    )
                },
                Err(e) => {
                    &&& *final(self) == *old(self)
                    &&& final(events)@ == old(events)@
                    &&& e == Erc20Error::SupplyOverflow(
                        SupplyOverflow { to, supply: e->SupplyOverflow_0.supply, want: value },
                    )
                    &&& e->SupplyOverflow_0.supply@ == old(self).erc20.supply()
                },
            },
    {
        self.erc20.mint(to, value, events)
    }

    /// Burns `value` from the calling account `caller`.
    pub fn burn(&mut self, caller: Address, value: Amount, events: &mut Vec<Event>) -> (r: Result<(), Erc20Error>)
        requires
            old(self).erc20.wf(),
        ensures
            final(self).erc20.wf(),
            r is Ok <==> old(self).erc20.balance(caller) >= value@,
            match r {
                Ok(_) => {
                    &&& Erc20::burn_done(old(self).erc20, final(self).erc20, caller, value@)
                    &&& final(events)@ == old(events)@.push(
                        Event::Transfer { from: caller, to: Address::zero_spec(), value },
                    )
                },
                Err(e) => {
                    &&& *final(self) == *old(self)
                    &&& final(events)@ == old(events)@
                    &&& e == Erc20Error::InsufficientBalance(
                        InsufficientBalance { from: caller, have: e->InsufficientBalance_0.have, want: value },
                    )
                    &&& e->InsufficientBalance_0.have@ == old(self).erc20.balance(caller)
                },
            },
    {
        self.erc20.burn(caller, value, events)
    }
}

} // verus!
