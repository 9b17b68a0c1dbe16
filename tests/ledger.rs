use stylus_erc20::address::Address;
use stylus_erc20::amount::Amount;
use stylus_erc20::erc20::{
    Erc20, Erc20Error, Event, InsufficientAllowance, InsufficientBalance, SupplyOverflow,
};
use stylus_erc20::token::StylusToken;

fn addr(n: u128) -> Address {
    Address::new(0, n)
}

fn amt(v: u64) -> Amount {
    Amount::from_u64(v)
}

fn funded(a: Address, v: u64) -> (Erc20, Vec<Event>) {
    let mut l = Erc20::new();
    let mut ev = Vec::new();
    l.mint(a, amt(v), &mut ev).unwrap();
    ev.clear();
    (l, ev)
}

#[test]
fn transfer_scenario() {
    let (a, b) = (addr(1), addr(2));
    let (mut l, mut ev) = funded(a, 100);
    assert_eq!(l.transfer(a, b, amt(30), &mut ev), Ok(true));
    assert_eq!(l.balance_of(a), amt(70));
    assert_eq!(l.balance_of(b), amt(30));
    assert_eq!(l.total_supply(), amt(100));
    assert_eq!(ev, vec![Event::Transfer { from: a, to: b, value: amt(30) }]);
}

#[test]
fn transfer_insufficient_balance_scenario() {
    let (a, b) = (addr(1), addr(2));
    let (mut l, mut ev) = funded(a, 50);
    let r = l.transfer(a, b, amt(51), &mut ev);
    assert_eq!(
        r,
        Err(Erc20Error::InsufficientBalance(InsufficientBalance { from: a, have: amt(50), want: amt(51) }))
    );
    assert_eq!(l.balance_of(a), amt(50));
    assert_eq!(l.balance_of(b), amt(0));
    assert_eq!(l.total_supply(), amt(50));
    assert!(ev.is_empty());
}

#[test]
fn transfer_from_scenario() {
    let (a, b, c) = (addr(1), addr(2), addr(3));
    let (mut l, mut ev) = funded(a, 100);
    assert!(l.approve(a, b, amt(40), &mut ev));
    assert_eq!(l.transfer_from(b, a, c, amt(25), &mut ev), Ok(true));
    assert_eq!(l.allowance(a, b), amt(15));
    assert_eq!(l.balance_of(a), amt(75));
    assert_eq!(l.balance_of(c), amt(25));
    assert_eq!(l.balance_of(b), amt(0));
    assert_eq!(l.total_supply(), amt(100));
    assert_eq!(
        ev,
        vec![
            Event::Approval { owner: a, spender: b, value: amt(40) },
            Event::Transfer { from: a, to: c, value: amt(25) },
        ]
    );
}

#[test]
fn mint_then_burn_scenario() {
    let a = addr(1);
    let mut l = Erc20::new();
    let mut ev = Vec::new();
    assert_eq!(l.mint(a, amt(1000), &mut ev), Ok(()));
    assert_eq!(l.balance_of(a), amt(1000));
    assert_eq!(l.total_supply(), amt(1000));
    assert_eq!(l.burn(a, amt(1000), &mut ev), Ok(()));
    assert_eq!(l.balance_of(a), amt(0));
    assert_eq!(l.total_supply(), amt(0));
    assert_eq!(
        ev,
        vec![
            Event::Transfer { from: Address::zero(), to: a, value: amt(1000) },
            Event::Transfer { from: a, to: Address::zero(), value: amt(1000) },
        ]
    );
}

#[test]
fn supply_stays_sum_of_balances() {
    let (a, b, c) = (addr(1), addr(2), addr(3));
    let mut l = Erc20::new();
    let mut ev = Vec::new();
    l.mint(a, amt(500), &mut ev).unwrap();
    l.mint(b, amt(300), &mut ev).unwrap();
    l.transfer(a, c, amt(120), &mut ev).unwrap();
    l.approve(b, c, amt(100), &mut ev);
    l.transfer_from(c, b, a, amt(60), &mut ev).unwrap();
    l.burn(c, amt(20), &mut ev).unwrap();
    let sum = l.balance_of(a).to_limbs()[0] + l.balance_of(b).to_limbs()[0] + l.balance_of(c).to_limbs()[0];
    assert_eq!(amt(sum), l.total_supply());
    assert_eq!(l.total_supply(), amt(780));
}

#[test]
fn self_transfer_keeps_balance() {
    let a = addr(7);
    let (mut l, mut ev) = funded(a, 40);
    assert_eq!(l.transfer(a, a, amt(40), &mut ev), Ok(true));
    assert_eq!(l.balance_of(a), amt(40));
    assert_eq!(l.total_supply(), amt(40));
    assert_eq!(ev, vec![Event::Transfer { from: a, to: a, value: amt(40) }]);
}

#[test]
fn zero_transfer_succeeds_and_is_recorded() {
    let (a, b) = (addr(1), addr(2));
    let mut l = Erc20::new();
    let mut ev = Vec::new();
    assert_eq!(l.transfer(a, b, amt(0), &mut ev), Ok(true));
    assert_eq!(l.balance_of(a), amt(0));
    assert_eq!(l.balance_of(b), amt(0));
    assert_eq!(ev, vec![Event::Transfer { from: a, to: b, value: amt(0) }]);
}

#[test]
fn approve_overwrites() {
    let (a, b) = (addr(1), addr(2));
    let mut l = Erc20::new();
    let mut ev = Vec::new();
    assert_eq!(l.allowance(a, b), amt(0));
    assert!(l.approve(a, b, amt(40), &mut ev));
    assert!(l.approve(a, b, amt(10), &mut ev));
    assert_eq!(l.allowance(a, b), amt(10));
    assert_eq!(l.allowance(b, a), amt(0));
    assert_eq!(ev.len(), 2);
    assert_eq!(ev[1], Event::Approval { owner: a, spender: b, value: amt(10) });
}

#[test]
fn transfer_from_insufficient_allowance() {
    let (a, b, c) = (addr(1), addr(2), addr(3));
    let (mut l, mut ev) = funded(a, 100);
    l.approve(a, b, amt(20), &mut ev);
    ev.clear();
    let r = l.transfer_from(b, a, c, amt(21), &mut ev);
    assert_eq!(
        r,
        Err(Erc20Error::InsufficientAllowance(InsufficientAllowance {
            owner: a,
            spender: b,
            have: amt(20),
            want: amt(21),
        }))
    );
    assert_eq!(l.allowance(a, b), amt(20));
    assert_eq!(l.balance_of(a), amt(100));
    assert_eq!(l.balance_of(c), amt(0));
    assert!(ev.is_empty());
}

#[test]
fn transfer_from_insufficient_balance_keeps_allowance() {
    let (a, b, c) = (addr(1), addr(2), addr(3));
    let (mut l, mut ev) = funded(a, 10);
    l.approve(a, b, amt(50), &mut ev);
    ev.clear();
    let r = l.transfer_from(b, a, c, amt(30), &mut ev);
    assert_eq!(
        r,
        Err(Erc20Error::InsufficientBalance(InsufficientBalance { from: a, have: amt(10), want: amt(30) }))
    );
    assert_eq!(l.allowance(a, b), amt(50));
    assert_eq!(l.balance_of(a), amt(10));
    assert!(ev.is_empty());
}

#[test]
fn burn_insufficient_balance() {
    let a = addr(1);
    let (mut l, mut ev) = funded(a, 5);
    let r = l.burn(a, amt(6), &mut ev);
    assert_eq!(
        r,
        Err(Erc20Error::InsufficientBalance(InsufficientBalance { from: a, have: amt(5), want: amt(6) }))
    );
    assert_eq!(l.balance_of(a), amt(5));
    assert_eq!(l.total_supply(), amt(5));
    assert!(ev.is_empty());
}

#[test]
fn mint_carries_across_limbs() {
    let a = addr(1);
    let mut l = Erc20::new();
    let mut ev = Vec::new();
    l.mint(a, amt(u64::MAX), &mut ev).unwrap();
    l.mint(a, amt(u64::MAX), &mut ev).unwrap();
    assert_eq!(l.balance_of(a).to_limbs(), [u64::MAX - 1, 1, 0, 0]);
    assert_eq!(l.total_supply().to_limbs(), [u64::MAX - 1, 1, 0, 0]);
    l.burn(a, amt(u64::MAX), &mut ev).unwrap();
    assert_eq!(l.balance_of(a), amt(u64::MAX));
    assert_eq!(l.total_supply(), amt(u64::MAX));
}

#[test]
fn mint_past_max_supply_fails() {
    let (a, b) = (addr(1), addr(2));
    let max = Amount::from_limbs([u64::MAX; 4]);
    let mut l = Erc20::new();
    let mut ev = Vec::new();
    assert_eq!(l.mint(a, max, &mut ev), Ok(()));
    ev.clear();
    let r = l.mint(b, amt(1), &mut ev);
    assert_eq!(r, Err(Erc20Error::SupplyOverflow(SupplyOverflow { to: b, supply: max, want: amt(1) })));
    assert_eq!(l.balance_of(b), amt(0));
    assert_eq!(l.total_supply(), max);
    assert!(ev.is_empty());
}

#[test]
fn metadata_is_set_once_read_back() {
    let mut l = Erc20::new();
    assert_eq!(l.name(), "");
    assert_eq!(l.decimals(), 0);
    l.initialize("Stylus Token".to_string(), "STK".to_string(), 18);
    assert_eq!(l.name(), "Stylus Token");
    assert_eq!(l.symbol(), "STK");
    assert_eq!(l.decimals(), 18);
}

#[test]
fn token_entry_points_act_for_caller() {
    let (a, b) = (addr(1), addr(2));
    let mut t = StylusToken::new();
    let mut ev = Vec::new();
    t.constructor("Token".to_string(), "TOK".to_string(), 6);
    assert_eq!(t.mint(a, amt(100), &mut ev), Ok(()));
    assert_eq!(t.mint_to(b, amt(50), &mut ev), Ok(()));
    assert_eq!(t.burn(a, amt(30), &mut ev), Ok(()));
    assert_eq!(t.erc20.balance_of(a), amt(70));
    assert_eq!(t.erc20.balance_of(b), amt(50));
    assert_eq!(t.erc20.total_supply(), amt(120));
    assert_eq!(t.erc20.symbol(), "TOK");
    assert_eq!(
        t.burn(b, amt(51), &mut ev),
        Err(Erc20Error::InsufficientBalance(InsufficientBalance { from: b, have: amt(50), want: amt(51) }))
    );
}

#[test]
fn addresses_differ_in_high_part() {
    let a = Address::new(1, 5);
    let b = Address::new(2, 5);
    let (mut l, mut ev) = funded(a, 9);
    l.transfer(a, b, amt(4), &mut ev).unwrap();
    assert_eq!(l.balance_of(a), amt(5));
    assert_eq!(l.balance_of(b), amt(4));
    assert_eq!(l.balance_of(Address::new(3, 5)), amt(0));
}
