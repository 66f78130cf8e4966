//! A token ledger: balances per account, minting and transfers, as the
//! vault contracts expect of the deposit and reward tokens they hold.
//! Accounts are identified by a `u64` that the caller assigns to each
//! address.

use std::collections::HashMap;
use vstd::prelude::*;

verus! {

broadcast use vstd::std_specs::hash::group_hash_axioms;

/// The balance that `balances` gives `id`: its entry, or zero where it
/// has none.
pub open spec fn balance_of(balances: Map<u64, i128>, id: u64) -> i128 {
    if balances.contains_key(id) {
        balances[id]
    } else {
        0
    }
}

/// The balances after minting `amount` to `to`.
pub open spec fn minted(balances: Map<u64, i128>, to: u64, amount: i128) -> Map<u64, i128> {
    balances.insert(to, (balance_of(balances, to) + amount) as i128)
}

/// Whether minting `amount` to `to` keeps its balance in range.
pub open spec fn can_mint(balances: Map<u64, i128>, to: u64, amount: i128) -> bool {
    i128::MIN <= balance_of(balances, to) + amount <= i128::MAX
}

/// The balances after moving `amount` from `from` to `to`: both balances
/// are read first, then `from` is debited and `to` credited from the
/// balance read before the debit.
pub open spec fn transferred(balances: Map<u64, i128>, from: u64, to: u64, amount: i128) -> Map<
    u64,
    i128,
> {
    balances.insert(from, (balance_of(balances, from) - amount) as i128).insert(
        to,
        (balance_of(balances, to) + amount) as i128,
    )
}

/// Whether a transfer of `amount` from `from` to `to` is accepted: the
/// sender holds at least `amount`, and both new balances are in range.
pub open spec fn can_transfer(balances: Map<u64, i128>, from: u64, to: u64, amount: i128) -> bool {
    &&& balance_of(balances, from) >= amount
    &&& i128::MIN <= balance_of(balances, from) - amount <= i128::MAX
    &&& i128::MIN <= balance_of(balances, to) + amount <= i128::MAX
}

/// A token contract's ledger of balances.
pub struct MockToken {
    balances: HashMap<u64, i128>,
}

impl View for MockToken {
    type V = Map<u64, i128>;

    closed spec fn view(&self) -> Map<u64, i128> {
        self.balances@
    }
}

impl MockToken {
    /// A ledger in which every account holds nothing.
    pub fn new() -> (t: MockToken)
        ensures
            t@ == Map::<u64, i128>::empty(),
    {
        MockToken { balances: HashMap::new() }
    }

    /// The balance of `id`; zero for an account that never held tokens.
    pub fn balance(&self, id: u64) -> (b: i128)
        ensures
            b == balance_of(self@, id),
            self@.contains_key(id) ==> b == self@[id],
            !self@.contains_key(id) ==> b == 0,
    {
        match self.balances.get(&id) {
            Some(b) => *b,
            None => 0,
        }
    }

    /// Creates `amount` tokens in the account `to`.
    pub fn mint(&mut self, to: u64, amount: i128)
        requires
            can_mint(old(self)@, to, amount),
        ensures
            final(self)@ == minted(old(self)@, to, amount),
            balance_of(final(self)@, to) == balance_of(old(self)@, to) + amount,
            forall|k: u64| k != to ==> balance_of(final(self)@, k) == balance_of(old(self)@, k),
    {
        let current = self.balance(to);
        let next = current + amount;
        self.balances.insert(to, next);
    }

    /// Moves `amount` tokens from `from` to `to`.
    pub fn transfer(&mut self, from: u64, to: u64, amount: i128)
        requires
            can_transfer(old(self)@, from, to, amount),
        ensures
            final(self)@ == transferred(old(self)@, from, to, amount),
            from != to ==> balance_of(final(self)@, from) == balance_of(old(self)@, from) - amount,
            balance_of(final(self)@, to) == balance_of(old(self)@, to) + amount,
            forall|k: u64|
                k != from && k != to ==> balance_of(final(self)@, k) == balance_of(old(self)@, k),
    {
        let from_balance = self.balance(from);
        let to_balance = self.balance(to);
        self.balances.insert(from, from_balance - amount);
        self.balances.insert(to, to_balance + amount);
    }
}

/// Minting credits exactly `amount` to `to` and leaves every other
/// account as it was.
pub proof fn lemma_mint_credits_only_recipient(
    balances: Map<u64, i128>,
    to: u64,
    amount: i128,
    other: u64,
)
    requires
        can_mint(balances, to, amount),
    ensures
        balance_of(minted(balances, to, amount), to) == balance_of(balances, to) + amount,
        other != to ==> balance_of(minted(balances, to, amount), other) == balance_of(
            balances,
            other,
        ),
{
}

/// A transfer between two distinct accounts debits the sender and
/// credits the recipient by `amount`, keeps their combined balance, and
/// leaves every other account as it was.
pub proof fn lemma_transfer_conserves_balances(
    balances: Map<u64, i128>,
    from: u64,
    to: u64,
    amount: i128,
    other: u64,
)
    requires
        can_transfer(balances, from, to, amount),
        from != to,
    ensures
        balance_of(balances, from) >= amount,
        balance_of(transferred(balances, from, to, amount), from) == balance_of(balances, from)
            - amount,
        balance_of(transferred(balances, from, to, amount), to) == balance_of(balances, to)
            + amount,
        balance_of(transferred(balances, from, to, amount), from) + balance_of(
            transferred(balances, from, to, amount),
            to,
        ) == balance_of(balances, from) + balance_of(balances, to),
        other != from && other != to ==> balance_of(transferred(balances, from, to, amount), other)
            == balance_of(balances, other),
{
}

/// A transfer from an account to itself credits it with `amount`: the
/// credit is computed from the balance read before the debit.
pub proof fn lemma_self_transfer_credits(balances: Map<u64, i128>, id: u64, amount: i128)
    requires
        can_transfer(balances, id, id, amount),
    ensures
        balance_of(transferred(balances, id, id, amount), id) == balance_of(balances, id) + amount,
{
}

} // verus!
