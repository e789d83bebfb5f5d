use vstd::prelude::*;
use std::collections::HashMap;
use crate::pallet::AccountId;

verus! {

broadcast use vstd::std_specs::hash::group_hash_axioms;

/// An amount of tokens.
pub type Balance = u128;

/// Tokens moved from one account to another; a mint comes from account 0.
#[derive(Clone, Copy, Debug, PartialEq, Eq, Structural)]
pub struct Transfer {
    pub from: AccountId,
    pub to: AccountId,
    pub value: Balance,
}

/// An owner let a spender move up to `value` of its tokens.
#[derive(Clone, Copy, Debug, PartialEq, Eq, Structural)]
pub struct Approval {
    pub owner: AccountId,
    pub spender: AccountId,
    pub value: Balance,
}

/// What the token reports.
#[derive(Clone, Copy, Debug, PartialEq, Eq, Structural)]
pub enum TokenEvent {
    Transfer(Transfer),
    Approval(Approval),
}

/// Why a token call failed.
#[derive(Clone, Copy, Debug, PartialEq, Eq, Structural)]
pub enum Error {
    /// Not enough balance to fulfill a request is available.
    InsufficientBalance,
    /// Not enough allowance to fulfill a request is available.
    InsufficientAllowance,
}

/// The one key under which the allowance of `spender` over `owner`'s tokens is kept.
pub open spec fn pair_key(owner: AccountId, spender: AccountId) -> u128 {
    (owner as int * 0x1_0000_0000_0000_0000 + spender as int) as u128
}

proof fn lemma_pair_key_injective(o1: AccountId, s1: AccountId, o2: AccountId, s2: AccountId)
    ensures
        pair_key(o1, s1) == pair_key(o2, s2) ==> o1 == o2 && s1 == s2,
{
    assert(pair_key(o1, s1) == pair_key(o2, s2) ==> o1 == o2 && s1 == s2) by (nonlinear_arith)
        requires
            o1 <= u64::MAX, s1 <= u64::MAX, o2 <= u64::MAX, s2 <= u64::MAX,
    ;
}

fn allowance_key(owner: AccountId, spender: AccountId) -> (r: u128)
    ensures
        r == pair_key(owner, spender),
{
    assert(owner as int * 0x1_0000_0000_0000_0000 + spender as int <= u128::MAX) by (nonlinear_arith)
        requires
            owner <= u64::MAX, spender <= u64::MAX,
    ;
    (owner as u128) * 0x1_0000_0000_0000_0000u128 + (spender as u128)
}

/// An ERC-20 style token: a fixed supply, balances, and allowances.
pub struct ERC20 {
    total_supply: Balance,
    balances: HashMap<AccountId, Balance>,
    approval: HashMap<u128, Balance>,
    events: Vec<TokenEvent>,
    /// Every account that holds a balance entry, each once.
    holders: Ghost<Seq<AccountId>>,
}

/// The balance that a balance map gives `a`; zero where it has no entry.
pub open spec fn bal_of(m: Map<AccountId, Balance>, a: AccountId) -> int {
    if m.contains_key(a) { m[a] as int } else { 0 }
}

/// The sum of the balances of the listed accounts.
pub open spec fn sum_of(hs: Seq<AccountId>, m: Map<AccountId, Balance>) -> int
    decreases hs.len(),
{
    if hs.len() == 0 { 0 } else { sum_of(hs.drop_last(), m) + bal_of(m, hs.last()) }
}

proof fn lemma_sum_push(hs: Seq<AccountId>, m: Map<AccountId, Balance>, x: AccountId)
    ensures
        sum_of(hs.push(x), m) == sum_of(hs, m) + bal_of(m, x),
        !hs.contains(x) && hs.no_duplicates() ==> hs.push(x).no_duplicates(),
        forall|y: AccountId| hs.push(x).contains(y) <==> (hs.contains(y) || y == x),
{
    assert(hs.push(x).drop_last() =~= hs);
    assert forall|y: AccountId| hs.push(x).contains(y) <==> (hs.contains(y) || y == x) by {
        if hs.contains(y) {
            let i = choose|i: int| 0 <= i < hs.len() && hs[i] == y;
            assert(hs.push(x)[i] == y);
        }
        if y == x {
            assert(hs.push(x)[hs.len() as int] == y);
        }
        if hs.push(x).contains(y) {
            let i = choose|i: int| 0 <= i < hs.push(x).len() && hs.push(x)[i] == y;
            if i < hs.len() {
                assert(hs[i] == y);
            }
        }
    }
    if !hs.contains(x) && hs.no_duplicates() {
        assert forall|i: int, j: int| 0 <= i < hs.push(x).len() && 0 <= j < hs.push(x).len() && i != j
            implies hs.push(x)[i] != hs.push(x)[j] by {
            if i < hs.len() && j < hs.len() {
            } else if i < hs.len() {
                assert(hs[i] == hs.push(x)[i]);
            } else {
                assert(hs[j] == hs.push(x)[j]);
            }
        }
    }
}

proof fn lemma_sum_update(hs: Seq<AccountId>, m: Map<AccountId, Balance>, a: AccountId, v: Balance)
    requires
        hs.no_duplicates(),
    ensures
        sum_of(hs, m.insert(a, v)) == sum_of(hs, m) + (if hs.contains(a) { v - bal_of(m, a) } else { 0 }),
    decreases hs.len(),
{
    if hs.len() > 0 {
        let rest = hs.drop_last();
        lemma_sum_push(rest, m, hs.last());
        lemma_sum_push(rest, m.insert(a, v), hs.last());
        assert(rest.push(hs.last()) =~= hs);
        assert(rest.no_duplicates());
        if hs.last() == a {
            assert(!rest.contains(a)) by {
                if rest.contains(a) {
                    let i = choose|i: int| 0 <= i < rest.len() && rest[i] == a;
                    assert(hs[i] == hs[hs.len() - 1]);
                }
            }
        }
        lemma_sum_update(rest, m, a, v);
    }
}

proof fn lemma_pair_le_sum(hs: Seq<AccountId>, m: Map<AccountId, Balance>, a: AccountId, b: AccountId)
    requires
        hs.no_duplicates(),
        a != b,
    ensures
        (if hs.contains(a) { bal_of(m, a) } else { 0 }) + (if hs.contains(b) { bal_of(m, b) } else { 0 })
            <= sum_of(hs, m),
    decreases hs.len(),
{
    if hs.len() > 0 {
        let rest = hs.drop_last();
        lemma_sum_push(rest, m, hs.last());
        assert(rest.push(hs.last()) =~= hs);
        assert(rest.no_duplicates());
        lemma_pair_le_sum(rest, m, a, b);
        lemma_sum_nonneg(rest, m);
        if hs.last() == a || hs.last() == b {
            assert(!rest.contains(hs.last())) by {
                if rest.contains(hs.last()) {
                    let i = choose|i: int| 0 <= i < rest.len() && rest[i] == hs.last();
                    assert(hs[i] == hs[hs.len() - 1]);
                }
            }
        }
    }
}

proof fn lemma_sum_nonneg(hs: Seq<AccountId>, m: Map<AccountId, Balance>)
    ensures
        sum_of(hs, m) >= 0,
    decreases hs.len(),
{
    if hs.len() > 0 {
        lemma_sum_nonneg(hs.drop_last(), m);
    }
}

impl ERC20 {
    /// The token's invariant: the balances of all accounts add up to the supply.
    pub closed spec fn wf(&self) -> bool {
        &&& self.holders@.no_duplicates()
        &&& forall|a: AccountId| self.balances@.contains_key(a) ==> self.holders@.contains(a)
        &&& sum_of(self.holders@, self.balances@) == self.total_supply
    }

    /// The tokens that the supply was minted with.
    pub closed spec fn supply(&self) -> Balance {
        self.total_supply
    }

    /// The balance of `who`; zero where nothing was ever credited.
    pub closed spec fn balance(&self, who: AccountId) -> Balance {
        if self.balances@.contains_key(who) { self.balances@[who] } else { 0 }
    }

    /// What `spender` may still move of `owner`'s tokens.
    pub closed spec fn allowance(&self, owner: AccountId, spender: AccountId) -> Balance {
        let k = pair_key(owner, spender);
        if self.approval@.contains_key(k) { self.approval@[k] } else { 0 }
    }

    /// The events emitted so far, oldest first.
    pub closed spec fn emitted(&self) -> Seq<TokenEvent> {
        self.events@
    }

    /// A token whose whole supply belongs to `caller`.
    pub fn new(caller: AccountId, total_supply: Balance) -> (r: ERC20)
        ensures
            r.wf(),
            r.supply() == total_supply,
            r.balance(caller) == total_supply,
            forall|a: AccountId| a != caller ==> #[trigger] r.balance(a) == 0,
            forall|o: AccountId, s: AccountId| #[trigger] r.allowance(o, s) == 0,
            r.emitted() == seq![TokenEvent::Transfer(Transfer { from: 0, to: caller, value: total_supply })],
    {
        let mut balances: HashMap<AccountId, Balance> = HashMap::new();
        balances.insert(caller, total_supply);
        let mut events: Vec<TokenEvent> = Vec::new();
        events.push(TokenEvent::Transfer(Transfer { from: 0, to: caller, value: total_supply }));
        let r = ERC20 { total_supply, balances, approval: HashMap::new(), events, holders: Ghost(Seq::empty().push(caller)) };
        proof {
            lemma_sum_push(Seq::empty(), r.balances@, caller);
        }
        assert(r.emitted() =~= seq![TokenEvent::Transfer(Transfer { from: 0, to: caller, value: total_supply })]);
        r
    }

    /// The tokens that the supply was minted with.
    pub fn total_supply(&self) -> (r: Balance)
        ensures
            r == self.supply(),
    {
        self.total_supply
    }

    /// The balance of `who`.
    pub fn balance_of(&self, who: AccountId) -> (r: Balance)
        ensures
            r == self.balance(who),
    {
        self.balance_of_impl(who)
    }

    /// What `spender` may still move of `owner`'s tokens.
    pub fn allowance_of(&self, owner: AccountId, spender: AccountId) -> (r: Balance)
        ensures
            r == self.allowance(owner, spender),
    {
        self.allowance_impl(owner, spender)
    }

    fn balance_of_impl(&self, who: AccountId) -> (r: Balance)
        ensures
            r == self.balance(who),
    {
        match self.balances.get(&who) {
            Some(b) => *b,
            None => 0,
        }
    }

    fn allowance_impl(&self, owner: AccountId, spender: AccountId) -> (r: Balance)
        ensures
            r == self.allowance(owner, spender),
    {
        let k = allowance_key(owner, spender);
        match self.approval.get(&k) {
            Some(a) => *a,
            None => 0,
        }
    }

    fn transfer_from_to(&mut self, from: AccountId, to: AccountId, value: Balance) -> (r: Result<(), Error>)
        requires
            old(self).wf(),
        ensures
            r is Err <==> old(self).balance(from) < value,
            r is Err ==> r == Err::<(), Error>(Error::InsufficientBalance) && *final(self) == *old(self),
            r is Ok ==> {
                &&& final(self).balance(from) == (if from == to { old(self).balance(from) } else {
                    (old(self).balance(from) - value) as Balance })
                &&& final(self).balance(to) == (if from == to { old(self).balance(to) } else {
                    (old(self).balance(to) + value) as Balance })
                &&& forall|a: AccountId| a != from && a != to ==> #[trigger] final(self).balance(a) == old(self).balance(a)
                &&& final(self).emitted() == old(self).emitted().push(TokenEvent::Transfer(Transfer { from, to, value }))
            },
            final(self).supply() == old(self).supply(),
            final(self).wf(),
            forall|o: AccountId, s: AccountId| #[trigger] final(self).allowance(o, s) == old(self).allowance(o, s),
    {
        let from_balance = self.balance_of_impl(from);
        if from_balance < value {
            return Err(Error::InsufficientBalance);
        }
        let ghost m0 = self.balances@;
        let ghost h0 = self.holders@;
        let ghost h1 = if h0.contains(from) { h0 } else { h0.push(from) };
        let ghost h2 = if h1.contains(to) { h1 } else { h1.push(to) };
        proof {
            assert(h0.no_duplicates() && sum_of(h0, m0) == self.total_supply);
            lemma_sum_push(h0, m0, from);
            if !h0.contains(from) {
                assert(!m0.contains_key(from));
                assert(bal_of(m0, from) == 0);
            }
            assert(sum_of(h1, m0) == self.total_supply);
            assert(h1.no_duplicates());
            lemma_sum_push(h1, m0, to);
            if !h1.contains(to) {
                assert(!h0.contains(to));
                assert(!m0.contains_key(to));
            }
            assert(sum_of(h2, m0) == self.total_supply);
            assert(h2.contains(from) && h2.contains(to));
            if from != to {
                lemma_pair_le_sum(h2, m0, from, to);
            }
            lemma_sum_update(h2, m0, from, (from_balance - value) as Balance);
        }
        self.holders = Ghost(h2);
        self.balances.insert(from, from_balance - value);
        let to_balance = self.balance_of_impl(to);
        let ghost m1 = self.balances@;
        proof {
            assert(sum_of(h2, m1) == self.total_supply - value);
            lemma_sum_update(h2, m1, to, (to_balance + value) as Balance);
        }
        self.balances.insert(to, to_balance + value);
        self.events.push(TokenEvent::Transfer(Transfer { from, to, value }));
        proof {
            assert(sum_of(h2, self.balances@) == self.total_supply);
            assert(h2.no_duplicates());
            assert forall|a: AccountId| self.balances@.contains_key(a) implies h2.contains(a) by {
                if a != from && a != to {
                    assert(m0.contains_key(a));
                    assert(h0.contains(a));
                    lemma_sum_push(h0, m0, from);
                    lemma_sum_push(h1, m0, to);
                }
            }
        }
        Ok(())
    }

    /// Moves `value` of the caller's tokens to `to`.
    pub fn transfer(&mut self, caller: AccountId, to: AccountId, value: Balance) -> (r: Result<(), Error>)
        requires
            old(self).wf(),
        ensures
            r is Err <==> old(self).balance(caller) < value,
            r is Err ==> r == Err::<(), Error>(Error::InsufficientBalance) && *final(self) == *old(self),
            r is Ok ==> {
                &&& final(self).balance(caller) == (if caller == to { old(self).balance(caller) } else {
                    (old(self).balance(caller) - value) as Balance })
                &&& final(self).balance(to) == (if caller == to { old(self).balance(to) } else {
                    (old(self).balance(to) + value) as Balance })
                &&& forall|a: AccountId| a != caller && a != to ==> #[trigger] final(self).balance(a) == old(self).balance(a)
                &&& final(self).emitted() == old(self).emitted().push(TokenEvent::Transfer(Transfer { from: caller, to, value }))
            },
            final(self).supply() == old(self).supply(),
            final(self).wf(),
            forall|o: AccountId, s: AccountId| #[trigger] final(self).allowance(o, s) == old(self).allowance(o, s),
    {
        self.transfer_from_to(caller, to, value)
    }

    /// Lets `spender` move up to `value` of the caller's tokens, replacing any earlier allowance.
    pub fn approve(&mut self, caller: AccountId, spender: AccountId, value: Balance) -> (r: Result<(), Error>)
        requires
            old(self).wf(),
        ensures
            r is Ok,
            final(self).allowance(caller, spender) == value,
            forall|o: AccountId, s: AccountId| !(o == caller && s == spender)
                ==> #[trigger] final(self).allowance(o, s) == old(self).allowance(o, s),
            forall|a: AccountId| #[trigger] final(self).balance(a) == old(self).balance(a),
            final(self).supply() == old(self).supply(),
            final(self).wf(),
            final(self).emitted() == old(self).emitted().push(TokenEvent::Approval(Approval { owner: caller, spender, value })),
    {
        let k = allowance_key(caller, spender);
        self.approval.insert(k, value);
        self.events.push(TokenEvent::Approval(Approval { owner: caller, spender, value }));
        assert forall|o: AccountId, s: AccountId| !(o == caller && s == spender)
            implies #[trigger] final(self).allowance(o, s) == old(self).allowance(o, s) by {
            lemma_pair_key_injective(o, s, caller, spender);
        }
        Ok(())
    }

    /// Moves `value` of `from`'s tokens to `to` on behalf of the caller, spending the caller's
    /// allowance over `from`.
    pub fn transfer_from(&mut self, caller: AccountId, from: AccountId, to: AccountId, value: Balance) -> (r: Result<(), Error>)
        requires
            old(self).wf(),
        ensures
            r == (if old(self).allowance(from, caller) < value {
                Err(Error::InsufficientAllowance)
            } else if old(self).balance(from) < value {
                Err(Error::InsufficientBalance)
            } else {
                Ok(())
            }),
            r is Err ==> *final(self) == *old(self),
            r is Ok ==> {
                &&& final(self).balance(from) == (if from == to { old(self).balance(from) } else {
                    (old(self).balance(from) - value) as Balance })
                &&& final(self).balance(to) == (if from == to { old(self).balance(to) } else {
                    (old(self).balance(to) + value) as Balance })
                &&& forall|a: AccountId| a != from && a != to ==> #[trigger] final(self).balance(a) == old(self).balance(a)
                &&& final(self).allowance(from, caller) == old(self).allowance(from, caller) - value
                &&& forall|o: AccountId, s: AccountId| !(o == from && s == caller)
                    ==> #[trigger] final(self).allowance(o, s) == old(self).allowance(o, s)
                &&& final(self).emitted() == old(self).emitted().push(TokenEvent::Transfer(Transfer { from, to, value }))
            },
            final(self).supply() == old(self).supply(),
            final(self).wf(),
    {
        let allowance = self.allowance_impl(from, caller);
        if allowance < value {
            return Err(Error::InsufficientAllowance);
        }
        let moved = self.transfer_from_to(from, to, value);
        if moved.is_err() {
            return moved;
        }
        let ghost mid = *self;
        let k = allowance_key(from, caller);
        self.approval.insert(k, allowance - value);
        assert forall|o: AccountId, s: AccountId| !(o == from && s == caller)
            implies #[trigger] self.allowance(o, s) == mid.allowance(o, s) by {
            lemma_pair_key_injective(o, s, from, caller);
        }
        assert forall|a: AccountId| #[trigger] self.balance(a) == mid.balance(a) by {}
        Ok(())
    }
}

/// In a well-formed token no account holds more than the supply.
pub proof fn lemma_balance_within_supply(t: ERC20, a: AccountId)
    requires
        t.wf(),
    ensures
        t.balance(a) <= t.supply(),
{
    let b: AccountId = if a == 0 { 1 } else { 0 };
    lemma_pair_le_sum(t.holders@, t.balances@, a, b);
    if t.balances@.contains_key(b) {
        assert(t.holders@.contains(b));
    }
    if t.balances@.contains_key(a) {
        assert(t.holders@.contains(a));
    }
}

} // verus!
