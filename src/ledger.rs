//! A ledger of value held by identities: the capability that moves a fixed
//! amount from one holder to another, all or nothing.
use vstd::prelude::*;

use crate::error::EscrowError;
use crate::identity::Identity;

verus! {

/// The value held by one holder.
#[derive(Clone, Copy, Debug)]
pub struct Holding {
    pub holder: Identity,
    pub balance: u64,
}

/// Whether `id` has an entry in `s`.
pub open spec fn has_entry(s: Seq<Holding>, id: Identity) -> bool {
    exists|i: int| 0 <= i < s.len() && #[trigger] s[i].holder == id
}

/// The position of the entry of `id` in `s`.
pub open spec fn entry_of(s: Seq<Holding>, id: Identity) -> int {
    choose|i: int| 0 <= i < s.len() && #[trigger] s[i].holder == id
}

/// No holder has two entries in `s`.
pub open spec fn holders_distinct(s: Seq<Holding>) -> bool {
    forall|i: int, j: int|
        0 <= i < s.len() && 0 <= j < s.len() && i != j ==> #[trigger] s[i].holder != #[trigger] s[j].holder
}

/// What each holder of `s` holds.
pub open spec fn holdings_map(s: Seq<Holding>) -> Map<Identity, nat> {
    Map::new(|id: Identity| has_entry(s, id), |id: Identity| s[entry_of(s, id)].balance as nat)
}

/// The sum of the balances in `s`.
pub open spec fn sum_balances(s: Seq<Holding>) -> nat
    decreases s.len(),
{
    if s.len() == 0 {
        0
    } else {
        (sum_balances(s.drop_last()) + s.last().balance) as nat
    }
}

/// The balance of `id` in `m`: zero where it holds nothing.
pub open spec fn balance_in(m: Map<Identity, nat>, id: Identity) -> nat {
    if m.contains_key(id) {
        m[id]
    } else {
        0
    }
}

/// The holdings `m` after `amount` moved from `from` to `to`.
pub open spec fn moved(m: Map<Identity, nat>, from: Identity, to: Identity, amount: nat) -> Map<
    Identity,
    nat,
> {
    if from == to || amount == 0 {
        m
    } else {
        m.insert(from, (balance_in(m, from) - amount) as nat).insert(to, (balance_in(m, to) + amount) as nat)
    }
}

proof fn lemma_entry(s: Seq<Holding>, i: int)
    requires
        holders_distinct(s),
        0 <= i < s.len(),
    ensures
        has_entry(s, s[i].holder),
        entry_of(s, s[i].holder) == i,
        holdings_map(s).contains_key(s[i].holder),
        holdings_map(s)[s[i].holder] == s[i].balance as nat,
{
    assert(has_entry(s, s[i].holder));
}

proof fn lemma_sum_update(s: Seq<Holding>, i: int, h: Holding)
    requires
        0 <= i < s.len(),
    ensures
        sum_balances(s.update(i, h)) + s[i].balance == sum_balances(s) + h.balance,
    decreases s.len(),
{
    let t = s.update(i, h);
    if i == s.len() - 1 {
        assert(t.drop_last() =~= s.drop_last());
    } else {
        assert(t.drop_last() =~= s.drop_last().update(i, h));
        lemma_sum_update(s.drop_last(), i, h);
    }
}

proof fn lemma_sum_bounds(s: Seq<Holding>, i: int)
    requires
        0 <= i < s.len(),
    ensures
        s[i].balance <= sum_balances(s),
    decreases s.len(),
{
    if i < s.len() - 1 {
        lemma_sum_bounds(s.drop_last(), i);
    }
}

proof fn lemma_update(s: Seq<Holding>, i: int, b: u64)
    requires
        holders_distinct(s),
        0 <= i < s.len(),
    ensures
        holders_distinct(s.update(i, Holding { holder: s[i].holder, balance: b })),
        holdings_map(s.update(i, Holding { holder: s[i].holder, balance: b })) == holdings_map(
            s,
        ).insert(s[i].holder, b as nat),
        sum_balances(s.update(i, Holding { holder: s[i].holder, balance: b })) + s[i].balance
            == sum_balances(s) + b,
{
    let h = Holding { holder: s[i].holder, balance: b };
    let t = s.update(i, h);
    lemma_sum_update(s, i, h);
    assert(holders_distinct(t)) by {
        assert forall|j: int, k: int|
            0 <= j < t.len() && 0 <= k < t.len() && j != k implies #[trigger] t[j].holder
            != #[trigger] t[k].holder by {
            assert(s[j].holder != s[k].holder);
        }
    }
    let m = holdings_map(s).insert(s[i].holder, b as nat);
    assert forall|id: Identity| #[trigger] has_entry(t, id) == m.contains_key(id) by {
        if has_entry(s, id) {
            let j = entry_of(s, id);
            assert(t[j].holder == id);
        }
        if has_entry(t, id) {
            let j = entry_of(t, id);
            assert(s[j].holder == id);
        }
    }
    assert forall|id: Identity| has_entry(t, id) implies holdings_map(t)[id] == m[id] by {
        let j = entry_of(t, id);
        lemma_entry(t, j);
        if j != i {
            lemma_entry(s, j);
        }
    }
    assert(holdings_map(t) =~= m);
}

proof fn lemma_push(s: Seq<Holding>, h: Holding)
    requires
        holders_distinct(s),
        !has_entry(s, h.holder),
    ensures
        holders_distinct(s.push(h)),
        holdings_map(s.push(h)) == holdings_map(s).insert(h.holder, h.balance as nat),
        sum_balances(s.push(h)) == sum_balances(s) + h.balance,
{
    let t = s.push(h);
    assert(t.drop_last() =~= s);
    assert(holders_distinct(t)) by {
        assert forall|j: int, k: int|
            0 <= j < t.len() && 0 <= k < t.len() && j != k implies #[trigger] t[j].holder
            != #[trigger] t[k].holder by {
            if j < s.len() && k < s.len() {
                assert(s[j].holder != s[k].holder);
            } else if j < s.len() {
                assert(s[j].holder == t[j].holder);
            } else {
                assert(s[k].holder == t[k].holder);
            }
        }
    }
    let m = holdings_map(s).insert(h.holder, h.balance as nat);
    assert forall|id: Identity| #[trigger] has_entry(t, id) == m.contains_key(id) by {
        if has_entry(s, id) {
            let j = entry_of(s, id);
            assert(t[j].holder == id);
        }
        if id == h.holder {
            assert(t[s.len() as int].holder == id);
        }
        if has_entry(t, id) && id != h.holder {
            let j = entry_of(t, id);
            assert(s[j].holder == id);
        }
    }
    assert forall|id: Identity| has_entry(t, id) implies holdings_map(t)[id] == m[id] by {
        let j = entry_of(t, id);
        lemma_entry(t, j);
        if j < s.len() {
            lemma_entry(s, j);
        }
    }
    assert(holdings_map(t) =~= m);
}

/// Balances of value, keyed by holder. The sum of all balances fits in a
/// `u64`, so that no transfer can overflow a balance.
pub struct Ledger {
    holdings: Vec<Holding>,
    supply: u64,
}

impl View for Ledger {
    type V = Map<Identity, nat>;

    /// What each holder holds; holders without an entry hold nothing.
    closed spec fn view(&self) -> Map<Identity, nat> {
        holdings_map(self.holdings@)
    }
}

impl Ledger {
    /// The ledger's internal invariant.
    pub closed spec fn wf(&self) -> bool {
        &&& holders_distinct(self.holdings@)
        &&& self.supply == sum_balances(self.holdings@)
    }

    /// The sum of all balances.
    pub closed spec fn total(&self) -> nat {
        self.supply as nat
    }

    /// An empty ledger.
    pub fn new() -> (r: Ledger)
        ensures
            r.wf(),
            r@ == Map::<Identity, nat>::empty(),
            r.total() == 0,
    {
        let r = Ledger { holdings: Vec::new(), supply: 0 };
        assert(r@ =~= Map::<Identity, nat>::empty());
        r
    }

    fn find(&self, id: &Identity) -> (r: Option<usize>)
        requires
            holders_distinct(self.holdings@),
        ensures
            match r {
                Some(i) => i < self.holdings@.len() && self.holdings@[i as int].holder == *id,
                None => !has_entry(self.holdings@, *id),
            },
    {
        let mut i: usize = 0;
        while i < self.holdings.len()
            invariant
                i <= self.holdings@.len(),
                forall|j: int| 0 <= j < i ==> #[trigger] self.holdings@[j].holder != *id,
            decreases self.holdings@.len() - i,
        {
            if self.holdings[i].holder.same_as(id) {
                return Some(i);
            }
            i = i + 1;
        }
        None
    }

    /// The balance of `id`.
    pub fn balance_of(&self, id: &Identity) -> (r: u64)
        requires
            self.wf(),
        ensures
            r as nat == balance_in(self@, *id),
    {
        match self.find(id) {
            Some(i) => {
                proof {
                    lemma_entry(self.holdings@, i as int);
                }
                self.holdings[i].balance
            },
            None => 0,
        }
    }

    /// The sum of all balances.
    pub fn total_supply(&self) -> (r: u64)
        requires
            self.wf(),
        ensures
            r as nat == self.total(),
    {
        self.supply
    }

    /// Adds `amount` to the balance of `id`, unless the sum of all balances
    /// would then exceed `u64::MAX`. Returns whether it was added.
    pub fn credit(&mut self, id: &Identity, amount: u64) -> (r: bool)
        requires
            old(self).wf(),
        ensures
            final(self).wf(),
            r == (old(self).total() + amount <= u64::MAX),
            r ==> final(self)@ == old(self)@.insert(*id, (balance_in(old(self)@, *id) + amount) as nat),
            r ==> final(self).total() == old(self).total() + amount,
            !r ==> final(self)@ == old(self)@ && final(self).total() == old(self).total(),
    {
        if amount > u64::MAX - self.supply {
            return false;
        }
        match self.find(id) {
            Some(i) => {
                proof {
                    lemma_entry(self.holdings@, i as int);
                    lemma_sum_bounds(self.holdings@, i as int);
                    lemma_update(self.holdings@, i as int, (self.holdings@[i as int].balance + amount) as u64);
                }
                let b = self.holdings[i].balance + amount;
                self.holdings.set(i, Holding { holder: *id, balance: b });
            },
            None => {
                proof {
                    lemma_push(self.holdings@, Holding { holder: *id, balance: amount });
                }
                self.holdings.push(Holding { holder: *id, balance: amount });
            },
        }
        self.supply = self.supply + amount;
        true
    }

    /// Moves `amount` from `from` to `to` as one unit. Fails, and changes
    /// nothing, when `from` holds less than `amount`.
    pub fn transfer(&mut self, from: &Identity, to: &Identity, amount: u64) -> (r: Result<
        (),
        EscrowError,
    >)
        requires
            old(self).wf(),
        ensures
            final(self).wf(),
            final(self).total() == old(self).total(),
            r is Err <==> balance_in(old(self)@, *from) < amount,
            r is Err ==> r == Err::<(), EscrowError>(EscrowError::InsufficientFunds),
            r is Err ==> final(self)@ == old(self)@,
            r is Ok ==> final(self)@ == moved(old(self)@, *from, *to, amount as nat),
    {
        let available = self.balance_of(from);
        if available < amount {
            return Err(EscrowError::InsufficientFunds);
        }
        if amount == 0 || from.same_as(to) {
            return Ok(());
        }
        let fi = match self.find(from) {
            Some(i) => i,
            None => {
                return Err(EscrowError::InsufficientFunds);
            },
        };
        proof {
            lemma_entry(self.holdings@, fi as int);
            lemma_update(self.holdings@, fi as int, (available - amount) as u64);
        }
        self.holdings.set(fi, Holding { holder: *from, balance: available - amount });
        let ghost mid = self.holdings@;
        assert(holdings_map(mid) == old(self)@.insert(*from, (available - amount) as nat));
        match self.find(to) {
            Some(ti) => {
                proof {
                    lemma_entry(mid, ti as int);
                    lemma_sum_bounds(mid, ti as int);
                    lemma_update(mid, ti as int, (mid[ti as int].balance + amount) as u64);
                }
                let b = self.holdings[ti].balance + amount;
                self.holdings.set(ti, Holding { holder: *to, balance: b });
                assert(balance_in(old(self)@, *to) == mid[ti as int].balance);
            },
            None => {
                proof {
                    lemma_push(mid, Holding { holder: *to, balance: amount });
                }
                self.holdings.push(Holding { holder: *to, balance: amount });
                assert(!holdings_map(mid).contains_key(*to));
                assert(!old(self)@.contains_key(*to));
            },
        }
        Ok(())
    }
}

} // verus!
