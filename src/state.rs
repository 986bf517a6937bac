use crate::troops::{cost, lemma_slot_bijective, slot, troop_at, Troops, TROOP_KINDS};
use vstd::prelude::*;

verus! {

/// What a game state means: the balance and the pending purchases, each kind
/// mapped to the quantity that is to be bought of it.
pub struct GameStateView {
    pub balance: int,
    pub pending: Map<Troops, int>,
}

/// The quantity of `t` in `p`, taking an absent kind as zero.
pub open spec fn held(p: Map<Troops, int>, t: Troops) -> int {
    if p.contains_key(t) {
        p[t]
    } else {
        0
    }
}

/// What the pending quantity of `t` costs.
pub open spec fn line_cost(p: Map<Troops, int>, t: Troops) -> int {
    held(p, t) * cost(t)
}

/// What the pending quantities of the first `n` kinds, in declaration order, cost.
pub open spec fn partial_total(p: Map<Troops, int>, n: nat) -> int
    decreases n,
{
    if n == 0 {
        0
    } else {
        partial_total(p, (n - 1) as nat) + line_cost(p, troop_at(n - 1))
    }
}

/// What all pending purchases cost together.
pub open spec fn total_cost(p: Map<Troops, int>) -> int {
    partial_total(p, TROOP_KINDS as nat)
}

/// The balance that is left once the pending purchases are paid.
pub open spec fn remaining_of(v: GameStateView) -> int {
    v.balance - total_cost(v.pending)
}

/// Whether `x` fits in an `i32`.
pub open spec fn fits_i32(x: int) -> bool {
    i32::MIN <= x <= i32::MAX
}

/// The pending map after a purchase of `amount` units of `t`.
pub open spec fn purchased(p: Map<Troops, int>, t: Troops, amount: int) -> Map<Troops, int> {
    p.insert(t, held(p, t) + amount)
}

/// The quantity of `t` after removing `amount` units of it, or all of it when
/// no amount is given.
pub open spec fn removed_quantity(p: Map<Troops, int>, t: Troops, amount: Option<i32>) -> int {
    match amount {
        Some(a) => held(p, t) - a,
        None => 0,
    }
}

/// The pending map after a removal: a kind whose quantity drops to zero or
/// below is taken out.
pub open spec fn removed(p: Map<Troops, int>, t: Troops, amount: Option<i32>) -> Map<Troops, int> {
    let q = removed_quantity(p, t, amount);
    if q <= 0 {
        p.remove(t)
    } else {
        p.insert(t, q)
    }
}

/// The pending map that a list of (kind, quantity) entries describes; a later
/// entry for a kind replaces an earlier one.
pub open spec fn entries_model(es: Seq<(Troops, i32)>) -> Map<Troops, int>
    decreases es.len(),
{
    if es.len() == 0 {
        Map::empty()
    } else {
        entries_model(es.drop_last()).insert(es.last().0, es.last().1 as int)
    }
}

/// No kind appears twice in `es`.
pub open spec fn keys_distinct(es: Seq<(Troops, i32)>) -> bool {
    forall|i: int, j: int| 0 <= i < j < es.len() ==> es[i].0 != es[j].0
}

/// The quantity that a slot holds, zero when it is empty.
spec fn slot_qty(o: Option<i32>) -> int {
    match o {
        Some(q) => q as int,
        None => 0,
    }
}

/// The pending map that a table of slots describes, in declaration order.
spec fn slots_model(s: Seq<Option<i32>>) -> Map<Troops, int> {
    Map::new(|t: Troops| s[slot(t)] is Some, |t: Troops| slot_qty(s[slot(t)]))
}

/// The whole game state: the balance and, for each kind in declaration order,
/// its pending quantity when it has one.
#[derive(Debug)]
pub struct GameState {
    ipc: i32,
    purchases: Vec<Option<i32>>,
}

impl View for GameState {
    type V = GameStateView;

    closed spec fn view(&self) -> GameStateView {
        GameStateView { balance: self.ipc as int, pending: slots_model(self.purchases@) }
    }
}

/// A bound on the cost of the pending quantity of one kind.
pub const LINE_BOUND: i64 = 42949672960;

impl GameState {
    /// The slot table has one slot for each kind.
    pub closed spec fn wf(&self) -> bool {
        self.purchases@.len() == TROOP_KINDS
    }

    /// A fresh game with the given balance and nothing pending.
    pub fn new(ipc: i32) -> (r: GameState)
        ensures
            r.wf(),
            r@ == (GameStateView { balance: ipc as int, pending: Map::empty() }),
    {
        let mut purchases: Vec<Option<i32>> = Vec::new();
        let mut i: usize = 0;
        while i < TROOP_KINDS
            invariant
                i <= TROOP_KINDS,
                purchases@.len() == i,
                forall|j: int| 0 <= j < i ==> purchases@[j] is None,
            decreases TROOP_KINDS - i,
        {
            purchases.push(None);
            i += 1;
        }
        let r = GameState { ipc, purchases };
        assert(r@.pending =~= Map::empty());
        r
    }

    /// The current balance.
    pub fn balance(&self) -> (r: i32)
        ensures
            r == self@.balance,
    {
        self.ipc
    }

    /// The pending quantity of `troop`, if it has one.
    pub fn quantity(&self, troop: Troops) -> (r: Option<i32>)
        requires
            self.wf(),
        ensures
            r is Some <==> self@.pending.contains_key(troop),
            r matches Some(q) ==> q == self@.pending[troop],
    {
        self.purchases[troop.index()]
    }

    /// Every pending quantity fits in an `i32`.
    pub proof fn lemma_pending_fits(&self, t: Troops)
        requires
            self.wf(),
        ensures
            fits_i32(held(self@.pending, t)),
    {
        lemma_slot_bijective();
    }

    /// What all pending purchases cost together.
    pub fn get_total_cost(&self) -> (r: i64)
        requires
            self.wf(),
        ensures
            r == total_cost(self@.pending),
    {
        proof {
            lemma_slot_bijective();
        }
        let ghost p = self@.pending;
        let mut sum: i64 = 0;
        let mut i: usize = 0;
        while i < TROOP_KINDS
            invariant
                i <= TROOP_KINDS,
                self.wf(),
                p == self@.pending,
                sum == partial_total(p, i as nat),
                -(i as int) * LINE_BOUND <= sum <= (i as int) * LINE_BOUND,
            decreases TROOP_KINDS - i,
        {
            let troop = Troops::from_index(i);
            let c: i64 = troop.get_cost() as i64;
            let q: i64 = match self.purchases[i] {
                Some(q) => q as i64,
                None => 0,
            };
            assert(q == held(p, troop));
            assert(-LINE_BOUND <= q * c <= LINE_BOUND) by (nonlinear_arith)
                requires
                    i32::MIN <= q <= i32::MAX,
                    3 <= c <= 20,
            ;
            sum = sum + q * c;
            i += 1;
        }
        sum
    }

    /// The balance that is left once the pending purchases are paid.
    pub fn remaining(&self) -> (r: i64)
        requires
            self.wf(),
        ensures
            r == remaining_of(self@),
    {
        let total = self.get_total_cost();
        proof {
            self.lemma_total_bounds();
        }
        self.ipc as i64 - total
    }

    /// The total cost is bounded by the table size times the largest cost of one line.
    proof fn lemma_total_bounds(&self)
        requires
            self.wf(),
        ensures
            -(TROOP_KINDS as int) * LINE_BOUND <= total_cost(self@.pending) <= (TROOP_KINDS as int) * LINE_BOUND,
    {
        self.lemma_partial_bounds(TROOP_KINDS as nat);
    }

    /// The cost of the first `n` lines is bounded by `n` times the largest cost of one line.
    proof fn lemma_partial_bounds(&self, n: nat)
        requires
            self.wf(),
        ensures
            -(n as int) * LINE_BOUND <= partial_total(self@.pending, n) <= (n as int) * LINE_BOUND,
        decreases n,
    {
        if n > 0 {
            self.lemma_partial_bounds((n - 1) as nat);
            let t = troop_at(n - 1);
            let q = held(self@.pending, t);
            let c = cost(t);
            self.lemma_pending_fits(t);
            assert(-LINE_BOUND <= q * c <= LINE_BOUND) by (nonlinear_arith)
                requires
                    i32::MIN <= q <= i32::MAX,
                    3 <= c <= 20,
            ;
        }
    }

    /// Adds `amount` units of `troop` to the pending purchases; a kind that
    /// had none pending is entered with `amount`. A negative amount is taken
    /// as it is.
    pub fn purchase(&mut self, troop: Troops, amount: i32)
        requires
            old(self).wf(),
            fits_i32(held(old(self)@.pending, troop) + amount),
        ensures
            final(self).wf(),
            final(self)@ == (GameStateView {
                balance: old(self)@.balance,
                pending: purchased(old(self)@.pending, troop, amount as int),
            }),
    {
        proof {
            lemma_slot_bijective();
        }
        let i = troop.index();
        let before: i32 = match self.purchases[i] {
            Some(q) => q,
            None => 0,
        };
        self.purchases[i] = Some(before + amount);
        assert(self@.pending =~= purchased(old(self)@.pending, troop, amount as int));
    }

    /// Takes `amount` units of `troop` off the pending purchases, or all of
    /// them when no amount is given. A kind left with zero or fewer units is
    /// no longer pending.
    pub fn remove(&mut self, troop: Troops, amount: Option<i32>)
        requires
            old(self).wf(),
            fits_i32(removed_quantity(old(self)@.pending, troop, amount)),
        ensures
            final(self).wf(),
            final(self)@ == (GameStateView {
                balance: old(self)@.balance,
                pending: removed(old(self)@.pending, troop, amount),
            }),
    {
        proof {
            lemma_slot_bijective();
        }
        let i = troop.index();
        let left: i32 = match amount {
            Some(a) => {
                let before: i32 = match self.purchases[i] {
                    Some(q) => q,
                    None => 0,
                };
                before - a
            },
            None => 0,
        };
        if left <= 0 {
            self.purchases[i] = None;
        } else {
            self.purchases[i] = Some(left);
        }
        assert(self@.pending =~= removed(old(self)@.pending, troop, amount));
    }

    /// Pays for the pending purchases and starts a new turn with `new_ipc`
    /// more points. When the balance does not cover the purchases, nothing
    /// changes and `false` comes back.
    pub fn commit(&mut self, new_ipc: i32) -> (r: bool)
        requires
            old(self).wf(),
            remaining_of(old(self)@) >= 0 ==> fits_i32(remaining_of(old(self)@) + new_ipc),
        ensures
            final(self).wf(),
            r == (remaining_of(old(self)@) >= 0),
            r ==> final(self)@ == (GameStateView {
                balance: remaining_of(old(self)@) + new_ipc,
                pending: Map::empty(),
            }),
            !r ==> final(self)@ == old(self)@,
    {
        let remaining = self.remaining();
        if remaining >= 0 {
            let mut i: usize = 0;
            while i < TROOP_KINDS
                invariant
                    i <= TROOP_KINDS,
                    self.purchases@.len() == TROOP_KINDS,
                    forall|j: int| 0 <= j < i ==> self.purchases@[j] is None,
                decreases TROOP_KINDS - i,
            {
                self.purchases[i] = None;
                i += 1;
            }
            self.ipc = (remaining + new_ipc as i64) as i32;
            assert(self@.pending =~= Map::empty());
            true
        } else {
            false
        }
    }

    /// The pending purchases as (kind, quantity) entries, in declaration
    /// order, each kind at most once.
    pub fn entries(&self) -> (r: Vec<(Troops, i32)>)
        requires
            self.wf(),
        ensures
            entries_model(r@) == self@.pending,
            keys_distinct(r@),
    {
        proof {
            lemma_slot_bijective();
        }
        let ghost s = self.purchases@;
        let mut r: Vec<(Troops, i32)> = Vec::new();
        let mut i: usize = 0;
        while i < TROOP_KINDS
            invariant
                i <= TROOP_KINDS,
                self.wf(),
                s == self.purchases@,
                entries_model(r@) == slots_model(s).restrict(Set::new(|t: Troops| slot(t) < i)),
                forall|j: int| 0 <= j < r@.len() ==> slot(#[trigger] r@[j].0) < i,
                keys_distinct(r@),
            decreases TROOP_KINDS - i,
        {
            let ghost before = r@;
            if let Some(q) = self.purchases[i] {
                let t = Troops::from_index(i);
                r.push((t, q));
                assert(r@.drop_last() == before);
            }
            i += 1;
            assert(entries_model(r@) =~= slots_model(s).restrict(Set::new(|t: Troops| slot(t) < i)));
        }
        assert(slots_model(s).restrict(Set::new(|t: Troops| slot(t) < TROOP_KINDS)) =~= slots_model(s));
        r
    }

    /// A game state with the given balance whose pending purchases are the
    /// given entries; a later entry for a kind replaces an earlier one.
    pub fn from_entries(ipc: i32, entries: &Vec<(Troops, i32)>) -> (r: GameState)
        ensures
            r.wf(),
            r@ == (GameStateView { balance: ipc as int, pending: entries_model(entries@) }),
    {
        proof {
            lemma_slot_bijective();
        }
        let mut r = GameState::new(ipc);
        let mut k: usize = 0;
        while k < entries.len()
            invariant
                k <= entries@.len(),
                r.wf(),
                r@ == (GameStateView { balance: ipc as int, pending: entries_model(entries@.take(k as int)) }),
            decreases entries@.len() - k,
        {
            let (t, q) = entries[k];
            let i = t.index();
            r.purchases[i] = Some(q);
            assert(entries@.take(k + 1).drop_last() == entries@.take(k as int));
            k += 1;
            assert(r@.pending =~= entries_model(entries@.take(k as int)));
        }
        assert(entries@.take(k as int) == entries@);
        r
    }
}

} // verus!
