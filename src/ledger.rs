use crate::state::{
    entries_model, fits_i32, held, keys_distinct, purchased, remaining_of, removed,
    removed_quantity, total_cost, GameState, GameStateView,
};
use crate::troops::{cost, Troops};
use vstd::prelude::*;

verus! {

/// What the status command shows: each pending line as (kind, quantity,
/// price of one unit), what they cost together, and the balance left after
/// paying for them.
pub struct StatusReport {
    pub lines: Vec<(Troops, i32, i32)>,
    pub total: i64,
    pub remaining: i64,
}

/// The (kind, quantity) part of report lines.
pub open spec fn line_entries(ls: Seq<(Troops, i32, i32)>) -> Seq<(Troops, i32)> {
    ls.map_values(|l: (Troops, i32, i32)| (l.0, l.1))
}

/// The report for a loaded state; nothing when no state could be loaded.
pub fn show_status(state: Option<GameState>) -> (r: Option<StatusReport>)
    requires
        state matches Some(s) ==> s.wf(),
    ensures
        r is Some <==> state is Some,
        state matches Some(s) ==> (r matches Some(rep) && {
            &&& entries_model(line_entries(rep.lines@)) == s@.pending
            &&& keys_distinct(line_entries(rep.lines@))
            &&& forall|j: int|
                0 <= j < rep.lines@.len() ==> #[trigger] rep.lines@[j].2 == cost(rep.lines@[j].0)
            &&& rep.total == total_cost(s@.pending)
            &&& rep.remaining == remaining_of(s@)
        }),
{
    match state {
        None => None,
        Some(s) => {
            let es = s.entries();
            let mut lines: Vec<(Troops, i32, i32)> = Vec::new();
            let mut k: usize = 0;
            while k < es.len()
                invariant
                    k <= es@.len(),
                    lines@.len() == k,
                    forall|j: int| 0 <= j < k ==> #[trigger] lines@[j] == (es@[j].0, es@[j].1, cost(es@[j].0) as i32),
                decreases es@.len() - k,
            {
                let (t, q) = es[k];
                lines.push((t, q, t.get_cost()));
                k += 1;
            }
            assert(line_entries(lines@) =~= es@);
            let total = s.get_total_cost();
            let remaining = s.remaining();
            Some(StatusReport { lines, total, remaining })
        },
    }
}

/// A purchase of `ammount` units of `troop` on a loaded state; nothing to
/// save when no state could be loaded.
pub fn add_purchase(state: Option<GameState>, troop: Troops, ammount: i32) -> (r: Option<GameState>)
    requires
        state matches Some(s) ==> s.wf() && fits_i32(held(s@.pending, troop) + ammount),
    ensures
        r is Some <==> state is Some,
        state matches Some(s) ==> (r matches Some(n) && n.wf() && n@ == (GameStateView {
            balance: s@.balance,
            pending: purchased(s@.pending, troop, ammount as int),
        })),
{
    match state {
        None => None,
        Some(mut s) => {
            s.purchase(troop, ammount);
            Some(s)
        },
    }
}

/// A removal of `ammount` units of `troop`, or of all of them, on a loaded
/// state; nothing to save when no state could be loaded. The result is to be
/// saved even when `troop` was not pending.
pub fn remove_purchase(state: Option<GameState>, troop: Troops, ammount: Option<i32>) -> (r: Option<GameState>)
    requires
        state matches Some(s) ==> s.wf() && fits_i32(removed_quantity(s@.pending, troop, ammount)),
    ensures
        r is Some <==> state is Some,
        state matches Some(s) ==> (r matches Some(n) && n.wf() && n@ == (GameStateView {
            balance: s@.balance,
            pending: removed(s@.pending, troop, ammount),
        })),
{
    match state {
        None => None,
        Some(mut s) => {
            s.remove(troop, ammount);
            Some(s)
        },
    }
}

/// The start of a new turn on a loaded state: when the balance covers the
/// pending purchases they are paid and `new_ipc` is added, and the new state
/// is to be saved. Nothing is to be saved when no state could be loaded or
/// the balance falls short.
pub fn commit_purchase(state: Option<GameState>, new_ipc: i32) -> (r: Option<GameState>)
    requires
        state matches Some(s) ==> s.wf() && (remaining_of(s@) >= 0 ==> fits_i32(remaining_of(s@) + new_ipc)),
    ensures
        r is Some <==> (state matches Some(s) && remaining_of(s@) >= 0),
        state matches Some(s) ==> (r matches Some(n) ==> n.wf() && n@ == (GameStateView {
            balance: remaining_of(s@) + new_ipc,
            pending: Map::empty(),
        })),
{
    match state {
        None => None,
        Some(mut s) => {
            if s.commit(new_ipc) {
                Some(s)
            } else {
                None
            }
        },
    }
}

/// Rebuilding a state from its balance and a list of entries that describes
/// its pending purchases, as `GameState::entries` returns, gives the state back.
pub proof fn law_entries_round_trip(s: GameStateView, es: Seq<(Troops, i32)>)
    requires
        entries_model(es) == s.pending,
    ensures
        (GameStateView { balance: s.balance, pending: entries_model(es) }) == s,
{
}

/// Two purchases of one kind add up to one purchase of their sum.
pub proof fn law_purchase_accumulates(p: Map<Troops, int>, t: Troops, a: int, b: int)
    ensures
        purchased(purchased(p, t, a), t, b) == purchased(p, t, a + b),
{
    assert(purchased(purchased(p, t, a), t, b) =~= purchased(p, t, a + b));
}

/// After a removal, the kind is either no longer pending or pending with a
/// positive quantity; removing all of it always takes it out.
pub proof fn law_remove_leaves_positive(p: Map<Troops, int>, t: Troops, amount: Option<i32>)
    ensures
        !removed(p, t, amount).contains_key(t) || removed(p, t, amount)[t] > 0,
        amount is None ==> !removed(p, t, amount).contains_key(t),
{
}

} // verus!
