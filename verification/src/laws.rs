//! The guarantees the ledger gives across events, each proved once and for
//! all over the specification-level transitions of [`AccountView`].

use vstd::prelude::*;

use crate::account::AccountView;
use crate::account::TransactionHistoryRecord;
use crate::account::TransactionState;
use crate::events::DisputeAction;
use crate::events::Transaction;

verus! {

broadcast use vstd::set::group_set_axioms;

/// A well-formed account stays well-formed under any transaction addressed to
/// it: in particular `held` never goes negative and every balance, and the
/// total `available + held`, stays within bounds.  The account's identity is
/// never touched.
pub proof fn lemma_apply_transaction_preserves_wf(v: AccountView, t: Transaction)
    requires
        v.wf(),
        t.wf(),
        t.spec_client_id() == v.id,
    ensures
        v.apply_transaction(t).wf(),
        v.apply_transaction(t).id == v.id,
{
}

/// A well-formed account stays well-formed under any dispute action addressed
/// to it, and its identity is never touched.
pub proof fn lemma_apply_dispute_action_preserves_wf(v: AccountView, d: DisputeAction)
    requires
        v.wf(),
    ensures
        v.apply_dispute_action(d).wf(),
        v.apply_dispute_action(d).id == v.id,
{
}

/// No dispute transition drives the pools negative: `held` stays
/// non-negative for every well-formed account, and `available` stays
/// non-negative unless the action disputes an accepted deposit for more than
/// the account currently has available (the one way a balance can go
/// negative: the deposited funds were already withdrawn).
pub proof fn lemma_dispute_action_keeps_pools_nonnegative(v: AccountView, d: DisputeAction)
    requires
        v.wf(),
        0 <= v.available,
        ({
            let rid = d.spec_referenced_transaction_id();
            (d is Dispute && v.history.contains_key(rid) && v.history[rid].state
                is Accepted && v.history[rid].transaction is Deposit)
                ==> v.history[rid].transaction.spec_amount()@ <= v.available
        }),
    ensures
        0 <= v.apply_dispute_action(d).available,
        0 <= v.apply_dispute_action(d).held,
{
}

/// Once an account is locked, no transaction moves its balances or unlocks
/// it: the event is only recorded, as rejected.
pub proof fn lemma_locked_account_rejects_transactions(v: AccountView, t: Transaction)
    requires
        v.locked,
    ensures
        v.apply_transaction(t).available == v.available,
        v.apply_transaction(t).held == v.held,
        v.apply_transaction(t).locked,
        v.apply_transaction(t).disputes == v.disputes,
{
}

/// Once an account is locked, every dispute action leaves it entirely
/// unchanged.
pub proof fn lemma_locked_account_ignores_dispute_actions(v: AccountView, d: DisputeAction)
    requires
        v.locked,
    ensures
        v.apply_dispute_action(d) == v,
{
}

/// Applying the same dispute action twice in a row has the effect of applying
/// it once: whatever the first application did (in particular, disputing an
/// accepted transaction), the second is a no-op.
pub proof fn lemma_dispute_action_idempotent(v: AccountView, d: DisputeAction)
    ensures
        v.apply_dispute_action(d).apply_dispute_action(d) == v.apply_dispute_action(d),
{
}

/// A dispute action whose referenced transaction id has no history entry on
/// this account changes nothing at all: balances, lock state, histories.
pub proof fn lemma_unknown_reference_is_noop(v: AccountView, d: DisputeAction)
    requires
        !v.history.contains_key(d.spec_referenced_transaction_id()),
    ensures
        v.apply_dispute_action(d) == v,
{
}

/// The transaction ids of the history's currently disputed deposits: the
/// entries whose amounts the `held` pool is freezing.
pub open spec fn disputed_deposit_keys(h: Map<u32, TransactionHistoryRecord>) -> Set<u32> {
    h.dom().filter(|k: u32| h[k].state is Disputed && h[k].transaction is Deposit)
}

/// The amount of the history entry at `k`, in minor units.
pub open spec fn amount_at(h: Map<u32, TransactionHistoryRecord>, k: u32) -> int {
    h[k].transaction.spec_amount()@
}

/// The sum of the amounts of the entries of `h` at the keys in `s`.
pub open spec fn sum_of_amounts(s: Set<u32>, h: Map<u32, TransactionHistoryRecord>) -> int
    decreases s.len(),
    when s.finite()
{
    if s.len() == 0 {
        0
    } else {
        let k = s.choose();
        amount_at(h, k) + sum_of_amounts(s.remove(k), h)
    }
}

/// `held` freezes exactly the amounts of the open disputes.
pub open spec fn held_covers_disputes(v: AccountView) -> bool {
    v.held == sum_of_amounts(disputed_deposit_keys(v.history), v.history)
}

/// Summing is insensitive to which element is split off first.
proof fn lemma_sum_of_amounts_insert(s: Set<u32>, h: Map<u32, TransactionHistoryRecord>, k: u32)
    requires
        s.finite(),
        !s.contains(k),
    ensures
        sum_of_amounts(s.insert(k), h) == sum_of_amounts(s, h) + amount_at(h, k),
    decreases s.len(),
{
    let t = s.insert(k);
    assert(t.len() == s.len() + 1);
    let c = t.choose();
    assert(t.contains(c));
    if c == k {
        assert(t.remove(c) =~= s);
    } else {
        assert(t.remove(c) =~= s.remove(c).insert(k));
        lemma_sum_of_amounts_insert(s.remove(c), h, k);
        assert(s =~= s.remove(c).insert(c));
        lemma_sum_of_amounts_insert(s.remove(c), h, c);
    }
}

/// Two histories that agree on the amounts at every key of `s` sum alike
/// over `s`.
proof fn lemma_sum_of_amounts_congruent(
    s: Set<u32>,
    h1: Map<u32, TransactionHistoryRecord>,
    h2: Map<u32, TransactionHistoryRecord>,
)
    requires
        s.finite(),
        forall|k: u32| s.contains(k) ==> amount_at(h1, k) == amount_at(h2, k),
    ensures
        sum_of_amounts(s, h1) == sum_of_amounts(s, h2),
    decreases s.len(),
{
    if s.len() != 0 {
        let c = s.choose();
        lemma_sum_of_amounts_congruent(s.remove(c), h1, h2);
    }
}

/// A sum of non-negative amounts is non-negative.
proof fn lemma_sum_of_amounts_nonnegative(s: Set<u32>, h: Map<u32, TransactionHistoryRecord>)
    requires
        s.finite(),
        forall|k: u32| s.contains(k) ==> amount_at(h, k) >= 0,
    ensures
        sum_of_amounts(s, h) >= 0,
    decreases s.len(),
{
    if s.len() != 0 {
        let c = s.choose();
        lemma_sum_of_amounts_nonnegative(s.remove(c), h);
    }
}

/// Each key's amount is bounded by the whole sum, when all amounts are
/// non-negative.
proof fn lemma_sum_of_amounts_member_bound(
    s: Set<u32>,
    h: Map<u32, TransactionHistoryRecord>,
    k: u32,
)
    requires
        s.finite(),
        s.contains(k),
        forall|j: u32| s.contains(j) ==> amount_at(h, j) >= 0,
    ensures
        amount_at(h, k) <= sum_of_amounts(s, h),
{
    assert(s =~= s.remove(k).insert(k));
    lemma_sum_of_amounts_insert(s.remove(k), h, k);
    lemma_sum_of_amounts_nonnegative(s.remove(k), h);
}

/// A fresh account holds nothing and has nothing in dispute.
pub proof fn lemma_initial_held_covers_disputes(id: u16)
    ensures
        held_covers_disputes(AccountView::initial(id)),
{
    assert(disputed_deposit_keys(AccountView::initial(id).history) =~= Set::empty());
}

/// Every transaction keeps `held` equal to the open disputes' amounts: a
/// transaction only ever adds an `Accepted` or `Rejected` entry, which no
/// dispute is freezing.
pub proof fn lemma_apply_transaction_preserves_held_coverage(v: AccountView, t: Transaction)
    requires
        v.history.dom().finite(),
        held_covers_disputes(v),
    ensures
        held_covers_disputes(v.apply_transaction(t)),
{
    let id = t.spec_transaction_id();
    if !v.history.contains_key(id) {
        let w = v.apply_transaction(t);
        assert(disputed_deposit_keys(w.history) =~= disputed_deposit_keys(v.history));
        lemma_sum_of_amounts_congruent(disputed_deposit_keys(v.history), v.history, w.history);
    }
}

/// Every dispute action keeps `held` equal to the open disputes' amounts:
/// disputing an accepted deposit adds its amount to both sides, resolving or
/// charging back a disputed deposit removes it from both, and every other
/// pairing touches neither.
pub proof fn lemma_apply_dispute_action_preserves_held_coverage(v: AccountView, d: DisputeAction)
    requires
        v.history.dom().finite(),
        held_covers_disputes(v),
    ensures
        held_covers_disputes(v.apply_dispute_action(d)),
{
    let rid = d.spec_referenced_transaction_id();
    let h = v.history;
    let keys = disputed_deposit_keys(h);
    let w = v.apply_dispute_action(d);
    if !v.locked && h.contains_key(rid) && w != v {
        let rec = h[rid];
        assert(!keys.contains(rid) ==> forall|k: u32|
            keys.contains(k) ==> amount_at(h, k) == amount_at(w.history, k));
        match (rec.state, d) {
            (TransactionState::Accepted, DisputeAction::Dispute { .. }) => {
                match rec.transaction {
                    Transaction::Deposit { .. } => {
                        assert(disputed_deposit_keys(w.history) =~= keys.insert(rid));
                        lemma_sum_of_amounts_congruent(keys, h, w.history);
                        lemma_sum_of_amounts_insert(keys, w.history, rid);
                    },
                    Transaction::Withdrawal { .. } => {
                        assert(disputed_deposit_keys(w.history) =~= keys);
                        lemma_sum_of_amounts_congruent(keys, h, w.history);
                    },
                }
            },
            (TransactionState::Disputed, DisputeAction::Resolve { .. }) => {
                match rec.transaction {
                    Transaction::Deposit { .. } => {
                        assert(disputed_deposit_keys(w.history) =~= keys.remove(rid));
                        assert(keys =~= keys.remove(rid).insert(rid));
                        lemma_sum_of_amounts_insert(keys.remove(rid), h, rid);
                        lemma_sum_of_amounts_congruent(keys.remove(rid), h, w.history);
                    },
                    Transaction::Withdrawal { .. } => {
                        assert(disputed_deposit_keys(w.history) =~= keys);
                        lemma_sum_of_amounts_congruent(keys, h, w.history);
                    },
                }
            },
            (TransactionState::Disputed, DisputeAction::Chargeback { .. }) => {
                match rec.transaction {
                    Transaction::Deposit { .. } => {
                        assert(disputed_deposit_keys(w.history) =~= keys.remove(rid));
                        assert(keys =~= keys.remove(rid).insert(rid));
                        lemma_sum_of_amounts_insert(keys.remove(rid), h, rid);
                        lemma_sum_of_amounts_congruent(keys.remove(rid), h, w.history);
                    },
                    Transaction::Withdrawal { .. } => {
                        assert(disputed_deposit_keys(w.history) =~= keys);
                        lemma_sum_of_amounts_congruent(keys, h, w.history);
                    },
                }
            },
            _ => {},
        }
    }
}

/// The hold always suffices: on a well-formed account whose `held` covers its
/// open disputes, a disputed deposit's amount never exceeds `held`, so
/// resolving or charging it back is never cut short.
pub proof fn lemma_held_suffices_for_disputed_deposit(v: AccountView, rid: u32)
    requires
        v.wf(),
        v.history.dom().finite(),
        held_covers_disputes(v),
        v.history.contains_key(rid),
        v.history[rid].state is Disputed,
        v.history[rid].transaction is Deposit,
    ensures
        v.history[rid].transaction.spec_amount()@ <= v.held,
{
    let keys = disputed_deposit_keys(v.history);
    assert(keys.contains(rid));
    lemma_sum_of_amounts_member_bound(keys, v.history, rid);
}

} // verus!
