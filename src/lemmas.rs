//! Facts about replaying records, proved over the ledger's model.

use vstd::prelude::*;
use crate::account::{Account, TxKind, TxRecord};
use crate::ledger::{LedgerView, replay};

verus! {

/// A withdrawal never takes `available` below zero: one larger than what is
/// available is rejected outright (nothing changes, nothing is clamped), and
/// one that applies leaves a non-negative `available`.
pub proof fn lemma_withdrawal_never_overdraws(v: LedgerView, r: TxRecord)
    requires
        r.kind == TxKind::Withdrawal,
    ensures
        v.accounts.contains_key(r.client) && v.accounts[r.client].available < r.amount_value()
            ==> v.step(r) == v,
        v.accounts.contains_key(r.client) ==> (v.step(r).accounts[r.client]
            == v.accounts[r.client] || v.step(r).accounts[r.client].available >= 0),
        !v.accounts.contains_key(r.client) ==> v.step(r).accounts[r.client].available == 0,
{
}

/// Replaying one record keeps every account balanced
/// (`total == available + held`) and filed under its own client.
pub proof fn lemma_step_keeps_balance(v: LedgerView, r: TxRecord)
    requires
        v.wf(),
    ensures
        v.step(r).wf(),
{
    let n = v.step(r);
    assert forall|c: u16| #[trigger] n.accounts.contains_key(c) implies n.accounts[c].client == c
        && n.accounts[c].balanced() by {
        if c != r.client {
            assert(v.accounts.contains_key(c));
        }
    }
}

/// After any sequence of records, every account is balanced:
/// `total == available + held`.
pub proof fn lemma_replay_balanced(records: Seq<TxRecord>)
    ensures
        replay(records).wf(),
        forall|c: u16| #[trigger]
            replay(records).accounts.contains_key(c) ==> replay(records).accounts[c].total
                == replay(records).accounts[c].available + replay(records).accounts[c].held,
    decreases records.len(),
{
    if records.len() > 0 {
        lemma_replay_balanced(records.drop_last());
        lemma_step_keeps_balance(replay(records.drop_last()), records.last());
    }
}

/// A resolve or chargeback whose `tx` is absent from the history, or names
/// a record that is not an open dispute, leaves an existing account, and the
/// whole ledger, unchanged.
pub proof fn lemma_stray_resolve_or_chargeback_is_noop(v: LedgerView, r: TxRecord)
    requires
        r.kind == TxKind::Resolve || r.kind == TxKind::Chargeback,
        v.accounts.contains_key(r.client),
        !v.history.contains_key(r.tx) || v.history[r.tx].kind != TxKind::Dispute,
    ensures
        v.step(r) == v,
{
}

/// A locked account rejects deposits and withdrawals: the ledger is left
/// unchanged.
pub proof fn lemma_locked_rejects_deposit_and_withdrawal(v: LedgerView, r: TxRecord)
    requires
        r.kind == TxKind::Deposit || r.kind == TxKind::Withdrawal,
        v.accounts.contains_key(r.client),
        v.accounts[r.client].locked,
    ensures
        v.step(r) == v,
{
}

/// A locked account still takes a chargeback against an open dispute of its
/// own: the disputed amount leaves `held` and `total`, and the account stays
/// locked (as long as the balances stay in the `i64` range).
pub proof fn lemma_locked_accepts_chargeback(v: LedgerView, r: TxRecord)
    requires
        v.wf(),
        r.kind == TxKind::Chargeback,
        v.accounts.contains_key(r.client),
        v.accounts[r.client].locked,
        v.history.contains_key(r.tx),
        v.history[r.tx].kind == TxKind::Dispute,
        v.history[r.tx].client == r.client,
        v.accounts[r.client].can_shift(
            0,
            -v.history[r.tx].amount_value(),
            -v.history[r.tx].amount_value(),
        ),
    ensures
        ({
            let a = v.accounts[r.client];
            let amt = v.history[r.tx].amount_value();
            let n = v.step(r).accounts[r.client];
            &&& n.locked
            &&& n.available == a.available
            &&& n.held == a.held - amt
            &&& n.total == a.total - amt
        }),
{
    let a = v.accounts[r.client];
    let rc = v.history[r.tx];
    assert(v.acting(r) == Some(rc));
}

/// A record of any kind but deposit that names an unknown client opens an
/// empty, unlocked account for it: no funds come from nowhere.
pub proof fn lemma_unknown_client_opens_empty_account(v: LedgerView, r: TxRecord)
    requires
        !v.accounts.contains_key(r.client),
        r.kind != TxKind::Deposit,
    ensures
        v.step(r).accounts[r.client] == (Account {
            client: r.client,
            available: 0,
            held: 0,
            total: 0,
            locked: false,
        }),
{
}

} // verus!
