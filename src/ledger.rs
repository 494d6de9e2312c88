//! The replay engine: per-client accounts and the history of applied records.

use std::collections::HashMap;
use vstd::prelude::*;
use crate::account::{create_new_account, Account, TxKind, TxRecord};
use crate::lemmas::lemma_replay_balanced;

verus! {

broadcast use vstd::std_specs::hash::group_hash_axioms;

/// The mathematical state of a ledger: the accounts by client, and the
/// records applied so far by transaction id.
pub struct LedgerView {
    pub accounts: Map<u16, Account>,
    pub history: Map<u32, TxRecord>,
}

impl LedgerView {
    /// The state before any record has been replayed.
    pub open spec fn empty() -> LedgerView {
        LedgerView { accounts: Map::empty(), history: Map::empty() }
    }

    /// Every account is filed under its own client and is balanced.
    pub open spec fn wf(self) -> bool {
        forall|c: u16| #[trigger]
            self.accounts.contains_key(c) ==> self.accounts[c].client == c
                && self.accounts[c].balanced()
    }

    /// The record an operation acts with: a deposit or withdrawal acts with
    /// itself, a dispute-family record with the record last stored under its
    /// `tx`, if any.
    pub open spec fn acting(self, r: TxRecord) -> Option<TxRecord> {
        if r.kind == TxKind::Deposit || r.kind == TxKind::Withdrawal {
            Some(r)
        } else if self.history.contains_key(r.tx) {
            Some(self.history[r.tx])
        } else {
            None
        }
    }

    /// The state after replaying record `r`.
    ///
    /// A client seen for the first time gets the account `r` opens, and `r`
    /// is stored as it came. Otherwise the operation of `r`'s kind acts with
    /// the acting record; when it applies, the account is updated and `r`,
    /// with the acting record's amount, is stored under its `tx`. A rejected
    /// record changes nothing.
    pub open spec fn step(self, r: TxRecord) -> LedgerView {
        if !self.accounts.contains_key(r.client) {
            LedgerView {
                accounts: self.accounts.insert(r.client, Account::opened_by(r)),
                history: self.history.insert(r.tx, r),
            }
        } else {
            match self.acting(r) {
                None => self,
                Some(rc) => match self.accounts[r.client].apply_spec(r.kind, rc) {
                    Some(a) => LedgerView {
                        accounts: self.accounts.insert(r.client, a),
                        history: self.history.insert(
                            r.tx,
                            TxRecord { client: r.client, tx: r.tx, amount: rc.amount, kind: r.kind },
                        ),
                    },
                    None => self,
                },
            }
        }
    }
}

/// The state after replaying `records` in order from the empty state.
pub open spec fn replay(records: Seq<TxRecord>) -> LedgerView
    decreases records.len(),
{
    if records.len() == 0 {
        LedgerView::empty()
    } else {
        replay(records.drop_last()).step(records.last())
    }
}

/// A ledger: the accounts of the clients seen so far, and the history of
/// records applied, by transaction id.
pub struct Ledger {
    accounts: HashMap<u16, Account>,
    history: HashMap<u32, TxRecord>,
}

impl View for Ledger {
    type V = LedgerView;

    closed spec fn view(&self) -> LedgerView {
        LedgerView { accounts: self.accounts@, history: self.history@ }
    }
}

impl Ledger {
    /// A ledger with no accounts and no history.
    pub fn new() -> (l: Ledger)
        ensures
            l@ == LedgerView::empty(),
    {
        Ledger { accounts: HashMap::new(), history: HashMap::new() }
    }

    /// Replays one record.
    pub fn process(&mut self, record: TxRecord)
        ensures
            final(self)@ == old(self)@.step(record),
    {
        let found: Option<Account> = match self.accounts.get(&record.client) {
            Some(a) => Some(*a),
            None => None,
        };
        match found {
            None => {
                let a = create_new_account(&record);
                self.accounts.insert(record.client, a);
                self.history.insert(record.tx, record);
            },
            Some(a0) => {
                let mut a = a0;
                let acting: Option<TxRecord> = match record.kind {
                    TxKind::Deposit | TxKind::Withdrawal => Some(record),
                    _ => match self.history.get(&record.tx) {
                        Some(h) => Some(*h),
                        None => None,
                    },
                };
                if let Some(rc) = acting {
                    if a.apply(record.kind, &rc) {
                        self.accounts.insert(record.client, a);
                        let stored = TxRecord {
                            client: record.client,
                            tx: record.tx,
                            amount: rc.amount,
                            kind: record.kind,
                        };
                        self.history.insert(record.tx, stored);
                    }
                }
            },
        }
    }

    /// The account of `client`, if the client has been seen.
    pub fn account(&self, client: u16) -> (r: Option<Account>)
        ensures
            r == (if self@.accounts.contains_key(client) {
                Some(self@.accounts[client])
            } else {
                None
            }),
    {
        match self.accounts.get(&client) {
            Some(a) => Some(*a),
            None => None,
        }
    }

    /// Hands out the accounts, keyed by client.
    pub fn into_accounts(self) -> (m: HashMap<u16, Account>)
        ensures
            m@ == self@.accounts,
    {
        self.accounts
    }
}

/// Replays `records` in order and returns the final account of every client
/// they touch. Every account returned is balanced.
pub fn process_records(records: &Vec<TxRecord>) -> (m: HashMap<u16, Account>)
    ensures
        m@ == replay(records@).accounts,
        forall|c: u16| #[trigger] m@.contains_key(c) ==> m@[c].client == c && m@[c].balanced(),
{
    let mut ledger = Ledger::new();
    let mut i: usize = 0;
    while i < records.len()
        invariant
            i <= records@.len(),
            ledger@ == replay(records@.take(i as int)),
        decreases records@.len() - i,
    {
        proof {
            assert(records@.take(i + 1).drop_last() =~= records@.take(i as int));
        }
        ledger.process(records[i]);
        i += 1;
    }
    proof {
        assert(records@.take(i as int) =~= records@);
        lemma_replay_balanced(records@);
    }
    ledger.into_accounts()
}

} // verus!
