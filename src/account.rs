//! Transaction records and the per-client account state machine.

use vstd::prelude::*;

verus! {

/// Number of fixed-point units in one whole unit of currency.
pub const UNITS_PER_WHOLE: i64 = 10000;

/// The kind of an incoming transaction record.
#[derive(Clone, Copy, Debug, PartialEq, Eq, Structural)]
pub enum TxKind {
    Deposit,
    Withdrawal,
    Dispute,
    Resolve,
    Chargeback,
}

/// One transaction record, as it arrives from the input stream.
///
/// Deposits and withdrawals carry an amount; dispute-family records reuse the
/// `tx` of the record they refer to and normally carry none.
#[derive(Clone, Copy, Debug, PartialEq, Eq, Structural)]
pub struct TxRecord {
    pub client: u16,
    pub tx: u32,
    pub amount: Option<i64>,
    pub kind: TxKind,
}

/// The balances of one client.
#[derive(Clone, Copy, Debug, PartialEq, Eq, Structural)]
pub struct Account {
    pub client: u16,
    pub available: i64,
    pub held: i64,
    pub total: i64,
    pub locked: bool,
}

/// Splits a fixed-point amount into its sign (`true` when negative), its
/// whole units and its ten-thousandths, for rendering with four decimals.
pub fn split_fixed(v: i64) -> (r: (bool, u64, u64))
    ensures
        r.0 <==> v < 0,
        r.2 < 10000,
        r.0 ==> v == -(r.1 * 10000 + r.2),
        !r.0 ==> v == r.1 * 10000 + r.2,
{
    let m: u64 = if v < 0 {
        (-(v as i128)) as u64
    } else {
        v as u64
    };
    let whole: u64 = m / 10000;
    let frac: u64 = m % 10000;
    proof {
        assert(m == whole * 10000 + frac) by (nonlinear_arith)
            requires
                whole == m / 10000,
                frac == m % 10000,
        ;
    }
    (v < 0, whole, frac)
}

/// Whether a mathematical integer fits an `i64` balance field.
pub open spec fn fits(x: int) -> bool {
    i64::MIN <= x <= i64::MAX
}

impl TxRecord {
    /// The amount a record acts with: its own amount, or zero when it has none.
    pub open spec fn amount_value(self) -> int {
        match self.amount {
            Some(a) => a as int,
            None => 0,
        }
    }

    /// The amount a record acts with, as an `i64`.
    pub fn amount_or_zero(&self) -> (r: i64)
        ensures
            r as int == self.amount_value(),
    {
        match self.amount {
            Some(a) => a,
            None => 0,
        }
    }
}

impl Account {
    /// The running total equals what is available plus what is held.
    pub open spec fn balanced(self) -> bool {
        self.total == self.available + self.held
    }

    /// The account with `available` and `total` moved by `da` and `dt`, and
    /// `held` by `dh`, the lock flag set to `lock`.
    pub open spec fn shifted(self, da: int, dh: int, dt: int, lock: bool) -> Account {
        Account {
            client: self.client,
            available: (self.available + da) as i64,
            held: (self.held + dh) as i64,
            total: (self.total + dt) as i64,
            locked: lock,
        }
    }

    /// Whether shifting the balances by the given deltas stays in range.
    pub open spec fn can_shift(self, da: int, dh: int, dt: int) -> bool {
        fits(self.available + da) && fits(self.held + dh) && fits(self.total + dt)
    }

    /// The effect of a deposit: `available` and `total` grow by the amount.
    /// `None` when the account is locked, belongs to another client, or a
    /// balance would leave the `i64` range.
    pub open spec fn deposit_spec(self, r: TxRecord) -> Option<Account> {
        let amt = r.amount_value();
        if !self.locked && self.client == r.client && self.can_shift(amt, 0, amt) {
            Some(self.shifted(amt, 0, amt, false))
        } else {
            None
        }
    }

    /// The effect of a withdrawal: `available` and `total` shrink by the
    /// amount. `None` when funds are insufficient, the account is locked or
    /// belongs to another client, or a balance would leave the `i64` range.
    pub open spec fn withdrawal_spec(self, r: TxRecord) -> Option<Account> {
        let amt = r.amount_value();
        if self.available >= amt && !self.locked && self.client == r.client && self.can_shift(
            -amt,
            0,
            -amt,
        ) {
            Some(self.shifted(-amt, 0, -amt, false))
        } else {
            None
        }
    }

    /// The effect of disputing the referenced record `r`: its amount moves
    /// from `available` to `held`. A withdrawal may be disputed whatever the
    /// lock state; a deposit only while the account is unlocked.
    pub open spec fn dispute_spec(self, r: TxRecord) -> Option<Account> {
        let amt = r.amount_value();
        if self.client == r.client && (r.kind == TxKind::Withdrawal || (r.kind == TxKind::Deposit
            && !self.locked)) && self.can_shift(-amt, amt, 0) {
            Some(self.shifted(-amt, amt, 0, self.locked))
        } else {
            None
        }
    }

    /// The effect of resolving the referenced record `r`, which must be an
    /// open dispute: its amount moves back from `held` to `available`.
    pub open spec fn resolve_spec(self, r: TxRecord) -> Option<Account> {
        let amt = r.amount_value();
        if r.kind == TxKind::Dispute && !self.locked && self.client == r.client && self.can_shift(
            amt,
            -amt,
            0,
        ) {
            Some(self.shifted(amt, -amt, 0, false))
        } else {
            None
        }
    }

    /// The effect of charging back the referenced record `r`, which must be
    /// an open dispute: its amount leaves `held` and `total`, and the account
    /// is locked. The lock state is no precondition.
    pub open spec fn chargeback_spec(self, r: TxRecord) -> Option<Account> {
        let amt = r.amount_value();
        if r.kind == TxKind::Dispute && self.client == r.client && self.can_shift(0, -amt, -amt) {
            Some(self.shifted(0, -amt, -amt, true))
        } else {
            None
        }
    }

    /// The effect of the operation named by `kind`, acting with record `r`.
    pub open spec fn apply_spec(self, kind: TxKind, r: TxRecord) -> Option<Account> {
        match kind {
            TxKind::Deposit => self.deposit_spec(r),
            TxKind::Withdrawal => self.withdrawal_spec(r),
            TxKind::Dispute => self.dispute_spec(r),
            TxKind::Resolve => self.resolve_spec(r),
            TxKind::Chargeback => self.chargeback_spec(r),
        }
    }

    /// `after` and `ok` are what an operation with effect `res` leaves: the
    /// new account and `true` when it applies, the account unchanged and
    /// `false` when it is rejected.
    pub open spec fn outcome(self, res: Option<Account>, ok: bool, after: Account) -> bool {
        match res {
            Some(a) => ok && after == a,
            None => !ok && after == self,
        }
    }

    /// Adds a deposit's amount to `available` and `total`.
    pub fn deposit(&mut self, record: &TxRecord) -> (ok: bool)
        ensures
            old(self).outcome(old(self).deposit_spec(*record), ok, *final(self)),
    {
        if self.locked || self.client != record.client {
            return false;
        }
        let amt = record.amount_or_zero();
        match (self.available.checked_add(amt), self.total.checked_add(amt)) {
            (Some(av), Some(tot)) => {
                self.available = av;
                self.total = tot;
                true
            },
            _ => false,
        }
    }

    /// Takes a withdrawal's amount from `available` and `total`; a withdrawal
    /// larger than what is available is rejected.
    pub fn withdrawal(&mut self, record: &TxRecord) -> (ok: bool)
        ensures
            old(self).outcome(old(self).withdrawal_spec(*record), ok, *final(self)),
    {
        let amt = record.amount_or_zero();
        if self.available < amt || self.locked || self.client != record.client {
            return false;
        }
        match (self.available.checked_sub(amt), self.total.checked_sub(amt)) {
            (Some(av), Some(tot)) => {
                self.available = av;
                self.total = tot;
                true
            },
            _ => false,
        }
    }

    /// Holds the amount of the disputed record `record`.
    pub fn dispute(&mut self, record: &TxRecord) -> (ok: bool)
        ensures
            old(self).outcome(old(self).dispute_spec(*record), ok, *final(self)),
    {
        let kind_ok = match record.kind {
            TxKind::Withdrawal => true,
            TxKind::Deposit => !self.locked,
            _ => false,
        };
        if !kind_ok || self.client != record.client {
            return false;
        }
        let amt = record.amount_or_zero();
        match (self.available.checked_sub(amt), self.held.checked_add(amt)) {
            (Some(av), Some(h)) => {
                self.available = av;
                self.held = h;
                true
            },
            _ => false,
        }
    }

    /// Releases the hold of the open dispute `record`.
    pub fn resolve(&mut self, record: &TxRecord) -> (ok: bool)
        ensures
            old(self).outcome(old(self).resolve_spec(*record), ok, *final(self)),
    {
        if record.kind != TxKind::Dispute || self.locked || self.client != record.client {
            return false;
        }
        let amt = record.amount_or_zero();
        match (self.available.checked_add(amt), self.held.checked_sub(amt)) {
            (Some(av), Some(h)) => {
                self.available = av;
                self.held = h;
                true
            },
            _ => false,
        }
    }

    /// Removes the held amount of the open dispute `record` and locks the
    /// account.
    pub fn chargeback(&mut self, record: &TxRecord) -> (ok: bool)
        ensures
            old(self).outcome(old(self).chargeback_spec(*record), ok, *final(self)),
    {
        if record.kind != TxKind::Dispute || self.client != record.client {
            return false;
        }
        let amt = record.amount_or_zero();
        match (self.held.checked_sub(amt), self.total.checked_sub(amt)) {
            (Some(h), Some(tot)) => {
                self.held = h;
                self.total = tot;
                self.locked = true;
                true
            },
            _ => false,
        }
    }

    /// Applies the operation named by `kind`, acting with record `record`.
    pub fn apply(&mut self, kind: TxKind, record: &TxRecord) -> (ok: bool)
        ensures
            old(self).outcome(old(self).apply_spec(kind, *record), ok, *final(self)),
    {
        match kind {
            TxKind::Deposit => self.deposit(record),
            TxKind::Withdrawal => self.withdrawal(record),
            TxKind::Dispute => self.dispute(record),
            TxKind::Resolve => self.resolve(record),
            TxKind::Chargeback => self.chargeback(record),
        }
    }

    /// The account a record opens for a client seen for the first time: a
    /// deposit funds it with its amount, any other record leaves it empty.
    pub open spec fn opened_by(r: TxRecord) -> Account {
        let start = if r.kind == TxKind::Deposit {
            r.amount_value()
        } else {
            0
        };
        Account {
            client: r.client,
            available: start as i64,
            held: 0,
            total: start as i64,
            locked: false,
        }
    }
}

/// The account `opened_by` a record for a client seen for the first time.
pub fn create_new_account(record: &TxRecord) -> (a: Account)
    ensures
        a == Account::opened_by(*record),
        a.balanced(),
{
    let start: i64 = match record.kind {
        TxKind::Deposit => record.amount_or_zero(),
        _ => 0,
    };
    Account { client: record.client, available: start, held: 0, total: start, locked: false }
}

} // verus!
