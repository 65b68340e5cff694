//! The balance projection rows and how each monetary operation changes them.
//!
//! A `BalanceTable` holds the `balance_projection` rows that one operation touches, as read
//! inside its database transaction. Each update below is the conditional `UPDATE` of that
//! row: it fails when the row is missing or its condition does not hold.
use vstd::prelude::*;

use crate::bookkeeping::{build_double_entry, key_sum, EntrySpec};
use crate::domain::{AccountId, AmountMinor, Currency, EntryDirection};
use crate::error::{AppError, AppResult};

verus! {

/// One `balance_projection` row.
#[derive(Debug)]
pub struct BalanceRow {
    pub account_id: AccountId,
    pub currency: Currency,
    pub available_minor: i64,
    pub hold_minor: i64,
}

/// The balance rows that an operation reads and writes.
#[derive(Debug)]
pub struct BalanceTable {
    pub rows: Vec<BalanceRow>,
}

// ------------------------ specification ------------------------

/// The row concerns the given account and currency.
pub open spec fn row_is(r: BalanceRow, a: AccountId, c: Seq<char>) -> bool {
    r.account_id == a && r.currency@ == c
}

/// Index of the first row of (`a`, `c`), or `rows.len()` when there is none.
pub open spec fn row_pos(rows: Seq<BalanceRow>, a: AccountId, c: Seq<char>) -> int
    decreases rows.len(),
{
    if rows.len() == 0 {
        0
    } else if row_is(rows[0], a, c) {
        0
    } else {
        1 + row_pos(rows.drop_first(), a, c)
    }
}

/// The row with new available and hold amounts.
pub open spec fn with_amounts(r: BalanceRow, available: int, hold: int) -> BalanceRow {
    BalanceRow {
        account_id: r.account_id,
        currency: r.currency,
        available_minor: available as i64,
        hold_minor: hold as i64,
    }
}

/// The value fits in an `i64`.
pub open spec fn fits_i64(v: int) -> bool {
    i64::MIN <= v <= i64::MAX
}

/// Total (available + hold) of the row of (`a`, `c`); 0 when there is no such row.
pub open spec fn row_total(rows: Seq<BalanceRow>, a: AccountId, c: Seq<char>) -> int {
    let i = row_pos(rows, a, c);
    if i < rows.len() {
        rows[i].available_minor + rows[i].hold_minor
    } else {
        0
    }
}

/// Available amount of the row of (`a`, `c`); 0 when there is no such row.
pub open spec fn available_of(rows: Seq<BalanceRow>, a: AccountId, c: Seq<char>) -> int {
    let i = row_pos(rows, a, c);
    if i < rows.len() {
        rows[i].available_minor as int
    } else {
        0
    }
}

/// Held amount of the row of (`a`, `c`); 0 when there is no such row.
pub open spec fn hold_of(rows: Seq<BalanceRow>, a: AccountId, c: Seq<char>) -> int {
    let i = row_pos(rows, a, c);
    if i < rows.len() {
        rows[i].hold_minor as int
    } else {
        0
    }
}

/// Total (available + hold) of all rows in currency `c`.
pub open spec fn currency_total(rows: Seq<BalanceRow>, c: Seq<char>) -> int
    decreases rows.len(),
{
    if rows.len() == 0 {
        0
    } else {
        currency_total(rows.drop_last(), c) + if rows.last().currency@ == c {
            rows.last().available_minor + rows.last().hold_minor
        } else {
            0
        }
    }
}

/// `SET available = available - amount WHERE available >= amount`; no such row, or too little
/// available, is a conflict (insufficient funds).
pub open spec fn spec_debit_available_checked(
    rows: Seq<BalanceRow>,
    a: AccountId,
    c: Seq<char>,
    amount: int,
) -> AppResult<Seq<BalanceRow>> {
    let i = row_pos(rows, a, c);
    if i < rows.len() && rows[i].available_minor >= amount {
        Ok(rows.update(i, with_amounts(rows[i], rows[i].available_minor - amount, rows[i].hold_minor as int)))
    } else {
        Err(AppError::Conflict("insufficient funds"))
    }
}

/// `SET available = available - amount`; the row must exist.
pub open spec fn spec_debit_available(
    rows: Seq<BalanceRow>,
    a: AccountId,
    c: Seq<char>,
    amount: int,
) -> AppResult<Seq<BalanceRow>> {
    let i = row_pos(rows, a, c);
    if i >= rows.len() {
        Err(AppError::Internal("projection row missing"))
    } else if !fits_i64(rows[i].available_minor - amount) {
        Err(AppError::Internal("balance overflow"))
    } else {
        Ok(rows.update(i, with_amounts(rows[i], rows[i].available_minor - amount, rows[i].hold_minor as int)))
    }
}

/// `SET available = available + amount`; the row must exist.
pub open spec fn spec_credit_available(
    rows: Seq<BalanceRow>,
    a: AccountId,
    c: Seq<char>,
    amount: int,
) -> AppResult<Seq<BalanceRow>> {
    let i = row_pos(rows, a, c);
    if i >= rows.len() {
        Err(AppError::Internal("projection row missing"))
    } else if !fits_i64(rows[i].available_minor + amount) {
        Err(AppError::Internal("balance overflow"))
    } else {
        Ok(rows.update(i, with_amounts(rows[i], rows[i].available_minor + amount, rows[i].hold_minor as int)))
    }
}

/// `SET available = available - amount, hold = hold + amount WHERE available >= amount`.
pub open spec fn spec_move_available_to_hold_checked(
    rows: Seq<BalanceRow>,
    a: AccountId,
    c: Seq<char>,
    amount: int,
) -> AppResult<Seq<BalanceRow>> {
    let i = row_pos(rows, a, c);
    if !(i < rows.len() && rows[i].available_minor >= amount) {
        Err(AppError::Conflict("insufficient funds"))
    } else if !fits_i64(rows[i].hold_minor + amount) {
        Err(AppError::Internal("balance overflow"))
    } else {
        Ok(rows.update(i, with_amounts(rows[i], rows[i].available_minor - amount, rows[i].hold_minor + amount)))
    }
}

/// `SET hold = hold - amount, available = available + amount WHERE hold >= amount`.
pub open spec fn spec_release_hold_to_available_checked(
    rows: Seq<BalanceRow>,
    a: AccountId,
    c: Seq<char>,
    amount: int,
) -> AppResult<Seq<BalanceRow>> {
    let i = row_pos(rows, a, c);
    if !(i < rows.len() && rows[i].hold_minor >= amount) {
        Err(AppError::Conflict("hold is smaller than amount"))
    } else if !fits_i64(rows[i].available_minor + amount) {
        Err(AppError::Internal("balance overflow"))
    } else {
        Ok(rows.update(i, with_amounts(rows[i], rows[i].available_minor + amount, rows[i].hold_minor - amount)))
    }
}

/// `SET hold = hold - amount WHERE hold >= amount`.
pub open spec fn spec_debit_hold_checked(
    rows: Seq<BalanceRow>,
    a: AccountId,
    c: Seq<char>,
    amount: int,
) -> AppResult<Seq<BalanceRow>> {
    let i = row_pos(rows, a, c);
    if i < rows.len() && rows[i].hold_minor >= amount {
        Ok(rows.update(i, with_amounts(rows[i], rows[i].available_minor as int, rows[i].hold_minor - amount)))
    } else {
        Err(AppError::Conflict("hold is smaller than amount"))
    }
}

/// The entries of a double-entry operation.
pub open spec fn double_entry(
    debit: AccountId,
    credit: AccountId,
    currency: Currency,
    amount: AmountMinor,
) -> Seq<EntrySpec> {
    seq![
        EntrySpec { account_id: debit, currency, direction: EntryDirection::Debit, amount_minor: amount },
        EntrySpec { account_id: credit, currency, direction: EntryDirection::Credit, amount_minor: amount },
    ]
}

/// A top-up (or refund) posting: the system cash account is debited, the user credited.
pub open spec fn spec_post_from_system(
    rows: Seq<BalanceRow>,
    system_cash: AccountId,
    user: AccountId,
    c: Seq<char>,
    amount: int,
) -> AppResult<Seq<BalanceRow>> {
    match spec_debit_available(rows, system_cash, c, amount) {
        Ok(r1) => spec_credit_available(r1, user, c, amount),
        Err(e) => Err(e),
    }
}

/// A transfer posting: the sender must have the amount available.
pub open spec fn spec_post_transfer(
    rows: Seq<BalanceRow>,
    from: AccountId,
    to: AccountId,
    c: Seq<char>,
    amount: int,
) -> AppResult<Seq<BalanceRow>> {
    match spec_debit_available_checked(rows, from, c, amount) {
        Ok(r1) => spec_credit_available(r1, to, c, amount),
        Err(e) => Err(e),
    }
}

/// A hold capture posting: the user's hold is spent and credited to the system cash account.
pub open spec fn spec_post_capture(
    rows: Seq<BalanceRow>,
    user: AccountId,
    system_cash: AccountId,
    c: Seq<char>,
    amount: int,
) -> AppResult<Seq<BalanceRow>> {
    match spec_debit_hold_checked(rows, user, c, amount) {
        Ok(r1) => spec_credit_available(r1, system_cash, c, amount),
        Err(e) => Err(e),
    }
}

// ------------------------ executable ------------------------

impl BalanceTable {
    /// Index of the first row of the account and currency, if any.
    pub fn find_row(&self, account_id: AccountId, currency: &Currency) -> (r: Option<usize>)
        ensures
            match r {
                Some(i) => i == row_pos(self.rows@, account_id, currency@) && i < self.rows@.len(),
                None => row_pos(self.rows@, account_id, currency@) == self.rows@.len(),
            },
    {
        let n = self.rows.len();
        let mut j: usize = 0;
        while j < n && !(self.rows[j].account_id == account_id && self.rows[j].currency.same_as(currency))
            invariant
                n == self.rows@.len(),
                j <= n,
                forall|k: int| 0 <= k < j ==> !row_is(#[trigger] self.rows@[k], account_id, currency@),
            decreases n - j,
        {
            j = j + 1;
        }
        proof {
            lemma_row_pos(self.rows@, account_id, currency@, j as int);
        }
        if j < n {
            Some(j)
        } else {
            None
        }
    }

    pub fn debit_available_checked(
        &mut self,
        account_id: AccountId,
        currency: &Currency,
        amount: AmountMinor,
    ) -> (r: AppResult<()>)
        ensures
            match spec_debit_available_checked(old(self).rows@, account_id, currency@, amount@ as int) {
                Ok(rows) => r is Ok && final(self).rows@ == rows,
                Err(e) => r == Err::<(), AppError>(e) && final(self).rows@ == old(self).rows@,
            },
    {
        let amt = amount.as_i64();
        match self.find_row(account_id, currency) {
            Some(i) => {
                if self.rows[i].available_minor >= amt {
                    let v = self.rows[i].available_minor - amt;
                    self.rows[i].available_minor = v;
                    Ok(())
                } else {
                    Err(AppError::Conflict("insufficient funds"))
                }
            },
            None => Err(AppError::Conflict("insufficient funds")),
        }
    }

    pub fn debit_available(
        &mut self,
        account_id: AccountId,
        currency: &Currency,
        amount: AmountMinor,
    ) -> (r: AppResult<()>)
        ensures
            match spec_debit_available(old(self).rows@, account_id, currency@, amount@ as int) {
                Ok(rows) => r is Ok && final(self).rows@ == rows,
                Err(e) => r == Err::<(), AppError>(e) && final(self).rows@ == old(self).rows@,
            },
    {
        let amt = amount.as_i64();
        match self.find_row(account_id, currency) {
            Some(i) => match self.rows[i].available_minor.checked_sub(amt) {
                Some(v) => {
                    self.rows[i].available_minor = v;
                    Ok(())
                },
                None => Err(AppError::Internal("balance overflow")),
            },
            None => Err(AppError::Internal("projection row missing")),
        }
    }

    pub fn credit_available(
        &mut self,
        account_id: AccountId,
        currency: &Currency,
        amount: AmountMinor,
    ) -> (r: AppResult<()>)
        ensures
            match spec_credit_available(old(self).rows@, account_id, currency@, amount@ as int) {
                Ok(rows) => r is Ok && final(self).rows@ == rows,
                Err(e) => r == Err::<(), AppError>(e) && final(self).rows@ == old(self).rows@,
            },
    {
        let amt = amount.as_i64();
        match self.find_row(account_id, currency) {
            Some(i) => match self.rows[i].available_minor.checked_add(amt) {
                Some(v) => {
                    self.rows[i].available_minor = v;
                    Ok(())
                },
                None => Err(AppError::Internal("balance overflow")),
            },
            None => Err(AppError::Internal("projection row missing")),
        }
    }

    pub fn move_available_to_hold_checked(
        &mut self,
        account_id: AccountId,
        currency: &Currency,
        amount: AmountMinor,
    ) -> (r: AppResult<()>)
        ensures
            match spec_move_available_to_hold_checked(old(self).rows@, account_id, currency@, amount@ as int) {
                Ok(rows) => r is Ok && final(self).rows@ == rows,
                Err(e) => r == Err::<(), AppError>(e) && final(self).rows@ == old(self).rows@,
            },
    {
        let amt = amount.as_i64();
        match self.find_row(account_id, currency) {
            Some(i) => {
                if self.rows[i].available_minor < amt {
                    return Err(AppError::Conflict("insufficient funds"));
                }
                match self.rows[i].hold_minor.checked_add(amt) {
                    Some(h) => {
                        let v = self.rows[i].available_minor - amt;
                        self.rows[i].available_minor = v;
                        self.rows[i].hold_minor = h;
                        Ok(())
                    },
                    None => Err(AppError::Internal("balance overflow")),
                }
            },
            None => Err(AppError::Conflict("insufficient funds")),
        }
    }

    pub fn release_hold_to_available_checked(
        &mut self,
        account_id: AccountId,
        currency: &Currency,
        amount: AmountMinor,
    ) -> (r: AppResult<()>)
        ensures
            match spec_release_hold_to_available_checked(old(self).rows@, account_id, currency@, amount@ as int) {
                Ok(rows) => r is Ok && final(self).rows@ == rows,
                Err(e) => r == Err::<(), AppError>(e) && final(self).rows@ == old(self).rows@,
            },
    {
        let amt = amount.as_i64();
        match self.find_row(account_id, currency) {
            Some(i) => {
                if self.rows[i].hold_minor < amt {
                    return Err(AppError::Conflict("hold is smaller than amount"));
                }
                match self.rows[i].available_minor.checked_add(amt) {
                    Some(v) => {
                        let h = self.rows[i].hold_minor - amt;
                        self.rows[i].hold_minor = h;
                        self.rows[i].available_minor = v;
                        Ok(())
                    },
                    None => Err(AppError::Internal("balance overflow")),
                }
            },
            None => Err(AppError::Conflict("hold is smaller than amount")),
        }
    }

    pub fn debit_hold_checked(
        &mut self,
        account_id: AccountId,
        currency: &Currency,
        amount: AmountMinor,
    ) -> (r: AppResult<()>)
        ensures
            match spec_debit_hold_checked(old(self).rows@, account_id, currency@, amount@ as int) {
                Ok(rows) => r is Ok && final(self).rows@ == rows,
                Err(e) => r == Err::<(), AppError>(e) && final(self).rows@ == old(self).rows@,
            },
    {
        let amt = amount.as_i64();
        match self.find_row(account_id, currency) {
            Some(i) => {
                if self.rows[i].hold_minor >= amt {
                    let h = self.rows[i].hold_minor - amt;
                    self.rows[i].hold_minor = h;
                    Ok(())
                } else {
                    Err(AppError::Conflict("hold is smaller than amount"))
                }
            },
            None => Err(AppError::Conflict("hold is smaller than amount")),
        }
    }
    /// Gives back to the row of the account and currency the amount that one update took
    /// from its available balance, restoring the rows as they were before that update.
    fn undo_available_change(&mut self, account_id: AccountId, currency: &Currency, amt: i64, Ghost(before): Ghost<Seq<BalanceRow>>)
        requires
            ({
                let i = row_pos(before, account_id, currency@);
                &&& i < before.len()
                &&& fits_i64(before[i].available_minor - amt)
                &&& old(self).rows@ == before.update(
                    i,
                    with_amounts(before[i], before[i].available_minor - amt, before[i].hold_minor as int),
                )
            }),
        ensures
            final(self).rows@ == before,
    {
        proof {
            lemma_row_pos_update_same(before, account_id, currency@, before[row_pos(before, account_id, currency@)].available_minor - amt, before[row_pos(before, account_id, currency@)].hold_minor as int);
        }
        let i = self.find_row(account_id, currency).unwrap();
        let v = self.rows[i].available_minor + amt;
        self.rows[i].available_minor = v;
        proof {
            assert(self.rows@[i as int] == before[i as int]);
            assert(self.rows@ =~= before);
        }
    }

    /// Gives back to the row of the account and currency the amount that one update took
    /// from its hold, restoring the rows as they were before that update.
    fn undo_hold_debit(&mut self, account_id: AccountId, currency: &Currency, amt: i64, Ghost(before): Ghost<Seq<BalanceRow>>)
        requires
            ({
                let i = row_pos(before, account_id, currency@);
                &&& i < before.len()
                &&& fits_i64(before[i].hold_minor - amt)
                &&& old(self).rows@ == before.update(
                    i,
                    with_amounts(before[i], before[i].available_minor as int, before[i].hold_minor - amt),
                )
            }),
        ensures
            final(self).rows@ == before,
    {
        proof {
            lemma_row_pos_update_same(before, account_id, currency@, before[row_pos(before, account_id, currency@)].available_minor as int, before[row_pos(before, account_id, currency@)].hold_minor - amt);
        }
        let i = self.find_row(account_id, currency).unwrap();
        let h = self.rows[i].hold_minor + amt;
        self.rows[i].hold_minor = h;
        proof {
            assert(self.rows@[i as int] == before[i as int]);
            assert(self.rows@ =~= before);
        }
    }
}

/// Changing the amounts of the row of (`a`, `c`) leaves that row the first one of (`a`, `c`).
proof fn lemma_row_pos_update_same(rows: Seq<BalanceRow>, a: AccountId, c: Seq<char>, available: int, hold: int)
    requires
        row_pos(rows, a, c) < rows.len(),
    ensures
        row_pos(rows.update(row_pos(rows, a, c), with_amounts(rows[row_pos(rows, a, c)], available, hold)), a, c)
            == row_pos(rows, a, c),
{
    let i = row_pos(rows, a, c);
    let u = rows.update(i, with_amounts(rows[i], available, hold));
    lemma_row_pos_props(rows, a, c);
    assert forall|k: int| 0 <= k < i implies !row_is(#[trigger] u[k], a, c) by {
        assert(u[k] == rows[k]);
    }
    lemma_row_pos(u, a, c, i);
}

proof fn lemma_row_pos(rows: Seq<BalanceRow>, a: AccountId, c: Seq<char>, j: int)
    requires
        0 <= j <= rows.len(),
        forall|k: int| 0 <= k < j ==> !row_is(#[trigger] rows[k], a, c),
        j < rows.len() ==> row_is(rows[j], a, c),
    ensures
        row_pos(rows, a, c) == j,
    decreases j,
{
    if j > 0 {
        let t = rows.drop_first();
        assert forall|k: int| 0 <= k < j - 1 implies !row_is(#[trigger] t[k], a, c) by {
            assert(t[k] == rows[k + 1]);
        }
        if j - 1 < t.len() {
            assert(t[j - 1] == rows[j]);
        }
        lemma_row_pos(t, a, c, j - 1);
    }
}

/// Posts a top-up: debits the system cash account and credits the user, in the currency.
/// Returns the two ledger entries to record.
pub fn post_topup(
    table: &mut BalanceTable,
    system_cash_id: AccountId,
    user_account_id: AccountId,
    currency: &Currency,
    amount: AmountMinor,
) -> (r: AppResult<[EntrySpec; 2]>)
    ensures
        match spec_post_from_system(old(table).rows@, system_cash_id, user_account_id, currency@, amount@ as int) {
            Ok(rows) => r matches Ok(es) && es@ == double_entry(system_cash_id, user_account_id, *currency, amount)
                && final(table).rows@ == rows,
            Err(e) => r matches Err(re) && re == e && final(table).rows@ == old(table).rows@,
        },
{
    let entries = build_double_entry(system_cash_id, user_account_id, currency, amount);
    let ghost before = table.rows@;
    table.debit_available(system_cash_id, currency, amount)?;
    match table.credit_available(user_account_id, currency, amount) {
        Ok(()) => Ok(entries),
        Err(e) => {
            table.undo_available_change(system_cash_id, currency, amount.as_i64(), Ghost(before));
            Err(e)
        },
    }
}

/// Posts a refund of a captured payment: debits the system cash account and credits the user.
/// Returns the two ledger entries to record.
pub fn post_refund(
    table: &mut BalanceTable,
    system_cash_id: AccountId,
    user_account_id: AccountId,
    currency: &Currency,
    amount: AmountMinor,
) -> (r: AppResult<[EntrySpec; 2]>)
    ensures
        match spec_post_from_system(old(table).rows@, system_cash_id, user_account_id, currency@, amount@ as int) {
            Ok(rows) => r matches Ok(es) && es@ == double_entry(system_cash_id, user_account_id, *currency, amount)
                && final(table).rows@ == rows,
            Err(e) => r matches Err(re) && re == e && final(table).rows@ == old(table).rows@,
        },
{
    post_topup(table, system_cash_id, user_account_id, currency, amount)
}

/// Posts a transfer: the sender must have the amount available; debits the sender and
/// credits the receiver. Returns the two ledger entries to record.
pub fn post_transfer(
    table: &mut BalanceTable,
    from_account_id: AccountId,
    to_account_id: AccountId,
    currency: &Currency,
    amount: AmountMinor,
) -> (r: AppResult<[EntrySpec; 2]>)
    ensures
        match spec_post_transfer(old(table).rows@, from_account_id, to_account_id, currency@, amount@ as int) {
            Ok(rows) => r matches Ok(es) && es@ == double_entry(from_account_id, to_account_id, *currency, amount)
                && final(table).rows@ == rows,
            Err(e) => r matches Err(re) && re == e && final(table).rows@ == old(table).rows@,
        },
{
    let entries = build_double_entry(from_account_id, to_account_id, currency, amount);
    let ghost before = table.rows@;
    table.debit_available_checked(from_account_id, currency, amount)?;
    match table.credit_available(to_account_id, currency, amount) {
        Ok(()) => Ok(entries),
        Err(e) => {
            table.undo_available_change(from_account_id, currency, amount.as_i64(), Ghost(before));
            Err(e)
        },
    }
}

/// Authorizes a hold: moves the amount from the user's available balance to the hold.
/// No ledger entries are posted.
pub fn post_hold_authorize(
    table: &mut BalanceTable,
    user_account_id: AccountId,
    currency: &Currency,
    amount: AmountMinor,
) -> (r: AppResult<()>)
    ensures
        match spec_move_available_to_hold_checked(old(table).rows@, user_account_id, currency@, amount@ as int) {
            Ok(rows) => r is Ok && final(table).rows@ == rows,
            Err(e) => r == Err::<(), AppError>(e) && final(table).rows@ == old(table).rows@,
        },
{
    table.move_available_to_hold_checked(user_account_id, currency, amount)
}

/// Cancels a hold: moves the amount back from the user's hold to the available balance.
/// No ledger entries are posted.
pub fn post_hold_cancel(
    table: &mut BalanceTable,
    user_account_id: AccountId,
    currency: &Currency,
    amount: AmountMinor,
) -> (r: AppResult<()>)
    ensures
        match spec_release_hold_to_available_checked(old(table).rows@, user_account_id, currency@, amount@ as int) {
            Ok(rows) => r is Ok && final(table).rows@ == rows,
            Err(e) => r == Err::<(), AppError>(e) && final(table).rows@ == old(table).rows@,
        },
{
    table.release_hold_to_available_checked(user_account_id, currency, amount)
}

/// Captures a hold: spends the user's hold and credits the system cash account.
/// Returns the two ledger entries to record (user debit, system credit).
pub fn post_hold_capture(
    table: &mut BalanceTable,
    user_account_id: AccountId,
    system_cash_id: AccountId,
    currency: &Currency,
    amount: AmountMinor,
) -> (r: AppResult<[EntrySpec; 2]>)
    ensures
        match spec_post_capture(old(table).rows@, user_account_id, system_cash_id, currency@, amount@ as int) {
            Ok(rows) => r matches Ok(es) && es@ == double_entry(user_account_id, system_cash_id, *currency, amount)
                && final(table).rows@ == rows,
            Err(e) => r matches Err(re) && re == e && final(table).rows@ == old(table).rows@,
        },
{
    let ghost before = table.rows@;
    table.debit_hold_checked(user_account_id, currency, amount)?;
    let entries = build_double_entry(user_account_id, system_cash_id, currency, amount);
    match table.credit_available(system_cash_id, currency, amount) {
        Ok(()) => Ok(entries),
        Err(e) => {
            table.undo_hold_debit(user_account_id, currency, amount.as_i64(), Ghost(before));
            Err(e)
        },
    }
}

// ------------------------ laws ------------------------

/// What a row contributes to the total of currency `c`.
pub open spec fn currency_part(r: BalanceRow, c: Seq<char>) -> int {
    if r.currency@ == c {
        r.available_minor + r.hold_minor
    } else {
        0
    }
}

proof fn lemma_row_pos_props(rows: Seq<BalanceRow>, a: AccountId, c: Seq<char>)
    ensures
        0 <= row_pos(rows, a, c) <= rows.len(),
        row_pos(rows, a, c) < rows.len() ==> row_is(rows[row_pos(rows, a, c)], a, c),
        forall|k: int| 0 <= k < row_pos(rows, a, c) ==> !row_is(#[trigger] rows[k], a, c),
    decreases rows.len(),
{
    if rows.len() > 0 && !row_is(rows[0], a, c) {
        let t = rows.drop_first();
        lemma_row_pos_props(t, a, c);
        assert forall|k: int| 0 <= k < row_pos(rows, a, c) implies !row_is(#[trigger] rows[k], a, c) by {
            if k > 0 {
                assert(rows[k] == t[k - 1]);
            }
        }
    }
}

/// Replacing a row by one of the same account and currency does not move any lookup.
proof fn lemma_row_pos_update(rows: Seq<BalanceRow>, i: int, nr: BalanceRow, a: AccountId, c: Seq<char>)
    requires
        0 <= i < rows.len(),
        nr.account_id == rows[i].account_id,
        nr.currency@ == rows[i].currency@,
    ensures
        row_pos(rows.update(i, nr), a, c) == row_pos(rows, a, c),
{
    let u = rows.update(i, nr);
    lemma_row_pos_props(rows, a, c);
    let p = row_pos(rows, a, c);
    assert forall|k: int| 0 <= k < p implies !row_is(#[trigger] u[k], a, c) by {
        assert(!row_is(rows[k], a, c));
    }
    lemma_row_pos(u, a, c, p);
}

proof fn lemma_currency_total_update(rows: Seq<BalanceRow>, i: int, nr: BalanceRow, c: Seq<char>)
    requires
        0 <= i < rows.len(),
    ensures
        currency_total(rows.update(i, nr), c) == currency_total(rows, c) - currency_part(rows[i], c)
            + currency_part(nr, c),
    decreases rows.len(),
{
    let u = rows.update(i, nr);
    if i == rows.len() - 1 {
        assert(u.drop_last() =~= rows.drop_last());
    } else {
        lemma_currency_total_update(rows.drop_last(), i, nr, c);
        assert(u.drop_last() =~= rows.drop_last().update(i, nr));
    }
}

/// Replacing the (first) row of a key changes the total of that key only.
proof fn lemma_row_total_update(rows: Seq<BalanceRow>, i: int, nr: BalanceRow, a: AccountId, c: Seq<char>)
    requires
        0 <= i < rows.len(),
        i == row_pos(rows, rows[i].account_id, rows[i].currency@),
        nr.account_id == rows[i].account_id,
        nr.currency@ == rows[i].currency@,
    ensures
        row_total(rows.update(i, nr), a, c) == if row_is(rows[i], a, c) {
            nr.available_minor + nr.hold_minor
        } else {
            row_total(rows, a, c)
        },
{
    lemma_row_pos_update(rows, i, nr, a, c);
    lemma_row_pos_props(rows, a, c);
}

/// A single-row update: its effect on every row total and every currency total.
proof fn lemma_single_update(
    rows: Seq<BalanceRow>,
    a0: AccountId,
    c0: Seq<char>,
    available: int,
    hold: int,
)
    requires
        row_pos(rows, a0, c0) < rows.len(),
        fits_i64(available),
        fits_i64(hold),
    ensures
        ({
            let i = row_pos(rows, a0, c0);
            let u = rows.update(i, with_amounts(rows[i], available, hold));
            &&& forall|a: AccountId, c: Seq<char>| #[trigger] row_total(u, a, c) == row_total(rows, a, c)
                + if a == a0 && c == c0 {
                available + hold - (rows[i].available_minor + rows[i].hold_minor)
            } else {
                0
            }
            &&& forall|c: Seq<char>| #[trigger] currency_total(u, c) == currency_total(rows, c)
                + if c == c0 {
                available + hold - (rows[i].available_minor + rows[i].hold_minor)
            } else {
                0
            }
            &&& row_pos(u, a0, c0) == i
            &&& u[i].available_minor == available
            &&& u[i].hold_minor == hold
        }),
{
    let i = row_pos(rows, a0, c0);
    lemma_row_pos_props(rows, a0, c0);
    let nr = with_amounts(rows[i], available, hold);
    let u = rows.update(i, nr);
    assert forall|a: AccountId, c: Seq<char>| #[trigger] row_total(u, a, c) == row_total(rows, a, c)
        + if a == a0 && c == c0 {
        available + hold - (rows[i].available_minor + rows[i].hold_minor)
    } else {
        0
    } by {
        lemma_row_total_update(rows, i, nr, a, c);
        if a == a0 && c == c0 {
            assert(row_total(rows, a, c) == rows[i].available_minor + rows[i].hold_minor);
        }
    }
    assert forall|c: Seq<char>| #[trigger] currency_total(u, c) == currency_total(rows, c) + if c == c0 {
        available + hold - (rows[i].available_minor + rows[i].hold_minor)
    } else {
        0
    } by {
        lemma_currency_total_update(rows, i, nr, c);
    }
    lemma_row_pos_update(rows, i, nr, a0, c0);
}

proof fn lemma_key_sum_double_entry(
    d: AccountId,
    cr: AccountId,
    currency: Currency,
    amount: AmountMinor,
    a: AccountId,
    c: Seq<char>,
)
    ensures
        key_sum(double_entry(d, cr, currency, amount), a, c) == (if d == a && currency@ == c {
            -(amount@ as int)
        } else {
            0
        }) + (if cr == a && currency@ == c {
            amount@ as int
        } else {
            0
        }),
{
    let s = double_entry(d, cr, currency, amount);
    let s1 = s.drop_last();
    assert(s1.drop_last() =~= Seq::<EntrySpec>::empty());
    assert(key_sum(s1.drop_last(), a, c) == 0);
    assert(s1.last() == s[0]);
    assert(s.last() == s[1]);
    assert(key_sum(s1, a, c) == (if d == a && currency@ == c {
        -(amount@ as int)
    } else {
        0
    }));
}

/// Law: a top-up or a refund changes the total (available + hold) of every balance row by
/// exactly the signed sum of its two ledger entries for that row, and keeps the total of
/// every currency unchanged.
pub proof fn lemma_post_from_system_balanced(
    rows: Seq<BalanceRow>,
    system_cash: AccountId,
    user: AccountId,
    currency: Currency,
    amount: AmountMinor,
)
    ensures
        match spec_post_from_system(rows, system_cash, user, currency@, amount@ as int) {
            Ok(after) => {
                &&& forall|a: AccountId, c: Seq<char>| #[trigger] row_total(after, a, c) == row_total(rows, a, c)
                    + key_sum(double_entry(system_cash, user, currency, amount), a, c)
                &&& forall|c: Seq<char>| #[trigger] currency_total(after, c) == currency_total(rows, c)
            },
            Err(_) => true,
        },
{
    let amt = amount@ as int;
    let c0 = currency@;
    if let Ok(r1) = spec_debit_available(rows, system_cash, c0, amt) {
        let i = row_pos(rows, system_cash, c0);
        lemma_single_update(rows, system_cash, c0, rows[i].available_minor - amt, rows[i].hold_minor as int);
        if let Ok(r2) = spec_credit_available(r1, user, c0, amt) {
            let j = row_pos(r1, user, c0);
            lemma_single_update(r1, user, c0, r1[j].available_minor + amt, r1[j].hold_minor as int);
            assert forall|a: AccountId, c: Seq<char>| #[trigger] row_total(r2, a, c) == row_total(rows, a, c)
                + key_sum(double_entry(system_cash, user, currency, amount), a, c) by {
                lemma_key_sum_double_entry(system_cash, user, currency, amount, a, c);
                assert(row_total(r1, a, c) == row_total(rows, a, c) + if a == system_cash && c == c0 {
                    -amt
                } else {
                    0
                });
                assert(row_total(r2, a, c) == row_total(r1, a, c) + if a == user && c == c0 {
                    amt
                } else {
                    0
                });
            }
            assert forall|c: Seq<char>| #[trigger] currency_total(r2, c) == currency_total(rows, c) by {
                assert(currency_total(r1, c) == currency_total(rows, c) + if c == c0 {
                    -amt
                } else {
                    0
                });
                assert(currency_total(r2, c) == currency_total(r1, c) + if c == c0 {
                    amt
                } else {
                    0
                });
            }
        }
    }
}

/// Law: a transfer changes the total of every balance row by exactly the signed sum of its two
/// ledger entries for that row, and keeps the total of every currency unchanged.
pub proof fn lemma_post_transfer_balanced(
    rows: Seq<BalanceRow>,
    from: AccountId,
    to: AccountId,
    currency: Currency,
    amount: AmountMinor,
)
    ensures
        match spec_post_transfer(rows, from, to, currency@, amount@ as int) {
            Ok(after) => {
                &&& forall|a: AccountId, c: Seq<char>| #[trigger] row_total(after, a, c) == row_total(rows, a, c)
                    + key_sum(double_entry(from, to, currency, amount), a, c)
                &&& forall|c: Seq<char>| #[trigger] currency_total(after, c) == currency_total(rows, c)
            },
            Err(_) => true,
        },
{
    let amt = amount@ as int;
    let c0 = currency@;
    if let Ok(r1) = spec_debit_available_checked(rows, from, c0, amt) {
        let i = row_pos(rows, from, c0);
        lemma_single_update(rows, from, c0, rows[i].available_minor - amt, rows[i].hold_minor as int);
        if let Ok(r2) = spec_credit_available(r1, to, c0, amt) {
            let j = row_pos(r1, to, c0);
            lemma_single_update(r1, to, c0, r1[j].available_minor + amt, r1[j].hold_minor as int);
            assert forall|a: AccountId, c: Seq<char>| #[trigger] row_total(r2, a, c) == row_total(rows, a, c)
                + key_sum(double_entry(from, to, currency, amount), a, c) by {
                lemma_key_sum_double_entry(from, to, currency, amount, a, c);
                assert(row_total(r1, a, c) == row_total(rows, a, c) + if a == from && c == c0 {
                    -amt
                } else {
                    0
                });
                assert(row_total(r2, a, c) == row_total(r1, a, c) + if a == to && c == c0 {
                    amt
                } else {
                    0
                });
            }
            assert forall|c: Seq<char>| #[trigger] currency_total(r2, c) == currency_total(rows, c) by {
                assert(currency_total(r1, c) == currency_total(rows, c) + if c == c0 {
                    -amt
                } else {
                    0
                });
                assert(currency_total(r2, c) == currency_total(r1, c) + if c == c0 {
                    amt
                } else {
                    0
                });
            }
        }
    }
}

/// Law: capturing a hold changes the total of every balance row by exactly the signed sum of
/// its two ledger entries for that row, and keeps the total of every currency unchanged.
pub proof fn lemma_post_capture_balanced(
    rows: Seq<BalanceRow>,
    user: AccountId,
    system_cash: AccountId,
    currency: Currency,
    amount: AmountMinor,
)
    ensures
        match spec_post_capture(rows, user, system_cash, currency@, amount@ as int) {
            Ok(after) => {
                &&& forall|a: AccountId, c: Seq<char>| #[trigger] row_total(after, a, c) == row_total(rows, a, c)
                    + key_sum(double_entry(user, system_cash, currency, amount), a, c)
                &&& forall|c: Seq<char>| #[trigger] currency_total(after, c) == currency_total(rows, c)
            },
            Err(_) => true,
        },
{
    let amt = amount@ as int;
    let c0 = currency@;
    if let Ok(r1) = spec_debit_hold_checked(rows, user, c0, amt) {
        let i = row_pos(rows, user, c0);
        lemma_single_update(rows, user, c0, rows[i].available_minor as int, rows[i].hold_minor - amt);
        if let Ok(r2) = spec_credit_available(r1, system_cash, c0, amt) {
            let j = row_pos(r1, system_cash, c0);
            lemma_single_update(r1, system_cash, c0, r1[j].available_minor + amt, r1[j].hold_minor as int);
            assert forall|a: AccountId, c: Seq<char>| #[trigger] row_total(r2, a, c) == row_total(rows, a, c)
                + key_sum(double_entry(user, system_cash, currency, amount), a, c) by {
                lemma_key_sum_double_entry(user, system_cash, currency, amount, a, c);
                assert(row_total(r1, a, c) == row_total(rows, a, c) + if a == user && c == c0 {
                    -amt
                } else {
                    0
                });
                assert(row_total(r2, a, c) == row_total(r1, a, c) + if a == system_cash && c == c0 {
                    amt
                } else {
                    0
                });
            }
            assert forall|c: Seq<char>| #[trigger] currency_total(r2, c) == currency_total(rows, c) by {
                assert(currency_total(r1, c) == currency_total(rows, c) + if c == c0 {
                    -amt
                } else {
                    0
                });
                assert(currency_total(r2, c) == currency_total(r1, c) + if c == c0 {
                    amt
                } else {
                    0
                });
            }
        }
    }
}

/// Law: authorizing or cancelling a hold posts no entries and leaves the total of every
/// balance row, and of every currency, unchanged.
pub proof fn lemma_hold_moves_keep_totals(
    rows: Seq<BalanceRow>,
    user: AccountId,
    currency: Currency,
    amount: AmountMinor,
)
    ensures
        match spec_move_available_to_hold_checked(rows, user, currency@, amount@ as int) {
            Ok(after) => {
                &&& forall|a: AccountId, c: Seq<char>| #[trigger] row_total(after, a, c) == row_total(rows, a, c)
                &&& forall|c: Seq<char>| #[trigger] currency_total(after, c) == currency_total(rows, c)
            },
            Err(_) => true,
        },
        match spec_release_hold_to_available_checked(rows, user, currency@, amount@ as int) {
            Ok(after) => {
                &&& forall|a: AccountId, c: Seq<char>| #[trigger] row_total(after, a, c) == row_total(rows, a, c)
                &&& forall|c: Seq<char>| #[trigger] currency_total(after, c) == currency_total(rows, c)
            },
            Err(_) => true,
        },
{
    let amt = amount@ as int;
    let c0 = currency@;
    let i = row_pos(rows, user, c0);
    if let Ok(r1) = spec_move_available_to_hold_checked(rows, user, c0, amt) {
        lemma_single_update(rows, user, c0, rows[i].available_minor - amt, rows[i].hold_minor + amt);
    }
    if let Ok(r1) = spec_release_hold_to_available_checked(rows, user, c0, amt) {
        lemma_single_update(rows, user, c0, rows[i].available_minor + amt, rows[i].hold_minor - amt);
    }
}

/// Law: cancelling a hold undoes its authorization: the balance rows are exactly as before
/// (for a row whose hold is not negative, as every row that these operations maintain).
pub proof fn lemma_cancel_undoes_authorize(
    rows: Seq<BalanceRow>,
    user: AccountId,
    currency: Currency,
    amount: AmountMinor,
)
    requires
        row_pos(rows, user, currency@) < rows.len() ==> rows[row_pos(rows, user, currency@)].hold_minor >= 0,
    ensures
        match spec_move_available_to_hold_checked(rows, user, currency@, amount@ as int) {
            Ok(held) => spec_release_hold_to_available_checked(held, user, currency@, amount@ as int)
                == Ok::<Seq<BalanceRow>, AppError>(rows),
            Err(_) => true,
        },
{
    let amt = amount@ as int;
    let c0 = currency@;
    let i = row_pos(rows, user, c0);
    if let Ok(r1) = spec_move_available_to_hold_checked(rows, user, c0, amt) {
        lemma_single_update(rows, user, c0, rows[i].available_minor - amt, rows[i].hold_minor + amt);
        lemma_row_pos_props(rows, user, c0);
        let r2 = r1.update(i, with_amounts(r1[i], r1[i].available_minor + amt, r1[i].hold_minor - amt));
        assert(row_pos(r1, user, c0) == i);
        assert(r1[i].hold_minor >= amt);
        assert(spec_release_hold_to_available_checked(r1, user, c0, amt) == Ok::<Seq<BalanceRow>, AppError>(r2));
        assert(r2[i] == rows[i]);
        assert(r2 =~= rows);
    }
}

/// An update of another account's row leaves the row of `a` where and as it was.
proof fn lemma_other_update_keeps_row(
    rows: Seq<BalanceRow>,
    b: AccountId,
    c: Seq<char>,
    available: int,
    hold: int,
    a: AccountId,
)
    requires
        row_pos(rows, b, c) < rows.len(),
        a != b,
    ensures
        ({
            let j = row_pos(rows, b, c);
            let u = rows.update(j, with_amounts(rows[j], available, hold));
            &&& row_pos(u, a, c) == row_pos(rows, a, c)
            &&& available_of(u, a, c) == available_of(rows, a, c)
            &&& hold_of(u, a, c) == hold_of(rows, a, c)
        }),
{
    let j = row_pos(rows, b, c);
    lemma_row_pos_props(rows, b, c);
    lemma_row_pos_props(rows, a, c);
    lemma_row_pos_update(rows, j, with_amounts(rows[j], available, hold), a, c);
}

/// Law: the checked operations never overdraw. After a transfer the sender has exactly the
/// amount less available, and not less than zero; after a hold authorization the user has the
/// amount less available (not less than zero) and the amount more on hold; after a capture
/// the user has the amount less on hold, not less than zero.
pub proof fn lemma_checked_operations_never_overdraw(
    rows: Seq<BalanceRow>,
    user: AccountId,
    other: AccountId,
    currency: Currency,
    amount: AmountMinor,
)
    requires
        user != other,
    ensures
        spec_post_transfer(rows, user, other, currency@, amount@ as int) matches Ok(after) ==> {
            &&& available_of(after, user, currency@) == available_of(rows, user, currency@) - amount@
            &&& available_of(after, user, currency@) >= 0
        },
        spec_move_available_to_hold_checked(rows, user, currency@, amount@ as int) matches Ok(after) ==> {
            &&& available_of(after, user, currency@) == available_of(rows, user, currency@) - amount@
            &&& available_of(after, user, currency@) >= 0
            &&& hold_of(after, user, currency@) == hold_of(rows, user, currency@) + amount@
        },
        spec_post_capture(rows, user, other, currency@, amount@ as int) matches Ok(after) ==> {
            &&& hold_of(after, user, currency@) == hold_of(rows, user, currency@) - amount@
            &&& hold_of(after, user, currency@) >= 0
        },
{
    let amt = amount@ as int;
    let c0 = currency@;
    let i = row_pos(rows, user, c0);
    if let Ok(r1) = spec_debit_available_checked(rows, user, c0, amt) {
        lemma_single_update(rows, user, c0, rows[i].available_minor - amt, rows[i].hold_minor as int);
        if let Ok(r2) = spec_credit_available(r1, other, c0, amt) {
            let j = row_pos(r1, other, c0);
            lemma_other_update_keeps_row(r1, other, c0, r1[j].available_minor + amt, r1[j].hold_minor as int, user);
        }
    }
    if let Ok(r1) = spec_move_available_to_hold_checked(rows, user, c0, amt) {
        lemma_single_update(rows, user, c0, rows[i].available_minor - amt, rows[i].hold_minor + amt);
    }
    if let Ok(r1) = spec_debit_hold_checked(rows, user, c0, amt) {
        lemma_single_update(rows, user, c0, rows[i].available_minor as int, rows[i].hold_minor - amt);
        if let Ok(r2) = spec_credit_available(r1, other, c0, amt) {
            let j = row_pos(r1, other, c0);
            lemma_other_update_keeps_row(r1, other, c0, r1[j].available_minor + amt, r1[j].hold_minor as int, user);
        }
    }
}

/// Law: refunding a captured hold undoes the hold, its capture and the refund as a whole: when
/// the authorization, the capture and the refund all succeed, every balance row is exactly
/// as before.
pub proof fn lemma_refund_undoes_captured_hold(
    rows: Seq<BalanceRow>,
    user: AccountId,
    system_cash: AccountId,
    currency: Currency,
    amount: AmountMinor,
)
    requires
        user != system_cash,
    ensures
        spec_move_available_to_hold_checked(rows, user, currency@, amount@ as int) matches Ok(held) ==> (
        spec_post_capture(held, user, system_cash, currency@, amount@ as int) matches Ok(captured) ==> (
        spec_post_from_system(captured, system_cash, user, currency@, amount@ as int) matches Ok(refunded)
            ==> refunded == rows)),
{
    let amt = amount@ as int;
    let c0 = currency@;
    let i = row_pos(rows, user, c0);
    let j = row_pos(rows, system_cash, c0);
    lemma_row_pos_props(rows, user, c0);
    lemma_row_pos_props(rows, system_cash, c0);
    if let Ok(r1) = spec_move_available_to_hold_checked(rows, user, c0, amt) {
        let n1 = with_amounts(rows[i], rows[i].available_minor - amt, rows[i].hold_minor + amt);
        assert(r1 == rows.update(i, n1));
        lemma_row_pos_update(rows, i, n1, user, c0);
        lemma_row_pos_update(rows, i, n1, system_cash, c0);
        if let Ok(r2a) = spec_debit_hold_checked(r1, user, c0, amt) {
            let n2 = with_amounts(r1[i], r1[i].available_minor as int, r1[i].hold_minor - amt);
            assert(r2a == r1.update(i, n2));
            lemma_row_pos_update(r1, i, n2, user, c0);
            lemma_row_pos_update(r1, i, n2, system_cash, c0);
            if let Ok(r2) = spec_credit_available(r2a, system_cash, c0, amt) {
                assert(j < rows.len());
                assert(i != j);
                let n3 = with_amounts(r2a[j], r2a[j].available_minor + amt, r2a[j].hold_minor as int);
                assert(r2 == r2a.update(j, n3));
                lemma_row_pos_update(r2a, j, n3, user, c0);
                lemma_row_pos_update(r2a, j, n3, system_cash, c0);
                assert(spec_post_capture(r1, user, system_cash, c0, amt) == Ok::<Seq<BalanceRow>, AppError>(r2));
                if let Ok(r3a) = spec_debit_available(r2, system_cash, c0, amt) {
                    let n4 = with_amounts(r2[j], r2[j].available_minor - amt, r2[j].hold_minor as int);
                    assert(r3a == r2.update(j, n4));
                    lemma_row_pos_update(r2, j, n4, user, c0);
                    lemma_row_pos_update(r2, j, n4, system_cash, c0);
                    if let Ok(r3) = spec_credit_available(r3a, user, c0, amt) {
                        let n5 = with_amounts(r3a[i], r3a[i].available_minor + amt, r3a[i].hold_minor as int);
                        assert(r3 == r3a.update(i, n5));
                        assert(spec_post_from_system(r2, system_cash, user, c0, amt) == Ok::<Seq<BalanceRow>, AppError>(r3));
                        assert(r3[i] == rows[i]);
                        assert(r3[j] == rows[j]);
                        assert(r3 =~= rows);
                    }
                }
            }
        }
    }
}

} // verus!
