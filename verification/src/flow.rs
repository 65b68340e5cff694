//! The decisions of the monetary operations: what each step does with what it read.
//!
//! The operations run inside one database transaction; the reads and writes are made by the
//! caller, which hands the rows it read to these functions and performs what they decide.
use vstd::prelude::*;

use crate::domain::{
    AccountId, AccountStatus, AmountMinor, Currency, IdempotencyKey, TxId, TxState, UserId,
    idempotency_key_parse_ok,
};
use crate::codec::{uuid_hyphenated_text, uuid_parse};
use crate::error::{app_error_of_domain, AppError, AppResult};
use crate::json::{json_object_of_one_string, json_object_of_two_strings, json_parses, json_str_field};
use crate::models::{amount_outcome, currency_outcome, PostOpResponse, RefundResponse};
use crate::text::{str_eq, trim};

verus! {

/// A `ledger_transactions` row as the settle steps read it.
#[derive(Debug)]
pub struct LedgerTxRow {
    pub user_account_id: i64,
    pub state: String,
    pub currency: String,
    pub amount_minor: i64,
}

/// The transaction that a settle step goes on with.
#[derive(Debug)]
pub struct SettleTarget {
    pub user_account_id: AccountId,
    pub currency: Currency,
    pub amount: AmountMinor,
}

/// What a hold capture or cancel does after reading the hold.
#[derive(Debug)]
pub enum HoldOutcome<T> {
    /// The hold was already settled this way: answer as before.
    Existing(PostOpResponse, TxId),
    /// The hold is authorized: settle it.
    Proceed(T),
}

/// What a refund does after reading the payment.
#[derive(Debug)]
pub enum RefundStart<T> {
    /// The payment was already refunded: look up the refund and answer as before.
    AlreadyRefunded { currency: Currency, amount: AmountMinor },
    /// The payment is posted: refund it.
    Proceed(T),
}

/// The answer to a posting: the transaction id, its state, currency and amount.
pub open spec fn post_op_answer(
    r: PostOpResponse,
    tx_id: u128,
    state: TxState,
    currency: Seq<char>,
    amount: u64,
) -> bool {
    &&& r.tx_id@ == uuid_hyphenated_text(tx_id)
    &&& uuid_parse(r.tx_id@) == Some(tx_id)
    &&& r.state@ == state.text()
    &&& r.currency@ == currency
    &&& r.amount_minor == amount
}

/// The account must exist (`NotFound`) and not be closed (`AccountClosed`).
pub fn require_account_active(status: Option<String>) -> (r: AppResult<()>)
    ensures
        match status {
            None => r matches Err(e) && e == AppError::NotFound("account not found"),
            Some(s) => if s@ == AccountStatus::Closed.db_text() {
                r matches Err(e) && e == AppError::AccountClosed
            } else {
                r is Ok
            },
        },
{
    match status {
        None => Err(AppError::NotFound("account not found")),
        Some(s) => {
            if str_eq(s.as_str(), AccountStatus::Closed.as_db_str()) {
                Err(AppError::AccountClosed)
            } else {
                Ok(())
            }
        },
    }
}

/// The account must have the currency opened, and its balance row must exist.
pub fn require_currency_open(currency_opened: bool, projection_exists: bool) -> (r: AppResult<()>)
    ensures
        !currency_opened ==> (r matches Err(e) && e == AppError::Conflict("currency account not opened")),
        currency_opened && !projection_exists ==> (r matches Err(e) && e == AppError::Internal(
            "projection row missing for opened currency",
        )),
        currency_opened && projection_exists ==> r is Ok,
{
    if !currency_opened {
        return Err(AppError::Conflict("currency account not opened"));
    }
    if !projection_exists {
        return Err(AppError::Internal("projection row missing for opened currency"));
    }
    Ok(())
}

/// An account looked up by owner must exist.
pub fn account_or_not_found(id: Option<i64>) -> (r: AppResult<AccountId>)
    ensures
        match id {
            Some(i) => r matches Ok(a) && a@ == i,
            None => r matches Err(e) && e == AppError::NotFound("account not found"),
        },
{
    match id {
        Some(i) => Ok(AccountId::new(i)),
        None => Err(AppError::NotFound("account not found")),
    }
}

/// The currency of a monetary request must be in the registry.
pub fn require_currency_supported(supported: bool) -> (r: AppResult<()>)
    ensures
        supported ==> r is Ok,
        !supported ==> (r matches Err(e) && e == AppError::UnsupportedCurrency),
{
    if supported {
        Ok(())
    } else {
        Err(AppError::UnsupportedCurrency)
    }
}

/// A user looked up by id must exist.
pub fn user_account_or_404(id: Option<i64>) -> (r: AppResult<i64>)
    ensures
        match id {
            Some(i) => r == Ok::<i64, AppError>(i),
            None => r matches Err(e) && e == AppError::NotFound("user not found"),
        },
{
    match id {
        Some(i) => Ok(i),
        None => Err(AppError::NotFound("user not found")),
    }
}

/// A transfer to oneself is refused.
pub fn require_not_self_transfer(from: &UserId, to: &UserId) -> (r: AppResult<()>)
    ensures
        from@ == to@ ==> (r matches Err(e) && e == AppError::BadRequest("cannot transfer to self")),
        from@ != to@ ==> r is Ok,
{
    if to.same_as(from) {
        Err(AppError::BadRequest("cannot transfer to self"))
    } else {
        Ok(())
    }
}

/// A transaction found under the same idempotency key is answered again, with its id.
pub fn replay_existing(existing: PostOpResponse) -> (r: AppResult<(PostOpResponse, TxId)>)
    ensures
        match uuid_parse(existing.tx_id@) {
            Some(v) => r matches Ok((resp, id)) && resp == existing && id@ == v,
            None => r matches Err(e) && e == AppError::BadRequest("invalid tx_id"),
        },
{
    match TxId::parse(existing.tx_id.as_str()) {
        Ok(id) => Ok((existing, id)),
        Err(e) => Err(AppError::from(e)),
    }
}

/// After an insert refused for a duplicate idempotency key: answer the transaction that holds
/// the key, or report the conflict when there is none.
pub fn duplicate_key_outcome(existing: Option<PostOpResponse>) -> (r: AppResult<(PostOpResponse, TxId)>)
    ensures
        match existing {
            Some(x) => match uuid_parse(x.tx_id@) {
                Some(v) => r matches Ok((resp, id)) && resp == x && id@ == v,
                None => r matches Err(e) && e == AppError::BadRequest("invalid tx_id"),
            },
            None => r matches Err(e) && e == AppError::Conflict("duplicate idempotency key"),
        },
{
    match existing {
        Some(x) => replay_existing(x),
        None => Err(AppError::Conflict("duplicate idempotency key")),
    }
}

/// The answer to a posting.
pub fn post_op_response(tx_id: &TxId, state: TxState, currency: &Currency, amount: AmountMinor) -> (r: PostOpResponse)
    ensures
        post_op_answer(r, tx_id@, state, currency@, amount@),
{
    PostOpResponse {
        tx_id: tx_id.to_string_hyphenated(),
        state: state.as_str().to_owned(),
        currency: currency.as_str().to_owned(),
        amount_minor: amount.as_i64(),
    }
}

/// The answer to a refund.
pub fn refund_response(original: &TxId, refund: &TxId, currency: &Currency, amount: AmountMinor) -> (r: RefundResponse)
    ensures
        r.original_tx_id@ == uuid_hyphenated_text(original@),
        r.refund_tx_id@ == uuid_hyphenated_text(refund@),
        r.state@ == TxState::Refunded.text(),
        r.currency@ == currency@,
        r.amount_minor == amount@,
{
    RefundResponse {
        original_tx_id: original.to_string_hyphenated(),
        refund_tx_id: refund.to_string_hyphenated(),
        state: TxState::Refunded.as_str().to_owned(),
        currency: currency.as_str().to_owned(),
        amount_minor: amount.as_i64(),
    }
}

/// The metadata stored with a transfer: both user ids.
pub fn transfer_metadata(from: &UserId, to: &UserId) -> (r: String)
    ensures
        json_parses(r@),
        json_str_field(r@, "from_user_id"@) == Some(from@),
        json_str_field(r@, "to_user_id"@) == Some(to@),
{
    proof {
        reveal_strlit("from_user_id");
        reveal_strlit("to_user_id");
        assert("from_user_id"@[0] != "to_user_id"@[0]);
    }
    json_object_of_two_strings("from_user_id", from.as_str(), "to_user_id", to.as_str())
}

/// The metadata stored with a refund: the id of the refunded payment.
pub fn refund_metadata(original: &TxId) -> (r: String)
    ensures
        json_parses(r@),
        json_str_field(r@, "original_tx_id"@) == Some(uuid_hyphenated_text(original@)),
{
    json_object_of_one_string("original_tx_id", original.to_string_hyphenated().as_str())
}

/// Reads the currency and amount of a stored transaction, as the settle steps do.
fn read_row_amount(row: &LedgerTxRow) -> (r: AppResult<(Currency, AmountMinor)>)
    ensures
        match (currency_outcome(row.currency@), amount_outcome(row.amount_minor)) {
            (Ok(c), Ok(a)) => r matches Ok((rc, ra)) && rc@ == c && ra@ == a,
            (Err(e), _) => r matches Err(re) && re == e,
            (Ok(_), Err(e)) => r matches Err(re) && re == e,
        },
{
    let currency = match Currency::parse(row.currency.as_str()) {
        Ok(c) => c,
        Err(e) => return Err(AppError::from(e)),
    };
    let amount = match AmountMinor::try_from_i64(row.amount_minor) {
        Ok(a) => a,
        Err(e) => return Err(AppError::from(e)),
    };
    Ok((currency, amount))
}

/// The decision of a settle step (capture or cancel) on the hold it read: missing → not found;
/// already in `done` → answered again; not authorized → conflict; else go on.
pub open spec fn settle_decision_ok(
    tx_id: TxId,
    row: Option<LedgerTxRow>,
    done: TxState,
    r: AppResult<HoldOutcome<SettleTarget>>,
) -> bool {
    match row {
        None => r matches Err(e) && e == AppError::NotFound("tx not found"),
        Some(w) => match (currency_outcome(w.currency@), amount_outcome(w.amount_minor)) {
            (Err(e), _) => r matches Err(re) && re == e,
            (Ok(_), Err(e)) => r matches Err(re) && re == e,
            (Ok(c), Ok(a)) => if w.state@ == done.text() {
                r matches Ok(HoldOutcome::Existing(resp, id)) && id == tx_id && post_op_answer(
                    resp,
                    tx_id@,
                    done,
                    c,
                    a,
                )
            } else if w.state@ != TxState::Authorized.text() {
                r matches Err(e) && e == AppError::Conflict("tx is not in authorized state")
            } else {
                r matches Ok(HoldOutcome::Proceed(t)) && t.user_account_id@ == w.user_account_id
                    && t.currency@ == c && t.amount@ == a
            },
        },
    }
}

fn settle_start(tx_id: &TxId, row: Option<LedgerTxRow>, done: TxState) -> (r: AppResult<HoldOutcome<SettleTarget>>)
    ensures
        settle_decision_ok(*tx_id, row, done, r),
{
    let row = match row {
        Some(w) => w,
        None => return Err(AppError::NotFound("tx not found")),
    };
    let (currency, amount) = read_row_amount(&row)?;
    if str_eq(row.state.as_str(), done.as_str()) {
        let resp = post_op_response(tx_id, done, &currency, amount);
        return Ok(HoldOutcome::Existing(resp, *tx_id));
    }
    if !str_eq(row.state.as_str(), TxState::Authorized.as_str()) {
        return Err(AppError::Conflict("tx is not in authorized state"));
    }
    Ok(HoldOutcome::Proceed(SettleTarget { user_account_id: AccountId::new(row.user_account_id), currency, amount }))
}

/// Capturing a hold: a captured (posted) hold is answered again; only an authorized hold is
/// captured.
pub fn hold_capture_start(tx_id: &TxId, row: Option<LedgerTxRow>) -> (r: AppResult<HoldOutcome<SettleTarget>>)
    ensures
        settle_decision_ok(*tx_id, row, TxState::Posted, r),
{
    settle_start(tx_id, row, TxState::Posted)
}

/// Cancelling a hold: a cancelled (reversed) hold is answered again; only an authorized hold is
/// cancelled.
pub fn hold_cancel_start(tx_id: &TxId, row: Option<LedgerTxRow>) -> (r: AppResult<HoldOutcome<SettleTarget>>)
    ensures
        settle_decision_ok(*tx_id, row, TxState::Reversed, r),
{
    settle_start(tx_id, row, TxState::Reversed)
}

/// Refunding a payment: a refunded payment is answered again (after looking up its refund);
/// only a posted payment is refunded.
pub fn refund_start(row: Option<LedgerTxRow>) -> (r: AppResult<RefundStart<SettleTarget>>)
    ensures
        match row {
            None => r matches Err(e) && e == AppError::NotFound("tx not found"),
            Some(w) => match (currency_outcome(w.currency@), amount_outcome(w.amount_minor)) {
                (Err(e), _) => r matches Err(re) && re == e,
                (Ok(_), Err(e)) => r matches Err(re) && re == e,
                (Ok(c), Ok(a)) => if w.state@ == TxState::Refunded.text() {
                    r matches Ok(RefundStart::AlreadyRefunded { currency, amount }) && currency@ == c
                        && amount@ == a
                } else if w.state@ != TxState::Posted.text() {
                    r matches Err(e) && e == AppError::Conflict("tx is not in posted state")
                } else {
                    r matches Ok(RefundStart::Proceed(t)) && t.user_account_id@ == w.user_account_id
                        && t.currency@ == c && t.amount@ == a
                },
            },
        },
{
    let row = match row {
        Some(w) => w,
        None => return Err(AppError::NotFound("tx not found")),
    };
    let (currency, amount) = read_row_amount(&row)?;
    if str_eq(row.state.as_str(), TxState::Refunded.as_str()) {
        return Ok(RefundStart::AlreadyRefunded { currency, amount });
    }
    if !str_eq(row.state.as_str(), TxState::Posted.as_str()) {
        return Err(AppError::Conflict("tx is not in posted state"));
    }
    Ok(RefundStart::Proceed(SettleTarget { user_account_id: AccountId::new(row.user_account_id), currency, amount }))
}

/// The answer to a refund asked again: the refund found for the payment (the newest one whose
/// metadata names it), or not found.
pub fn refund_existing(
    tx_id: &TxId,
    refund_tx_id: Option<String>,
    currency: &Currency,
    amount: AmountMinor,
) -> (r: AppResult<(RefundResponse, TxId)>)
    ensures
        match refund_tx_id {
            None => r matches Err(e) && e == AppError::NotFound("refund tx not found"),
            Some(t) => if t@.len() == 0 {
                r matches Err(e) && e == AppError::NotFound("refund tx not found")
            } else {
                match uuid_parse(t@) {
                    Some(v) => r matches Ok((resp, id)) && id@ == v
                        && resp.original_tx_id@ == uuid_hyphenated_text(tx_id@)
                        && resp.refund_tx_id@ == uuid_hyphenated_text(v)
                        && resp.state@ == TxState::Refunded.text()
                        && resp.currency@ == currency@ && resp.amount_minor == amount@,
                    None => r matches Err(e) && e == AppError::BadRequest("invalid tx_id"),
                }
            },
        },
{
    let t = match refund_tx_id {
        Some(t) => t,
        None => return Err(AppError::NotFound("refund tx not found")),
    };
    if t.as_str().is_empty() {
        return Err(AppError::NotFound("refund tx not found"));
    }
    let refund_id = match TxId::parse(t.as_str()) {
        Ok(id) => id,
        Err(e) => return Err(AppError::from(e)),
    };
    Ok((refund_response(tx_id, &refund_id, currency, amount), refund_id))
}

/// The idempotency key of the refund transaction: `refund:<refund tx id>`.
pub fn refund_idempotency_key(refund_tx_id: &TxId) -> (r: AppResult<IdempotencyKey>)
    ensures
        ({
            let text = "refund:"@ + uuid_hyphenated_text(refund_tx_id@);
            if idempotency_key_parse_ok(text) {
                r matches Ok(k) && k@ == trim(text)
            } else {
                r matches Err(e) && e == (if trim(text).len() == 0 {
                    AppError::BadRequest("Empty Idempotency-Key header")
                } else {
                    AppError::BadRequest("Idempotency-Key too long")
                })
            }
        }),
{
    let text = "refund:".to_owned().concat(refund_tx_id.to_string_hyphenated().as_str());
    match IdempotencyKey::parse(text.as_str()) {
        Ok(k) => Ok(k),
        Err(e) => Err(AppError::from(e)),
    }
}

/// The answer to a posting asked again by transaction id: the stored row, or not found.
pub fn post_op_response_from_row(row: Option<PostOpResponse>) -> (r: AppResult<PostOpResponse>)
    ensures
        match row {
            Some(x) => r matches Ok(v) && v == x,
            None => r matches Err(e) && e == AppError::NotFound("tx not found"),
        },
{
    match row {
        Some(x) => Ok(x),
        None => Err(AppError::NotFound("tx not found")),
    }
}

/// The answer to a refund asked again by both ids: the payment row must exist, and so must
/// the refund transaction.
pub fn refund_response_from_rows(
    original: &TxId,
    refund: &TxId,
    row: Option<(String, String, i64)>,
    refund_count: i64,
) -> (r: AppResult<RefundResponse>)
    ensures
        match row {
            None => r matches Err(e) && e == AppError::NotFound("tx not found"),
            Some((state, currency, amount)) => if refund_count == 0 {
                r matches Err(e) && e == AppError::NotFound("refund tx not found")
            } else {
                r matches Ok(v) && v.original_tx_id@ == uuid_hyphenated_text(original@)
                    && v.refund_tx_id@ == uuid_hyphenated_text(refund@) && v.state@ == state@
                    && v.currency@ == currency@ && v.amount_minor == amount
            },
        },
{
    let (state, currency, amount) = match row {
        Some(x) => x,
        None => return Err(AppError::NotFound("tx not found")),
    };
    if refund_count == 0 {
        return Err(AppError::NotFound("refund tx not found"));
    }
    Ok(RefundResponse {
        original_tx_id: original.to_string_hyphenated(),
        refund_tx_id: refund.to_string_hyphenated(),
        state,
        currency,
        amount_minor: amount,
    })
}


// ------------------------ laws ------------------------

/// Law: a hold that is still authorized is settled, by a cancel as by a capture: the decision
/// goes on with the hold's own account, its currency (trimmed, upper case) and its amount.
/// Only a hold already in the settle's target state ('posted' for a capture, 'reversed' for a
/// cancel) is answered again, and only an authorized hold goes on.
pub proof fn lemma_authorized_hold_is_settled(
    tx_id: TxId,
    w: LedgerTxRow,
    done: TxState,
    r: AppResult<HoldOutcome<SettleTarget>>,
)
    requires
        done == TxState::Posted || done == TxState::Reversed,
        settle_decision_ok(tx_id, Some(w), done, r),
    ensures
        w.state@ == "authorized"@ && currency_outcome(w.currency@) is Ok && amount_outcome(w.amount_minor) is Ok
            ==> (r matches Ok(HoldOutcome::Proceed(t)) && t.user_account_id@ == w.user_account_id
                && t.currency@ == crate::text::to_ascii_upper(trim(w.currency@)) && t.amount@ == w.amount_minor),
        r matches Ok(HoldOutcome::Existing(_, id)) ==> id == tx_id && (done == TxState::Posted ==> w.state@
            == "posted"@) && (done == TxState::Reversed ==> w.state@ == "reversed"@),
        r matches Ok(HoldOutcome::Proceed(_)) ==> w.state@ == "authorized"@,
{
    reveal_strlit("authorized");
    reveal_strlit("posted");
    reveal_strlit("reversed");
    assert("authorized"@ != "posted"@) by {
        assert("authorized"@[0] != "posted"@[0]);
    }
    assert("authorized"@ != "reversed"@) by {
        assert("authorized"@[0] != "reversed"@[0]);
    }
}

} // verus!
