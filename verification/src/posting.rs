//! The steps of the monetary operations, as typestate machines.
//!
//! Each flow goes `Started` → `TxInserted` → `Applied` (the settle flows skip the insert). The
//! caller performs the reads and writes of each step in one database transaction and hands
//! their results to the step; the step decides, and says what to write.
use vstd::prelude::*;

use core::marker::PhantomData;

use crate::bookkeeping::EntrySpec;
use crate::codec::{uuid_hyphenated_text, uuid_parse};
use crate::domain::{AccountId, AccountStatus, AmountMinor, Currency, IdempotencyKey, TxId, TxState, TxType, UserId};
use crate::error::{AppError, AppResult};
use crate::events::{event_is, int_field, text_field, tx_event, EventValue, OutboxEvent};
use crate::flow::{
    post_op_answer, post_op_response, refund_idempotency_key, refund_metadata, refund_response, replay_existing,
    require_account_active, SettleTarget,
};
use crate::json::{json_parses, json_str_field};
use crate::ledger::{
    double_entry, post_hold_authorize, post_hold_cancel, post_hold_capture, post_refund, post_topup, post_transfer,
    spec_move_available_to_hold_checked, spec_post_capture, spec_post_from_system, spec_post_transfer,
    spec_release_hold_to_available_checked, BalanceTable,
};
use crate::models::{PostOpResponse, RefundResponse};

verus! {

/// A flow that has read what it works on.
pub struct Started;

/// A flow whose ledger transaction row is inserted.
pub struct TxInserted;

/// A flow whose entries and balance changes are computed.
pub struct Applied;

/// What a flow works on.
pub struct FlowParts {
    /// The account the transaction belongs to (the sender of a transfer).
    pub user_account_id: AccountId,
    /// The other account: the system cash account, or the receiver of a transfer (the user's
    /// own account for holds).
    pub counterpart_id: AccountId,
    pub currency: Currency,
    pub amount: AmountMinor,
    pub tx_id: TxId,
    /// The idempotency key of the request (none for the settle flows).
    pub idempotency_key: Option<IdempotencyKey>,
    /// The time of the operation (RFC 3339).
    pub now: String,
}

/// A new `ledger_transactions` row, as the insert writes it.
pub struct NewLedgerTx {
    pub id: TxId,
    pub idempotency_key: IdempotencyKey,
    pub tx_type: TxType,
    pub state: TxState,
    pub user_account_id: AccountId,
    pub currency: Currency,
    pub amount: AmountMinor,
    pub created_at: String,
    pub posted_at: String,
    pub metadata_json: Option<String>,
}

/// What an idempotency check decides.
pub enum IdempotencyOutcome<T> {
    /// A transaction exists under the key: answer it again.
    Existing(PostOpResponse, TxId),
    /// Go on.
    Proceed(T),
}

/// What the start of a refund decides.
pub enum RefundOutcome<T> {
    /// The payment was already refunded: answer the refund again.
    Existing(RefundResponse, TxId),
    /// Go on.
    Proceed(T),
}

/// The refund transaction that a refund posted.
pub struct RefundApplied {
    pub refund_tx_id: TxId,
}

/// The outcome of requiring an account (by its status) to be active.
pub open spec fn active_outcome(status: Option<String>) -> Result<(), AppError> {
    match status {
        None => Err(AppError::NotFound("account not found")),
        Some(s) => if s@ == AccountStatus::Closed.db_text() {
            Err(AppError::AccountClosed)
        } else {
            Ok(())
        },
    }
}

/// The check of a transaction found under the idempotency key: answered again when its id
/// parses, else the answer for the accounts' statuses.
pub open spec fn idempotency_ok<T>(
    existing: Option<PostOpResponse>,
    accounts: Result<(), AppError>,
    proceed: spec_fn(T) -> bool,
    r: AppResult<IdempotencyOutcome<T>>,
) -> bool {
    match existing {
        Some(x) => match uuid_parse(x.tx_id@) {
            Some(v) => r matches Ok(IdempotencyOutcome::Existing(resp, id)) && resp == x && id@ == v,
            None => r matches Err(e) && e == AppError::BadRequest("invalid tx_id"),
        },
        None => match accounts {
            Ok(()) => r matches Ok(IdempotencyOutcome::Proceed(f)) && proceed(f),
            Err(e) => r matches Err(re) && re == e,
        },
    }
}

fn check_existing(existing: Option<PostOpResponse>, accounts: AppResult<()>) -> (r: AppResult<Option<(PostOpResponse, TxId)>>)
    ensures
        match existing {
            Some(x) => match uuid_parse(x.tx_id@) {
                Some(v) => r matches Ok(Some((resp, id))) && resp == x && id@ == v,
                None => r matches Err(e) && e == AppError::BadRequest("invalid tx_id"),
            },
            None => match accounts {
                Ok(()) => r matches Ok(None),
                Err(e) => r matches Err(re) && re == e,
            },
        },
{
    match existing {
        Some(x) => match replay_existing(x) {
            Ok(found) => Ok(Some(found)),
            Err(e) => Err(e),
        },
        None => match accounts {
            Ok(()) => Ok(None),
            Err(e) => Err(e),
        },
    }
}

impl Clone for FlowParts {
    fn clone(&self) -> (r: Self)
        ensures
            r == *self,
    {
        let idempotency_key = match &self.idempotency_key {
            Some(k) => Some(k.clone()),
            None => None,
        };
        FlowParts {
            user_account_id: self.user_account_id,
            counterpart_id: self.counterpart_id,
            currency: self.currency.clone(),
            amount: self.amount,
            tx_id: self.tx_id,
            idempotency_key,
            now: self.now.clone(),
        }
    }
}

/// The row of a new transaction of the flow.
fn new_tx(p: &FlowParts, key: &IdempotencyKey, tx_type: TxType, state: TxState, metadata_json: Option<String>) -> (r: NewLedgerTx)
    ensures
        r.id == p.tx_id,
        r.idempotency_key == *key,
        r.tx_type == tx_type,
        r.state == state,
        r.user_account_id == p.user_account_id,
        r.currency == p.currency,
        r.amount == p.amount,
        r.created_at == p.now,
        r.posted_at == p.now,
        r.metadata_json == metadata_json,
{
    NewLedgerTx {
        id: p.tx_id,
        idempotency_key: key.clone(),
        tx_type,
        state,
        user_account_id: p.user_account_id,
        currency: p.currency.clone(),
        amount: p.amount,
        created_at: p.now.clone(),
        posted_at: p.now.clone(),
        metadata_json,
    }
}

// ------------------------------ Topup ------------------------------

/// A top-up in progress.
pub struct TopupFlow<S> {
    parts: FlowParts,
    _state: PhantomData<S>,
}

impl<S> View for TopupFlow<S> {
    type V = FlowParts;

    closed spec fn view(&self) -> FlowParts {
        self.parts
    }
}

impl TopupFlow<Started> {
    /// A top-up of `amount` into the user's account from the system cash account.
    pub fn start(
        user_account_id: AccountId,
        system_cash_id: AccountId,
        idempotency_key: &IdempotencyKey,
        currency: Currency,
        amount: AmountMinor,
        tx_id: TxId,
        now: String,
    ) -> (r: Self)
        ensures
            r@ == (FlowParts {
                user_account_id,
                counterpart_id: system_cash_id,
                currency,
                amount,
                tx_id,
                idempotency_key: Some(*idempotency_key),
                now,
            }),
    {
        TopupFlow {
            parts: FlowParts {
                user_account_id,
                counterpart_id: system_cash_id,
                currency,
                amount,
                tx_id,
                idempotency_key: Some(idempotency_key.clone()),
                now,
            },
            _state: PhantomData,
        }
    }

    pub fn user_account_id(&self) -> (r: AccountId)
        ensures
            r == self@.user_account_id,
    {
        self.parts.user_account_id
    }

    /// A transaction found under the key (`existing`) is answered again; otherwise the user's
    /// account (its status) must be active.
    pub fn check_idempotency(self, existing: Option<PostOpResponse>, user_status: Option<String>) -> (r: AppResult<IdempotencyOutcome<TopupFlow<Started>>>)
        ensures
            idempotency_ok(existing, active_outcome(user_status), |f: TopupFlow<Started>| f@ == self@, r),
    {
        let accounts = require_account_active(user_status);
        match check_existing(existing, accounts) {
            Ok(Some((resp, id))) => Ok(IdempotencyOutcome::Existing(resp, id)),
            Ok(None) => Ok(IdempotencyOutcome::Proceed(self)),
            Err(e) => Err(e),
        }
    }

    /// The transaction row to insert: a posted top-up of the user's account.
    pub fn new_tx(&self) -> (r: NewLedgerTx)
        requires
            self@.idempotency_key is Some,
        ensures
            r.id == self@.tx_id,
            r.idempotency_key == self@.idempotency_key->0,
            r.tx_type == TxType::Topup,
            r.state == TxState::Posted,
            r.user_account_id == self@.user_account_id,
            r.currency == self@.currency,
            r.amount == self@.amount,
            r.created_at == self@.now,
            r.posted_at == self@.now,
            r.metadata_json is None,
    {
        match &self.parts.idempotency_key {
            Some(k) => new_tx(&self.parts, k, TxType::Topup, TxState::Posted, None),
            None => {
                assert(false);
                new_tx(&self.parts, &IdempotencyKey::parse("x").unwrap(), TxType::Topup, TxState::Posted, None)
            },
        }
    }

    /// After the insert of the row: its outcome.
    pub fn insert_tx(self, inserted: AppResult<()>) -> (r: AppResult<TopupFlow<TxInserted>>)
        ensures
            match inserted {
                Ok(()) => r matches Ok(f) && f@ == self@,
                Err(e) => r matches Err(re) && re == e,
            },
    {
        match inserted {
            Ok(()) => Ok(TopupFlow { parts: self.parts, _state: PhantomData }),
            Err(e) => Err(e),
        }
    }
}

impl TopupFlow<TxInserted> {
    /// Posts the top-up on the balance rows: debits the system cash account and credits the
    /// user. Returns the two entries to record.
    pub fn apply(self, table: &mut BalanceTable) -> (r: AppResult<(TopupFlow<Applied>, [EntrySpec; 2])>)
        ensures
            match spec_post_from_system(
                old(table).rows@,
                self@.counterpart_id,
                self@.user_account_id,
                self@.currency@,
                self@.amount@ as int,
            ) {
                Ok(rows) => r matches Ok((f, es)) && f@ == self@ && es@ == double_entry(
                    self@.counterpart_id,
                    self@.user_account_id,
                    self@.currency,
                    self@.amount,
                ) && final(table).rows@ == rows,
                Err(e) => r matches Err(re) && re == e && final(table).rows@ == old(table).rows@,
            },
    {
        let p = self.parts;
        match post_topup(table, p.counterpart_id, p.user_account_id, &p.currency, p.amount) {
            Ok(entries) => Ok((TopupFlow { parts: p, _state: PhantomData }, entries)),
            Err(e) => Err(e),
        }
    }
}

impl TopupFlow<Applied> {
    /// The answer: the posted top-up, and its id.
    pub fn finish(self) -> (r: (PostOpResponse, TxId))
        ensures
            post_op_answer(r.0, self@.tx_id@, TxState::Posted, self@.currency@, self@.amount@),
            r.1 == self@.tx_id,
    {
        let p = self.parts;
        (post_op_response(&p.tx_id, TxState::Posted, &p.currency, p.amount), p.tx_id)
    }

    /// The `tx.posted` event of the top-up.
    pub fn posted_event(&self) -> (r: OutboxEvent)
        ensures
            event_is(r, "tx.posted"@, self@.tx_id@, TxType::Topup, TxState::Posted, self@.currency@, self@.amount@),
            r.extra@.len() == 0,
    {
        tx_event("tx.posted", &self.parts.tx_id, TxType::Topup, TxState::Posted, &self.parts.currency, self.parts.amount)
    }
}

// ----------------------------- Transfer -----------------------------

/// A transfer in progress.
pub struct TransferFlow<S> {
    parts: FlowParts,
    meta_json: String,
    _state: PhantomData<S>,
}

impl<S> View for TransferFlow<S> {
    type V = (FlowParts, String);

    closed spec fn view(&self) -> (FlowParts, String) {
        (self.parts, self.meta_json)
    }
}

impl TransferFlow<Started> {
    /// A transfer of `amount` from the sender's account to the receiver's, with its metadata.
    pub fn start(
        from_account_id: AccountId,
        to_account_id: AccountId,
        idempotency_key: &IdempotencyKey,
        currency: Currency,
        amount: AmountMinor,
        tx_id: TxId,
        now: String,
        meta_json: String,
    ) -> (r: Self)
        ensures
            r@.0 == (FlowParts {
                user_account_id: from_account_id,
                counterpart_id: to_account_id,
                currency,
                amount,
                tx_id,
                idempotency_key: Some(*idempotency_key),
                now,
            }),
            r@.1 == meta_json,
    {
        TransferFlow {
            parts: FlowParts {
                user_account_id: from_account_id,
                counterpart_id: to_account_id,
                currency,
                amount,
                tx_id,
                idempotency_key: Some(idempotency_key.clone()),
                now,
            },
            meta_json,
            _state: PhantomData,
        }
    }

    pub fn source_account_id(&self) -> (r: AccountId)
        ensures
            r == self@.0.user_account_id,
    {
        self.parts.user_account_id
    }

    /// A transaction found under the key is answered again; otherwise both accounts must be
    /// active (the sender's first).
    pub fn check_idempotency(
        self,
        existing: Option<PostOpResponse>,
        from_status: Option<String>,
        to_status: Option<String>,
    ) -> (r: AppResult<IdempotencyOutcome<TransferFlow<Started>>>)
        ensures
            idempotency_ok(
                existing,
                match active_outcome(from_status) {
                    Ok(()) => active_outcome(to_status),
                    Err(e) => Err(e),
                },
                |f: TransferFlow<Started>| f@ == self@,
                r,
            ),
    {
        let accounts = match require_account_active(from_status) {
            Ok(()) => require_account_active(to_status),
            Err(e) => Err(e),
        };
        match check_existing(existing, accounts) {
            Ok(Some((resp, id))) => Ok(IdempotencyOutcome::Existing(resp, id)),
            Ok(None) => Ok(IdempotencyOutcome::Proceed(self)),
            Err(e) => Err(e),
        }
    }

    /// The transaction row to insert: a posted transfer of the sender, with its metadata.
    pub fn new_tx(&self) -> (r: NewLedgerTx)
        requires
            self@.0.idempotency_key is Some,
        ensures
            r.id == self@.0.tx_id,
            r.idempotency_key == self@.0.idempotency_key->0,
            r.tx_type == TxType::Transfer,
            r.state == TxState::Posted,
            r.user_account_id == self@.0.user_account_id,
            r.currency == self@.0.currency,
            r.amount == self@.0.amount,
            r.created_at == self@.0.now,
            r.posted_at == self@.0.now,
            r.metadata_json == Some(self@.1),
    {
        match &self.parts.idempotency_key {
            Some(k) => new_tx(&self.parts, k, TxType::Transfer, TxState::Posted, Some(self.meta_json.clone())),
            None => {
                assert(false);
                new_tx(&self.parts, &IdempotencyKey::parse("x").unwrap(), TxType::Transfer, TxState::Posted, None)
            },
        }
    }

    /// After the insert of the row: its outcome.
    pub fn insert_tx(self, inserted: AppResult<()>) -> (r: AppResult<TransferFlow<TxInserted>>)
        ensures
            match inserted {
                Ok(()) => r matches Ok(f) && f@ == self@,
                Err(e) => r matches Err(re) && re == e,
            },
    {
        match inserted {
            Ok(()) => Ok(TransferFlow { parts: self.parts, meta_json: self.meta_json, _state: PhantomData }),
            Err(e) => Err(e),
        }
    }
}

impl TransferFlow<TxInserted> {
    /// Posts the transfer on the balance rows: the sender must have the amount available.
    /// Returns the two entries to record.
    pub fn apply(self, table: &mut BalanceTable) -> (r: AppResult<(TransferFlow<Applied>, [EntrySpec; 2])>)
        ensures
            match spec_post_transfer(
                old(table).rows@,
                self@.0.user_account_id,
                self@.0.counterpart_id,
                self@.0.currency@,
                self@.0.amount@ as int,
            ) {
                Ok(rows) => r matches Ok((f, es)) && f@ == self@ && es@ == double_entry(
                    self@.0.user_account_id,
                    self@.0.counterpart_id,
                    self@.0.currency,
                    self@.0.amount,
                ) && final(table).rows@ == rows,
                Err(e) => r matches Err(re) && re == e && final(table).rows@ == old(table).rows@,
            },
    {
        let p = self.parts;
        match post_transfer(table, p.user_account_id, p.counterpart_id, &p.currency, p.amount) {
            Ok(entries) => Ok((TransferFlow { parts: p, meta_json: self.meta_json, _state: PhantomData }, entries)),
            Err(e) => Err(e),
        }
    }
}

impl TransferFlow<Applied> {
    /// The answer: the posted transfer, and its id.
    pub fn finish(self) -> (r: (PostOpResponse, TxId))
        ensures
            post_op_answer(r.0, self@.0.tx_id@, TxState::Posted, self@.0.currency@, self@.0.amount@),
            r.1 == self@.0.tx_id,
    {
        let p = self.parts;
        (post_op_response(&p.tx_id, TxState::Posted, &p.currency, p.amount), p.tx_id)
    }

    /// The `tx.posted` event of the transfer, which also names the sender's and the
    /// receiver's accounts.
    pub fn posted_event(&self) -> (r: OutboxEvent)
        ensures
            event_is(r, "tx.posted"@, self@.0.tx_id@, TxType::Transfer, TxState::Posted, self@.0.currency@, self@.0.amount@),
            r.extra@.len() == 2,
            int_field(r.extra@[0], "from_account_id"@, self@.0.user_account_id@ as int),
            int_field(r.extra@[1], "to_account_id"@, self@.0.counterpart_id@ as int),
    {
        let p = &self.parts;
        let mut ev = tx_event("tx.posted", &p.tx_id, TxType::Transfer, TxState::Posted, &p.currency, p.amount);
        ev.extra.push(("from_account_id".to_owned(), EventValue::Int(p.user_account_id.get())));
        ev.extra.push(("to_account_id".to_owned(), EventValue::Int(p.counterpart_id.get())));
        proof {
            reveal_strlit("from_account_id");
            reveal_strlit("to_account_id");
        }
        ev
    }
}

// ------------------------------ Holds ------------------------------

/// A hold authorization in progress.
pub struct HoldAuthorizeFlow<S> {
    parts: FlowParts,
    _state: PhantomData<S>,
}

impl<S> View for HoldAuthorizeFlow<S> {
    type V = FlowParts;

    closed spec fn view(&self) -> FlowParts {
        self.parts
    }
}

impl HoldAuthorizeFlow<Started> {
    /// A hold of `amount` on the user's account.
    pub fn start(
        user_account_id: AccountId,
        idempotency_key: &IdempotencyKey,
        currency: Currency,
        amount: AmountMinor,
        tx_id: TxId,
        now: String,
    ) -> (r: Self)
        ensures
            r@ == (FlowParts {
                user_account_id,
                counterpart_id: user_account_id,
                currency,
                amount,
                tx_id,
                idempotency_key: Some(*idempotency_key),
                now,
            }),
    {
        HoldAuthorizeFlow {
            parts: FlowParts {
                user_account_id,
                counterpart_id: user_account_id,
                currency,
                amount,
                tx_id,
                idempotency_key: Some(idempotency_key.clone()),
                now,
            },
            _state: PhantomData,
        }
    }

    pub fn user_account_id(&self) -> (r: AccountId)
        ensures
            r == self@.user_account_id,
    {
        self.parts.user_account_id
    }

    /// A transaction found under the key is answered again; otherwise the user's account
    /// must be active.
    pub fn check_idempotency(self, existing: Option<PostOpResponse>, user_status: Option<String>) -> (r: AppResult<IdempotencyOutcome<HoldAuthorizeFlow<Started>>>)
        ensures
            idempotency_ok(existing, active_outcome(user_status), |f: HoldAuthorizeFlow<Started>| f@ == self@, r),
    {
        let accounts = require_account_active(user_status);
        match check_existing(existing, accounts) {
            Ok(Some((resp, id))) => Ok(IdempotencyOutcome::Existing(resp, id)),
            Ok(None) => Ok(IdempotencyOutcome::Proceed(self)),
            Err(e) => Err(e),
        }
    }

    /// The transaction row to insert: an authorized payment of the user.
    pub fn new_tx(&self) -> (r: NewLedgerTx)
        requires
            self@.idempotency_key is Some,
        ensures
            r.id == self@.tx_id,
            r.idempotency_key == self@.idempotency_key->0,
            r.tx_type == TxType::Payment,
            r.state == TxState::Authorized,
            r.user_account_id == self@.user_account_id,
            r.currency == self@.currency,
            r.amount == self@.amount,
            r.created_at == self@.now,
            r.posted_at == self@.now,
            r.metadata_json is None,
    {
        match &self.parts.idempotency_key {
            Some(k) => new_tx(&self.parts, k, TxType::Payment, TxState::Authorized, None),
            None => {
                assert(false);
                new_tx(&self.parts, &IdempotencyKey::parse("x").unwrap(), TxType::Payment, TxState::Authorized, None)
            },
        }
    }

    /// After the insert of the row: its outcome.
    pub fn insert_tx(self, inserted: AppResult<()>) -> (r: AppResult<HoldAuthorizeFlow<TxInserted>>)
        ensures
            match inserted {
                Ok(()) => r matches Ok(f) && f@ == self@,
                Err(e) => r matches Err(re) && re == e,
            },
    {
        match inserted {
            Ok(()) => Ok(HoldAuthorizeFlow { parts: self.parts, _state: PhantomData }),
            Err(e) => Err(e),
        }
    }
}

impl HoldAuthorizeFlow<TxInserted> {
    /// Moves the amount from the user's available balance to the hold.
    pub fn apply(self, table: &mut BalanceTable) -> (r: AppResult<HoldAuthorizeFlow<Applied>>)
        ensures
            match spec_move_available_to_hold_checked(
                old(table).rows@,
                self@.user_account_id,
                self@.currency@,
                self@.amount@ as int,
            ) {
                Ok(rows) => r matches Ok(f) && f@ == self@ && final(table).rows@ == rows,
                Err(e) => r matches Err(re) && re == e && final(table).rows@ == old(table).rows@,
            },
    {
        let p = self.parts;
        match post_hold_authorize(table, p.user_account_id, &p.currency, p.amount) {
            Ok(()) => Ok(HoldAuthorizeFlow { parts: p, _state: PhantomData }),
            Err(e) => Err(e),
        }
    }
}

impl HoldAuthorizeFlow<Applied> {
    /// The answer: the authorized hold, and its id.
    pub fn finish(self) -> (r: (PostOpResponse, TxId))
        ensures
            post_op_answer(r.0, self@.tx_id@, TxState::Authorized, self@.currency@, self@.amount@),
            r.1 == self@.tx_id,
    {
        let p = self.parts;
        (post_op_response(&p.tx_id, TxState::Authorized, &p.currency, p.amount), p.tx_id)
    }

    /// The `tx.authorized` event of the hold, which also names the user.
    pub fn authorized_event(&self, user: &UserId) -> (r: OutboxEvent)
        ensures
            event_is(r, "tx.authorized"@, self@.tx_id@, TxType::Payment, TxState::Authorized, self@.currency@, self@.amount@),
            r.extra@.len() == 1,
            text_field(r.extra@[0], "user_id"@, user@),
    {
        let p = &self.parts;
        let mut ev = tx_event("tx.authorized", &p.tx_id, TxType::Payment, TxState::Authorized, &p.currency, p.amount);
        ev.extra.push(("user_id".to_owned(), EventValue::Text(user.as_str().to_owned())));
        ev
    }
}

/// The parts of a settle flow on the hold or payment `tx_id`.
pub open spec fn settle_parts(tx_id: TxId, t: SettleTarget, counterpart_id: AccountId, now: String) -> FlowParts {
    FlowParts {
        user_account_id: t.user_account_id,
        counterpart_id,
        currency: t.currency,
        amount: t.amount,
        tx_id,
        idempotency_key: None,
        now,
    }
}

/// A state change of the transaction was made by a concurrent request.
pub open spec fn concurrent_change() -> AppError {
    AppError::Conflict("concurrent state change")
}

/// A hold capture in progress.
pub struct HoldCaptureFlow<S> {
    parts: FlowParts,
    _state: PhantomData<S>,
}

impl<S> View for HoldCaptureFlow<S> {
    type V = FlowParts;

    closed spec fn view(&self) -> FlowParts {
        self.parts
    }
}

impl HoldCaptureFlow<Started> {
    /// Captures the hold `tx_id` that `hold_capture_start` let through (`target`): the user's
    /// account (`user_status`) must be active.
    pub fn start(tx_id: &TxId, target: SettleTarget, user_status: Option<String>, now: String) -> (r: AppResult<HoldCaptureFlow<Started>>)
        ensures
            match active_outcome(user_status) {
                Ok(()) => r matches Ok(f) && f@ == settle_parts(*tx_id, target, target.user_account_id, now),
                Err(e) => r matches Err(re) && re == e,
            },
    {
        match require_account_active(user_status) {
            Ok(()) => Ok(
                HoldCaptureFlow {
                    parts: FlowParts {
                        user_account_id: target.user_account_id,
                        counterpart_id: target.user_account_id,
                        currency: target.currency,
                        amount: target.amount,
                        tx_id: *tx_id,
                        idempotency_key: None,
                        now,
                    },
                    _state: PhantomData,
                },
            ),
            Err(e) => Err(e),
        }
    }

    /// Posts the capture: the hold must still have been authorized when its state was set to
    /// posted (`state_updated`); the user's hold is spent and credited to the system cash
    /// account. Returns the two entries to record.
    pub fn apply(self, state_updated: bool, system_cash_id: AccountId, table: &mut BalanceTable) -> (r: AppResult<(HoldCaptureFlow<Applied>, [EntrySpec; 2])>)
        ensures
            !state_updated ==> (r matches Err(e) && e == concurrent_change() && final(table).rows@ == old(table).rows@),
            state_updated ==> match spec_post_capture(
                old(table).rows@,
                self@.user_account_id,
                system_cash_id,
                self@.currency@,
                self@.amount@ as int,
            ) {
                Ok(rows) => r matches Ok((f, es)) && f@ == (FlowParts { counterpart_id: system_cash_id, ..self@ })
                    && es@ == double_entry(self@.user_account_id, system_cash_id, self@.currency, self@.amount)
                    && final(table).rows@ == rows,
                Err(e) => r matches Err(re) && re == e && final(table).rows@ == old(table).rows@,
            },
    {
        if !state_updated {
            return Err(AppError::Conflict("concurrent state change"));
        }
        let p = self.parts;
        match post_hold_capture(table, p.user_account_id, system_cash_id, &p.currency, p.amount) {
            Ok(entries) => Ok((HoldCaptureFlow { parts: FlowParts { counterpart_id: system_cash_id, ..p }, _state: PhantomData }, entries)),
            Err(e) => Err(e),
        }
    }
}

impl HoldCaptureFlow<Applied> {
    /// The answer: the posted payment, and its id.
    pub fn finish(self) -> (r: (PostOpResponse, TxId))
        ensures
            post_op_answer(r.0, self@.tx_id@, TxState::Posted, self@.currency@, self@.amount@),
            r.1 == self@.tx_id,
    {
        let p = self.parts;
        (post_op_response(&p.tx_id, TxState::Posted, &p.currency, p.amount), p.tx_id)
    }

    /// The `tx.posted` event of the captured payment.
    pub fn posted_event(&self) -> (r: OutboxEvent)
        ensures
            event_is(r, "tx.posted"@, self@.tx_id@, TxType::Payment, TxState::Posted, self@.currency@, self@.amount@),
            r.extra@.len() == 0,
    {
        tx_event("tx.posted", &self.parts.tx_id, TxType::Payment, TxState::Posted, &self.parts.currency, self.parts.amount)
    }
}

/// A hold cancel in progress.
pub struct HoldCancelFlow<S> {
    parts: FlowParts,
    _state: PhantomData<S>,
}

impl<S> View for HoldCancelFlow<S> {
    type V = FlowParts;

    closed spec fn view(&self) -> FlowParts {
        self.parts
    }
}

impl HoldCancelFlow<Started> {
    /// Cancels the hold `tx_id` that `hold_cancel_start` let through (`target`): the user's
    /// account (`user_status`) must be active.
    pub fn start(tx_id: &TxId, target: SettleTarget, user_status: Option<String>, now: String) -> (r: AppResult<HoldCancelFlow<Started>>)
        ensures
            match active_outcome(user_status) {
                Ok(()) => r matches Ok(f) && f@ == settle_parts(*tx_id, target, target.user_account_id, now),
                Err(e) => r matches Err(re) && re == e,
            },
    {
        match require_account_active(user_status) {
            Ok(()) => Ok(
                HoldCancelFlow {
                    parts: FlowParts {
                        user_account_id: target.user_account_id,
                        counterpart_id: target.user_account_id,
                        currency: target.currency,
                        amount: target.amount,
                        tx_id: *tx_id,
                        idempotency_key: None,
                        now,
                    },
                    _state: PhantomData,
                },
            ),
            Err(e) => Err(e),
        }
    }

    /// Releases the hold: it must still have been authorized when its state was set to
    /// reversed (`state_updated`); the amount moves back from the hold to the available
    /// balance.
    pub fn apply(self, state_updated: bool, table: &mut BalanceTable) -> (r: AppResult<HoldCancelFlow<Applied>>)
        ensures
            !state_updated ==> (r matches Err(e) && e == concurrent_change() && final(table).rows@ == old(table).rows@),
            state_updated ==> match spec_release_hold_to_available_checked(
                old(table).rows@,
                self@.user_account_id,
                self@.currency@,
                self@.amount@ as int,
            ) {
                Ok(rows) => r matches Ok(f) && f@ == self@ && final(table).rows@ == rows,
                Err(e) => r matches Err(re) && re == e && final(table).rows@ == old(table).rows@,
            },
    {
        if !state_updated {
            return Err(AppError::Conflict("concurrent state change"));
        }
        let p = self.parts;
        match post_hold_cancel(table, p.user_account_id, &p.currency, p.amount) {
            Ok(()) => Ok(HoldCancelFlow { parts: p, _state: PhantomData }),
            Err(e) => Err(e),
        }
    }
}

impl HoldCancelFlow<Applied> {
    /// The answer: the reversed hold, and its id.
    pub fn finish(self) -> (r: (PostOpResponse, TxId))
        ensures
            post_op_answer(r.0, self@.tx_id@, TxState::Reversed, self@.currency@, self@.amount@),
            r.1 == self@.tx_id,
    {
        let p = self.parts;
        (post_op_response(&p.tx_id, TxState::Reversed, &p.currency, p.amount), p.tx_id)
    }

    /// The `tx.reversed` event of the canceled payment.
    pub fn reversed_event(&self) -> (r: OutboxEvent)
        ensures
            event_is(r, "tx.reversed"@, self@.tx_id@, TxType::Payment, TxState::Reversed, self@.currency@, self@.amount@),
            r.extra@.len() == 0,
    {
        tx_event("tx.reversed", &self.parts.tx_id, TxType::Payment, TxState::Reversed, &self.parts.currency, self.parts.amount)
    }
}

// ------------------------------ Refund ------------------------------

/// A refund in progress.
pub struct RefundFlow<S> {
    parts: FlowParts,
    _state: PhantomData<S>,
}

impl<S> View for RefundFlow<S> {
    type V = FlowParts;

    closed spec fn view(&self) -> FlowParts {
        self.parts
    }
}

impl RefundFlow<Started> {
    /// Refunds the payment `tx_id` that `refund_start` let through (`target`): the user's
    /// account (`user_status`) must be active.
    pub fn start(tx_id: &TxId, target: SettleTarget, user_status: Option<String>, now: String) -> (r: AppResult<RefundFlow<Started>>)
        ensures
            match active_outcome(user_status) {
                Ok(()) => r matches Ok(f) && f@ == settle_parts(*tx_id, target, target.user_account_id, now),
                Err(e) => r matches Err(re) && re == e,
            },
    {
        match require_account_active(user_status) {
            Ok(()) => Ok(
                RefundFlow {
                    parts: FlowParts {
                        user_account_id: target.user_account_id,
                        counterpart_id: target.user_account_id,
                        currency: target.currency,
                        amount: target.amount,
                        tx_id: *tx_id,
                        idempotency_key: None,
                        now,
                    },
                    _state: PhantomData,
                },
            ),
            Err(e) => Err(e),
        }
    }

    /// The refund transaction row to insert, under the new id `refund_tx_id`: a posted refund
    /// of the user's account, keyed `refund:<id>`, whose metadata names the payment. The
    /// payment must still have been posted when its state was set to refunded
    /// (`state_updated`).
    pub fn refund_tx(&self, state_updated: bool, refund_tx_id: &TxId) -> (r: AppResult<NewLedgerTx>)
        ensures
            !state_updated ==> (r matches Err(e) && e == concurrent_change()),
            state_updated ==> match r {
                Ok(t) => {
                    &&& t.id == *refund_tx_id
                    &&& t.idempotency_key@ == crate::text::trim("refund:"@ + uuid_hyphenated_text(refund_tx_id@))
                    &&& t.tx_type == TxType::Refund
                    &&& t.state == TxState::Posted
                    &&& t.user_account_id == self@.user_account_id
                    &&& t.currency == self@.currency
                    &&& t.amount == self@.amount
                    &&& t.created_at == self@.now
                    &&& t.posted_at == self@.now
                    &&& t.metadata_json matches Some(m) && json_parses(m@) && json_str_field(m@, "original_tx_id"@)
                        == Some(uuid_hyphenated_text(self@.tx_id@))
                },
                Err(_) => !crate::domain::idempotency_key_parse_ok("refund:"@ + uuid_hyphenated_text(refund_tx_id@)),
            },
    {
        if !state_updated {
            return Err(AppError::Conflict("concurrent state change"));
        }
        let key = refund_idempotency_key(refund_tx_id)?;
        let meta = refund_metadata(&self.parts.tx_id);
        let p = FlowParts { tx_id: *refund_tx_id, ..self.parts.clone() };
        let t = new_tx(&p, &key, TxType::Refund, TxState::Posted, Some(meta));
        Ok(t)
    }

    /// Posts the refund on the balance rows: the payment must still have been posted when its
    /// state was set to refunded (`state_updated`); the system cash account is debited and the
    /// user credited. Returns the two entries of the refund transaction `refund_tx_id`.
    pub fn apply(self, state_updated: bool, refund_tx_id: TxId, system_cash_id: AccountId, table: &mut BalanceTable) -> (r: AppResult<(RefundFlow<Applied>, RefundApplied, [EntrySpec; 2])>)
        ensures
            !state_updated ==> (r matches Err(e) && e == concurrent_change() && final(table).rows@ == old(table).rows@),
            state_updated ==> match spec_post_from_system(
                old(table).rows@,
                system_cash_id,
                self@.user_account_id,
                self@.currency@,
                self@.amount@ as int,
            ) {
                Ok(rows) => r matches Ok((f, applied, es)) && f@ == (FlowParts { counterpart_id: system_cash_id, ..self@ })
                    && applied.refund_tx_id == refund_tx_id && es@ == double_entry(
                    system_cash_id,
                    self@.user_account_id,
                    self@.currency,
                    self@.amount,
                ) && final(table).rows@ == rows,
                Err(e) => r matches Err(re) && re == e && final(table).rows@ == old(table).rows@,
            },
    {
        if !state_updated {
            return Err(AppError::Conflict("concurrent state change"));
        }
        let p = self.parts;
        match post_refund(table, system_cash_id, p.user_account_id, &p.currency, p.amount) {
            Ok(entries) => Ok((
                RefundFlow { parts: FlowParts { counterpart_id: system_cash_id, ..p }, _state: PhantomData },
                RefundApplied { refund_tx_id },
                entries,
            )),
            Err(e) => Err(e),
        }
    }
}

impl RefundFlow<Applied> {
    /// The answer: the refunded payment with its refund, and the refund's id.
    pub fn finish(self, applied: RefundApplied) -> (r: (RefundResponse, TxId))
        ensures
            r.0.original_tx_id@ == uuid_hyphenated_text(self@.tx_id@),
            r.0.refund_tx_id@ == uuid_hyphenated_text(applied.refund_tx_id@),
            r.0.state@ == TxState::Refunded.text(),
            r.0.currency@ == self@.currency@,
            r.0.amount_minor == self@.amount@,
            r.1 == applied.refund_tx_id,
    {
        let p = self.parts;
        (refund_response(&p.tx_id, &applied.refund_tx_id, &p.currency, p.amount), applied.refund_tx_id)
    }

    /// The two events of the refund: `tx.refunded` of the payment, naming the refund, and
    /// `tx.posted` of the refund transaction, naming the payment.
    pub fn events(&self, applied: &RefundApplied) -> (r: (OutboxEvent, OutboxEvent))
        ensures
            event_is(r.0, "tx.refunded"@, self@.tx_id@, TxType::Payment, TxState::Refunded, self@.currency@, self@.amount@),
            r.0.extra@.len() == 1,
            text_field(r.0.extra@[0], "refund_tx_id"@, uuid_hyphenated_text(applied.refund_tx_id@)),
            event_is(r.1, "tx.posted"@, applied.refund_tx_id@, TxType::Refund, TxState::Posted, self@.currency@, self@.amount@),
            r.1.extra@.len() == 1,
            text_field(r.1.extra@[0], "original_tx_id"@, uuid_hyphenated_text(self@.tx_id@)),
    {
        let p = &self.parts;
        let mut refunded = tx_event("tx.refunded", &p.tx_id, TxType::Payment, TxState::Refunded, &p.currency, p.amount);
        refunded.extra.push(("refund_tx_id".to_owned(), EventValue::Text(applied.refund_tx_id.to_string_hyphenated())));
        let mut posted = tx_event("tx.posted", &applied.refund_tx_id, TxType::Refund, TxState::Posted, &p.currency, p.amount);
        posted.extra.push(("original_tx_id".to_owned(), EventValue::Text(p.tx_id.to_string_hyphenated())));
        (refunded, posted)
    }
}


/// Law: an operation answered once is answered again, unchanged, by every later request under
/// its idempotency key. The answer that a finished flow gives (`post_op_answer` of its
/// transaction), stored with the transaction and found under the key by a later request,
/// makes that request's idempotency check answer it again with the same transaction id; the
/// check then hands out no flow, so nothing is inserted or posted a second time.
pub proof fn lemma_stored_answer_replays<T>(
    stored: PostOpResponse,
    tx_id: u128,
    state: TxState,
    currency: Seq<char>,
    amount: u64,
    accounts: Result<(), AppError>,
    proceed: spec_fn(T) -> bool,
    r: AppResult<IdempotencyOutcome<T>>,
)
    requires
        post_op_answer(stored, tx_id, state, currency, amount),
        idempotency_ok(Some(stored), accounts, proceed, r),
    ensures
        r matches Ok(IdempotencyOutcome::Existing(resp, id)) && resp == stored && id@ == tx_id,
{
}

} // verus!
