//! The outbox events that the monetary operations publish.
use vstd::prelude::*;

use crate::codec::uuid_hyphenated_text;
use crate::domain::{AmountMinor, Currency, TxId, TxState, TxType};

verus! {

/// A value of the payload of an event.
#[derive(Debug)]
pub enum EventValue {
    Text(String),
    Int(i64),
}

/// A row of `outbox_events`: its type, the transaction it is about, and its payload (the
/// transaction's id, type, state, currency and amount, and further named fields).
#[derive(Debug)]
pub struct OutboxEvent {
    pub event_type: String,
    pub aggregate_id: String,
    pub tx_id: String,
    pub tx_type: String,
    pub state: String,
    pub currency: String,
    pub amount_minor: i64,
    pub extra: Vec<(String, EventValue)>,
}

/// The event has the type `event_type` and is about the transaction `tx` (its aggregate and
/// its payload's `tx_id`), of the given type, state, currency and amount.
pub open spec fn event_is(
    ev: OutboxEvent,
    event_type: Seq<char>,
    tx: u128,
    tx_type: TxType,
    state: TxState,
    currency: Seq<char>,
    amount: u64,
) -> bool {
    &&& ev.event_type@ == event_type
    &&& ev.aggregate_id@ == uuid_hyphenated_text(tx)
    &&& ev.tx_id@ == uuid_hyphenated_text(tx)
    &&& ev.tx_type@ == tx_type.text()
    &&& ev.state@ == state.text()
    &&& ev.currency@ == currency
    &&& ev.amount_minor == amount
}

/// The payload field is the text `value` under the name `name`.
pub open spec fn text_field(f: (String, EventValue), name: Seq<char>, value: Seq<char>) -> bool {
    &&& f.0@ == name
    &&& f.1 matches EventValue::Text(t)
    &&& t@ == value
}

/// The payload field is the number `value` under the name `name`.
pub open spec fn int_field(f: (String, EventValue), name: Seq<char>, value: int) -> bool {
    &&& f.0@ == name
    &&& f.1 matches EventValue::Int(v)
    &&& v == value
}

/// The event about a transaction, with no further payload fields.
pub fn tx_event(
    event_type: &str,
    tx_id: &TxId,
    tx_type: TxType,
    state: TxState,
    currency: &Currency,
    amount: AmountMinor,
) -> (r: OutboxEvent)
    ensures
        event_is(r, event_type@, tx_id@, tx_type, state, currency@, amount@),
        r.extra@.len() == 0,
{
    let id = tx_id.to_string_hyphenated();
    OutboxEvent {
        event_type: event_type.to_owned(),
        aggregate_id: id.clone(),
        tx_id: id,
        tx_type: tx_type.as_str().to_owned(),
        state: state.as_str().to_owned(),
        currency: currency.as_str().to_owned(),
        amount_minor: amount.as_i64(),
        extra: Vec::new(),
    }
}

} // verus!
