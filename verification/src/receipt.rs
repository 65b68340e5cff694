//! Transaction receipts: the header, the entries with their parties, and the metadata.
use vstd::prelude::*;

use crate::error::{AppError, AppResult};
use crate::json::{json_get_i64, json_get_str, json_i64_field, json_is_valid, json_parses, json_str_field};
use crate::models::{TxReceiptEntryItem, TxReceiptResponse};
use crate::text::{str_eq, trim, trim_str};

verus! {

/// A `ledger_transactions` row, as a receipt reads it.
#[derive(Debug, Clone)]
pub struct TxHeaderRow {
    pub tx_id: String,
    pub tx_type: String,
    pub state: String,
    pub user_account_id: i64,
    pub currency: String,
    pub amount_minor: i64,
    pub created_at: String,
    pub posted_at: String,
    pub metadata_json: Option<String>,
}

/// A ledger entry joined with its account, as a receipt reads it.
#[derive(Debug)]
pub struct ReceiptEntryRow {
    pub owner_type: String,
    pub owner_id: String,
    pub label: String,
    pub currency: String,
    pub direction: String,
    pub amount_minor: i64,
}

/// The error of an entry row that a receipt cannot show, if any: the party must be a user or
/// the system, the direction a debit or a credit.
pub open spec fn receipt_entry_error(row: ReceiptEntryRow) -> Option<AppError> {
    if !(row.owner_type@ == "user"@ || row.owner_type@ == "system"@) {
        Some(AppError::Internal("unknown account owner_type"))
    } else if !(row.direction@ == "debit"@ || row.direction@ == "credit"@) {
        Some(AppError::Internal("unknown ledger entry direction"))
    } else {
        None
    }
}

/// The receipt entry shows the row: the party, its label when it has one (trimmed), and the
/// absolute amount.
pub open spec fn receipt_entry_shows(item: TxReceiptEntryItem, row: ReceiptEntryRow) -> bool {
    &&& item.party_type@ == row.owner_type@
    &&& item.party_id@ == row.owner_id@
    &&& (trim(row.label@).len() == 0 ==> item.party_label is None)
    &&& (trim(row.label@).len() != 0 ==> (item.party_label matches Some(l) && l@ == trim(row.label@)))
    &&& item.currency@ == row.currency@
    &&& item.direction@ == row.direction@
    &&& item.amount_minor == if row.amount_minor < 0 {
        -row.amount_minor
    } else {
        row.amount_minor as int
    }
}

/// A receipt entry of a ledger entry row.
pub fn receipt_entry(row: ReceiptEntryRow) -> (r: AppResult<TxReceiptEntryItem>)
    requires
        row.amount_minor > i64::MIN,
    ensures
        match receipt_entry_error(row) {
            Some(e) => r matches Err(re) && re == e,
            None => r matches Ok(item) && receipt_entry_shows(item, row),
        },
{
    if !(str_eq(row.owner_type.as_str(), "user") || str_eq(row.owner_type.as_str(), "system")) {
        return Err(AppError::Internal("unknown account owner_type"));
    }
    if !(str_eq(row.direction.as_str(), "debit") || str_eq(row.direction.as_str(), "credit")) {
        return Err(AppError::Internal("unknown ledger entry direction"));
    }
    let trimmed = trim_str(row.label.as_str());
    let party_label = if trimmed.as_str().is_empty() {
        None
    } else {
        Some(trimmed)
    };
    let amount = if row.amount_minor < 0 {
        -row.amount_minor
    } else {
        row.amount_minor
    };
    Ok(TxReceiptEntryItem {
        party_type: row.owner_type,
        party_id: row.owner_id,
        party_label,
        currency: row.currency,
        direction: row.direction,
        amount_minor: amount,
    })
}

/// The entries of a receipt, in order; the first row that cannot be shown fails the receipt.
pub fn receipt_entries(rows: Vec<ReceiptEntryRow>) -> (r: AppResult<Vec<TxReceiptEntryItem>>)
    requires
        forall|i: int| 0 <= i < rows@.len() ==> (#[trigger] rows@[i]).amount_minor > i64::MIN,
    ensures
        (forall|i: int| 0 <= i < rows@.len() ==> receipt_entry_error(#[trigger] rows@[i]) is None) ==> (
        r matches Ok(items) && items@.len() == rows@.len() && forall|i: int|
            0 <= i < rows@.len() ==> receipt_entry_shows(#[trigger] items@[i], rows@[i])),
        r matches Err(e) ==> exists|i: int|
            0 <= i < rows@.len() && receipt_entry_error(#[trigger] rows@[i]) == Some(e) && forall|j: int|
                0 <= j < i ==> receipt_entry_error(#[trigger] rows@[j]) is None,
{
    let ghost orig = rows@;
    let mut rest = rows;
    let mut items: Vec<TxReceiptEntryItem> = Vec::new();
    let n = rest.len();
    let mut k: usize = 0;
    while rest.len() > 0
        invariant
            orig == rows@,
            n == orig.len(),
            k + rest@.len() == n,
            rest@ == orig.subrange(k as int, n as int),
            items@.len() == k,
            forall|i: int| 0 <= i < orig.len() ==> (#[trigger] orig[i]).amount_minor > i64::MIN,
            forall|i: int| 0 <= i < k ==> receipt_entry_error(#[trigger] orig[i]) is None,
            forall|i: int| 0 <= i < k ==> receipt_entry_shows(#[trigger] items@[i], orig[i]),
        decreases rest@.len(),
    {
        let row = rest.remove(0);
        assert(row == orig[k as int]);
        match receipt_entry(row) {
            Ok(item) => {
                items.push(item);
                k = k + 1;
                assert(rest@ =~= orig.subrange(k as int, n as int));
            },
            Err(e) => {
                proof {
                    assert(receipt_entry_error(orig[k as int]) == Some(e));
                }
                return Err(e);
            },
        }
    }
    Ok(items)
}

/// The optional metadata fields of a receipt: all absent unless the metadata is JSON.
pub open spec fn receipt_metadata(raw: Option<Seq<char>>) -> (
    Option<Seq<char>>,
    Option<Seq<char>>,
    Option<Seq<char>>,
    Option<i64>,
) {
    match raw {
        Some(s) => if json_parses(s) {
            (
                json_str_field(s, "memo"@),
                json_str_field(s, "merchant_label"@),
                json_str_field(s, "fx_rate"@),
                json_i64_field(s, "fee_minor"@),
            )
        } else {
            (None, None, None, None)
        },
        None => (None, None, None, None),
    }
}

/// The view of optional text.
pub open spec fn opt_text(o: Option<String>) -> Option<Seq<char>> {
    match o {
        Some(s) => Some(s@),
        None => None,
    }
}

/// Reads memo, merchant label, exchange rate and fee from the metadata of a transaction.
pub fn parse_receipt_metadata(raw: Option<&str>) -> (r: (
    Option<String>,
    Option<String>,
    Option<String>,
    Option<i64>,
))
    ensures
        ({
            let m = receipt_metadata(
                match raw {
                    Some(s) => Some(s@),
                    None => None,
                },
            );
            &&& opt_text(r.0) == m.0
            &&& opt_text(r.1) == m.1
            &&& opt_text(r.2) == m.2
            &&& r.3 == m.3
        }),
{
    let s = match raw {
        Some(s) => s,
        None => return (None, None, None, None),
    };
    if !json_is_valid(s) {
        return (None, None, None, None);
    }
    let memo = json_get_str(s, "memo");
    let merchant_label = json_get_str(s, "merchant_label");
    let fx_rate = json_get_str(s, "fx_rate");
    let fee_minor = json_get_i64(s, "fee_minor");
    (memo, merchant_label, fx_rate, fee_minor)
}

/// A user sees a receipt when one of its entries is theirs or the transaction is theirs;
/// otherwise it is not found.
pub fn require_receipt_visible(has_entry: bool, header_user_account_id: i64, user_account_id: i64) -> (r: AppResult<()>)
    ensures
        (has_entry || header_user_account_id == user_account_id) ==> r is Ok,
        !(has_entry || header_user_account_id == user_account_id) ==> (r matches Err(e) && e
            == AppError::NotFound("tx not found")),
{
    if has_entry || header_user_account_id == user_account_id {
        Ok(())
    } else {
        Err(AppError::NotFound("tx not found"))
    }
}

/// A receipt: the header fields, the metadata fields, and the entries.
pub fn receipt_response(header: TxHeaderRow, entries: Vec<TxReceiptEntryItem>) -> (r: TxReceiptResponse)
    ensures
        r.tx_id@ == header.tx_id@,
        r.tx_type@ == header.tx_type@,
        r.state@ == header.state@,
        r.currency@ == header.currency@,
        r.amount_minor == header.amount_minor,
        r.created_at@ == header.created_at@,
        r.posted_at@ == header.posted_at@,
        ({
            let m = receipt_metadata(opt_text(header.metadata_json));
            &&& opt_text(r.memo) == m.0
            &&& opt_text(r.merchant_label) == m.1
            &&& opt_text(r.fx_rate) == m.2
            &&& r.fee_minor == m.3
        }),
        r.entries == entries,
{
    let (memo, merchant_label, fx_rate, fee_minor) = match &header.metadata_json {
        Some(m) => parse_receipt_metadata(Some(m.as_str())),
        None => parse_receipt_metadata(None),
    };
    TxReceiptResponse {
        tx_id: header.tx_id,
        tx_type: header.tx_type,
        state: header.state,
        currency: header.currency,
        amount_minor: header.amount_minor,
        created_at: header.created_at,
        posted_at: header.posted_at,
        memo,
        merchant_label,
        fx_rate,
        fee_minor,
        entries,
    }
}


/// Law: a receipt shows the entries of both kinds of party. An entry row of the system (such
/// as the cash account of a top-up, a capture or a refund) or of a user, debit or credit, is
/// shown; a system entry is shown exactly when the same entry of a user would be; only an
/// owner type other than "user" and "system" is refused as unknown.
pub proof fn lemma_receipt_shows_user_and_system_parties(row: ReceiptEntryRow, other: ReceiptEntryRow)
    ensures
        (row.owner_type@ == "user"@ || row.owner_type@ == "system"@) && (row.direction@ == "debit"@
            || row.direction@ == "credit"@) ==> receipt_entry_error(row) is None,
        row.owner_type@ == "system"@ && other.owner_type@ == "user"@ && other.direction@ == row.direction@
            ==> receipt_entry_error(row) == receipt_entry_error(other),
        receipt_entry_error(row) == Some(AppError::Internal("unknown account owner_type"))
            <==> !(row.owner_type@ == "user"@ || row.owner_type@ == "system"@),
{
}

} // verus!
