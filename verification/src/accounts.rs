//! Account identifiers of the API (`acc_<id>`) and the answers about accounts.
use vstd::prelude::*;

use crate::decimal::{decimal_int, format_i64, lemma_parse_format_i64, parse_i64, parse_i64_spec};
use crate::domain::{AccountId, AccountStatus, Currency, UserId};
use crate::error::{ApiError, ApiResult};
use crate::models::{
    AccountBalanceResponseV33, AccountDetailsResponseV33, AccountItemV33, AccountRow,
    AdminCloseAccountResponse, AdminCreateAccountResponse, AdminUserItem, AdminUserRow, AdminUsersResponse,
    DevAccountItem, DevUserItem,
    ProfileResponse,
};
use crate::text::{chars_of, chars_suffix, is_ws, starts_with, str_starts_with, string_from_chars, trim, trim_end, trim_start, trim_str};

verus! {

/// The API text of an account id: `acc_` and the decimal number.
pub open spec fn account_id_text(id: int) -> Seq<char> {
    "acc_"@ + decimal_int(id)
}

/// The number that an account id parameter denotes: the trimmed text, without an `acc_`
/// prefix if it has one, read as an `i64`.
pub open spec fn account_id_param_value(s: Seq<char>) -> Option<i64> {
    let raw = trim(s);
    let digits = if starts_with(raw, "acc_"@) {
        raw.subrange(4, raw.len() as int)
    } else {
        raw
    };
    parse_i64_spec(digits)
}

/// The API id of a currency account: `acc_<id>`.
pub fn fmt_currency_account_id(id: i64) -> (r: String)
    ensures
        r@ == account_id_text(id as int),
{
    proof {
        reveal_strlit("acc_");
    }
    "acc_".to_owned().concat(format_i64(id).as_str())
}

/// Reads an account id parameter (`acc_<id>` or a bare number).
pub fn parse_currency_account_id_param(account_id: &str) -> (r: ApiResult<i64>)
    ensures
        match account_id_param_value(account_id@) {
            Some(v) => r matches Ok(x) && x == v,
            None => r matches Err(e) && e == ApiError::BadRequest("invalid account_id"),
        },
{
    let raw = trim_str(account_id);
    proof {
        reveal_strlit("acc_");
    }
    let digits = if str_starts_with(raw.as_str(), "acc_") {
        let v = chars_of(raw.as_str());
        string_from_chars(&chars_suffix(&v, 4))
    } else {
        raw
    };
    match parse_i64(digits.as_str()) {
        Some(v) => Ok(v),
        None => Err(ApiError::BadRequest("invalid account_id")),
    }
}

/// Reads an account id parameter as an `AccountId`.
pub fn parse_account_id_param(account_id: &str) -> (r: ApiResult<AccountId>)
    ensures
        match account_id_param_value(account_id@) {
            Some(v) => r matches Ok(x) && x@ == v,
            None => r matches Err(e) && e == ApiError::BadRequest("invalid account_id"),
        },
{
    match parse_currency_account_id_param(account_id) {
        Ok(v) => Ok(AccountId::new(v)),
        Err(e) => Err(e),
    }
}

proof fn lemma_decimal_no_ws(n: int)
    ensures
        decimal_int(n).len() >= 1,
        !is_ws(decimal_int(n).last()),
        !is_ws(decimal_int(n)[0]),
{
    lemma_parse_format_i64_digits(n);
}

proof fn lemma_parse_format_i64_digits(n: int)
    ensures
        decimal_int(n).len() >= 1,
        '0' <= decimal_int(n).last() <= '9',
        decimal_int(n)[0] == '-' || '0' <= decimal_int(n)[0] <= '9',
{
    crate::decimal::lemma_decimal_int_shape(n);
}

/// Law: the API text of an account id reads back as the same id.
pub proof fn lemma_account_id_text_roundtrip(id: i64)
    ensures
        account_id_param_value(account_id_text(id as int)) == Some(id),
{
    reveal_strlit("acc_");
    let t = account_id_text(id as int);
    let d = decimal_int(id as int);
    lemma_decimal_no_ws(id as int);
    assert(t[0] == 'a');
    assert(!is_ws(t[0]));
    assert(t.last() == d.last());
    assert(trim_start(t) == t);
    assert(trim_end(t) == t);
    assert(trim(t) == t);
    assert(t.subrange(0, 4) =~= "acc_"@);
    assert(t.subrange(4, t.len() as int) =~= d);
    lemma_parse_format_i64(id);
}

/// An account of a user, as the account list shows it.
pub fn account_item(id: i64, currency: String, status: String, label: String) -> (r: AccountItemV33)
    ensures
        r.account_id@ == account_id_text(id as int),
        r.currency@ == currency@,
        r.status@ == status@,
        r.label@ == label@,
{
    AccountItemV33 { account_id: fmt_currency_account_id(id), currency, status, label }
}

/// The balance of a currency account; a missing balance row reads as zero.
pub fn account_balance_response(
    currency_account_id: i64,
    currency: String,
    balance: Option<(i64, i64)>,
) -> (r: AccountBalanceResponseV33)
    ensures
        r.account_id@ == account_id_text(currency_account_id as int),
        r.currency@ == currency@,
        match balance {
            Some((a, h)) => r.available_minor == a && r.hold_minor == h,
            None => r.available_minor == 0 && r.hold_minor == 0,
        },
{
    let (available_minor, hold_minor) = match balance {
        Some(b) => b,
        None => (0, 0),
    };
    AccountBalanceResponseV33 {
        account_id: fmt_currency_account_id(currency_account_id),
        currency,
        available_minor,
        hold_minor,
    }
}

/// The currency account as a details record, with its balance, and its owner for an admin.
pub fn account_details_response(
    currency_account_id: i64,
    currency: String,
    status: String,
    label: String,
    created_at: String,
    closed_at: Option<String>,
    balance: Option<(i64, i64)>,
    owner_phone_number: Option<String>,
) -> (r: AccountDetailsResponseV33)
    ensures
        r.account_id@ == account_id_text(currency_account_id as int),
        r.currency@ == currency@,
        r.status@ == status@,
        r.label@ == label@,
        r.created_at@ == created_at@,
        r.closed_at == closed_at,
        r.owner_phone_number == owner_phone_number,
        r.balance.account_id@ == account_id_text(currency_account_id as int),
        r.balance.currency@ == currency@,
        match balance {
            Some((a, h)) => r.balance.available_minor == a && r.balance.hold_minor == h,
            None => r.balance.available_minor == 0 && r.balance.hold_minor == 0,
        },
{
    let cur2 = currency.clone();
    let bal = account_balance_response(currency_account_id, cur2, balance);
    AccountDetailsResponseV33 {
        account_id: fmt_currency_account_id(currency_account_id),
        currency,
        status,
        label,
        created_at,
        closed_at,
        balance: bal,
        owner_phone_number,
    }
}

/// The profile of a user: its id is its phone number.
pub fn profile_response(user: &UserId) -> (r: ProfileResponse)
    ensures
        r.phone_number@ == user@,
        r.email is None,
        r.full_name is None,
{
    ProfileResponse { phone_number: user.as_str().to_owned(), email: None, full_name: None }
}

/// The answer to creating an account: the account row as the API shows it (an unknown
/// status reads as active).
pub fn admin_create_account_response(
    row: AccountRow,
    currency: &Currency,
    owner: &UserId,
) -> (r: AdminCreateAccountResponse)
    ensures
        r.account_id@ == account_id_text(row.id as int),
        r.status@ == match AccountStatus::spec_from_db_str_lossy(row.status@) {
            Some(s) => s.api_text(),
            None => AccountStatus::Active.api_text(),
        },
        r.currency@ == currency@,
        r.owner_user_id@ == owner@,
        r.created_at@ == row.created_at@,
{
    let status = match AccountStatus::from_db_str_lossy(row.status.as_str()) {
        Some(s) => s,
        None => AccountStatus::Active,
    };
    AdminCreateAccountResponse {
        account_id: fmt_currency_account_id(row.id),
        status: status.as_api_str().to_owned(),
        currency: currency.as_str().to_owned(),
        owner_user_id: owner.as_str().to_owned(),
        created_at: row.created_at,
    }
}

/// The answer to closing an account (an unknown status reads as closed; a missing close time
/// reads as `now`).
pub fn admin_close_account_response(row: AccountRow, now: String) -> (r: AdminCloseAccountResponse)
    ensures
        r.account_id@ == account_id_text(row.id as int),
        r.status@ == match AccountStatus::spec_from_db_str_lossy(row.status@) {
            Some(s) => s.api_text(),
            None => AccountStatus::Closed.api_text(),
        },
        r.closed_at@ == match row.closed_at {
            Some(c) => c@,
            None => now@,
        },
{
    let status = match AccountStatus::from_db_str_lossy(row.status.as_str()) {
        Some(s) => s,
        None => AccountStatus::Closed,
    };
    let closed_at = match row.closed_at {
        Some(c) => c,
        None => now,
    };
    AdminCloseAccountResponse {
        account_id: fmt_currency_account_id(row.id),
        status: status.as_api_str().to_owned(),
        closed_at,
    }
}

/// After closing: a closed account without a close time must get one.
pub fn closed_without_closed_at(row: &AccountRow) -> (r: bool)
    ensures
        r == (AccountStatus::spec_from_db_str_lossy(row.status@) == Some(AccountStatus::Closed)
            && row.closed_at is None),
{
    let closed = match AccountStatus::from_db_str_lossy(row.status.as_str()) {
        Some(AccountStatus::Closed) => true,
        _ => false,
    };
    closed && row.closed_at.is_none()
}

/// The label to store when creating an account: the trimmed label, unless it is empty.
pub fn label_to_store(label: &str) -> (r: Option<String>)
    ensures
        trim(label@).len() == 0 ==> r is None,
        trim(label@).len() != 0 ==> (r matches Some(l) && l@ == trim(label@)),
{
    let t = trim_str(label);
    if t.as_str().is_empty() {
        None
    } else {
        Some(t)
    }
}

/// A user as the development endpoints list it: its label, or its id when the label is blank.
pub fn dev_user_item(user_id: String, label: String) -> (r: DevUserItem)
    ensures
        r.user_id@ == user_id@,
        r.display_name@ == if trim(label@).len() == 0 {
            user_id@
        } else {
            label@
        },
{
    let blank = trim_str(label.as_str()).as_str().is_empty();
    let display_name = if blank {
        user_id.clone()
    } else {
        label
    };
    DevUserItem { display_name, user_id }
}

/// The display name of a user: its label, or its id when the label is blank.
pub open spec fn display_name(user_id: Seq<char>, label: Seq<char>) -> Seq<char> {
    if trim(label).len() == 0 {
        user_id
    } else {
        label
    }
}

/// The admin listing's item for a user row: the id, the display name, the status and the
/// closing time.
pub open spec fn admin_user_item_of(row: AdminUserRow, item: AdminUserItem) -> bool {
    &&& item.user_id@ == row.user_id@
    &&& item.display_name@ == display_name(row.user_id@, row.label@)
    &&& item.status@ == row.status@
    &&& item.closed_at == row.closed_at
}

/// A user row as the admin listing shows it.
pub fn admin_user_item(row: AdminUserRow) -> (r: AdminUserItem)
    ensures
        admin_user_item_of(row, r),
{
    let blank = trim_str(row.label.as_str()).as_str().is_empty();
    let display_name = if blank {
        row.user_id.clone()
    } else {
        row.label
    };
    AdminUserItem { user_id: row.user_id, display_name, status: row.status, closed_at: row.closed_at }
}

/// The admin listing of users: one item per row, in the rows' order.
pub fn admin_users_response(rows: Vec<AdminUserRow>) -> (r: AdminUsersResponse)
    ensures
        r.users@.len() == rows@.len(),
        forall|i: int| 0 <= i < rows@.len() ==> admin_user_item_of(#[trigger] rows@[i], r.users@[i]),
{
    let ghost rs = rows@;
    let mut rows = rows;
    let mut users: Vec<AdminUserItem> = Vec::new();
    while rows.len() > 0
        invariant
            users@.len() + rows@.len() == rs.len(),
            rows@ == rs.subrange(users@.len() as int, rs.len() as int),
            forall|i: int| 0 <= i < users@.len() ==> admin_user_item_of(#[trigger] rs[i], users@[i]),
        decreases rows@.len(),
    {
        let row = rows.remove(0);
        users.push(admin_user_item(row));
    }
    AdminUsersResponse { users }
}

/// A currency account with its balance, as the development endpoints list it; a missing
/// balance reads as zero.
pub fn dev_account_item(
    id: i64,
    currency: String,
    available_minor: Option<i64>,
    hold_minor: Option<i64>,
) -> (r: DevAccountItem)
    ensures
        r.account_id@ == account_id_text(id as int),
        r.currency@ == currency@,
        r.available_minor == match available_minor {
            Some(a) => a,
            None => 0,
        },
        r.hold_minor == match hold_minor {
            Some(h) => h,
            None => 0,
        },
{
    DevAccountItem {
        account_id: fmt_currency_account_id(id),
        currency,
        available_minor: match available_minor {
            Some(a) => a,
            None => 0,
        },
        hold_minor: match hold_minor {
            Some(h) => h,
            None => 0,
        },
    }
}

} // verus!
