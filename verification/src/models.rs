//! Request and response models, and the validation of requests.
use vstd::prelude::*;

use crate::domain::{
    currency_parse_ok, user_id_parse_ok, AmountMinor, Currency, DomainError, UserId,
};
use crate::error::{app_error_of_domain, AppError, AppResult};
use crate::text::{byte_len, to_ascii_upper, trim, trim_str};

verus! {

/// A supported currency and its number of minor units.
#[derive(Debug)]
pub struct CurrencyItem {
    pub code: String,
    pub minor_units: i64,
}

#[derive(Debug)]
pub struct ListCurrenciesResponse {
    pub items: Vec<CurrencyItem>,
}

#[derive(Debug)]
pub struct TopupRequest {
    pub currency: String,
    pub amount_minor: i64,
}

#[derive(Debug, Clone)]
pub struct TopupRequestValidated {
    pub currency: Currency,
    pub amount_minor: AmountMinor,
}

#[derive(Debug)]
pub struct TransferRequest {
    pub to_user_id: String,
    pub currency: String,
    pub amount_minor: i64,
}

#[derive(Debug, Clone)]
pub struct TransferRequestValidated {
    pub to_user_id: UserId,
    pub currency: Currency,
    pub amount_minor: AmountMinor,
}

#[derive(Debug)]
pub struct BalanceItem {
    pub currency: String,
    pub available_minor: i64,
    pub hold_minor: i64,
}

#[derive(Debug)]
pub struct ListBalancesResponse {
    pub balances: Vec<BalanceItem>,
}

/// One line of a transaction history.
#[derive(Debug)]
pub struct TxItem {
    pub tx_id: String,
    pub tx_type: String,
    pub state: String,
    pub currency: String,
    pub amount_minor: i64,
    pub created_at: String,
    pub posted_at: String,
    pub description: String,
}

/// One ledger entry of a receipt.
#[derive(Debug)]
pub struct TxReceiptEntryItem {
    /// "user" | "system"
    pub party_type: String,
    /// user_id or system owner_id
    pub party_id: String,
    /// optional label from accounts.label
    pub party_label: Option<String>,
    pub currency: String,
    /// "debit" | "credit"
    pub direction: String,
    /// absolute (positive)
    pub amount_minor: i64,
}

#[derive(Debug)]
pub struct TxReceiptResponse {
    pub tx_id: String,
    pub tx_type: String,
    pub state: String,
    pub currency: String,
    pub amount_minor: i64,
    pub created_at: String,
    pub posted_at: String,
    pub memo: Option<String>,
    pub merchant_label: Option<String>,
    pub fx_rate: Option<String>,
    pub fee_minor: Option<i64>,
    pub entries: Vec<TxReceiptEntryItem>,
}

#[derive(Debug)]
pub struct ListTxsQuery {
    pub limit: Option<u32>,
}

#[derive(Debug)]
pub struct ListTxsResponse {
    pub txs: Vec<TxItem>,
}

// ------------------------ Admin (MVP) ------------------------

#[derive(Debug)]
pub struct AdminCreateUserRequest {
    pub user_id: String,
}

#[derive(Debug)]
pub struct AdminCreateUserResponse {
    pub user_id: String,
    pub created: bool,
}

#[derive(Debug)]
pub struct AdminOpenCurrencyAccountRequest {
    pub currency: String,
}

#[derive(Debug)]
pub struct AdminOpenCurrencyAccountResponse {
    pub user_id: String,
    pub currency: String,
    pub opened: bool,
}

#[derive(Debug)]
pub struct AdminTopupRequest {
    pub user_id: String,
    pub currency: String,
    pub amount_minor: i64,
}

#[derive(Debug)]
pub struct AdminHoldRequest {
    pub user_id: String,
    pub currency: String,
    pub amount_minor: i64,
}

// ------------------------ Admin Account Lifecycle ------------------------

#[derive(Debug)]
pub struct AdminCreateAccountRequest {
    pub owner_user_id: String,
    pub currency: String,
    pub label: String,
}

#[derive(Debug)]
pub struct AdminCreateAccountResponse {
    pub account_id: String,
    pub status: String,
    pub currency: String,
    pub owner_user_id: String,
    pub created_at: String,
}

#[derive(Debug)]
pub struct AdminCloseAccountResponse {
    pub account_id: String,
    pub status: String,
    pub closed_at: String,
}

#[derive(Debug, Clone)]
pub struct AdminCreateAccountRequestValidated {
    pub owner_user_id: UserId,
    pub currency: Currency,
    pub label: String,
}

// ------------------------ typed requests ------------------------

#[derive(Debug, Clone)]
pub struct AdminOpenCurrencyValidated {
    pub currency: Currency,
}

#[derive(Debug, Clone)]
pub struct AdminTopupRequestValidated {
    pub user_id: UserId,
    pub currency: Currency,
    pub amount_minor: AmountMinor,
}

#[derive(Debug, Clone)]
pub struct HoldRequestValidated {
    pub currency: Currency,
    pub amount_minor: AmountMinor,
}

/// The answer to a posting operation.
#[derive(Debug)]
pub struct PostOpResponse {
    pub tx_id: String,
    pub state: String,
    pub currency: String,
    pub amount_minor: i64,
}

/// The answer to a refund.
#[derive(Debug)]
pub struct RefundResponse {
    pub original_tx_id: String,
    pub refund_tx_id: String,
    pub state: String,
    pub currency: String,
    pub amount_minor: i64,
}

// ------------------------ read API models ------------------------

#[derive(Debug)]
pub struct ProfileResponse {
    pub phone_number: String,
    pub email: Option<String>,
    pub full_name: Option<String>,
}

#[derive(Debug)]
pub struct AccountItemV33 {
    pub account_id: String,
    pub currency: String,
    pub status: String,
    pub label: String,
}

#[derive(Debug)]
pub struct ListAccountsResponseV33 {
    pub accounts: Vec<AccountItemV33>,
}

#[derive(Debug)]
pub struct AccountBalanceResponseV33 {
    pub account_id: String,
    pub currency: String,
    pub available_minor: i64,
    pub hold_minor: i64,
}

#[derive(Debug)]
pub struct AccountDetailsResponseV33 {
    pub account_id: String,
    pub currency: String,
    pub status: String,
    pub label: String,
    pub created_at: String,
    pub closed_at: Option<String>,
    pub balance: AccountBalanceResponseV33,
    pub owner_phone_number: Option<String>,
}

#[derive(Debug)]
pub struct ListAccountTransactionsQueryV33 {
    /// Return transactions strictly before this timestamp (RFC3339). If absent, returns newest.
    pub before: Option<String>,
    /// Number of items to return. Default is 100.
    pub limit: Option<u32>,
}

#[derive(Debug)]
pub struct ListAccountTransactionsResponseV33 {
    pub account_id: String,
    pub txs: Vec<TxItem>,
}

// ------------------------ development helpers ------------------------

/// A user, as the development endpoints list it.
#[derive(Debug)]
pub struct DevUserItem {
    pub user_id: String,
    pub display_name: String,
}

#[derive(Debug)]
pub struct DevUsersResponse {
    pub users: Vec<DevUserItem>,
}

/// A currency account of a user, with its balance, as the development endpoints list it.
#[derive(Debug)]
pub struct DevAccountItem {
    pub account_id: String,
    pub currency: String,
    pub available_minor: i64,
    pub hold_minor: i64,
}

#[derive(Debug)]
pub struct DevUserAccountsResponse {
    pub user_id: String,
    pub accounts: Vec<DevAccountItem>,
}

/// A user account row, as the admin listing reads it.
#[derive(Debug)]
pub struct AdminUserRow {
    pub user_id: String,
    pub label: String,
    pub status: String,
    pub closed_at: Option<String>,
}

/// A user as the admin listing shows it: its label, or its id when the label is blank, as
/// the display name.
#[derive(Debug)]
pub struct AdminUserItem {
    pub user_id: String,
    pub display_name: String,
    pub status: String,
    pub closed_at: Option<String>,
}

#[derive(Debug)]
pub struct AdminUsersResponse {
    pub users: Vec<AdminUserItem>,
}

/// An `accounts` row.
#[derive(Debug, Clone)]
pub struct AccountRow {
    pub id: i64,
    pub owner_type: String,
    pub owner_id: String,
    pub status: String,
    pub created_at: String,
    pub closed_at: Option<String>,
    pub label: String,
}

// ------------------------ validation ------------------------

/// Outcome of validating a currency text: its canonical code, or the error.
pub open spec fn currency_outcome(s: Seq<char>) -> Result<Seq<char>, AppError> {
    if currency_parse_ok(s) {
        Ok(to_ascii_upper(trim(s)))
    } else {
        Err(AppError::BadRequest("invalid currency"))
    }
}

/// Outcome of validating a user id text: the trimmed id, or the error.
pub open spec fn user_id_outcome(s: Seq<char>) -> Result<Seq<char>, AppError> {
    if user_id_parse_ok(s) {
        Ok(trim(s))
    } else if trim(s).len() == 0 {
        Err(AppError::BadRequest("user_id is empty"))
    } else {
        Err(AppError::BadRequest("user_id too long"))
    }
}

/// Outcome of validating an amount: the amount, or the error.
pub open spec fn amount_outcome(v: i64) -> Result<u64, AppError> {
    match AmountMinor::spec_try_from_i64(v) {
        Ok(a) => Ok(a),
        Err(e) => Err(app_error_of_domain(e)),
    }
}

fn parse_currency_app(s: &str) -> (r: AppResult<Currency>)
    ensures
        match currency_outcome(s@) {
            Ok(c) => r matches Ok(rc) && rc@ == c,
            Err(e) => r matches Err(re) && re == e,
        },
{
    match Currency::parse(s) {
        Ok(c) => Ok(c),
        Err(e) => Err(AppError::from(e)),
    }
}

fn parse_user_id_app(s: &str) -> (r: AppResult<UserId>)
    ensures
        match user_id_outcome(s@) {
            Ok(u) => r matches Ok(ru) && ru@ == u,
            Err(e) => r matches Err(re) && re == e,
        },
{
    match UserId::parse(s) {
        Ok(u) => Ok(u),
        Err(e) => Err(AppError::from(e)),
    }
}

fn parse_amount_app(v: i64) -> (r: AppResult<AmountMinor>)
    ensures
        match amount_outcome(v) {
            Ok(a) => r matches Ok(ra) && ra@ == a,
            Err(e) => r matches Err(re) && re == e,
        },
{
    match AmountMinor::try_from_i64(v) {
        Ok(a) => Ok(a),
        Err(e) => Err(AppError::from(e)),
    }
}

impl TopupRequestValidated {
    /// Validates the currency, then the amount.
    pub fn try_from(value: TopupRequest) -> (r: AppResult<Self>)
        ensures
            match (currency_outcome(value.currency@), amount_outcome(value.amount_minor)) {
                (Ok(c), Ok(a)) => r matches Ok(v) && v.currency@ == c && v.amount_minor@ == a,
                (Err(e), _) => r matches Err(re) && re == e,
                (Ok(_), Err(e)) => r matches Err(re) && re == e,
            },
    {
        let currency = parse_currency_app(value.currency.as_str())?;
        let amount_minor = parse_amount_app(value.amount_minor)?;
        Ok(Self { currency, amount_minor })
    }
}

impl TryFrom<TopupRequest> for TopupRequestValidated {
    type Error = AppError;

    /// Validates the currency, then the amount.
    fn try_from(value: TopupRequest) -> (r: AppResult<Self>)
        ensures
            match (currency_outcome(value.currency@), amount_outcome(value.amount_minor)) {
                (Ok(c), Ok(a)) => r matches Ok(v) && v.currency@ == c && v.amount_minor@ == a,
                (Err(e), _) => r matches Err(re) && re == e,
                (Ok(_), Err(e)) => r matches Err(re) && re == e,
            },
    {
        TopupRequestValidated::try_from(value)
    }
}

/// The conversion's contract stands on `try_from` itself, not on this generic specification.
impl vstd::std_specs::convert::TryFromSpecImpl<TopupRequest> for TopupRequestValidated {
    open spec fn obeys_try_from_spec() -> bool {
        false
    }

    open spec fn try_from_spec(v: TopupRequest) -> AppResult<Self> {
        vstd::pervasive::arbitrary()
    }
}

impl TransferRequestValidated {
    /// Validates the receiver, then the currency, then the amount.
    pub fn try_from(value: TransferRequest) -> (r: AppResult<Self>)
        ensures
            match (
                user_id_outcome(value.to_user_id@),
                currency_outcome(value.currency@),
                amount_outcome(value.amount_minor),
            ) {
                (Ok(u), Ok(c), Ok(a)) => r matches Ok(v) && v.to_user_id@ == u && v.currency@ == c
                    && v.amount_minor@ == a,
                (Err(e), _, _) => r matches Err(re) && re == e,
                (Ok(_), Err(e), _) => r matches Err(re) && re == e,
                (Ok(_), Ok(_), Err(e)) => r matches Err(re) && re == e,
            },
    {
        let to_user_id = parse_user_id_app(value.to_user_id.as_str())?;
        let currency = parse_currency_app(value.currency.as_str())?;
        let amount_minor = parse_amount_app(value.amount_minor)?;
        Ok(Self { to_user_id, currency, amount_minor })
    }
}

impl TryFrom<TransferRequest> for TransferRequestValidated {
    type Error = AppError;

    /// Validates the receiver, then the currency, then the amount.
    fn try_from(value: TransferRequest) -> (r: AppResult<Self>)
        ensures
            match (
                user_id_outcome(value.to_user_id@),
                currency_outcome(value.currency@),
                amount_outcome(value.amount_minor),
            ) {
                (Ok(u), Ok(c), Ok(a)) => r matches Ok(v) && v.to_user_id@ == u && v.currency@ == c
                    && v.amount_minor@ == a,
                (Err(e), _, _) => r matches Err(re) && re == e,
                (Ok(_), Err(e), _) => r matches Err(re) && re == e,
                (Ok(_), Ok(_), Err(e)) => r matches Err(re) && re == e,
            },
    {
        TransferRequestValidated::try_from(value)
    }
}

/// The conversion's contract stands on `try_from` itself, not on this generic specification.
impl vstd::std_specs::convert::TryFromSpecImpl<TransferRequest> for TransferRequestValidated {
    open spec fn obeys_try_from_spec() -> bool {
        false
    }

    open spec fn try_from_spec(v: TransferRequest) -> AppResult<Self> {
        vstd::pervasive::arbitrary()
    }
}

impl AdminCreateAccountRequestValidated {
    /// Trims the label and refuses one longer than 128 bytes; then validates the owner and
    /// the currency.
    pub fn try_from(value: AdminCreateAccountRequest) -> (r: AppResult<Self>)
        ensures
            if byte_len(trim(value.label@)) > 128 {
                r matches Err(re) && re == AppError::BadRequest("label too long")
            } else {
                match (user_id_outcome(value.owner_user_id@), currency_outcome(value.currency@)) {
                    (Ok(u), Ok(c)) => r matches Ok(v) && v.owner_user_id@ == u && v.currency@ == c
                        && v.label@ == trim(value.label@),
                    (Err(e), _) => r matches Err(re) && re == e,
                    (Ok(_), Err(e)) => r matches Err(re) && re == e,
                }
            },
    {
        let label = trim_str(value.label.as_str());
        if label.as_str().as_bytes().len() > 128 {
            return Err(AppError::BadRequest("label too long"));
        }
        let owner_user_id = parse_user_id_app(value.owner_user_id.as_str())?;
        let currency = parse_currency_app(value.currency.as_str())?;
        Ok(Self { owner_user_id, currency, label })
    }
}

impl TryFrom<AdminCreateAccountRequest> for AdminCreateAccountRequestValidated {
    type Error = AppError;

    /// Trims the label and refuses one longer than 128 bytes; then validates the owner and
    /// the currency.
    fn try_from(value: AdminCreateAccountRequest) -> (r: AppResult<Self>)
        ensures
            if byte_len(trim(value.label@)) > 128 {
                r matches Err(re) && re == AppError::BadRequest("label too long")
            } else {
                match (user_id_outcome(value.owner_user_id@), currency_outcome(value.currency@)) {
                    (Ok(u), Ok(c)) => r matches Ok(v) && v.owner_user_id@ == u && v.currency@ == c
                        && v.label@ == trim(value.label@),
                    (Err(e), _) => r matches Err(re) && re == e,
                    (Ok(_), Err(e)) => r matches Err(re) && re == e,
                }
            },
    {
        AdminCreateAccountRequestValidated::try_from(value)
    }
}

/// The conversion's contract stands on `try_from` itself, not on this generic specification.
impl vstd::std_specs::convert::TryFromSpecImpl<AdminCreateAccountRequest> for AdminCreateAccountRequestValidated {
    open spec fn obeys_try_from_spec() -> bool {
        false
    }

    open spec fn try_from_spec(v: AdminCreateAccountRequest) -> AppResult<Self> {
        vstd::pervasive::arbitrary()
    }
}

impl AdminOpenCurrencyValidated {
    /// Validates the currency.
    pub fn try_from(value: AdminOpenCurrencyAccountRequest) -> (r: AppResult<Self>)
        ensures
            match currency_outcome(value.currency@) {
                Ok(c) => r matches Ok(v) && v.currency@ == c,
                Err(e) => r matches Err(re) && re == e,
            },
    {
        let currency = parse_currency_app(value.currency.as_str())?;
        Ok(Self { currency })
    }
}

impl TryFrom<AdminOpenCurrencyAccountRequest> for AdminOpenCurrencyValidated {
    type Error = AppError;

    /// Validates the currency.
    fn try_from(value: AdminOpenCurrencyAccountRequest) -> (r: AppResult<Self>)
        ensures
            match currency_outcome(value.currency@) {
                Ok(c) => r matches Ok(v) && v.currency@ == c,
                Err(e) => r matches Err(re) && re == e,
            },
    {
        AdminOpenCurrencyValidated::try_from(value)
    }
}

/// The conversion's contract stands on `try_from` itself, not on this generic specification.
impl vstd::std_specs::convert::TryFromSpecImpl<AdminOpenCurrencyAccountRequest> for AdminOpenCurrencyValidated {
    open spec fn obeys_try_from_spec() -> bool {
        false
    }

    open spec fn try_from_spec(v: AdminOpenCurrencyAccountRequest) -> AppResult<Self> {
        vstd::pervasive::arbitrary()
    }
}

impl AdminTopupRequestValidated {
    /// Validates the user, then the currency, then the amount.
    pub fn try_from(value: AdminTopupRequest) -> (r: AppResult<Self>)
        ensures
            match (
                user_id_outcome(value.user_id@),
                currency_outcome(value.currency@),
                amount_outcome(value.amount_minor),
            ) {
                (Ok(u), Ok(c), Ok(a)) => r matches Ok(v) && v.user_id@ == u && v.currency@ == c
                    && v.amount_minor@ == a,
                (Err(e), _, _) => r matches Err(re) && re == e,
                (Ok(_), Err(e), _) => r matches Err(re) && re == e,
                (Ok(_), Ok(_), Err(e)) => r matches Err(re) && re == e,
            },
    {
        let user_id = parse_user_id_app(value.user_id.as_str())?;
        let currency = parse_currency_app(value.currency.as_str())?;
        let amount_minor = parse_amount_app(value.amount_minor)?;
        Ok(Self { user_id, currency, amount_minor })
    }
}

impl TryFrom<AdminTopupRequest> for AdminTopupRequestValidated {
    type Error = AppError;

    /// Validates the user, then the currency, then the amount.
    fn try_from(value: AdminTopupRequest) -> (r: AppResult<Self>)
        ensures
            match (
                user_id_outcome(value.user_id@),
                currency_outcome(value.currency@),
                amount_outcome(value.amount_minor),
            ) {
                (Ok(u), Ok(c), Ok(a)) => r matches Ok(v) && v.user_id@ == u && v.currency@ == c
                    && v.amount_minor@ == a,
                (Err(e), _, _) => r matches Err(re) && re == e,
                (Ok(_), Err(e), _) => r matches Err(re) && re == e,
                (Ok(_), Ok(_), Err(e)) => r matches Err(re) && re == e,
            },
    {
        AdminTopupRequestValidated::try_from(value)
    }
}

/// The conversion's contract stands on `try_from` itself, not on this generic specification.
impl vstd::std_specs::convert::TryFromSpecImpl<AdminTopupRequest> for AdminTopupRequestValidated {
    open spec fn obeys_try_from_spec() -> bool {
        false
    }

    open spec fn try_from_spec(v: AdminTopupRequest) -> AppResult<Self> {
        vstd::pervasive::arbitrary()
    }
}

impl HoldRequestValidated {
    /// Validates the currency, then the amount (the user id of the request is not looked at).
    pub fn try_from(value: AdminHoldRequest) -> (r: AppResult<Self>)
        ensures
            match (currency_outcome(value.currency@), amount_outcome(value.amount_minor)) {
                (Ok(c), Ok(a)) => r matches Ok(v) && v.currency@ == c && v.amount_minor@ == a,
                (Err(e), _) => r matches Err(re) && re == e,
                (Ok(_), Err(e)) => r matches Err(re) && re == e,
            },
    {
        let currency = parse_currency_app(value.currency.as_str())?;
        let amount_minor = parse_amount_app(value.amount_minor)?;
        Ok(Self { currency, amount_minor })
    }
}

impl TryFrom<AdminHoldRequest> for HoldRequestValidated {
    type Error = AppError;

    /// Validates the currency, then the amount (the user id of the request is not looked at).
    fn try_from(value: AdminHoldRequest) -> (r: AppResult<Self>)
        ensures
            match (currency_outcome(value.currency@), amount_outcome(value.amount_minor)) {
                (Ok(c), Ok(a)) => r matches Ok(v) && v.currency@ == c && v.amount_minor@ == a,
                (Err(e), _) => r matches Err(re) && re == e,
                (Ok(_), Err(e)) => r matches Err(re) && re == e,
            },
    {
        HoldRequestValidated::try_from(value)
    }
}

/// The conversion's contract stands on `try_from` itself, not on this generic specification.
impl vstd::std_specs::convert::TryFromSpecImpl<AdminHoldRequest> for HoldRequestValidated {
    open spec fn obeys_try_from_spec() -> bool {
        false
    }

    open spec fn try_from_spec(v: AdminHoldRequest) -> AppResult<Self> {
        vstd::pervasive::arbitrary()
    }
}

} // verus!
