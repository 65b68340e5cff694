//! Domain types and their validation rules.
use vstd::prelude::*;

use crate::codec::{uuid_hyphenated, uuid_parse, uuid_parse_str, uuid_v4_random};
use crate::text::{
    byte_len, lemma_trim_idempotent, str_eq, str_to_ascii_upper, to_ascii_upper, trim, trim_str,
};

verus! {

/// Errors raised by domain validation.
#[derive(Debug, Clone, Copy, PartialEq, Eq)]
pub enum DomainError {
    BadRequest(&'static str),
    Internal(&'static str),
}

/// Result of a domain validation.
pub type DomainResult<T> = Result<T, DomainError>;

// ------------------------ internal domain enums ------------------------

/// Direction of a ledger entry.
#[derive(Debug, Clone, Copy, PartialEq, Eq, Structural)]
pub enum EntryDirection {
    Debit,
    Credit,
}

impl EntryDirection {
    /// The storage text of a direction.
    pub open spec fn text(self) -> Seq<char> {
        match self {
            EntryDirection::Debit => "debit"@,
            EntryDirection::Credit => "credit"@,
        }
    }

    /// Parsing of a stored direction.
    pub open spec fn spec_from_db_str(s: Seq<char>) -> DomainResult<EntryDirection> {
        if s == "debit"@ {
            Ok(EntryDirection::Debit)
        } else if s == "credit"@ {
            Ok(EntryDirection::Credit)
        } else {
            Err(DomainError::Internal("unknown entry direction"))
        }
    }

    /// Signed amount of an entry in this direction.
    pub open spec fn spec_apply_sign(self, amount: int) -> int {
        match self {
            EntryDirection::Debit => -amount,
            EntryDirection::Credit => amount,
        }
    }

    pub fn as_str(self) -> (r: &'static str)
        ensures
            r@ == self.text(),
    {
        match self {
            EntryDirection::Debit => "debit",
            EntryDirection::Credit => "credit",
        }
    }

    pub fn from_db_str(s: &str) -> (r: DomainResult<Self>)
        ensures
            r == Self::spec_from_db_str(s@),
    {
        if str_eq(s, "debit") {
            Ok(EntryDirection::Debit)
        } else if str_eq(s, "credit") {
            Ok(EntryDirection::Credit)
        } else {
            Err(DomainError::Internal("unknown entry direction"))
        }
    }

    /// Debits are negative, credits positive.
    pub fn apply_sign(self, amount_minor_abs: i64) -> (r: i64)
        requires
            self == EntryDirection::Debit ==> amount_minor_abs > i64::MIN,
        ensures
            r == self.spec_apply_sign(amount_minor_abs as int),
    {
        match self {
            EntryDirection::Debit => -amount_minor_abs,
            EntryDirection::Credit => amount_minor_abs,
        }
    }
}

/// Kind of a ledger transaction.
#[derive(Debug, Clone, Copy, PartialEq, Eq, Structural)]
pub enum TxType {
    Topup,
    Transfer,
    Payment,
    Refund,
}

impl TxType {
    /// The storage text of a transaction type.
    pub open spec fn text(self) -> Seq<char> {
        match self {
            TxType::Topup => "topup"@,
            TxType::Transfer => "transfer"@,
            TxType::Payment => "payment"@,
            TxType::Refund => "refund"@,
        }
    }

    /// Lossy parsing of a stored transaction type.
    pub open spec fn spec_from_db_str_lossy(s: Seq<char>) -> Option<TxType> {
        if s == "topup"@ {
            Some(TxType::Topup)
        } else if s == "transfer"@ {
            Some(TxType::Transfer)
        } else if s == "payment"@ {
            Some(TxType::Payment)
        } else if s == "refund"@ {
            Some(TxType::Refund)
        } else {
            None
        }
    }

    pub fn as_str(self) -> (r: &'static str)
        ensures
            r@ == self.text(),
    {
        match self {
            TxType::Topup => "topup",
            TxType::Transfer => "transfer",
            TxType::Payment => "payment",
            TxType::Refund => "refund",
        }
    }

    /// Lossy parsing is acceptable only for historical DB rows / unknown future values.
    pub fn from_db_str_lossy(s: &str) -> (r: Option<Self>)
        ensures
            r == Self::spec_from_db_str_lossy(s@),
    {
        if str_eq(s, "topup") {
            Some(TxType::Topup)
        } else if str_eq(s, "transfer") {
            Some(TxType::Transfer)
        } else if str_eq(s, "payment") {
            Some(TxType::Payment)
        } else if str_eq(s, "refund") {
            Some(TxType::Refund)
        } else {
            None
        }
    }
}

/// Life-cycle state of a ledger transaction.
#[derive(Debug, Clone, Copy, PartialEq, Eq, Structural)]
pub enum TxState {
    Authorized,
    Posted,
    Reversed,
    Refunded,
}

impl TxState {
    /// The storage text of a state.
    pub open spec fn text(self) -> Seq<char> {
        match self {
            TxState::Authorized => "authorized"@,
            TxState::Posted => "posted"@,
            TxState::Reversed => "reversed"@,
            TxState::Refunded => "refunded"@,
        }
    }

    /// Lossy parsing of a stored state.
    pub open spec fn spec_from_db_str_lossy(s: Seq<char>) -> Option<TxState> {
        if s == "authorized"@ {
            Some(TxState::Authorized)
        } else if s == "posted"@ {
            Some(TxState::Posted)
        } else if s == "reversed"@ {
            Some(TxState::Reversed)
        } else if s == "refunded"@ {
            Some(TxState::Refunded)
        } else {
            None
        }
    }

    pub fn as_str(self) -> (r: &'static str)
        ensures
            r@ == self.text(),
    {
        match self {
            TxState::Authorized => "authorized",
            TxState::Posted => "posted",
            TxState::Reversed => "reversed",
            TxState::Refunded => "refunded",
        }
    }

    pub fn from_db_str_lossy(s: &str) -> (r: Option<Self>)
        ensures
            r == Self::spec_from_db_str_lossy(s@),
    {
        if str_eq(s, "authorized") {
            Some(TxState::Authorized)
        } else if str_eq(s, "posted") {
            Some(TxState::Posted)
        } else if str_eq(s, "reversed") {
            Some(TxState::Reversed)
        } else if str_eq(s, "refunded") {
            Some(TxState::Refunded)
        } else {
            None
        }
    }
}

/// Status of an account.
#[derive(Debug, Clone, Copy, PartialEq, Eq, Structural)]
pub enum AccountStatus {
    Active,
    Closed,
}

impl AccountStatus {
    /// The storage text of a status.
    pub open spec fn db_text(self) -> Seq<char> {
        match self {
            AccountStatus::Active => "active"@,
            AccountStatus::Closed => "closed"@,
        }
    }

    /// The API text of a status.
    pub open spec fn api_text(self) -> Seq<char> {
        match self {
            AccountStatus::Active => "ACTIVE"@,
            AccountStatus::Closed => "CLOSED"@,
        }
    }

    /// Lossy parsing of a stored status.
    pub open spec fn spec_from_db_str_lossy(s: Seq<char>) -> Option<AccountStatus> {
        if s == "active"@ {
            Some(AccountStatus::Active)
        } else if s == "closed"@ {
            Some(AccountStatus::Closed)
        } else {
            None
        }
    }

    pub fn as_db_str(self) -> (r: &'static str)
        ensures
            r@ == self.db_text(),
    {
        match self {
            AccountStatus::Active => "active",
            AccountStatus::Closed => "closed",
        }
    }

    pub fn as_api_str(self) -> (r: &'static str)
        ensures
            r@ == self.api_text(),
    {
        match self {
            AccountStatus::Active => "ACTIVE",
            AccountStatus::Closed => "CLOSED",
        }
    }

    pub fn from_db_str_lossy(s: &str) -> (r: Option<Self>)
        ensures
            r == Self::spec_from_db_str_lossy(s@),
    {
        if str_eq(s, "active") {
            Some(AccountStatus::Active)
        } else if str_eq(s, "closed") {
            Some(AccountStatus::Closed)
        } else {
            None
        }
    }
}

/// Owner kind of the per-currency sink system accounts.
pub const SYSTEM_ACCOUNT_SINK: &'static str = "SYSTEM_SINK";

/// Owner kind of the per-currency spend system accounts.
pub const SYSTEM_ACCOUNT_SPEND: &'static str = "SYSTEM_SPEND";

/// Owner id of a per-currency system account: `<kind>:<currency>`.
pub fn system_account_owner_id(kind: &str, currency: &Currency) -> (r: String)
    ensures
        r@ == kind@ + seq![':'] + currency@,
{
    let a = kind.to_owned();
    let b = a.concat(":");
    proof {
        reveal_strlit(":");
    }
    b.concat(currency.as_str())
}

// ------------------------ internal domain newtypes ------------------------

/// Identifier of a wallet user.
#[derive(Debug, PartialEq, Eq, Hash, PartialOrd, Ord)]
pub struct UserId(String);

impl View for UserId {
    type V = Seq<char>;

    closed spec fn view(&self) -> Seq<char> {
        self.0@
    }
}

impl Clone for UserId {
    fn clone(&self) -> (r: Self)
        ensures
            r == *self,
    {
        proof {
            use_type_invariant(self);
        }
        UserId(self.0.clone())
    }
}

/// The outcome of `UserId::parse` on the text `s`.
pub open spec fn user_id_parse_ok(s: Seq<char>) -> bool {
    trim(s).len() != 0 && byte_len(trim(s)) <= 64
}

/// The text of a user id: trimmed, non-empty and at most 64 bytes long. Every `UserId` has
/// such a text (see `UserId::as_str`).
pub open spec fn user_id_valid(s: Seq<char>) -> bool {
    user_id_parse_ok(s) && trim(s) == s
}

impl UserId {
    #[verifier::type_invariant]
    spec fn inv(self) -> bool {
        user_id_valid(self.0@)
    }

    /// Accepts the trimmed text when it is non-empty and at most 64 bytes long.
    pub fn parse(s: &str) -> (r: DomainResult<Self>)
        ensures
            match r {
                Ok(u) => user_id_parse_ok(s@) && u@ == trim(s@),
                Err(e) => !user_id_parse_ok(s@) && e == (if trim(s@).len() == 0 {
                    DomainError::BadRequest("user_id is empty")
                } else {
                    DomainError::BadRequest("user_id too long")
                }),
            },
    {
        let t = trim_str(s);
        if t.as_str().is_empty() {
            return Err(DomainError::BadRequest("user_id is empty"));
        }
        if t.as_str().as_bytes().len() > 64 {
            return Err(DomainError::BadRequest("user_id too long"));
        }
        proof {
            lemma_trim_idempotent(s@);
        }
        Ok(UserId(t))
    }

    pub fn as_str(&self) -> (r: &str)
        ensures
            r@ == self@,
            user_id_valid(r@),
    {
        proof {
            use_type_invariant(self);
        }
        self.0.as_str()
    }

    pub fn into_inner(self) -> (r: String)
        ensures
            r@ == self@,
            user_id_valid(r@),
    {
        proof {
            use_type_invariant(&self);
        }
        self.0
    }

    /// Text equality of two user ids.
    pub fn same_as(&self, other: &UserId) -> (r: bool)
        ensures
            r == (self@ == other@),
    {
        str_eq(self.0.as_str(), other.0.as_str())
    }
}

/// Client-chosen key that makes a monetary request idempotent.
#[derive(Debug, PartialEq, Eq, Hash, PartialOrd, Ord)]
pub struct IdempotencyKey(String);

impl View for IdempotencyKey {
    type V = Seq<char>;

    closed spec fn view(&self) -> Seq<char> {
        self.0@
    }
}

impl Clone for IdempotencyKey {
    fn clone(&self) -> (r: Self)
        ensures
            r == *self,
    {
        proof {
            use_type_invariant(self);
        }
        IdempotencyKey(self.0.clone())
    }
}

/// The outcome of `IdempotencyKey::parse` on the text `s`.
pub open spec fn idempotency_key_parse_ok(s: Seq<char>) -> bool {
    trim(s).len() != 0 && byte_len(trim(s)) <= 256
}

/// The text of an idempotency key: trimmed, non-empty and at most 256 bytes long. Every
/// `IdempotencyKey` has such a text (see `IdempotencyKey::as_str`).
pub open spec fn idempotency_key_valid(s: Seq<char>) -> bool {
    idempotency_key_parse_ok(s) && trim(s) == s
}

impl IdempotencyKey {
    #[verifier::type_invariant]
    spec fn inv(self) -> bool {
        idempotency_key_valid(self.0@)
    }

    /// Accepts the trimmed text when it is non-empty and at most 256 bytes long.
    pub fn parse(s: &str) -> (r: DomainResult<Self>)
        ensures
            match r {
                Ok(k) => idempotency_key_parse_ok(s@) && k@ == trim(s@),
                Err(e) => !idempotency_key_parse_ok(s@) && e == (if trim(s@).len() == 0 {
                    DomainError::BadRequest("Empty Idempotency-Key header")
                } else {
                    DomainError::BadRequest("Idempotency-Key too long")
                }),
            },
    {
        let t = trim_str(s);
        if t.as_str().is_empty() {
            return Err(DomainError::BadRequest("Empty Idempotency-Key header"));
        }
        // Keep it reasonably bounded to avoid abuse; still plenty for UUID-like keys.
        if t.as_str().as_bytes().len() > 256 {
            return Err(DomainError::BadRequest("Idempotency-Key too long"));
        }
        proof {
            lemma_trim_idempotent(s@);
        }
        Ok(IdempotencyKey(t))
    }

    pub fn as_str(&self) -> (r: &str)
        ensures
            r@ == self@,
            idempotency_key_valid(r@),
    {
        proof {
            use_type_invariant(self);
        }
        self.0.as_str()
    }
}

/// ISO-like currency code, kept in upper case.
#[derive(Debug, PartialEq, Eq, Hash, PartialOrd, Ord)]
pub struct Currency(String);

impl View for Currency {
    type V = Seq<char>;

    closed spec fn view(&self) -> Seq<char> {
        self.0@
    }
}

impl Clone for Currency {
    fn clone(&self) -> (r: Self)
        ensures
            r == *self,
    {
        Currency(self.0.clone())
    }
}

/// The outcome of `Currency::parse` on the text `s`.
pub open spec fn currency_parse_ok(s: Seq<char>) -> bool {
    3 <= byte_len(trim(s)) <= 8
}

impl Currency {
    /// Accepts the trimmed text when it is 3 to 8 bytes long; canonical form is upper case.
    pub fn parse(s: &str) -> (r: DomainResult<Self>)
        ensures
            match r {
                Ok(c) => currency_parse_ok(s@) && c@ == to_ascii_upper(trim(s@)),
                Err(e) => !currency_parse_ok(s@) && e == DomainError::BadRequest(
                    "invalid currency",
                ),
            },
    {
        let t = trim_str(s);
        let n = t.as_str().as_bytes().len();
        if n < 3 || n > 8 {
            return Err(DomainError::BadRequest("invalid currency"));
        }
        // Canonical form: uppercase
        Ok(Currency(str_to_ascii_upper(t.as_str())))
    }

    pub fn as_str(&self) -> (r: &str)
        ensures
            r@ == self@,
    {
        self.0.as_str()
    }

    pub fn into_inner(self) -> (r: String)
        ensures
            r@ == self@,
    {
        self.0
    }

    /// Text equality of two currencies.
    pub fn same_as(&self, other: &Currency) -> (r: bool)
        ensures
            r == (self@ == other@),
    {
        str_eq(self.0.as_str(), other.0.as_str())
    }
}

/// Numeric identifier of a ledger account.
#[derive(Debug, Clone, Copy, PartialEq, Eq, Structural, Hash, PartialOrd, Ord)]
pub struct AccountId(i64);

impl View for AccountId {
    type V = i64;

    closed spec fn view(&self) -> i64 {
        self.0
    }
}

impl AccountId {
    pub fn new(id: i64) -> (r: Self)
        ensures
            r@ == id,
    {
        Self(id)
    }

    pub fn get(self) -> (r: i64)
        ensures
            r == self@,
    {
        self.0
    }

    /// Two account ids are equal exactly when their numbers are.
    pub proof fn lemma_view_injective(a: AccountId, b: AccountId)
        ensures
            (a == b) <==> (a@ == b@),
    {
    }
}

/// A positive amount in minor units, at most `AmountMinor::MAX`.
#[derive(Debug, Clone, Copy, PartialEq, Eq, Structural, Hash)]
pub struct AmountMinor(u64);

/// The largest accepted amount in minor units.
pub const AMOUNT_MINOR_MAX: u64 = 1_000_000_000_000;

impl View for AmountMinor {
    type V = u64;

    closed spec fn view(&self) -> u64 {
        self.0
    }
}

impl AmountMinor {
    pub const MAX: u64 = 1_000_000_000_000;

    #[verifier::type_invariant]
    spec fn inv(self) -> bool {
        1 <= self.0 <= AMOUNT_MINOR_MAX
    }

    /// The outcome of `AmountMinor::new(value)`.
    pub open spec fn spec_new(value: u64) -> DomainResult<u64> {
        if value == 0 {
            Err(DomainError::BadRequest("amount_minor must be > 0"))
        } else if value > AMOUNT_MINOR_MAX {
            Err(DomainError::BadRequest("amount_minor too large"))
        } else {
            Ok(value)
        }
    }

    /// The outcome of `AmountMinor::try_from(value)`.
    pub open spec fn spec_try_from_i64(value: i64) -> DomainResult<u64> {
        if value <= 0 {
            Err(DomainError::BadRequest("amount_minor must be > 0"))
        } else {
            Self::spec_new(value as u64)
        }
    }

    pub fn new(value: u64) -> (r: DomainResult<Self>)
        ensures
            match r {
                Ok(a) => Self::spec_new(value) == Ok::<u64, DomainError>(a@),
                Err(e) => Self::spec_new(value) == Err::<u64, DomainError>(e),
            },
    {
        if value == 0 {
            return Err(DomainError::BadRequest("amount_minor must be > 0"));
        }
        if value > Self::MAX {
            return Err(DomainError::BadRequest("amount_minor too large"));
        }
        Ok(Self(value))
    }

    pub fn get(self) -> (r: u64)
        ensures
            r == self@,
            1 <= r <= AMOUNT_MINOR_MAX,
    {
        proof {
            use_type_invariant(&self);
        }
        self.0
    }

    pub fn as_i64(self) -> (r: i64)
        ensures
            r == self@,
            1 <= r <= AMOUNT_MINOR_MAX,
    {
        proof {
            use_type_invariant(&self);
        }
        self.0 as i64
    }

    /// Conversion from a signed amount (what `TryFrom<i64>` does).
    pub fn try_from_i64(value: i64) -> (r: DomainResult<Self>)
        ensures
            match r {
                Ok(a) => Self::spec_try_from_i64(value) == Ok::<u64, DomainError>(a@),
                Err(e) => Self::spec_try_from_i64(value) == Err::<u64, DomainError>(e),
            },
    {
        if value <= 0 {
            return Err(DomainError::BadRequest("amount_minor must be > 0"));
        }
        AmountMinor::new(value as u64)
    }
}

impl TryFrom<i64> for AmountMinor {
    type Error = DomainError;

    fn try_from(value: i64) -> (r: Result<Self, Self::Error>) {
        let r = AmountMinor::try_from_i64(value);
        proof {
            if value > 0 && value as u64 <= AMOUNT_MINOR_MAX {
                assert(r matches Ok(a) && a@ == value as u64);
            }
        }
        r
    }
}

impl vstd::std_specs::convert::TryFromSpecImpl<i64> for AmountMinor {
    open spec fn obeys_try_from_spec() -> bool {
        true
    }

    closed spec fn try_from_spec(v: i64) -> Result<Self, DomainError> {
        if v <= 0 {
            Err(DomainError::BadRequest("amount_minor must be > 0"))
        } else if v as u64 > AMOUNT_MINOR_MAX {
            Err(DomainError::BadRequest("amount_minor too large"))
        } else {
            Ok(AmountMinor(v as u64))
        }
    }
}

/// Identifier of a ledger transaction: a UUID, held as its 128-bit value.
#[derive(Debug, Clone, Copy, PartialEq, Eq, Structural, Hash, Default)]
pub struct TxId(u128);

impl View for TxId {
    type V = u128;

    closed spec fn view(&self) -> u128 {
        self.0
    }
}

impl TxId {
    /// A fresh random (version 4) identifier.
    pub fn new() -> (r: Self)
        ensures
            (r@ >> 76u128) & 0xfu128 == 4,
            (r@ >> 62u128) & 0x3u128 == 2,
    {
        Self(uuid_v4_random())
    }

    /// Parses any text form of a UUID.
    pub fn parse(s: &str) -> (r: DomainResult<Self>)
        ensures
            match uuid_parse(s@) {
                Some(v) => r matches Ok(t) && t@ == v,
                None => r == Err::<TxId, DomainError>(DomainError::BadRequest("invalid tx_id")),
            },
    {
        match uuid_parse_str(s) {
            Some(u) => Ok(Self(u)),
            None => Err(DomainError::BadRequest("invalid tx_id")),
        }
    }

    /// The lower-case hyphenated text of the identifier; parsing it gives the identifier back.
    pub fn to_string_hyphenated(&self) -> (r: String)
        ensures
            r@ == crate::codec::uuid_hyphenated_text(self@),
            uuid_parse(r@) == Some(self@),
    {
        uuid_hyphenated(self.0)
    }

    /// The identifier with the given 128-bit value.
    pub fn from_u128(v: u128) -> (r: Self)
        ensures
            r@ == v,
    {
        Self(v)
    }

    /// The 128-bit value of the identifier.
    pub fn as_u128(&self) -> (r: u128)
        ensures
            r == self@,
    {
        self.0
    }
}

impl std::str::FromStr for TxId {
    type Err = DomainError;

    fn from_str(s: &str) -> (r: Result<Self, Self::Err>)
        ensures
            match uuid_parse(s@) {
                Some(v) => r matches Ok(t) && t@ == v,
                None => r == Err::<TxId, DomainError>(DomainError::BadRequest("invalid tx_id")),
            },
    {
        TxId::parse(s)
    }
}

// ------------------------ laws ------------------------

/// Every entry direction is read back from its own storage text.
pub proof fn lemma_entry_direction_text_roundtrip(d: EntryDirection)
    ensures
        EntryDirection::spec_from_db_str(d.text()) == Ok::<EntryDirection, DomainError>(d),
{
    reveal_strlit("debit");
    assert("debit"@.len() == 5);
    reveal_strlit("credit");
    assert("credit"@.len() == 6);
}

/// Every transaction type is read back from its own storage text.
pub proof fn lemma_tx_type_text_roundtrip(t: TxType)
    ensures
        TxType::spec_from_db_str_lossy(t.text()) == Some(t),
{
    reveal_strlit("topup");
    assert("topup"@.len() == 5);
    reveal_strlit("transfer");
    assert("transfer"@.len() == 8);
    reveal_strlit("payment");
    assert("payment"@.len() == 7);
    reveal_strlit("refund");
    assert("refund"@.len() == 6);
}

/// Every transaction state is read back from its own storage text.
pub proof fn lemma_tx_state_text_roundtrip(s: TxState)
    ensures
        TxState::spec_from_db_str_lossy(s.text()) == Some(s),
{
    reveal_strlit("authorized");
    assert("authorized"@.len() == 10);
    reveal_strlit("posted");
    assert("posted"@.len() == 6);
    reveal_strlit("reversed");
    assert("reversed"@.len() == 8);
    reveal_strlit("refunded");
    assert("refunded"@.len() == 8);
    assert("reversed"@[2] != "refunded"@[2]);
}

/// Every account status is read back from its own storage text.
pub proof fn lemma_account_status_text_roundtrip(s: AccountStatus)
    ensures
        AccountStatus::spec_from_db_str_lossy(s.db_text()) == Some(s),
{
    reveal_strlit("active");
    assert("active"@.len() == 6);
    reveal_strlit("closed");
    assert("closed"@.len() == 6);
    assert("active"@[0] != "closed"@[0]);
}

} // verus!
