//! HTTP idempotency: the fingerprint of a request and what to do with a reserved key.
use vstd::prelude::*;

use crate::codec::{hex_bytes, hex_encode, parse_rfc3339_seconds, rfc3339_seconds, sha256, sha256_digest, uuid_parse};
use crate::domain::{idempotency_key_parse_ok, IdempotencyKey, TxId, UserId};
use crate::error::{ApiError, AppError, AppResult, ApiResult};
use crate::text::{str_eq, string_from_chars, trim};

verus! {

/// Reads the `Idempotency-Key` header: `None` when the request has none, `Some(None)` when
/// its value is not visible ASCII text, else the value.
pub fn parse_idempotency(header: Option<Option<&str>>) -> (r: ApiResult<IdempotencyKey>)
    ensures
        match header {
            None => r matches Err(e) && e == ApiError::BadRequest("missing Idempotency-Key header"),
            Some(None) => r matches Err(e) && e == ApiError::BadRequest("invalid Idempotency-Key header"),
            Some(Some(s)) => if idempotency_key_parse_ok(s@) {
                r matches Ok(k) && k@ == trim(s@)
            } else {
                r matches Err(e) && e == (if trim(s@).len() == 0 {
                    ApiError::BadRequest("Empty Idempotency-Key header")
                } else {
                    ApiError::BadRequest("Idempotency-Key too long")
                })
            },
        },
{
    let v = match header {
        Some(v) => v,
        None => return Err(ApiError::BadRequest("missing Idempotency-Key header")),
    };
    let s = match v {
        Some(s) => s,
        None => return Err(ApiError::BadRequest("invalid Idempotency-Key header")),
    };
    match IdempotencyKey::parse(s) {
        Ok(k) => Ok(k),
        Err(e) => Err(ApiError::from(e)),
    }
}

/// The idempotency scope of a user's transfers: `user:<id>:transfer`.
pub fn transfer_scope(user: &UserId) -> (r: String)
    ensures
        r@ == "user:"@ + user@ + ":transfer"@,
{
    proof {
        reveal_strlit("user:");
        reveal_strlit(":transfer");
    }
    let s = "user:".to_owned().concat(user.as_str()).concat(":transfer");
    proof {
        assert(s@ =~= "user:"@ + user@ + ":transfer"@);
    }
    s
}

/// How long (seconds) a reservation protects a request that is still running.
pub const IN_PROGRESS_TTL_SECS: i64 = 30;

/// The text that a request fingerprint hashes: canonical body, path and actor, separated by `|`.
pub open spec fn request_payload(body: Seq<char>, path: Seq<char>, actor: Seq<char>) -> Seq<char> {
    body + seq!['|'] + path + seq!['|'] + actor
}

/// Fingerprint of a request: the lower-case hexadecimal SHA-256 of its payload (UTF-8).
pub fn request_hash(canonical_body: &str, path: &str, actor: &str) -> (r: String)
    ensures
        r@ == hex_bytes(sha256_digest(vstd::utf8::encode_utf8(request_payload(canonical_body@, path@, actor@)))),
        r@.len() == 64,
{
    proof {
        reveal_strlit("|");
    }
    let payload = canonical_body.to_owned().concat("|").concat(path).concat("|").concat(actor);
    assert(payload@ == request_payload(canonical_body@, path@, actor@));
    let digest = sha256(payload.as_str().as_bytes());
    let hex = hex_encode(&digest);
    proof {
        lemma_hex_bytes_len(digest@);
    }
    string_from_chars(&hex)
}

proof fn lemma_hex_bytes_len(b: Seq<u8>)
    ensures
        hex_bytes(b).len() == 2 * b.len(),
    decreases b.len(),
{
    if b.len() > 0 {
        lemma_hex_bytes_len(b.drop_last());
        let x = b.last() as nat;
        assert(crate::codec::hex_lower(x / 16 / 16, 0).len() == 0);
        assert(crate::codec::hex_lower(x / 16, 1).len() == 1);
        assert(crate::codec::hex_lower(x, 2).len() == 2);
    }
}

/// What the stored record of a key says, as `reserve_or_load` reads it.
#[derive(Debug)]
pub struct IdempotencyRecord {
    pub request_hash: String,
    pub status: String,
    pub result_tx_id: Option<String>,
    pub reserved_at: Option<String>,
    pub created_at: String,
}

/// What to do with a key after reserving it (or finding it reserved).
#[derive(Debug)]
pub enum ReservationDecision {
    /// The request already completed: answer with the result of that run.
    Replay(TxId),
    /// A stale reservation: take it over (renew it), then run the request.
    TakeOverExpired,
    /// The key is newly reserved: run the request.
    Reserved,
}

/// The time the lease of a record counts from: its reservation, or its creation.
pub open spec fn lease_source(rec: IdempotencyRecord) -> Seq<char> {
    match rec.reserved_at {
        Some(r) => r@,
        None => rec.created_at@,
    }
}

/// The lease of the record is over at `now` (more than the allowed seconds old).
pub open spec fn lease_expired(rec: IdempotencyRecord, now: i64) -> bool {
    match rfc3339_seconds(lease_source(rec)) {
        Some(t) => now - t > IN_PROGRESS_TTL_SECS,
        None => false,
    }
}

/// The decision on a key, given whether this request inserted the record, the record, and the
/// time: another request under the key is a conflict; a completed one is replayed; a running
/// one is a conflict unless its lease expired; a new one is run.
pub open spec fn reservation_ok(
    inserted: bool,
    rec: IdempotencyRecord,
    request_hash: Seq<char>,
    now: i64,
    r: AppResult<ReservationDecision>,
) -> bool {
    if rec.request_hash@ != request_hash {
        r matches Err(e) && e == AppError::Conflict("idempotency key reused with different request")
    } else if rec.status@ == "completed"@ {
        match rec.result_tx_id {
            Some(t) => if t@.len() == 0 {
                r matches Err(e) && e == AppError::Internal("idempotency record missing result")
            } else {
                match uuid_parse(t@) {
                    Some(v) => r matches Ok(ReservationDecision::Replay(id)) && id@ == v,
                    None => r matches Err(e) && e == AppError::BadRequest("invalid tx_id"),
                }
            },
            None => r matches Err(e) && e == AppError::Internal("idempotency record missing result"),
        }
    } else if !(rec.status@ == "reserved"@ || rec.status@ == "failed"@ || rec.status@.len() == 0) {
        r matches Err(e) && e == AppError::Internal("invalid idempotency status")
    } else if lease_expired(rec, now) {
        r matches Ok(ReservationDecision::TakeOverExpired)
    } else if inserted {
        r matches Ok(ReservationDecision::Reserved)
    } else {
        r matches Err(e) && e == AppError::Conflict("idempotency request in progress")
    }
}

/// Decides what to do with an idempotency key (the logic of `reserve_or_load` after its
/// insert-or-ignore and read).
pub fn decide_reservation(
    inserted: bool,
    rec: &IdempotencyRecord,
    request_hash: &str,
    now: i64,
) -> (r: AppResult<ReservationDecision>)
    ensures
        reservation_ok(inserted, *rec, request_hash@, now, r),
{
    if !str_eq(rec.request_hash.as_str(), request_hash) {
        return Err(AppError::Conflict("idempotency key reused with different request"));
    }
    if str_eq(rec.status.as_str(), "completed") {
        let t = match &rec.result_tx_id {
            Some(t) => t,
            None => return Err(AppError::Internal("idempotency record missing result")),
        };
        if t.as_str().is_empty() {
            return Err(AppError::Internal("idempotency record missing result"));
        }
        return match TxId::parse(t.as_str()) {
            Ok(id) => Ok(ReservationDecision::Replay(id)),
            Err(e) => Err(AppError::from(e)),
        };
    }
    if !(str_eq(rec.status.as_str(), "reserved") || str_eq(rec.status.as_str(), "failed")
        || rec.status.as_str().is_empty()) {
        return Err(AppError::Internal("invalid idempotency status"));
    }
    let source: &str = match &rec.reserved_at {
        Some(s) => s.as_str(),
        None => rec.created_at.as_str(),
    };
    if let Some(reserved) = parse_rfc3339_seconds(source) {
        let age: i128 = now as i128 - reserved as i128;
        if age > IN_PROGRESS_TTL_SECS as i128 {
            return Ok(ReservationDecision::TakeOverExpired);
        }
    }
    if inserted {
        return Ok(ReservationDecision::Reserved);
    }
    Err(AppError::Conflict("idempotency request in progress"))
}


/// The status and result text that completing a key with the result `result` stores.
pub open spec fn completion_stored(status: Seq<char>, result: Seq<char>, result_id: u128) -> bool {
    status == "completed"@ && result.len() != 0 && uuid_parse(result) == Some(result_id)
}

/// The status and result text to store when the request under a key has completed with the
/// transaction `result_tx_id` (what `finalize_idempotency` writes).
pub fn completion(result_tx_id: &TxId) -> (r: (String, String))
    ensures
        completion_stored(r.0@, r.1@, result_tx_id@),
{
    proof {
        reveal_strlit("completed");
    }
    let t = result_tx_id.to_string_hyphenated();
    ("completed".to_owned(), t)
}

/// Law: once a request under a key completed with a result and the completion was stored,
/// a later request under the key with the same fingerprint is answered with that result,
/// and one with another fingerprint is refused as a conflict. (The stored fingerprint is the
/// first request's: completing a key does not change it.)
pub proof fn lemma_completed_key_replays(
    inserted: bool,
    rec: IdempotencyRecord,
    result_id: u128,
    request_hash: Seq<char>,
    now: i64,
    r: AppResult<ReservationDecision>,
)
    requires
        rec.result_tx_id is Some,
        completion_stored(rec.status@, rec.result_tx_id->0@, result_id),
        reservation_ok(inserted, rec, request_hash, now, r),
    ensures
        request_hash == rec.request_hash@ ==> (r matches Ok(ReservationDecision::Replay(id)) && id@ == result_id),
        request_hash != rec.request_hash@ ==> (r matches Err(e) && e == AppError::Conflict(
            "idempotency key reused with different request",
        )),
{
}

} // verus!
