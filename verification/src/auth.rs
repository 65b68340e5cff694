//! Access control: user tokens, the roles they grant, and the local development login.
//!
//! - `Authorization: Bearer <admin token>` -> Admin
//! - `Authorization: Bearer user:<user_id>:<sig>` -> User,
//!   where `sig = base64url(hmac_sha256(secret, "user:<user_id>"))`
//! - requests from the local machine pick a user by `X-Dev-User` or `?as=`.
use vstd::prelude::*;

use crate::codec::{
    base64_url_nopad, base64_url_nopad_text, hmac_sha256, hmac_sha256_tag, percent_decode_text,
    percent_decode_utf8,
};
use crate::domain::{user_id_parse_ok, user_id_valid, UserId};
use crate::error::{ApiError, ApiResult};
use crate::text::{
    chars_of, chars_range, chars_suffix, eq_ignore_ascii_case, find_char, find_char_from,
    lemma_find_char, lemma_find_char_props, plus_to_space, replace_plus_with_space, starts_with, str_eq,
    str_eq_ignore_ascii_case, str_starts_with, string_from_chars, trim, trim_str,
};

verus! {

/// The role of an authenticated caller.
#[derive(Debug, Clone, Copy, PartialEq, Eq, Structural)]
pub enum Role {
    Admin,
    User,
}

/// Who is calling: the role, and the user for the user role.
#[derive(Debug)]
pub struct AuthCtx {
    pub role: Role,
    pub user_id: Option<UserId>,
}

impl Clone for AuthCtx {
    fn clone(&self) -> (r: Self)
        ensures
            r == *self,
    {
        let user_id = match &self.user_id {
            Some(u) => Some(u.clone()),
            None => None,
        };
        AuthCtx { role: self.role, user_id }
    }
}

/// Only an admin may go on.
pub fn require_admin(ctx: &AuthCtx) -> (r: ApiResult<()>)
    ensures
        ctx.role == Role::Admin ==> r is Ok,
        ctx.role == Role::User ==> (r matches Err(e) && e == ApiError::Forbidden("admin only")),
{
    match ctx.role {
        Role::Admin => Ok(()),
        Role::User => Err(ApiError::Forbidden("admin only")),
    }
}

/// Only a user may go on; the answer is who.
pub fn require_user(ctx: &AuthCtx) -> (r: ApiResult<UserId>)
    ensures
        ctx.role == Role::Admin ==> (r matches Err(e) && e == ApiError::Forbidden("user only")),
        ctx.role == Role::User ==> match ctx.user_id {
            Some(u) => r matches Ok(x) && x == u,
            None => r matches Err(e) && e == ApiError::Unauthorized("missing user"),
        },
{
    match ctx.role {
        Role::Admin => Err(ApiError::Forbidden("user only")),
        Role::User => match &ctx.user_id {
            Some(u) => Ok(u.clone()),
            None => Err(ApiError::Unauthorized("missing user")),
        },
    }
}

/// The token of a `Bearer` authorization header: the trimmed text after `Bearer `.
pub open spec fn bearer_token(header: Seq<char>) -> Option<Seq<char>> {
    let h = trim(header);
    if starts_with(h, "Bearer "@) {
        Some(trim(h.subrange(7, h.len() as int)))
    } else {
        None
    }
}

/// Reads the token of an `Authorization` header value.
pub fn extract_bearer(header: Option<&str>) -> (r: Option<String>)
    ensures
        match header {
            None => r is None,
            Some(h) => match bearer_token(h@) {
                Some(t) => r matches Some(x) && x@ == t,
                None => r is None,
            },
        },
{
    let h = header?;
    let h = trim_str(h);
    proof {
        reveal_strlit("Bearer ");
    }
    if !str_starts_with(h.as_str(), "Bearer ") {
        return None;
    }
    let v = chars_of(h.as_str());
    let rest = string_from_chars(&chars_suffix(&v, 7));
    Some(trim_str(rest.as_str()))
}

/// The token of a user: `user:<id>:` followed by the URL-safe base64 HMAC-SHA256 of
/// `user:<id>` under the secret.
pub open spec fn user_token_text(secret: Seq<char>, user: Seq<char>) -> Seq<char> {
    let msg = "user:"@ + user;
    msg + seq![':'] + base64_url_nopad_text(
        hmac_sha256_tag(vstd::utf8::encode_utf8(secret), vstd::utf8::encode_utf8(msg)),
    )
}

/// Signs a user token with the secret.
pub fn sign_user_token(secret: &str, user_id: &UserId) -> (r: String)
    ensures
        r@ == user_token_text(secret@, user_id@),
{
    proof {
        reveal_strlit("user:");
        reveal_strlit(":");
    }
    let msg = "user:".to_owned().concat(user_id.as_str());
    let raw = hmac_sha256(secret.as_bytes(), msg.as_str().as_bytes());
    let sig = base64_url_nopad(raw.as_slice());
    msg.concat(":").concat(sig.as_str())
}

/// Signs a user token for the user id text (which must be a valid user id).
pub fn sign_user_token_str(secret: &str, user_id: &str) -> (r: String)
    requires
        user_id_parse_ok(user_id@),
    ensures
        r@ == user_token_text(secret@, trim(user_id@)),
{
    match UserId::parse(user_id) {
        Ok(user) => sign_user_token(secret, &user),
        Err(_) => {
            assert(false);
            String::new()
        },
    }
}

/// The user that a token names, when it has the form `user:<id>:<rest>` and `<id>` is a valid
/// user id: the trimmed id.
pub open spec fn token_user(token: Seq<char>) -> Option<Seq<char>> {
    let i1 = find_char(token, ':');
    if i1 >= token.len() || token.subrange(0, i1) != "user"@ {
        None
    } else {
        let rest = token.subrange(i1 + 1, token.len() as int);
        let i2 = find_char(rest, ':');
        if i2 >= rest.len() {
            None
        } else if !user_id_parse_ok(rest.subrange(0, i2)) {
            None
        } else {
            Some(trim(rest.subrange(0, i2)))
        }
    }
}

/// Who a bearer token authenticates: the admin token grants the admin role; a user token is
/// accepted only when it is exactly the signed token of the user it names.
pub open spec fn token_role(token: Seq<char>, admin_token: Seq<char>, secret: Seq<char>) -> Option<Option<Seq<char>>> {
    if token == admin_token {
        Some(None)
    } else {
        match token_user(token) {
            Some(u) => if token == user_token_text(secret, u) {
                Some(Some(u))
            } else {
                None
            },
            None => None,
        }
    }
}

/// A token that the library signs for a user authenticates that user: the text of any
/// `UserId` (`user_id_valid`, given by `UserId::as_str`) that holds no `:` (the token's
/// separator), when the token does not happen to be the admin token.
pub proof fn lemma_signed_token_authenticates(secret: Seq<char>, admin_token: Seq<char>, user: Seq<char>)
    requires
        user_id_valid(user),
        !user.contains(':'),
        user_token_text(secret, user) != admin_token,
    ensures
        token_user(user_token_text(secret, user)) == Some(user),
        token_role(user_token_text(secret, user), admin_token, secret) == Some(Some(user)),
{
    reveal_strlit("user:");
    reveal_strlit("user");
    let token = user_token_text(secret, user);
    assert(token[4] == ':');
    assert forall|k: int| 0 <= k < 4 implies #[trigger] token[k] != ':' by {}
    lemma_find_char(token, ':', 4);
    assert(token.subrange(0, 4) =~= "user"@);
    let rest = token.subrange(5, token.len() as int);
    assert(rest[user.len() as int] == ':');
    assert forall|k: int| 0 <= k < user.len() implies #[trigger] rest[k] != ':' by {
        assert(rest[k] == user[k]);
        if user[k] == ':' {
            assert(user.contains(':'));
        }
    }
    lemma_find_char(rest, ':', user.len() as int);
    assert(rest.subrange(0, user.len() as int) =~= user);
}

/// A token grants the user role only to the user it is the signed token of: a token
/// accepted for `user` is exactly the token that the library signs for `user`.
pub proof fn lemma_token_grants_only_its_user(token: Seq<char>, admin_token: Seq<char>, secret: Seq<char>, user: Seq<char>)
    requires
        token_role(token, admin_token, secret) == Some(Some(user)),
    ensures
        token == user_token_text(secret, user),
        token_user(token) == Some(user),
        token != admin_token,
{
}

/// `ctx` is the context of the plain user `user`.
pub open spec fn ctx_is_user(ctx: AuthCtx, user: Seq<char>) -> bool {
    &&& ctx.role == Role::User
    &&& ctx.user_id matches Some(x)
    &&& x@ == user
}

/// The context that a token grants, or `Unauthorized("invalid token")`.
pub fn parse_token(token: &str, admin_token: &str, secret: &str) -> (r: ApiResult<AuthCtx>)
    ensures
        match token_role(token@, admin_token@, secret@) {
            Some(None) => r matches Ok(ctx) && ctx.role == Role::Admin && ctx.user_id is None,
            Some(Some(u)) => r matches Ok(ctx) && ctx_is_user(ctx, u),
            None => r matches Err(e) && e == ApiError::Unauthorized("invalid token"),
        },
{
    if str_eq(token, admin_token) {
        return Ok(AuthCtx { role: Role::Admin, user_id: None });
    }
    let v = chars_of(token);
    let n = v.len();
    let i1 = find_char_from(&v, 0, ':');
    assert(v@.subrange(0, n as int) =~= token@);
    let kind = string_from_chars(&chars_range(&v, 0, i1));
    if i1 >= n || !str_eq(kind.as_str(), "user") {
        return Err(ApiError::Unauthorized("invalid token"));
    }
    let i2 = find_char_from(&v, i1 + 1, ':');
    proof {
        let rest = token@.subrange(i1 + 1, n as int);
        assert(v@.subrange(i1 + 1, n as int) == rest);
    }
    if i2 >= n {
        return Err(ApiError::Unauthorized("invalid token"));
    }
    let user_text = string_from_chars(&chars_range(&v, i1 + 1, i2));
    proof {
        let rest = token@.subrange(i1 + 1, n as int);
        assert(user_text@ =~= rest.subrange(0, i2 - (i1 + 1)));
    }
    let user = match UserId::parse(user_text.as_str()) {
        Ok(u) => u,
        Err(_) => return Err(ApiError::Unauthorized("invalid token")),
    };
    let expected = sign_user_token(secret, &user);
    if !str_eq(token, expected.as_str()) {
        return Err(ApiError::Unauthorized("invalid token"));
    }
    Ok(AuthCtx { role: Role::User, user_id: Some(user) })
}

/// A wallet endpoint names its user in the path: the name must be a valid user id, and the
/// caller must be that user.
pub fn require_own_wallet(ctx: &AuthCtx, path_user_id: &str) -> (r: ApiResult<UserId>)
    ensures
        !user_id_parse_ok(path_user_id@) ==> (r matches Err(e) && e == (if trim(path_user_id@).len() == 0 {
            ApiError::BadRequest("user_id is empty")
        } else {
            ApiError::BadRequest("user_id too long")
        })),
        user_id_parse_ok(path_user_id@) && ctx.role == Role::Admin ==> (r matches Err(e) && e
            == ApiError::Forbidden("user only")),
        user_id_parse_ok(path_user_id@) && ctx.role == Role::User && ctx.user_id is None ==> (r matches Err(
            e,
        ) && e == ApiError::Unauthorized("missing user")),
        user_id_parse_ok(path_user_id@) && ctx.role == Role::User && ctx.user_id is Some ==> if ctx.user_id->0@
            == trim(path_user_id@) {
            r matches Ok(u) && u@ == trim(path_user_id@)
        } else {
            r matches Err(e) && e == ApiError::Forbidden("cannot access other user")
        },
{
    let user = match UserId::parse(path_user_id) {
        Ok(u) => u,
        Err(e) => return Err(ApiError::from(e)),
    };
    let authed = require_user(ctx)?;
    if !authed.same_as(&user) {
        return Err(ApiError::Forbidden("cannot access other user"));
    }
    Ok(user)
}

// ------------------------ local development login ------------------------

/// The user an `X-Dev-User` header value selects, if it is a valid user id.
pub fn dev_user_from_header(value: Option<&str>) -> (r: Option<UserId>)
    ensures
        match value {
            None => r is None,
            Some(v) => if user_id_parse_ok(trim(v@)) {
                r matches Some(u) && u@ == trim(trim(v@))
            } else {
                r is None
            },
        },
{
    let raw = value?;
    let t = trim_str(raw);
    match UserId::parse(t.as_str()) {
        Ok(u) => Some(u),
        Err(_) => None,
    }
}

/// What one `key=value` pair of a query says about the selected user.
pub enum PairOutcome {
    /// Not an `as` pair, or not a valid user id: look further.
    Skip,
    /// The value does not decode: no user.
    Stop,
    /// The selected user.
    Found(Seq<char>),
}

/// The outcome of one query pair: only `as=<value>` counts; the value has `+` read as a space
/// and is percent-decoded.
pub open spec fn pair_outcome(pair: Seq<char>) -> PairOutcome {
    let j = find_char(pair, '=');
    if pair.subrange(0, j) != "as"@ {
        PairOutcome::Skip
    } else {
        let value = if j < pair.len() {
            pair.subrange(j + 1, pair.len() as int)
        } else {
            Seq::<char>::empty()
        };
        match percent_decode_text(plus_to_space(value)) {
            None => PairOutcome::Stop,
            Some(d) => if user_id_parse_ok(d) {
                PairOutcome::Found(trim(d))
            } else {
                PairOutcome::Skip
            },
        }
    }
}

/// The user that a query string selects: the first `as` pair with a valid user id, reading
/// the `&`-separated pairs in order (a pair whose value does not decode ends the search).
pub open spec fn query_user(q: Seq<char>) -> Option<Seq<char>>
    decreases q.len(),
{
    let i = find_char(q, '&');
    if i < 0 || i > q.len() {
        None
    } else {
        match pair_outcome(q.subrange(0, i)) {
            PairOutcome::Stop => None,
            PairOutcome::Found(u) => Some(u),
            PairOutcome::Skip => if i < q.len() {
                query_user(q.subrange(i + 1, q.len() as int))
            } else {
                None
            },
        }
    }
}

/// Outcome of one pair, computed.
enum PairResult {
    Skip,
    Stop,
    Found(UserId),
}

fn pair_result(pair: &Vec<char>) -> (r: PairResult)
    ensures
        match pair_outcome(pair@) {
            PairOutcome::Skip => r is Skip,
            PairOutcome::Stop => r is Stop,
            PairOutcome::Found(u) => r matches PairResult::Found(x) && x@ == u,
        },
{
    let n = pair.len();
    let j = find_char_from(pair, 0, '=');
    assert(pair@.subrange(0, n as int) =~= pair@);
    let key = string_from_chars(&chars_range(pair, 0, j));
    if !str_eq(key.as_str(), "as") {
        return PairResult::Skip;
    }
    let value = if j < n {
        chars_suffix(pair, j + 1)
    } else {
        Vec::new()
    };
    assert(j >= n ==> value@ =~= Seq::<char>::empty());
    let spaced = replace_plus_with_space(&value);
    let spaced_text = string_from_chars(&spaced);
    match percent_decode_utf8(spaced_text.as_str()) {
        None => PairResult::Stop,
        Some(d) => match UserId::parse(d.as_str()) {
            Ok(u) => PairResult::Found(u),
            Err(_) => PairResult::Skip,
        },
    }
}

/// The user a query string selects with `as=<user id>`.
pub fn dev_user_from_query(query: Option<&str>) -> (r: Option<UserId>)
    ensures
        match query {
            None => r is None,
            Some(q) => match query_user(q@) {
                Some(u) => r matches Some(x) && x@ == u,
                None => r is None,
            },
        },
{
    let q = query?;
    let v = chars_of(q);
    let n = v.len();
    let mut pos: usize = 0;
    assert(v@.subrange(0, n as int) =~= q@);
    loop
        invariant
            query == Some(q),
            v@ == q@,
            n == v@.len(),
            pos <= n,
            query_user(q@) == query_user(q@.subrange(pos as int, n as int)),
        decreases n - pos,
    {
        let i = find_char_from(&v, pos, '&');
        let ghost sub = q@.subrange(pos as int, n as int);
        proof {
            lemma_find_char_props(sub, '&');
        }
        let pair = chars_range(&v, pos, i);
        proof {
            assert(v@.subrange(pos as int, n as int) =~= sub);
            assert(pair@ =~= sub.subrange(0, i - pos));
        }
        match pair_result(&pair) {
            PairResult::Stop => {
                return None;
            },
            PairResult::Found(u) => {
                return Some(u);
            },
            PairResult::Skip => {
                if i >= n {
                    return None;
                }
                proof {
                    assert(sub.subrange(i - pos + 1, sub.len() as int) =~= q@.subrange(
                        i + 1,
                        n as int,
                    ));
                }
                pos = i + 1;
            },
        }
    }
}

/// The user that a `/v1/wallet/<user_id>/...` path names: `None` for another path or an
/// empty id; a path with an invalid id is a bad request.
pub open spec fn path_user(path: Seq<char>) -> Result<Option<Seq<char>>, ApiError> {
    if !starts_with(path, "/v1/wallet/"@) {
        Ok(None)
    } else {
        let rest = path.subrange(11, path.len() as int);
        let id = rest.subrange(0, find_char(rest, '/'));
        if id.len() == 0 {
            Ok(None)
        } else if !user_id_parse_ok(id) {
            Err(ApiError::BadRequest("invalid user_id"))
        } else {
            Ok(Some(trim(id)))
        }
    }
}

/// Reads the user of a wallet path.
pub fn dev_wallet_user_from_path(path: &str) -> (r: ApiResult<Option<UserId>>)
    ensures
        match path_user(path@) {
            Ok(None) => r matches Ok(None),
            Ok(Some(u)) => r matches Ok(Some(x)) && x@ == u,
            Err(e) => r matches Err(re) && re == e,
        },
{
    proof {
        reveal_strlit("/v1/wallet/");
    }
    if !str_starts_with(path, "/v1/wallet/") {
        return Ok(None);
    }
    let v = chars_of(path);
    let n = v.len();
    let rest = chars_suffix(&v, 11);
    let slash = find_char_from(&rest, 0, '/');
    assert(rest@.subrange(0, rest@.len() as int) =~= rest@);
    let id = string_from_chars(&chars_range(&rest, 0, slash));
    if id.as_str().is_empty() {
        return Ok(None);
    }
    match UserId::parse(id.as_str()) {
        Ok(u) => Ok(Some(u)),
        Err(_) => Err(ApiError::BadRequest("invalid user_id")),
    }
}

/// The user that the fallback of local development selects.
pub open spec fn dev_fallback_user() -> Seq<char> {
    "u01"@
}

/// The fallback user of local development.
fn dev_fallback() -> (r: UserId)
    ensures
        r@ == dev_fallback_user(),
{
    proof {
        reveal_strlit("u01");
        let s = "u01"@;
        assert(s.len() == 3);
        assert(!crate::text::is_ws(s[0]));
        assert(!crate::text::is_ws(s[2]));
        assert(trim(s) == s);
        reveal_with_fuel(vstd::utf8::encode_utf8, 4);
        assert(s.drop_first().drop_first().drop_first() =~= Seq::<char>::empty());
        assert(crate::text::byte_len(s) == 3);
    }
    match UserId::parse("u01") {
        Ok(u) => u,
        Err(_) => {
            assert(false);
            UserId::parse("u01").unwrap()
        },
    }
}

/// The user that local development selects: by header, else by query, else `u01`.
pub open spec fn selected_user(header: Option<Seq<char>>, query: Option<Seq<char>>) -> Seq<char> {
    let from_header = match header {
        Some(v) => if user_id_parse_ok(trim(v)) {
            Some(trim(trim(v)))
        } else {
            None
        },
        None => None,
    };
    let from_query = match query {
        Some(q) => query_user(q),
        None => None,
    };
    match from_header {
        Some(u) => u,
        None => match from_query {
            Some(u) => u,
            None => dev_fallback_user(),
        },
    }
}

/// The view of optional text.
pub open spec fn opt_str(o: Option<&str>) -> Option<Seq<char>> {
    match o {
        Some(s) => Some(s@),
        None => None,
    }
}

/// Selects the user of a local development request.
pub fn dev_selected_user(header: Option<&str>, query: Option<&str>) -> (r: UserId)
    ensures
        r@ == selected_user(opt_str(header), opt_str(query)),
{
    if let Some(u) = dev_user_from_header(header) {
        return u;
    }
    if let Some(u) = dev_user_from_query(query) {
        return u;
    }
    dev_fallback()
}

/// The request comes from the local machine: its `Host` names `localhost` (any case, any
/// port), or its peer address is a loopback address.
pub open spec fn local_request(host: Option<Seq<char>>, peer_is_loopback: Option<bool>) -> bool {
    let by_host = match host {
        Some(h) => {
            let t = trim(h);
            eq_ignore_ascii_case(t.subrange(0, find_char(t, ':')), "localhost"@)
        },
        None => false,
    };
    by_host || peer_is_loopback == Some(true)
}

/// Is the request local?
pub fn is_local_request(host: Option<&str>, peer_is_loopback: Option<bool>) -> (r: bool)
    ensures
        r == local_request(opt_str(host), peer_is_loopback),
{
    if let Some(h) = host {
        let t = trim_str(h);
        let v = chars_of(t.as_str());
        let colon = find_char_from(&v, 0, ':');
        assert(v@.subrange(0, v@.len() as int) =~= v@);
        let name = string_from_chars(&chars_range(&v, 0, colon));
        if str_eq_ignore_ascii_case(name.as_str(), "localhost") {
            return true;
        }
    }
    match peer_is_loopback {
        Some(b) => b,
        None => false,
    }
}

/// What the access gate decides about a request.
#[derive(Debug)]
pub enum AuthDecision {
    /// A public endpoint: no authentication.
    Public,
    /// An authenticated request, with its context.
    Authorized(AuthCtx),
}

/// The endpoint is public.
pub open spec fn public_path(path: Seq<char>) -> bool {
    path == "/health"@ || path == "/api-doc/openapi.json"@ || starts_with(path, "/swagger-ui"@)
        || path == "/v1/currencies"@
}

/// The access gate: public endpoints pass; development endpoints exist only locally; a local
/// request acts as the selected user (or as admin on admin and development endpoints), and
/// a wallet path must name that user; any other request needs a valid bearer token.
pub open spec fn gate_ok(
    path: Seq<char>,
    is_local: bool,
    dev_header: Option<Seq<char>>,
    query: Option<Seq<char>>,
    authorization: Option<Seq<char>>,
    admin_token: Seq<char>,
    secret: Seq<char>,
    r: ApiResult<AuthDecision>,
) -> bool {
    if public_path(path) {
        r matches Ok(AuthDecision::Public)
    } else if !is_local && starts_with(path, "/v1/dev"@) {
        r matches Err(e) && e == ApiError::NotFound("dev endpoint not available")
    } else if is_local {
        let selected = selected_user(dev_header, query);
        match path_user(path) {
            Err(e) => r matches Err(re) && re == e,
            Ok(Some(p)) if p != selected => r matches Err(e) && e == ApiError::BadRequest(
                "dev user mismatch: path user_id vs selected",
            ),
            _ => if starts_with(path, "/v1/admin"@) || starts_with(path, "/v1/dev"@) {
                r matches Ok(AuthDecision::Authorized(ctx)) && ctx.role == Role::Admin && ctx.user_id is None
            } else {
                r matches Ok(AuthDecision::Authorized(ctx)) && ctx_is_user(ctx, selected)
            },
        }
    } else {
        match authorization {
            None => r matches Err(e) && e == ApiError::Unauthorized("missing Authorization header"),
            Some(h) => match bearer_token(h) {
                None => r matches Err(e) && e == ApiError::Unauthorized("missing Authorization header"),
                Some(t) => match token_role(t, admin_token, secret) {
                    Some(None) => r matches Ok(AuthDecision::Authorized(ctx)) && ctx.role == Role::Admin
                        && ctx.user_id is None,
                    Some(Some(u)) => r matches Ok(AuthDecision::Authorized(ctx)) && ctx_is_user(ctx, u),
                    None => r matches Err(e) && e == ApiError::Unauthorized("invalid token"),
                },
            },
        }
    }
}

/// Decides about a request (the logic of the authentication middleware).
pub fn authorize_request(
    path: &str,
    is_local: bool,
    dev_header: Option<&str>,
    query: Option<&str>,
    authorization: Option<&str>,
    admin_token: &str,
    secret: &str,
) -> (r: ApiResult<AuthDecision>)
    ensures
        gate_ok(path@, is_local, opt_str(dev_header), opt_str(query), opt_str(authorization), admin_token@, secret@, r),
{
    if str_eq(path, "/health") || str_eq(path, "/api-doc/openapi.json") || str_starts_with(path, "/swagger-ui")
        || str_eq(path, "/v1/currencies") {
        return Ok(AuthDecision::Public);
    }
    if !is_local && str_starts_with(path, "/v1/dev") {
        return Err(ApiError::NotFound("dev endpoint not available"));
    }
    if is_local {
        let selected_user = dev_selected_user(dev_header, query);
        if let Some(path_user) = dev_wallet_user_from_path(path)? {
            if !path_user.same_as(&selected_user) {
                return Err(ApiError::BadRequest("dev user mismatch: path user_id vs selected"));
            }
        }
        let is_admin = str_starts_with(path, "/v1/admin") || str_starts_with(path, "/v1/dev");
        let ctx = AuthCtx {
            role: if is_admin {
                Role::Admin
            } else {
                Role::User
            },
            user_id: if is_admin {
                None
            } else {
                Some(selected_user)
            },
        };
        return Ok(AuthDecision::Authorized(ctx));
    }
    let token = match extract_bearer(authorization) {
        Some(t) => t,
        None => return Err(ApiError::Unauthorized("missing Authorization header")),
    };
    let ctx = parse_token(token.as_str(), admin_token, secret)?;
    Ok(AuthDecision::Authorized(ctx))
}

} // verus!
