//! OAuth2 client-credentials tokens.
//!
//! The access token issued by `POST /oauth2/token` is kept until shortly before it
//! expires: [`EARLY_REFRESH_SECS`] seconds are taken off its lifetime, to allow for
//! clock drift and network delay, and a token is kept for one second at least.
//! Times are nanoseconds on a monotonic clock that starts when the cache is made.
use vstd::prelude::*;

use super::{ApiRequest, HttpMethod, RequestBody};
use crate::domain::models::OAuth2TokenResponse;
use crate::text::owned;

verus! {

#[verifier::external_type_specification]
#[verifier::external_body]
pub struct ExInstant(std::time::Instant);

/// Seconds taken off a token's lifetime, so that it is renewed before it expires.
pub const EARLY_REFRESH_SECS: u64 = 60;

/// Nanoseconds in a second.
pub const NANOS_PER_SEC: u128 = 1_000_000_000;

/// Seconds that a token with `expires_in` is kept: `expires_in` (at least 0) less
/// [`EARLY_REFRESH_SECS`] (at least 0), and one at least.
pub open spec fn lifetime_secs(expires_in: i64) -> nat {
    let secs: int = if expires_in < 0 { 0 } else { expires_in as int };
    let early: int = if secs >= EARLY_REFRESH_SECS { secs - EARLY_REFRESH_SECS } else { 0 };
    if early < 1 { 1 } else { early as nat }
}

/// When a token with `expires_in` stored at `now` stops being served (saturating at the clock's end).
pub open spec fn expiry(now: u128, expires_in: i64) -> u128 {
    let end: int = now + lifetime_secs(expires_in) * NANOS_PER_SEC;
    if end > u128::MAX { u128::MAX } else { end as u128 }
}

/// What the cache holds after a token with `expires_in` is stored at `now`.
pub open spec fn stored(token: Seq<char>, expires_in: i64, now: u128) -> Option<(Seq<char>, u128)> {
    Some((token, expiry(now, expires_in)))
}

/// The token that a cache holding `held` serves at `now`: the held token while it has not expired.
pub open spec fn served(held: Option<(Seq<char>, u128)>, now: u128) -> Option<Seq<char>> {
    match held {
        Some((token, expires_at)) => if now < expires_at { Some(token) } else { None },
        None => None,
    }
}

/// A cached access token.
#[derive(Debug, Clone)]
pub struct CachedToken {
    pub access_token: String,
    /// From this time on the token is taken as expired (the early refresh already deducted).
    pub expires_at: u128,
}

/// The access token cache.
pub struct TokenCache {
    origin: std::time::Instant,
    token: Option<CachedToken>,
    /// Clock time of the last store (0 before any); lookups and stores never use an earlier time.
    last_stored_at: u128,
}

/// Reads the monotonic clock, by `std::time::Instant::now`. Nothing is claimed of the result.
#[verifier::external_body]
fn clock_origin() -> std::time::Instant {
    std::time::Instant::now()
}

/// Nanoseconds since `origin`, by `std::time::Instant::elapsed` read with
/// `Duration::as_nanos`. Nothing is claimed of the result: it depends on the clock.
#[verifier::external_body]
fn nanos_since(origin: &std::time::Instant) -> u128 {
    origin.elapsed().as_nanos()
}

impl TokenCache {
    /// The token held and when it expires.
    pub closed spec fn held(&self) -> Option<(Seq<char>, u128)> {
        match self.token {
            Some(t) => Some((t.access_token@, t.expires_at)),
            None => None,
        }
    }

    /// Clock time of the last store (0 before any).
    pub closed spec fn last_store(&self) -> u128 {
        self.last_stored_at
    }

    /// An empty cache whose clock starts now.
    pub fn new() -> (r: Self)
        ensures
            r.held() is None,
            r.last_store() == 0,
    {
        TokenCache { origin: clock_origin(), token: None, last_stored_at: 0 }
    }

    /// The time now on the cache's clock.
    fn now(&self) -> u128 {
        nanos_since(&self.origin)
    }

    /// The time now on the cache's clock, never earlier than the last store (the
    /// clock is monotonic, so this is the clock's reading).
    fn now_since_store(&self) -> (r: u128)
        ensures
            r >= self.last_store(),
    {
        let now = self.now();
        if now < self.last_stored_at {
            self.last_stored_at
        } else {
            now
        }
    }

    /// Stores the token of `resp`, issued at `now`.
    pub fn store_at(&mut self, resp: &OAuth2TokenResponse, now: u128)
        ensures
            final(self).held() == stored(resp.access_token@, resp.expires_in, now),
            final(self).last_store() == now,
    {
        let secs: u64 = if resp.expires_in < 0 { 0 } else { resp.expires_in as u64 };
        let early: u64 = secs.saturating_sub(EARLY_REFRESH_SECS);
        let ttl: u64 = if early < 1 { 1 } else { early };
        assert(ttl == lifetime_secs(resp.expires_in));
        let expires_at = now.saturating_add((ttl as u128) * NANOS_PER_SEC);
        self.token = Some(CachedToken { access_token: resp.access_token.clone(), expires_at });
        self.last_stored_at = now;
    }

    /// The token served at `now`: the held one while it has not expired.
    pub fn cached_at(&self, now: u128) -> (r: Option<String>)
        ensures
            crate::text::opt_text(r) == served(self.held(), now),
    {
        match &self.token {
            Some(t) => if now < t.expires_at {
                Some(t.access_token.clone())
            } else {
                None
            },
            None => None,
        }
    }

    /// Stores the token of `resp`, issued now.
    pub fn store(&mut self, resp: &OAuth2TokenResponse)
        ensures
            exists|now: u128|
                now >= old(self).last_store() && final(self).held() == stored(
                    resp.access_token@,
                    resp.expires_in,
                    now,
                ) && final(self).last_store() == now,
    {
        let now = self.now_since_store();
        self.store_at(resp, now);
    }

    /// The token served now: the held one, unless it has expired. The time of the
    /// lookup is never earlier than the last store.
    pub fn cached(&self) -> (r: Option<String>)
        ensures
            exists|now: u128| now >= self.last_store() && crate::text::opt_text(r) == served(self.held(), now),
    {
        let now = self.now_since_store();
        self.cached_at(now)
    }
}

/// A lookup at a time `now` no earlier than a store at `stored_at` serves the
/// stored token exactly while less than its lifetime has passed since the store,
/// and nothing once it has (within the range of the clock).
pub proof fn lemma_lookup_after_store(token: Seq<char>, expires_in: i64, stored_at: u128, now: u128)
    requires
        stored_at <= now,
        stored_at + lifetime_secs(expires_in) * NANOS_PER_SEC <= u128::MAX,
    ensures
        now - stored_at < lifetime_secs(expires_in) * NANOS_PER_SEC ==> served(
            stored(token, expires_in, stored_at),
            now,
        ) == Some(token),
        now - stored_at >= lifetime_secs(expires_in) * NANOS_PER_SEC ==> served(
            stored(token, expires_in, stored_at),
            now,
        ) is None,
{
}

/// A token served at `now` by a cache that stored a token at `stored_at` is that
/// token while less than its lifetime has passed: the last token stored is the
/// one served, for at least one second (within the range of the clock).
pub proof fn lemma_stored_token_served_until_expiry(
    token: Seq<char>,
    expires_in: i64,
    stored_at: u128,
    now: u128,
)
    requires
        stored_at <= now,
        now < stored_at + lifetime_secs(expires_in) * NANOS_PER_SEC,
        stored_at + lifetime_secs(expires_in) * NANOS_PER_SEC <= u128::MAX,
    ensures
        served(stored(token, expires_in, stored_at), now) == Some(token),
        lifetime_secs(expires_in) >= 1,
{
}

/// Once its lifetime has passed, a stored token is no longer served, so the next
/// request issues a new one.
pub proof fn lemma_stored_token_not_served_after_expiry(
    token: Seq<char>,
    expires_in: i64,
    stored_at: u128,
    now: u128,
)
    requires
        now >= stored_at + lifetime_secs(expires_in) * NANOS_PER_SEC,
    ensures
        served(stored(token, expires_in, stored_at), now) is None,
{
}

/// Whatever the cache held before, after a store it serves no token but the one
/// stored: a later store replaces an earlier one.
pub proof fn lemma_only_last_stored_token_served(
    token: Seq<char>,
    expires_in: i64,
    stored_at: u128,
    now: u128,
)
    ensures
        served(stored(token, expires_in, stored_at), now) is Some ==> served(
            stored(token, expires_in, stored_at),
            now,
        ) == Some(token),
{
}

/// The token is renewed [`EARLY_REFRESH_SECS`] seconds before the server lets it
/// expire, where its lifetime allows, and is never kept past it but for the one
/// second that every token is kept.
pub proof fn lemma_early_refresh(expires_in: i64)
    ensures
        expires_in > EARLY_REFRESH_SECS ==> lifetime_secs(expires_in) + EARLY_REFRESH_SECS == expires_in,
        lifetime_secs(expires_in) <= if expires_in < 1 { 1 } else { expires_in as int },
{
}

/// What a cache holding `held` holds after one API call that first asks it for a
/// token at `call_time` and, where it serves none, issues `token` (with
/// `expires_in`) and stores it at `store_time`; and whether a token was issued.
pub open spec fn after_call(
    held: Option<(Seq<char>, u128)>,
    call_time: u128,
    store_time: u128,
    token: Seq<char>,
    expires_in: i64,
) -> (Option<(Seq<char>, u128)>, nat) {
    if served(held, call_time) is Some {
        (held, 0)
    } else {
        (stored(token, expires_in, store_time), 1)
    }
}

/// What a cache holding `held` holds after the API calls `calls`, in order, each
/// given by the clock readings of its lookup and of its store; and how many
/// tokens were issued on the way.
pub open spec fn after_calls(
    held: Option<(Seq<char>, u128)>,
    calls: Seq<(u128, u128)>,
    token: Seq<char>,
    expires_in: i64,
) -> (Option<(Seq<char>, u128)>, nat)
    decreases calls.len(),
{
    if calls.len() == 0 {
        (held, 0)
    } else {
        let first = after_call(held, calls[0].0, calls[0].1, token, expires_in);
        let rest = after_calls(first.0, calls.drop_first(), token, expires_in);
        (rest.0, first.1 + rest.1)
    }
}

/// Calls made while a token stored at `stored_at` is alive issue no token and
/// leave the cache as it is.
pub proof fn lemma_calls_within_lifetime_reuse_token(
    token: Seq<char>,
    expires_in: i64,
    stored_at: u128,
    calls: Seq<(u128, u128)>,
)
    requires
        stored_at + lifetime_secs(expires_in) * NANOS_PER_SEC <= u128::MAX,
        forall|i: int|
            0 <= i < calls.len() ==> stored_at <= #[trigger] calls[i].0 && calls[i].0 < stored_at
                + lifetime_secs(expires_in) * NANOS_PER_SEC,
    ensures
        after_calls(stored(token, expires_in, stored_at), calls, token, expires_in) == (
            stored(token, expires_in, stored_at),
            0nat,
        ),
    decreases calls.len(),
{
    if calls.len() > 0 {
        lemma_stored_token_served_until_expiry(token, expires_in, stored_at, calls[0].0);
        assert forall|i: int| 0 <= i < calls.drop_first().len() implies stored_at <= #[trigger] calls.drop_first()[i].0
            && calls.drop_first()[i].0 < stored_at + lifetime_secs(expires_in) * NANOS_PER_SEC by {
            assert(calls.drop_first()[i] == calls[i + 1]);
        }
        lemma_calls_within_lifetime_reuse_token(token, expires_in, stored_at, calls.drop_first());
    }
}

/// Starting from an empty cache, a run of API calls issues exactly one token when
/// every call after the first comes before that token's lifetime has passed
/// (counted from when it was stored): the token is issued once and reused.
pub proof fn lemma_one_issuance_within_lifetime(token: Seq<char>, expires_in: i64, calls: Seq<(u128, u128)>)
    requires
        calls.len() >= 1,
        calls[0].1 + lifetime_secs(expires_in) * NANOS_PER_SEC <= u128::MAX,
        forall|i: int|
            1 <= i < calls.len() ==> calls[0].1 <= #[trigger] calls[i].0 && calls[i].0 < calls[0].1
                + lifetime_secs(expires_in) * NANOS_PER_SEC,
    ensures
        after_calls(None, calls, token, expires_in).1 == 1,
        after_calls(None, calls, token, expires_in).0 == stored(token, expires_in, calls[0].1),
{
    let rest = calls.drop_first();
    assert forall|i: int| 0 <= i < rest.len() implies calls[0].1 <= #[trigger] rest[i].0 && rest[i].0 < calls[0].1
        + lifetime_secs(expires_in) * NANOS_PER_SEC by {
        assert(rest[i] == calls[i + 1]);
    }
    lemma_calls_within_lifetime_reuse_token(token, expires_in, calls[0].1, rest);
}

/// Client credentials of the OAuth2 client-credentials grant.
#[derive(Debug, Clone)]
pub struct Credentials {
    client_id: String,
    client_secret: String,
}

impl Credentials {
    pub closed spec fn client_id(&self) -> Seq<char> {
        self.client_id@
    }

    pub closed spec fn client_secret(&self) -> Seq<char> {
        self.client_secret@
    }

    pub fn new(client_id: &str, client_secret: &str) -> (r: Self)
        ensures
            r.client_id() == client_id@,
            r.client_secret() == client_secret@,
    {
        Credentials { client_id: owned(client_id), client_secret: owned(client_secret) }
    }

    /// The token request (`POST /oauth2/token`) with the form fields of the grant.
    pub fn token_request(&self) -> (r: ApiRequest)
        ensures
            r.is(HttpMethod::Post, "/oauth2/token"@, Seq::empty(), false),
            r.body matches RequestBody::Form(form) && super::query_view(form@) == seq![
                ("grant_type"@, "client_credentials"@),
                ("client_id"@, self.client_id()),
                ("client_secret"@, self.client_secret()),
            ],
    {
        let form = super::entries3(
            "grant_type",
            owned("client_credentials"),
            "client_id",
            self.client_id.clone(),
            "client_secret",
            self.client_secret.clone(),
        );
        ApiRequest {
            method: HttpMethod::Post,
            path: owned("/oauth2/token"),
            query: super::no_query(),
            body: RequestBody::Form(form),
            needs_account: false,
        }
    }
}

} // verus!
