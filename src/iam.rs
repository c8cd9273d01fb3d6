//! The credential cache: bearer tokens from the identity provider, kept behind
//! one exclusive lock that is held across a refresh so that concurrent callers
//! never fetch twice.
use std::sync::Arc;
use vstd::prelude::*;
use vstd::rwlock::{RwLock, RwLockPredicate};

use crate::form::{request_body, request_body_of};
use crate::time::{Moment, NANOS_PER_SEC};

verus! {

/// The identity provider's token endpoint.
pub const TOKEN_ENDPOINT: &'static str = "https://iam.cloud.ibm.com/identity/token";

/// The fixed client credentials sent with every token request.
pub const TOKEN_REQUEST_AUTHORIZATION: &'static str = "Basic Yng6Yng=";

/// The environment variable that holds the API key.
pub const API_KEY_VARIABLE: &'static str = "IBMCLOUD_API_KEY";

/// Lifetime given to a token whose response names none.
pub const DEFAULT_LIFETIME_SECS: u64 = 1200;

/// Why no token could be had.
#[derive(Clone, Debug, PartialEq)]
pub enum Error {
    /// The API key is missing or unusable.
    Configuration(String),
    /// The identity provider could not be reached.
    Transport(String),
    /// The provider answered with something that is not a token response.
    Protocol(String),
}

impl Error {
    /// A human-readable description of the error.
    pub fn message(&self) -> (r: String)
        ensures
            r@ == self.message_of(),
    {
        let mut m = String::new();
        match self {
            Error::Configuration(d) => {
                m.append("configuration error: ");
                m.append(d.as_str());
            },
            Error::Transport(d) => {
                m.append("transport error: ");
                m.append(d.as_str());
            },
            Error::Protocol(d) => {
                m.append("protocol error: ");
                m.append(d.as_str());
            },
        }
        m
    }

    pub open spec fn message_of(&self) -> Seq<char> {
        match self {
            Error::Configuration(d) => "configuration error: "@ + d@,
            Error::Transport(d) => "transport error: "@ + d@,
            Error::Protocol(d) => "protocol error: "@ + d@,
        }
    }
}

/// The identity provider's answer, as read from its JSON body.
#[derive(Clone, Debug, PartialEq)]
pub struct TokenResponse {
    pub access_token: String,
    pub token_type: String,
    pub refresh_token: Option<String>,
    pub expires_in: Option<u64>,
}

impl TokenResponse {
    /// The lifetime the response declares, or the default one.
    pub open spec fn lifetime_secs(&self) -> u64 {
        match self.expires_in {
            Some(s) => s,
            None => DEFAULT_LIFETIME_SECS,
        }
    }

    /// The refresh token, with an absent one read as empty.
    pub open spec fn refresh_of(&self) -> Seq<char> {
        match self.refresh_token {
            Some(r) => r@,
            None => Seq::empty(),
        }
    }
}

/// A bearer credential and the moment after which it must not be used.
#[derive(Clone, Debug, PartialEq)]
pub struct Token {
    pub access_token: String,
    pub token_type: String,
    pub refresh_token: String,
    pub expiry: Moment,
}

impl Token {
    /// The token is usable when the clock of its expiry's origin reads `now`.
    pub open spec fn live_at(&self, now: int) -> bool {
        now < self.expiry.nanos
    }

    /// `tok` is what `tr` becomes when it is received at `issued`.
    pub open spec fn issued_from(tok: Token, tr: TokenResponse, issued: Moment) -> bool {
        &&& tok.access_token@ == tr.access_token@
        &&& tok.token_type@ == tr.token_type@
        &&& tok.refresh_token@ == tr.refresh_of()
        &&& tok.expiry.origin == issued.origin
        &&& tok.expiry.nanos == issued.nanos + tr.lifetime_secs() * NANOS_PER_SEC
    }

    /// The token that `tr` becomes when it is received at `issued`.
    pub fn issued_at(tr: TokenResponse, issued: Moment) -> (r: Token)
        requires
            issued.nanos + tr.lifetime_secs() * NANOS_PER_SEC <= u128::MAX,
        ensures
            Token::issued_from(r, tr, issued),
    {
        let lifetime = match tr.expires_in {
            Some(s) => s,
            None => DEFAULT_LIFETIME_SECS,
        };
        let refresh_token = match tr.refresh_token {
            Some(r) => r,
            None => String::new(),
        };
        Token {
            access_token: tr.access_token,
            token_type: tr.token_type,
            refresh_token,
            expiry: issued.after_secs(lifetime),
        }
    }

    /// `tok` is what `tr` becomes when it is received at a fresh clock reading.
    pub open spec fn received_from(tok: Token, tr: TokenResponse) -> bool {
        &&& tok.access_token@ == tr.access_token@
        &&& tok.token_type@ == tr.token_type@
        &&& tok.refresh_token@ == tr.refresh_of()
        &&& tok.expiry.nanos == tr.lifetime_secs() * NANOS_PER_SEC
    }

    /// The token that `tr` becomes, received now: it expires the declared
    /// lifetime (or the default one) after this clock reading.
    pub fn from_response(tr: TokenResponse) -> (r: Token)
        ensures
            Token::received_from(r, tr),
    {
        Token::issued_at(tr, Moment::now())
    }

    /// Whether the token is still usable when its clock reads `now`.
    pub fn valid_at(&self, now: u128) -> (r: bool)
        ensures
            r == self.live_at(now as int),
    {
        now < self.expiry.nanos
    }

    /// Whether the token is still usable now, by the monotonic clock.
    /// A token that expires at its own origin never is.
    pub fn valid(&self) -> (r: bool)
        ensures
            self.expiry.nanos == 0 ==> !r,
    {
        self.valid_at(self.expiry.clock_nanos())
    }

    /// The value of the `Authorization` header that presents this token.
    pub fn authorization(&self) -> (r: String)
        ensures
            r@ == "Bearer "@ + self.access_token@,
    {
        let mut h = String::from_str("Bearer ");
        h.append(self.access_token.as_str());
        h
    }

    /// A copy of the token, field for field.
    pub fn copied(&self) -> (r: Token)
        ensures
            r == *self,
    {
        Token {
            access_token: self.access_token.clone(),
            token_type: self.token_type.clone(),
            refresh_token: self.refresh_token.clone(),
            expiry: self.expiry,
        }
    }
}

/// Whether a call that finds `cached`, while the cached token's clock reads
/// `now`, hands the cached token out.
pub open spec fn hit(cached: Option<Token>, now: int) -> bool {
    match cached {
        Some(t) => t.live_at(now),
        None => false,
    }
}

/// The cache after such a call, where `fetched` is what the refresh produced
/// if the call made one.
pub open spec fn cache_after(
    cached: Option<Token>,
    now: int,
    fetched: Result<Token, Error>,
) -> Option<Token> {
    if hit(cached, now) {
        cached
    } else {
        match fetched {
            Ok(t) => Some(t),
            Err(_) => cached,
        }
    }
}

/// What such a call returns.
pub open spec fn answer(cached: Option<Token>, now: int, fetched: Result<Token, Error>) -> Result<
    Token,
    Error,
> {
    if hit(cached, now) {
        Ok(cached.unwrap())
    } else {
        fetched
    }
}

/// `fetched` is what one refresh through `transport` yields for `api_key`:
/// the transport got the form body for the key, and its answer was turned
/// into a token received then, or its error was passed on unchanged.
pub open spec fn refreshed<F: FnOnce(String) -> Result<TokenResponse, Error>>(
    transport: F,
    api_key: Seq<char>,
    fetched: Result<Token, Error>,
) -> bool {
    exists|body: String, resp: Result<TokenResponse, Error>|
        {
            &&& body@ == request_body_of(api_key)
            &&& transport.ensures((body,), resp)
            &&& match resp {
                Ok(tr) => fetched matches Ok(t) && Token::received_from(t, tr),
                Err(e) => fetched == Err::<Token, Error>(e),
            }
        }
}

/// Serves the calls whose clock readings are `nows`, one after the other,
/// starting from `cached`; the k-th refresh made gets `answers[k]`. Gives the
/// cache after the last call, each call's result, and the number of refreshes.
pub open spec fn run(
    cached: Option<Token>,
    nows: Seq<int>,
    answers: Seq<Result<Token, Error>>,
) -> (Option<Token>, Seq<Result<Token, Error>>, nat)
    decreases nows.len(),
{
    if nows.len() == 0 {
        (cached, Seq::empty(), 0)
    } else if hit(cached, nows[0]) {
        let rest = run(cached, nows.drop_first(), answers);
        (rest.0, seq![Ok(cached.unwrap())] + rest.1, rest.2)
    } else {
        let fetched = answers[0];
        let rest = run(
            cache_after(cached, nows[0], fetched),
            nows.drop_first(),
            answers.drop_first(),
        );
        (rest.0, seq![fetched] + rest.1, rest.2 + 1)
    }
}

/// One call on the cache, made while its lock is held: hands out the cached
/// token if it is live at `now` (the reading of its own clock), and otherwise
/// asks `transport` once for a new one, keeps it and hands it out. A failed
/// refresh leaves the cache as it was and passes the error on.
pub fn serve<F>(cached: &mut Option<Token>, now: u128, api_key: &str, transport: F) -> (r: Result<
    Token,
    Error,
>) where F: FnOnce(String) -> Result<TokenResponse, Error>
    requires
        forall|body: String| transport.requires((body,)),
    ensures
        exists|fetched: Result<Token, Error>|
            {
                &&& !hit(*old(cached), now as int) ==> refreshed(transport, api_key@, fetched)
                &&& r == answer(*old(cached), now as int, fetched)
                &&& *final(cached) == cache_after(*old(cached), now as int, fetched)
            },
{
    if let Some(t) = &*cached {
        if t.valid_at(now) {
            let r = Ok(t.copied());
            assert(r == answer(*old(cached), now as int, r));
            return r;
        }
    }
    let body = request_body(api_key);
    let ghost sent = body;
    let resp = transport(body);
    let ghost got = resp;
    let r = match resp {
        Ok(tr) => Ok(Token::from_response(tr)),
        Err(e) => Err(e),
    };
    if let Ok(tok) = &r {
        *cached = Some(tok.copied());
    }
    assert(transport.ensures((sent,), got));
    assert(refreshed(transport, api_key@, r));
    assert(*cached == cache_after(*old(cached), now as int, r));
    assert(r == answer(*old(cached), now as int, r));
    r
}

/// A token built to expire `delta` nanoseconds after its clock's origin is
/// usable at every reading before that and at none from it on.
pub proof fn lemma_expiry(t: Token, delta: int, now: int)
    requires
        t.expiry.nanos == delta,
    ensures
        t.live_at(now) <==> now < delta,
{
}

/// A cache holding a token that is live at two successive calls hands that
/// token out both times, keeps it, and makes no refresh, whatever the provider
/// would have answered.
pub proof fn lemma_hit_reuses(
    t: Token,
    now1: int,
    now2: int,
    answers: Seq<Result<Token, Error>>,
)
    requires
        t.live_at(now1),
        t.live_at(now2),
    ensures
        run(Some(t), seq![now1, now2], answers) == (
        Some(t),
        seq![Ok::<Token, Error>(t), Ok::<Token, Error>(t)],
        0nat,
    ),
{
    let nows = seq![now1, now2];
    assert(nows.drop_first() =~= seq![now2]);
    assert(seq![now2].drop_first() =~= Seq::<int>::empty());
    let r2 = run(Some(t), seq![now2], answers);
    let r3 = run(Some(t), Seq::<int>::empty(), answers);
    assert(r3 == (Some(t), Seq::<Result<Token, Error>>::empty(), 0nat));
    assert(r2 == (r3.0, seq![Ok::<Token, Error>(t)] + r3.1, r3.2));
    assert(r2.1 =~= seq![Ok::<Token, Error>(t)]);
    assert(run(Some(t), nows, answers) == (r2.0, seq![Ok::<Token, Error>(t)] + r2.1, r2.2));
    assert(seq![Ok::<Token, Error>(t)] + r2.1 =~= seq![Ok::<Token, Error>(t), Ok::<Token, Error>(t)]);
}

/// An empty cache makes exactly one refresh for one call, hands out what the
/// refresh produced, and keeps it if it is a token.
pub proof fn lemma_miss_fetches_once(now: int, fetched: Result<Token, Error>)
    ensures
        run(None, seq![now], seq![fetched]) == (
        match fetched {
            Ok(t) => Some(t),
            Err(_) => None,
        },
        seq![fetched],
        1nat,
    ),
{
    assert(seq![now].drop_first() =~= Seq::<int>::empty());
    let after = cache_after(None, now, fetched);
    let r1 = run(after, Seq::<int>::empty(), seq![fetched].drop_first());
    assert(r1 == (after, Seq::<Result<Token, Error>>::empty(), 0nat));
    assert(run(None, seq![now], seq![fetched]) == (r1.0, seq![fetched] + r1.1, r1.2 + 1));
    assert(seq![fetched] + r1.1 =~= seq![fetched]);
}

proof fn lemma_live_run(t: Token, nows: Seq<int>, answers: Seq<Result<Token, Error>>)
    requires
        forall|i: int| 0 <= i < nows.len() ==> t.live_at(#[trigger] nows[i]),
    ensures
        run(Some(t), nows, answers).0 == Some(t),
        run(Some(t), nows, answers).1 =~= Seq::new(nows.len(), |i: int| Ok::<Token, Error>(t)),
        run(Some(t), nows, answers).2 == 0,
    decreases nows.len(),
{
    if nows.len() > 0 {
        assert(t.live_at(nows[0]));
        let rest = nows.drop_first();
        assert forall|i: int| 0 <= i < rest.len() implies t.live_at(#[trigger] rest[i]) by {
            assert(rest[i] == nows[i + 1]);
        }
        lemma_live_run(t, rest, answers);
    }
}

/// Calls served one after the other from a cache whose token is missing or
/// expired, where the first refresh yields `t` and every later call comes
/// while `t` is live, make a single refresh and all return `t`. The lock held
/// across a refresh puts concurrent calls in such an order.
pub proof fn lemma_single_flight(
    cached: Option<Token>,
    nows: Seq<int>,
    answers: Seq<Result<Token, Error>>,
    t: Token,
)
    requires
        nows.len() >= 1,
        !hit(cached, nows[0]),
        answers.len() >= 1,
        answers[0] == Ok::<Token, Error>(t),
        forall|i: int| 1 <= i < nows.len() ==> t.live_at(#[trigger] nows[i]),
    ensures
        run(cached, nows, answers).0 == Some(t),
        run(cached, nows, answers).1 =~= Seq::new(nows.len(), |i: int| Ok::<Token, Error>(t)),
        run(cached, nows, answers).2 == 1,
{
    let rest = nows.drop_first();
    assert forall|i: int| 0 <= i < rest.len() implies t.live_at(#[trigger] rest[i]) by {
        assert(rest[i] == nows[i + 1]);
    }
    lemma_live_run(t, rest, answers.drop_first());
}

/// A refresh that fails leaves the cache exactly as it was, and the call
/// passes the error on.
pub proof fn lemma_failure_keeps_cache(cached: Option<Token>, now: int, e: Error)
    requires
        !hit(cached, now),
    ensures
        cache_after(cached, now, Err(e)) == cached,
        answer(cached, now, Err(e)) == Err::<Token, Error>(e),
{
}

/// A response without a refresh token gives a token whose refresh token is
/// the empty string.
pub proof fn lemma_absent_refresh_is_empty(tok: Token, tr: TokenResponse)
    requires
        tr.refresh_token is None,
        Token::received_from(tok, tr),
    ensures
        tok.refresh_token@ == Seq::<char>::empty(),
{
}

/// Any value may be cached.
pub struct AnyCached;

impl RwLockPredicate<Option<Token>> for AnyCached {
    open spec fn inv(self, v: Option<Token>) -> bool {
        true
    }
}

/// The credential cache: the API key, and the token last fetched with it,
/// shared behind one exclusive lock.
pub struct Client {
    api_key: String,
    token: Arc<RwLock<Option<Token>, AnyCached>>,
}

impl Client {
    /// The key the cache exchanges for tokens.
    pub closed spec fn key(&self) -> Seq<char> {
        self.api_key@
    }

    /// A cache for `api_key`, holding no token yet.
    pub fn new(api_key: &str) -> (r: Client)
        ensures
            r.key() == api_key@,
    {
        Client {
            api_key: api_key.to_string(),
            token: Arc::new(RwLock::new(None, Ghost(AnyCached))),
        }
    }

    /// A cache for the API key read from the configuration, if there is one;
    /// without a key no cache can be made.
    pub fn configured(api_key: Option<&str>) -> (r: Result<Client, Error>)
        ensures
            r is Err <==> api_key is None,
            r matches Ok(c) ==> c.key() == api_key.unwrap()@,
            r matches Err(e) ==> e is Configuration,
    {
        match api_key {
            Some(k) => Ok(Client::new(k)),
            None => Err(Error::Configuration(String::from_str("'IBMCLOUD_API_KEY' not set or invalid"))),
        }
    }

    /// A usable token: the cached one while it is live, else a new one asked of
    /// `transport` with the form body for the key. The lock is held for the whole
    /// call, refresh included, so concurrent callers wait for one refresh and
    /// then share its token.
    pub fn token<F>(&self, transport: F) -> (r: Result<Token, Error>) where
        F: FnOnce(String) -> Result<TokenResponse, Error>,
        requires
            forall|body: String| transport.requires((body,)),
        ensures
            exists|found: Option<Token>, now: int, fetched: Result<Token, Error>|
                {
                    &&& !hit(found, now) ==> refreshed(transport, self.key(), fetched)
                    &&& r == answer(found, now, fetched)
                },
    {
        let (cached, handle) = self.token.acquire_write();
        let mut cached = cached;
        let now: u128 = match &cached {
            Some(t) => t.expiry.clock_nanos(),
            None => 0,
        };
        let r = serve(&mut cached, now, self.api_key.as_str(), transport);
        handle.release_write(cached);
        r
    }

    /// Replaces the cached token, under the lock.
    pub fn set_cached(&self, token: Option<Token>) {
        let (_old, handle) = self.token.acquire_write();
        handle.release_write(token);
    }

    /// A copy of what the cache holds now, read under the lock.
    pub fn cached(&self) -> Option<Token> {
        let (cached, handle) = self.token.acquire_write();
        let r = match &cached {
            Some(t) => Some(t.copied()),
            None => None,
        };
        handle.release_write(cached);
        r
    }
}

} // verus!
