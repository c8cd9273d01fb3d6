//! The weight API client: which endpoint serves a server, and where its weight
//! lives. Sending the requests is left to the caller.
use vstd::prelude::*;

verus! {

pub const DEFAULT_ENDPOINT: &'static str = "https://xenobuilds.mattbuilt.com";

pub const DEFAULT_EU_ENDPOINT: &'static str = "https://hapctl-eu.kp-ops.net";

/// Servers whose name holds this marker are served by the EU endpoint.
pub const EU_MARKER: &'static str = "eu-de";

/// Whether `pat` occurs in `s` as a contiguous run.
pub open spec fn occurs_in(pat: Seq<char>, s: Seq<char>) -> bool {
    exists|i: int| 0 <= i && i + pat.len() <= s.len() && #[trigger] s.subrange(i, i + pat.len()) == pat
}

/// Relies on str::contains with a string pattern: whether `pat` matches a
/// substring of `s`.
#[verifier::external_body]
fn str_contains(s: &str, pat: &str) -> (r: bool)
    ensures
        r == occurs_in(pat@, s@),
{
    s.contains(pat)
}

/// The endpoint used for `servername` when `endpoint` overrides nothing.
pub open spec fn endpoint_for(servername: Seq<char>, endpoint: Option<Seq<char>>) -> Seq<char> {
    match endpoint {
        Some(e) => e,
        None => if occurs_in(EU_MARKER@, servername) {
            DEFAULT_EU_ENDPOINT@
        } else {
            DEFAULT_ENDPOINT@
        },
    }
}

/// How many slashes `s` holds.
pub open spec fn slash_count(s: Seq<char>) -> nat
    decreases s.len(),
{
    if s.len() == 0 {
        0
    } else {
        slash_count(s.drop_last()) + if s.last() == '/' {
            1nat
        } else {
            0nat
        }
    }
}

/// `backend/server` splits at the slash at `p`.
pub open spec fn splits_at(name: Seq<char>, p: int, backend: Seq<char>, server: Seq<char>) -> bool {
    &&& 0 <= p < name.len()
    &&& name[p] == '/'
    &&& backend == name.take(p)
    &&& server == name.skip(p + 1)
}

/// The path of a server's weight under `endpoint`.
pub open spec fn weight_uri_of(endpoint: Seq<char>, backend: Seq<char>, server: Seq<char>) -> Seq<
    char,
> {
    endpoint + "/v1/backends/"@ + backend + "/servers/"@ + server + "/weight"@
}

/// A server name that is not of the form `backend/server`.
#[derive(Clone, Copy, Debug, PartialEq, Eq)]
pub struct InvalidServerName;

impl InvalidServerName {
    pub fn message(&self) -> (r: String)
        ensures
            r@ == "invalid server name given"@,
    {
        String::from_str("invalid server name given")
    }
}

/// Splits `backend/server` at its one slash.
pub fn split_server_name(name: &str) -> (r: Result<(String, String), InvalidServerName>)
    ensures
        r is Ok <==> slash_count(name@) == 1,
        r matches Ok(parts) ==> exists|p: int| splits_at(name@, p, parts.0@, parts.1@),
{
    let n = name.unicode_len();
    let mut i: usize = 0;
    let mut count: usize = 0;
    let mut pos: usize = 0;
    while i < n
        invariant
            n == name@.len(),
            i <= n,
            count <= i,
            count == slash_count(name@.take(i as int)),
            count >= 1 ==> pos < i && name@[pos as int] == '/',
        decreases n - i,
    {
        let c = name.get_char(i);
        assert(name@.take(i + 1).drop_last() =~= name@.take(i as int));
        if c == '/' {
            if count == 0 {
                pos = i;
            }
            count = count + 1;
        }
        i = i + 1;
    }
    assert(name@.take(n as int) =~= name@);
    if count != 1 {
        return Err(InvalidServerName);
    }
    let backend = name.substring_char(0, pos);
    let server = name.substring_char(pos + 1, n);
    let parts = (String::from_str(backend), String::from_str(server));
    let r = Ok(parts);
    assert(r matches Ok(parts) && splits_at(name@, pos as int, parts.0@, parts.1@));
    r
}

/// A client of the weight API at one endpoint.
pub struct Client {
    endpoint: String,
}

impl Client {
    pub closed spec fn endpoint_view(&self) -> Seq<char> {
        self.endpoint@
    }

    /// A client for `servername`: at `endpoint` when one is given, else at the
    /// EU endpoint for EU servers and at the default one for the others.
    pub fn new(servername: &str, endpoint: Option<&str>) -> (r: Client)
        ensures
            r.endpoint_view() == endpoint_for(
                servername@,
                match endpoint {
                    Some(e) => Some(e@),
                    None => None,
                },
            ),
    {
        match endpoint {
            Some(e) => Client { endpoint: e.to_string() },
            None => {
                if str_contains(servername, EU_MARKER) {
                    Client { endpoint: DEFAULT_EU_ENDPOINT.to_string() }
                } else {
                    Client { endpoint: DEFAULT_ENDPOINT.to_string() }
                }
            },
        }
    }

    /// The endpoint this client talks to.
    pub fn endpoint(&self) -> (r: &str)
        ensures
            r@ == self.endpoint_view(),
    {
        self.endpoint.as_str()
    }

    /// Where the weight of `server_name` (`backend/server`) is read and set.
    pub fn weight_uri(&self, server_name: &str) -> (r: Result<String, InvalidServerName>)
        ensures
            r is Ok <==> slash_count(server_name@) == 1,
            r matches Ok(u) ==> exists|p: int, b: Seq<char>, s: Seq<char>|
                splits_at(server_name@, p, b, s) && u@ == weight_uri_of(self.endpoint_view(), b, s),
    {
        match split_server_name(server_name) {
            Ok((backend, server)) => {
                let mut u = self.endpoint.clone();
                u.append("/v1/backends/");
                u.append(backend.as_str());
                u.append("/servers/");
                u.append(server.as_str());
                u.append("/weight");
                assert(u@ =~= weight_uri_of(self.endpoint_view(), backend@, server@));
                Ok(u)
            },
            Err(e) => Err(e),
        }
    }
}

} // verus!
