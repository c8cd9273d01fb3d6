//! The `application/x-www-form-urlencoded` body of the API-key grant request.
use vstd::prelude::*;

verus! {

/// What the form serializer makes of a string: the
/// `application/x-www-form-urlencoded` byte serialization of its UTF-8 bytes.
pub uninterp spec fn form_encoded(s: Seq<char>) -> Seq<char>;

/// Relies on url::form_urlencoded::byte_serialize: the urlencoded byte
/// serializer, whose output depends on the input bytes alone and is empty for
/// empty input.
#[verifier::external_body]
fn form_encode(s: &str) -> (r: String)
    ensures
        r@ == form_encoded(s@),
        s@.len() == 0 ==> r@.len() == 0,
{
    url::form_urlencoded::byte_serialize(s.as_bytes()).collect()
}

/// The grant type that exchanges an API key for a bearer token.
pub const GRANT_TYPE: &'static str = "urn:ibm:params:oauth:grant-type:apikey";

/// One `name=value` pair of a form body, both sides encoded.
pub open spec fn form_pair(name: Seq<char>, value: Seq<char>) -> Seq<char> {
    form_encoded(name) + "="@ + form_encoded(value)
}

/// The body of the token request for `api_key`: the grant type, then the key.
pub open spec fn request_body_of(api_key: Seq<char>) -> Seq<char> {
    form_pair("grant_type"@, GRANT_TYPE@) + "&"@ + form_pair("apikey"@, api_key)
}

fn append_pair(body: &mut String, name: &str, value: &str)
    ensures
        final(body)@ == old(body)@ + form_pair(name@, value@),
{
    let n = form_encode(name);
    let v = form_encode(value);
    body.append(n.as_str());
    body.append("=");
    body.append(v.as_str());
    proof {
        reveal_strlit("=");
    }
    assert(final(body)@ =~= old(body)@ + form_pair(name@, value@));
}

/// The form body that asks the identity provider for a token for `api_key`.
pub fn request_body(api_key: &str) -> (r: String)
    ensures
        r@ == request_body_of(api_key@),
{
    let mut body = String::new();
    append_pair(&mut body, "grant_type", GRANT_TYPE);
    body.append("&");
    append_pair(&mut body, "apikey", api_key);
    assert(body@ =~= request_body_of(api_key@));
    body
}

} // verus!
