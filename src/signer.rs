//! The signing scheme: canonical message, signature and connection URL.

use vstd::prelude::*;
use vstd::utf8::encode_utf8;
use crate::decimal::{decimal_of, decimal_string};
use crate::hexdigits::{encode_upper, hex_upper, hex_upper_shape, is_upper_hex_char};
use crate::mac::{hmac_sha256, hmac_sha256_of};

verus! {

/// The string that is signed: verb, resource path, the API key in the
/// `uuid` field, and the timestamp in milliseconds.
pub open spec fn canonical_of(api_key: Seq<char>, ts: nat) -> Seq<char> {
    "GET/users/self/verify?uuid="@ + api_key + "&ts="@ + decimal_of(ts)
}

/// The signature of `message` under `secret`: the HMAC-SHA256 tag of its
/// UTF-8 bytes, in uppercase hexadecimal.
pub open spec fn signature_of(secret: Seq<u8>, message: Seq<char>) -> Seq<char> {
    hex_upper(hmac_sha256_of(secret, encode_utf8(message)))
}

/// The connection URL for the given key, secret, optional session id and
/// timestamp.
pub open spec fn url_of(
    api_key: Seq<char>,
    secret: Seq<u8>,
    session_id: Option<Seq<char>>,
    ts: nat,
) -> Seq<char> {
    let sign = signature_of(secret, canonical_of(api_key, ts));
    match session_id {
        Some(u) => "wss://ws.coincall.com/options?code=10&uuid="@ + u + "&ts="@ + decimal_of(ts)
            + "&sign="@ + sign + "&apiKey="@ + api_key,
        None => "wss://ws.coincall.com/options?code=10&ts="@ + decimal_of(ts) + "&sign="@ + sign
            + "&apiKey="@ + api_key,
    }
}

/// The view of an optional string slice.
pub open spec fn opt_view(o: Option<&str>) -> Option<Seq<char>> {
    match o {
        Some(s) => Some(s@),
        None => None,
    }
}

/// Builds the canonical message for `api_key` at `ts` milliseconds.
pub fn canonical_message(api_key: &str, ts: u128) -> (r: String)
    ensures
        r@ == canonical_of(api_key@, ts as nat),
{
    let mut r = String::from_str("GET/users/self/verify?uuid=");
    r.append(api_key);
    r.append("&ts=");
    let t = decimal_string(ts);
    r.append(t.as_str());
    r
}

/// Signs `message` with `api_secret`: 64 uppercase hexadecimal digits.
pub fn sign(api_secret: &[u8], message: &str) -> (r: String)
    ensures
        r@ == signature_of(api_secret@, message@),
        r@.len() == 64,
        forall|i: int| 0 <= i < r@.len() ==> is_upper_hex_char(#[trigger] r@[i]),
{
    let tag = hmac_sha256(api_secret, message.as_bytes());
    let r = encode_upper(tag.as_slice());
    proof {
        hex_upper_shape(tag@);
    }
    r
}

/// Builds the signed connection URL at `ts` milliseconds since the epoch.
pub fn generate_wss_url(api_key: &str, api_secret: &[u8], uuid: Option<&str>, ts: u128) -> (r:
    String)
    ensures
        r@ == url_of(api_key@, api_secret@, opt_view(uuid), ts as nat),
{
    let ts_text = decimal_string(ts);
    let auth = canonical_message(api_key, ts);
    let signature = sign(api_secret, auth.as_str());
    let mut url = match uuid {
        Some(u) => {
            let mut s = String::from_str("wss://ws.coincall.com/options?code=10&uuid=");
            s.append(u);
            s.append("&ts=");
            s
        },
        None => String::from_str("wss://ws.coincall.com/options?code=10&ts="),
    };
    url.append(ts_text.as_str());
    url.append("&sign=");
    url.append(signature.as_str());
    url.append("&apiKey=");
    url.append(api_key);
    url
}

} // verus!
