//! Properties of the signing scheme that relate several inputs or calls.

use vstd::prelude::*;
use crate::decimal::{decimal_of, digit_char};
use crate::hexdigits::{hex_upper, hex_upper_shape, is_upper_hex_char};
use crate::mac::hmac_sha256_of;
use crate::signer::{canonical_of, signature_of, url_of};

verus! {

/// `pat` occurs in `s` starting at index `p`.
pub open spec fn occurs_at(s: Seq<char>, pat: Seq<char>, p: int) -> bool {
    0 <= p && p + pat.len() <= s.len() && s.subrange(p, p + pat.len()) == pat
}

/// `pat` occurs somewhere in `s`.
pub open spec fn contains(s: Seq<char>, pat: Seq<char>) -> bool {
    exists|p: int| occurs_at(s, pat, p)
}

/// No character of `s` is `c`.
pub open spec fn lacks_char(s: Seq<char>, c: char) -> bool {
    forall|i: int| 0 <= i < s.len() ==> #[trigger] s[i] != c
}

proof fn decimal_lacks_u(n: nat)
    ensures
        lacks_char(decimal_of(n), 'u'),
    decreases n,
{
    assert(digit_char(n % 10) != 'u');
    if n >= 10 {
        decimal_lacks_u(n / 10);
    }
}

proof fn hex_lacks_u(b: Seq<u8>)
    ensures
        lacks_char(hex_upper(b), 'u'),
{
    hex_upper_shape(b);
    assert forall|i: int| 0 <= i < hex_upper(b).len() implies #[trigger] hex_upper(b)[i] != 'u' by {
        assert(is_upper_hex_char(hex_upper(b)[i]));
    }
}

proof fn concat_lacks(a: Seq<char>, b: Seq<char>, c: char)
    requires
        lacks_char(a, c),
        lacks_char(b, c),
    ensures
        lacks_char(a + b, c),
{
    assert forall|i: int| 0 <= i < (a + b).len() implies #[trigger] (a + b)[i] != c by {
        if i >= a.len() {
            assert((a + b)[i] == b[i - a.len()]);
        }
    }
}

/// Without a session id the URL has no `uuid=` anywhere, as long as the API
/// key itself holds no `uuid=`.
pub proof fn url_without_session_has_no_uuid(api_key: Seq<char>, secret: Seq<u8>, ts: nat)
    requires
        !contains(api_key, "uuid="@),
    ensures
        !contains(url_of(api_key, secret, None, ts), "uuid="@),
{
    reveal_strlit("wss://ws.coincall.com/options?code=10&ts=");
    reveal_strlit("&sign=");
    reveal_strlit("&apiKey=");
    reveal_strlit("uuid=");
    let head = "wss://ws.coincall.com/options?code=10&ts="@;
    let sig = signature_of(secret, canonical_of(api_key, ts));
    assert(lacks_char(head, 'u'));
    assert(lacks_char("&sign="@, 'u'));
    assert(lacks_char("&apiKey="@, 'u'));
    decimal_lacks_u(ts);
    hex_lacks_u(hmac_sha256_of(secret, vstd::utf8::encode_utf8(canonical_of(api_key, ts))));
    concat_lacks(head, decimal_of(ts), 'u');
    concat_lacks(head + decimal_of(ts), "&sign="@, 'u');
    concat_lacks(head + decimal_of(ts) + "&sign="@, sig, 'u');
    concat_lacks(head + decimal_of(ts) + "&sign="@ + sig, "&apiKey="@, 'u');
    let pre = head + decimal_of(ts) + "&sign="@ + sig + "&apiKey="@;
    let url = url_of(api_key, secret, None, ts);
    assert(url == pre + api_key);
    if contains(url, "uuid="@) {
        let p = choose|p: int| occurs_at(url, "uuid="@, p);
        assert(url.subrange(p, p + 5)[0] == 'u');
        assert(url[p] == 'u');
        assert(p >= pre.len());
        assert(api_key.subrange(p - pre.len(), p - pre.len() + 5) =~= url.subrange(p, p + 5));
        assert(occurs_at(api_key, "uuid="@, p - pre.len()));
    }
}

/// `s` ends with `suffix`.
pub open spec fn ends_with(s: Seq<char>, suffix: Seq<char>) -> bool {
    suffix.len() <= s.len() && s.subrange(s.len() - suffix.len(), s.len() as int) == suffix
}

/// With a session id the URL begins with its base and `code=10&`, and
/// `uuid=`, the session id and the next `&` follow at once.
pub proof fn url_with_session_places_uuid_after_code(
    api_key: Seq<char>,
    secret: Seq<u8>,
    session_id: Seq<char>,
    ts: nat,
)
    ensures
        occurs_at(url_of(api_key, secret, Some(session_id), ts), "wss://ws.coincall.com/options?code=10&"@, 0),
        occurs_at(
            url_of(api_key, secret, Some(session_id), ts),
            "uuid="@ + session_id + "&"@,
            "wss://ws.coincall.com/options?code=10&"@.len() as int,
        ),
{
    reveal_strlit("wss://ws.coincall.com/options?code=10&uuid=");
    reveal_strlit("wss://ws.coincall.com/options?code=10&");
    reveal_strlit("uuid=");
    reveal_strlit("&ts=");
    reveal_strlit("&");
    let url = url_of(api_key, secret, Some(session_id), ts);
    let lead = "wss://ws.coincall.com/options?code=10&"@;
    let head = "wss://ws.coincall.com/options?code=10&uuid="@;
    let rest = decimal_of(ts) + "&sign="@ + signature_of(secret, canonical_of(api_key, ts))
        + "&apiKey="@ + api_key;
    assert(url =~= head + session_id + "&ts="@ + rest);
    assert(head =~= lead + "uuid="@);
    assert(url.subrange(0, lead.len() as int) =~= lead);
    assert(url.subrange(lead.len() as int, (lead.len() + 5 + session_id.len() + 1) as int) =~= "uuid="@
        + session_id + "&"@);
}

/// The API key enters the signed message and the URL verbatim: it fills the
/// `uuid` field of the canonical message and ends the URL after `&apiKey=`,
/// so two different keys give two different canonical messages.
pub proof fn api_key_enters_message_and_url(
    api_key: Seq<char>,
    other_key: Seq<char>,
    secret: Seq<u8>,
    session_id: Option<Seq<char>>,
    ts: nat,
)
    ensures
        occurs_at(canonical_of(api_key, ts), api_key, "GET/users/self/verify?uuid="@.len() as int),
        ends_with(url_of(api_key, secret, session_id, ts), "&apiKey="@ + api_key),
        api_key != other_key ==> canonical_of(api_key, ts) != canonical_of(other_key, ts),
{
    let lead = "GET/users/self/verify?uuid="@;
    let tail = "&ts="@ + decimal_of(ts);
    let c1 = canonical_of(api_key, ts);
    let c2 = canonical_of(other_key, ts);
    assert(c1 =~= lead + api_key + tail);
    assert(c2 =~= lead + other_key + tail);
    assert(c1.subrange(lead.len() as int, (lead.len() + api_key.len()) as int) =~= api_key);
    let url = url_of(api_key, secret, session_id, ts);
    let sfx = "&apiKey="@ + api_key;
    assert(url.subrange(url.len() - sfx.len(), url.len() as int) =~= sfx);
    if api_key != other_key && c1 == c2 {
        if api_key.len() == other_key.len() {
            assert(c2.subrange(lead.len() as int, (lead.len() + other_key.len()) as int) =~= other_key);
        } else {
            assert(c1.len() != c2.len());
        }
    }
}

/// Signing is a function of its inputs: the same secret, key, session id and
/// timestamp give the same signature and the same URL.
pub proof fn signing_is_deterministic(
    api_key: Seq<char>,
    secret: Seq<u8>,
    session_id: Option<Seq<char>>,
    ts: nat,
    api_key2: Seq<char>,
    secret2: Seq<u8>,
    session_id2: Option<Seq<char>>,
    ts2: nat,
)
    requires
        api_key2 == api_key,
        secret2 == secret,
        session_id2 == session_id,
        ts2 == ts,
    ensures
        signature_of(secret, canonical_of(api_key, ts)) == signature_of(
            secret2,
            canonical_of(api_key2, ts2),
        ),
        url_of(api_key, secret, session_id, ts) == url_of(api_key2, secret2, session_id2, ts2),
{
}

} // verus!
