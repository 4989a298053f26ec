//! The attachment protocol's text: extraction of the session identifier from
//! the handshake response, the handshake and upgrade URLs, the
//! authentication payload, the outbound command envelope, and the upgrade
//! probe frame.

use vstd::prelude::*;
use vstd::string::{StrSliceExecFns, StringExecFns, StringExecFnsIsAscii};
use vstd::utf8::is_ascii_chars;
use crate::escape::{json_string, percent_encoded, json_quote, percent_encode};

verus! {

/// The marker that precedes the session identifier in the handshake
/// response body: `"sid":"`.
pub open spec fn sid_marker() -> Seq<char> {
    seq!['"', 's', 'i', 'd', '"', ':', '"']
}

/// Whether the session-identifier marker occurs in `s` starting at `i`.
pub open spec fn marker_at(s: Seq<char>, i: int) -> bool {
    0 <= i && i + 7 <= s.len() && s.subrange(i, i + 7) == sid_marker()
}

/// The first position at or after `i` where the marker occurs, or -1 when it
/// occurs nowhere at or after `i`.
pub open spec fn find_marker_from(s: Seq<char>, i: int) -> int
    decreases s.len() - i when 0 <= i
{
    if i + 7 > s.len() {
        -1
    } else if marker_at(s, i) {
        i
    } else {
        find_marker_from(s, i + 1)
    }
}

/// The first position at or after `i` holding a double quote, or the length
/// of `s` when no quote follows.
pub open spec fn find_quote_from(s: Seq<char>, i: int) -> int
    decreases s.len() - i when 0 <= i
{
    if i >= s.len() {
        s.len() as int
    } else if s[i] == '"' {
        i
    } else {
        find_quote_from(s, i + 1)
    }
}

/// Whether a handshake response body carries a session identifier.
pub open spec fn has_sid(s: Seq<char>) -> bool {
    find_marker_from(s, 0) >= 0
}

/// The session identifier carried by `s`: the text after the first marker
/// occurrence, up to the next double quote (or to the end when no quote
/// follows).
pub open spec fn sid_of(s: Seq<char>) -> Seq<char> {
    let start = find_marker_from(s, 0) + 7;
    s.subrange(start, find_quote_from(s, start))
}

proof fn lemma_find_marker_at(s: Seq<char>, i: int, k: int)
    requires
        0 <= i <= k,
        marker_at(s, k),
        forall|j: int| i <= j < k ==> !marker_at(s, j),
    ensures
        find_marker_from(s, i) == k,
    decreases k - i,
{
    if i < k {
        lemma_find_marker_at(s, i + 1, k);
    }
}

proof fn lemma_find_marker_none_from(s: Seq<char>, i: int)
    requires
        0 <= i,
        forall|j: int| i <= j ==> !marker_at(s, j),
    ensures
        find_marker_from(s, i) == -1,
    decreases s.len() - i,
{
    if i + 7 <= s.len() {
        lemma_find_marker_none_from(s, i + 1);
    }
}

proof fn lemma_find_quote_at(s: Seq<char>, i: int, k: int)
    requires
        0 <= i <= k <= s.len(),
        forall|j: int| i <= j < k ==> s[j] != '"',
        k == s.len() || s[k] == '"',
    ensures
        find_quote_from(s, i) == k,
    decreases k - i,
{
    if i < k {
        lemma_find_quote_at(s, i + 1, k);
    }
}

/// Whether the marker stands in `s` at character position `i`.
fn is_marker_at(s: &str, i: usize) -> (r: bool)
    requires
        i + 7 <= s@.len(),
        s@.len() <= usize::MAX,
    ensures
        r == marker_at(s@, i as int),
{
    let r = s.get_char(i) == '"' && s.get_char(i + 1) == 's' && s.get_char(i + 2) == 'i'
        && s.get_char(i + 3) == 'd' && s.get_char(i + 4) == '"' && s.get_char(i + 5) == ':'
        && s.get_char(i + 6) == '"';
    proof {
        if r {
            assert(s@.subrange(i as int, i as int + 7) =~= sid_marker());
        } else if marker_at(s@, i as int) {
            assert(forall|k: int|
                0 <= k < 7 ==> s@.subrange(i as int, i as int + 7)[k] == sid_marker()[k]);
            assert(s@[i as int] == '"');
            assert(s@[i as int + 1] == 's');
            assert(s@[i as int + 2] == 'i');
            assert(s@[i as int + 3] == 'd');
            assert(s@[i as int + 4] == '"');
            assert(s@[i as int + 5] == ':');
            assert(s@[i as int + 6] == '"');
        }
    }
    r
}

/// Best-effort textual extraction of the session identifier from a handshake
/// response body: the text between the first `"sid":"` marker and the next
/// double quote. Returns nothing exactly when the marker is absent.
pub fn extract_sid(body: &str) -> (r: Option<String>)
    ensures
        r is Some <==> has_sid(body@),
        r matches Some(sid) ==> sid@ == sid_of(body@),
{
    let len = body.unicode_len();
    if len < 7 {
        proof {
            lemma_find_marker_none_from(body@, 0);
        }
        return None;
    }
    let mut i: usize = 0;
    while i <= len - 7
        invariant
            len == body@.len(),
            7 <= len,
            i <= len,
            forall|j: int| 0 <= j < i ==> !marker_at(body@, j),
        decreases len - i,
    {
        if is_marker_at(body, i) {
            let start = i + 7;
            let mut j: usize = start;
            loop
                invariant
                    len == body@.len(),
                    start <= j <= len,
                    forall|k: int| start <= k < j ==> body@[k] != '"',
                ensures
                    start <= j <= len,
                    forall|k: int| start <= k < j ==> body@[k] != '"',
                    j == len || body@[j as int] == '"',
                decreases len - j,
            {
                if j == len {
                    break;
                }
                if body.get_char(j) == '"' {
                    break;
                }
                j = j + 1;
            }
            let sid = body.substring_char(start, j);
            proof {
                lemma_find_marker_at(body@, 0, i as int);
                lemma_find_quote_at(body@, start as int, j as int);
            }
            return Some(sid.to_owned());
        }
        i = i + 1;
    }
    proof {
        assert(forall|j: int| j > len - 7 ==> !marker_at(body@, j));
        lemma_find_marker_none_from(body@, 0);
    }
    None
}

/// A well-formed handshake body — anything without an earlier marker
/// occurrence, then the marker, then an identifier free of double quotes,
/// then a closing quote, then anything — yields exactly that identifier.
pub proof fn lemma_extract_from_well_formed(pre: Seq<char>, x: Seq<char>, rest: Seq<char>)
    requires
        forall|j: int|
            0 <= j < pre.len() ==> !marker_at(pre + sid_marker() + x + seq!['"'] + rest, j),
        forall|k: int| 0 <= k < x.len() ==> x[k] != '"',
    ensures
        has_sid(pre + sid_marker() + x + seq!['"'] + rest),
        sid_of(pre + sid_marker() + x + seq!['"'] + rest) == x,
{
    let s = pre + sid_marker() + x + seq!['"'] + rest;
    let m = pre.len() as int;
    assert(s.subrange(m, m + 7) =~= sid_marker());
    lemma_find_marker_at(s, 0, m);
    assert(forall|k: int| m + 7 <= k < m + 7 + x.len() ==> s[k] == x[k - m - 7]);
    assert(s[m + 7 + x.len()] == '"');
    lemma_find_quote_at(s, m + 7, m + 7 + x.len());
    assert(s.subrange(m + 7, m + 7 + x.len()) =~= x);
}

/// The readiness URL: the base itself, over plain HTTP.
pub open spec fn ready_url_spec(base: Seq<char>) -> Seq<char> {
    "http://"@ + base
}

/// The polling handshake URL for a base authority such as `localhost:3000`.
pub open spec fn handshake_url_spec(base: Seq<char>) -> Seq<char> {
    "http://"@ + base + "/socket.io/?EIO=4&transport=polling"@
}

/// The upgrade URL: the socket endpoint over the `ws` scheme, carrying the
/// session identifier and the percent-encoded authentication payload.
pub open spec fn ws_url_spec(base: Seq<char>, sid: Seq<char>, auth: Seq<char>) -> Seq<char> {
    "ws://"@ + base + "/socket.io/?EIO=4&transport=websocket&sid="@ + sid + "&auth="@
        + percent_encoded(auth)
}

/// The authentication payload: a JSON object whose one field holds the
/// token, or null when there is none.
pub open spec fn auth_payload_spec(token: Option<Seq<char>>) -> Seq<char> {
    match token {
        None => "{\"github_token\":null}"@,
        Some(t) => "{\"github_token\":"@ + json_string(t) + "}"@,
    }
}

/// The view of an optional token.
pub open spec fn token_view(token: Option<&str>) -> Option<Seq<char>> {
    match token {
        None => None,
        Some(t) => Some(t@),
    }
}

/// The URL polled while waiting for the service to come up.
pub fn ready_url(base: &str) -> (r: String)
    ensures
        r@ == ready_url_spec(base@),
{
    let mut u = String::from_str("http://");
    u.append(base);
    u
}

/// The URL of the polling handshake endpoint.
pub fn handshake_url(base: &str) -> (r: String)
    ensures
        r@ == handshake_url_spec(base@),
{
    let mut u = String::from_str("http://");
    u.append(base);
    u.append("/socket.io/?EIO=4&transport=polling");
    u
}

/// The authentication payload for an optional token.
pub fn auth_payload(token: Option<&str>) -> (r: String)
    ensures
        r@ == auth_payload_spec(token_view(token)),
{
    match token {
        None => String::from_str("{\"github_token\":null}"),
        Some(t) => {
            let mut p = String::from_str("{\"github_token\":");
            let q = json_quote(t);
            p.append(q.as_str());
            p.append("}");
            p
        },
    }
}

/// The upgrade URL for a base authority, a session identifier and an
/// optional token. Succeeds exactly when the authentication payload is
/// ASCII, the precondition of percent-encoding it.
pub fn ws_url(base: &str, sid: &str, token: Option<&str>) -> (r: Option<String>)
    ensures
        r is Some <==> is_ascii_chars(auth_payload_spec(token_view(token))),
        r matches Some(u) ==> u@ == ws_url_spec(
            base@,
            sid@,
            auth_payload_spec(token_view(token)),
        ),
{
    let payload = auth_payload(token);
    if !payload.is_ascii() {
        return None;
    }
    let encoded = percent_encode(payload.as_str());
    let mut u = String::from_str("ws://");
    u.append(base);
    u.append("/socket.io/?EIO=4&transport=websocket&sid=");
    u.append(sid);
    u.append("&auth=");
    u.append(encoded.as_str());
    Some(u)
}

/// The wire envelope that carries one command to the remote service: a
/// namespaced `message` event whose payload asks for the command to be run,
/// not hidden.
pub open spec fn envelope_spec(cmd: Seq<char>) -> Seq<char> {
    "42[\"message\",{\"action\":\"RUN\",\"args\":{\"command\":"@ + json_string(cmd)
        + ",\"hidden\":false}}]"@
}

/// Serializes one command into its outbound envelope.
pub fn command_envelope(cmd: &str) -> (r: String)
    ensures
        r@ == envelope_spec(cmd@),
{
    let mut e = String::from_str("42[\"message\",{\"action\":\"RUN\",\"args\":{\"command\":");
    let q = json_quote(cmd);
    e.append(q.as_str());
    e.append(",\"hidden\":false}}]");
    e
}

/// The fixed control frame that finalizes the transport upgrade.
pub fn probe_frame() -> (r: &'static str)
    ensures
        r@ == "2probe"@,
{
    "2probe"
}

} // verus!
