use vstd::prelude::*;

use vstd::string::{StrSliceExecFns, StringSliceAdditionalSpecFns};

use crate::error::{
    event_error_text, fails_with, join, json_error_text, key_error_text, nip44_error_text, text,
    text_or, text_or_else, AuthFailure, NostrAuthError,
};
use crate::json::{
    json_normal_form, json_parses, json_quote, json_string, json_string_value, normalize_json,
    opt_view, read_json_string, read_relay_message, read_rpc_response, relay_message_fields,
    rpc_response_fields, RelayMessage, RelayMessageView, RpcResponse, RpcResponseView,
};
use crate::keys::{
    decode_key_hex, derive_public_key, generate_secret_key, hex_lower, is_key_hex, nip44_decrypt,
    event_fields, event_id_of, event_verifies, is_xonly_point, nip44_encrypt, nip44_plaintext,
    public_key_from_hex, sign_new_event, xonly_public_key,
    PublicKey, SecretKey,
};
use crate::text::{
    chars_of, is_prefix_of, push_char, same_chars, slice_chars, starts_with, string_of, text_is,
};

verus! {

/// `s` cut at the first `c`: the part before it and the part after it.
pub open spec fn split_once(s: Seq<char>, c: char) -> Option<(Seq<char>, Seq<char>)> {
    if exists|i: int| 0 <= i < s.len() && s[i] == c {
        let i = choose|i: int|
            0 <= i < s.len() && s[i] == c && forall|j: int| 0 <= j < i ==> s[j] != c;
        Some((s.subrange(0, i), s.subrange(i + 1, s.len() as int)))
    } else {
        None
    }
}

/// The pieces of `s` between the occurrences of `c`, in order; one piece when
/// `c` does not occur, and an empty piece for each empty stretch.
pub open spec fn split_all(s: Seq<char>, c: char) -> Seq<Seq<char>>
    decreases s.len(),
{
    if s.len() == 0 {
        seq![Seq::empty()]
    } else {
        let p = split_all(s.drop_last(), c);
        if s.last() == c {
            p.push(Seq::empty())
        } else {
            p.update(p.len() - 1, p.last().push(s.last()))
        }
    }
}

proof fn lemma_split_all_nonempty(s: Seq<char>, c: char)
    ensures
        split_all(s, c).len() >= 1,
    decreases s.len(),
{
    if s.len() > 0 {
        lemma_split_all_nonempty(s.drop_last(), c);
    }
}

/// The value of a `key=value` query parameter, if `piece` is one for `key`.
pub open spec fn param_value(piece: Seq<char>, key: Seq<char>) -> Option<Seq<char>> {
    match split_once(piece, '=') {
        Some((k, v)) => if k == key {
            Some(v)
        } else {
            None
        },
        None => None,
    }
}

/// The value of the last parameter for `key` among the pieces, if any.
pub open spec fn last_param(pieces: Seq<Seq<char>>, key: Seq<char>) -> Option<Seq<char>>
    decreases pieces.len(),
{
    if pieces.len() == 0 {
        None
    } else {
        match param_value(pieces.last(), key) {
            Some(v) => Some(v),
            None => last_param(pieces.drop_last(), key),
        }
    }
}

/// What follows the `bunker://` or `nostrconnect://` scheme, if the URI has one.
pub open spec fn after_scheme(uri: Seq<char>) -> Option<Seq<char>> {
    if is_prefix_of("bunker://"@, uri) {
        Some(uri.subrange("bunker://"@.len() as int, uri.len() as int))
    } else if is_prefix_of("nostrconnect://"@, uri) {
        Some(uri.subrange("nostrconnect://"@.len() as int, uri.len() as int))
    } else {
        None
    }
}

/// The remote-signer part of a URI after its scheme: up to the first `?`.
pub open spec fn pubkey_part(rest: Seq<char>) -> Seq<char> {
    match split_once(rest, '?') {
        Some((a, _)) => a,
        None => rest,
    }
}

/// The query part of a URI after its scheme: after the first `?`, if any.
pub open spec fn query_part(rest: Seq<char>) -> Seq<char> {
    match split_once(rest, '?') {
        Some((_, b)) => b,
        None => Seq::empty(),
    }
}

/// The cut of a character sequence at the first occurrence of `c`.
pub fn split_once_chars(s: &[char], c: char) -> (r: Option<(Vec<char>, Vec<char>)>)
    ensures
        match split_once(s@, c) {
            Some((a, b)) => r matches Some((x, y)) && x@ == a && y@ == b,
            None => r is None,
        },
{
    let mut i: usize = 0;
    while i < s.len()
        invariant
            0 <= i <= s@.len(),
            forall|j: int| 0 <= j < i ==> s@[j] != c,
        decreases s@.len() - i,
    {
        if s[i] == c {
            let ghost gi = i as int;
            assert(0 <= gi < s@.len() && s@[gi] == c && forall|j: int| 0 <= j < gi ==> s@[j] != c);
            let ghost k = choose|k: int|
                0 <= k < s@.len() && s@[k] == c && forall|j: int| 0 <= j < k ==> s@[j] != c;
            assert(k == gi) by {
                if k < gi {
                    assert(s@[k] != c);
                } else if k > gi {
                    assert(s@[gi] != c);
                }
            }
            let before = slice_chars(s, 0, i);
            let after = slice_chars(s, i + 1, s.len());
            return Some((before, after));
        }
        i = i + 1;
    }
    None
}

/// The pieces of a character sequence between the occurrences of `c`.
pub fn split_all_chars(s: &[char], c: char) -> (r: Vec<Vec<char>>)
    ensures
        r@.len() == split_all(s@, c).len(),
        forall|k: int| 0 <= k < r@.len() ==> #[trigger] r@[k]@ == split_all(s@, c)[k],
{
    let mut done: Vec<Vec<char>> = Vec::new();
    let mut cur: Vec<char> = Vec::new();
    let mut i: usize = 0;
    while i < s.len()
        invariant
            0 <= i <= s@.len(),
            split_all(s@.subrange(0, i as int), c).len() == done@.len() + 1,
            forall|k: int|
                0 <= k < done@.len() ==> #[trigger] done@[k]@ == split_all(
                    s@.subrange(0, i as int),
                    c,
                )[k],
            cur@ == split_all(s@.subrange(0, i as int), c).last(),
        decreases s@.len() - i,
    {
        let ghost prev = split_all(s@.subrange(0, i as int), c);
        assert(s@.subrange(0, i + 1).drop_last() =~= s@.subrange(0, i as int));
        if s[i] == c {
            done.push(cur);
            cur = Vec::new();
        } else {
            cur.push(s[i]);
        }
        i = i + 1;
    }
    assert(s@.subrange(0, s@.len() as int) =~= s@);
    done.push(cur);
    done
}

/// The parts of a `bunker://` or `nostrconnect://` URI, with the parameter
/// values still percent-encoded, together with the URI they come from.
#[derive(Debug)]
pub struct BunkerUriParts {
    uri: String,
    remote_pubkey_hex: String,
    relay: Option<String>,
    secret: Option<String>,
}

/// The value of [`BunkerUriParts`].
pub struct BunkerUriPartsView {
    pub uri: Seq<char>,
    pub remote_pubkey_hex: Seq<char>,
    pub relay: Option<Seq<char>>,
    pub secret: Option<Seq<char>>,
}

impl View for BunkerUriParts {
    type V = BunkerUriPartsView;

    closed spec fn view(&self) -> BunkerUriPartsView {
        BunkerUriPartsView {
            uri: self.uri@,
            remote_pubkey_hex: self.remote_pubkey_hex@,
            relay: opt_view(self.relay),
            secret: opt_view(self.secret),
        }
    }
}

/// A parsed bunker URI with its parameter values decoded, together with the
/// URI it comes from.
#[derive(Debug)]
pub struct BunkerUri {
    uri: String,
    remote_pubkey_hex: String,
    relay_url: String,
    secret: Option<String>,
}

/// The value of a [`BunkerUri`].
pub struct BunkerUriView {
    pub uri: Seq<char>,
    pub remote_pubkey_hex: Seq<char>,
    pub relay_url: Seq<char>,
    pub secret: Option<Seq<char>>,
}

impl View for BunkerUri {
    type V = BunkerUriView;

    closed spec fn view(&self) -> BunkerUriView {
        BunkerUriView {
            uri: self.uri@,
            remote_pubkey_hex: self.remote_pubkey_hex@,
            relay_url: self.relay_url@,
            secret: opt_view(self.secret),
        }
    }
}

/// The text of the last parameter for `key` in the pieces.
fn find_last_param(pieces: &Vec<Vec<char>>, key: &str) -> (r: Option<String>)
    ensures
        match last_param(pieces@.map_values(|p: Vec<char>| p@), key@) {
            Some(v) => r matches Some(t) && t@ == v,
            None => r is None,
        },
{
    let ghost ps = pieces@.map_values(|p: Vec<char>| p@);
    let key_chars = chars_of(key);
    let mut found: Option<String> = None;
    let mut j: usize = 0;
    while j < pieces.len()
        invariant
            0 <= j <= pieces@.len(),
            ps == pieces@.map_values(|p: Vec<char>| p@),
            key_chars@ == key@,
            match last_param(ps.subrange(0, j as int), key@) {
                Some(v) => found matches Some(t) && t@ == v,
                None => found is None,
            },
        decreases pieces@.len() - j,
    {
        assert(ps.subrange(0, j + 1).drop_last() =~= ps.subrange(0, j as int));
        assert(ps.subrange(0, j + 1).last() == pieces@[j as int]@);
        let piece = &pieces[j];
        if piece.len() > 0 {
            if let Some((k, v)) = split_once_chars(piece.as_slice(), '=') {
                if same_chars(k.as_slice(), key_chars.as_slice()) {
                    found = Some(string_of(v.as_slice()));
                }
            }
        } else {
            assert(split_once(piece@, '=') is None);
        }
        j = j + 1;
    }
    assert(ps.subrange(0, pieces@.len() as int) =~= ps);
    found
}

/// The parts of a bunker URI, or the reason it is not one.
pub open spec fn bunker_uri_parts(uri: Seq<char>) -> Result<
    (Seq<char>, Option<Seq<char>>, Option<Seq<char>>),
    AuthFailure,
> {
    match after_scheme(uri) {
        None => Err(
            AuthFailure::InvalidBunkerUri("URI must start with bunker:// or nostrconnect://"@),
        ),
        Some(rest) => if pubkey_part(rest).len() == 0 {
            Err(AuthFailure::InvalidBunkerUri("missing remote pubkey"@))
        } else {
            let pieces = split_all(query_part(rest), '&');
            Ok((pubkey_part(rest), last_param(pieces, "relay"@), last_param(pieces, "secret"@)))
        },
    }
}

/// The `bunker://` and `nostrconnect://` schemes are read alike: the same
/// remainder gives the same parts, or the same refusal.
pub proof fn law_both_schemes_parse_alike(rest: Seq<char>)
    ensures
        bunker_uri_parts("bunker://"@ + rest) == bunker_uri_parts("nostrconnect://"@ + rest),
{
    reveal_strlit("bunker://");
    reveal_strlit("nostrconnect://");
    let b = "bunker://"@ + rest;
    let n = "nostrconnect://"@ + rest;
    assert(b.subrange(0, 9) =~= "bunker://"@);
    assert(b.subrange(9, b.len() as int) =~= rest);
    assert(n.subrange(0, 9)[0] == 'n');
    assert(!is_prefix_of("bunker://"@, n));
    assert(n.subrange(0, 15) =~= "nostrconnect://"@);
    assert(n.subrange(15, n.len() as int) =~= rest);
}

/// What follows the scheme of a URI, if it is `bunker://` or `nostrconnect://`.
fn strip_scheme(chars: &Vec<char>) -> (r: Option<Vec<char>>)
    ensures
        match after_scheme(chars@) {
            Some(rest) => r matches Some(v) && v@ == rest,
            None => r is None,
        },
{
    let bunker = chars_of("bunker://");
    let nostrconnect = chars_of("nostrconnect://");
    if starts_with(chars.as_slice(), bunker.as_slice()) {
        Some(slice_chars(chars.as_slice(), bunker.len(), chars.len()))
    } else if starts_with(chars.as_slice(), nostrconnect.as_slice()) {
        Some(slice_chars(chars.as_slice(), nostrconnect.len(), chars.len()))
    } else {
        None
    }
}

/// The remote-signer part and the query part of what follows a URI's scheme.
fn cut_query(rest: Vec<char>) -> (r: (Vec<char>, Vec<char>))
    ensures
        r.0@ == pubkey_part(rest@),
        r.1@ == query_part(rest@),
{
    match split_once_chars(rest.as_slice(), '?') {
        Some((a, b)) => (a, b),
        None => (rest, Vec::new()),
    }
}

/// The last `relay` and `secret` parameters of a query.
fn query_params(query: &Vec<char>) -> (r: (Option<String>, Option<String>))
    ensures
        match last_param(split_all(query@, '&'), "relay"@) {
            Some(v) => r.0 matches Some(t) && t@ == v,
            None => r.0 is None,
        },
        match last_param(split_all(query@, '&'), "secret"@) {
            Some(v) => r.1 matches Some(t) && t@ == v,
            None => r.1 is None,
        },
{
    let pieces = split_all_chars(query.as_slice(), '&');
    let ghost ps = pieces@.map_values(|p: Vec<char>| p@);
    assert(ps =~= split_all(query@, '&'));
    let relay = find_last_param(&pieces, "relay");
    let secret = find_last_param(&pieces, "secret");
    (relay, secret)
}

/// Whether `p` holds the parts of its URI.
pub open spec fn parts_of_uri(p: BunkerUriPartsView) -> bool {
    bunker_uri_parts(p.uri) matches Ok((pk, relay, secret)) && pk == p.remote_pubkey_hex && relay
        == p.relay && secret == p.secret
}

/// Whether `b` comes from its URI: the remote key is the URI's, the URI has a
/// `relay` parameter, a secret is there only where the URI has one, and the
/// relay is not empty.
pub open spec fn uri_of_parts(b: BunkerUriView) -> bool {
    bunker_uri_parts(b.uri) matches Ok((pk, relay, secret)) && pk == b.remote_pubkey_hex
        && relay is Some && (b.secret is Some ==> secret is Some) && b.relay_url.len() > 0
}

/// Splits a `bunker://` or `nostrconnect://` URI into the remote signer's key
/// and the last `relay` and `secret` query parameters (still percent-encoded).
pub fn split_bunker_uri(uri: &str) -> (r: Result<BunkerUriParts, NostrAuthError>)
    ensures
        match bunker_uri_parts(uri@) {
            Err(f) => fails_with(r, f),
            Ok(_) => r matches Ok(p) && p@.uri == uri@ && parts_of_uri(p@),
        },
{
    let chars = chars_of(uri);
    let rest = match strip_scheme(&chars) {
        Some(rest) => rest,
        None => {
            return Err(
                NostrAuthError::InvalidBunkerUri(
                    text("URI must start with bunker:// or nostrconnect://"),
                ),
            );
        },
    };
    let (pubkey_chars, query) = cut_query(rest);
    if pubkey_chars.len() == 0 {
        return Err(NostrAuthError::InvalidBunkerUri(text("missing remote pubkey")));
    }
    let (relay, secret) = query_params(&query);
    let p = BunkerUriParts {
        uri: text(uri),
        remote_pubkey_hex: string_of(pubkey_chars.as_slice()),
        relay,
        secret,
    };
    Ok(p)
}

impl BunkerUriParts {
    #[verifier::type_invariant]
    closed spec fn holds_its_parts(self) -> bool {
        parts_of_uri(self@)
    }

    /// The URI the parts come from.
    pub fn uri(&self) -> (r: &String)
        ensures
            r@ == self@.uri,
    {
        &self.uri
    }

    /// The remote signer's public key, as written in the URI.
    pub fn remote_pubkey_hex(&self) -> (r: &String)
        ensures
            r@ == self@.remote_pubkey_hex,
    {
        &self.remote_pubkey_hex
    }

    /// The last `relay` parameter, percent-encoded.
    pub fn relay(&self) -> (r: &Option<String>)
        ensures
            opt_view(*r) == self@.relay,
    {
        &self.relay
    }

    /// The last `secret` parameter, percent-encoded.
    pub fn secret(&self) -> (r: &Option<String>)
        ensures
            opt_view(*r) == self@.secret,
    {
        &self.secret
    }

    /// The URI with its parameter values decoded: `relay_url` and `secret` are
    /// the host's `decodeURIComponent` of the `relay` and `secret` parameters
    /// (the raw text where that fails), `None` where there was none. A missing
    /// or empty relay is refused; a secret is kept only where the URI has one.
    pub fn with_decoded(self, relay_url: Option<String>, secret: Option<String>) -> (r: Result<
        BunkerUri,
        NostrAuthError,
    >)
        ensures
            match relay_url {
                Some(u) if u@.len() > 0 && self@.relay is Some => r matches Ok(b) && b@.uri
                    == self@.uri && b@.remote_pubkey_hex == self@.remote_pubkey_hex && b@.relay_url
                    == u@ && b@.secret == (if self@.secret is Some {
                    opt_view(secret)
                } else {
                    None
                }),
                _ => fails_with(r, AuthFailure::InvalidBunkerUri("missing relay URL"@)),
            },
    {
        proof {
            use_type_invariant(&self);
        }
        if self.relay.is_none() {
            return Err(NostrAuthError::InvalidBunkerUri(text("missing relay URL")));
        }
        let secret = if self.secret.is_some() {
            secret
        } else {
            None
        };
        match relay_url {
            Some(u) => {
                if u.unicode_len() == 0 {
                    Err(NostrAuthError::InvalidBunkerUri(text("missing relay URL")))
                } else {
                    Ok(
                        BunkerUri {
                            uri: self.uri,
                            remote_pubkey_hex: self.remote_pubkey_hex,
                            relay_url: u,
                            secret,
                        },
                    )
                }
            },
            None => Err(NostrAuthError::InvalidBunkerUri(text("missing relay URL"))),
        }
    }
}

impl BunkerUri {
    #[verifier::type_invariant]
    closed spec fn comes_from_its_uri(self) -> bool {
        uri_of_parts(self@)
    }

    /// Every parsed URI comes from its URI text.
    pub fn uri(&self) -> (r: &String)
        ensures
            r@ == self@.uri,
            uri_of_parts(self@),
    {
        proof {
            use_type_invariant(self);
        }
        &self.uri
    }

    /// The remote signer's public key, as written in the URI.
    pub fn remote_pubkey_hex(&self) -> (r: &String)
        ensures
            r@ == self@.remote_pubkey_hex,
    {
        &self.remote_pubkey_hex
    }

    /// The relay to reach the remote signer through.
    pub fn relay_url(&self) -> (r: &String)
        ensures
            r@ == self@.relay_url,
    {
        &self.relay_url
    }

    /// The connection secret, if the URI carries one.
    pub fn secret(&self) -> (r: &Option<String>)
        ensures
            opt_view(*r) == self@.secret,
    {
        &self.secret
    }
}

// ─────────────────────────────────────────────
//  NIP-46 messages
// ─────────────────────────────────────────────

/// The kind of NIP-46 request and response events.
pub open spec fn nip46_kind() -> u64 {
    24133
}

/// The permissions a connect request asks for.
pub open spec fn connect_permissions() -> Seq<char> {
    "sign_event,get_public_key,nip44_encrypt,nip44_decrypt"@
}

/// A NIP-46 request as compact JSON: `{"id":…,"method":…,"params":[…]}`, with
/// `params` the JSON text of the parameters, comma separated.
pub open spec fn rpc_request_text(id: Seq<char>, method: Seq<char>, params: Seq<char>) -> Seq<char> {
    "{\"id\":"@ + json_string(id) + ",\"method\":"@ + json_string(method) + ",\"params\":["@
        + params + "]}"@
}

/// The parameters of a connect request.
pub open spec fn connect_params(client_pubkey_hex: Seq<char>, secret: Seq<char>) -> Seq<char> {
    json_string(client_pubkey_hex) + ","@ + json_string(secret) + ","@ + json_string(
        connect_permissions(),
    )
}

/// A relay subscription to the NIP-46 events addressed to a client key.
pub open spec fn subscription_text(sub_id: Seq<char>, client_pubkey_hex: Seq<char>) -> Seq<char> {
    "[\"REQ\","@ + json_string(sub_id) + ",{\"#p\":["@ + json_string(client_pubkey_hex)
        + "],\"kinds\":[24133]}]"@
}

/// A relay `EVENT` message carrying an event given as JSON; `null` where the
/// event text does not parse.
pub open spec fn event_message_text(event_json: Seq<char>) -> Seq<char> {
    "[\"EVENT\","@ + match json_normal_form(event_json) {
        Some(t) => t,
        None => "null"@,
    } + "]"@
}

/// The upper-case hexadecimal digit for a nibble.
pub open spec fn upper_hex_digit(n: int) -> char {
    if n < 10 {
        ('0' as int + n) as char
    } else {
        ('A' as int + n - 10) as char
    }
}

/// Upper-case hexadecimal text of a byte string, two digits per byte.
pub open spec fn hex_upper(bytes: Seq<u8>) -> Seq<char>
    decreases bytes.len(),
{
    if bytes.len() == 0 {
        Seq::empty()
    } else {
        let b = bytes.last();
        hex_upper(bytes.drop_last()) + seq![upper_hex_digit(b as int / 16), upper_hex_digit(b as int % 16)]
    }
}

fn upper_hex_char(n: u8) -> (c: char)
    requires
        n < 16,
    ensures
        c == upper_hex_digit(n as int),
{
    if n < 10 {
        (n + 48) as char
    } else {
        (n + 55) as char
    }
}

/// A request ID from random bytes: their upper-case hexadecimal text.
pub fn request_id_from_bytes(bytes: &[u8]) -> (s: String)
    ensures
        s@ == hex_upper(bytes@),
{
    let mut s = String::new();
    let mut i: usize = 0;
    while i < bytes.len()
        invariant
            0 <= i <= bytes@.len(),
            s@ == hex_upper(bytes@.subrange(0, i as int)),
        decreases bytes@.len() - i,
    {
        let b = bytes[i];
        push_char(&mut s, upper_hex_char(b / 16));
        push_char(&mut s, upper_hex_char(b % 16));
        assert(bytes@.subrange(0, i + 1).drop_last() =~= bytes@.subrange(0, i as int));
        i = i + 1;
    }
    assert(bytes@.subrange(0, bytes@.len() as int) =~= bytes@);
    s
}

fn rpc_request(id: &str, method: &str, params: &str) -> (r: String)
    ensures
        r@ == rpc_request_text(id@, method@, params@),
{
    let mut r = text("{\"id\":");
    r.append(json_quote(id).as_str());
    r.append(",\"method\":");
    r.append(json_quote(method).as_str());
    r.append(",\"params\":[");
    r.append(params);
    r.append("]}");
    r
}

/// The NIP-46 `connect` request of a client key, with the URI's secret or an
/// empty one.
pub open spec fn connect_request_of(
    request_id: Seq<char>,
    client_pubkey_hex: Seq<char>,
    secret: Option<Seq<char>>,
) -> Seq<char> {
    rpc_request_text(
        request_id,
        "connect"@,
        connect_params(
            client_pubkey_hex,
            match secret {
                Some(s) => s,
                None => ""@,
            },
        ),
    )
}

/// The NIP-46 `connect` request, with the secret from the URI or an empty one.
pub fn connect_request(request_id: &str, client_pubkey_hex: &str, secret: Option<&str>) -> (r:
    String)
    ensures
        r@ == rpc_request_text(
            request_id@,
            "connect"@,
            connect_params(
                client_pubkey_hex@,
                match secret {
                    Some(s) => s@,
                    None => ""@,
                },
            ),
        ),
{
    let mut params = json_quote(client_pubkey_hex);
    params.append(",");
    let secret_text = match secret {
        Some(s) => s,
        None => "",
    };
    params.append(json_quote(secret_text).as_str());
    params.append(",");
    params.append(json_quote("sign_event,get_public_key,nip44_encrypt,nip44_decrypt").as_str());
    rpc_request(request_id, "connect", params.as_str())
}

/// The NIP-46 `get_public_key` request.
pub fn get_public_key_request(request_id: &str) -> (r: String)
    ensures
        r@ == rpc_request_text(request_id@, "get_public_key"@, Seq::empty()),
{
    proof {
        reveal_strlit("");
    }
    rpc_request(request_id, "get_public_key", "")
}

/// The NIP-46 `sign_event` request for an unsigned event given as JSON; the
/// event must parse as JSON.
pub fn sign_event_request(request_id: &str, event_json: &str) -> (r: Result<String, NostrAuthError>)
    ensures
        match json_normal_form(event_json@) {
            Some(n) => r matches Ok(t) && t@ == rpc_request_text(request_id@, "sign_event"@, n),
            None => r matches Err(NostrAuthError::Serialization(_)),
        },
{
    match normalize_json(event_json) {
        Ok(n) => Ok(rpc_request(request_id, "sign_event", n.as_str())),
        Err(e) => Err(NostrAuthError::Serialization(json_error_text(&e))),
    }
}

/// The name of the NIP-44 request method.
pub open spec fn nip44_method(encrypt: bool) -> Seq<char> {
    if encrypt {
        "nip44_encrypt"@
    } else {
        "nip44_decrypt"@
    }
}

/// The NIP-46 `nip44_encrypt` (`encrypt == true`) or `nip44_decrypt` request.
pub fn nip44_request(request_id: &str, encrypt: bool, peer_hex: &str, content: &str) -> (r: String)
    ensures
        r@ == rpc_request_text(
            request_id@,
            nip44_method(encrypt),
            json_string(peer_hex@) + ","@ + json_string(content@),
        ),
{
    let mut params = json_quote(peer_hex);
    params.append(",");
    params.append(json_quote(content).as_str());
    let method = if encrypt {
        "nip44_encrypt"
    } else {
        "nip44_decrypt"
    };
    rpc_request(request_id, method, params.as_str())
}

/// The relay subscription to the NIP-46 events addressed to the client key.
pub fn subscription_request(sub_id: &str, client_pubkey_hex: &str) -> (r: String)
    ensures
        r@ == subscription_text(sub_id@, client_pubkey_hex@),
{
    let mut r = text("[\"REQ\",");
    r.append(json_quote(sub_id).as_str());
    r.append(",{\"#p\":[");
    r.append(json_quote(client_pubkey_hex).as_str());
    r.append("],\"kinds\":[24133]}]");
    r
}

/// The relay `EVENT` message for an event given as JSON.
pub fn event_message(event_json: &str) -> (r: String)
    ensures
        r@ == event_message_text(event_json@),
{
    let mut r = text("[\"EVENT\",");
    match normalize_json(event_json) {
        Ok(n) => r.append(n.as_str()),
        Err(_) => r.append("null"),
    }
    r.append("]");
    r
}

/// The subscription ID of a one-shot request: `nip46-` and the request ID's
/// first eight bytes, which must end on a character boundary.
pub fn one_shot_subscription_id(request_id: &str) -> (r: String)
    requires
        vstd::utf8::is_char_boundary(request_id.spec_bytes(), 8),
    ensures
        r@ == "nip46-"@ + vstd::utf8::decode_utf8(request_id.spec_bytes().subrange(0, 8)),
{
    let (head, _) = request_id.split_at(8);
    proof {
        vstd::utf8::encode_utf8_decode_utf8(head@);
    }
    join("nip46-", head)
}

/// The subscription ID of the persistent connection.
pub fn persistent_subscription_id() -> (r: String)
    ensures
        r@ == "nip46-persistent"@,
{
    text("nip46-persistent")
}

/// The error for a failed or timed-out request: the failure's text, or
/// `fallback` where it had none; the text `timeout` means the timer won.
pub fn rpc_failure(message: Option<String>, fallback: &str) -> (e: NostrAuthError)
    ensures
        text_or(message, fallback@) == "timeout"@ ==> e@ == AuthFailure::BunkerTimeout,
        text_or(message, fallback@) != "timeout"@ ==> e@ == AuthFailure::BunkerConnectionFailed(
            text_or(message, fallback@),
        ),
{
    let m = text_or_else(message, fallback);
    if text_is(m.as_str(), "timeout") {
        NostrAuthError::BunkerTimeout
    } else {
        NostrAuthError::BunkerConnectionFailed(m)
    }
}

/// What the connect handshake learned.
#[derive(Clone, Debug)]
pub enum HandshakeStep {
    /// The remote signer answered with the user's public key.
    Connected(PublicKey),
    /// The remote signer only acknowledged: ask it with `get_public_key`.
    NeedPublicKey,
}

/// The public-key text of a connect reply: the JSON string, or empty.
pub open spec fn connect_reply_key_text(result: Seq<char>) -> Seq<char> {
    match json_string_value(result) {
        Some(t) => t,
        None => Seq::empty(),
    }
}

/// What a `connect` reply (its `result` as JSON text) means.
pub fn handshake_step(result: &str) -> (r: Result<HandshakeStep, NostrAuthError>)
    ensures
        !json_parses(result@) ==> r matches Err(NostrAuthError::BunkerConnectionFailed(_)),
        json_parses(result@) ==> {
            let k = connect_reply_key_text(result@);
            if k == "ack"@ || k.len() == 0 {
                r matches Ok(HandshakeStep::NeedPublicKey)
            } else if is_key_hex(k) {
                r matches Ok(HandshakeStep::Connected(pk)) && pk@ == decode_key_hex(k)
            } else {
                r matches Err(NostrAuthError::InvalidPublicKey(_))
            }
        },
{
    let value = match read_json_string(result) {
        Ok(v) => v,
        Err(e) => return Err(NostrAuthError::BunkerConnectionFailed(json_error_text(&e))),
    };
    proof {
        reveal_strlit("");
    }
    let pk_hex = text_or_else(value, "");
    if text_is(pk_hex.as_str(), "ack") || pk_hex.unicode_len() == 0 {
        return Ok(HandshakeStep::NeedPublicKey);
    }
    match public_key_from_hex(pk_hex.as_str()) {
        Ok(pk) => Ok(HandshakeStep::Connected(pk)),
        Err(e) => Err(NostrAuthError::InvalidPublicKey(key_error_text(&e))),
    }
}

/// What a `get_public_key` reply (its `result` as JSON text) means.
pub fn public_key_reply(result: &str) -> (r: Result<PublicKey, NostrAuthError>)
    ensures
        !json_parses(result@) ==> r matches Err(NostrAuthError::BunkerConnectionFailed(_)),
        json_parses(result@) ==> match json_string_value(result@) {
            None => fails_with(r, AuthFailure::BunkerConnectionFailed("no pubkey in response"@)),
            Some(k) => if is_key_hex(k) {
                r matches Ok(pk) && pk@ == decode_key_hex(k)
            } else {
                r matches Err(NostrAuthError::InvalidPublicKey(_))
            },
        },
{
    let value = match read_json_string(result) {
        Ok(v) => v,
        Err(e) => return Err(NostrAuthError::BunkerConnectionFailed(json_error_text(&e))),
    };
    let hex = match value {
        Some(h) => h,
        None => return Err(NostrAuthError::BunkerConnectionFailed(text("no pubkey in response"))),
    };
    match public_key_from_hex(hex.as_str()) {
        Ok(pk) => Ok(pk),
        Err(e) => Err(NostrAuthError::InvalidPublicKey(key_error_text(&e))),
    }
}

/// What a `sign_event` reply (its `result` as JSON text) means: the signed
/// event, unwrapped where the signer sent it as a JSON string.
pub fn sign_event_reply(result: &str) -> (r: Result<String, NostrAuthError>)
    ensures
        !json_parses(result@) ==> r matches Err(NostrAuthError::SigningFailed(_)),
        json_parses(result@) ==> (r matches Ok(t) && t@ == match json_string_value(result@) {
            Some(s) => s,
            None => result@,
        }),
{
    match read_json_string(result) {
        Ok(Some(s)) => Ok(s),
        Ok(None) => Ok(text(result)),
        Err(e) => Err(NostrAuthError::SigningFailed(json_error_text(&e))),
    }
}

/// What a `nip44_encrypt` (`encrypt == true`) or `nip44_decrypt` reply (its
/// `result` as JSON text) means: the JSON string it must be.
pub fn nip44_reply(result: &str, encrypt: bool) -> (r: Result<String, NostrAuthError>)
    ensures
        !json_parses(result@) ==> r matches Err(NostrAuthError::SigningFailed(_)),
        json_parses(result@) ==> match json_string_value(result@) {
            Some(s) => r matches Ok(t) && t@ == s,
            None => fails_with(
                r,
                AuthFailure::SigningFailed(
                    if encrypt {
                        "invalid nip44_encrypt response"@
                    } else {
                        "invalid nip44_decrypt response"@
                    },
                ),
            ),
        },
{
    match read_json_string(result) {
        Ok(Some(s)) => Ok(s),
        Ok(None) => {
            let msg = if encrypt {
                "invalid nip44_encrypt response"
            } else {
                "invalid nip44_decrypt response"
            };
            Err(NostrAuthError::SigningFailed(text(msg)))
        },
        Err(e) => Err(NostrAuthError::SigningFailed(json_error_text(&e))),
    }
}

/// The ciphertext of a relay message that is a NIP-46 event from the remote
/// signer: an `EVENT` of kind 24133 whose author is `remote_hex`. Where
/// `missing_author_as_empty` holds, a message without an author counts as
/// written by the empty key (the one-shot handshake reads it so).
pub open spec fn incoming_ciphertext_of(
    m: RelayMessageView,
    remote_hex: Seq<char>,
    missing_author_as_empty: bool,
) -> Option<Seq<char>> {
    let author_ok = match m.author {
        Some(a) => a == remote_hex,
        None => missing_author_as_empty && remote_hex.len() == 0,
    };
    if m.tag == Some("EVENT"@) && m.kind == Some(nip46_kind()) && author_ok {
        m.content
    } else {
        None
    }
}

/// The ciphertext of a relay message, if it is a NIP-46 event from the remote signer.
pub fn incoming_ciphertext(msg: &RelayMessage, remote_hex: &str, missing_author_as_empty: bool) -> (r:
    Option<String>)
    ensures
        opt_view(r) == incoming_ciphertext_of(msg@, remote_hex@, missing_author_as_empty),
{
    let is_event = match &msg.tag {
        Some(t) => text_is(t.as_str(), "EVENT"),
        None => false,
    };
    if !is_event {
        return None;
    }
    if msg.kind != Some(24133u64) {
        return None;
    }
    let author_ok = match &msg.author {
        Some(a) => text_is(a.as_str(), remote_hex),
        None => missing_author_as_empty && remote_hex.unicode_len() == 0,
    };
    if !author_ok {
        return None;
    }
    match &msg.content {
        Some(c) => Some(text(c.as_str())),
        None => None,
    }
}

/// A response to a pending request: its ID, and the result (as JSON text) or
/// the signer's error.
#[derive(Debug)]
pub struct RpcReply {
    pub id: String,
    pub outcome: Result<String, String>,
}

/// The requests sent over a persistent connection that still wait for their
/// reply, by request ID. A reply settles the request it answers once: the
/// request is no longer pending afterwards.
pub struct PendingRequests {
    ids: Vec<String>,
}

/// The texts of a list of strings.
pub open spec fn texts_of(v: Seq<String>) -> Seq<Seq<char>> {
    Seq::new(v.len(), |i: int| v[i]@)
}

impl View for PendingRequests {
    type V = Set<Seq<char>>;

    closed spec fn view(&self) -> Set<Seq<char>> {
        texts_of(self.ids@).to_set()
    }
}

impl PendingRequests {
    #[verifier::type_invariant]
    closed spec fn wf(self) -> bool {
        texts_of(self.ids@).no_duplicates()
    }

    /// No request is pending.
    pub fn new() -> (p: PendingRequests)
        ensures
            p@ == Set::<Seq<char>>::empty(),
    {
        let p = PendingRequests { ids: Vec::new() };
        assert(p@ =~= Set::<Seq<char>>::empty());
        p
    }

    /// Where `id` stands in the list, if it is there.
    fn position(ids: &Vec<String>, id: &str) -> (r: Option<usize>)
        ensures
            match r {
                Some(i) => i < ids@.len() && ids@[i as int]@ == id@,
                None => !texts_of(ids@).contains(id@),
            },
    {
        let mut i: usize = 0;
        while i < ids.len()
            invariant
                0 <= i <= ids@.len(),
                forall|j: int| 0 <= j < i ==> ids@[j]@ != id@,
            decreases ids@.len() - i,
        {
            if text_is(ids[i].as_str(), id) {
                return Some(i);
            }
            i = i + 1;
        }
        proof {
            if texts_of(ids@).contains(id@) {
                let j = choose|j: int| 0 <= j < texts_of(ids@).len() && texts_of(ids@)[j] == id@;
                assert(ids@[j]@ == id@);
            }
        }
        None
    }

    /// Whether a request with this ID is pending.
    pub fn is_pending(&self, id: &str) -> (r: bool)
        ensures
            r == self@.contains(id@),
    {
        match Self::position(&self.ids, id) {
            Some(i) => {
                assert(texts_of(self.ids@)[i as int] == id@);
                true
            },
            None => false,
        }
    }

    /// Marks the request `id` as pending.
    pub fn register(&mut self, id: &str)
        ensures
            final(self)@ == old(self)@.insert(id@),
    {
        proof {
            use_type_invariant(&*self);
        }
        let mut ids: Vec<String> = Vec::new();
        std::mem::swap(&mut ids, &mut self.ids);
        let ghost before = texts_of(ids@);
        match Self::position(&ids, id) {
            Some(i) => {
                assert(before[i as int] == id@);
                assert(before.to_set().insert(id@) =~= before.to_set());
            },
            None => {
                ids.push(text(id));
                let ghost after = texts_of(ids@);
                assert(after =~= before.push(id@));
                assert forall|x: Seq<char>| #[trigger] after.contains(x) <==> (before.contains(x) || x == id@) by {
                    if after.contains(x) {
                        let j = choose|j: int| 0 <= j < after.len() && after[j] == x;
                        if j < before.len() {
                            assert(before[j] == x);
                        }
                    }
                    if before.contains(x) {
                        let j = choose|j: int| 0 <= j < before.len() && before[j] == x;
                        assert(after[j] == x);
                    }
                    if x == id@ {
                        assert(after[before.len() as int] == x);
                    }
                }
                assert(after.to_set() =~= before.to_set().insert(id@));
                assert(after.no_duplicates()) by {
                    assert forall|a: int, b: int|
                        0 <= a < after.len() && 0 <= b < after.len() && a != b implies after[a] != after[b] by {
                        if a == before.len() {
                            assert(before.contains(after[b]));
                        } else if b == before.len() {
                            assert(before.contains(after[a]));
                        }
                    }
                }
            },
        }
        self.ids = ids;
    }

    /// Settles the request `id`: whether it was pending; it no longer is.
    pub fn take(&mut self, id: &str) -> (r: bool)
        ensures
            r == old(self)@.contains(id@),
            final(self)@ == old(self)@.remove(id@),
    {
        proof {
            use_type_invariant(&*self);
        }
        let mut ids: Vec<String> = Vec::new();
        std::mem::swap(&mut ids, &mut self.ids);
        let ghost before = texts_of(ids@);
        let r = match Self::position(&ids, id) {
            None => {
                assert(before.to_set().remove(id@) =~= before.to_set());
                false
            },
            Some(i) => {
                ids.remove(i);
                let ghost after = texts_of(ids@);
                assert(after =~= before.remove(i as int));
                assert(before[i as int] == id@);
                assert forall|x: Seq<char>| #[trigger] after.contains(x) <==> (before.contains(x) && x != id@) by {
                    if after.contains(x) {
                        let j = choose|j: int| 0 <= j < after.len() && after[j] == x;
                        if j < i {
                            assert(before[j] == x);
                        } else {
                            assert(before[j + 1] == x);
                        }
                    }
                    if before.contains(x) && x != id@ {
                        let j = choose|j: int| 0 <= j < before.len() && before[j] == x;
                        if j < i {
                            assert(after[j] == x);
                        } else {
                            assert(after[j - 1] == x);
                        }
                    }
                }
                assert(after.to_set() =~= before.to_set().remove(id@));
                assert(after.no_duplicates()) by {
                    assert forall|a: int, b: int|
                        0 <= a < after.len() && 0 <= b < after.len() && a != b implies after[a] != after[b] by {
                        let a2 = if a < i { a } else { a + 1 };
                        let b2 = if b < i { b } else { b + 1 };
                        assert(after[a] == before[a2] && after[b] == before[b2]);
                    }
                }
                true
            },
        };
        self.ids = ids;
        r
    }

    /// The reply with the request it answers settled, where that request is
    /// pending; nothing where it is not (a repeated or unasked reply).
    pub fn settle(&mut self, reply: RpcReply) -> (r: Option<RpcReply>)
        ensures
            final(self)@ == old(self)@.remove(reply.id@),
            old(self)@.contains(reply.id@) ==> r == Some(reply),
            !old(self)@.contains(reply.id@) ==> r is None,
    {
        if self.take(reply.id.as_str()) {
            Some(reply)
        } else {
            None
        }
    }
}

/// The reply that a decrypted response makes: one with a string `id` (equal
/// to `expected_id` where one is expected), failed where it carries a
/// non-empty string `error`.
pub open spec fn rpc_reply_of(resp: RpcResponseView, expected_id: Option<Seq<char>>) -> Option<
    (Seq<char>, Result<Seq<char>, Seq<char>>),
> {
    match resp.id {
        None => None,
        Some(id) => if expected_id is Some && expected_id != Some(id) {
            None
        } else {
            match resp.error {
                Some(e) if e.len() > 0 => Some((id, Err(e))),
                _ => Some((id, Ok(resp.result))),
            }
        },
    }
}

/// A response that carries a non-empty string error is a refusal of the
/// request it names, whether or not that request's ID was expected by name.
pub proof fn law_refusal_is_failed_reply(resp: RpcResponseView, expected_id: Option<Seq<char>>)
    requires
        resp.id is Some,
        resp.error is Some,
        resp.error->0.len() > 0,
        expected_id is None || expected_id == resp.id,
    ensures
        rpc_reply_of(resp, expected_id) == Some((resp.id->0, Err::<Seq<char>, Seq<char>>(resp.error->0))),
{
}

/// An expected request ID only filters: naming the response's own ID gives the
/// reply that naming none gives, and naming another gives none.
pub proof fn law_expected_id_only_filters(resp: RpcResponseView, other: Seq<char>)
    requires
        resp.id is Some,
        other != resp.id->0,
    ensures
        rpc_reply_of(resp, resp.id) == rpc_reply_of(resp, None),
        rpc_reply_of(resp, Some(other)) is None,
{
}

/// The value of an optional reply.
pub open spec fn reply_view(r: Option<RpcReply>) -> Option<(Seq<char>, Result<Seq<char>, Seq<char>>)> {
    match r {
        None => None,
        Some(x) => Some(
            (
                x.id@,
                match x.outcome {
                    Ok(t) => Ok(t@),
                    Err(e) => Err(e@),
                },
            ),
        ),
    }
}

/// The reply that a decrypted response makes.
pub fn rpc_reply(resp: &RpcResponse, expected_id: Option<&str>) -> (r: Option<RpcReply>)
    ensures
        reply_view(r) == rpc_reply_of(
            resp@,
            match expected_id {
                Some(e) => Some(e@),
                None => None,
            },
        ),
        resp@.id is Some && resp@.error is Some && resp@.error->0.len() > 0 && (expected_id is None
            || expected_id->0@ == resp@.id->0) ==> (r is Some && r->0.id@ == resp@.id->0
            && r->0.outcome is Err && r->0.outcome->Err_0@ == resp@.error->0),
{
    let id = match &resp.id {
        Some(id) => id,
        None => return None,
    };
    match expected_id {
        Some(e) => {
            if !text_is(id.as_str(), e) {
                return None;
            }
        },
        None => {},
    }
    let failed = match &resp.error {
        Some(e) => e.unicode_len() > 0,
        None => false,
    };
    if failed {
        let e = match &resp.error {
            Some(e) => text(e.as_str()),
            None => String::new(),
        };
        Some(RpcReply { id: text(id.as_str()), outcome: Err(e) })
    } else {
        Some(RpcReply { id: text(id.as_str()), outcome: Ok(text(resp.result.as_str())) })
    }
}

/// The tags of a NIP-46 request event: one `p` tag naming the remote signer's
/// key as lower-case hex.
pub open spec fn request_tags(remote: Seq<u8>) -> Seq<Seq<Seq<char>>> {
    seq![seq!["p"@, hex_lower(remote)]]
}

/// Whether `json` is a NIP-46 request event carrying `request` from the client
/// key `client_secret` to the remote signer `remote`: a kind-24133 event by the
/// client key, tagged `p` with the remote key, whose content decrypts under
/// the two keys' NIP-44 conversation key to the request, whose id is the id
/// of its fields and whose signature verifies.
pub open spec fn carries_request(
    client_secret: Seq<u8>,
    remote: Seq<u8>,
    request: Seq<char>,
    json: Seq<char>,
) -> bool {
    &&& event_fields(json) matches Some(e)
    &&& e.kind == nip46_kind()
    &&& e.author == xonly_public_key(client_secret)
    &&& e.tags == request_tags(remote)
    &&& nip44_plaintext(client_secret, remote, e.content) == Some(request)
    &&& e.id == event_id_of(e.author, e.created_at, e.kind, e.tags, e.content)
    &&& event_verifies(json)
}

/// Whether NIP-44 encrypts a request for `remote`: the remote key is a curve
/// point and the request is 1 to 65408 bytes of UTF-8.
pub open spec fn encryptable_for(remote: Seq<u8>, request: Seq<char>) -> bool {
    is_xonly_point(remote) && 1 <= vstd::utf8::encode_utf8(request).len() <= 65408
}

/// Whether `message` is a relay `EVENT` message for a request event carrying
/// `request` from the client key to the remote signer.
pub open spec fn sends_request(
    client_secret: Seq<u8>,
    remote: Seq<u8>,
    request: Seq<char>,
    message: Seq<char>,
) -> bool {
    exists|e: Seq<char>|
        #![trigger event_message_text(e)]
        message == event_message_text(e) && carries_request(client_secret, remote, request, e)
}

/// A non-empty text has a non-empty UTF-8 encoding.
proof fn lemma_encode_utf8_nonempty(s: Seq<char>)
    requires
        s.len() > 0,
    ensures
        vstd::utf8::encode_utf8(s).len() >= 1,
{
    assert(vstd::utf8::encode_utf8(s) == vstd::utf8::encode_scalar(s[0] as u32)
        + vstd::utf8::encode_utf8(s.drop_first()));
}

/// The NIP-46 request event for a request: the request encrypted with NIP-44
/// for the remote signer, in a kind-24133 event tagged `p` with the remote
/// key and signed by the client key, as JSON. Failures are reported with
/// `BunkerConnectionFailed` during the connect handshake (`connecting`) and
/// with `SigningFailed` afterwards.
fn request_event(
    client_secret: &SecretKey,
    remote: &PublicKey,
    request_json: &str,
    connecting: bool,
) -> (r: Result<String, NostrAuthError>)
    ensures
        r is Ok <==> encryptable_for(remote@, request_json@),
        r matches Ok(j) ==> carries_request(client_secret@, remote@, request_json@, j@),
        r matches Err(e) ==> if connecting {
            e is BunkerConnectionFailed
        } else {
            e is SigningFailed
        },
{
    let encrypted = match nip44_encrypt(client_secret, remote, request_json) {
        Ok(c) => c,
        Err(e) => {
            let m = nip44_error_text(&e);
            return Err(
                if connecting {
                    NostrAuthError::BunkerConnectionFailed(m)
                } else {
                    NostrAuthError::SigningFailed(m)
                },
            );
        },
    };
    let mut p_tag: Vec<String> = Vec::new();
    p_tag.push(text("p"));
    p_tag.push(remote.to_hex());
    let mut tags: Vec<Vec<String>> = Vec::new();
    tags.push(p_tag);
    proof {
        reveal_strlit("p");
        assert(tags.deep_view() =~~= request_tags(remote@));
    }
    match sign_new_event(client_secret, 24133, &tags, encrypted.as_str()) {
        Ok(event_json) => Ok(event_json),
        Err(e) => {
            let m = event_error_text(&e);
            Err(
                if connecting {
                    NostrAuthError::BunkerConnectionFailed(m)
                } else {
                    NostrAuthError::SigningFailed(m)
                },
            )
        },
    }
}

/// The reply in a relay message to a request of the client key `client_secret`
/// from the remote signer `remote`, as far as it concerns `expected_id` where
/// one is given.
pub open spec fn incoming_reply_of(
    client_secret: Seq<u8>,
    remote: Seq<u8>,
    remote_hex: Seq<char>,
    data: Seq<char>,
    missing_author_as_empty: bool,
    expected_id: Option<Seq<char>>,
) -> Option<(Seq<char>, Result<Seq<char>, Seq<char>>)> {
    match relay_message_fields(data) {
        None => None,
        Some(m) => match incoming_ciphertext_of(m, remote_hex, missing_author_as_empty) {
            None => None,
            Some(c) => match nip44_plaintext(client_secret, remote, c) {
                None => None,
                Some(p) => match rpc_response_fields(p) {
                    None => None,
                    Some(resp) => rpc_reply_of(resp, expected_id),
                },
            },
        },
    }
}

fn incoming_reply(
    client_secret: &SecretKey,
    remote: &PublicKey,
    remote_hex: &str,
    data: &str,
    missing_author_as_empty: bool,
    expected_id: Option<&str>,
) -> (r: Option<RpcReply>)
    ensures
        reply_view(r) == incoming_reply_of(
            client_secret@,
            remote@,
            remote_hex@,
            data@,
            missing_author_as_empty,
            match expected_id {
                Some(e) => Some(e@),
                None => None,
            },
        ),
{
    let msg = match read_relay_message(data) {
        Some(m) => m,
        None => return None,
    };
    let ciphertext = match incoming_ciphertext(&msg, remote_hex, missing_author_as_empty) {
        Some(c) => c,
        None => return None,
    };
    let plaintext = match nip44_decrypt(client_secret, remote, ciphertext.as_str()) {
        Ok(p) => p,
        Err(_) => return None,
    };
    let resp = match read_rpc_response(plaintext.as_str()) {
        Some(r) => r,
        None => return None,
    };
    rpc_reply(&resp, expected_id)
}


// ─────────────────────────────────────────────
//  NIP-46 sessions
// ─────────────────────────────────────────────

/// A connect handshake under way: the client key generated for it, the
/// request event to send, and what the session will need once the remote
/// signer answers.
pub struct ConnectPlan {
    bunker_uri: String,
    timeout_secs: u32,
    client_secret: SecretKey,
    client_pubkey_hex: String,
    remote_pubkey: PublicKey,
    remote_pubkey_hex: String,
    relay_url: String,
    request_id: String,
    event_json: String,
}

/// The value of a [`ConnectPlan`].
pub struct ConnectPlanView {
    pub bunker_uri: Seq<char>,
    pub timeout_secs: u32,
    pub client_secret: Seq<u8>,
    pub client_pubkey_hex: Seq<char>,
    pub remote_pubkey: Seq<u8>,
    pub remote_pubkey_hex: Seq<char>,
    pub relay_url: Seq<char>,
    pub request_id: Seq<char>,
    pub event_json: Seq<char>,
}

impl ConnectPlanView {
    /// The session that the handshake establishes once the remote signer has
    /// named the user's key.
    pub open spec fn session_with(self, user_key: Seq<u8>) -> BunkerView {
        BunkerView {
            public_key: user_key,
            bunker_uri: self.bunker_uri,
            timeout_secs: self.timeout_secs,
            client_secret: self.client_secret,
            remote_pubkey: self.remote_pubkey,
            relay_url: self.relay_url,
        }
    }
}

impl View for ConnectPlan {
    type V = ConnectPlanView;

    closed spec fn view(&self) -> ConnectPlanView {
        ConnectPlanView {
            bunker_uri: self.bunker_uri@,
            timeout_secs: self.timeout_secs,
            client_secret: self.client_secret@,
            client_pubkey_hex: self.client_pubkey_hex@,
            remote_pubkey: self.remote_pubkey@,
            remote_pubkey_hex: self.remote_pubkey_hex@,
            relay_url: self.relay_url@,
            request_id: self.request_id@,
            event_json: self.event_json@,
        }
    }
}

/// An established NIP-46 remote signing session.
#[derive(Clone)]
pub struct BunkerSession {
    /// The authenticated user's public key.
    pub public_key: PublicKey,
    /// The URI the session was established from, kept for session restore.
    pub bunker_uri: String,
    timeout_secs: u32,
    client_secret: SecretKey,
    remote_pubkey: PublicKey,
    relay_url: String,
}

/// The value of a [`BunkerSession`].
pub struct BunkerView {
    pub public_key: Seq<u8>,
    pub bunker_uri: Seq<char>,
    pub timeout_secs: u32,
    pub client_secret: Seq<u8>,
    pub remote_pubkey: Seq<u8>,
    pub relay_url: Seq<char>,
}

impl View for BunkerSession {
    type V = BunkerView;

    closed spec fn view(&self) -> BunkerView {
        BunkerView {
            public_key: self.public_key@,
            bunker_uri: self.bunker_uri@,
            timeout_secs: self.timeout_secs,
            client_secret: self.client_secret@,
            remote_pubkey: self.remote_pubkey@,
            relay_url: self.relay_url@,
        }
    }
}

impl ConnectPlan {
    #[verifier::type_invariant]
    closed spec fn client_key_matches(self) -> bool {
        self.client_pubkey_hex@ == hex_lower(xonly_public_key(self.client_secret@))
    }

    /// The relay to open the handshake connection to.
    pub fn relay_url(&self) -> (r: &String)
        ensures
            r@ == self@.relay_url,
    {
        &self.relay_url
    }

    /// The ID of the connect request.
    pub fn request_id(&self) -> (r: &String)
        ensures
            r@ == self@.request_id,
    {
        &self.request_id
    }

    /// The signed connect request event, as JSON.
    pub fn event_json(&self) -> (r: &String)
        ensures
            r@ == self@.event_json,
    {
        &self.event_json
    }

    /// The client key, as lower-case hex: the key of the plan's client secret.
    pub fn client_pubkey_hex(&self) -> (r: &String)
        ensures
            r@ == self@.client_pubkey_hex,
            r@ == hex_lower(xonly_public_key(self@.client_secret)),
    {
        proof {
            use_type_invariant(self);
        }
        &self.client_pubkey_hex
    }

    /// How long to wait for the remote signer, in seconds.
    pub fn timeout_secs(&self) -> (r: u32)
        ensures
            r == self@.timeout_secs,
    {
        self.timeout_secs
    }

    /// The signed `get_public_key` request event, as JSON, under a new request ID.
    pub fn public_key_request(&self, request_id: &str) -> (r: Result<String, NostrAuthError>)
        ensures
            r is Ok <==> encryptable_for(
                self@.remote_pubkey,
                rpc_request_text(request_id@, "get_public_key"@, Seq::empty()),
            ),
            r matches Ok(j) ==> carries_request(
                self@.client_secret,
                self@.remote_pubkey,
                rpc_request_text(request_id@, "get_public_key"@, Seq::empty()),
                j@,
            ),
            r matches Err(e) ==> e is BunkerConnectionFailed,
    {
        let request = get_public_key_request(request_id);
        request_event(&self.client_secret, &self.remote_pubkey, request.as_str(), true)
    }

    /// The reply to the one-shot request `request_id` that a relay message
    /// carries, if it carries one: an event from the remote signer's key as
    /// written in the URI, addressed to the client key.
    pub fn reply_to(&self, data: &str, request_id: &str) -> (r: Option<RpcReply>)
        ensures
            reply_view(r) == incoming_reply_of(
                self@.client_secret,
                self@.remote_pubkey,
                self@.remote_pubkey_hex,
                data@,
                true,
                Some(request_id@),
            ),
    {
        incoming_reply(
            &self.client_secret,
            &self.remote_pubkey,
            self.remote_pubkey_hex.as_str(),
            data,
            true,
            Some(request_id),
        )
    }

    /// The session once the remote signer has named the user's public key.
    pub fn establish(self, user_public_key: PublicKey) -> (s: BunkerSession)
        ensures
            s@ == self@.session_with(user_public_key@),
    {
        BunkerSession {
            public_key: user_public_key,
            bunker_uri: self.bunker_uri,
            timeout_secs: self.timeout_secs,
            client_secret: self.client_secret,
            remote_pubkey: self.remote_pubkey,
            relay_url: self.relay_url,
        }
    }

    /// Where the handshake stands after the reply to the `connect` request (its
    /// `result` as JSON text): established where the remote signer named the
    /// user's key, still to ask for it where the signer only acknowledged.
    pub fn after_connect_reply(self, result: &str) -> (r: Result<ConnectStep, NostrAuthError>)
        ensures
            !json_parses(result@) ==> r matches Err(NostrAuthError::BunkerConnectionFailed(_)),
            json_parses(result@) ==> {
                let k = connect_reply_key_text(result@);
                if k == "ack"@ || k.len() == 0 {
                    r matches Ok(ConnectStep::AskPublicKey(p)) && p@ == self@
                } else if is_key_hex(k) {
                    r matches Ok(ConnectStep::Established(s)) && s@ == self@.session_with(
                        decode_key_hex(k),
                    )
                } else {
                    r matches Err(NostrAuthError::InvalidPublicKey(_))
                }
            },
    {
        match handshake_step(result)? {
            HandshakeStep::Connected(pk) => Ok(ConnectStep::Established(self.establish(pk))),
            HandshakeStep::NeedPublicKey => Ok(ConnectStep::AskPublicKey(self)),
        }
    }

    /// The session after the reply to the `get_public_key` request (its
    /// `result` as JSON text).
    pub fn after_public_key_reply(self, result: &str) -> (r: Result<BunkerSession, NostrAuthError>)
        ensures
            !json_parses(result@) ==> r matches Err(NostrAuthError::BunkerConnectionFailed(_)),
            json_parses(result@) ==> match json_string_value(result@) {
                None => fails_with(r, AuthFailure::BunkerConnectionFailed("no pubkey in response"@)),
                Some(k) => if is_key_hex(k) {
                    r matches Ok(s) && s@ == self@.session_with(decode_key_hex(k))
                } else {
                    r matches Err(NostrAuthError::InvalidPublicKey(_))
                },
            },
    {
        let pk = public_key_reply(result)?;
        Ok(self.establish(pk))
    }
}

/// Where the connect handshake stands after the remote signer's first reply.
pub enum ConnectStep {
    /// The remote signer named the user's key: the session is established.
    Established(BunkerSession),
    /// The remote signer only acknowledged: ask it for the user's key.
    AskPublicKey(ConnectPlan),
}

impl BunkerSession {
    /// The public key of a session is 32 bytes long.
    pub proof fn lemma_key_len(self)
        ensures
            self@.public_key.len() == 32,
    {
        self.public_key.lemma_len();
    }

    /// Starts a NIP-46 connection from a parsed `bunker://` or `nostrconnect://`
    /// URI: checks the remote signer's key, generates an ephemeral client key,
    /// and builds the signed `connect` request event under `request_id`. The
    /// session keeps the URI text that `uri` was parsed from.
    pub fn prepare_connect(uri: &BunkerUri, timeout_secs: u32, request_id: &str) -> (r: Result<
        ConnectPlan,
        NostrAuthError,
    >)
        ensures
            !is_key_hex(uri@.remote_pubkey_hex) ==> r matches Err(NostrAuthError::InvalidPublicKey(_)),
            is_key_hex(uri@.remote_pubkey_hex) ==> (r is Ok || r matches Err(
                NostrAuthError::BunkerConnectionFailed(_),
            )),
            is_key_hex(uri@.remote_pubkey_hex) && r is Err ==> !is_xonly_point(
                decode_key_hex(uri@.remote_pubkey_hex),
            ) || exists|c: Seq<u8>|
                #![trigger xonly_public_key(c)]
                vstd::utf8::encode_utf8(
                    connect_request_of(request_id@, hex_lower(xonly_public_key(c)), uri@.secret),
                ).len() > 65408,
            r matches Ok(p) ==> carries_request(
                p@.client_secret,
                p@.remote_pubkey,
                connect_request_of(request_id@, p@.client_pubkey_hex, uri@.secret),
                p@.event_json,
            ),
            r matches Ok(p) ==> p@.bunker_uri == uri@.uri && p@.timeout_secs == timeout_secs
                && p@.remote_pubkey == decode_key_hex(uri@.remote_pubkey_hex)
                && p@.remote_pubkey_hex == uri@.remote_pubkey_hex && p@.relay_url == uri@.relay_url
                && p@.request_id == request_id@ && p@.client_pubkey_hex == hex_lower(
                xonly_public_key(p@.client_secret),
            ),
    {
        let remote_pubkey = match public_key_from_hex(uri.remote_pubkey_hex().as_str()) {
            Ok(pk) => pk,
            Err(e) => return Err(NostrAuthError::InvalidPublicKey(key_error_text(&e))),
        };
        let client_secret = generate_secret_key();
        let client_pubkey_hex = derive_public_key(&client_secret).to_hex();
        let secret = match uri.secret() {
            Some(s) => Some(s.as_str()),
            None => None,
        };
        let request = connect_request(request_id, client_pubkey_hex.as_str(), secret);
        let event_json = match request_event(&client_secret, &remote_pubkey, request.as_str(), true) {
            Ok(j) => j,
            Err(e) => {
                proof {
                    reveal_strlit("{\"id\":");
                    lemma_encode_utf8_nonempty(request@);
                    let c = client_secret@;
                    assert(xonly_public_key(c) == xonly_public_key(client_secret@));
                }
                return Err(e);
            },
        };
        Ok(
            ConnectPlan {
                bunker_uri: text(uri.uri().as_str()),
                timeout_secs,
                client_secret,
                client_pubkey_hex,
                remote_pubkey,
                remote_pubkey_hex: text(uri.remote_pubkey_hex().as_str()),
                relay_url: text(uri.relay_url().as_str()),
                request_id: text(request_id),
                event_json,
            },
        )
    }

    /// The authenticated user's public key.
    pub fn public_key(&self) -> (pk: PublicKey)
        ensures
            pk@ == self@.public_key,
    {
        self.public_key
    }

    /// The URI the session was established from.
    pub fn bunker_uri(&self) -> (r: &String)
        ensures
            r@ == self@.bunker_uri,
    {
        &self.bunker_uri
    }

    /// The relay the remote signer is reached through.
    pub fn relay_url(&self) -> (r: &String)
        ensures
            r@ == self@.relay_url,
    {
        &self.relay_url
    }

    /// How long to wait for the remote signer, in seconds.
    pub fn timeout_secs(&self) -> (r: u32)
        ensures
            r == self@.timeout_secs,
    {
        self.timeout_secs
    }

    /// The client key, as lower-case hex.
    pub fn client_pubkey_hex(&self) -> (r: String)
        ensures
            r@ == hex_lower(xonly_public_key(self@.client_secret)),
    {
        derive_public_key(&self.client_secret).to_hex()
    }

    /// The relay `EVENT` message that carries a request to the remote signer:
    /// the request encrypted for it in a kind-24133 event signed by the client key.
    pub fn request_message(&self, request_json: &str) -> (r: Result<String, NostrAuthError>)
        ensures
            r is Ok <==> encryptable_for(self@.remote_pubkey, request_json@),
            r matches Ok(m) ==> sends_request(self@.client_secret, self@.remote_pubkey, request_json@, m@),
            r matches Err(e) ==> e is SigningFailed,
    {
        let event_json = request_event(&self.client_secret, &self.remote_pubkey, request_json, false)?;
        Ok(event_message(event_json.as_str()))
    }

    /// The reply to a pending request that a relay message on the persistent
    /// connection carries, if it carries one.
    pub fn reply_to(&self, data: &str) -> (r: Option<RpcReply>)
        ensures
            reply_view(r) == incoming_reply_of(
                self@.client_secret,
                self@.remote_pubkey,
                hex_lower(self@.remote_pubkey),
                data@,
                false,
                None,
            ),
    {
        let remote_hex = self.remote_pubkey.to_hex();
        incoming_reply(
            &self.client_secret,
            &self.remote_pubkey,
            remote_hex.as_str(),
            data,
            false,
            None,
        )
    }
}

} // verus!
