//! Who may call the service: the client registered under the request's key,
//! the addresses it may call from, and for public access a token of the
//! form `path~timestamp` that the client encrypted.
use crate::base::BaseResponse;
use crate::text::same_text;
use vstd::prelude::*;
use vstd::string::*;

verus! {

#[derive(Clone, Copy, Debug, PartialEq, Eq, Structural)]
pub enum Access {
    Private,
    Public,
}

#[derive(Clone, Copy, Debug, PartialEq, Eq, Structural)]
pub struct ClientSecurity {
    pub access: Access,
    pub timestamp: bool,
}

/// A registered client; an empty key means no client is registered.
#[derive(Clone, Debug)]
pub struct Client {
    pub key: String,
    pub ip: Vec<String>,
    pub security: ClientSecurity,
}

/// The outcome of authenticating one request.
#[derive(Clone, Copy, Debug, PartialEq, Eq, Structural)]
pub enum Verdict {
    Authenticated,
    TokenExpired,
    InvalidPath,
    InvalidToken,
    UnauthorizedIp,
    AccessDenied,
    UnknownKey,
}

/// The instant, in UTC milliseconds, of an RFC 3339 date-time text, if it is one.
pub uninterp spec fn rfc3339_millis_of(s: Seq<char>) -> Option<i64>;

/// Relies on chrono's `DateTime::parse_from_rfc3339` and `DateTime::timestamp_millis`:
/// the instant that an RFC 3339 text denotes, or `None` when it is not one.
#[verifier::external_body]
pub fn rfc3339_millis(text: &str) -> (r: Option<i64>)
    ensures
        r == rfc3339_millis_of(text@),
{
    match chrono::DateTime::parse_from_rfc3339(text) {
        Ok(t) => Some(t.timestamp_millis()),
        Err(_) => None,
    }
}

pub open spec fn ip_texts(client: &Client) -> Seq<Seq<char>> {
    client.ip@.map_values(|s: String| s@)
}

/// The client may call from `ip`: it is listed, or any address (`*`) is.
pub open spec fn ip_allowed(ips: Seq<Seq<char>>, ip: Seq<char>) -> bool {
    ips.contains(ip) || ips.contains("*"@)
}

/// A token dated six seconds or more after now is refused; an older one is accepted.
pub open spec fn token_fresh(sent: int, now: int) -> bool {
    sent - now < 6000
}

/// The text split at every occurrence of `c`; always at least one piece.
pub open spec fn split_on(s: Seq<char>, c: char) -> Seq<Seq<char>>
    decreases s.len(),
{
    if s.len() == 0 {
        seq![Seq::<char>::empty()]
    } else {
        let before = split_on(s.drop_last(), c);
        if s.last() == c {
            before.push(Seq::<char>::empty())
        } else {
            before.update(before.len() - 1, before.last().push(s.last()))
        }
    }
}

/// RSA key sizes that may be requested.
pub open spec fn key_size_allowed(size: u16) -> bool {
    size == 1024 || size == 2048 || size == 4096
}

/// Whether an RSA key of `size` bits may be generated.
pub fn rsa_key_size_allowed(size: u16) -> (r: bool)
    ensures
        r == key_size_allowed(size),
{
    size == 1024 || size == 2048 || size == 4096
}

/// The verdict on a request, given the token's pieces and the instant read from its second piece.
pub open spec fn verdict_of(
    access: Access,
    client_key: Seq<char>,
    security: ClientSecurity,
    ips: Seq<Seq<char>>,
    ip: Seq<char>,
    path: Seq<char>,
    tokens: Seq<Seq<char>>,
    sent: int,
    now: int,
) -> Verdict {
    if client_key.len() == 0 {
        Verdict::UnknownKey
    } else if access == Access::Public && security.access == Access::Public {
        if !ip_allowed(ips, ip) {
            Verdict::UnauthorizedIp
        } else if tokens.len() != 2 {
            Verdict::InvalidToken
        } else if tokens[0] != path {
            Verdict::InvalidPath
        } else if security.timestamp && !token_fresh(sent, now) {
            Verdict::TokenExpired
        } else {
            Verdict::Authenticated
        }
    } else if security.access == Access::Private {
        if ip_allowed(ips, ip) {
            Verdict::Authenticated
        } else {
            Verdict::UnauthorizedIp
        }
    } else {
        Verdict::AccessDenied
    }
}

/// The instant read from a token's timestamp piece: an unreadable one counts as the Unix epoch.
pub open spec fn sent_of(tokens: Seq<Seq<char>>) -> int {
    match rfc3339_millis_of(tokens[1]) {
        Some(v) => v as int,
        None => 0,
    }
}

/// Splits a decrypted token at each `~`.
pub fn split_token(text: &str) -> (r: Vec<String>)
    ensures
        r@.map_values(|s: String| s@) == split_on(text@, '~'),
{
    let n = text.unicode_len();
    let mut out: Vec<String> = Vec::new();
    let mut start: usize = 0;
    let mut i: usize = 0;
    assert(text@.subrange(0, 0) =~= Seq::<char>::empty());
    assert(out@.map_values(|s: String| s@).push(text@.subrange(0, 0)) =~= seq![Seq::<char>::empty()]);
    while i < n
        invariant
            n == text@.len(),
            start <= i <= n,
            split_on(text@.subrange(0, i as int), '~') == out@.map_values(|s: String| s@).push(
                text@.subrange(start as int, i as int),
            ),
        decreases n - i,
    {
        let ghost prefix = text@.subrange(0, i as int + 1);
        assert(prefix.drop_last() =~= text@.subrange(0, i as int));
        assert(prefix.last() == text@[i as int]);
        let ghost before = out@.map_values(|s: String| s@);
        if text.get_char(i) == '~' {
            let piece = String::from_str(text.substring_char(start, i));
            out.push(piece);
            assert(out@.map_values(|s: String| s@) =~= before.push(text@.subrange(start as int, i as int)));
            start = i + 1;
            assert(text@.subrange(start as int, i as int + 1) =~= Seq::<char>::empty());
        } else {
            assert(text@.subrange(start as int, i as int + 1) =~= text@.subrange(start as int, i as int).push(
                text@[i as int],
            ));
            assert(before.push(text@.subrange(start as int, i as int)).update(
                before.len() as int,
                text@.subrange(start as int, i as int + 1),
            ) =~= before.push(text@.subrange(start as int, i as int + 1)));
        }
        i = i + 1;
    }
    let piece = String::from_str(text.substring_char(start, n));
    let ghost before = out@.map_values(|s: String| s@);
    out.push(piece);
    assert(out@.map_values(|s: String| s@) =~= before.push(text@.subrange(start as int, n as int)));
    assert(text@.subrange(0, n as int) =~= text@);
    out
}

/// Whether `ip` may call on behalf of the client.
pub fn authenticate_ip(client: &Client, ip: &str) -> (r: bool)
    ensures
        r == ip_allowed(ip_texts(client), ip@),
{
    let mut listed = false;
    let mut any = false;
    let mut i: usize = 0;
    proof {
        reveal_strlit("*");
    }
    while i < client.ip.len()
        invariant
            i <= client.ip@.len(),
            listed == (exists|k: int| 0 <= k < i && client.ip@[k]@ == ip@),
            any == (exists|k: int| 0 <= k < i && client.ip@[k]@ == "*"@),
        decreases client.ip@.len() - i,
    {
        if same_text(client.ip[i].as_str(), ip) {
            listed = true;
        }
        if same_text(client.ip[i].as_str(), "*") {
            any = true;
        }
        i = i + 1;
    }
    let ghost ips = ip_texts(client);
    assert(listed == ips.contains(ip@)) by {
        if listed {
            let k = choose|k: int| 0 <= k < i && client.ip@[k]@ == ip@;
            assert(ips[k] == ip@);
        }
        if ips.contains(ip@) {
            let k = choose|k: int| 0 <= k < ips.len() && ips[k] == ip@;
            assert(client.ip@[k]@ == ip@);
        }
    }
    assert(any == ips.contains("*"@)) by {
        if any {
            let k = choose|k: int| 0 <= k < i && client.ip@[k]@ == "*"@;
            assert(ips[k] == "*"@);
        }
        if ips.contains("*"@) {
            let k = choose|k: int| 0 <= k < ips.len() && ips[k] == "*"@;
            assert(client.ip@[k]@ == "*"@);
        }
    }
    listed || any
}

/// The verdict on a request, with the token's timestamp already read as `sent`.
pub fn verdict(
    access: Access,
    client: &Client,
    ip: &str,
    path: &str,
    tokens: &Vec<String>,
    sent: i64,
    now: i64,
) -> (r: Verdict)
    ensures
        r == verdict_of(
            access,
            client.key@,
            client.security,
            ip_texts(client),
            ip@,
            path@,
            tokens@.map_values(|s: String| s@),
            sent as int,
            now as int,
        ),
{
    let ghost texts = tokens@.map_values(|s: String| s@);
    if client.key.as_str().unicode_len() == 0 {
        Verdict::UnknownKey
    } else if access == Access::Public && client.security.access == Access::Public {
        if !authenticate_ip(client, ip) {
            Verdict::UnauthorizedIp
        } else if tokens.len() != 2 {
            Verdict::InvalidToken
        } else if !same_text(tokens[0].as_str(), path) {
            assert(texts[0] == tokens@[0]@);
            Verdict::InvalidPath
        } else if client.security.timestamp && (sent as i128) - (now as i128) >= 6000 {
            assert(texts[0] == tokens@[0]@);
            Verdict::TokenExpired
        } else {
            assert(texts[0] == tokens@[0]@);
            Verdict::Authenticated
        }
    } else if client.security.access == Access::Private {
        if authenticate_ip(client, ip) {
            Verdict::Authenticated
        } else {
            Verdict::UnauthorizedIp
        }
    } else {
        Verdict::AccessDenied
    }
}

/// Authenticates a request from its key, address and path, the client
/// registered under the key, and the client's decrypted token, at `now`.
pub fn authenticate(
    access: Access,
    client: &Client,
    key: &str,
    ip: &str,
    path: &str,
    token: &str,
    now: i64,
) -> (r: BaseResponse)
    ensures
        ({
            let tokens = split_on(token@, '~');
            let v = verdict_of(
                access,
                client.key@,
                client.security,
                ip_texts(client),
                ip@,
                path@,
                tokens,
                if tokens.len() == 2 { sent_of(tokens) } else { 0 },
                now as int,
            );
            &&& r.result == (v == Verdict::Authenticated)
            &&& r.response@ == verdict_message(v, ip@, key@)
        }),
{
    let tokens = split_token(token);
    let ghost texts = tokens@.map_values(|s: String| s@);
    let sent: i64 = if tokens.len() == 2 {
        assert(texts[1] == tokens@[1]@);
        match rfc3339_millis(tokens[1].as_str()) {
            Some(v) => v,
            None => 0,
        }
    } else {
        0
    };
    let v = verdict(access, client, ip, path, &tokens, sent, now);
    verdict_response(v, ip, key)
}

/// The message reported for a verdict.
pub open spec fn verdict_message(v: Verdict, ip: Seq<char>, key: Seq<char>) -> Seq<char> {
    match v {
        Verdict::Authenticated => "Request authenticated"@,
        Verdict::TokenExpired => "Token expired"@,
        Verdict::InvalidPath => "Invalid path"@,
        Verdict::InvalidToken => "Invalid token"@,
        Verdict::UnauthorizedIp => "Unauthorized IP address "@ + ip,
        Verdict::AccessDenied => "Access denied"@,
        Verdict::UnknownKey => "Unauthorized PLD key "@ + key,
    }
}

/// The response reported for a verdict.
pub fn verdict_response(v: Verdict, ip: &str, key: &str) -> (r: BaseResponse)
    ensures
        r.result == (v == Verdict::Authenticated),
        r.response@ == verdict_message(v, ip@, key@),
{
    let response = match v {
        Verdict::Authenticated => String::from_str("Request authenticated"),
        Verdict::TokenExpired => String::from_str("Token expired"),
        Verdict::InvalidPath => String::from_str("Invalid path"),
        Verdict::InvalidToken => String::from_str("Invalid token"),
        Verdict::UnauthorizedIp => String::from_str("Unauthorized IP address ").concat(ip),
        Verdict::AccessDenied => String::from_str("Access denied"),
        Verdict::UnknownKey => String::from_str("Unauthorized PLD key ").concat(key),
    };
    BaseResponse { response, result: v == Verdict::Authenticated }
}

} // verus!
