//! Forming the client's endpoints and outbound calls.
//!
//! The address arithmetic — scheme mapping, the fixed `api/` and `event`
//! paths, joining an action onto the base — is verified here over a plain
//! decomposition of an address ([`UrlParts`]); only the parsing of an
//! address string into that decomposition is delegated to the `url` crate.

use vstd::prelude::*;

use crate::error::MilkyError;
use crate::json_print::{spec_digits, write_u64_digits};
use crate::types::communication::{Communication, WebHookConfig, WebSocketConfig};

verus! {

/// A network address, decomposed into the parts the client reads.
#[derive(Clone, Debug)]
pub struct UrlParts {
    /// The scheme, lower case, e.g. `http` or `ws`.
    pub scheme: String,
    /// The host, as the address names it.
    pub host: String,
    /// The port, when one is spelled out or implied by the scheme.
    pub port: Option<u16>,
    /// The path, always starting with `/`.
    pub path: String,
    /// The query, without the leading `?`, when present.
    pub query: Option<String>,
}

/// The decomposition of an address string, if it parses.
pub uninterp spec fn spec_parse_url(s: Seq<char>) -> Option<UrlParts>;

/// Relies on `url::Url::parse` for address parsing, and on the accessors
/// `scheme`, `host_str`, `port_or_known_default`, `path` and `query` to
/// read the parsed address's parts; an address without a host is treated
/// as unparseable.  The decomposition is a function of the input string
/// alone.
#[verifier::external_body]
fn parse_url(s: &str) -> (r: Option<UrlParts>)
    ensures
        r == spec_parse_url(s@),
{
    let u = url::Url::parse(s).ok()?;
    let host = u.host_str()?.to_string();
    Some(
        UrlParts {
            scheme: u.scheme().to_string(),
            host,
            port: u.port_or_known_default(),
            path: u.path().to_string(),
            query: u.query().map(|q| q.to_string()),
        },
    )
}

/// The rendered text of a decomposed address.
pub open spec fn spec_render_url(p: UrlParts) -> Seq<char> {
    p.scheme@ + "://"@ + p.host@ + (match p.port {
        Some(n) => seq![':'] + spec_digits(n as int),
        None => Seq::empty(),
    }) + p.path@ + (match p.query {
        Some(q) => seq!['?'] + q@,
        None => Seq::empty(),
    })
}

/// Renders a decomposed address back to text: exactly `spec_render_url`.
pub fn render_url(p: &UrlParts) -> (r: String)
    ensures
        r@ == spec_render_url(*p),
{
    let mut out = String::new();
    out.append(p.scheme.as_str());
    out.append("://");
    out.append(p.host.as_str());
    if let Some(n) = p.port {
        crate::text::push_char(&mut out, ':');
        write_u64_digits(n as u64, &mut out);
    }
    out.append(p.path.as_str());
    if let Some(q) = &p.query {
        crate::text::push_char(&mut out, '?');
        out.append(q.as_str());
    }
    proof {
        assert(out@ =~= spec_render_url(*p));
    }
    out
}

/// An unreserved address byte: kept verbatim in an encoded query value.
pub open spec fn is_unreserved(b: u8) -> bool {
    (48 <= b && b <= 57) || (65 <= b && b <= 90) || (97 <= b && b <= 122) || b == 45 || b == 46
        || b == 95 || b == 126
}

/// The uppercase hexadecimal digit for a value below sixteen.
pub open spec fn hex_upper(d: int) -> char {
    if d == 0 {
        '0'
    } else if d == 1 {
        '1'
    } else if d == 2 {
        '2'
    } else if d == 3 {
        '3'
    } else if d == 4 {
        '4'
    } else if d == 5 {
        '5'
    } else if d == 6 {
        '6'
    } else if d == 7 {
        '7'
    } else if d == 8 {
        '8'
    } else if d == 9 {
        '9'
    } else if d == 10 {
        'A'
    } else if d == 11 {
        'B'
    } else if d == 12 {
        'C'
    } else if d == 13 {
        'D'
    } else if d == 14 {
        'E'
    } else {
        'F'
    }
}

/// The encoding of one byte: itself when unreserved, else `%XX`.
pub open spec fn pct_byte(b: u8) -> Seq<char> {
    if is_unreserved(b) {
        seq![b as char]
    } else {
        seq!['%', hex_upper(b as int / 16), hex_upper(b as int % 16)]
    }
}

/// The percent-encoding of a byte sequence.
pub open spec fn pct_encoded(bytes: Seq<u8>) -> Seq<char>
    decreases bytes,
{
    if bytes.len() == 0 {
        Seq::empty()
    } else {
        pct_encoded(bytes.drop_last()) + pct_byte(bytes.last())
    }
}

/// The uppercase hexadecimal digit, computed.
fn hex_upper_ch(d: u8) -> (c: char)
    requires
        d < 16,
    ensures
        c == hex_upper(d as int),
{
    match d {
        0 => '0',
        1 => '1',
        2 => '2',
        3 => '3',
        4 => '4',
        5 => '5',
        6 => '6',
        7 => '7',
        8 => '8',
        9 => '9',
        10 => 'A',
        11 => 'B',
        12 => 'C',
        13 => 'D',
        14 => 'E',
        _ => 'F',
    }
}

/// Appends the percent-encoding of `bytes`: exactly `pct_encoded`.
#[verifier::loop_isolation(false)]
fn pct_encode_into(bytes: &Vec<u8>, out: &mut String)
    ensures
        final(out)@ == old(out)@ + pct_encoded(bytes@),
{
    let n = bytes.len();
    let mut i: usize = 0;
    proof {
        assert(old(out)@ + pct_encoded(bytes@.take(0)) =~= old(out)@);
    }
    while i < n
        invariant
            n == bytes@.len(),
            i <= n,
            out@ == old(out)@ + pct_encoded(bytes@.take(i as int)),
        decreases n - i,
    {
        let ghost prefix = out@;
        let b = bytes[i];
        let unreserved = (48 <= b && b <= 57) || (65 <= b && b <= 90) || (97 <= b && b <= 122)
            || b == 45 || b == 46 || b == 95 || b == 126;
        if unreserved {
            crate::text::push_char(out, b as char);
        } else {
            crate::text::push_char(out, '%');
            crate::text::push_char(out, hex_upper_ch(b / 16));
            crate::text::push_char(out, hex_upper_ch(b % 16));
        }
        proof {
            assert(out@ =~= prefix + pct_byte(b));
            assert(bytes@.take(i + 1).drop_last() =~= bytes@.take(i as int));
            assert(bytes@.take(i + 1).last() == b);
            assert(out@ =~= old(out)@ + pct_encoded(bytes@.take(i + 1)));
        }
        i += 1;
    }
    proof {
        assert(bytes@.take(n as int) =~= bytes@);
    }
}

/// The endpoints a client works against, fixed at construction.
#[derive(Clone, Debug)]
pub struct Endpoints {
    /// Where calls are POSTed: the configured address with the `api/` path.
    pub api_base: UrlParts,
    /// Where events stream from, for the streaming strategy.
    pub event_ws: Option<UrlParts>,
    /// Where the listening strategy binds, as `host` and `port`.
    pub listen: Option<(String, i32)>,
    /// The credential attached to calls and to the event connection.
    pub access_token: Option<String>,
}

/// What the streaming strategy's endpoint computation must return, as a
/// function of `spec_parse_url` on the configured address: an unparseable
/// address is refused, a scheme other than `ws`/`wss` is refused naming
/// that scheme, and otherwise the result is exactly the re-schemed
/// `/api/` call base, the `/event` address and the retained credential.
pub open spec fn ws_endpoints_ok(cfg: WebSocketConfig, r: Result<Endpoints, MilkyError>) -> bool {
    &&& (spec_parse_url(cfg.ws_endpoint@) is None ==> r matches Err(MilkyError::UrlParse(_)))
    &&& ((match spec_parse_url(cfg.ws_endpoint@) {
        Some(p) => !(p.scheme@ == "ws"@ || p.scheme@ == "wss"@),
        None => false,
    }) ==> (r matches Err(MilkyError::UnsupportedScheme(s)) && s@ == spec_parse_url(
        cfg.ws_endpoint@,
    )->Some_0.scheme@))
    &&& ((match spec_parse_url(cfg.ws_endpoint@) {
        Some(p) => p.scheme@ == "ws"@ || p.scheme@ == "wss"@,
        None => false,
    }) ==> (match r {
        Ok(ep) => {
            let p = spec_parse_url(cfg.ws_endpoint@)->Some_0;
            &&& ep.api_base.scheme@ == (if p.scheme@ == "ws"@ {
                "http"@
            } else {
                "https"@
            })
            &&& ep.api_base.host == p.host
            &&& ep.api_base.port == p.port
            &&& ep.api_base.path@ == "/api/"@
            &&& ep.api_base.query is None
            &&& (ep.event_ws matches Some(ev) && ev.scheme == p.scheme && ev.host == p.host
                && ev.port == p.port && ev.path@ == "/event"@ && ev.query is None)
            &&& ep.listen is None
            &&& ep.access_token == cfg.access_token
        },
        Err(_) => false,
    }))
}

/// What the listening strategy's endpoint computation must return: an
/// unparseable remote address is refused, and otherwise the result is
/// exactly the `/api/` call base, the local bind address and the retained
/// credential.
pub open spec fn webhook_endpoints_ok(cfg: WebHookConfig, r: Result<Endpoints, MilkyError>) -> bool {
    &&& (spec_parse_url(cfg.http_endpoint@) is None ==> r matches Err(MilkyError::UrlParse(_)))
    &&& (spec_parse_url(cfg.http_endpoint@) is Some ==> (match r {
        Ok(ep) => {
            let p = spec_parse_url(cfg.http_endpoint@)->Some_0;
            &&& ep.api_base.scheme == p.scheme
            &&& ep.api_base.host == p.host
            &&& ep.api_base.port == p.port
            &&& ep.api_base.path@ == "/api/"@
            &&& ep.api_base.query is None
            &&& ep.event_ws is None
            &&& (ep.listen matches Some((h, port)) && h == cfg.host && port == cfg.port)
            &&& ep.access_token == cfg.access_token
        },
        Err(_) => false,
    }))
}

/// Computes the endpoints of the streaming strategy: the configured
/// address must parse and carry a `ws` or `wss` scheme; the call base maps
/// the scheme to `http`/`https` and fixes the path `/api/`; the event
/// address keeps the scheme and fixes the path `/event`.
pub fn endpoints_from_ws(cfg: &WebSocketConfig) -> (r: Result<Endpoints, MilkyError>)
    ensures
        ws_endpoints_ok(*cfg, r),
{
    let p = match parse_url(cfg.ws_endpoint.as_str()) {
        None => {
            return Err(MilkyError::UrlParse(cfg.ws_endpoint.clone()));
        },
        Some(p) => p,
    };
    let https = if crate::json::str_eq(p.scheme.as_str(), "ws") {
        false
    } else if crate::json::str_eq(p.scheme.as_str(), "wss") {
        true
    } else {
        return Err(MilkyError::UnsupportedScheme(p.scheme));
    };
    let api_scheme = if https {
        String::from_str("https")
    } else {
        String::from_str("http")
    };
    let api_base = UrlParts {
        scheme: api_scheme,
        host: p.host.clone(),
        port: p.port,
        path: String::from_str("/api/"),
        query: None,
    };
    let event_ws = UrlParts {
        scheme: p.scheme,
        host: p.host,
        port: p.port,
        path: String::from_str("/event"),
        query: None,
    };
    Ok(
        Endpoints {
            api_base,
            event_ws: Some(event_ws),
            listen: None,
            access_token: cfg.access_token.clone(),
        },
    )
}

/// Computes the endpoints of the listening strategy: the remote address
/// must parse; the call base fixes the path `/api/`, and the local bind
/// address is taken over unchanged.
pub fn endpoints_from_webhook(cfg: &WebHookConfig) -> (r: Result<Endpoints, MilkyError>)
    ensures
        webhook_endpoints_ok(*cfg, r),
{
    let p = match parse_url(cfg.http_endpoint.as_str()) {
        None => {
            return Err(MilkyError::UrlParse(cfg.http_endpoint.clone()));
        },
        Some(p) => p,
    };
    let api_base = UrlParts {
        scheme: p.scheme,
        host: p.host,
        port: p.port,
        path: String::from_str("/api/"),
        query: None,
    };
    Ok(
        Endpoints {
            api_base,
            event_ws: None,
            listen: Some((cfg.host.clone(), cfg.port)),
            access_token: cfg.access_token.clone(),
        },
    )
}

/// Computes the endpoints for either strategy: exactly the strategy's own
/// guarantee, on the strategy's own configuration.
pub fn endpoints_from(comm: &Communication) -> (r: Result<Endpoints, MilkyError>)
    ensures
        (match *comm {
            Communication::WebSocket(cfg) => ws_endpoints_ok(cfg, r),
            Communication::WebHook(cfg) => webhook_endpoints_ok(cfg, r),
        }),
{
    match comm {
        Communication::WebSocket(cfg) => endpoints_from_ws(cfg),
        Communication::WebHook(cfg) => endpoints_from_webhook(cfg),
    }
}

/// The address the event connection dials: the streaming endpoint with the
/// credential, when one is configured, attached as a percent-encoded
/// `access_token` query pair — the wire format carries it as a connection
/// parameter.  `None` exactly for the listening strategy.
pub fn event_address(ep: &Endpoints) -> (r: Option<String>)
    ensures
        match ep.event_ws {
            None => r is None,
            Some(ev) => (match ep.access_token {
                None => (r matches Some(a) && a@ == spec_render_url(ev)),
                Some(t) => (r matches Some(a) && a@ == spec_render_url(ev) + seq![
                    (if ev.query is Some {
                        '&'
                    } else {
                        '?'
                    }),
                ] + "access_token="@ + pct_encoded(vstd::utf8::encode_utf8(t@))),
            }),
        },
{
    let ev = match &ep.event_ws {
        None => {
            return None;
        },
        Some(ev) => ev,
    };
    let mut a = render_url(ev);
    let t = match &ep.access_token {
        None => {
            return Some(a);
        },
        Some(t) => t,
    };
    let sep = match &ev.query {
        Some(_) => '&',
        None => '?',
    };
    crate::text::push_char(&mut a, sep);
    a.append("access_token=");
    let bytes = t.as_str().as_bytes_vec();
    pct_encode_into(&bytes, &mut a);
    proof {
        assert(bytes@ == vstd::utf8::encode_utf8(t@));
        assert(a@ =~= spec_render_url(*ev) + seq![
            (if ev.query is Some {
                '&'
            } else {
                '?'
            }),
        ] + "access_token="@ + pct_encoded(vstd::utf8::encode_utf8(t@)));
    }
    Some(a)
}

/// The path of one call: the base path with the action appended, adding a
/// separating `/` only where the base does not already end with one.
pub open spec fn spec_join_action(base: Seq<char>, action: Seq<char>) -> Seq<char> {
    if base.len() > 0 && base.last() == '/' {
        base + action
    } else {
        base + seq!['/'] + action
    }
}

/// The address of one outbound call: the call base with the action joined
/// onto its path.
pub fn call_target(ep: &Endpoints, action: &str) -> (r: UrlParts)
    ensures
        r.scheme == ep.api_base.scheme,
        r.host == ep.api_base.host,
        r.port == ep.api_base.port,
        r.path@ == spec_join_action(ep.api_base.path@, action@),
        r.query == ep.api_base.query,
{
    let mut path = ep.api_base.path.clone();
    let n = path.as_str().unicode_len();
    let needs_sep = if n == 0 {
        true
    } else {
        path.as_str().get_char(n - 1) != '/'
    };
    if needs_sep {
        crate::text::push_char(&mut path, '/');
    }
    path.append(action);
    proof {
        assert(path@ =~= spec_join_action(ep.api_base.path@, action@));
    }
    UrlParts {
        scheme: ep.api_base.scheme.clone(),
        host: ep.api_base.host.clone(),
        port: ep.api_base.port,
        path,
        query: ep.api_base.query.clone(),
    }
}

/// The value of the `Authorization` header a call must carry: the bearer
/// form of the configured credential, or nothing.
pub fn auth_header_value(ep: &Endpoints) -> (r: Option<String>)
    ensures
        match ep.access_token {
            Some(t) => r matches Some(h) && h@ == "Bearer "@ + t@,
            None => r is None,
        },
{
    match &ep.access_token {
        None => None,
        Some(t) => {
            let mut h = String::from_str("Bearer ");
            h.append(t.as_str());
            Some(h)
        },
    }
}

} // verus!
