//! Translation between the platform's HTTP shapes and the generic wire
//! shape, and the policy that settles an executed outbound call.
//!
//! The platform hands a request over as plain parts — a method token, a
//! target URI, header pairs, a body — and takes a response back as plain
//! parts. The generic side is what the application logic consumes: a method
//! from a closed set of nine verbs, byte-exact headers and bodies. Every
//! function here either moves the data across losslessly or fails with a
//! typed [`AdapterError`]; nothing defaults, truncates or re-encodes.

use vstd::prelude::*;
use vstd::string::StrSliceExecFns;
use vstd::utf8::encode_utf8;
use vstd::utf8::valid_utf8;
use crate::AdapterError;
use crate::text::is_utf8;

verus! {

/// The nine HTTP verbs the generic wire shape supports.
#[derive(Debug, Clone, Copy, PartialEq, Eq, Structural)]
pub enum Method {
    Get,
    Post,
    Put,
    Delete,
    Head,
    Options,
    Patch,
    Connect,
    Trace,
}

/// The canonical upper-case token of a verb.
pub open spec fn token_of(m: Method) -> Seq<char> {
    match m {
        Method::Get => seq!['G', 'E', 'T'],
        Method::Post => seq!['P', 'O', 'S', 'T'],
        Method::Put => seq!['P', 'U', 'T'],
        Method::Delete => seq!['D', 'E', 'L', 'E', 'T', 'E'],
        Method::Head => seq!['H', 'E', 'A', 'D'],
        Method::Options => seq!['O', 'P', 'T', 'I', 'O', 'N', 'S'],
        Method::Patch => seq!['P', 'A', 'T', 'C', 'H'],
        Method::Connect => seq!['C', 'O', 'N', 'N', 'E', 'C', 'T'],
        Method::Trace => seq!['T', 'R', 'A', 'C', 'E'],
    }
}

/// The character's scalar value with an ASCII lower-case letter folded to
/// its upper-case counterpart.
pub open spec fn upper_val(c: char) -> u32 {
    if 97 <= c as u32 && c as u32 <= 122 {
        (c as u32 - 32) as u32
    } else {
        c as u32
    }
}

/// True when `s`, upper-cased ASCII-wise, spells exactly the canonical
/// token `t`.
pub open spec fn matches_token(s: Seq<char>, t: Seq<char>) -> bool {
    &&& s.len() == t.len()
    &&& forall|i: int| 0 <= i < s.len() ==> upper_val(s[i]) == #[trigger] t[i] as u32
}

/// The verb a method token denotes, after ASCII case folding; `None` for
/// every other token.
pub open spec fn method_of_token(s: Seq<char>) -> Option<Method> {
    if matches_token(s, token_of(Method::Get)) {
        Some(Method::Get)
    } else if matches_token(s, token_of(Method::Post)) {
        Some(Method::Post)
    } else if matches_token(s, token_of(Method::Put)) {
        Some(Method::Put)
    } else if matches_token(s, token_of(Method::Delete)) {
        Some(Method::Delete)
    } else if matches_token(s, token_of(Method::Head)) {
        Some(Method::Head)
    } else if matches_token(s, token_of(Method::Options)) {
        Some(Method::Options)
    } else if matches_token(s, token_of(Method::Patch)) {
        Some(Method::Patch)
    } else if matches_token(s, token_of(Method::Connect)) {
        Some(Method::Connect)
    } else if matches_token(s, token_of(Method::Trace)) {
        Some(Method::Trace)
    } else {
        None
    }
}

/// Decides whether the token spells the canonical verb token `lit` once its
/// ASCII letters are upper-cased.
fn token_matches(s: &str, lit: &str) -> (r: bool)
    ensures
        r == matches_token(s@, lit@),
{
    let s_len = s.unicode_len();
    let lit_len = lit.unicode_len();
    if s_len != lit_len {
        return false;
    }
    let mut i: usize = 0;
    while i < s_len
        invariant
            s_len == s@.len(),
            s_len == lit@.len(),
            0 <= i <= s_len,
            forall|j: int| 0 <= j < i ==> upper_val(s@[j]) == #[trigger] lit@[j] as u32,
        decreases s_len - i,
    {
        let sc = s.get_char(i) as u32;
        let lc = lit.get_char(i) as u32;
        let folded: u32 = if 97 <= sc && sc <= 122 {
            sc - 32
        } else {
            sc
        };
        if folded != lc {
            assert(upper_val(s@[i as int]) != lit@[i as int] as u32);
            return false;
        }
        i = i + 1;
    }
    true
}

/// Maps a method token to the verb it denotes, folding ASCII case; any
/// other token — the empty string included — fails with
/// [`AdapterError::UnsupportedMethod`] carrying the offending token, never a
/// default.
pub fn to_method(token: &str) -> (r: Result<Method, AdapterError>)
    ensures
        match r {
            Ok(m) => method_of_token(token@) == Some(m),
            Err(e) => {
                &&& method_of_token(token@) is None
                &&& e matches AdapterError::UnsupportedMethod(t) && t@ == token@
            },
        },
{
    proof {
        reveal_strlit("GET");
        reveal_strlit("POST");
        reveal_strlit("PUT");
        reveal_strlit("DELETE");
        reveal_strlit("HEAD");
        reveal_strlit("OPTIONS");
        reveal_strlit("PATCH");
        reveal_strlit("CONNECT");
        reveal_strlit("TRACE");
        assert("GET"@ =~= token_of(Method::Get));
        assert("POST"@ =~= token_of(Method::Post));
        assert("PUT"@ =~= token_of(Method::Put));
        assert("DELETE"@ =~= token_of(Method::Delete));
        assert("HEAD"@ =~= token_of(Method::Head));
        assert("OPTIONS"@ =~= token_of(Method::Options));
        assert("PATCH"@ =~= token_of(Method::Patch));
        assert("CONNECT"@ =~= token_of(Method::Connect));
        assert("TRACE"@ =~= token_of(Method::Trace));
    }
    if token_matches(token, "GET") {
        Ok(Method::Get)
    } else if token_matches(token, "POST") {
        Ok(Method::Post)
    } else if token_matches(token, "PUT") {
        Ok(Method::Put)
    } else if token_matches(token, "DELETE") {
        Ok(Method::Delete)
    } else if token_matches(token, "HEAD") {
        Ok(Method::Head)
    } else if token_matches(token, "OPTIONS") {
        Ok(Method::Options)
    } else if token_matches(token, "PATCH") {
        Ok(Method::Patch)
    } else if token_matches(token, "CONNECT") {
        Ok(Method::Connect)
    } else if token_matches(token, "TRACE") {
        Ok(Method::Trace)
    } else {
        Err(AdapterError::UnsupportedMethod(token.to_owned()))
    }
}

/// The canonical token of a verb, as a string slice.
pub fn method_token(m: Method) -> (r: &'static str)
    ensures
        r@ == token_of(m),
{
    match m {
        Method::Get => {
            let t = "GET";
            proof {
                reveal_strlit("GET");
                assert(t@ =~= token_of(Method::Get));
            }
            t
        },
        Method::Post => {
            let t = "POST";
            proof {
                reveal_strlit("POST");
                assert(t@ =~= token_of(Method::Post));
            }
            t
        },
        Method::Put => {
            let t = "PUT";
            proof {
                reveal_strlit("PUT");
                assert(t@ =~= token_of(Method::Put));
            }
            t
        },
        Method::Delete => {
            let t = "DELETE";
            proof {
                reveal_strlit("DELETE");
                assert(t@ =~= token_of(Method::Delete));
            }
            t
        },
        Method::Head => {
            let t = "HEAD";
            proof {
                reveal_strlit("HEAD");
                assert(t@ =~= token_of(Method::Head));
            }
            t
        },
        Method::Options => {
            let t = "OPTIONS";
            proof {
                reveal_strlit("OPTIONS");
                assert(t@ =~= token_of(Method::Options));
            }
            t
        },
        Method::Patch => {
            let t = "PATCH";
            proof {
                reveal_strlit("PATCH");
                assert(t@ =~= token_of(Method::Patch));
            }
            t
        },
        Method::Connect => {
            let t = "CONNECT";
            proof {
                reveal_strlit("CONNECT");
                assert(t@ =~= token_of(Method::Connect));
            }
            t
        },
        Method::Trace => {
            let t = "TRACE";
            proof {
                reveal_strlit("TRACE");
                assert(t@ =~= token_of(Method::Trace));
            }
            t
        },
    }
}

/// Law: a token that spells a supported verb — in any ASCII casing — maps
/// to exactly that verb, never to another and never to a failure.
pub proof fn lemma_method_round_trip(m: Method, s: Seq<char>)
    requires
        matches_token(s, token_of(m)),
    ensures
        method_of_token(s) == Some(m),
{
    match m {
        Method::Get => {},
        Method::Post => {},
        Method::Put => {
            if matches_token(s, token_of(Method::Get)) {
                assert(upper_val(s[0]) == token_of(Method::Get)[0] as u32);
                assert(upper_val(s[0]) == token_of(Method::Put)[0] as u32);
                assert(false);
            }
        },
        Method::Delete => {},
        Method::Head => {
            if matches_token(s, token_of(Method::Post)) {
                assert(upper_val(s[0]) == token_of(Method::Post)[0] as u32);
                assert(upper_val(s[0]) == token_of(Method::Head)[0] as u32);
                assert(false);
            }
        },
        Method::Options => {},
        Method::Patch => {},
        Method::Connect => {
            if matches_token(s, token_of(Method::Options)) {
                assert(upper_val(s[0]) == token_of(Method::Options)[0] as u32);
                assert(upper_val(s[0]) == token_of(Method::Connect)[0] as u32);
                assert(false);
            }
        },
        Method::Trace => {
            if matches_token(s, token_of(Method::Patch)) {
                assert(upper_val(s[0]) == token_of(Method::Patch)[0] as u32);
                assert(upper_val(s[0]) == token_of(Method::Trace)[0] as u32);
                assert(false);
            }
        },
    }
}

/// Law: every verb's own canonical token maps back to that verb.
pub proof fn lemma_canonical_token_round_trip(m: Method)
    ensures
        method_of_token(token_of(m)) == Some(m),
{
    let t = token_of(m);
    assert forall|i: int| 0 <= i < t.len() implies upper_val(t[i]) == #[trigger] t[i] as u32 by {
        match m {
            Method::Get => {
                assert(t =~= seq!['G', 'E', 'T']);
            },
            Method::Post => {},
            Method::Put => {},
            Method::Delete => {},
            Method::Head => {},
            Method::Options => {},
            Method::Patch => {},
            Method::Connect => {},
            Method::Trace => {},
        }
    }
    assert(matches_token(t, t));
    lemma_method_round_trip(m, t);
}

/// Law: two tokens with the same ASCII case folding map to the same verb,
/// whenever that folding spells a supported verb. (Without that restriction
/// the claim would be false: two differently-cased unsupported tokens fail
/// with distinct errors, since each failure carries its own token verbatim.)
pub proof fn lemma_case_fold_decides_verb(a: Seq<char>, b: Seq<char>, m: Method)
    requires
        a.len() == b.len(),
        forall|i: int| 0 <= i < a.len() ==> #[trigger] upper_val(a[i]) == upper_val(b[i]),
        matches_token(a, token_of(m)),
    ensures
        method_of_token(a) == Some(m),
        method_of_token(b) == Some(m),
{
    assert(matches_token(b, token_of(m))) by {
        assert forall|i: int| 0 <= i < b.len() implies upper_val(b[i]) == #[trigger] token_of(
            m,
        )[i] as u32 by {
            assert(upper_val(a[i]) == token_of(m)[i] as u32);
            assert(upper_val(a[i]) == upper_val(b[i]));
        }
    }
    lemma_method_round_trip(m, a);
    lemma_method_round_trip(m, b);
}

/// An inbound platform request, reduced to the plain parts the platform's
/// accessors hand out. `url` is `None` when the platform could not resolve
/// the target URI, `body` is `None` when the platform's body read failed;
/// the runtime glue records either failure here instead of raising it, so
/// that translation decides — in one verified place — which error wins.
#[derive(Debug, PartialEq, Eq)]
pub struct PlatformRequest {
    pub method: String,
    pub url: Option<String>,
    pub headers: Vec<(String, String)>,
    pub body: Option<String>,
}

/// A generic outbound request: one of the nine verbs, an absolute target
/// URI, the header pairs in their original order and casing, and the body
/// as a byte payload (empty, never absent, for an empty body).
#[derive(Debug, PartialEq, Eq)]
pub struct GenericRequest {
    pub method: Method,
    pub url: String,
    pub headers: Vec<(String, String)>,
    pub body: Vec<u8>,
}

/// Translates an inbound platform request into a generic request.
///
/// The body read is settled first: a failed read is [`AdapterError::BodyReadError`]
/// before any method or header processing. An unsupported method token is
/// rejected next, then a missing target URI. On success every header pair is
/// kept exactly — order, case, duplicates and all — and the body text is
/// embedded as its UTF-8 bytes, unchanged.
pub fn to_request(req: PlatformRequest) -> (r: Result<GenericRequest, AdapterError>)
    ensures
        match r {
            Ok(g) => {
                &&& req.body is Some
                &&& req.url is Some
                &&& method_of_token(req.method@) == Some(g.method)
                &&& g.url == req.url->0
                &&& g.headers == req.headers
                &&& g.body@ == encode_utf8(req.body->0@)
            },
            Err(e) => match e {
                AdapterError::BodyReadError => req.body is None,
                AdapterError::UnsupportedMethod(t) => {
                    &&& req.body is Some
                    &&& method_of_token(req.method@) is None
                    &&& t@ == req.method@
                },
                AdapterError::UriError => {
                    &&& req.body is Some
                    &&& method_of_token(req.method@) is Some
                    &&& req.url is None
                },
                _ => false,
            },
        },
{
    let PlatformRequest { method, url, headers, body } = req;
    let body_text = match body {
        Some(t) => t,
        None => {
            return Err(AdapterError::BodyReadError);
        },
    };
    let m = match to_method(method.as_str()) {
        Ok(m) => m,
        Err(e) => {
            return Err(e);
        },
    };
    let u = match url {
        Some(u) => u,
        None => {
            return Err(AdapterError::UriError);
        },
    };
    let body_bytes = body_text.as_str().as_bytes_vec();
    Ok(GenericRequest { method: m, url: u, headers, body: body_bytes })
}

/// True for every pair when its value bytes are valid UTF-8 text.
pub open spec fn header_values_utf8(h: Seq<(String, Vec<u8>)>) -> bool {
    forall|i: int| 0 <= i < h.len() ==> valid_utf8(#[trigger] h[i].1@)
}

/// A generic HTTP response: the numeric status, the header pairs with their
/// values as raw bytes, and the fully buffered body bytes.
#[derive(Debug, PartialEq, Eq)]
pub struct GenericResponse {
    pub status: u16,
    pub headers: Vec<(String, Vec<u8>)>,
    pub body: Vec<u8>,
}

/// The parts from which the platform's native response is built: status set
/// verbatim, header pairs whose values are checked UTF-8 text, and the
/// complete body buffer.
#[derive(Debug, PartialEq, Eq)]
pub struct PlatformResponse {
    pub status: u16,
    pub headers: Vec<(String, Vec<u8>)>,
    pub body: Vec<u8>,
}

impl PlatformResponse {
    /// Well-formed: every header value holds valid UTF-8 text, so each can
    /// be appended to the platform's header collection as a string.
    pub open spec fn wf(&self) -> bool {
        header_values_utf8(self.headers@)
    }
}

/// Translates a generic response into the parts of a platform response.
///
/// The status is taken verbatim, with no validation or remapping; body and
/// headers are preserved byte for byte, in iteration order. A single header
/// value that is not valid UTF-8 fails the whole translation with
/// [`AdapterError::HeaderEncodingError`]: no partial response is ever
/// produced.
pub fn to_response(resp: GenericResponse) -> (r: Result<PlatformResponse, AdapterError>)
    ensures
        match r {
            Ok(p) => {
                &&& header_values_utf8(resp.headers@)
                &&& p.wf()
                &&& p.status == resp.status
                &&& p.headers == resp.headers
                &&& p.body == resp.body
            },
            Err(e) => {
                &&& e == AdapterError::HeaderEncodingError
                &&& !header_values_utf8(resp.headers@)
            },
        },
{
    let n = resp.headers.len();
    let mut i: usize = 0;
    while i < n
        invariant
            n == resp.headers@.len(),
            0 <= i <= n,
            forall|j: int| 0 <= j < i ==> valid_utf8(#[trigger] resp.headers@[j].1@),
        decreases n - i,
    {
        if !is_utf8(&resp.headers[i].1) {
            assert(!valid_utf8(resp.headers@[i as int].1@));
            return Err(AdapterError::HeaderEncodingError);
        }
        i = i + 1;
    }
    Ok(PlatformResponse { status: resp.status, headers: resp.headers, body: resp.body })
}

#[verifier::external_type_specification]
#[verifier::external_body]
pub struct ExClient(reqwest::Client);

/// Relies on `reqwest::Client::builder` and `reqwest::ClientBuilder::build`:
/// constructs the pooled HTTP client with its default configuration,
/// returning `None` in the one case the builder fails (a TLS backend or the
/// system resolver cannot be initialized).
#[verifier::external_body]
fn build_client() -> (r: Option<reqwest::Client>) {
    reqwest::Client::builder().build().ok()
}

/// Relies on `reqwest::Client`'s `Clone` impl: the client is a shared handle
/// to one connection pool, so duplication is cheap and hands out another
/// handle to the same pool. Nothing about the handle is observable here.
pub assume_specification[ <reqwest::Client as Clone>::clone ](
    c: &reqwest::Client,
) -> reqwest::Client;

/// What one outbound exchange produced at the transport boundary: the
/// reply's status, headers and fully buffered body, or `None` when the
/// transport itself failed before a reply arrived.
#[derive(Debug, PartialEq, Eq)]
pub struct RawResponse {
    pub status: u16,
    pub headers: Vec<(String, Vec<u8>)>,
    pub body: Vec<u8>,
}

/// True when the status belongs to the success or redirect class — the only
/// replies an execution passes through as normal responses.
pub open spec fn is_success_status(status: u16) -> bool {
    200 <= status <= 399
}

/// Executes generic outbound requests through one long-lived pooled HTTP
/// client. The client handle is created once and duplicated cheaply per
/// call; the transport send itself suspends and so runs in the surrounding
/// runtime glue, which hands the outcome back to [`HttpCloudflare::execute`]
/// to be settled.
#[derive(Clone)]
pub struct HttpCloudflare {
    pub client: reqwest::Client,
}

impl HttpCloudflare {
    /// Builds the shared pooled client once, at adapter initialization;
    /// `None` when the client cannot be constructed.
    pub fn init() -> (r: Option<Self>) {
        match build_client() {
            Some(client) => Some(HttpCloudflare { client }),
            None => None,
        }
    }

    /// Settles one executed exchange. A transport failure, and any reply
    /// whose status falls outside the success and redirect classes, is a
    /// hard [`AdapterError::ExecutionFailure`] — such a reply is never
    /// passed through as a normal response, so callers that need to inspect
    /// error-status bodies must not rely on this wrapper. A success- or
    /// redirect-class reply becomes the generic response, status, headers
    /// and body preserved exactly.
    pub fn execute(&self, exchange: Option<RawResponse>) -> (r: Result<
        GenericResponse,
        AdapterError,
    >)
        ensures
            match exchange {
                None => r == Err::<GenericResponse, AdapterError>(AdapterError::ExecutionFailure),
                Some(raw) => if is_success_status(raw.status) {
                    match r {
                        Ok(g) => {
                            &&& g.status == raw.status
                            &&& g.headers == raw.headers
                            &&& g.body == raw.body
                        },
                        Err(_) => false,
                    }
                } else {
                    r == Err::<GenericResponse, AdapterError>(AdapterError::ExecutionFailure)
                },
            },
    {
        match exchange {
            None => Err(AdapterError::ExecutionFailure),
            Some(raw) => {
                if raw.status >= 200 && raw.status <= 399 {
                    Ok(GenericResponse { status: raw.status, headers: raw.headers, body: raw.body })
                } else {
                    Err(AdapterError::ExecutionFailure)
                }
            },
        }
    }
}

} // verus!
