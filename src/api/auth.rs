use vstd::prelude::*;

use crate::api::{
    is_success, json_member_of, json_str_member, json_str_member_of, opt_view, remote_error, remote_error_spec, success_status,
    ApiError,
};

verus! {

/// The one capability the agent asks for.
pub const SCOPES: &'static str = "write:statuses";

/// An application registration: identifies this agent to the instance.
#[derive(Debug, Clone)]
pub struct Client {
    pub client_id: String,
    pub client_secret: String,
}

/// A form or query: name and value pairs, in order.
pub open spec fn pairs_view(v: Seq<(String, String)>) -> Seq<(Seq<char>, Seq<char>)> {
    v.map_values(|p: (String, String)| (p.0@, p.1@))
}

pub open spec fn digit_char(d: nat) -> char {
    if d == 0 { '0' }
    else if d == 1 { '1' }
    else if d == 2 { '2' }
    else if d == 3 { '3' }
    else if d == 4 { '4' }
    else if d == 5 { '5' }
    else if d == 6 { '6' }
    else if d == 7 { '7' }
    else if d == 8 { '8' }
    else { '9' }
}

/// Decimal digits of `n`, without leading zeros.
pub open spec fn decimal(n: nat) -> Seq<char>
    decreases n,
{
    if n < 10 {
        seq![digit_char(n)]
    } else {
        decimal(n / 10).push(digit_char(n % 10))
    }
}

fn digit_str(d: u16) -> (r: &'static str)
    requires
        d < 10,
    ensures
        r@ == seq![digit_char(d as nat)],
{
    proof {
        reveal_strlit("0");
        reveal_strlit("1");
        reveal_strlit("2");
        reveal_strlit("3");
        reveal_strlit("4");
        reveal_strlit("5");
        reveal_strlit("6");
        reveal_strlit("7");
        reveal_strlit("8");
        reveal_strlit("9");
    }
    let r = if d == 0 { "0" }
    else if d == 1 { "1" }
    else if d == 2 { "2" }
    else if d == 3 { "3" }
    else if d == 4 { "4" }
    else if d == 5 { "5" }
    else if d == 6 { "6" }
    else if d == 7 { "7" }
    else if d == 8 { "8" }
    else { "9" };
    assert(r@ =~= seq![digit_char(d as nat)]);
    r
}

fn push_decimal(s: &mut String, n: u16)
    ensures
        final(s)@ == old(s)@ + decimal(n as nat),
    decreases n,
{
    if n >= 10 {
        push_decimal(s, n / 10);
    }
    s.append(digit_str(n % 10));
    assert(final(s)@ =~= old(s)@ + decimal(n as nat));
}

/// The loopback address that the instance redirects the operator's browser to.
pub open spec fn redirect_uri_spec(port: u16) -> Seq<char> {
    "http://127.0.0.1:"@ + decimal(port as nat)
}

pub fn redirect_uri(port: u16) -> (r: String)
    ensures
        r@ == redirect_uri_spec(port),
{
    let mut s = String::from_str("http://127.0.0.1:");
    push_decimal(&mut s, port);
    s
}

/// `https://` followed by the instance host and a resource path.
pub open spec fn endpoint_url_spec(instance: Seq<char>, path: Seq<char>) -> Seq<char> {
    "https://"@ + instance + path
}

pub fn endpoint_url(instance: &str, path: &str) -> (r: String)
    ensures
        r@ == endpoint_url_spec(instance@, path@),
{
    let s = String::from_str("https://");
    let s = s.concat(instance);
    let s = s.concat(path);
    s
}

fn pair(name: &str, value: &str) -> (r: (String, String))
    ensures
        r.0@ == name@,
        r.1@ == value@,
{
    (String::from_str(name), String::from_str(value))
}


/// Why the authorisation callback did not yield a code.
#[derive(Debug, Clone, Copy, PartialEq, Eq, Structural)]
pub enum CallbackError {
    /// The request could not be parsed as HTTP.
    Malformed,
    /// The request line holds no target.
    NoTarget,
    /// The target holds no `?code=` marker.
    CodeMissing,
    /// Nothing follows the `?code=` marker.
    CodeEmpty,
    /// The request line did not arrive within the read limit.
    TooLarge,
}

impl CallbackError {
    pub open spec fn message_spec(self) -> Seq<char> {
        match self {
            CallbackError::Malformed => "malformed authorisation callback"@,
            CallbackError::NoTarget => "did not receive authorisation code"@,
            CallbackError::CodeMissing => "authorisation code is not present"@,
            CallbackError::CodeEmpty => "authorisation code is empty"@,
            CallbackError::TooLarge => "authorisation callback request too large"@,
        }
    }

    pub fn message(&self) -> (r: &'static str)
        ensures
            r@ == self.message_spec(),
    {
        match self {
            CallbackError::Malformed => "malformed authorisation callback",
            CallbackError::NoTarget => "did not receive authorisation code",
            CallbackError::CodeMissing => "authorisation code is not present",
            CallbackError::CodeEmpty => "authorisation code is empty",
            CallbackError::TooLarge => "authorisation callback request too large",
        }
    }
}

/// The marker that precedes the authorisation code in the callback target.
pub open spec fn code_marker() -> Seq<char> {
    seq!['?', 'c', 'o', 'd', 'e', '=']
}

/// The first position at or after `i` where the marker starts.
pub open spec fn marker_from(s: Seq<char>, i: int) -> Option<int>
    decreases s.len() - i,
{
    if i < 0 || i + 6 > s.len() {
        None
    } else if s.subrange(i, i + 6) == code_marker() {
        Some(i)
    } else {
        marker_from(s, i + 1)
    }
}

/// The code carried by a callback target: all that follows the first marker.
pub open spec fn code_in(s: Seq<char>) -> Result<Seq<char>, CallbackError> {
    match marker_from(s, 0) {
        None => Err(CallbackError::CodeMissing),
        Some(i) => if i + 6 == s.len() {
            Err(CallbackError::CodeEmpty)
        } else {
            Ok(s.subrange(i + 6, s.len() as int))
        },
    }
}

pub open spec fn string_result(r: Result<String, CallbackError>) -> Result<Seq<char>, CallbackError> {
    match r {
        Ok(s) => Ok(s@),
        Err(e) => Err(e),
    }
}

fn marker_at(s: &str, i: usize) -> (r: bool)
    requires
        i + 6 <= s@.len() <= usize::MAX,
    ensures
        r == (s@.subrange(i as int, i + 6) == code_marker()),
{
    let r = s.get_char(i) == '?' && s.get_char(i + 1) == 'c' && s.get_char(i + 2) == 'o'
        && s.get_char(i + 3) == 'd' && s.get_char(i + 4) == 'e' && s.get_char(i + 5) == '=';
    if r {
        assert(s@.subrange(i as int, i + 6) =~= code_marker());
    } else {
        proof {
            let sub = s@.subrange(i as int, i + 6);
            if sub == code_marker() {
                assert(sub[0] == s@[i as int] && sub[1] == s@[i + 1] && sub[2] == s@[i + 2]);
                assert(sub[3] == s@[i + 3] && sub[4] == s@[i + 4] && sub[5] == s@[i + 5]);
            }
        }
    }
    r
}

/// Extracts the authorisation code from the target of the callback request.
pub fn code_from_target(target: &str) -> (r: Result<String, CallbackError>)
    ensures
        string_result(r) == code_in(target@),
{
    let n = target.unicode_len();
    let mut i: usize = 0;
    while 6 <= n - i
        invariant
            n == target@.len(),
            i <= n,
            marker_from(target@, 0) == marker_from(target@, i as int),
        decreases n - i,
    {
        if marker_at(target, i) {
            if n - i == 6 {
                return Err(CallbackError::CodeEmpty);
            }
            let code = target.substring_char(i + 6, n);
            return Ok(code.to_owned());
        }
        i = i + 1;
    }
    Err(CallbackError::CodeMissing)
}


/// httparse's parse error, carried opaquely and mapped to `Malformed`.
#[verifier::external_type_specification]
#[verifier::external_body]
pub struct ExHttpParseError(httparse::Error);

/// What httparse makes of a request's bytes: `None` where it reports an
/// error, else the request target, where it read one.
pub uninterp spec fn request_target_of(b: Seq<u8>) -> Option<Option<Seq<char>>>;

pub open spec fn target_view(t: Option<String>) -> Option<Seq<char>> {
    match t {
        Some(s) => Some(s@),
        None => None,
    }
}

/// Relies on httparse::Request::parse: reads the request line and headers,
/// and gives the request target where it got that far.
#[verifier::external_body]
fn http_request_target(buf: &[u8]) -> (r: Result<Option<String>, httparse::Error>)
    ensures
        match r {
            Ok(t) => request_target_of(buf@) == Some(target_view(t)),
            Err(_) => request_target_of(buf@) is None,
        },
{
    let mut headers = [httparse::EMPTY_HEADER; 32];
    let mut request = httparse::Request::new(&mut headers);
    match request.parse(buf) {
        Ok(_) => Ok(request.path.map(|p| p.to_owned())),
        Err(e) => Err(e),
    }
}

/// The code carried by a callback request, given what the HTTP parser read.
pub open spec fn callback_code(t: Option<Option<Seq<char>>>) -> Result<Seq<char>, CallbackError> {
    match t {
        None => Err(CallbackError::Malformed),
        Some(None) => Err(CallbackError::NoTarget),
        Some(Some(target)) => code_in(target),
    }
}

/// Reads the authorisation code out of the callback request the browser sent.
pub fn parse_callback(buf: &[u8]) -> (r: Result<String, CallbackError>)
    ensures
        string_result(r) == callback_code(request_target_of(buf@)),
{
    match http_request_target(buf) {
        Err(_) => Err(CallbackError::Malformed),
        Ok(None) => Err(CallbackError::NoTarget),
        Ok(Some(target)) => code_from_target(target.as_str()),
    }
}

/// Whether a request line has arrived in full: the bytes hold a line feed.
pub open spec fn has_line(b: Seq<u8>) -> bool {
    exists|i: int| 0 <= i < b.len() && b[i] == 10u8
}

pub fn has_request_line(buf: &[u8]) -> (r: bool)
    ensures
        r == has_line(buf@),
{
    let mut i: usize = 0;
    while i < buf.len()
        invariant
            i <= buf@.len(),
            forall|j: int| 0 <= j < i ==> buf@[j] != 10u8,
        decreases buf@.len() - i,
    {
        if buf[i] == 10u8 {
            return true;
        }
        i = i + 1;
    }
    false
}

/// How much of the callback request is read before the wait ends: the bytes
/// so far when they hold the request line, `TooLarge` when they reach `limit`
/// without one, and `None` while more may come.
pub fn callback_read_state(buf: &[u8], limit: usize) -> (r: Option<Result<String, CallbackError>>)
    ensures
        has_line(buf@) ==> r is Some && string_result(r->Some_0) == callback_code(
            request_target_of(buf@),
        ),
        !has_line(buf@) && buf@.len() >= limit ==> r == Some(
            Err::<String, CallbackError>(CallbackError::TooLarge),
        ),
        !has_line(buf@) && buf@.len() < limit ==> r is None,
{
    if has_request_line(buf) {
        Some(parse_callback(buf))
    } else if buf.len() >= limit {
        Some(Err(CallbackError::TooLarge))
    } else {
        None
    }
}

/// The reply to the callback: a redirect to the instance's root.
pub open spec fn redirect_response_spec(instance: Seq<char>) -> Seq<char> {
    "HTTP/1.1 303 See Other\r\nLocation: https://"@ + instance + "\r\n\r\n"@
}

pub fn redirect_response(instance: &str) -> (r: String)
    ensures
        r@ == redirect_response_spec(instance@),
{
    let s = String::from_str("HTTP/1.1 303 See Other\r\nLocation: https://");
    let s = s.concat(instance);
    s.concat("\r\n\r\n")
}

/// Path of the app-registration resource.
pub const APPS_PATH: &'static str = "/api/v1/apps";
/// Path of the authorisation page.
pub const AUTHORIZE_PATH: &'static str = "/oauth/authorize";
/// Path of the token resource.
pub const TOKEN_PATH: &'static str = "/oauth/token";
/// Path of the revocation resource.
pub const REVOKE_PATH: &'static str = "/oauth/revoke";
/// Path of the credentials-check resource.
pub const VERIFY_PATH: &'static str = "/api/v1/apps/verify_credentials";

pub open spec fn register_form_spec(client_name: Seq<char>, port: u16, website: Seq<char>) -> Seq<(Seq<char>, Seq<char>)> {
    seq![
        ("client_name"@, client_name),
        ("redirect_uris"@, redirect_uri_spec(port)),
        ("scopes"@, SCOPES@),
        ("website"@, website),
    ]
}

/// The form that registers this agent as an application.
pub fn register_form(client_name: &str, port: u16, website: &str) -> (r: Vec<(String, String)>)
    ensures
        pairs_view(r@) == register_form_spec(client_name@, port, website@),
{
    let uri = redirect_uri(port);
    let mut v: Vec<(String, String)> = Vec::new();
    v.push(pair("client_name", client_name));
    v.push(pair("redirect_uris", uri.as_str()));
    v.push(pair("scopes", SCOPES));
    v.push(pair("website", website));
    assert(pairs_view(v@) =~= register_form_spec(client_name@, port, website@));
    v
}


pub open spec fn authorize_query_spec(client_id: Seq<char>, port: u16, lang: Seq<char>) -> Seq<(Seq<char>, Seq<char>)> {
    seq![
        ("response_type"@, "code"@),
        ("client_id"@, client_id),
        ("redirect_uri"@, redirect_uri_spec(port)),
        ("scope"@, SCOPES@),
        ("lang"@, lang),
    ]
}

pub open spec fn token_form_spec(
    code: Seq<char>,
    client_id: Seq<char>,
    client_secret: Seq<char>,
    port: u16,
) -> Seq<(Seq<char>, Seq<char>)> {
    seq![
        ("grant_type"@, "authorization_code"@),
        ("code"@, code),
        ("client_id"@, client_id),
        ("client_secret"@, client_secret),
        ("redirect_uri"@, redirect_uri_spec(port)),
        ("scope"@, SCOPES@),
    ]
}

pub open spec fn revoke_form_spec(client_id: Seq<char>, client_secret: Seq<char>, token: Seq<char>) -> Seq<(Seq<char>, Seq<char>)> {
    seq![("client_id"@, client_id), ("client_secret"@, client_secret), ("token"@, token)]
}

/// The value stored as the token: the `Authorization` header it is sent in.
pub open spec fn bearer_spec(access_token: Seq<char>) -> Seq<char> {
    "Bearer "@ + access_token
}

pub open spec fn client_result(r: Result<Client, ApiError>) -> Result<(Seq<char>, Seq<char>), (Seq<char>, Seq<char>)> {
    match r {
        Ok(c) => Ok((c.client_id@, c.client_secret@)),
        Err(e) => Err(e.view()),
    }
}

pub open spec fn token_result(r: Result<String, ApiError>) -> Result<Seq<char>, (Seq<char>, Seq<char>)> {
    match r {
        Ok(t) => Ok(t@),
        Err(e) => Err(e.view()),
    }
}

pub open spec fn unit_result(r: Result<(), ApiError>) -> Result<(), (Seq<char>, Seq<char>)> {
    match r {
        Ok(u) => Ok(u),
        Err(e) => Err(e.view()),
    }
}

/// The error for a success response whose body lacks what it should hold.
pub open spec fn unexpected_spec(body: Seq<char>) -> (Seq<char>, Seq<char>) {
    ("Unexpected response from the instance."@, body)
}

fn unexpected(body: &str) -> (r: ApiError)
    ensures
        r.view() == unexpected_spec(body@),
{
    ApiError {
        context: String::from_str("Unexpected response from the instance."),
        message: String::from_str(body),
    }
}

impl Client {
    /// The registration outcome, from the status and body of the
    /// registration response.
    pub fn new(status: u16, body: &str) -> (r: Result<Client, ApiError>)
        ensures
            client_result(r) == if success_status(status) {
                match (json_str_member_of(body@, "client_id"@), json_str_member_of(body@, "client_secret"@)) {
                    (Some(id), Some(secret)) => Ok((id, secret)),
                    _ => Err(unexpected_spec(body@)),
                }
            } else {
                Err(remote_error_spec(
                    json_member_of(body@, "error"@),
                    json_member_of(body@, "error_description"@),
                    body@,
                    "Failed to create client."@,
                ))
            },
    {
        if is_success(status) {
            let id = json_str_member(body, "client_id");
            let secret = json_str_member(body, "client_secret");
            match (id, secret) {
                (Some(client_id), Some(client_secret)) => Ok(Client { client_id, client_secret }),
                _ => Err(unexpected(body)),
            }
        } else {
            Err(remote_error(body, "Failed to create client."))
        }
    }

    /// The query of the authorisation page the operator is sent to.
    pub fn authorize_query(&self, port: u16, lang: &str) -> (r: Vec<(String, String)>)
        ensures
            pairs_view(r@) == authorize_query_spec(self.client_id@, port, lang@),
    {
        let uri = redirect_uri(port);
        let mut v: Vec<(String, String)> = Vec::new();
        v.push(pair("response_type", "code"));
        v.push(pair("client_id", self.client_id.as_str()));
        v.push(pair("redirect_uri", uri.as_str()));
        v.push(pair("scope", SCOPES));
        v.push(pair("lang", lang));
        assert(pairs_view(v@) =~= authorize_query_spec(self.client_id@, port, lang@));
        v
    }

    /// The form that exchanges an authorisation code for a token.
    pub fn token_form(&self, code: &str, port: u16) -> (r: Vec<(String, String)>)
        ensures
            pairs_view(r@) == token_form_spec(code@, self.client_id@, self.client_secret@, port),
    {
        let uri = redirect_uri(port);
        let mut v: Vec<(String, String)> = Vec::new();
        v.push(pair("grant_type", "authorization_code"));
        v.push(pair("code", code));
        v.push(pair("client_id", self.client_id.as_str()));
        v.push(pair("client_secret", self.client_secret.as_str()));
        v.push(pair("redirect_uri", uri.as_str()));
        v.push(pair("scope", SCOPES));
        assert(pairs_view(v@) =~= token_form_spec(code@, self.client_id@, self.client_secret@, port));
        v
    }

    /// The token, from the status and body of the token response.
    pub fn token(&self, status: u16, body: &str) -> (r: Result<String, ApiError>)
        ensures
            token_result(r) == if success_status(status) {
                match json_str_member_of(body@, "access_token"@) {
                    Some(t) => Ok(bearer_spec(t)),
                    None => Err(unexpected_spec(body@)),
                }
            } else {
                Err(remote_error_spec(
                    json_member_of(body@, "error"@),
                    json_member_of(body@, "error_description"@),
                    body@,
                    "Failed to get authorisation token"@,
                ))
            },
    {
        if is_success(status) {
            match json_str_member(body, "access_token") {
                Some(t) => Ok(String::from_str("Bearer ").concat(t.as_str())),
                None => Err(unexpected(body)),
            }
        } else {
            Err(remote_error(body, "Failed to get authorisation token"))
        }
    }

    /// The form that revokes `token`.
    pub fn revoke_form(&self, token: &str) -> (r: Vec<(String, String)>)
        ensures
            pairs_view(r@) == revoke_form_spec(self.client_id@, self.client_secret@, token@),
    {
        let mut v: Vec<(String, String)> = Vec::new();
        v.push(pair("client_id", self.client_id.as_str()));
        v.push(pair("client_secret", self.client_secret.as_str()));
        v.push(pair("token", token));
        assert(pairs_view(v@) =~= revoke_form_spec(self.client_id@, self.client_secret@, token@));
        v
    }

    /// The revocation outcome, from the status and body of its response.
    pub fn revoke(&self, status: u16, body: &str) -> (r: Result<(), ApiError>)
        ensures
            unit_result(r) == if success_status(status) {
                Ok(())
            } else {
                Err(remote_error_spec(
                    json_member_of(body@, "error"@),
                    json_member_of(body@, "error_description"@),
                    body@,
                    "Failed to revoke authorisation token"@,
                ))
            },
    {
        if is_success(status) {
            Ok(())
        } else {
            Err(remote_error(body, "Failed to revoke authorisation token"))
        }
    }
}

/// The credentials check outcome, from the status of its response.
pub fn verify(status: u16) -> (r: Result<(), ApiError>)
    ensures
        unit_result(r) == if success_status(status) {
            Ok(())
        } else {
            Err(("Authorisation token failed verification."@, "the instance refused the token"@))
        },
{
    if is_success(status) {
        Ok(())
    } else {
        Err(ApiError {
            context: String::from_str("Authorisation token failed verification."),
            message: String::from_str("the instance refused the token"),
        })
    }
}


/// What serde_qs writes for a map of the one entry `name` to `value`: the
/// encoded `name=value`, or `None` where it reports an error.
pub uninterp spec fn qs_pair_of(name: Seq<char>, value: Seq<char>) -> Option<Seq<char>>;

/// Relies on serde_qs::to_string, on a map of one entry.
#[verifier::external_body]
fn qs_pair(name: &str, value: &str) -> (r: Option<String>)
    ensures
        opt_view(r) == qs_pair_of(name@, value@),
{
    serde_qs::to_string(&std::collections::BTreeMap::from([(name, value)])).ok()
}

/// The query string of `pairs`: each pair encoded, joined by `&`, in order.
pub open spec fn query_spec(pairs: Seq<(Seq<char>, Seq<char>)>) -> Option<Seq<char>>
    decreases pairs.len(),
{
    if pairs.len() == 0 {
        Some(Seq::empty())
    } else {
        match (query_spec(pairs.drop_last()), qs_pair_of(pairs.last().0, pairs.last().1)) {
            (Some(q), Some(e)) => Some(
                if pairs.len() == 1 {
                    e
                } else {
                    q + seq!['&'] + e
                },
            ),
            _ => None,
        }
    }
}

pub fn query_string(pairs: &Vec<(String, String)>) -> (r: Option<String>)
    ensures
        opt_view(r) == query_spec(pairs_view(pairs@)),
{
    let ghost pv = pairs_view(pairs@);
    let mut acc = String::new();
    let mut i: usize = 0;
    proof {
        assert(pv.take(0) =~= Seq::<(Seq<char>, Seq<char>)>::empty());
    }
    while i < pairs.len()
        invariant
            pv == pairs_view(pairs@),
            i <= pairs@.len(),
            query_spec(pv.take(i as int)) == Some(acc@),
        decreases pairs@.len() - i,
    {
        let e = match qs_pair(pairs[i].0.as_str(), pairs[i].1.as_str()) {
            Some(e) => e,
            None => {
                proof {
                    let t = pv.take(i + 1);
                    assert(t.drop_last() =~= pv.take(i as int));
                    assert(t.last() == pv[i as int]);
                    assert(query_spec(t) is None);
                    lemma_query_none_extends(pv, i + 1);
                    assert(pv.take(pv.len() as int) =~= pv);
                }
                return None;
            },
        };
        proof {
            let t = pv.take(i + 1);
            assert(t.drop_last() =~= pv.take(i as int));
            assert(t.last() == pv[i as int]);
        }
        let ghost prev = acc@;
        if i > 0 {
            proof {
                reveal_strlit("&");
                assert("&"@ =~= seq!['&']);
            }
            acc.append("&");
        }
        acc.append(e.as_str());
        i = i + 1;
        proof {
            let t = pv.take(i as int);
            assert(query_spec(t) == Some(acc@)) by {
                if i > 1 {
                    assert(t.drop_last() =~= pv.take(i - 1));
                    assert(acc@ =~= prev + seq!['&'] + e@);
                } else {
                    assert(t.drop_last() =~= pv.take(0));
                    assert(acc@ =~= e@);
                }
            }
        }
    }
    proof {
        assert(pv.take(pv.len() as int) =~= pv);
    }
    Some(acc)
}

proof fn lemma_query_none_extends(pv: Seq<(Seq<char>, Seq<char>)>, n: int)
    requires
        0 < n <= pv.len(),
        query_spec(pv.take(n)) is None,
    ensures
        query_spec(pv.take(pv.len() as int)) is None,
    decreases pv.len() - n,
{
    if n < pv.len() {
        let t = pv.take(n + 1);
        assert(t.drop_last() =~= pv.take(n));
        lemma_query_none_extends(pv, n + 1);
    }
}

/// The authorisation page with its query.
pub open spec fn authorize_url_spec(instance: Seq<char>, query: Seq<(Seq<char>, Seq<char>)>) -> Option<Seq<char>> {
    match query_spec(query) {
        Some(q) => Some(endpoint_url_spec(instance, AUTHORIZE_PATH@) + seq!['?'] + q),
        None => None,
    }
}

pub fn authorize_url(instance: &str, query: &Vec<(String, String)>) -> (r: Option<String>)
    ensures
        opt_view(r) == authorize_url_spec(instance@, pairs_view(query@)),
{
    match query_string(query) {
        Some(q) => {
            proof {
                reveal_strlit("?");
            }
            let url = endpoint_url(instance, AUTHORIZE_PATH).concat("?").concat(q.as_str());
            assert(url@ =~= endpoint_url_spec(instance@, AUTHORIZE_PATH@) + seq!['?'] + q@);
            Some(url)
        },
        None => None,
    }
}

} // verus!
