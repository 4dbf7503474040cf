//! Device-flow client for the upstream authorization server: the types of
//! the two upstream exchanges, verified encoding of the request bodies, and
//! trusted parsing of the response bodies.
//!
//! Transport (the HTTP calls themselves) stays outside the library; the
//! functions here go from plain values to plain values.

use vstd::prelude::*;

verus! {

/// Successful payload of the device-code issuance request, exactly as the
/// upstream answers it on HTTP 200.
pub struct GithubStartAuth {
    pub device_code: String,
    pub user_code: String,
    pub verification_uri: String,
    pub expires_in: i32,
    pub interval: i32,
}

/// Mathematical image of `GithubStartAuth`.
pub ghost struct StartAuthModel {
    pub device_code: Seq<char>,
    pub user_code: Seq<char>,
    pub verification_uri: Seq<char>,
    pub expires_in: int,
    pub interval: int,
}

impl View for GithubStartAuth {
    type V = StartAuthModel;

    open spec fn view(&self) -> StartAuthModel {
        StartAuthModel {
            device_code: self.device_code@,
            user_code: self.user_code@,
            verification_uri: self.verification_uri@,
            expires_in: self.expires_in as int,
            interval: self.interval as int,
        }
    }
}

pub open spec fn opt_start_model(o: Option<GithubStartAuth>) -> Option<StartAuthModel> {
    match o {
        Some(g) => Some(g@),
        None => None,
    }
}

/// The fields of a token-polling response that the flow inspects. The
/// upstream encodes flow state in the body, not in the HTTP status: a token
/// on success, an `error` code while the flow is still open, and on
/// `slow_down` possibly a new interval hint.
pub struct PollPayload {
    pub access_token: Option<String>,
    pub error: Option<String>,
    pub interval: Option<i32>,
}

/// Mathematical image of `PollPayload`.
pub ghost struct PayloadModel {
    pub access_token: Option<Seq<char>>,
    pub error: Option<Seq<char>>,
    pub interval: Option<int>,
}

pub open spec fn opt_str_view(o: Option<String>) -> Option<Seq<char>> {
    match o {
        Some(s) => Some(s@),
        None => None,
    }
}

impl View for PollPayload {
    type V = PayloadModel;

    open spec fn view(&self) -> PayloadModel {
        PayloadModel {
            access_token: opt_str_view(self.access_token),
            error: opt_str_view(self.error),
            interval: match self.interval {
                Some(n) => Some(n as int),
                None => None,
            },
        }
    }
}

/// What a device-code issuance body parses to: `Some` exactly when the text
/// is a JSON object carrying all five expected fields with their expected
/// types.
pub uninterp spec fn start_auth_of(body: Seq<char>) -> Option<StartAuthModel>;

/// Relies on `serde_json::from_str` and the `serde_json::Value` accessors
/// `get`, `as_str` and `as_i64`: what a given text parses to depends on the
/// text alone.
#[verifier::external_body]
pub(crate) fn parse_start_auth(body: &str) -> (r: Option<GithubStartAuth>)
    ensures
        opt_start_model(r) == start_auth_of(body@),
{
    let v: serde_json::Value = serde_json::from_str(body).ok()?;
    Some(GithubStartAuth {
        device_code: v.get("device_code")?.as_str()?.to_owned(),
        user_code: v.get("user_code")?.as_str()?.to_owned(),
        verification_uri: v.get("verification_uri")?.as_str()?.to_owned(),
        expires_in: v.get("expires_in")?.as_i64()?.try_into().ok()?,
        interval: v.get("interval")?.as_i64()?.try_into().ok()?,
    })
}

/// What a token-polling body parses to. Text that is not a JSON object, or
/// an object without the inspected fields, yields a payload of `None`s.
pub uninterp spec fn poll_payload_of(body: Seq<char>) -> PayloadModel;

/// Relies on `serde_json::from_str` and the `serde_json::Value` accessors
/// `get`, `as_str` and `as_i64`: what a given text parses to depends on the
/// text alone.
#[verifier::external_body]
pub(crate) fn parse_poll_payload(body: &str) -> (r: PollPayload)
    ensures
        r@ == poll_payload_of(body@),
{
    let v: serde_json::Value = match serde_json::from_str(body) {
        Ok(v) => v,
        Err(_) => serde_json::Value::Null,
    };
    PollPayload {
        access_token: v.get("access_token").and_then(|t| t.as_str()).map(|s| s.to_owned()),
        error: v.get("error").and_then(|t| t.as_str()).map(|s| s.to_owned()),
        interval: v.get("interval").and_then(|t| t.as_i64()).and_then(|n| n.try_into().ok()),
    }
}

/// Hexadecimal digit for a value below 16.
pub open spec fn low_hex_digit(n: int) -> char {
    if n == 0 { '0' }
    else if n == 1 { '1' }
    else if n == 2 { '2' }
    else if n == 3 { '3' }
    else if n == 4 { '4' }
    else if n == 5 { '5' }
    else if n == 6 { '6' }
    else if n == 7 { '7' }
    else if n == 8 { '8' }
    else if n == 9 { '9' }
    else if n == 10 { 'a' }
    else if n == 11 { 'b' }
    else if n == 12 { 'c' }
    else if n == 13 { 'd' }
    else if n == 14 { 'e' }
    else { 'f' }
}

/// How one character appears inside a JSON string literal: quote and
/// backslash get a backslash escape, control characters a `\u00..` escape,
/// every other character stands as itself.
pub open spec fn escaped_char(c: char) -> Seq<char> {
    if c == '"' {
        seq!['\\', '"']
    } else if c == '\\' {
        seq!['\\', '\\']
    } else if (c as u32) < 32 {
        seq!['\\', 'u', '0', '0', if (c as u32) >= 16 { '1' } else { '0' },
            low_hex_digit(((c as u32) % 16) as int)]
    } else {
        seq![c]
    }
}

/// The JSON string-literal encoding of a text, without the surrounding
/// quotes.
pub open spec fn json_escaped(s: Seq<char>) -> Seq<char>
    decreases s.len(),
{
    if s.len() == 0 {
        Seq::empty()
    } else {
        json_escaped(s.drop_last()) + escaped_char(s.last())
    }
}

fn append_low_hex(out: &mut String, n: u32)
    requires
        n < 16,
    ensures
        final(out)@ == old(out)@ + seq![low_hex_digit(n as int)],
{
    if n == 0 { out.append("0"); proof { reveal_strlit("0"); assert("0"@ =~= seq![low_hex_digit(n as int)]); } }
    else if n == 1 { out.append("1"); proof { reveal_strlit("1"); assert("1"@ =~= seq![low_hex_digit(n as int)]); } }
    else if n == 2 { out.append("2"); proof { reveal_strlit("2"); assert("2"@ =~= seq![low_hex_digit(n as int)]); } }
    else if n == 3 { out.append("3"); proof { reveal_strlit("3"); assert("3"@ =~= seq![low_hex_digit(n as int)]); } }
    else if n == 4 { out.append("4"); proof { reveal_strlit("4"); assert("4"@ =~= seq![low_hex_digit(n as int)]); } }
    else if n == 5 { out.append("5"); proof { reveal_strlit("5"); assert("5"@ =~= seq![low_hex_digit(n as int)]); } }
    else if n == 6 { out.append("6"); proof { reveal_strlit("6"); assert("6"@ =~= seq![low_hex_digit(n as int)]); } }
    else if n == 7 { out.append("7"); proof { reveal_strlit("7"); assert("7"@ =~= seq![low_hex_digit(n as int)]); } }
    else if n == 8 { out.append("8"); proof { reveal_strlit("8"); assert("8"@ =~= seq![low_hex_digit(n as int)]); } }
    else if n == 9 { out.append("9"); proof { reveal_strlit("9"); assert("9"@ =~= seq![low_hex_digit(n as int)]); } }
    else if n == 10 { out.append("a"); proof { reveal_strlit("a"); assert("a"@ =~= seq![low_hex_digit(n as int)]); } }
    else if n == 11 { out.append("b"); proof { reveal_strlit("b"); assert("b"@ =~= seq![low_hex_digit(n as int)]); } }
    else if n == 12 { out.append("c"); proof { reveal_strlit("c"); assert("c"@ =~= seq![low_hex_digit(n as int)]); } }
    else if n == 13 { out.append("d"); proof { reveal_strlit("d"); assert("d"@ =~= seq![low_hex_digit(n as int)]); } }
    else if n == 14 { out.append("e"); proof { reveal_strlit("e"); assert("e"@ =~= seq![low_hex_digit(n as int)]); } }
    else { out.append("f"); proof { reveal_strlit("f"); assert("f"@ =~= seq![low_hex_digit(n as int)]); } }
}

fn append_json_escaped(out: &mut String, s: &str)
    ensures
        final(out)@ == old(out)@ + json_escaped(s@),
{
    let ghost orig: Seq<char> = out@;
    let n = s.unicode_len();
    let mut i: usize = 0;
    while i < n
        invariant
            n == s@.len(),
            i <= n,
            out@ == orig + json_escaped(s@.take(i as int)),
        decreases n - i,
    {
        let c = s.get_char(i);
        if c == '"' {
            out.append("\\\"");
            proof {
                reveal_strlit("\\\"");
                assert("\\\""@ =~= escaped_char(c));
            }
        } else if c == '\\' {
            out.append("\\\\");
            proof {
                reveal_strlit("\\\\");
                assert("\\\\"@ =~= escaped_char(c));
            }
        } else if (c as u32) < 32 {
            let ghost mid: Seq<char> = out@;
            if (c as u32) >= 16 {
                out.append("\\u001");
                proof { reveal_strlit("\\u001"); }
            } else {
                out.append("\\u000");
                proof { reveal_strlit("\\u000"); }
            }
            append_low_hex(out, (c as u32) % 16);
            proof {
                assert(out@ =~= mid + escaped_char(c));
            }
        } else {
            let piece = s.substring_char(i, i + 1);
            out.append(piece);
            proof {
                assert(piece@ =~= seq![s@[i as int]]);
                assert(piece@ =~= escaped_char(c));
            }
        }
        proof {
            assert(s@.take((i + 1) as int).drop_last() =~= s@.take(i as int));
            assert(s@.take((i + 1) as int).last() == s@[i as int]);
            assert(json_escaped(s@.take((i + 1) as int))
                == json_escaped(s@.take(i as int)) + escaped_char(s@[i as int]));
        }
        i += 1;
    }
    proof {
        assert(s@.take(n as int) =~= s@);
    }
}

/// JSON body of the device-code issuance request.
pub open spec fn start_body_spec(client_id: Seq<char>) -> Seq<char> {
    "{\"client_id\":\""@ + json_escaped(client_id) + "\"}"@
}

/// JSON body of the token-polling request; the grant type is the fixed
/// device-code grant.
pub open spec fn poll_body_spec(client_id: Seq<char>, device_code: Seq<char>) -> Seq<char> {
    "{\"client_id\":\""@ + json_escaped(client_id) + "\",\"device_code\":\""@
        + json_escaped(device_code)
        + "\",\"grant_type\":\"urn:ietf:params:oauth:grant-type:device_code\"}"@
}

pub fn encode_start_body(client_id: &str) -> (r: String)
    ensures
        r@ == start_body_spec(client_id@),
{
    let mut out = "{\"client_id\":\"".to_owned();
    append_json_escaped(&mut out, client_id);
    out.append("\"}");
    proof {
        assert(out@ =~= start_body_spec(client_id@));
    }
    out
}

pub fn encode_poll_body(client_id: &str, device_code: &str) -> (r: String)
    ensures
        r@ == poll_body_spec(client_id@, device_code@),
{
    let mut out = "{\"client_id\":\"".to_owned();
    append_json_escaped(&mut out, client_id);
    out.append("\",\"device_code\":\"");
    append_json_escaped(&mut out, device_code);
    out.append("\",\"grant_type\":\"urn:ietf:params:oauth:grant-type:device_code\"}");
    proof {
        assert(out@ =~= poll_body_spec(client_id@, device_code@));
    }
    out
}

/// Mathematical image of the client's credential configuration.
pub ghost struct ClientModel {
    pub client_id: Seq<char>,
    pub client_secret: Seq<char>,
}

/// The device-flow client's configuration: the credential pair is injected
/// at construction and never changes.
pub struct GithubClient {
    client_id: String,
    client_secret: String,
}

impl View for GithubClient {
    type V = ClientModel;

    closed spec fn view(&self) -> ClientModel {
        ClientModel { client_id: self.client_id@, client_secret: self.client_secret@ }
    }
}

impl GithubClient {
    pub fn new(client_id: String, client_secret: String) -> (r: GithubClient)
        ensures
            r@.client_id == client_id@,
            r@.client_secret == client_secret@,
    {
        GithubClient { client_id, client_secret }
    }

    pub fn client_id(&self) -> (r: &str)
        ensures
            r@ == self@.client_id,
    {
        self.client_id.as_str()
    }

    pub fn client_secret(&self) -> (r: &str)
        ensures
            r@ == self@.client_secret,
    {
        self.client_secret.as_str()
    }

    /// Body of this client's device-code issuance request.
    pub fn start_auth_body(&self) -> (r: String)
        ensures
            r@ == start_body_spec(self@.client_id),
    {
        encode_start_body(self.client_id.as_str())
    }

    /// Body of this client's token-polling request for a device code.
    pub fn poll_body(&self, device_code: &str) -> (r: String)
        ensures
            r@ == poll_body_spec(self@.client_id, device_code@),
    {
        encode_poll_body(self.client_id.as_str(), device_code)
    }
}

} // verus!
