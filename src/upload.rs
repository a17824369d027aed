use vstd::prelude::*;
use base64::Engine;
use crate::decimal::{decimal_of, push_decimal};

verus! {

/// How an upload failed.
pub enum NetworkError {
    /// The request did not finish within the timeout.
    Timeout { url: String },
    /// No connection to the server could be made.
    ConnectionFailed { url: String },
    /// The request failed in another way before a response came.
    Transport { url: String, detail: String },
    /// The server answered with a status outside 200 to 299.
    HttpStatus { code: u16, body: String },
    /// The server's answer was not JSON.
    MalformedResponse,
}

/// The service that receives uploads unless the host names another.
pub const DEFAULT_API_URL: &'static str = "https://messageswrapped.com";

/// Seconds that an upload may take before it counts as timed out.
pub const UPLOAD_TIMEOUT_SECS: u64 = 30;

/// Media type of the uploaded body.
pub const CONTENT_TYPE: &'static str = "application/octet-stream";

/// What `serde_json` finds in `text`: `None` if it is not JSON, else the
/// string held under the top-level key `id`, if there is one.
pub uninterp spec fn json_id_of(text: Seq<char>) -> Option<Option<Seq<char>>>;

/// The canonical reason phrase of an HTTP status code, if it has one.
pub uninterp spec fn status_reason_of(code: u16) -> Option<Seq<char>>;

/// A digit of URL-safe base64, for a value below 64.
pub open spec fn base64_url_digit(v: int) -> char {
    "ABCDEFGHIJKLMNOPQRSTUVWXYZabcdefghijklmnopqrstuvwxyz0123456789-_"@[v]
}

/// The URL-safe, padded base64 text of `bytes`: four digits for each group of
/// three bytes, and `=` to fill the last group.
pub open spec fn base64_url_of(bytes: Seq<u8>) -> Seq<char>
    decreases bytes.len(),
{
    if bytes.len() == 0 {
        Seq::empty()
    } else if bytes.len() == 1 {
        let b0 = bytes[0] as int;
        seq![base64_url_digit(b0 / 4), base64_url_digit((b0 % 4) * 16), '=', '=']
    } else if bytes.len() == 2 {
        let b0 = bytes[0] as int;
        let b1 = bytes[1] as int;
        seq![
            base64_url_digit(b0 / 4),
            base64_url_digit((b0 % 4) * 16 + b1 / 16),
            base64_url_digit((b1 % 16) * 4),
            '=',
        ]
    } else {
        let b0 = bytes[0] as int;
        let b1 = bytes[1] as int;
        let b2 = bytes[2] as int;
        seq![
            base64_url_digit(b0 / 4),
            base64_url_digit((b0 % 4) * 16 + b1 / 16),
            base64_url_digit((b1 % 16) * 4 + b2 / 64),
            base64_url_digit(b2 % 64),
        ] + base64_url_of(bytes.subrange(3, bytes.len() as int))
    }
}

pub open spec fn opt_view(o: Option<String>) -> Option<Seq<char>> {
    match o {
        Some(s) => Some(s@),
        None => None,
    }
}

pub open spec fn opt_str_view(o: Option<&str>) -> Option<Seq<char>> {
    match o {
        Some(s) => Some(s@),
        None => None,
    }
}

pub open spec fn upload_url_of(base: Seq<char>) -> Seq<char> {
    base + "/api/upload"@
}

/// The share link: the key travels only in the fragment, which is never sent
/// to the server.
pub open spec fn share_url_of(base: Seq<char>, id: Seq<char>, key_text: Seq<char>) -> Seq<char> {
    base + "/s/"@ + id + "#"@ + key_text
}

pub open spec fn is_success_status(code: u16) -> bool {
    200 <= code < 300
}

/// The server's body as the error reports it.
pub open spec fn body_shown(body: Seq<char>) -> Seq<char> {
    if body.len() == 0 { "No error details provided"@ } else { body }
}

pub open spec fn reason_shown(code: u16) -> Seq<char> {
    match status_reason_of(code) {
        Some(r) => " "@ + r,
        None => Seq::empty(),
    }
}

pub open spec fn network_message(e: NetworkError) -> Seq<char> {
    match e {
        NetworkError::Timeout { url } => "Request timed out while uploading to "@ + url@,
        NetworkError::ConnectionFailed { url } =>
            "Failed to connect to "@ + url@ + ". Please check your internet connection"@,
        NetworkError::Transport { url, detail } =>
            "Upload failed: "@ + detail@ + " (URL: "@ + url@ + ")"@,
        NetworkError::HttpStatus { code, body } =>
            "Upload failed with status "@ + decimal_of(code as nat) + reason_shown(code)
                + ". Server response: "@ + body_shown(body@),
        NetworkError::MalformedResponse => "The server's response was not valid JSON"@,
    }
}

/// No base64 digit is a `#`.
proof fn lemma_digit_not_hash(v: int)
    requires
        0 <= v < 64,
    ensures
        base64_url_digit(v) != '#',
{
    reveal_strlit("ABCDEFGHIJKLMNOPQRSTUVWXYZabcdefghijklmnopqrstuvwxyz0123456789-_");
}

/// The text of a key holds no `#`, so in a share link the fragment that
/// carries the key starts at the last `#`, and the identifier cannot absorb it.
pub proof fn lemma_key_text_has_no_hash(bytes: Seq<u8>)
    ensures
        forall|i: int| 0 <= i < base64_url_of(bytes).len() ==> base64_url_of(bytes)[i] != '#',
    decreases bytes.len(),
{
    let r = base64_url_of(bytes);
    if bytes.len() == 0 {
    } else {
        let b0 = bytes[0] as int;
        lemma_digit_not_hash(b0 / 4);
        lemma_digit_not_hash((b0 % 4) * 16);
        if bytes.len() == 1 {
            assert forall|i: int| 0 <= i < r.len() implies r[i] != '#' by {
                assert(r.len() == 4);
            }
        } else {
            let b1 = bytes[1] as int;
            lemma_digit_not_hash((b0 % 4) * 16 + b1 / 16);
            lemma_digit_not_hash((b1 % 16) * 4);
            if bytes.len() == 2 {
                assert forall|i: int| 0 <= i < r.len() implies r[i] != '#' by {
                    assert(r.len() == 4);
                }
            } else {
                let b2 = bytes[2] as int;
                lemma_digit_not_hash((b1 % 16) * 4 + b2 / 64);
                lemma_digit_not_hash(b2 % 64);
                let rest_bytes = bytes.subrange(3, bytes.len() as int);
                lemma_key_text_has_no_hash(rest_bytes);
                let head = seq![
                    base64_url_digit(b0 / 4),
                    base64_url_digit((b0 % 4) * 16 + b1 / 16),
                    base64_url_digit((b1 % 16) * 4 + b2 / 64),
                    base64_url_digit(b2 % 64),
                ];
                let rest = base64_url_of(rest_bytes);
                assert(r == head + rest);
                assert forall|i: int| 0 <= i < r.len() implies r[i] != '#' by {
                    if i >= 4 {
                        assert(r[i] == rest[i - 4]);
                    }
                }
            }
        }
    }
}

/// Relies on `serde_json::from_str` into a `Value`, and on indexing it by `"id"`
/// and `Value::as_str`.
#[verifier::external_body]
fn parse_id(text: &str) -> (r: Option<Option<String>>)
    ensures
        match r {
            None => json_id_of(text@) is None,
            Some(id) => json_id_of(text@) == Some(opt_view(id)),
        },
{
    serde_json::from_str::<serde_json::Value>(text).ok().map(|v| v["id"].as_str().map(|s| s.to_owned()))
}

/// Relies on `StatusCode::canonical_reason` of reqwest (from the http crate).
#[verifier::external_body]
fn canonical_reason(code: u16) -> (r: Option<&'static str>)
    ensures
        opt_str_view(r) == status_reason_of(code),
{
    reqwest::StatusCode::from_u16(code).ok().and_then(|s| s.canonical_reason())
}

/// Relies on base64's `URL_SAFE` engine: padded output of four characters for
/// each started group of three bytes.
#[verifier::external_body]
fn encode_base64_url(bytes: &[u8]) -> (r: String)
    requires
        bytes@.len() <= 0x1_0000_0000,
    ensures
        r@ == base64_url_of(bytes@),
        r@.len() == 4 * ((bytes@.len() + 2) / 3),
{
    base64::engine::general_purpose::URL_SAFE.encode(bytes)
}

/// The endpoint that receives the ciphertext.
pub fn upload_url(base: &str) -> (r: String)
    ensures
        r@ == upload_url_of(base@),
{
    let mut r = base.to_owned();
    r.append("/api/upload");
    r
}

/// Names a failure that came before any response; a timeout wins over a
/// failed connection.
pub fn classify_send_failure(is_timeout: bool, is_connect: bool, url: String, detail: String) -> (r: NetworkError)
    ensures
        is_timeout ==> (r matches NetworkError::Timeout { url: u } && u@ == url@),
        !is_timeout && is_connect ==> (r matches NetworkError::ConnectionFailed { url: u }
            && u@ == url@),
        !is_timeout && !is_connect ==> (r matches NetworkError::Transport { url: u, detail: d }
            && u@ == url@ && d@ == detail@),
{
    if is_timeout {
        NetworkError::Timeout { url }
    } else if is_connect {
        NetworkError::ConnectionFailed { url }
    } else {
        NetworkError::Transport { url, detail }
    }
}

/// Accepts a status from 200 to 299; any other keeps the code and the body.
pub fn check_status(code: u16, body: String) -> (r: Result<(), NetworkError>)
    ensures
        r is Ok <==> is_success_status(code),
        r is Err ==> (r matches Err(NetworkError::HttpStatus { code: c, body: b }) && c == code
            && b@ == body@),
{
    if 200 <= code && code < 300 {
        Ok(())
    } else {
        Err(NetworkError::HttpStatus { code, body })
    }
}

/// The identifier that the server assigned: the string under `id` in its JSON
/// answer, or empty where there is none.
pub fn server_id(text: &str) -> (r: Result<String, NetworkError>)
    ensures
        r is Err <==> json_id_of(text@) is None,
        r is Err ==> r matches Err(NetworkError::MalformedResponse),
        r matches Ok(id) ==> match json_id_of(text@) {
            Some(Some(s)) => id@ == s,
            _ => id@.len() == 0,
        },
{
    match parse_id(text) {
        None => Err(NetworkError::MalformedResponse),
        Some(Some(id)) => Ok(id),
        Some(None) => Ok(String::new()),
    }
}

/// The key as it stands in a share link.
pub fn encode_key(key: &[u8]) -> (r: String)
    requires
        key@.len() <= 0x1_0000_0000,
    ensures
        r@ == base64_url_of(key@),
        r@.len() == 4 * ((key@.len() + 2) / 3),
{
    encode_base64_url(key)
}

/// The link to share: `{base}/s/{id}#{key_text}`.
pub fn share_url(base: &str, id: &str, key_text: &str) -> (r: String)
    ensures
        r@ == share_url_of(base@, id@, key_text@),
{
    let mut r = base.to_owned();
    r.append("/s/");
    r.append(id);
    r.append("#");
    r.append(key_text);
    r
}

/// Reads the server's answer to an upload: its status code and its body.
/// Returns the share link and the key's text.
pub fn finish_upload(base: &str, key: &[u8], code: u16, body: String) -> (r: Result<(String, String), NetworkError>)
    requires
        key@.len() <= 0x1_0000_0000,
    ensures
        !is_success_status(code) ==> (r matches Err(NetworkError::HttpStatus { code: c, body: b })
            && c == code && b@ == body@),
        is_success_status(code) && json_id_of(body@) is None ==> r matches Err(
            NetworkError::MalformedResponse,
        ),
        is_success_status(code) && json_id_of(body@) is Some ==> (r matches Ok((link, key_text)) && {
            let id = match json_id_of(body@) {
                Some(Some(s)) => s,
                _ => Seq::empty(),
            };
            &&& key_text@ == base64_url_of(key@)
            &&& key_text@.len() == 4 * ((key@.len() + 2) / 3)
            &&& link@ == share_url_of(base@, id, base64_url_of(key@))
        }),
{
    let text = body.clone();
    match check_status(code, body) {
        Err(e) => return Err(e),
        Ok(()) => {},
    }
    let id = match server_id(text.as_str()) {
        Err(e) => return Err(e),
        Ok(id) => id,
    };
    let key_text = encode_key(key);
    let link = share_url(base, id.as_str(), key_text.as_str());
    Ok((link, key_text))
}

impl NetworkError {
    /// A sentence for the user; see `network_message`.
    pub fn message(&self) -> (r: String)
        ensures
            r@ == network_message(*self),
    {
        match self {
            NetworkError::Timeout { url } => {
                let mut r = "Request timed out while uploading to ".to_owned();
                r.append(url.as_str());
                r
            },
            NetworkError::ConnectionFailed { url } => {
                let mut r = "Failed to connect to ".to_owned();
                r.append(url.as_str());
                r.append(". Please check your internet connection");
                r
            },
            NetworkError::Transport { url, detail } => {
                let mut r = "Upload failed: ".to_owned();
                r.append(detail.as_str());
                r.append(" (URL: ");
                r.append(url.as_str());
                r.append(")");
                r
            },
            NetworkError::HttpStatus { code, body } => {
                let mut r = "Upload failed with status ".to_owned();
                push_decimal(&mut r, *code as u64);
                match canonical_reason(*code) {
                    Some(reason) => {
                        r.append(" ");
                        r.append(reason);
                    },
                    None => {},
                }
                r.append(". Server response: ");
                if body.as_str().is_empty() {
                    r.append("No error details provided");
                } else {
                    r.append(body.as_str());
                }
                r
            },
            NetworkError::MalformedResponse => "The server's response was not valid JSON".to_owned(),
        }
    }
}

} // verus!
