use vstd::prelude::*;
use crate::decimal::{decimal_of, push_decimal};
use crate::error::{analyzer_kind, analyzer_message, AnalyzerError};

verus! {

/// The half of the pipeline in which a run failed.
#[derive(Clone, Copy, PartialEq, Eq, Structural)]
pub enum ErrorType {
    /// Reading the local stores failed.
    AnalysisFailed,
    /// Packaging or uploading the statistics failed.
    UploadFailed,
}

/// The one value that a run hands back to its host.
pub enum Envelope {
    Success { share_url: String, encryption_key: String, timing: String },
    Failure {
        message: String,
        timestamp: u64,
        error_type: ErrorType,
        full_error: String,
    },
}

pub open spec fn hex_digit_lower(d: int) -> char {
    "0123456789abcdef"@[d]
}

/// How a character stands inside a JSON string: quote, backslash and the
/// control characters are escaped, the short forms where JSON has them.
pub open spec fn json_escape_char(c: char) -> Seq<char> {
    if c == '"' {
        "\\\""@
    } else if c == '\\' {
        "\\\\"@
    } else if c == '\u{8}' {
        "\\b"@
    } else if c == '\t' {
        "\\t"@
    } else if c == '\n' {
        "\\n"@
    } else if c == '\u{c}' {
        "\\f"@
    } else if c == '\r' {
        "\\r"@
    } else if (c as u32) < 0x20 {
        "\\u00"@ + seq![hex_digit_lower((c as u32) as int / 16), hex_digit_lower((c as u32) as int % 16)]
    } else {
        seq![c]
    }
}

pub open spec fn json_escaped(s: Seq<char>) -> Seq<char>
    decreases s.len(),
{
    if s.len() == 0 {
        Seq::empty()
    } else {
        json_escaped(s.drop_last()) + json_escape_char(s.last())
    }
}

/// The JSON text of a string, quotes and escapes included.
pub open spec fn json_string_of(s: Seq<char>) -> Seq<char> {
    "\""@ + json_escaped(s) + "\""@
}

pub open spec fn error_type_tag(t: ErrorType) -> Seq<char> {
    match t {
        ErrorType::AnalysisFailed => "analysis_failed"@,
        ErrorType::UploadFailed => "upload_failed"@,
    }
}

/// The envelope as a JSON object, its keys in sorted order.
pub open spec fn envelope_json(e: Envelope) -> Seq<char> {
    match e {
        Envelope::Success { share_url, encryption_key, timing } =>
            "{\"data\":{\"encryptionKey\":"@ + json_string_of(encryption_key@)
                + ",\"shareUrl\":"@ + json_string_of(share_url@)
                + "},\"success\":true,\"timing\":"@ + json_string_of(timing@) + "}"@,
        Envelope::Failure { message, timestamp, error_type, full_error } =>
            "{\"error\":{\"errorType\":\""@ + error_type_tag(error_type)
                + "\",\"fullError\":"@ + json_string_of(full_error@)
                + ",\"message\":"@ + json_string_of(message@)
                + ",\"timestamp\":"@ + decimal_of(timestamp as nat)
                + "},\"success\":false}"@,
    }
}

/// Relies on `serde_json::to_string` of a `str`: a JSON string literal that
/// escapes as `json_escape_char` says, with lower-case hex digits.
#[verifier::external_body]
fn quote_json(s: &str) -> (r: String)
    ensures
        r@ == json_string_of(s@),
{
    serde_json::to_string(s).unwrap_or_default()
}

/// The envelope of a run whose reading of the local stores failed.
pub fn analysis_failed(err: &AnalyzerError, timestamp: u64) -> (r: Envelope)
    ensures
        r matches Envelope::Failure { message, timestamp: t, error_type, full_error } && {
            &&& error_type == ErrorType::AnalysisFailed
            &&& t == timestamp
            &&& message@ == "Failed to analyze messages: "@ + analyzer_message(*err)
            &&& full_error@ == analyzer_kind(*err) + ": "@ + analyzer_message(*err)
        },
{
    let mut message = "Failed to analyze messages: ".to_owned();
    let m = err.message();
    message.append(m.as_str());
    Envelope::Failure {
        message,
        timestamp,
        error_type: ErrorType::AnalysisFailed,
        full_error: err.full_description(),
    }
}

/// The envelope of a run whose packaging or upload failed.
pub fn upload_failed(err: &AnalyzerError, timestamp: u64) -> (r: Envelope)
    ensures
        r matches Envelope::Failure { message, timestamp: t, error_type, full_error } && {
            &&& error_type == ErrorType::UploadFailed
            &&& t == timestamp
            &&& message@ == "Failed to generate your Messages Wrapped: "@ + analyzer_message(*err)
            &&& full_error@ == analyzer_kind(*err) + ": "@ + analyzer_message(*err)
        },
{
    let mut message = "Failed to generate your Messages Wrapped: ".to_owned();
    let m = err.message();
    message.append(m.as_str());
    Envelope::Failure {
        message,
        timestamp,
        error_type: ErrorType::UploadFailed,
        full_error: err.full_description(),
    }
}

/// The envelope of a run that uploaded its statistics.
pub fn succeeded(share_url: String, encryption_key: String, timing: String) -> (r: Envelope)
    ensures
        r matches Envelope::Success { share_url: s, encryption_key: k, timing: t } && s@ == share_url@
            && k@ == encryption_key@ && t@ == timing@,
{
    Envelope::Success { share_url, encryption_key, timing }
}

impl Envelope {
    pub fn is_success(&self) -> (r: bool)
        ensures
            r <==> self is Success,
    {
        match self {
            Envelope::Success { .. } => true,
            Envelope::Failure { .. } => false,
        }
    }

    /// The envelope as JSON text; see `envelope_json`.
    pub fn to_json(&self) -> (r: String)
        ensures
            r@ == envelope_json(*self),
    {
        match self {
            Envelope::Success { share_url, encryption_key, timing } => {
                let mut r = "{\"data\":{\"encryptionKey\":".to_owned();
                r.append(quote_json(encryption_key.as_str()).as_str());
                r.append(",\"shareUrl\":");
                r.append(quote_json(share_url.as_str()).as_str());
                r.append("},\"success\":true,\"timing\":");
                r.append(quote_json(timing.as_str()).as_str());
                r.append("}");
                r
            },
            Envelope::Failure { message, timestamp, error_type, full_error } => {
                let mut r = "{\"error\":{\"errorType\":\"".to_owned();
                match error_type {
                    ErrorType::AnalysisFailed => r.append("analysis_failed"),
                    ErrorType::UploadFailed => r.append("upload_failed"),
                }
                r.append("\",\"fullError\":");
                r.append(quote_json(full_error.as_str()).as_str());
                r.append(",\"message\":");
                r.append(quote_json(message.as_str()).as_str());
                r.append(",\"timestamp\":");
                push_decimal(&mut r, *timestamp);
                r.append("},\"success\":false}");
                r
            },
        }
    }
}

} // verus!

verus! {

/// The JSON of a failed run opens with its error type, `analysis_failed` or
/// `upload_failed`, and closes with `"success":false`.
pub proof fn lemma_failure_json(e: Envelope)
    requires
        e is Failure,
    ensures
        ({
            let j = envelope_json(e);
            let head = "{\"error\":{\"errorType\":\""@ + error_type_tag(e->Failure_error_type);
            let tail = "},\"success\":false}"@;
            &&& j.len() >= head.len() + tail.len()
            &&& j.subrange(0, head.len() as int) == head
            &&& j.subrange(j.len() - tail.len(), j.len() as int) == tail
        }),
{
    let j = envelope_json(e);
    let head = "{\"error\":{\"errorType\":\""@ + error_type_tag(e->Failure_error_type);
    let tail = "},\"success\":false}"@;
    let mid = "\",\"fullError\":"@ + json_string_of(e->Failure_full_error@)
        + ",\"message\":"@ + json_string_of(e->Failure_message@)
        + ",\"timestamp\":"@ + decimal_of(e->Failure_timestamp as nat);
    assert(j =~= head + mid + tail);
    assert(j.subrange(0, head.len() as int) =~= head);
    assert(j.subrange(j.len() - tail.len(), j.len() as int) =~= tail);
}

/// The JSON of a run that succeeded holds the key, then the share link, then
/// `"success":true`.
pub proof fn lemma_success_json(e: Envelope)
    requires
        e is Success,
    ensures
        ({
            let j = envelope_json(e);
            let head = "{\"data\":{\"encryptionKey\":"@ + json_string_of(e->Success_encryption_key@)
                + ",\"shareUrl\":"@ + json_string_of(e->Success_share_url@);
            let mark = "},\"success\":true,\"timing\":"@;
            &&& j.len() >= head.len() + mark.len()
            &&& j.subrange(0, head.len() as int) == head
            &&& j.subrange(head.len() as int, (head.len() + mark.len()) as int) == mark
        }),
{
    let j = envelope_json(e);
    let head = "{\"data\":{\"encryptionKey\":"@ + json_string_of(e->Success_encryption_key@)
        + ",\"shareUrl\":"@ + json_string_of(e->Success_share_url@);
    let mark = "},\"success\":true,\"timing\":"@;
    let rest = json_string_of(e->Success_timing@) + "}"@;
    assert(j =~= head + mark + rest);
    assert(j.subrange(0, head.len() as int) =~= head);
    assert(j.subrange(head.len() as int, (head.len() + mark.len()) as int) =~= mark);
}

} // verus!
