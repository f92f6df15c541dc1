//! The outcome of asking the upstream for its models: why it failed, and what is said
//! of it.
use crate::text;
use vstd::prelude::*;
use vstd::string::*;

verus! {

/// The errors of `reqwest`. Nothing inside one is visible.
#[verifier::external_type_specification]
#[verifier::external_body]
pub struct ExError(reqwest::Error);

/// What `reqwest::Error::is_timeout` says of an error.
pub uninterp spec fn timed_out(e: reqwest::Error) -> bool;

/// What `reqwest::Error::is_connect` says of an error.
pub uninterp spec fn connect_failed(e: reqwest::Error) -> bool;

/// The text that an error of `reqwest` displays.
pub uninterp spec fn displayed(e: reqwest::Error) -> Seq<char>;

/// `reqwest::Error::is_timeout` looks through the error and its sources for a time
/// limit that ran out; the answer is a property of the error alone.
pub assume_specification[ reqwest::Error::is_timeout ](e: &reqwest::Error) -> (r: bool)
    ensures
        r == timed_out(*e),
;

/// `reqwest::Error::is_connect` looks through the sources of the error for a failed
/// connection; the answer is a property of the error alone.
pub assume_specification[ reqwest::Error::is_connect ](e: &reqwest::Error) -> (r: bool)
    ensures
        r == connect_failed(*e),
;

/// The text of an error of `reqwest`, by its `Display`: its kind and its address, which
/// are properties of the error alone.
#[verifier::external_body]
fn error_text(e: &reqwest::Error) -> (r: String)
    ensures
        r@ == displayed(*e),
{
    e.to_string()
}

/// Why a probe failed.
#[derive(Debug)]
pub enum ProbeError {
    Timeout,
    Connect,
    Other(String),
}

/// What a failed probe is called.
pub open spec fn probe_words(e: ProbeError) -> Seq<char> {
    match e {
        ProbeError::Timeout => "超时（10 s）"@,
        ProbeError::Connect => "连接失败（不可达 / 拒绝）"@,
        ProbeError::Other(words) => words@,
    }
}

/// The outcome of a probe.
pub open spec fn probe_line(
    outcome: Result<u16, ProbeError>,
    elapsed_ms: nat,
    url: Seq<char>,
) -> Seq<char> {
    let head = match outcome {
        Ok(status) => "HTTP "@ + text::decimal(status as nat),
        Err(e) => "失败："@ + probe_words(e),
    };
    head + " · "@ + text::decimal(elapsed_ms) + " ms（"@ + url + "）"@
}

/// The outcome of a probe as a text.
pub fn probe_text(outcome: Result<u16, ProbeError>, elapsed_ms: u128, url: &str) -> (r: String)
    ensures
        r@ == probe_line(outcome, elapsed_ms as nat, url@),
{
    let mut out = match outcome {
        Ok(status) => {
            let mut head = "HTTP ".to_owned();
            text::push_decimal(&mut head, status as u128);
            head
        },
        Err(e) => {
            let mut head = "失败：".to_owned();
            match e {
                ProbeError::Timeout => head.append("超时（10 s）"),
                ProbeError::Connect => head.append("连接失败（不可达 / 拒绝）"),
                ProbeError::Other(words) => head.append(words.as_str()),
            }
            head
        },
    };
    out.append(" · ");
    text::push_decimal(&mut out, elapsed_ms);
    out.append(" ms（");
    out.append(url);
    out.append("）");
    out
}

/// Why a probe failed, given what is known of its error: a time limit comes before a
/// failed connection.
pub fn classified(timeout: bool, connect: bool, words: String) -> (r: ProbeError)
    ensures
        r == if timeout {
            ProbeError::Timeout
        } else if connect {
            ProbeError::Connect
        } else {
            ProbeError::Other(words)
        },
{
    if timeout {
        ProbeError::Timeout
    } else if connect {
        ProbeError::Connect
    } else {
        ProbeError::Other(words)
    }
}

/// Why a probe failed with an error of `reqwest`.
pub fn probe_error(e: &reqwest::Error) -> (r: ProbeError)
    ensures
        match r {
            ProbeError::Timeout => timed_out(*e),
            ProbeError::Connect => !timed_out(*e) && connect_failed(*e),
            ProbeError::Other(words) => !timed_out(*e) && !connect_failed(*e) && words@
                == displayed(*e),
        },
{
    classified(e.is_timeout(), e.is_connect(), error_text(e))
}

} // verus!
