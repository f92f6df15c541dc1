//! What the user interface reads of the proxy service: its state, its counters
//! and its configuration, as plain values.
use crate::text;
use vstd::prelude::*;
use vstd::string::*;

verus! {

/// What the service is doing.
#[derive(Clone, Copy, PartialEq, Eq, Structural, Debug)]
pub enum Phase {
    Stopped,
    Starting,
    Running,
    Error,
}

/// How far the last change of the configuration has come.
#[derive(Clone, Copy, PartialEq, Eq, Structural, Debug)]
pub enum ApplyStage {
    Idle,
    Started,
    Applied,
    Failed,
}

/// One second of the traffic window. A second without a sample has no rates.
#[derive(Clone, Copy, Debug)]
pub struct SeriesPoint {
    pub latency_p50_ms: Option<u64>,
    pub latency_overflow: bool,
    pub bytes_in_per_sec: Option<u64>,
    pub bytes_out_per_sec: Option<u64>,
    pub requests: u64,
}

/// The counters since the start.
#[derive(Clone, Copy, Debug)]
pub struct Snapshot {
    pub active: i64,
    pub bytes_in: u64,
    pub bytes_out: u64,
    pub upstream_errors: u64,
    pub upstream_timeouts: u64,
    pub stream_errors: u64,
    pub upstream_4xx: u64,
    pub upstream_5xx: u64,
}

/// The counters of the recent window.
#[derive(Debug)]
pub struct WindowSnapshot {
    /// The length of the window.
    pub secs: u64,
    pub requests: u64,
    pub preflight: u64,
    pub errors: u64,
    /// The median and the 95th percentile of the upstream latency, if sampled.
    pub latency: Option<(String, String)>,
    /// Whether the window has neither requests nor latency samples.
    pub idle: bool,
}

/// The latency reading of a window.
pub open spec fn latency_label(w: WindowSnapshot) -> Seq<char> {
    let span = "（近 "@ + text::decimal(w.secs as nat);
    match w.latency {
        Some((p50, p95)) => "p50 "@ + p50@ + " / p95 "@ + p95@ + span + " s）"@,
        None => "—"@ + span + " s 无样本）"@,
    }
}

impl WindowSnapshot {
    /// The latency reading of the window.
    pub fn latency_text(&self) -> (r: String)
        ensures
            r@ == latency_label(*self),
    {
        let mut out = String::new();
        match &self.latency {
            Some((p50, p95)) => {
                out.append("p50 ");
                out.append(p50.as_str());
                out.append(" / p95 ");
                out.append(p95.as_str());
                out.append("（近 ");
                text::push_decimal(&mut out, self.secs as u128);
                out.append(" s）");
                assert(out@ =~= latency_label(*self));
            },
            None => {
                out.append("—");
                out.append("（近 ");
                text::push_decimal(&mut out, self.secs as u128);
                out.append(" s 无样本）");
                assert(out@ =~= latency_label(*self));
            },
        }
        out
    }
}

/// The state of the service.
#[derive(Debug)]
pub struct Status {
    pub phase: Phase,
    /// Whether the service listens on a fallback port.
    pub degraded: bool,
    pub degrade_note: Option<String>,
    pub listen_addr: Option<String>,
    pub base_url: Option<String>,
    pub requested_port: u16,
    /// The upstream address without its trailing slash.
    pub upstream: String,
    pub last_error: Option<String>,
    /// How many seconds the service has been running.
    pub uptime_secs: Option<u64>,
    /// Counts the changes of the configuration.
    pub apply_seq: u64,
    pub apply_stage: ApplyStage,
    pub apply_message: Option<String>,
    /// What closing the main window does: `exit` or hide it.
    pub close_action: String,
}

/// What is said of the system.
pub open spec fn os_words(os: Option<(Seq<char>, Seq<char>, bool)>) -> Seq<char> {
    match os {
        Some((name, version, dark)) => name + " "@ + version + "（深色标题栏："@ + if dark {
            "启用"@
        } else {
            "按版本闸跳过"@
        } + "）"@,
        None => "未知（RtlGetVersion 不可用）"@,
    }
}

/// The system that the program runs on.
#[derive(Debug)]
pub struct OsInfo {
    pub name: String,
    pub version: String,
    /// Whether the title bar can be dark.
    pub dark_title_bar: bool,
}

/// A system as its words.
pub open spec fn os_view(os: Option<OsInfo>) -> Option<(Seq<char>, Seq<char>, bool)> {
    match os {
        Some(info) => Some((info.name@, info.version@, info.dark_title_bar)),
        None => None,
    }
}

/// What is said of the system.
pub fn os_line(os: &Option<OsInfo>) -> (r: String)
    ensures
        r@ == os_words(os_view(*os)),
{
    let mut out = String::new();
    match os {
        Some(info) => {
            out.append(info.name.as_str());
            out.append(" ");
            out.append(info.version.as_str());
            out.append("（深色标题栏：");
            if info.dark_title_bar {
                out.append("启用");
            } else {
                out.append("按版本闸跳过");
            }
            out.append("）");
        },
        None => out.append("未知（RtlGetVersion 不可用）"),
    }
    assert(out@ =~= os_words(os_view(*os)));
    out
}

/// The time limits towards the upstream, in milliseconds. A limit of 0 is none.
#[derive(Debug)]
pub struct Timeouts {
    pub connect_ms: u64,
    pub first_byte_ms: u64,
    pub response_head_ms: u64,
}

/// The cross-origin answers.
#[derive(Debug)]
pub struct Cors {
    /// `*`, or `echo` for the origin of the request.
    pub mode: String,
    pub max_age_seconds: u64,
}

/// The pool of upstream connections.
#[derive(Debug)]
pub struct Pool {
    pub max_idle_per_host: usize,
    pub idle_timeout_ms: u64,
}

/// What the settings window shows and changes of the configuration.
#[derive(Debug)]
pub struct Config {
    pub upstream_base: String,
    pub strip_prefix: String,
    pub listen_port: u16,
    pub port_fallback: Vec<u16>,
    pub timeouts: Timeouts,
    pub cors: Cors,
    pub pool: Pool,
    /// `error`, `warn`, `info` or `debug`.
    pub log_level: String,
    /// `exit` or `tray`.
    pub close_action: String,
}

/// The contents of a [`Config`].
pub struct ConfigView {
    pub upstream_base: Seq<char>,
    pub strip_prefix: Seq<char>,
    pub listen_port: u16,
    pub port_fallback: Seq<u16>,
    pub connect_ms: u64,
    pub first_byte_ms: u64,
    pub response_head_ms: u64,
    pub cors_mode: Seq<char>,
    pub max_age_seconds: u64,
    pub max_idle_per_host: usize,
    pub idle_timeout_ms: u64,
    pub log_level: Seq<char>,
    pub close_action: Seq<char>,
}

impl View for Config {
    type V = ConfigView;

    open spec fn view(&self) -> ConfigView {
        ConfigView {
            upstream_base: self.upstream_base@,
            strip_prefix: self.strip_prefix@,
            listen_port: self.listen_port,
            port_fallback: self.port_fallback@,
            connect_ms: self.timeouts.connect_ms,
            first_byte_ms: self.timeouts.first_byte_ms,
            response_head_ms: self.timeouts.response_head_ms,
            cors_mode: self.cors.mode@,
            max_age_seconds: self.cors.max_age_seconds,
            max_idle_per_host: self.pool.max_idle_per_host,
            idle_timeout_ms: self.pool.idle_timeout_ms,
            log_level: self.log_level@,
            close_action: self.close_action@,
        }
    }
}

/// One remembered error.
#[derive(Debug)]
pub struct ErrorEntry {
    pub time: String,
    pub line: String,
    pub count: u64,
}

} // verus!
