//! The form of the settings window: what its fields show of a configuration, what
//! configuration they write, and the line that says how it went.
use crate::fields;
use crate::fields::{
    parse_number, parse_port, parse_ports, trim, trim_slashes, write_ports,
};
use crate::model::{ApplyStage, Config, ConfigView, Cors, Pool, Timeouts};
use crate::text;
use crate::theme;
use crate::theme::fit_text;
use crate::ui_state;
use crate::ui_state::{log_stat_text, LOG_RING_CAPACITY};
use vstd::prelude::*;
use vstd::string::*;

verus! {

/// The most seconds that a time limit may have: a day.
pub const MAX_SECONDS: u64 = 86_400;

/// The colour and the mark of the result line.
#[derive(Clone, Copy, PartialEq, Eq, Structural, Debug)]
pub enum ResultTone {
    Plain,
    Success,
    Error,
}

/// The choices of the segmented controls, by index.
#[derive(Clone, Copy, PartialEq, Eq, Structural, Debug)]
pub struct Draft {
    /// Any origin, or the origin of the request.
    pub cors: usize,
    /// Error, warn, info or debug.
    pub log_level: usize,
    /// Hide or exit.
    pub close_action: usize,
}

/// The texts of the fields.
#[derive(Debug)]
pub struct FieldTexts {
    pub upstream: String,
    pub strip: String,
    pub port: String,
    pub fallback: String,
    pub connect: String,
    pub first_byte: String,
    pub response_head: String,
    pub cors_max_age: String,
    pub pool_max: String,
    pub pool_idle: String,
}

/// The contents of [`FieldTexts`].
pub struct FieldsView {
    pub upstream: Seq<char>,
    pub strip: Seq<char>,
    pub port: Seq<char>,
    pub fallback: Seq<char>,
    pub connect: Seq<char>,
    pub first_byte: Seq<char>,
    pub response_head: Seq<char>,
    pub cors_max_age: Seq<char>,
    pub pool_max: Seq<char>,
    pub pool_idle: Seq<char>,
}

impl View for FieldTexts {
    type V = FieldsView;

    open spec fn view(&self) -> FieldsView {
        FieldsView {
            upstream: self.upstream@,
            strip: self.strip@,
            port: self.port@,
            fallback: self.fallback@,
            connect: self.connect@,
            first_byte: self.first_byte@,
            response_head: self.response_head@,
            cors_max_age: self.cors_max_age@,
            pool_max: self.pool_max@,
            pool_idle: self.pool_idle@,
        }
    }
}

// ---------------------------------------------------------------------------
// From the configuration to the fields

/// A configuration in the fields. Times are in seconds, the response head limit in
/// milliseconds; a connection limit below a second shows as one second.
pub open spec fn shown(c: ConfigView) -> FieldsView {
    FieldsView {
        upstream: fields::trimmed(c.upstream_base),
        strip: c.strip_prefix,
        port: text::decimal(c.listen_port as nat),
        fallback: fields::ports_text(c.port_fallback),
        connect: text::decimal(
            if c.connect_ms / 1000 < 1 {
                1
            } else {
                (c.connect_ms / 1000) as nat
            },
        ),
        first_byte: text::decimal((c.first_byte_ms / 1000) as nat),
        response_head: text::decimal(c.response_head_ms as nat),
        cors_max_age: text::decimal(c.max_age_seconds as nat),
        pool_max: text::decimal(c.max_idle_per_host as nat),
        pool_idle: text::decimal((c.idle_timeout_ms / 1000) as nat),
    }
}

/// A configuration in the segmented controls.
pub open spec fn chosen(c: ConfigView) -> Draft {
    Draft {
        cors: if c.cors_mode == "echo"@ {
            1
        } else {
            0
        },
        log_level: if c.log_level == "error"@ {
            0
        } else if c.log_level == "warn"@ {
            1
        } else if c.log_level == "debug"@ {
            3
        } else {
            2
        },
        close_action: if c.close_action == "exit"@ {
            1
        } else {
            0
        },
    }
}

fn is(text: &String, other: &str) -> (r: bool)
    ensures
        r == (text@ == other@),
{
    *text == other.to_owned()
}

/// Fills the fields and the segmented controls from a configuration.
pub fn fill_fields(config: &Config) -> (r: (FieldTexts, Draft))
    ensures
        r.0@ == shown(config@),
        r.1 == chosen(config@),
{
    let connect = config.timeouts.connect_ms / 1000;
    let texts = FieldTexts {
        upstream: trim(config.upstream_base.as_str()).to_owned(),
        strip: config.strip_prefix.clone(),
        port: text::decimal_text(config.listen_port as u64),
        fallback: write_ports(&config.port_fallback),
        connect: text::decimal_text(
            if connect < 1 {
                1
            } else {
                connect
            },
        ),
        first_byte: text::decimal_text(config.timeouts.first_byte_ms / 1000),
        response_head: text::decimal_text(config.timeouts.response_head_ms),
        cors_max_age: text::decimal_text(config.cors.max_age_seconds),
        pool_max: text::decimal_text(config.pool.max_idle_per_host as u64),
        pool_idle: text::decimal_text(config.pool.idle_timeout_ms / 1000),
    };
    let draft = Draft {
        cors: if is(&config.cors.mode, "echo") {
            1
        } else {
            0
        },
        log_level: if is(&config.log_level, "error") {
            0
        } else if is(&config.log_level, "warn") {
            1
        } else if is(&config.log_level, "debug") {
            3
        } else {
            2
        },
        close_action: if is(&config.close_action, "exit") {
            1
        } else {
            0
        },
    };
    (texts, draft)
}

// ---------------------------------------------------------------------------
// From the fields to the configuration

/// What is said of something that is no whole number.
pub open spec fn whole_error(field: Seq<char>, typed: Seq<char>) -> Seq<char> {
    field + " 必须是非负整数（当前「"@ + typed + "」）"@
}

/// A whole number of a field.
pub open spec fn whole(typed: Seq<char>, field: Seq<char>) -> Result<u64, Seq<char>> {
    match fields::number(fields::trimmed(typed), u64::MAX as nat) {
        Some(n) => Ok(n as u64),
        None => Err(whole_error(field, fields::trimmed(typed))),
    }
}

/// A port of a field.
pub open spec fn port(typed: Seq<char>, field: Seq<char>) -> Result<u16, Seq<char>> {
    match fields::number(fields::trimmed(typed), 65535) {
        Some(n) => Ok(n as u16),
        None => Err(fields::port_error(field, fields::trimmed(typed))),
    }
}

/// A size of a field.
pub open spec fn size(typed: Seq<char>, field: Seq<char>) -> Result<usize, Seq<char>> {
    match whole(typed, field) {
        Ok(n) => if n <= usize::MAX {
            Ok(n as usize)
        } else {
            Err(field + " 数值过大（"@ + text::decimal(n as nat) + "）"@)
        },
        Err(e) => Err(e),
    }
}

/// Seconds as milliseconds, up to a day.
pub open spec fn milliseconds(seconds: u64, field: Seq<char>) -> Result<u64, Seq<char>> {
    if seconds > MAX_SECONDS {
        Err(
            field + " 不得超过 "@ + text::decimal(MAX_SECONDS as nat) + " 秒（24 小时；当前 "@
                + text::decimal(seconds as nat) + "）"@,
        )
    } else {
        Ok((seconds * 1000) as u64)
    }
}

/// The seconds of a field as milliseconds; the two errors name the field apart.
pub open spec fn seconds(typed: Seq<char>, unit: Seq<char>, field: Seq<char>) -> Result<
    u64,
    Seq<char>,
> {
    match whole(typed, unit) {
        Ok(n) => milliseconds(n, field),
        Err(e) => Err(e),
    }
}

/// The connection limit: a second at least.
pub open spec fn connect_limit(typed: Seq<char>) -> Result<u64, Seq<char>> {
    match whole(typed, "连接超时（秒）"@) {
        Ok(n) => if n == 0 {
            Err("连接超时必须 ≥ 1 秒（0 会让不可达上游永远挂住）"@)
        } else {
            milliseconds(n, "连接超时"@)
        },
        Err(e) => Err(e),
    }
}

/// The level of an index.
pub open spec fn level(index: usize) -> Seq<char> {
    if index == 0 {
        "error"@
    } else if index == 1 {
        "warn"@
    } else if index == 3 {
        "debug"@
    } else {
        "info"@
    }
}

/// The configuration that the form writes, or what is wrong with the first bad
/// field.
pub open spec fn written(f: FieldsView, d: Draft) -> Result<ConfigView, Seq<char>> {
    match port(f.port, "监听端口"@) {
        Err(e) => Err(e),
        Ok(listen_port) => match fields::ports(f.fallback) {
            Err(e) => Err(e),
            Ok(port_fallback) => match connect_limit(f.connect) {
                Err(e) => Err(e),
                Ok(connect_ms) => match seconds(
                    f.first_byte,
                    "首字节超时（秒）"@,
                    "首字节超时"@,
                ) {
                    Err(e) => Err(e),
                    Ok(first_byte_ms) => match whole(
                        f.response_head,
                        "响应头超时（ms）"@,
                    ) {
                        Err(e) => Err(e),
                        Ok(response_head_ms) => match whole(
                            f.cors_max_age,
                            "预热 Max-Age（秒）"@,
                        ) {
                            Err(e) => Err(e),
                            Ok(max_age_seconds) => match size(
                                f.pool_max,
                                "池最大空闲/主机"@,
                            ) {
                                Err(e) => Err(e),
                                Ok(max_idle_per_host) => match seconds(
                                    f.pool_idle,
                                    "池空闲超时（秒）"@,
                                    "池空闲超时"@,
                                ) {
                                    Err(e) => Err(e),
                                    Ok(idle_timeout_ms) => Ok(
                                        ConfigView {
                                            upstream_base: fields::trimmed(f.upstream),
                                            strip_prefix: fields::trimmed(f.strip),
                                            listen_port,
                                            port_fallback,
                                            connect_ms,
                                            first_byte_ms,
                                            response_head_ms,
                                            cors_mode: if d.cors == 1 {
                                                "echo"@
                                            } else {
                                                "*"@
                                            },
                                            max_age_seconds,
                                            max_idle_per_host,
                                            idle_timeout_ms,
                                            log_level: level(d.log_level),
                                            close_action: if d.close_action == 1 {
                                                "exit"@
                                            } else {
                                                "tray"@
                                            },
                                        },
                                    ),
                                },
                            },
                        },
                    },
                },
            },
        },
    }
}

/// A result of the library as a result over views.
pub open spec fn config_view(r: Result<Config, String>) -> Result<ConfigView, Seq<char>> {
    match r {
        Ok(c) => Ok(c@),
        Err(e) => Err(e@),
    }
}

/// A result with an error text as a result over views.
pub open spec fn error_view<T>(r: Result<T, String>) -> Result<T, Seq<char>> {
    match r {
        Ok(v) => Ok(v),
        Err(e) => Err(e@),
    }
}

fn parse_whole(typed: &str, field: &str) -> (r: Result<u64, String>)
    ensures
        error_view(r) == whole(typed@, field@),
{
    let bare = trim(typed);
    match parse_number(bare, u64::MAX) {
        Some(n) => Ok(n),
        None => {
            let mut e = field.to_owned();
            e.append(" 必须是非负整数（当前「");
            e.append(bare);
            e.append("」）");
            Err(e)
        },
    }
}

fn parse_size(typed: &str, field: &str) -> (r: Result<usize, String>)
    ensures
        error_view(r) == size(typed@, field@),
{
    match parse_whole(typed, field) {
        Ok(n) => if n <= usize::MAX as u64 {
            Ok(n as usize)
        } else {
            let mut e = field.to_owned();
            e.append(" 数值过大（");
            text::push_decimal(&mut e, n as u128);
            e.append("）");
            Err(e)
        },
        Err(e) => Err(e),
    }
}

/// Seconds as milliseconds; more than a day is an error that names the field.
pub fn seconds_to_ms(seconds: u64, field: &str) -> (r: Result<u64, String>)
    ensures
        error_view(r) == milliseconds(seconds, field@),
{
    if seconds > MAX_SECONDS {
        let mut e = field.to_owned();
        e.append(" 不得超过 ");
        text::push_decimal(&mut e, MAX_SECONDS as u128);
        e.append(" 秒（24 小时；当前 ");
        text::push_decimal(&mut e, seconds as u128);
        e.append("）");
        Err(e)
    } else {
        Ok(seconds * 1000)
    }
}

fn parse_seconds(typed: &str, unit: &str, field: &str) -> (r: Result<u64, String>)
    ensures
        error_view(r) == seconds(typed@, unit@, field@),
{
    match parse_whole(typed, unit) {
        Ok(n) => seconds_to_ms(n, field),
        Err(e) => Err(e),
    }
}

fn parse_connect(typed: &str) -> (r: Result<u64, String>)
    ensures
        error_view(r) == connect_limit(typed@),
{
    match parse_whole(typed, "连接超时（秒）") {
        Ok(n) => if n == 0 {
            Err("连接超时必须 ≥ 1 秒（0 会让不可达上游永远挂住）".to_owned())
        } else {
            seconds_to_ms(n, "连接超时")
        },
        Err(e) => Err(e),
    }
}

/// Reads the form: the configuration that it writes, or what is wrong with the
/// first bad field.
pub fn apply_fields(texts: &FieldTexts, draft: Draft) -> (r: Result<Config, String>)
    ensures
        config_view(r) == written(texts@, draft),
{
    let listen_port = match parse_port(texts.port.as_str(), "监听端口") {
        Ok(n) => n,
        Err(e) => return Err(e),
    };
    let port_fallback = match parse_ports(texts.fallback.as_str()) {
        Ok(list) => list,
        Err(e) => return Err(e),
    };
    let connect_ms = match parse_connect(texts.connect.as_str()) {
        Ok(n) => n,
        Err(e) => return Err(e),
    };
    let first_byte_ms = match parse_seconds(
        texts.first_byte.as_str(),
        "首字节超时（秒）",
        "首字节超时",
    ) {
        Ok(n) => n,
        Err(e) => return Err(e),
    };
    let response_head_ms = match parse_whole(
        texts.response_head.as_str(),
        "响应头超时（ms）",
    ) {
        Ok(n) => n,
        Err(e) => return Err(e),
    };
    let max_age_seconds = match parse_whole(
        texts.cors_max_age.as_str(),
        "预热 Max-Age（秒）",
    ) {
        Ok(n) => n,
        Err(e) => return Err(e),
    };
    let max_idle_per_host = match parse_size(
        texts.pool_max.as_str(),
        "池最大空闲/主机",
    ) {
        Ok(n) => n,
        Err(e) => return Err(e),
    };
    let idle_timeout_ms = match parse_seconds(
        texts.pool_idle.as_str(),
        "池空闲超时（秒）",
        "池空闲超时",
    ) {
        Ok(n) => n,
        Err(e) => return Err(e),
    };
    Ok(
        Config {
            upstream_base: trim(texts.upstream.as_str()).to_owned(),
            strip_prefix: trim(texts.strip.as_str()).to_owned(),
            listen_port,
            port_fallback,
            timeouts: Timeouts { connect_ms, first_byte_ms, response_head_ms },
            cors: Cors {
                mode: if draft.cors == 1 {
                    "echo".to_owned()
                } else {
                    "*".to_owned()
                },
                max_age_seconds,
            },
            pool: Pool { max_idle_per_host, idle_timeout_ms },
            log_level: if draft.log_level == 0 {
                "error".to_owned()
            } else if draft.log_level == 1 {
                "warn".to_owned()
            } else if draft.log_level == 3 {
                "debug".to_owned()
            } else {
                "info".to_owned()
            },
            close_action: if draft.close_action == 1 {
                "exit".to_owned()
            } else {
                "tray".to_owned()
            },
        },
    )
}

/// Whether the form can show a configuration without loss: the texts have no blanks
/// around them, the time limits are whole seconds up to a day, and the choices are
/// those of the segmented controls.
pub open spec fn presentable(c: ConfigView) -> bool {
    &&& fields::trimmed(c.upstream_base) == c.upstream_base
    &&& fields::trimmed(c.strip_prefix) == c.strip_prefix
    &&& c.connect_ms % 1000 == 0
    &&& 1000 <= c.connect_ms <= 86_400_000
    &&& c.first_byte_ms % 1000 == 0
    &&& c.first_byte_ms <= 86_400_000
    &&& c.idle_timeout_ms % 1000 == 0
    &&& c.idle_timeout_ms <= 86_400_000
    &&& c.cors_mode == "echo"@ || c.cors_mode == "*"@
    &&& exists|i: usize| #[trigger] level(i) == c.log_level
    &&& c.close_action == "exit"@ || c.close_action == "tray"@
}

/// Filling the form from a configuration and applying it untouched gives the same
/// configuration back.
pub proof fn untouched_form_keeps_the_configuration(c: ConfigView)
    requires
        presentable(c),
    ensures
        written(shown(c), chosen(c)) == Ok::<ConfigView, Seq<char>>(c),
{
    fields::written_number_reads_back(c.listen_port as nat, 65535);
    fields::written_ports_read_back(c.port_fallback);
    fields::written_number_reads_back((c.connect_ms / 1000) as nat, u64::MAX as nat);
    fields::written_number_reads_back((c.first_byte_ms / 1000) as nat, u64::MAX as nat);
    fields::written_number_reads_back(c.response_head_ms as nat, u64::MAX as nat);
    fields::written_number_reads_back(c.max_age_seconds as nat, u64::MAX as nat);
    fields::written_number_reads_back(c.max_idle_per_host as nat, u64::MAX as nat);
    fields::written_number_reads_back((c.idle_timeout_ms / 1000) as nat, u64::MAX as nat);
    choices_differ();
    let i = choose|i: usize| #[trigger] level(i) == c.log_level;
    assert(level(chosen(c).log_level) == c.log_level);
    fields::trimming_settles(c.upstream_base);
}

proof fn choices_differ()
    ensures
        "*"@ != "echo"@,
        "tray"@ != "exit"@,
        "info"@ != "error"@,
        "info"@ != "warn"@,
        "info"@ != "debug"@,
        "debug"@ != "error"@,
        "debug"@ != "warn"@,
        "warn"@ != "error"@,
{
    reveal_strlit("*");
    reveal_strlit("echo");
    reveal_strlit("tray");
    reveal_strlit("exit");
    reveal_strlit("info");
    reveal_strlit("error");
    reveal_strlit("warn");
    reveal_strlit("debug");
    assert("*"@.len() != "echo"@.len());
    assert("tray"@[0] != "exit"@[0]);
    assert("info"@.len() != "error"@.len());
    assert("info"@[0] != "warn"@[0]);
    assert("info"@.len() != "debug"@.len());
    assert("debug"@[0] != "error"@[0]);
    assert("debug"@.len() != "warn"@.len());
    assert("warn"@.len() != "error"@.len());
}

/// Whatever was typed, the configuration that the form writes is one that it can
/// show, so a second apply changes nothing.
pub proof fn applied_form_can_be_shown(f: FieldsView, d: Draft)
    requires
        written(f, d) is Ok,
    ensures
        presentable(written(f, d)->Ok_0),
        written(shown(written(f, d)->Ok_0), chosen(written(f, d)->Ok_0)) == written(f, d),
{
    let c = written(f, d)->Ok_0;
    fields::trimming_settles(f.upstream);
    fields::trimming_settles(f.strip);
    assert(level(d.log_level) == c.log_level);
    untouched_form_keeps_the_configuration(c);
}

// ---------------------------------------------------------------------------
// The state of the window

/// The segmented controls of one window.
#[derive(Clone, Copy, PartialEq, Eq, Structural, Debug)]
pub enum SegGroup {
    Cors,
    LogLevel,
    Close,
}

pub const IDC_SEG_CORS: [usize; 2] = [3021, 3022];

pub const IDC_SEG_LOG_LEVEL: [usize; 4] = [3023, 3024, 3025, 3026];

pub const IDC_SEG_CLOSE: [usize; 2] = [3027, 3028];

/// The segment of a control identifier.
pub open spec fn segment_of(id: usize) -> Option<(SegGroup, usize)> {
    if 3021 <= id <= 3022 {
        Some((SegGroup::Cors, (id - 3021) as usize))
    } else if 3023 <= id <= 3026 {
        Some((SegGroup::LogLevel, (id - 3023) as usize))
    } else if 3027 <= id <= 3028 {
        Some((SegGroup::Close, (id - 3027) as usize))
    } else {
        None
    }
}

fn position(ids: &[usize], id: usize) -> (r: Option<usize>)
    ensures
        match r {
            Some(i) => i < ids@.len() && ids@[i as int] == id && forall|j: int|
                0 <= j < i ==> ids@[j] != id,
            None => forall|j: int| 0 <= j < ids@.len() ==> ids@[j] != id,
        },
{
    let mut i: usize = 0;
    while i < ids.len()
        invariant
            i <= ids@.len(),
            forall|j: int| 0 <= j < i ==> ids@[j] != id,
        decreases ids@.len() - i,
    {
        if ids[i] == id {
            return Some(i);
        }
        i += 1;
    }
    None
}

/// The segment of a control identifier: its group and its place there.
pub fn segment_member(id: usize) -> (r: Option<(SegGroup, usize)>)
    ensures
        r == segment_of(id),
{
    let cors = IDC_SEG_CORS;
    let levels = IDC_SEG_LOG_LEVEL;
    let close = IDC_SEG_CLOSE;
    assert(cors@ =~= seq![3021usize, 3022]);
    assert(levels@ =~= seq![3023usize, 3024, 3025, 3026]);
    assert(close@ =~= seq![3027usize, 3028]);
    if let Some(i) = position(&cors, id) {
        return Some((SegGroup::Cors, i));
    }
    assert(cors@[0] != id && cors@[1] != id);
    if let Some(i) = position(&levels, id) {
        return Some((SegGroup::LogLevel, i));
    }
    assert(levels@[0] != id && levels@[1] != id && levels@[2] != id && levels@[3] != id);
    if let Some(i) = position(&close, id) {
        return Some((SegGroup::Close, i));
    }
    assert(close@[0] != id && close@[1] != id);
    None
}

/// How many segments there are.
pub fn segment_member_count() -> (n: usize)
    ensures
        n == 8,
{
    IDC_SEG_CORS.len() + IDC_SEG_LOG_LEVEL.len() + IDC_SEG_CLOSE.len()
}

/// The choice of a group.
pub open spec fn choice(d: Draft, group: SegGroup) -> usize {
    match group {
        SegGroup::Cors => d.cors,
        SegGroup::LogLevel => d.log_level,
        SegGroup::Close => d.close_action,
    }
}

/// Whether a segment is the chosen one of its group.
pub fn segment_selected(draft: Draft, group: SegGroup, index: usize) -> (r: bool)
    ensures
        r == (choice(draft, group) == index),
{
    match group {
        SegGroup::Cors => draft.cors == index,
        SegGroup::LogLevel => draft.log_level == index,
        SegGroup::Close => draft.close_action == index,
    }
}

/// Chooses a segment; anything else changes nothing.
pub fn select_segment(draft: Draft, id: usize) -> (r: Draft)
    ensures
        match segment_of(id) {
            Some((group, index)) => choice(r, group) == index && forall|other: SegGroup|
                other != group ==> #[trigger] choice(r, other) == choice(draft, other),
            None => r == draft,
        },
{
    match segment_member(id) {
        Some((group, index)) => match group {
            SegGroup::Cors => Draft { cors: index, ..draft },
            SegGroup::LogLevel => Draft { log_level: index, ..draft },
            SegGroup::Close => Draft { close_action: index, ..draft },
        },
        None => draft,
    }
}

/// What the settings window keeps while it is open.
#[derive(Debug)]
pub struct SettingsState {
    pub advanced_open: bool,
    pub draft: Draft,
    pub result_tone: ResultTone,
    pub result_text: String,
}

/// The mark before the result line.
pub open spec fn mark(tone: ResultTone) -> Seq<char> {
    match tone {
        ResultTone::Plain => ""@,
        ResultTone::Success => "✓ "@,
        ResultTone::Error => "✗ "@,
    }
}

/// The tone of a stage.
pub open spec fn tone_of(stage: ApplyStage) -> ResultTone {
    match stage {
        ApplyStage::Failed => ResultTone::Error,
        ApplyStage::Applied => ResultTone::Success,
        _ => ResultTone::Plain,
    }
}

/// What the failure notice says.
pub open spec fn notice_words(message: Seq<char>) -> Seq<char> {
    "应用失败："@ + message
}

/// The address of the probe, if there is one: the upstream without blanks around it
/// and slashes behind it, and the list of models.
pub open spec fn probe_address(upstream: Seq<char>) -> Option<Seq<char>> {
    let base = fields::without_tail(fields::trimmed(upstream), |c: char| c == '/');
    if base.len() == 0 {
        None
    } else {
        Some(base + "/v1/models"@)
    }
}

/// Whether the failure notice shows: the last change was refused.
pub fn failure_notice_visible(stage: ApplyStage) -> (visible: bool)
    ensures
        visible == (stage == ApplyStage::Failed),
{
    stage == ApplyStage::Failed
}

impl SettingsState {
    /// A window that shows a configuration.
    pub fn new(draft: Draft) -> (state: SettingsState)
        ensures
            !state.advanced_open,
            state.draft == draft,
            state.result_tone == ResultTone::Plain,
            state.result_text@.len() == 0,
    {
        SettingsState {
            advanced_open: false,
            draft,
            result_tone: ResultTone::Plain,
            result_text: String::new(),
        }
    }

    /// Puts a text on the result line, with the mark of its tone.
    pub fn set_result(&mut self, text: &str, tone: ResultTone)
        ensures
            final(self).result_tone == tone,
            final(self).result_text@ == mark(tone) + text@,
            *final(self) == (SettingsState {
                result_tone: tone,
                result_text: final(self).result_text,
                ..*old(self)
            }),
    {
        let mut line = match tone {
            ResultTone::Plain => "".to_owned(),
            ResultTone::Success => "✓ ".to_owned(),
            ResultTone::Error => "✗ ".to_owned(),
        };
        line.append(text);
        self.result_tone = tone;
        self.result_text = line;
    }

    /// Shows or hides the advanced rows.
    pub fn toggle_advanced(&mut self)
        ensures
            *final(self) == (SettingsState {
                advanced_open: !old(self).advanced_open,
                ..*old(self)
            }),
    {
        self.advanced_open = !self.advanced_open;
    }

    /// Chooses a segment.
    pub fn choose_segment(&mut self, id: usize)
        ensures
            *final(self) == (SettingsState { draft: final(self).draft, ..*old(self) }),
            match segment_of(id) {
                Some((group, index)) => choice(final(self).draft, group) == index && forall|
                    other: SegGroup,
                |
                    other != group ==> #[trigger] choice(final(self).draft, other) == choice(
                        old(self).draft,
                        other,
                    ),
                None => final(self).draft == old(self).draft,
            },
    {
        self.draft = select_segment(self.draft, id);
    }

    /// Fills the form again from a configuration; what was typed is lost.
    pub fn reload(&mut self, config: &Config) -> (texts: FieldTexts)
        ensures
            texts@ == shown(config@),
            final(self).draft == chosen(config@),
            final(self).advanced_open == old(self).advanced_open,
            final(self).result_tone == ResultTone::Plain,
            final(self).result_text@ == mark(ResultTone::Plain) + "已从当前配置重新载入"@,
    {
        let (texts, draft) = fill_fields(config);
        self.draft = draft;
        self.set_result("已从当前配置重新载入", ResultTone::Plain);
        texts
    }

    /// Takes the outcome of the checks on what was typed: an error goes to the result
    /// line, otherwise the line says that the change begins. Returns whether to go on.
    pub fn begin_apply(&mut self, checked: Result<(), String>, start_text: &str) -> (go: bool)
        ensures
            go == checked is Ok,
            match checked {
                Ok(_) => final(self).result_tone == ResultTone::Plain
                    && final(self).result_text@ == mark(ResultTone::Plain) + start_text@,
                Err(e) => final(self).result_tone == ResultTone::Error
                    && final(self).result_text@ == mark(ResultTone::Error) + e@,
            },
            *final(self) == (SettingsState {
                result_tone: final(self).result_tone,
                result_text: final(self).result_text,
                ..*old(self)
            }),
    {
        match checked {
            Ok(_) => {
                self.set_result(start_text, ResultTone::Plain);
                true
            },
            Err(e) => {
                self.set_result(e.as_str(), ResultTone::Error);
                false
            },
        }
    }

    /// Takes what the service said of the change: its message goes to the result line
    /// in the tone of its stage. Returns the text of the failure notice, if it failed.
    pub fn refresh_apply_feedback(
        &mut self,
        stage: ApplyStage,
        message: &Option<String>,
    ) -> (notice: Option<String>)
        ensures
            match message {
                Some(words) => {
                    &&& final(self).result_tone == tone_of(stage)
                    &&& final(self).result_text@ == mark(tone_of(stage)) + words@
                    &&& notice is Some == (stage == ApplyStage::Failed)
                    &&& notice is Some ==> notice->0@ == notice_words(words@)
                },
                None => *final(self) == *old(self) && notice is None,
            },
            *final(self) == (SettingsState {
                result_tone: final(self).result_tone,
                result_text: final(self).result_text,
                ..*old(self)
            }),
    {
        match message {
            Some(words) => {
                let tone = match stage {
                    ApplyStage::Failed => ResultTone::Error,
                    ApplyStage::Applied => ResultTone::Success,
                    _ => ResultTone::Plain,
                };
                self.set_result(words.as_str(), tone);
                if stage == ApplyStage::Failed {
                    let mut notice = "应用失败：".to_owned();
                    notice.append(words.as_str());
                    Some(notice)
                } else {
                    None
                }
            },
            None => None,
        }
    }

    /// Begins a test of the typed upstream: the address to ask, or nothing where none
    /// was typed. The result line says which.
    pub fn test_upstream(&mut self, upstream: &str) -> (url: Option<String>)
        ensures
            match probe_address(upstream@) {
                Some(address) => {
                    &&& url is Some
                    &&& url->0@ == address
                    &&& final(self).result_tone == ResultTone::Plain
                    &&& final(self).result_text@ == mark(ResultTone::Plain) + ("测试中…（GET "@
                        + address + "，超时 10 s）"@)
                },
                None => {
                    &&& url is None
                    &&& final(self).result_tone == ResultTone::Error
                    &&& final(self).result_text@ == mark(ResultTone::Error)
                        + "上游 Base URL 为空"@
                },
            },
            *final(self) == (SettingsState {
                result_tone: final(self).result_tone,
                result_text: final(self).result_text,
                ..*old(self)
            }),
    {
        let base = trim_slashes(trim(upstream));
        if base.unicode_len() == 0 {
            self.set_result("上游 Base URL 为空", ResultTone::Error);
            return None;
        }
        let mut url = base.to_owned();
        url.append("/v1/models");
        let mut line = "测试中…（GET ".to_owned();
        line.append(url.as_str());
        line.append("，超时 10 s）");
        self.set_result(line.as_str(), ResultTone::Plain);
        Some(url)
    }

    /// Puts the outcome of a test on the result line.
    pub fn show_test_result(&mut self, outcome: &str)
        ensures
            final(self).result_tone == ResultTone::Plain,
            final(self).result_text@ == mark(ResultTone::Plain) + ("测试结果："@ + outcome@),
            *final(self) == (SettingsState {
                result_tone: final(self).result_tone,
                result_text: final(self).result_text,
                ..*old(self)
            }),
    {
        let mut line = "测试结果：".to_owned();
        line.append(outcome);
        self.set_result(line.as_str(), ResultTone::Plain);
    }
}

// ---------------------------------------------------------------------------
// The log readout

/// The warning about a readout that is too wide.
pub open spec fn width_warning(needed: int, room: int) -> Seq<char> {
    "设置窗日志读数行超宽：需 "@ + text::signed(needed) + " px、可用 "@ + text::signed(room)
        + " px —— 已按 fit_text 截断（读数为 共 N / 上限 "@ + text::decimal(
        LOG_RING_CAPACITY as nat,
    ) + " 条（已挤出 M））"@
}

/// The readout of the log in a room, and the warning to give where it does not fit
/// and none was given before.
pub fn log_readout<F: Fn(&str) -> i32>(
    measure: F,
    retained: u64,
    dropped: u64,
    room: i32,
    warned: bool,
) -> (r: (String, Option<String>))
    requires
        forall|s: &str| call_requires(measure, (s,)),
    ensures
        forall|width: spec_fn(Seq<char>) -> int| #[trigger]
            theme::measures(measure, width) ==> {
                let line = ui_state::log_stat(
                    retained as nat,
                    LOG_RING_CAPACITY as nat,
                    dropped as nat,
                );
                &&& r.0@ == theme::fitted(width, line, room as int)
                &&& r.1 is Some == (width(line) > room && !warned)
                &&& r.1 is Some ==> r.1->0@ == width_warning(width(line), room as int)
            },
{
    let line = log_stat_text(retained, LOG_RING_CAPACITY, dropped);
    let needed = measure(line.as_str());
    let warning = if needed > room && !warned {
        let mut out = "设置窗日志读数行超宽：需 ".to_owned();
        text::push_signed(&mut out, needed as i64);
        out.append(" px、可用 ");
        text::push_signed(&mut out, room as i64);
        out.append(" px —— 已按 fit_text 截断（读数为 共 N / 上限 ");
        text::push_decimal(&mut out, LOG_RING_CAPACITY as u128);
        out.append(" 条（已挤出 M））");
        Some(out)
    } else {
        None
    };
    (fit_text(measure, line.as_str(), room), warning)
}

// ---------------------------------------------------------------------------
// The result line

/// How many characters go on the first line: as long as each prefix fits.
pub open spec fn first_line(
    width: spec_fn(Seq<char>) -> int,
    s: Seq<char>,
    from: nat,
    room: int,
) -> nat
    decreases s.len() - from,
{
    if from < s.len() && width(s.take(from as int + 1)) <= room {
        first_line(width, s, from + 1, room)
    } else {
        from
    }
}

/// A text on two lines: one where it fits, otherwise as much as fits on the first
/// and the rest, cut, on the second.
pub open spec fn two_lines(
    width: spec_fn(Seq<char>) -> int,
    s: Seq<char>,
    room: int,
) -> (Seq<char>, Option<Seq<char>>) {
    if room <= 0 {
        (Seq::empty(), None)
    } else if width(s) <= room {
        (s, None)
    } else {
        let cut = first_line(width, s, 0, room) as int;
        (s.take(cut), Some(theme::fitted(width, s.skip(cut), room)))
    }
}

/// Splits a text into two lines of a width.
pub fn split_two_lines<F: Fn(&str) -> i32>(measure: F, words: &str, max_width: i32) -> (r: (
    String,
    Option<String>,
))
    requires
        forall|s: &str| call_requires(measure, (s,)),
    ensures
        forall|width: spec_fn(Seq<char>) -> int|
            theme::measures(measure, width) ==> {
                let lines = #[trigger] two_lines(width, words@, max_width as int);
                &&& r.0@ == lines.0
                &&& r.1 is Some == lines.1 is Some
                &&& r.1 is Some ==> r.1->0@ == lines.1->0
            },
{
    if max_width <= 0 {
        return (String::new(), None);
    }
    if measure(words) <= max_width {
        return (words.to_owned(), None);
    }
    let length = words.unicode_len();
    let mut used: usize = 0;
    let mut open = true;
    while open && used < length
        invariant
            length == words@.len(),
            used <= length,
            forall|s: &str| call_requires(measure, (s,)),
            forall|width: spec_fn(Seq<char>) -> int| #[trigger]
                theme::measures(measure, width) ==> first_line(
                    width,
                    words@,
                    0,
                    max_width as int,
                ) == first_line(width, words@, used as nat, max_width as int),
            !open ==> used < length && forall|width: spec_fn(Seq<char>) -> int| #[trigger]
                theme::measures(measure, width) ==> width(words@.take(used + 1)) > max_width,
        decreases (length - used) + if open {
            1int
        } else {
            0
        },
    {
        let probe = words.substring_char(0, used + 1);
        assert(probe@ =~= words@.take(used + 1));
        if measure(probe) > max_width {
            open = false;
        } else {
            used += 1;
        }
    }
    let first = words.substring_char(0, used).to_owned();
    let rest = words.substring_char(used, length);
    assert(first@ =~= words@.take(used as int));
    assert(rest@ =~= words@.skip(used as int));
    let second = fit_text(measure, rest, max_width);
    assert forall|width: spec_fn(Seq<char>) -> int|
        theme::measures(measure, width) implies first_line(width, words@, 0, max_width as int)
        == used by {}
    (first, Some(second))
}

/// Both lines keep to the width, the first one as far as it holds anything.
pub proof fn two_lines_fit(width: spec_fn(Seq<char>) -> int, s: Seq<char>, room: int)
    ensures
        ({
            let lines = two_lines(width, s, room);
            &&& lines.0.len() == 0 || width(lines.0) <= room
            &&& lines.1 is Some ==> lines.1->0.len() == 0 || width(lines.1->0) <= room
        }),
{
    if room > 0 && width(s) > room {
        first_line_fits(width, s, 0, room);
        theme::fitted_text_fits(width, s.skip(first_line(width, s, 0, room) as int), room);
    }
}

proof fn first_line_fits(
    width: spec_fn(Seq<char>) -> int,
    s: Seq<char>,
    from: nat,
    room: int,
)
    requires
        from <= s.len(),
    ensures
        from <= first_line(width, s, from, room) <= s.len(),
        first_line(width, s, from, room) == from || width(
            s.take(first_line(width, s, from, room) as int),
        ) <= room,
    decreases s.len() - from,
{
    if from < s.len() && width(s.take(from as int + 1)) <= room {
        first_line_fits(width, s, from + 1, room);
    }
}

} // verus!
