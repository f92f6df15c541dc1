//! What the form of the settings window owes to its fields: each one writes and shows its
//! own setting, the choices are those on their segments, and a refusal names the first
//! field that is wrong.
use crate::fields;
use crate::model::{ApplyStage, Config, ConfigView};
use crate::settings_form;
use crate::settings_form::{Draft, FieldTexts, FieldsView, ResultTone, SegGroup};
use crate::settings_plan;
use crate::text;
use crate::theme;
use vstd::prelude::*;
use vstd::string::*;

verus! {

proof fn level_names_differ()
    ensures
        "info"@ != "error"@,
        "info"@ != "warn"@,
        "info"@ != "debug"@,
        "debug"@ != "error"@,
        "debug"@ != "warn"@,
        "warn"@ != "error"@,
        "tray"@ != "exit"@,
        "*"@ != "echo"@,
{
    reveal_strlit("info");
    reveal_strlit("error");
    reveal_strlit("warn");
    reveal_strlit("debug");
    reveal_strlit("tray");
    reveal_strlit("exit");
    reveal_strlit("*");
    reveal_strlit("echo");
    assert("info"@.len() != "error"@.len());
    assert("info"@[0] != "warn"@[0]);
    assert("info"@.len() != "debug"@.len());
    assert("debug"@[0] != "error"@[0]);
    assert("debug"@.len() != "warn"@.len());
    assert("warn"@.len() != "error"@.len());
    assert("tray"@[0] != "exit"@[0]);
    assert("*"@.len() != "echo"@.len());
}

/// The level that is written is the text on the chosen segment of the level control, and
/// a configuration with that level marks that segment. From the left the segments say
/// error, warn, info and debug.
pub proof fn level_is_the_text_of_its_segment(i: int, f: FieldsView, d: Draft, c: ConfigView)
    requires
        0 <= i < 43,
        settings_form::segment_of(settings_plan::row_of(i).0) is Some,
        (settings_form::segment_of(settings_plan::row_of(i).0)->0).0 == SegGroup::LogLevel,
    ensures
        ({
            let index = (settings_form::segment_of(settings_plan::row_of(i).0)->0).1;
            let label = settings_plan::row_of(i).2@;
            &&& d.log_level == index && settings_form::written(f, d) is Ok
                ==> settings_form::written(f, d)->Ok_0.log_level == label
            &&& c.log_level == label ==> settings_form::chosen(c).log_level == index
            &&& index == 0 ==> label == "error"@
            &&& index == 1 ==> label == "warn"@
            &&& index == 2 ==> label == "info"@
            &&& index == 3 ==> label == "debug"@
            &&& index <= 3
        }),
{
    level_names_differ();
}

/// Choosing a segment, applying the form and filling it again marks the same segment, and
/// the values behind the segments are those that the service knows.
pub proof fn choices_are_kept_under_their_names(f: FieldsView, d: Draft)
    requires
        settings_form::written(f, d) is Ok,
        d.cors < 2,
        d.log_level < 4,
        d.close_action < 2,
    ensures
        ({
            let c = settings_form::written(f, d)->Ok_0;
            &&& settings_form::chosen(c) == d
            &&& d.cors == 0 ==> c.cors_mode == "*"@
            &&& d.cors == 1 ==> c.cors_mode == "echo"@
            &&& d.log_level == 0 ==> c.log_level == "error"@
            &&& d.log_level == 1 ==> c.log_level == "warn"@
            &&& d.log_level == 2 ==> c.log_level == "info"@
            &&& d.log_level == 3 ==> c.log_level == "debug"@
            &&& d.close_action == 0 ==> c.close_action == "tray"@
            &&& d.close_action == 1 ==> c.close_action == "exit"@
        }),
        settings_plan::row_of(37).0 == 3021 && settings_plan::row_of(37).2@ == "*（通配）"@,
        settings_plan::row_of(38).0 == 3022 && settings_plan::row_of(38).2@ == "回显 Origin"@,
        settings_plan::row_of(39).0 == 3027 && settings_plan::row_of(39).2@ == "隐藏到托盘"@,
        settings_plan::row_of(40).0 == 3028 && settings_plan::row_of(40).2@ == "直接退出"@,
        settings_form::segment_of(3021) == Some((SegGroup::Cors, 0usize)),
        settings_form::segment_of(3022) == Some((SegGroup::Cors, 1usize)),
        settings_form::segment_of(3027) == Some((SegGroup::Close, 0usize)),
        settings_form::segment_of(3028) == Some((SegGroup::Close, 1usize)),
{
    level_names_differ();
}

/// A configuration with a value that no segment has marks the usual one: info for the
/// level, any origin, and hiding.
pub proof fn unknown_choices_mark_the_usual(c: ConfigView)
    ensures
        c.log_level != "error"@ && c.log_level != "warn"@ && c.log_level != "debug"@
            ==> settings_form::chosen(c).log_level == 2,
        c.cors_mode != "echo"@ ==> settings_form::chosen(c).cors == 0,
        c.close_action != "exit"@ ==> settings_form::chosen(c).close_action == 0,
        settings_form::chosen(c).cors < 2,
        settings_form::chosen(c).log_level < 4,
        settings_form::chosen(c).close_action < 2,
{
}

/// The marked segment of a group is the one that was chosen for that group.
pub proof fn groups_have_their_own_choice(d: Draft, e: Draft)
    ensures
        settings_form::choice(d, SegGroup::Cors) == d.cors,
        settings_form::choice(d, SegGroup::LogLevel) == d.log_level,
        settings_form::choice(d, SegGroup::Close) == d.close_action,
        (forall|g: SegGroup| #[trigger]
            settings_form::choice(d, g) == settings_form::choice(e, g)) ==> d == e,
{
    if forall|g: SegGroup| #[trigger]
        settings_form::choice(d, g) == settings_form::choice(e, g) {
        assert(settings_form::choice(d, SegGroup::Cors) == settings_form::choice(e, SegGroup::Cors));
        assert(settings_form::choice(d, SegGroup::LogLevel) == settings_form::choice(
            e,
            SegGroup::LogLevel,
        ));
        assert(settings_form::choice(d, SegGroup::Close) == settings_form::choice(
            e,
            SegGroup::Close,
        ));
    }
}

/// The number that was typed into a field, whatever blanks stand around it.
pub open spec fn typed_number(s: Seq<char>) -> Option<nat> {
    fields::number(fields::trimmed(s), u64::MAX as nat)
}

/// Every field writes its own setting: the ports, the three limits that are typed in
/// seconds and kept in milliseconds, and the three numbers that are kept as typed.
pub proof fn fields_write_their_own_settings(
    f: FieldsView,
    d: Draft,
    listen_port: u16,
    connect: nat,
    first_byte: nat,
    response_head: u64,
    max_age: u64,
    pool_max: usize,
    pool_idle: nat,
)
    requires
        fields::number(fields::trimmed(f.port), 65535) == Some(listen_port as nat),
        fields::ports(f.fallback) is Ok,
        typed_number(f.connect) == Some(connect),
        1 <= connect <= 86_400,
        typed_number(f.first_byte) == Some(first_byte),
        first_byte <= 86_400,
        typed_number(f.response_head) == Some(response_head as nat),
        typed_number(f.cors_max_age) == Some(max_age as nat),
        typed_number(f.pool_max) == Some(pool_max as nat),
        typed_number(f.pool_idle) == Some(pool_idle),
        pool_idle <= 86_400,
    ensures
        ({
            let r = settings_form::written(f, d);
            let c = r->Ok_0;
            &&& r is Ok
            &&& c.listen_port == listen_port
            &&& c.port_fallback == fields::ports(f.fallback)->Ok_0
            &&& c.connect_ms == 1000 * connect
            &&& c.first_byte_ms == 1000 * first_byte
            &&& c.response_head_ms == response_head
            &&& c.max_age_seconds == max_age
            &&& c.max_idle_per_host == pool_max
            &&& c.idle_timeout_ms == 1000 * pool_idle
            &&& c.upstream_base == fields::trimmed(f.upstream)
            &&& c.strip_prefix == fields::trimmed(f.strip)
        }),
{
}

/// Every setting shows in its own field, as a number that reads back: times in whole
/// seconds, rounded down, the connection limit as a second at least, the limit of the
/// response head in milliseconds.
pub proof fn settings_show_in_their_own_fields(c: ConfigView)
    ensures
        ({
            let f = settings_form::shown(c);
            let connect = fields::number(f.connect, u64::MAX as nat)->0;
            let first_byte = fields::number(f.first_byte, u64::MAX as nat)->0;
            let pool_idle = fields::number(f.pool_idle, u64::MAX as nat)->0;
            &&& fields::number(f.port, 65535) == Some(c.listen_port as nat)
            &&& fields::ports(f.fallback) == Ok::<Seq<u16>, Seq<char>>(c.port_fallback)
            &&& fields::number(f.connect, u64::MAX as nat) is Some
            &&& c.connect_ms >= 1000 ==> 1000 * connect <= c.connect_ms < 1000 * connect + 1000
            &&& c.connect_ms < 1000 ==> connect == 1
            &&& fields::number(f.first_byte, u64::MAX as nat) is Some
            &&& 1000 * first_byte <= c.first_byte_ms < 1000 * first_byte + 1000
            &&& fields::number(f.response_head, u64::MAX as nat) == Some(c.response_head_ms as nat)
            &&& fields::number(f.cors_max_age, u64::MAX as nat) == Some(c.max_age_seconds as nat)
            &&& fields::number(f.pool_max, u64::MAX as nat) == Some(c.max_idle_per_host as nat)
            &&& fields::number(f.pool_idle, u64::MAX as nat) is Some
            &&& 1000 * pool_idle <= c.idle_timeout_ms < 1000 * pool_idle + 1000
            &&& f.upstream == fields::trimmed(c.upstream_base)
            &&& f.strip == c.strip_prefix
        }),
{
    fields::written_number_reads_back(c.listen_port as nat, 65535);
    fields::written_ports_read_back(c.port_fallback);
    fields::written_number_reads_back(
        if c.connect_ms / 1000 < 1 {
            1
        } else {
            (c.connect_ms / 1000) as nat
        },
        u64::MAX as nat,
    );
    fields::written_number_reads_back((c.first_byte_ms / 1000) as nat, u64::MAX as nat);
    fields::written_number_reads_back(c.response_head_ms as nat, u64::MAX as nat);
    fields::written_number_reads_back(c.max_age_seconds as nat, u64::MAX as nat);
    fields::written_number_reads_back(c.max_idle_per_host as nat, u64::MAX as nat);
    fields::written_number_reads_back((c.idle_timeout_ms / 1000) as nat, u64::MAX as nat);
}

/// Whether a text begins with a name.
pub open spec fn begins(s: Seq<char>, name: Seq<char>) -> bool {
    s.len() >= name.len() && s.take(name.len() as int) == name
}

proof fn joined_begins(name: Seq<char>, rest: Seq<char>)
    ensures
        begins(name + rest, name),
{
    assert((name + rest).take(name.len() as int) =~= name);
}

/// Whether a field holds a number within bounds.
pub open spec fn holds(s: Seq<char>, least: nat, most: nat) -> bool {
    typed_number(s) is Some && least <= typed_number(s)->0 <= most
}

/// The form is accepted exactly when every field holds what it should: ports up to 65535,
/// time limits up to a day, the one for connecting at least a second, and whole numbers
/// elsewhere.
pub proof fn form_is_accepted_when_every_field_is(f: FieldsView, d: Draft)
    ensures
        settings_form::written(f, d) is Ok <==> {
            &&& fields::number(fields::trimmed(f.port), 65535) is Some
            &&& fields::ports(f.fallback) is Ok
            &&& holds(f.connect, 1, 86_400)
            &&& holds(f.first_byte, 0, 86_400)
            &&& holds(f.response_head, 0, u64::MAX as nat)
            &&& holds(f.cors_max_age, 0, u64::MAX as nat)
            &&& holds(f.pool_max, 0, usize::MAX as nat)
            &&& holds(f.pool_idle, 0, 86_400)
        },
{
}

proof fn number_error_begins(typed: Seq<char>, field: Seq<char>)
    ensures
        settings_form::whole(typed, field) is Err ==> begins(
            settings_form::whole(typed, field)->Err_0,
            field,
        ),
        settings_form::size(typed, field) is Err ==> begins(
            settings_form::size(typed, field)->Err_0,
            field,
        ),
{
    let bare = fields::trimmed(typed);
    joined_begins(field, " 必须是非负整数（当前「"@ + bare + "」）"@);
    assert(field + (" 必须是非负整数（当前「"@ + bare + "」）"@)
        =~= settings_form::whole_error(field, bare));
    if settings_form::whole(typed, field) is Ok {
        let n = settings_form::whole(typed, field)->Ok_0 as nat;
        joined_begins(field, " 数值过大（"@ + text::decimal(n) + "）"@);
        assert(field + (" 数值过大（"@ + text::decimal(n) + "）"@) =~= field
            + " 数值过大（"@ + text::decimal(n) + "）"@);
    }
}

proof fn begins_shorter(s: Seq<char>, name: Seq<char>, short: Seq<char>)
    requires
        begins(s, name),
        begins(name, short),
    ensures
        begins(s, short),
{
    assert(s.take(short.len() as int) =~= name.take(short.len() as int));
}

proof fn seconds_error_begins(typed: Seq<char>, unit: Seq<char>, field: Seq<char>)
    requires
        begins(unit, field),
    ensures
        settings_form::seconds(typed, unit, field) is Err ==> begins(
            settings_form::seconds(typed, unit, field)->Err_0,
            field,
        ),
{
    number_error_begins(typed, unit);
    if settings_form::whole(typed, unit) is Err {
        begins_shorter(settings_form::whole(typed, unit)->Err_0, unit, field);
    } else {
        let n = settings_form::whole(typed, unit)->Ok_0;
        day_error_begins(n, field);
    }
}

proof fn day_error_begins(n: u64, field: Seq<char>)
    ensures
        settings_form::milliseconds(n, field) is Err ==> begins(
            settings_form::milliseconds(n, field)->Err_0,
            field,
        ),
{
    let rest = " 不得超过 "@ + text::decimal(86_400) + " 秒（24 小时；当前 "@
        + text::decimal(n as nat) + "）"@;
    joined_begins(field, rest);
    if n > 86_400 {
        assert(field + rest =~= settings_form::milliseconds(n, field)->Err_0);
    }
}

/// A refusal begins with the name of the first field that is wrong, in the order: port,
/// fallback ports, connecting, first byte, response head, max age, pool size, pool time.
pub proof fn refusal_names_the_first_wrong_field(f: FieldsView, d: Draft)
    requires
        settings_form::written(f, d) is Err,
    ensures
        ({
            let e = settings_form::written(f, d)->Err_0;
            if fields::number(fields::trimmed(f.port), 65535) is None {
                begins(e, "监听端口"@)
            } else if fields::ports(f.fallback) is Err {
                e == fields::ports(f.fallback)->Err_0
            } else if !holds(f.connect, 1, 86_400) {
                begins(e, "连接超时"@)
            } else if !holds(f.first_byte, 0, 86_400) {
                begins(e, "首字节超时"@)
            } else if !holds(f.response_head, 0, u64::MAX as nat) {
                begins(e, "响应头超时"@)
            } else if !holds(f.cors_max_age, 0, u64::MAX as nat) {
                begins(e, "预热 Max-Age"@)
            } else if !holds(f.pool_max, 0, usize::MAX as nat) {
                begins(e, "池最大空闲/主机"@)
            } else {
                begins(e, "池空闲超时"@)
            }
        }),
{
    reveal_strlit("连接超时");
    reveal_strlit("连接超时（秒）");
    reveal_strlit("连接超时必须 ≥ 1 秒（0 会让不可达上游永远挂住）");
    reveal_strlit("首字节超时");
    reveal_strlit("首字节超时（秒）");
    reveal_strlit("响应头超时");
    reveal_strlit("响应头超时（ms）");
    reveal_strlit("预热 Max-Age");
    reveal_strlit("预热 Max-Age（秒）");
    reveal_strlit("池空闲超时");
    reveal_strlit("池空闲超时（秒）");
    assert("连接超时（秒）"@.take(4) =~= "连接超时"@);
    assert("连接超时必须 ≥ 1 秒（0 会让不可达上游永远挂住）"@.take(4) =~= "连接超时"@);
    assert("首字节超时（秒）"@.take(5) =~= "首字节超时"@);
    assert("响应头超时（ms）"@.take(5) =~= "响应头超时"@);
    assert("预热 Max-Age（秒）"@.take(10) =~= "预热 Max-Age"@);
    assert("池空闲超时（秒）"@.take(5) =~= "池空闲超时"@);
    let bare = fields::trimmed(f.port);
    let rest = " 必须是 1–65535 的整数（当前「"@ + bare + "」）"@;
    joined_begins("监听端口"@, rest);
    assert("监听端口"@ + rest =~= fields::port_error("监听端口"@, bare));
    seconds_error_begins(f.connect, "连接超时（秒）"@, "连接超时"@);
    seconds_error_begins(f.first_byte, "首字节超时（秒）"@, "首字节超时"@);
    seconds_error_begins(f.pool_idle, "池空闲超时（秒）"@, "池空闲超时"@);
    number_error_begins(f.response_head, "响应头超时（ms）"@);
    number_error_begins(f.cors_max_age, "预热 Max-Age（秒）"@);
    number_error_begins(f.pool_max, "池最大空闲/主机"@);
    if settings_form::whole(f.response_head, "响应头超时（ms）"@) is Err {
        begins_shorter(
            settings_form::whole(f.response_head, "响应头超时（ms）"@)->Err_0,
            "响应头超时（ms）"@,
            "响应头超时"@,
        );
    }
    if settings_form::whole(f.cors_max_age, "预热 Max-Age（秒）"@) is Err {
        begins_shorter(
            settings_form::whole(f.cors_max_age, "预热 Max-Age（秒）"@)->Err_0,
            "预热 Max-Age（秒）"@,
            "预热 Max-Age"@,
        );
    }
}

/// Up to a day, seconds become a thousand milliseconds each; more is refused.
pub proof fn seconds_become_milliseconds(seconds: u64, field: Seq<char>)
    ensures
        settings_form::milliseconds(seconds, field) is Ok <==> seconds <= 24 * 60 * 60,
        settings_form::milliseconds(seconds, field) is Ok ==> settings_form::milliseconds(
            seconds,
            field,
        )->Ok_0 == 1000 * seconds,
{
}

/// The result line tells the outcome: a refused change has a cross and the tone of an
/// error, an applied one a tick and the tone of a success, anything else neither.
pub proof fn result_line_tells_the_outcome(stage: ApplyStage)
    ensures
        ({
            let tone = settings_form::tone_of(stage);
            &&& tone == ResultTone::Error <==> stage == ApplyStage::Failed
            &&& tone == ResultTone::Success <==> stage == ApplyStage::Applied
            &&& settings_form::mark(tone)
                == if stage == ApplyStage::Failed {
                "✗ "@
            } else if stage == ApplyStage::Applied {
                "✓ "@
            } else {
                Seq::empty()
            }
        }),
{
    reveal_strlit("");
    assert(""@ =~= Seq::<char>::empty());
}

proof fn slash_tail(s: Seq<char>)
    ensures
        fields::without_tail(s.push('/'), |c: char| c == '/') == fields::without_tail(
            s,
            |c: char| c == '/',
        ),
{
    assert(s.push('/').drop_last() =~= s);
}

/// The address to ask is the list of models below the upstream, whatever blanks stand
/// around the upstream and however many slashes behind it; there is none without an
/// upstream.
pub proof fn probe_asks_for_the_models(upstream: Seq<char>)
    ensures
        settings_form::probe_address(fields::trimmed(upstream)) == settings_form::probe_address(
            upstream,
        ),
        fields::trimmed(upstream) == upstream ==> settings_form::probe_address(upstream.push('/'))
            == settings_form::probe_address(upstream),
        fields::trimmed(upstream) == upstream && upstream.len() > 0 && upstream.last() != '/'
            ==> settings_form::probe_address(upstream) == Some(upstream + "/v1/models"@),
        upstream.len() == 0 ==> settings_form::probe_address(upstream) is None,
{
    fields::trimming_settles(upstream);
    if fields::trimmed(upstream) == upstream {
        slash_tail(upstream);
        let more = upstream.push('/');
        if upstream.len() > 0 {
            assert(!fields::space(upstream[0]));
        }
        fields::bare_text_is_trimmed(more);
    }
}

proof fn first_line_is_the_longest(
    width: spec_fn(Seq<char>) -> int,
    s: Seq<char>,
    from: nat,
    room: int,
)
    requires
        from <= s.len(),
    ensures
        ({
            let cut = settings_form::first_line(width, s, from, room);
            &&& from <= cut <= s.len()
            &&& forall|k: int| from < k <= cut ==> width(#[trigger] s.take(k)) <= room
            &&& cut < s.len() ==> width(s.take(cut as int + 1)) > room
        }),
    decreases s.len() - from,
{
    if from < s.len() && width(s.take(from as int + 1)) <= room {
        first_line_is_the_longest(width, s, from + 1, room);
        let cut = settings_form::first_line(width, s, from, room);
        assert forall|k: int| from < k <= cut implies width(#[trigger] s.take(k)) <= room by {
            if k > from + 1 {
                assert(width(s.take(k)) <= room);
            }
        }
    }
}

/// A text that fits is one line. Otherwise the first line holds its beginning, up to the
/// first character that no longer fits, and the second what follows, cut to the room.
pub proof fn lines_hold_the_text_in_order(
    width: spec_fn(Seq<char>) -> int,
    s: Seq<char>,
    room: int,
)
    requires
        room > 0,
    ensures
        ({
            let lines = settings_form::two_lines(width, s, room);
            let cut = lines.0.len() as int;
            &&& width(s) <= room ==> lines.0 == s && lines.1 is None
            &&& width(s) > room ==> lines.1 is Some
            &&& cut <= s.len() && lines.0 == s.take(cut)
            &&& width(s) > room ==> forall|k: int|
                0 < k <= cut ==> width(#[trigger] s.take(k)) <= room
            &&& width(s) > room && cut < s.len() ==> width(s.take(cut + 1)) > room
            &&& width(s) > room ==> lines.1->0 == theme::fitted(width, s.skip(cut), room)
        }),
{
    first_line_is_the_longest(width, s, 0, room);
    assert(s.take(s.len() as int) =~= s);
}

// ---------------------------------------------------------------------------
// What is seen of the values

/// A configuration is seen as it is kept, every setting under its own name.
pub proof fn configuration_is_seen_as_kept(c: Config)
    ensures
        c@.upstream_base == c.upstream_base@,
        c@.strip_prefix == c.strip_prefix@,
        c@.listen_port == c.listen_port,
        c@.port_fallback == c.port_fallback@,
        c@.connect_ms == c.timeouts.connect_ms,
        c@.first_byte_ms == c.timeouts.first_byte_ms,
        c@.response_head_ms == c.timeouts.response_head_ms,
        c@.cors_mode == c.cors.mode@,
        c@.max_age_seconds == c.cors.max_age_seconds,
        c@.max_idle_per_host == c.pool.max_idle_per_host,
        c@.idle_timeout_ms == c.pool.idle_timeout_ms,
        c@.log_level == c.log_level@,
        c@.close_action == c.close_action@,
{
}

/// The texts of the fields are seen as they are kept, each under its own name.
pub proof fn fields_are_seen_as_kept(f: FieldTexts)
    ensures
        f@.upstream == f.upstream@,
        f@.strip == f.strip@,
        f@.port == f.port@,
        f@.fallback == f.fallback@,
        f@.connect == f.connect@,
        f@.first_byte == f.first_byte@,
        f@.response_head == f.response_head@,
        f@.cors_max_age == f.cors_max_age@,
        f@.pool_max == f.pool_max@,
        f@.pool_idle == f.pool_idle@,
{
}

/// A result is seen as what it is: a success with its value, a refusal with its words.
pub proof fn results_are_seen_as_they_are(c: Config, list: Vec<u16>, n: u64, e: String)
    ensures
        settings_form::config_view(Ok(c)) == Ok::<ConfigView, Seq<char>>(c@),
        settings_form::config_view(Err(e)) == Err::<ConfigView, Seq<char>>(e@),
        fields::list_view(Ok(list)) == Ok::<Seq<u16>, Seq<char>>(list@),
        fields::list_view(Err(e)) == Err::<Seq<u16>, Seq<char>>(e@),
        settings_form::error_view(Ok::<u64, String>(n)) == Ok::<u64, Seq<char>>(n),
        settings_form::error_view(Err::<u64, String>(e)) == Err::<u64, Seq<char>>(e@),
{
}

/// A refusal quotes what was typed, without the blanks around it, and says what was
/// expected.
pub proof fn refusals_quote_what_was_typed(typed: Seq<char>, field: Seq<char>, n: u64)
    ensures
        fields::number(fields::trimmed(typed), u64::MAX as nat) is None ==> settings_form::whole(
            typed,
            field,
        ) == Err::<u64, Seq<char>>(
            field + " 必须是非负整数（当前「"@ + fields::trimmed(typed) + "」）"@,
        ),
        fields::number(fields::trimmed(typed), 65535) is None ==> settings_form::port(typed, field)
            == Err::<u16, Seq<char>>(
            field + " 必须是 1–65535 的整数（当前「"@ + fields::trimmed(typed) + "」）"@,
        ),
        n > 86_400 ==> settings_form::milliseconds(n, field) == Err::<u64, Seq<char>>(
            field + " 不得超过 "@ + text::decimal(86_400) + " 秒（24 小时；当前 "@
                + text::decimal(n as nat) + "）"@,
        ),
        typed_number(typed) == Some(0nat) ==> settings_form::connect_limit(typed) == Err::<
            u64,
            Seq<char>,
        >("连接超时必须 ≥ 1 秒（0 会让不可达上游永远挂住）"@),
{
}

} // verus!
