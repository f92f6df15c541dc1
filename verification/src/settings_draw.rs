//! How the settings window draws its own controls, and what its messages mean.
use crate::doc_state::{ItemFlags, WM_CTLCOLOREDIT, WM_CTLCOLORSTATIC, WM_DRAWITEM};
use crate::geometry;
use crate::geometry::{halved, px, Rect, DPI_LIMIT};
use crate::main_messages;
use crate::main_messages::{
    WM_CLOSE, WM_COMMAND, WM_CREATE, WM_DESTROY, WM_DPICHANGED, WM_ERASEBKGND, WM_NCCREATE,
    WM_NCDESTROY, WM_PAINT,
};
use crate::panel_paint;
use crate::settings_form;
use crate::settings_form::{
    segment_member, segment_selected, split_two_lines, Draft, ResultTone,
};
use crate::settings_plan::{
    IDC_APPLY, IDC_COPY_LOGS, IDC_FIELD_ADVANCED, IDC_NOTICE_LOGS, IDC_RELOAD, IDC_TEST,
    IDC_VIEW_LOGS,
};
use crate::theme;
use crate::theme::{
    fit_text, FontRole, COLOR_ACCENT_DEEP, COLOR_ACCENT_PRESSED, COLOR_ACCENT_RING,
    COLOR_ACCENT_SOFT, COLOR_BG, COLOR_CARD, COLOR_CARD_BORDER, COLOR_DANGER_INK, COLOR_INK,
    COLOR_INK_DISABLED, COLOR_INK_SOFT, COLOR_PRESS_ON_CARD, RADIUS_BUTTON, SPACE_M, SPACE_S,
    SPACE_XS,
};
use crate::ui_state::WM_APP_TEST_RESULT;
use vstd::prelude::*;
use vstd::string::*;

verus! {

/// The width of a border.
#[derive(Clone, Copy, PartialEq, Eq, Structural, Debug)]
pub enum Stroke {
    /// One pixel.
    Hairline,
    /// One DIP.
    Scaled,
    /// One DIP, one pixel at least.
    ScaledHairline,
    /// Two DIPs.
    Ring,
}

/// One drawing step. Radii are in DIPs.
#[derive(Clone, Copy, PartialEq, Eq, Structural, Debug)]
pub enum ButtonOp {
    Fill { rect: Rect, color: u32 },
    Surface { rect: Rect, radius: u32, color: u32 },
    Border { rect: Rect, radius: u32, color: u32, stroke: Stroke },
    /// The tick of a checkbox.
    Tick { square: Rect },
    /// The text of the control.
    Text { font: FontRole, rect: Rect, color: u32, centered: bool },
}

/// Surface, border and ink.
#[derive(Clone, Copy, PartialEq, Eq, Structural, Debug)]
pub struct Skin {
    pub fill: u32,
    pub border: u32,
    pub ink: u32,
}

/// The skin of a segment.
pub open spec fn segment_skin(flags: ItemFlags, selected: bool) -> Skin {
    if flags.disabled {
        Skin { fill: COLOR_CARD, border: COLOR_CARD_BORDER, ink: COLOR_INK_DISABLED }
    } else if selected {
        Skin { fill: COLOR_ACCENT_SOFT, border: COLOR_ACCENT_DEEP, ink: COLOR_INK }
    } else if flags.pressed {
        Skin { fill: COLOR_PRESS_ON_CARD, border: COLOR_CARD_BORDER, ink: COLOR_INK }
    } else {
        Skin { fill: COLOR_CARD, border: COLOR_CARD_BORDER, ink: COLOR_INK }
    }
}

/// The skin of a button.
pub open spec fn button_skin(flags: ItemFlags, primary: bool) -> Skin {
    if flags.disabled && primary {
        Skin { fill: COLOR_INK_DISABLED, border: COLOR_INK_DISABLED, ink: COLOR_CARD }
    } else if flags.disabled {
        Skin { fill: COLOR_CARD, border: COLOR_CARD_BORDER, ink: COLOR_INK_DISABLED }
    } else if primary && flags.pressed {
        Skin { fill: COLOR_ACCENT_PRESSED, border: COLOR_ACCENT_PRESSED, ink: COLOR_CARD }
    } else if primary {
        Skin { fill: COLOR_ACCENT_DEEP, border: COLOR_ACCENT_DEEP, ink: COLOR_CARD }
    } else if flags.pressed {
        Skin { fill: COLOR_PRESS_ON_CARD, border: COLOR_CARD_BORDER, ink: COLOR_INK }
    } else {
        Skin { fill: COLOR_CARD, border: COLOR_CARD_BORDER, ink: COLOR_INK }
    }
}

/// The skin of a segment.
fn skin_of_segment(flags: ItemFlags, selected: bool) -> (skin: Skin)
    ensures
        skin == segment_skin(flags, selected),
{
    if flags.disabled {
        Skin { fill: COLOR_CARD, border: COLOR_CARD_BORDER, ink: COLOR_INK_DISABLED }
    } else if selected {
        Skin { fill: COLOR_ACCENT_SOFT, border: COLOR_ACCENT_DEEP, ink: COLOR_INK }
    } else if flags.pressed {
        Skin { fill: COLOR_PRESS_ON_CARD, border: COLOR_CARD_BORDER, ink: COLOR_INK }
    } else {
        Skin { fill: COLOR_CARD, border: COLOR_CARD_BORDER, ink: COLOR_INK }
    }
}

/// The skin of a button.
fn skin_of_button(flags: ItemFlags, primary: bool) -> (skin: Skin)
    ensures
        skin == button_skin(flags, primary),
{
    if flags.disabled {
        if primary {
            Skin { fill: COLOR_INK_DISABLED, border: COLOR_INK_DISABLED, ink: COLOR_CARD }
        } else {
            Skin { fill: COLOR_CARD, border: COLOR_CARD_BORDER, ink: COLOR_INK_DISABLED }
        }
    } else if primary {
        let fill = if flags.pressed {
            COLOR_ACCENT_PRESSED
        } else {
            COLOR_ACCENT_DEEP
        };
        Skin { fill, border: fill, ink: COLOR_CARD }
    } else if flags.pressed {
        Skin { fill: COLOR_PRESS_ON_CARD, border: COLOR_CARD_BORDER, ink: COLOR_INK }
    } else {
        Skin { fill: COLOR_CARD, border: COLOR_CARD_BORDER, ink: COLOR_INK }
    }
}

/// A rectangle one pixel inside another.
pub open spec fn inner(r: Rect) -> Rect {
    Rect {
        left: (r.left + 1) as i32,
        top: (r.top + 1) as i32,
        right: (r.right - 1) as i32,
        bottom: (r.bottom - 1) as i32,
    }
}

/// A rounded face with its border and, if asked for, a focus ring; a plain rectangle
/// where only those can be drawn.
pub open spec fn face(
    rect: Rect,
    skin: Skin,
    stroke: Stroke,
    ring: bool,
    rich: bool,
) -> Seq<ButtonOp> {
    if !rich {
        seq![ButtonOp::Fill { rect, color: skin.fill }]
    } else {
        let body = seq![
            ButtonOp::Surface { rect, radius: RADIUS_BUTTON, color: skin.fill },
            ButtonOp::Border { rect, radius: RADIUS_BUTTON, color: skin.border, stroke },
        ];
        if ring {
            body.push(
                ButtonOp::Border {
                    rect: inner(rect),
                    radius: RADIUS_BUTTON,
                    color: COLOR_ACCENT_RING,
                    stroke: Stroke::Ring,
                },
            )
        } else {
            body
        }
    }
}

/// The square of a checkbox.
pub open spec fn check_square(rect: Rect, dpi: u32) -> Rect {
    let size = geometry::dip(dpi, 18);
    let x = rect.left + geometry::dip(dpi, 4);
    let y = rect.top + geometry::half(rect.bottom - rect.top - size);
    Rect { left: x as i32, top: y as i32, right: (x + size) as i32, bottom: (y + size) as i32 }
}

/// A checkbox: its square, the tick if it is set, and its text beside it.
pub open spec fn checkbox(rect: Rect, on: bool, rich: bool, dpi: u32) -> Seq<ButtonOp> {
    let square = check_square(rect, dpi);
    let mark = if !rich {
        seq![ButtonOp::Fill { rect: square, color: COLOR_CARD_BORDER }]
    } else if on {
        seq![
            ButtonOp::Surface { rect: square, radius: 4, color: COLOR_ACCENT_DEEP },
            ButtonOp::Border {
                rect: square,
                radius: 4,
                color: COLOR_ACCENT_DEEP,
                stroke: Stroke::ScaledHairline,
            },
            ButtonOp::Tick { square },
        ]
    } else {
        seq![
            ButtonOp::Surface { rect: square, radius: 4, color: COLOR_CARD },
            ButtonOp::Border {
                rect: square,
                radius: 4,
                color: COLOR_CARD_BORDER,
                stroke: Stroke::ScaledHairline,
            },
        ]
    };
    mark.push(
        ButtonOp::Text {
            font: FontRole::Ui,
            rect: Rect { left: (square.right + geometry::dip(dpi, 8)) as i32, ..rect },
            color: COLOR_INK,
            centered: false,
        },
    )
}

/// A segment or a button: its face and its text in the middle.
pub open spec fn labelled(
    rect: Rect,
    skin: Skin,
    stroke: Stroke,
    ring: bool,
    bold: bool,
    rich: bool,
) -> Seq<ButtonOp> {
    face(rect, skin, stroke, ring, rich).push(
        ButtonOp::Text {
            font: if bold {
                FontRole::UiBold
            } else {
                FontRole::Ui
            },
            rect,
            color: skin.ink,
            centered: true,
        },
    )
}

/// The picture of a control, on the ground of the window.
pub open spec fn button_picture(
    id: usize,
    rect: Rect,
    flags: ItemFlags,
    advanced_open: bool,
    draft: Draft,
    rich: bool,
    dpi: u32,
) -> Seq<ButtonOp> {
    let ground = seq![ButtonOp::Fill { rect, color: COLOR_BG }];
    if id == IDC_FIELD_ADVANCED {
        ground + checkbox(rect, advanced_open, rich, dpi)
    } else {
        match settings_form::segment_of(id) {
            Some((group, index)) => {
                let selected = settings_form::choice(draft, group) == index;
                ground + labelled(
                    rect,
                    segment_skin(flags, selected),
                    if selected {
                        Stroke::Scaled
                    } else {
                        Stroke::Hairline
                    },
                    flags.focused,
                    selected,
                    rich,
                )
            },
            None => {
                let primary = id == IDC_APPLY;
                ground + labelled(
                    rect,
                    button_skin(flags, primary),
                    Stroke::ScaledHairline,
                    flags.focused && !primary,
                    primary,
                    rich,
                )
            },
        }
    }
}

fn push_labelled(
    ops: &mut Vec<ButtonOp>,
    rect: Rect,
    skin: Skin,
    stroke: Stroke,
    ring: bool,
    bold: bool,
    rich: bool,
)
    requires
        panel_paint::sane_rect(rect),
    ensures
        final(ops)@ == old(ops)@ + labelled(rect, skin, stroke, ring, bold, rich),
{
    if rich {
        ops.push(ButtonOp::Surface { rect, radius: RADIUS_BUTTON, color: skin.fill });
        ops.push(ButtonOp::Border { rect, radius: RADIUS_BUTTON, color: skin.border, stroke });
        if ring {
            ops.push(
                ButtonOp::Border {
                    rect: Rect {
                        left: rect.left + 1,
                        top: rect.top + 1,
                        right: rect.right - 1,
                        bottom: rect.bottom - 1,
                    },
                    radius: RADIUS_BUTTON,
                    color: COLOR_ACCENT_RING,
                    stroke: Stroke::Ring,
                },
            );
        }
    } else {
        ops.push(ButtonOp::Fill { rect, color: skin.fill });
    }
    ops.push(
        ButtonOp::Text {
            font: if bold {
                FontRole::UiBold
            } else {
                FontRole::Ui
            },
            rect,
            color: skin.ink,
            centered: true,
        },
    );
    assert(ops@ =~= old(ops)@ + labelled(rect, skin, stroke, ring, bold, rich));
}

fn push_checkbox(ops: &mut Vec<ButtonOp>, rect: Rect, on: bool, rich: bool, dpi: u32)
    requires
        dpi <= DPI_LIMIT,
        panel_paint::sane_rect(rect),
    ensures
        final(ops)@ == old(ops)@ + checkbox(rect, on, rich, dpi),
{
    let size = px(dpi, 18);
    let x = rect.left + px(dpi, SPACE_XS);
    let y = rect.top + halved(rect.bottom - rect.top - size);
    let square = Rect { left: x, top: y, right: x + size, bottom: y + size };
    assert(square == check_square(rect, dpi));
    if rich {
        let fill = if on {
            COLOR_ACCENT_DEEP
        } else {
            COLOR_CARD
        };
        let border = if on {
            COLOR_ACCENT_DEEP
        } else {
            COLOR_CARD_BORDER
        };
        ops.push(ButtonOp::Surface { rect: square, radius: 4, color: fill });
        ops.push(
            ButtonOp::Border {
                rect: square,
                radius: 4,
                color: border,
                stroke: Stroke::ScaledHairline,
            },
        );
        if on {
            ops.push(ButtonOp::Tick { square });
        }
    } else {
        ops.push(ButtonOp::Fill { rect: square, color: COLOR_CARD_BORDER });
    }
    ops.push(
        ButtonOp::Text {
            font: FontRole::Ui,
            rect: Rect {
                left: square.right + px(dpi, SPACE_S),
                top: rect.top,
                right: rect.right,
                bottom: rect.bottom,
            },
            color: COLOR_INK,
            centered: false,
        },
    );
    assert(ops@ =~= old(ops)@ + checkbox(rect, on, rich, dpi));
}

/// The drawing steps of a button, a checkbox or a segment.
pub fn draw_button(
    id: usize,
    rect: Rect,
    flags: ItemFlags,
    advanced_open: bool,
    draft: Draft,
    rich: bool,
    dpi: u32,
) -> (ops: Vec<ButtonOp>)
    requires
        dpi <= DPI_LIMIT,
        panel_paint::sane_rect(rect),
    ensures
        ops@ == button_picture(id, rect, flags, advanced_open, draft, rich, dpi),
{
    let mut ops: Vec<ButtonOp> = Vec::new();
    ops.push(ButtonOp::Fill { rect, color: COLOR_BG });
    assert(ops@ =~= seq![ButtonOp::Fill { rect, color: COLOR_BG }]);
    if id == IDC_FIELD_ADVANCED {
        push_checkbox(&mut ops, rect, advanced_open, rich, dpi);
        return ops;
    }
    match segment_member(id) {
        Some((group, index)) => {
            let selected = segment_selected(draft, group, index);
            let stroke = if selected {
                Stroke::Scaled
            } else {
                Stroke::Hairline
            };
            push_labelled(
                &mut ops,
                rect,
                skin_of_segment(flags, selected),
                stroke,
                flags.focused,
                selected,
                rich,
            );
        },
        None => {
            let primary = id == IDC_APPLY;
            push_labelled(
                &mut ops,
                rect,
                skin_of_button(flags, primary),
                Stroke::ScaledHairline,
                flags.focused && !primary,
                primary,
                rich,
            );
        },
    }
    ops
}

// ---------------------------------------------------------------------------
// The result line and the failure notice

/// The picture of the result line.
#[derive(Debug)]
pub struct ResultPicture {
    pub ink: u32,
    /// The bar before a failure.
    pub bar: Option<Rect>,
    pub first: (String, Rect),
    pub second: Option<(String, Rect)>,
}

/// The ink of a tone.
pub open spec fn tone_ink(tone: ResultTone) -> u32 {
    match tone {
        ResultTone::Plain => COLOR_INK_SOFT,
        ResultTone::Success => COLOR_INK,
        ResultTone::Error => COLOR_DANGER_INK,
    }
}

/// The bar before a failure.
pub open spec fn failure_bar(rect: Rect, dpi: u32) -> Rect {
    panel_paint::rect_of(
        rect.left as int,
        rect.top + geometry::dip(dpi, 2),
        rect.left + geometry::dip(dpi, 3),
        rect.bottom - geometry::dip(dpi, 2),
    )
}

/// Where the text of the result line begins.
pub open spec fn result_left(rect: Rect, tone: ResultTone, dpi: u32) -> int {
    if tone == ResultTone::Error {
        rect.left + geometry::dip(dpi, 3) + geometry::dip(dpi, 8)
    } else {
        rect.left as int
    }
}

/// The picture of the result line: its ink, the bar before a failure, and the text on
/// one line or two.
pub fn draw_result<F: Fn(&str) -> i32>(
    measure: F,
    words: &str,
    rect: Rect,
    tone: ResultTone,
    dpi: u32,
) -> (p: ResultPicture)
    requires
        dpi <= DPI_LIMIT,
        panel_paint::sane_rect(rect),
        forall|s: &str| call_requires(measure, (s,)),
    ensures
        p.ink == tone_ink(tone),
        p.bar == if tone == ResultTone::Error {
            Some(failure_bar(rect, dpi))
        } else {
            None
        },
        p.first.1 == panel_paint::rect_of(
            result_left(rect, tone, dpi),
            rect.top as int,
            rect.right as int,
            rect.top + geometry::dip(dpi, 18),
        ),
        p.second is Some ==> (p.second->0).1 == panel_paint::rect_of(
            result_left(rect, tone, dpi),
            rect.top + geometry::dip(dpi, 18),
            rect.right as int,
            rect.bottom as int,
        ),
        forall|width: spec_fn(Seq<char>) -> int| #[trigger]
            theme::measures(measure, width) ==> {
                let lines = settings_form::two_lines(
                    width,
                    words@,
                    rect.right - result_left(rect, tone, dpi),
                );
                &&& p.first.0@ == lines.0
                &&& p.second is Some == lines.1 is Some
                &&& p.second is Some ==> (p.second->0).0@ == lines.1->0
            },
{
    let failed = match tone {
        ResultTone::Error => true,
        _ => false,
    };
    let ink = match tone {
        ResultTone::Plain => COLOR_INK_SOFT,
        ResultTone::Success => COLOR_INK,
        ResultTone::Error => COLOR_DANGER_INK,
    };
    let (bar, left) = if failed {
        let bar = Rect {
            left: rect.left,
            top: rect.top + px(dpi, 2),
            right: rect.left + px(dpi, 3),
            bottom: rect.bottom - px(dpi, 2),
        };
        (Some(bar), bar.right + px(dpi, SPACE_S))
    } else {
        (None, rect.left)
    };
    let line = px(dpi, 18);
    let (one, two) = split_two_lines(measure, words, rect.right - left);
    let first = (
        one,
        Rect { left, top: rect.top, right: rect.right, bottom: rect.top + line },
    );
    let second = match two {
        Some(text) => Some(
            (text, Rect { left, top: rect.top + line, right: rect.right, bottom: rect.bottom }),
        ),
        None => None,
    };
    ResultPicture { ink, bar, first, second }
}

/// The text of the failure notice and where it stands: cut where there is no room for
/// it.
pub fn draw_notice<F: Fn(&str) -> i32>(measure: F, words: &str, rect: Rect, dpi: u32) -> (r: (
    String,
    Rect,
))
    requires
        dpi <= DPI_LIMIT,
        panel_paint::sane_rect(rect),
        forall|s: &str| call_requires(measure, (s,)),
    ensures
        r.1 == panel_paint::rect_of(
            rect.left + geometry::dip(dpi, 12),
            rect.top as int,
            rect.right - geometry::dip(dpi, 8),
            rect.bottom as int,
        ),
        forall|width: spec_fn(Seq<char>) -> int| #[trigger]
            theme::measures(measure, width) ==> {
                let room = r.1.right - r.1.left;
                r.0@ == if width(words@) > room {
                    theme::fitted(width, words@, room)
                } else {
                    words@
                }
            },
{
    let place = Rect {
        left: rect.left + px(dpi, SPACE_M),
        top: rect.top,
        right: rect.right - px(dpi, SPACE_S),
        bottom: rect.bottom,
    };
    let room = place.right - place.left;
    let shown = if measure(words) > room {
        fit_text(measure, words, room)
    } else {
        words.to_owned()
    };
    (shown, place)
}

// ---------------------------------------------------------------------------
// Messages

pub const WM_CTLCOLORBTN: u32 = 0x135;

pub const ODT_BUTTON: u32 = 4;

pub const ODT_STATIC: u32 = 5;

/// What a message means to the settings window.
#[derive(Clone, Copy, PartialEq, Eq, Structural, Debug)]
pub enum SettingsEvent {
    Attach,
    Create,
    /// A segment was chosen.
    Segment(usize),
    Apply,
    Test,
    Reload,
    ViewLogs,
    CopyLogs,
    ToggleAdvanced,
    DrawItem,
    Paint,
    TestResult,
    StaticColor,
    EditColor,
    EraseGround,
    DpiChanged(u32),
    Close,
    Destroy,
    Detach,
    /// Answered with 0 and nothing else.
    Ignore,
    Default,
}

/// What a command means.
pub open spec fn command_event_of(id: usize) -> SettingsEvent {
    if settings_form::segment_of(id) is Some {
        SettingsEvent::Segment(id)
    } else if id == IDC_APPLY {
        SettingsEvent::Apply
    } else if id == IDC_TEST {
        SettingsEvent::Test
    } else if id == IDC_RELOAD {
        SettingsEvent::Reload
    } else if id == IDC_VIEW_LOGS || id == IDC_NOTICE_LOGS {
        SettingsEvent::ViewLogs
    } else if id == IDC_COPY_LOGS {
        SettingsEvent::CopyLogs
    } else if id == IDC_FIELD_ADVANCED {
        SettingsEvent::ToggleAdvanced
    } else {
        SettingsEvent::Ignore
    }
}

fn command_event(id: usize) -> (event: SettingsEvent)
    ensures
        event == command_event_of(id),
{
    if segment_member(id).is_some() {
        SettingsEvent::Segment(id)
    } else if id == IDC_APPLY {
        SettingsEvent::Apply
    } else if id == IDC_TEST {
        SettingsEvent::Test
    } else if id == IDC_RELOAD {
        SettingsEvent::Reload
    } else if id == IDC_VIEW_LOGS || id == IDC_NOTICE_LOGS {
        SettingsEvent::ViewLogs
    } else if id == IDC_COPY_LOGS {
        SettingsEvent::CopyLogs
    } else if id == IDC_FIELD_ADVANCED {
        SettingsEvent::ToggleAdvanced
    } else {
        SettingsEvent::Ignore
    }
}

/// What a message means to the settings window.
pub open spec fn settings_event_of(message: u32, wparam: u64) -> SettingsEvent {
    if message == WM_NCCREATE {
        SettingsEvent::Attach
    } else if message == WM_CREATE {
        SettingsEvent::Create
    } else if message == WM_COMMAND {
        command_event_of(main_messages::low_word(wparam) as usize)
    } else if message == WM_DRAWITEM {
        SettingsEvent::DrawItem
    } else if message == WM_PAINT {
        SettingsEvent::Paint
    } else if message == WM_APP_TEST_RESULT {
        SettingsEvent::TestResult
    } else if message == WM_CTLCOLORSTATIC || message == WM_CTLCOLORBTN {
        SettingsEvent::StaticColor
    } else if message == WM_CTLCOLOREDIT {
        SettingsEvent::EditColor
    } else if message == WM_ERASEBKGND {
        SettingsEvent::EraseGround
    } else if message == WM_DPICHANGED {
        SettingsEvent::DpiChanged(main_messages::low_word(wparam) as u32)
    } else if message == WM_CLOSE {
        SettingsEvent::Close
    } else if message == WM_DESTROY {
        SettingsEvent::Destroy
    } else if message == WM_NCDESTROY {
        SettingsEvent::Detach
    } else {
        SettingsEvent::Default
    }
}

/// What a message means to the settings window.
pub fn settings_event(message: u32, wparam: u64) -> (event: SettingsEvent)
    ensures
        event == settings_event_of(message, wparam),
{
    if message == WM_NCCREATE {
        SettingsEvent::Attach
    } else if message == WM_CREATE {
        SettingsEvent::Create
    } else if message == WM_COMMAND {
        command_event(main_messages::low_of(wparam) as usize)
    } else if message == WM_DRAWITEM {
        SettingsEvent::DrawItem
    } else if message == WM_PAINT {
        SettingsEvent::Paint
    } else if message == WM_APP_TEST_RESULT {
        SettingsEvent::TestResult
    } else if message == WM_CTLCOLORSTATIC || message == WM_CTLCOLORBTN {
        SettingsEvent::StaticColor
    } else if message == WM_CTLCOLOREDIT {
        SettingsEvent::EditColor
    } else if message == WM_ERASEBKGND {
        SettingsEvent::EraseGround
    } else if message == WM_DPICHANGED {
        SettingsEvent::DpiChanged(main_messages::low_of(wparam) as u32)
    } else if message == WM_CLOSE {
        SettingsEvent::Close
    } else if message == WM_DESTROY {
        SettingsEvent::Destroy
    } else if message == WM_NCDESTROY {
        SettingsEvent::Detach
    } else {
        SettingsEvent::Default
    }
}

/// A chosen segment stays chosen: its picture is the marked one whatever was chosen
/// before, unless it is disabled.
pub proof fn chosen_segment_is_marked(
    id: usize,
    rect: Rect,
    flags: ItemFlags,
    advanced_open: bool,
    draft: Draft,
    dpi: u32,
)
    requires
        settings_form::segment_of(id) is Some,
        settings_form::choice(draft, (settings_form::segment_of(id)->0).0)
            == (settings_form::segment_of(id)->0).1,
        !flags.disabled,
    ensures
        button_picture(id, rect, flags, advanced_open, draft, true, dpi)[1] == (ButtonOp::Surface {
            rect,
            radius: RADIUS_BUTTON,
            color: COLOR_ACCENT_SOFT,
        }),
{
}

} // verus!
