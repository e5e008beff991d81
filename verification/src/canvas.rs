use vstd::prelude::*;

use crate::args::Arg;
use crate::errors::{spec_is_unexpected, unexpected_args, ArgumentError};
use crate::messages::{Color, KotoMessage, Num, Point, Rect};

verus! {

/// The bit pattern of the IEEE-754 double `1.0`, the default alpha channel
/// when a color is given as three numbers.
pub const FLOAT_ONE_BITS: u64 = 0x3ff0_0000_0000_0000;

/// The canvas capability functions that validate guest arguments and build
/// drawing messages. The pure accessors `width` and `height` are not listed:
/// they read a stable value and build no message.
#[derive(Clone, Copy, Debug, PartialEq, Eq, Structural)]
pub enum CanvasFn {
    Arc,
    BeginPath,
    Clear,
    Fill,
    FillRect,
    FillText,
    LineTo,
    MoveTo,
    Rect,
    Rotate,
    SetFillColor,
    SetFont,
    SetLineWidth,
    SetStrokeColor,
    SetTextAlign,
    SetTextBaseline,
    SetTransform,
    Stroke,
    StrokeRect,
    StrokeText,
    Translate,
}

// ---------------------------------------------------------------------------
// Shared argument shapes
// ---------------------------------------------------------------------------

/// A point given as two numbers or as one 2-vector.
pub open spec fn spec_point_shape(args: Seq<Arg>) -> Option<Point> {
    if args.len() == 2 {
        match (args[0].spec_as_number(), args[1].spec_as_number()) {
            (Some(x), Some(y)) => Some(Point { x, y }),
            _ => None,
        }
    } else if args.len() == 1 {
        match args[0] {
            Arg::Num2(x, y) => Some(Point { x, y }),
            _ => None,
        }
    } else {
        None
    }
}

pub fn point_shape(args: &Vec<Arg>) -> (r: Option<Point>)
    ensures
        r == spec_point_shape(args@),
{
    if args.len() == 2 {
        match (args[0].as_number(), args[1].as_number()) {
            (Some(x), Some(y)) => Some(Point { x, y }),
            _ => None,
        }
    } else if args.len() == 1 {
        match &args[0] {
            Arg::Num2(x, y) => Some(Point { x: *x, y: *y }),
            _ => None,
        }
    } else {
        None
    }
}

/// A rectangle given as a 2-vector plus width and height, or as four numbers.
pub open spec fn spec_rect_shape(args: Seq<Arg>) -> Option<Rect> {
    if args.len() == 3 {
        match (args[0], args[1].spec_as_number(), args[2].spec_as_number()) {
            (Arg::Num2(x, y), Some(width), Some(height)) => Some(
                Rect { x, y, width, height },
            ),
            _ => None,
        }
    } else if args.len() == 4 {
        match (
            args[0].spec_as_number(),
            args[1].spec_as_number(),
            args[2].spec_as_number(),
            args[3].spec_as_number(),
        ) {
            (Some(x), Some(y), Some(width), Some(height)) => Some(Rect { x, y, width, height }),
            _ => None,
        }
    } else {
        None
    }
}

pub fn rect_shape(args: &Vec<Arg>) -> (r: Option<Rect>)
    ensures
        r == spec_rect_shape(args@),
{
    if args.len() == 3 {
        let xy = match &args[0] {
            Arg::Num2(x, y) => Some((*x, *y)),
            _ => None,
        };
        match (xy, args[1].as_number(), args[2].as_number()) {
            (Some((x, y)), Some(width), Some(height)) => Some(Rect { x, y, width, height }),
            _ => None,
        }
    } else if args.len() == 4 {
        match (args[0].as_number(), args[1].as_number(), args[2].as_number(), args[3].as_number()) {
            (Some(x), Some(y), Some(width), Some(height)) => Some(Rect { x, y, width, height }),
            _ => None,
        }
    } else {
        None
    }
}

/// A color given as three numbers (alpha defaults to one), four numbers, or
/// one color value.
pub open spec fn spec_color_shape(args: Seq<Arg>) -> Option<Color> {
    if args.len() == 3 {
        match (args[0].spec_as_number(), args[1].spec_as_number(), args[2].spec_as_number()) {
            (Some(r), Some(g), Some(b)) => Some(Color { r, g, b, a: Num::Float(FLOAT_ONE_BITS) }),
            _ => None,
        }
    } else if args.len() == 4 {
        match (
            args[0].spec_as_number(),
            args[1].spec_as_number(),
            args[2].spec_as_number(),
            args[3].spec_as_number(),
        ) {
            (Some(r), Some(g), Some(b), Some(a)) => Some(Color { r, g, b, a }),
            _ => None,
        }
    } else if args.len() == 1 {
        match args[0] {
            Arg::Num4(r, g, b, a) => Some(Color { r, g, b, a }),
            _ => None,
        }
    } else {
        None
    }
}

pub fn color_shape(args: &Vec<Arg>) -> (r: Option<Color>)
    ensures
        r == spec_color_shape(args@),
{
    if args.len() == 3 {
        match (args[0].as_number(), args[1].as_number(), args[2].as_number()) {
            (Some(r), Some(g), Some(b)) => Some(
                Color { r, g, b, a: Num::Float(FLOAT_ONE_BITS) },
            ),
            _ => None,
        }
    } else if args.len() == 4 {
        match (args[0].as_number(), args[1].as_number(), args[2].as_number(), args[3].as_number()) {
            (Some(r), Some(g), Some(b), Some(a)) => Some(Color { r, g, b, a }),
            _ => None,
        }
    } else if args.len() == 1 {
        match &args[0] {
            Arg::Num4(r, g, b, a) => Some(Color { r: *r, g: *g, b: *b, a: *a }),
            _ => None,
        }
    } else {
        None
    }
}

/// A text draw given as text plus a point, with an optional maximum width.
/// The text is reported as a sequence of characters.
pub open spec fn spec_text_shape(args: Seq<Arg>) -> Option<(Seq<char>, Point, Option<Num>)> {
    if args.len() == 2 {
        match (args[0], args[1]) {
            (Arg::Str(s), Arg::Num2(x, y)) => Some((s@, Point { x, y }, None)),
            _ => None,
        }
    } else if args.len() == 3 {
        match (args[0], args[1], args[2].spec_as_number()) {
            (Arg::Str(s), Arg::Number(x), Some(y)) => Some((s@, Point { x, y }, None)),
            (Arg::Str(s), Arg::Num2(x, y), Some(max_width)) => Some(
                (s@, Point { x, y }, Some(max_width)),
            ),
            _ => None,
        }
    } else if args.len() == 4 {
        match (
            args[0],
            args[1].spec_as_number(),
            args[2].spec_as_number(),
            args[3].spec_as_number(),
        ) {
            (Arg::Str(s), Some(x), Some(y), Some(max_width)) => Some(
                (s@, Point { x, y }, Some(max_width)),
            ),
            _ => None,
        }
    } else {
        None
    }
}

/// The executable counterpart of [`spec_text_shape`]; the returned string's
/// view equals the reported character sequence.
pub fn text_shape(args: &Vec<Arg>) -> (r: Option<(String, Point, Option<Num>)>)
    ensures
        match (r, spec_text_shape(args@)) {
            (Some((s, p, mw)), Some((ss, sp, smw))) => s@ == ss && p == sp && mw == smw,
            (None, None) => true,
            _ => false,
        },
{
    if args.len() == 2 {
        match (&args[0], &args[1]) {
            (Arg::Str(s), Arg::Num2(x, y)) => Some((s.clone(), Point { x: *x, y: *y }, None)),
            _ => None,
        }
    } else if args.len() == 3 {
        match (&args[0], &args[1], args[2].as_number()) {
            (Arg::Str(s), Arg::Number(x), Some(y)) => Some(
                (s.clone(), Point { x: *x, y }, None),
            ),
            (Arg::Str(s), Arg::Num2(x, y), Some(max_width)) => Some(
                (s.clone(), Point { x: *x, y: *y }, Some(max_width)),
            ),
            _ => None,
        }
    } else if args.len() == 4 {
        match (&args[0], args[1].as_number(), args[2].as_number(), args[3].as_number()) {
            (Arg::Str(s), Some(x), Some(y), Some(max_width)) => Some(
                (s.clone(), Point { x, y }, Some(max_width)),
            ),
            _ => None,
        }
    } else {
        None
    }
}

/// A single number.
pub open spec fn spec_single_num(args: Seq<Arg>) -> Option<Num> {
    if args.len() == 1 {
        args[0].spec_as_number()
    } else {
        None
    }
}

pub fn single_num(args: &Vec<Arg>) -> (r: Option<Num>)
    ensures
        r == spec_single_num(args@),
{
    if args.len() == 1 {
        args[0].as_number()
    } else {
        None
    }
}

/// A single string, reported as a sequence of characters.
pub open spec fn spec_single_str(args: Seq<Arg>) -> Option<Seq<char>> {
    if args.len() == 1 {
        match args[0] {
            Arg::Str(s) => Some(s@),
            _ => None,
        }
    } else {
        None
    }
}

pub fn single_str(args: &Vec<Arg>) -> (r: Option<String>)
    ensures
        match (r, spec_single_str(args@)) {
            (Some(s), Some(ss)) => s@ == ss,
            (None, None) => true,
            _ => false,
        },
{
    if args.len() == 1 {
        match &args[0] {
            Arg::Str(s) => Some(s.clone()),
            _ => None,
        }
    } else {
        None
    }
}

/// Six numbers, for a full 2D transform.
pub open spec fn spec_transform_shape(args: Seq<Arg>) -> Option<(Num, Num, Num, Num, Num, Num)> {
    if args.len() == 6 {
        match (
            args[0].spec_as_number(),
            args[1].spec_as_number(),
            args[2].spec_as_number(),
            args[3].spec_as_number(),
            args[4].spec_as_number(),
            args[5].spec_as_number(),
        ) {
            (Some(a), Some(b), Some(c), Some(d), Some(e), Some(f)) => Some((a, b, c, d, e, f)),
            _ => None,
        }
    } else {
        None
    }
}

pub fn transform_shape(args: &Vec<Arg>) -> (r: Option<(Num, Num, Num, Num, Num, Num)>)
    ensures
        r == spec_transform_shape(args@),
{
    if args.len() == 6 {
        match (
            args[0].as_number(),
            args[1].as_number(),
            args[2].as_number(),
            args[3].as_number(),
            args[4].as_number(),
            args[5].as_number(),
        ) {
            (Some(a), Some(b), Some(c), Some(d), Some(e), Some(f)) => Some((a, b, c, d, e, f)),
            _ => None,
        }
    } else {
        None
    }
}

/// The arc shapes: a center (two numbers or a 2-vector), radius, start and
/// end angles, and an optional counter-clockwise flag.
pub open spec fn spec_arc_shape(args: Seq<Arg>) -> Option<KotoMessage> {
    if args.len() == 4 {
        match (
            args[0],
            args[1].spec_as_number(),
            args[2].spec_as_number(),
            args[3].spec_as_number(),
        ) {
            (Arg::Num2(x, y), Some(radius), Some(start_angle), Some(end_angle)) => Some(
                KotoMessage::Arc {
                    x,
                    y,
                    radius,
                    start_angle,
                    end_angle,
                    counter_clockwise: false,
                },
            ),
            _ => None,
        }
    } else if args.len() == 5 {
        match (
            args[0],
            args[1].spec_as_number(),
            args[2].spec_as_number(),
            args[3].spec_as_number(),
            args[4],
        ) {
            (Arg::Num2(x, y), Some(radius), Some(start_angle), Some(end_angle), Arg::Bool(
                counter_clockwise,
            )) => Some(
                KotoMessage::Arc { x, y, radius, start_angle, end_angle, counter_clockwise },
            ),
            _ => {
                match (
                    args[0].spec_as_number(),
                    args[1].spec_as_number(),
                    args[2].spec_as_number(),
                    args[3].spec_as_number(),
                    args[4].spec_as_number(),
                ) {
                    (Some(x), Some(y), Some(radius), Some(start_angle), Some(end_angle)) => Some(
                        KotoMessage::Arc {
                            x,
                            y,
                            radius,
                            start_angle,
                            end_angle,
                            counter_clockwise: false,
                        },
                    ),
                    _ => None,
                }
            },
        }
    } else if args.len() == 6 {
        match (
            args[0].spec_as_number(),
            args[1].spec_as_number(),
            args[2].spec_as_number(),
            args[3].spec_as_number(),
            args[4].spec_as_number(),
            args[5],
        ) {
            (Some(x), Some(y), Some(radius), Some(start_angle), Some(end_angle), Arg::Bool(
                counter_clockwise,
            )) => Some(
                KotoMessage::Arc { x, y, radius, start_angle, end_angle, counter_clockwise },
            ),
            _ => None,
        }
    } else {
        None
    }
}

pub fn arc_shape(args: &Vec<Arg>) -> (r: Option<KotoMessage>)
    ensures
        r == spec_arc_shape(args@),
{
    if args.len() == 4 {
        let xy = match &args[0] {
            Arg::Num2(x, y) => Some((*x, *y)),
            _ => None,
        };
        match (xy, args[1].as_number(), args[2].as_number(), args[3].as_number()) {
            (Some((x, y)), Some(radius), Some(start_angle), Some(end_angle)) => Some(
                KotoMessage::Arc {
                    x,
                    y,
                    radius,
                    start_angle,
                    end_angle,
                    counter_clockwise: false,
                },
            ),
            _ => None,
        }
    } else if args.len() == 5 {
        let xy = match &args[0] {
            Arg::Num2(x, y) => Some((*x, *y)),
            _ => None,
        };
        let ccw = match &args[4] {
            Arg::Bool(b) => Some(*b),
            _ => None,
        };
        match (xy, args[1].as_number(), args[2].as_number(), args[3].as_number(), ccw) {
            (Some((x, y)), Some(radius), Some(start_angle), Some(end_angle), Some(
                counter_clockwise,
            )) => Some(
                KotoMessage::Arc { x, y, radius, start_angle, end_angle, counter_clockwise },
            ),
            _ => {
                match (
                    args[0].as_number(),
                    args[1].as_number(),
                    args[2].as_number(),
                    args[3].as_number(),
                    args[4].as_number(),
                ) {
                    (Some(x), Some(y), Some(radius), Some(start_angle), Some(end_angle)) => Some(
                        KotoMessage::Arc {
                            x,
                            y,
                            radius,
                            start_angle,
                            end_angle,
                            counter_clockwise: false,
                        },
                    ),
                    _ => None,
                }
            },
        }
    } else if args.len() == 6 {
        let ccw = match &args[5] {
            Arg::Bool(b) => Some(*b),
            _ => None,
        };
        match (
            args[0].as_number(),
            args[1].as_number(),
            args[2].as_number(),
            args[3].as_number(),
            args[4].as_number(),
            ccw,
        ) {
            (Some(x), Some(y), Some(radius), Some(start_angle), Some(end_angle), Some(
                counter_clockwise,
            )) => Some(
                KotoMessage::Arc { x, y, radius, start_angle, end_angle, counter_clockwise },
            ),
            _ => None,
        }
    } else {
        None
    }
}

// ---------------------------------------------------------------------------
// Per-function validation
// ---------------------------------------------------------------------------

/// Whether a String's characters equal a literal's.
fn string_eq_lit(s: &String, lit: &str) -> (r: bool)
    ensures
        r == (s@ == lit@),
{
    let other = String::from_str(lit);
    *s == other
}

pub open spec fn spec_arc_post(args: Seq<Arg>, r: Result<KotoMessage, ArgumentError>) -> bool {
    match spec_arc_shape(args) {
        Some(m) => r == Ok::<KotoMessage, ArgumentError>(m),
        None => r matches Err(e) && spec_is_unexpected(
            e,
            "canvas.arc"@,
            "x & y (as Numbers or a Num2), radius, start_angle, end_angle, counter_clockwise (optional)"@,
            args,
        ),
    }
}

pub fn canvas_arc(args: &Vec<Arg>) -> (r: Result<KotoMessage, ArgumentError>)
    ensures
        spec_arc_post(args@, r),
{
    match arc_shape(args) {
        Some(m) => Ok(m),
        None => Err(
            unexpected_args(
                "canvas.arc",
                "x & y (as Numbers or a Num2), radius, start_angle, end_angle, counter_clockwise (optional)",
                args,
            ),
        ),
    }
}

pub open spec fn spec_begin_path_post(args: Seq<Arg>, r: Result<KotoMessage, ArgumentError>) -> bool {
    r == Ok::<KotoMessage, ArgumentError>(KotoMessage::BeginPath)
}

/// Like its original, accepts and ignores any arguments.
pub fn canvas_begin_path(args: &Vec<Arg>) -> (r: Result<KotoMessage, ArgumentError>)
    ensures
        spec_begin_path_post(args@, r),
{
    Ok(KotoMessage::BeginPath)
}

/// No arguments clears to the background; otherwise a color shape selects
/// the fill used for clearing.
pub open spec fn spec_clear_shape(args: Seq<Arg>) -> Option<Option<Color>> {
    if args.len() == 0 {
        Some(None)
    } else {
        match spec_color_shape(args) {
            Some(c) => Some(Some(c)),
            None => None,
        }
    }
}

pub open spec fn spec_clear_post(args: Seq<Arg>, r: Result<KotoMessage, ArgumentError>) -> bool {
    match spec_clear_shape(args) {
        Some(mc) => r == Ok::<KotoMessage, ArgumentError>(KotoMessage::Clear(mc)),
        None => r matches Err(e) && spec_is_unexpected(
            e,
            "canvas.clear"@,
            "no args, or a color as 3 or 4 Numbers or a Num4"@,
            args,
        ),
    }
}

pub fn canvas_clear(args: &Vec<Arg>) -> (r: Result<KotoMessage, ArgumentError>)
    ensures
        spec_clear_post(args@, r),
{
    if args.len() == 0 {
        Ok(KotoMessage::Clear(None))
    } else {
        match color_shape(args) {
            Some(c) => Ok(KotoMessage::Clear(Some(c))),
            None => Err(
                unexpected_args("canvas.clear", "no args, or a color as 3 or 4 Numbers or a Num4", args),
            ),
        }
    }
}

pub open spec fn spec_fill_post(args: Seq<Arg>, r: Result<KotoMessage, ArgumentError>) -> bool {
    r == Ok::<KotoMessage, ArgumentError>(KotoMessage::Fill)
}

/// Like its original, accepts and ignores any arguments.
pub fn canvas_fill(args: &Vec<Arg>) -> (r: Result<KotoMessage, ArgumentError>)
    ensures
        spec_fill_post(args@, r),
{
    Ok(KotoMessage::Fill)
}

pub open spec fn spec_fill_rect_post(args: Seq<Arg>, r: Result<KotoMessage, ArgumentError>) -> bool {
    match spec_rect_shape(args) {
        Some(rect) => r == Ok::<KotoMessage, ArgumentError>(KotoMessage::FillRect(rect)),
        None => r matches Err(e) && spec_is_unexpected(
            e,
            "canvas.fill_rect"@,
            "(x and y (as Numbers or a Num2), width, height)"@,
            args,
        ),
    }
}

pub fn canvas_fill_rect(args: &Vec<Arg>) -> (r: Result<KotoMessage, ArgumentError>)
    ensures
        spec_fill_rect_post(args@, r),
{
    match rect_shape(args) {
        Some(rect) => Ok(KotoMessage::FillRect(rect)),
        None => Err(
            unexpected_args("canvas.fill_rect", "(x and y (as Numbers or a Num2), width, height)", args),
        ),
    }
}

pub open spec fn spec_fill_text_post(args: Seq<Arg>, r: Result<KotoMessage, ArgumentError>) -> bool {
    match spec_text_shape(args) {
        Some((text, position, max_width)) => r matches Ok(m) && m matches KotoMessage::FillText {
            text: t,
            position: p,
            max_width: mw,
        } && t@ == text && p == position && mw == max_width,
        None => r matches Err(e) && spec_is_unexpected(
            e,
            "canvas.fill_text"@,
            "(text, x and y (as Numbers or a Num2), max width (optional))"@,
            args,
        ),
    }
}

pub fn canvas_fill_text(args: &Vec<Arg>) -> (r: Result<KotoMessage, ArgumentError>)
    ensures
        spec_fill_text_post(args@, r),
{
    match text_shape(args) {
        Some((text, position, max_width)) => Ok(
            KotoMessage::FillText { text, position, max_width },
        ),
        None => Err(
            unexpected_args(
                "canvas.fill_text",
                "(text, x and y (as Numbers or a Num2), max width (optional))",
                args,
            ),
        ),
    }
}

pub open spec fn spec_line_to_post(args: Seq<Arg>, r: Result<KotoMessage, ArgumentError>) -> bool {
    match spec_point_shape(args) {
        Some(p) => r == Ok::<KotoMessage, ArgumentError>(KotoMessage::LineTo(p)),
        None => r matches Err(e) && spec_is_unexpected(
            e,
            "canvas.line_to"@,
            "two Numbers or a Num2"@,
            args,
        ),
    }
}

pub fn canvas_line_to(args: &Vec<Arg>) -> (r: Result<KotoMessage, ArgumentError>)
    ensures
        spec_line_to_post(args@, r),
{
    match point_shape(args) {
        Some(p) => Ok(KotoMessage::LineTo(p)),
        None => Err(unexpected_args("canvas.line_to", "two Numbers or a Num2", args)),
    }
}

pub open spec fn spec_move_to_post(args: Seq<Arg>, r: Result<KotoMessage, ArgumentError>) -> bool {
    match spec_point_shape(args) {
        Some(p) => r == Ok::<KotoMessage, ArgumentError>(KotoMessage::MoveTo(p)),
        None => r matches Err(e) && spec_is_unexpected(
            e,
            "canvas.move_to"@,
            "two Numbers or a Num2"@,
            args,
        ),
    }
}

pub fn canvas_move_to(args: &Vec<Arg>) -> (r: Result<KotoMessage, ArgumentError>)
    ensures
        spec_move_to_post(args@, r),
{
    match point_shape(args) {
        Some(p) => Ok(KotoMessage::MoveTo(p)),
        None => Err(unexpected_args("canvas.move_to", "two Numbers or a Num2", args)),
    }
}

pub open spec fn spec_rect_post(args: Seq<Arg>, r: Result<KotoMessage, ArgumentError>) -> bool {
    match spec_rect_shape(args) {
        Some(rect) => r == Ok::<KotoMessage, ArgumentError>(KotoMessage::Rect(rect)),
        None => r matches Err(e) && spec_is_unexpected(
            e,
            "canvas.rect"@,
            "x and y (as Numbers or a Num2), width, height"@,
            args,
        ),
    }
}

pub fn canvas_rect(args: &Vec<Arg>) -> (r: Result<KotoMessage, ArgumentError>)
    ensures
        spec_rect_post(args@, r),
{
    match rect_shape(args) {
        Some(rect) => Ok(KotoMessage::Rect(rect)),
        None => Err(
            unexpected_args("canvas.rect", "x and y (as Numbers or a Num2), width, height", args),
        ),
    }
}

pub open spec fn spec_rotate_post(args: Seq<Arg>, r: Result<KotoMessage, ArgumentError>) -> bool {
    match spec_single_num(args) {
        Some(n) => r == Ok::<KotoMessage, ArgumentError>(KotoMessage::Rotate(n)),
        None => r matches Err(e) && spec_is_unexpected(
            e,
            "canvas.rotate"@,
            "a Number in radians"@,
            args,
        ),
    }
}

pub fn canvas_rotate(args: &Vec<Arg>) -> (r: Result<KotoMessage, ArgumentError>)
    ensures
        spec_rotate_post(args@, r),
{
    match single_num(args) {
        Some(n) => Ok(KotoMessage::Rotate(n)),
        None => Err(unexpected_args("canvas.rotate", "a Number in radians", args)),
    }
}

pub open spec fn spec_set_fill_color_post(
    args: Seq<Arg>,
    r: Result<KotoMessage, ArgumentError>,
) -> bool {
    match spec_color_shape(args) {
        Some(c) => r == Ok::<KotoMessage, ArgumentError>(KotoMessage::SetFillColor(c)),
        None => r matches Err(e) && spec_is_unexpected(
            e,
            "canvas.set_fill_color"@,
            "3 or 4 Numbers or a Num4"@,
            args,
        ),
    }
}

pub fn canvas_set_fill_color(args: &Vec<Arg>) -> (r: Result<KotoMessage, ArgumentError>)
    ensures
        spec_set_fill_color_post(args@, r),
{
    match color_shape(args) {
        Some(c) => Ok(KotoMessage::SetFillColor(c)),
        None => Err(unexpected_args("canvas.set_fill_color", "3 or 4 Numbers or a Num4", args)),
    }
}

pub open spec fn spec_set_font_post(args: Seq<Arg>, r: Result<KotoMessage, ArgumentError>) -> bool {
    match spec_single_str(args) {
        Some(s) => r matches Ok(m) && m matches KotoMessage::SetFont(f) && f@ == s,
        None => r matches Err(e) && spec_is_unexpected(e, "canvas.set_font"@, "a String"@, args),
    }
}

pub fn canvas_set_font(args: &Vec<Arg>) -> (r: Result<KotoMessage, ArgumentError>)
    ensures
        spec_set_font_post(args@, r),
{
    match single_str(args) {
        Some(s) => Ok(KotoMessage::SetFont(s)),
        None => Err(unexpected_args("canvas.set_font", "a String", args)),
    }
}

pub open spec fn spec_set_line_width_post(
    args: Seq<Arg>,
    r: Result<KotoMessage, ArgumentError>,
) -> bool {
    match spec_single_num(args) {
        Some(n) => r == Ok::<KotoMessage, ArgumentError>(KotoMessage::SetLineWidth(n)),
        None => r matches Err(e) && spec_is_unexpected(e, "canvas.set_line_width"@, "a Number"@, args),
    }
}

pub fn canvas_set_line_width(args: &Vec<Arg>) -> (r: Result<KotoMessage, ArgumentError>)
    ensures
        spec_set_line_width_post(args@, r),
{
    match single_num(args) {
        Some(n) => Ok(KotoMessage::SetLineWidth(n)),
        None => Err(unexpected_args("canvas.set_line_width", "a Number", args)),
    }
}

pub open spec fn spec_set_stroke_color_post(
    args: Seq<Arg>,
    r: Result<KotoMessage, ArgumentError>,
) -> bool {
    match spec_color_shape(args) {
        Some(c) => r == Ok::<KotoMessage, ArgumentError>(KotoMessage::SetStrokeColor(c)),
        None => r matches Err(e) && spec_is_unexpected(
            e,
            "canvas.set_stroke_color"@,
            "3 or 4 Numbers or a Num4"@,
            args,
        ),
    }
}

pub fn canvas_set_stroke_color(args: &Vec<Arg>) -> (r: Result<KotoMessage, ArgumentError>)
    ensures
        spec_set_stroke_color_post(args@, r),
{
    match color_shape(args) {
        Some(c) => Ok(KotoMessage::SetStrokeColor(c)),
        None => Err(unexpected_args("canvas.set_stroke_color", "3 or 4 Numbers or a Num4", args)),
    }
}

/// The allow-list for text alignment.
pub open spec fn spec_align_allowed(s: Seq<char>) -> bool {
    s == "left"@ || s == "right"@ || s == "center"@ || s == "start"@ || s == "end"@
}

pub open spec fn spec_set_text_align_post(
    args: Seq<Arg>,
    r: Result<KotoMessage, ArgumentError>,
) -> bool {
    match spec_single_str(args) {
        Some(s) => if spec_align_allowed(s) {
            r matches Ok(m) && m matches KotoMessage::SetTextAlign(v) && v@ == s
        } else {
            r matches Err(e) && e matches ArgumentError::InvalidOption { allowed } && allowed@
                == "[\"left\", \"right\", \"center\", \"start\", \"end\"]"@
        },
        None => r matches Err(e) && spec_is_unexpected(
            e,
            "canvas.set_text_align"@,
            "a String matching one of the following values: [\"left\", \"right\", \"center\", \"start\", \"end\"]"@,
            args,
        ),
    }
}

pub fn canvas_set_text_align(args: &Vec<Arg>) -> (r: Result<KotoMessage, ArgumentError>)
    ensures
        spec_set_text_align_post(args@, r),
{
    match single_str(args) {
        Some(s) => {
            if string_eq_lit(&s, "left") || string_eq_lit(&s, "right") || string_eq_lit(
                &s,
                "center",
            ) || string_eq_lit(&s, "start") || string_eq_lit(&s, "end") {
                Ok(KotoMessage::SetTextAlign(s))
            } else {
                Err(
                    ArgumentError::InvalidOption {
                        allowed: String::from_str(
                            "[\"left\", \"right\", \"center\", \"start\", \"end\"]",
                        ),
                    },
                )
            }
        },
        None => Err(
            unexpected_args(
                "canvas.set_text_align",
                "a String matching one of the following values: [\"left\", \"right\", \"center\", \"start\", \"end\"]",
                args,
            ),
        ),
    }
}

/// The allow-list for text baselines.
pub open spec fn spec_baseline_allowed(s: Seq<char>) -> bool {
    s == "top"@ || s == "hanging"@ || s == "middle"@ || s == "alphabetic"@ || s == "ideographic"@
        || s == "bottom"@
}

pub open spec fn spec_set_text_baseline_post(
    args: Seq<Arg>,
    r: Result<KotoMessage, ArgumentError>,
) -> bool {
    match spec_single_str(args) {
        Some(s) => if spec_baseline_allowed(s) {
            r matches Ok(m) && m matches KotoMessage::SetTextBaseline(v) && v@ == s
        } else {
            r matches Err(e) && e matches ArgumentError::InvalidOption { allowed } && allowed@
                == "[\"top\", \"hanging\", \"middle\", \"alphabetic\", \"ideographic\", \"bottom\"]"@
        },
        None => r matches Err(e) && spec_is_unexpected(
            e,
            "canvas.set_text_baseline"@,
            "a String matching one of the following values: [\"top\", \"hanging\", \"middle\", \"alphabetic\", \"ideographic\", \"bottom\"]"@,
            args,
        ),
    }
}

pub fn canvas_set_text_baseline(args: &Vec<Arg>) -> (r: Result<KotoMessage, ArgumentError>)
    ensures
        spec_set_text_baseline_post(args@, r),
{
    match single_str(args) {
        Some(s) => {
            if string_eq_lit(&s, "top") || string_eq_lit(&s, "hanging") || string_eq_lit(
                &s,
                "middle",
            ) || string_eq_lit(&s, "alphabetic") || string_eq_lit(&s, "ideographic")
                || string_eq_lit(&s, "bottom") {
                Ok(KotoMessage::SetTextBaseline(s))
            } else {
                Err(
                    ArgumentError::InvalidOption {
                        allowed: String::from_str(
                            "[\"top\", \"hanging\", \"middle\", \"alphabetic\", \"ideographic\", \"bottom\"]",
                        ),
                    },
                )
            }
        },
        None => Err(
            unexpected_args(
                "canvas.set_text_baseline",
                "a String matching one of the following values: [\"top\", \"hanging\", \"middle\", \"alphabetic\", \"ideographic\", \"bottom\"]",
                args,
            ),
        ),
    }
}

pub open spec fn spec_set_transform_post(
    args: Seq<Arg>,
    r: Result<KotoMessage, ArgumentError>,
) -> bool {
    match spec_transform_shape(args) {
        Some((a, b, c, d, e, f)) => r == Ok::<KotoMessage, ArgumentError>(
            KotoMessage::SetTransform { a, b, c, d, e, f },
        ),
        None => r matches Err(e) && spec_is_unexpected(e, "canvas.set_transform"@, "6 Numbers"@, args),
    }
}

pub fn canvas_set_transform(args: &Vec<Arg>) -> (r: Result<KotoMessage, ArgumentError>)
    ensures
        spec_set_transform_post(args@, r),
{
    match transform_shape(args) {
        Some((a, b, c, d, e, f)) => Ok(KotoMessage::SetTransform { a, b, c, d, e, f }),
        None => Err(unexpected_args("canvas.set_transform", "6 Numbers", args)),
    }
}

pub open spec fn spec_stroke_post(args: Seq<Arg>, r: Result<KotoMessage, ArgumentError>) -> bool {
    r == Ok::<KotoMessage, ArgumentError>(KotoMessage::Stroke)
}

/// Like its original, accepts and ignores any arguments.
pub fn canvas_stroke(args: &Vec<Arg>) -> (r: Result<KotoMessage, ArgumentError>)
    ensures
        spec_stroke_post(args@, r),
{
    Ok(KotoMessage::Stroke)
}

pub open spec fn spec_stroke_rect_post(args: Seq<Arg>, r: Result<KotoMessage, ArgumentError>) -> bool {
    match spec_rect_shape(args) {
        Some(rect) => r == Ok::<KotoMessage, ArgumentError>(KotoMessage::StrokeRect(rect)),
        None => r matches Err(e) && spec_is_unexpected(
            e,
            "canvas.stroke_rect"@,
            "(x and y (as Numbers or a Num2), width, height)"@,
            args,
        ),
    }
}

pub fn canvas_stroke_rect(args: &Vec<Arg>) -> (r: Result<KotoMessage, ArgumentError>)
    ensures
        spec_stroke_rect_post(args@, r),
{
    match rect_shape(args) {
        Some(rect) => Ok(KotoMessage::StrokeRect(rect)),
        None => Err(
            unexpected_args("canvas.stroke_rect", "(x and y (as Numbers or a Num2), width, height)", args),
        ),
    }
}

pub open spec fn spec_stroke_text_post(args: Seq<Arg>, r: Result<KotoMessage, ArgumentError>) -> bool {
    match spec_text_shape(args) {
        Some((text, position, max_width)) => r matches Ok(m) && m matches KotoMessage::StrokeText {
            text: t,
            position: p,
            max_width: mw,
        } && t@ == text && p == position && mw == max_width,
        None => r matches Err(e) && spec_is_unexpected(
            e,
            "canvas.stroke_text"@,
            "(text, x and y (as Numbers or a Num2), max width (optional))"@,
            args,
        ),
    }
}

pub fn canvas_stroke_text(args: &Vec<Arg>) -> (r: Result<KotoMessage, ArgumentError>)
    ensures
        spec_stroke_text_post(args@, r),
{
    match text_shape(args) {
        Some((text, position, max_width)) => Ok(
            KotoMessage::StrokeText { text, position, max_width },
        ),
        None => Err(
            unexpected_args(
                "canvas.stroke_text",
                "(text, x and y (as Numbers or a Num2), max width (optional))",
                args,
            ),
        ),
    }
}

pub open spec fn spec_translate_post(args: Seq<Arg>, r: Result<KotoMessage, ArgumentError>) -> bool {
    match spec_point_shape(args) {
        Some(p) => r == Ok::<KotoMessage, ArgumentError>(KotoMessage::Translate(p)),
        None => r matches Err(e) && spec_is_unexpected(
            e,
            "canvas.translate"@,
            "two Numbers or a Num2"@,
            args,
        ),
    }
}

pub fn canvas_translate(args: &Vec<Arg>) -> (r: Result<KotoMessage, ArgumentError>)
    ensures
        spec_translate_post(args@, r),
{
    match point_shape(args) {
        Some(p) => Ok(KotoMessage::Translate(p)),
        None => Err(unexpected_args("canvas.translate", "two Numbers or a Num2", args)),
    }
}

// ---------------------------------------------------------------------------
// Dispatch
// ---------------------------------------------------------------------------

/// What `canvas_call` guarantees: exactly the per-function contract of the
/// selected capability function.
pub open spec fn spec_canvas_post(
    which: CanvasFn,
    args: Seq<Arg>,
    r: Result<KotoMessage, ArgumentError>,
) -> bool {
    match which {
        CanvasFn::Arc => spec_arc_post(args, r),
        CanvasFn::BeginPath => spec_begin_path_post(args, r),
        CanvasFn::Clear => spec_clear_post(args, r),
        CanvasFn::Fill => spec_fill_post(args, r),
        CanvasFn::FillRect => spec_fill_rect_post(args, r),
        CanvasFn::FillText => spec_fill_text_post(args, r),
        CanvasFn::LineTo => spec_line_to_post(args, r),
        CanvasFn::MoveTo => spec_move_to_post(args, r),
        CanvasFn::Rect => spec_rect_post(args, r),
        CanvasFn::Rotate => spec_rotate_post(args, r),
        CanvasFn::SetFillColor => spec_set_fill_color_post(args, r),
        CanvasFn::SetFont => spec_set_font_post(args, r),
        CanvasFn::SetLineWidth => spec_set_line_width_post(args, r),
        CanvasFn::SetStrokeColor => spec_set_stroke_color_post(args, r),
        CanvasFn::SetTextAlign => spec_set_text_align_post(args, r),
        CanvasFn::SetTextBaseline => spec_set_text_baseline_post(args, r),
        CanvasFn::SetTransform => spec_set_transform_post(args, r),
        CanvasFn::Stroke => spec_stroke_post(args, r),
        CanvasFn::StrokeRect => spec_stroke_rect_post(args, r),
        CanvasFn::StrokeText => spec_stroke_text_post(args, r),
        CanvasFn::Translate => spec_translate_post(args, r),
    }
}

/// Validates one canvas capability call and builds its message. On success
/// the caller appends the message to the queue; on failure nothing is
/// enqueued and the error names the function and the accepted shapes.
pub fn canvas_call(which: CanvasFn, args: &Vec<Arg>) -> (r: Result<KotoMessage, ArgumentError>)
    ensures
        spec_canvas_post(which, args@, r),
{
    match which {
        CanvasFn::Arc => canvas_arc(args),
        CanvasFn::BeginPath => canvas_begin_path(args),
        CanvasFn::Clear => canvas_clear(args),
        CanvasFn::Fill => canvas_fill(args),
        CanvasFn::FillRect => canvas_fill_rect(args),
        CanvasFn::FillText => canvas_fill_text(args),
        CanvasFn::LineTo => canvas_line_to(args),
        CanvasFn::MoveTo => canvas_move_to(args),
        CanvasFn::Rect => canvas_rect(args),
        CanvasFn::Rotate => canvas_rotate(args),
        CanvasFn::SetFillColor => canvas_set_fill_color(args),
        CanvasFn::SetFont => canvas_set_font(args),
        CanvasFn::SetLineWidth => canvas_set_line_width(args),
        CanvasFn::SetStrokeColor => canvas_set_stroke_color(args),
        CanvasFn::SetTextAlign => canvas_set_text_align(args),
        CanvasFn::SetTextBaseline => canvas_set_text_baseline(args),
        CanvasFn::SetTransform => canvas_set_transform(args),
        CanvasFn::Stroke => canvas_stroke(args),
        CanvasFn::StrokeRect => canvas_stroke_rect(args),
        CanvasFn::StrokeText => canvas_stroke_text(args),
        CanvasFn::Translate => canvas_translate(args),
    }
}

} // verus!
