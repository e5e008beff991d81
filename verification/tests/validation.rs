use koto_playground::canvas::{canvas_call, CanvasFn};
use koto_playground::play::{play_call, play_random_color_check, PlayFn};
use koto_playground::{Arg, ArgumentError, Color, KotoMessage, Num, Point, Rect};

fn arg_int(v: i64) -> Arg {
    Arg::Number(Num::Int(v))
}

fn float(v: f64) -> Arg {
    Arg::Number(Num::Float(v.to_bits()))
}

fn fnum(v: f64) -> Num {
    Num::Float(v.to_bits())
}

#[test]
fn line_to_accepts_two_numbers() {
    let r = canvas_call(CanvasFn::LineTo, &vec![arg_int(3), float(4.5)]);
    assert_eq!(
        r,
        Ok(KotoMessage::LineTo(Point { x: Num::Int(3), y: fnum(4.5) }))
    );
}

#[test]
fn line_to_accepts_a_num2() {
    let r = canvas_call(CanvasFn::LineTo, &vec![Arg::Num2(fnum(1.0), fnum(2.0))]);
    assert_eq!(
        r,
        Ok(KotoMessage::LineTo(Point { x: fnum(1.0), y: fnum(2.0) }))
    );
}

#[test]
fn line_to_rejects_no_args_with_exact_message() {
    let r = canvas_call(CanvasFn::LineTo, &vec![]);
    let e = r.unwrap_err();
    assert_eq!(
        e.message(),
        "canvas.line_to - expected two Numbers or a Num2, but found no args."
    );
}

#[test]
fn arc_error_names_function_and_shapes() {
    let r = canvas_call(CanvasFn::Arc, &vec![arg_int(1), Arg::Bool(true)]);
    let e = r.unwrap_err();
    assert_eq!(
        e.message(),
        "canvas.arc - expected x & y (as Numbers or a Num2), radius, start_angle, end_angle, \
         counter_clockwise (optional), but found 'Int, Bool'."
    );
}

#[test]
fn arc_accepts_all_four_shapes() {
    let full = KotoMessage::Arc {
        x: Num::Int(1),
        y: Num::Int(2),
        radius: Num::Int(3),
        start_angle: Num::Int(0),
        end_angle: Num::Int(6),
        counter_clockwise: false,
    };
    let r1 = canvas_call(
        CanvasFn::Arc,
        &vec![Arg::Num2(Num::Int(1), Num::Int(2)), arg_int(3), arg_int(0), arg_int(6)],
    );
    assert_eq!(r1, Ok(full.clone()));
    let r2 = canvas_call(
        CanvasFn::Arc,
        &vec![
            Arg::Num2(Num::Int(1), Num::Int(2)),
            arg_int(3),
            arg_int(0),
            arg_int(6),
            Arg::Bool(true),
        ],
    );
    match r2 {
        Ok(KotoMessage::Arc { counter_clockwise, .. }) => assert!(counter_clockwise),
        other => panic!("unexpected: {other:?}"),
    }
    let r3 = canvas_call(CanvasFn::Arc, &vec![arg_int(1), arg_int(2), arg_int(3), arg_int(0), arg_int(6)]);
    assert_eq!(r3, Ok(full.clone()));
    let r4 = canvas_call(
        CanvasFn::Arc,
        &vec![arg_int(1), arg_int(2), arg_int(3), arg_int(0), arg_int(6), Arg::Bool(false)],
    );
    assert_eq!(r4, Ok(full));
}

#[test]
fn fill_rect_accepts_num2_and_numbers() {
    let expected = KotoMessage::FillRect(Rect {
        x: fnum(1.0),
        y: fnum(2.0),
        width: Num::Int(30),
        height: Num::Int(40),
    });
    let r1 = canvas_call(
        CanvasFn::FillRect,
        &vec![Arg::Num2(fnum(1.0), fnum(2.0)), arg_int(30), arg_int(40)],
    );
    assert_eq!(r1, Ok(expected));
    let r2 = canvas_call(CanvasFn::FillRect, &vec![arg_int(1), arg_int(2), arg_int(30), arg_int(40)]);
    assert_eq!(
        r2,
        Ok(KotoMessage::FillRect(Rect {
            x: Num::Int(1),
            y: Num::Int(2),
            width: Num::Int(30),
            height: Num::Int(40),
        }))
    );
}

#[test]
fn color_alpha_defaults_to_one() {
    let r = canvas_call(CanvasFn::SetFillColor, &vec![arg_int(255), arg_int(0), arg_int(0)]);
    assert_eq!(
        r,
        Ok(KotoMessage::SetFillColor(Color {
            r: Num::Int(255),
            g: Num::Int(0),
            b: Num::Int(0),
            a: fnum(1.0),
        }))
    );
}

#[test]
fn color_accepts_num4() {
    let r = canvas_call(
        CanvasFn::SetStrokeColor,
        &vec![Arg::Num4(fnum(0.1), fnum(0.2), fnum(0.3), fnum(0.4))],
    );
    assert_eq!(
        r,
        Ok(KotoMessage::SetStrokeColor(Color {
            r: fnum(0.1),
            g: fnum(0.2),
            b: fnum(0.3),
            a: fnum(0.4),
        }))
    );
}

#[test]
fn set_fill_color_rejects_two_numbers() {
    let r = canvas_call(CanvasFn::SetFillColor, &vec![arg_int(1), arg_int(2)]);
    let e = r.unwrap_err();
    assert_eq!(
        e.message(),
        "canvas.set_fill_color - expected 3 or 4 Numbers or a Num4, but found 'Int, Int'."
    );
}

#[test]
fn fill_text_shapes() {
    let r = canvas_call(
        CanvasFn::FillText,
        &vec![Arg::Str("hi".to_string()), arg_int(5), arg_int(6)],
    );
    assert_eq!(
        r,
        Ok(KotoMessage::FillText {
            text: "hi".to_string(),
            position: Point { x: Num::Int(5), y: Num::Int(6) },
            max_width: None,
        })
    );
    let r2 = canvas_call(
        CanvasFn::FillText,
        &vec![Arg::Str("hi".to_string()), Arg::Num2(fnum(1.0), fnum(2.0)), arg_int(9)],
    );
    assert_eq!(
        r2,
        Ok(KotoMessage::FillText {
            text: "hi".to_string(),
            position: Point { x: fnum(1.0), y: fnum(2.0) },
            max_width: Some(Num::Int(9)),
        })
    );
}

#[test]
fn text_align_allow_list() {
    let ok = canvas_call(CanvasFn::SetTextAlign, &vec![Arg::Str("center".to_string())]);
    assert_eq!(ok, Ok(KotoMessage::SetTextAlign("center".to_string())));
    let bad = canvas_call(CanvasFn::SetTextAlign, &vec![Arg::Str("middle".to_string())]);
    let e = bad.unwrap_err();
    assert!(matches!(e, ArgumentError::InvalidOption { .. }));
    assert_eq!(
        e.message(),
        "The provided value must be one of the following: \
         [\"left\", \"right\", \"center\", \"start\", \"end\"]"
    );
}

#[test]
fn text_baseline_allow_list() {
    let ok = canvas_call(
        CanvasFn::SetTextBaseline,
        &vec![Arg::Str("alphabetic".to_string())],
    );
    assert_eq!(ok, Ok(KotoMessage::SetTextBaseline("alphabetic".to_string())));
    let bad = canvas_call(CanvasFn::SetTextBaseline, &vec![arg_int(1)]);
    let e = bad.unwrap_err();
    assert_eq!(
        e.message(),
        "canvas.set_text_baseline - expected a String matching one of the following values: \
         [\"top\", \"hanging\", \"middle\", \"alphabetic\", \"ideographic\", \"bottom\"], \
         but found 'Int'."
    );
}

#[test]
fn set_transform_needs_six_numbers() {
    let r = canvas_call(
        CanvasFn::SetTransform,
        &vec![arg_int(1), arg_int(0), arg_int(0), arg_int(1), arg_int(0), arg_int(0)],
    );
    assert_eq!(
        r,
        Ok(KotoMessage::SetTransform {
            a: Num::Int(1),
            b: Num::Int(0),
            c: Num::Int(0),
            d: Num::Int(1),
            e: Num::Int(0),
            f: Num::Int(0),
        })
    );
    let bad = canvas_call(CanvasFn::SetTransform, &vec![arg_int(1), arg_int(0)]);
    assert_eq!(
        bad.unwrap_err().message(),
        "canvas.set_transform - expected 6 Numbers, but found 'Int, Int'."
    );
}

#[test]
fn clear_shapes() {
    assert_eq!(
        canvas_call(CanvasFn::Clear, &vec![]),
        Ok(KotoMessage::Clear(None))
    );
    assert_eq!(
        canvas_call(CanvasFn::Clear, &vec![arg_int(1), arg_int(2), arg_int(3), float(0.5)]),
        Ok(KotoMessage::Clear(Some(Color {
            r: Num::Int(1),
            g: Num::Int(2),
            b: Num::Int(3),
            a: fnum(0.5),
        })))
    );
    let bad = canvas_call(CanvasFn::Clear, &vec![Arg::Bool(true)]);
    assert_eq!(
        bad.unwrap_err().message(),
        "canvas.clear - expected no args, or a color as 3 or 4 Numbers or a Num4, but found 'Bool'."
    );
}

#[test]
fn stateless_functions_ignore_arguments() {
    assert_eq!(
        canvas_call(CanvasFn::BeginPath, &vec![arg_int(1)]),
        Ok(KotoMessage::BeginPath)
    );
    assert_eq!(canvas_call(CanvasFn::Fill, &vec![]), Ok(KotoMessage::Fill));
    assert_eq!(
        canvas_call(CanvasFn::Stroke, &vec![Arg::Null]),
        Ok(KotoMessage::Stroke)
    );
    assert_eq!(
        play_call(PlayFn::ClearOutput, &vec![arg_int(7)]),
        Ok(KotoMessage::ClearOutput)
    );
}

#[test]
fn set_fps_requires_non_negative() {
    assert_eq!(
        play_call(PlayFn::SetFps, &vec![arg_int(60)]),
        Ok(KotoMessage::SetFps(Num::Int(60)))
    );
    assert_eq!(
        play_call(PlayFn::SetFps, &vec![float(-0.0)]),
        Ok(KotoMessage::SetFps(fnum(-0.0)))
    );
    let neg = play_call(PlayFn::SetFps, &vec![arg_int(-1)]);
    assert_eq!(
        neg.unwrap_err().message(),
        "play.set_fps - expected a non-negative Number, but found 'Int'."
    );
    let nan = play_call(PlayFn::SetFps, &vec![float(f64::NAN)]);
    assert!(nan.is_err());
    let none = play_call(PlayFn::SetFps, &vec![]);
    assert_eq!(
        none.unwrap_err().message(),
        "play.set_fps - expected a non-negative Number, but found no args."
    );
}

#[test]
fn random_color_accepts_optional_alpha() {
    assert!(play_random_color_check(&vec![]).is_ok());
    assert!(play_random_color_check(&vec![float(0.5)]).is_ok());
    let bad = play_random_color_check(&vec![arg_int(1), arg_int(2)]);
    assert_eq!(
        bad.unwrap_err().message(),
        "play.random_color - expected an optional alpha value, but found 'Int, Int'."
    );
}

#[test]
fn other_values_report_their_guest_type() {
    let r = canvas_call(CanvasFn::Rotate, &vec![Arg::Other("List".to_string())]);
    assert_eq!(
        r.unwrap_err().message(),
        "canvas.rotate - expected a Number in radians, but found 'List'."
    );
}
