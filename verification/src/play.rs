use vstd::prelude::*;

use crate::args::Arg;
use crate::errors::{spec_is_unexpected, unexpected_args, ArgumentError};
use crate::messages::{KotoMessage, Num};

verus! {

/// The play capability functions that build messages. `random_color` is not
/// listed: it returns a value to the guest and enqueues nothing, so only its
/// argument check lives here (see [`play_random_color_check`]).
#[derive(Clone, Copy, Debug, PartialEq, Eq, Structural)]
pub enum PlayFn {
    ClearOutput,
    SetFps,
}

pub open spec fn spec_clear_output_post(args: Seq<Arg>, r: Result<KotoMessage, ArgumentError>) -> bool {
    r == Ok::<KotoMessage, ArgumentError>(KotoMessage::ClearOutput)
}

/// Like its original, accepts and ignores any arguments.
pub fn play_clear_output(args: &Vec<Arg>) -> (r: Result<KotoMessage, ArgumentError>)
    ensures
        spec_clear_output_post(args@, r),
{
    Ok(KotoMessage::ClearOutput)
}

pub open spec fn spec_set_fps_post(args: Seq<Arg>, r: Result<KotoMessage, ArgumentError>) -> bool {
    match crate::canvas::spec_single_num(args) {
        Some(n) => if n.spec_ge_zero() {
            r == Ok::<KotoMessage, ArgumentError>(KotoMessage::SetFps(n))
        } else {
            r matches Err(e) && spec_is_unexpected(e, "play.set_fps"@, "a non-negative Number"@, args)
        },
        None => r matches Err(e) && spec_is_unexpected(
            e,
            "play.set_fps"@,
            "a non-negative Number"@,
            args,
        ),
    }
}

/// A single non-negative number sets the host's tick rate.
pub fn play_set_fps(args: &Vec<Arg>) -> (r: Result<KotoMessage, ArgumentError>)
    ensures
        spec_set_fps_post(args@, r),
{
    match crate::canvas::single_num(args) {
        Some(n) => {
            if n.ge_zero() {
                Ok(KotoMessage::SetFps(n))
            } else {
                Err(unexpected_args("play.set_fps", "a non-negative Number", args))
            }
        },
        None => Err(unexpected_args("play.set_fps", "a non-negative Number", args)),
    }
}

/// What `play_call` guarantees: the per-function contract of the selected
/// play capability function.
pub open spec fn spec_play_post(
    which: PlayFn,
    args: Seq<Arg>,
    r: Result<KotoMessage, ArgumentError>,
) -> bool {
    match which {
        PlayFn::ClearOutput => spec_clear_output_post(args, r),
        PlayFn::SetFps => spec_set_fps_post(args, r),
    }
}

/// Validates one play capability call and builds its message.
pub fn play_call(which: PlayFn, args: &Vec<Arg>) -> (r: Result<KotoMessage, ArgumentError>)
    ensures
        spec_play_post(which, args@, r),
{
    match which {
        PlayFn::ClearOutput => play_clear_output(args),
        PlayFn::SetFps => play_set_fps(args),
    }
}

/// The accepted shapes of `play.random_color`: no arguments, or one number
/// used as the alpha channel.
pub open spec fn spec_random_color_ok(args: Seq<Arg>) -> bool {
    args.len() == 0 || (args.len() == 1 && args[0] is Number)
}

/// Validates a `play.random_color` call. The color itself is drawn by the
/// host from a random source, so only the argument check is decided here.
pub fn play_random_color_check(args: &Vec<Arg>) -> (r: Result<(), ArgumentError>)
    ensures
        spec_random_color_ok(args@) <==> r is Ok,
        r matches Err(e) ==> spec_is_unexpected(
            e,
            "play.random_color"@,
            "an optional alpha value"@,
            args@,
        ),
{
    if args.len() == 0 {
        Ok(())
    } else if args.len() == 1 && matches!(&args[0], Arg::Number(_)) {
        Ok(())
    } else {
        Err(unexpected_args("play.random_color", "an optional alpha value", args))
    }
}

} // verus!
