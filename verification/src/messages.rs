use vstd::prelude::*;

verus! {

/// A numeric payload handed over by the guest runtime.
///
/// Guest numbers are either 64-bit integers or IEEE-754 doubles. The bridge
/// never does arithmetic on them: a float travels through the library as its
/// raw bit pattern and is only turned back into a machine float by the
/// rendering host, outside the library.
#[derive(Clone, Copy, Debug, PartialEq, Eq, Structural, Hash)]
pub enum Num {
    /// An integer value.
    Int(i64),
    /// The bit pattern of an IEEE-754 double.
    Float(u64),
}

/// Whether an IEEE-754 double with these bits is NaN: all exponent bits set
/// and a non-zero fraction.
pub open spec fn spec_float_is_nan(bits: u64) -> bool {
    (bits >> 52) & 0x7ff == 0x7ff && bits & 0xf_ffff_ffff_ffff != 0
}

/// Whether an IEEE-754 double with these bits compares `>= 0.0`: it is not
/// NaN and is either non-negative or negative zero.
pub open spec fn spec_float_ge_zero(bits: u64) -> bool {
    !spec_float_is_nan(bits) && (bits >> 63 == 0 || bits == 0x8000_0000_0000_0000)
}

impl Num {
    /// Whether the number compares `>= 0`, under IEEE-754 rules for floats.
    pub open spec fn spec_ge_zero(self) -> bool {
        match self {
            Num::Int(i) => i >= 0,
            Num::Float(bits) => spec_float_ge_zero(bits),
        }
    }

    pub fn ge_zero(&self) -> (r: bool)
        ensures
            r == self.spec_ge_zero(),
    {
        match self {
            Num::Int(i) => *i >= 0,
            Num::Float(b) => {
                let bits: u64 = *b;
                let is_nan = (bits >> 52) & 0x7ff == 0x7ff && bits & 0xf_ffff_ffff_ffff != 0;
                !is_nan && (bits >> 63 == 0 || bits == 0x8000_0000_0000_0000)
            },
        }
    }
}

/// A 2D position, as the guest supplied it.
#[derive(Clone, Copy, Debug, PartialEq, Eq, Structural)]
pub struct Point {
    pub x: Num,
    pub y: Num,
}

/// An axis-aligned rectangle, as the guest supplied it.
#[derive(Clone, Copy, Debug, PartialEq, Eq, Structural)]
pub struct Rect {
    pub x: Num,
    pub y: Num,
    pub width: Num,
    pub height: Num,
}

/// An RGBA color, components as the guest supplied them.
#[derive(Clone, Copy, Debug, PartialEq, Eq, Structural)]
pub struct Color {
    pub r: Num,
    pub g: Num,
    pub b: Num,
    pub a: Num,
}

/// One queued drawing or output command, built by a capability function from
/// already-validated arguments and consumed exactly once, in order, by the
/// renderer drain.
#[derive(Clone, Debug, PartialEq, Eq)]
pub enum KotoMessage {
    Arc {
        x: Num,
        y: Num,
        radius: Num,
        start_angle: Num,
        end_angle: Num,
        counter_clockwise: bool,
    },
    BeginPath,
    Clear(Option<Color>),
    ClearOutput,
    Fill,
    FillRect(Rect),
    FillText { text: String, position: Point, max_width: Option<Num> },
    LineTo(Point),
    MoveTo(Point),
    Print(String),
    Rect(Rect),
    Rotate(Num),
    SetFillColor(Color),
    SetFont(String),
    SetFps(Num),
    SetLineWidth(Num),
    SetStrokeColor(Color),
    SetTextAlign(String),
    SetTextBaseline(String),
    SetTransform { a: Num, b: Num, c: Num, d: Num, e: Num, f: Num },
    Stroke,
    StrokeRect(Rect),
    StrokeText { text: String, position: Point, max_width: Option<Num> },
    Translate(Point),
}

} // verus!
