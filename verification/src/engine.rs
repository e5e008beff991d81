use vstd::prelude::*;

use std::cell::Cell;
use std::cell::RefCell;
use std::collections::VecDeque;
use std::rc::Rc;

use koto::runtime::num4::Num4;
use koto::runtime::unexpected_type_error_with_slice;
use koto::runtime::CallArgs;
use koto::runtime::RuntimeError;
use koto::runtime::UnaryOp;
use koto::runtime::Value;
use koto::runtime::ValueNumber;
use koto::runtime::Vm;
use rand::Rng;

use crate::args::Arg;
use crate::canvas::{canvas_call, CanvasFn};
use crate::messages::{KotoMessage, Num};
use crate::play::{play_call, play_random_color_check, PlayFn};

verus! {

#[verifier::external_type_specification]
#[verifier::external_body]
pub struct ExValue(Value);

#[verifier::external_type_specification]
#[verifier::external_body]
pub struct ExValueNumber(ValueNumber);

#[verifier::external_type_specification]
#[verifier::external_body]
pub struct ExVm(Vm);

#[verifier::external_type_specification]
#[verifier::external_body]
pub struct ExRuntimeError(RuntimeError);

/// The messages currently queued inside the engine, oldest first. Capability
/// functions are the only writer; the wrapper clears and drains it through
/// [`Engine::clear_queue`] and [`Engine::take_messages`].
pub uninterp spec fn queue_of(e: Engine) -> Seq<KotoMessage>;

/// Whether the engine's play module table currently holds a value under this
/// name. Scripts install their `setup`, `on_load` and `update` hooks there.
pub uninterp spec fn play_hook(e: Engine, name: Seq<char>) -> bool;

/// What compiling a source text yields: `None` when it compiles, else the
/// compiler's rendered error message. Compilation depends on the source text
/// alone.
pub uninterp spec fn compile_outcome(script: Seq<char>) -> Option<Seq<char>>;

/// The embedded guest interpreter, together with the message queue and the
/// capability module tables that its prelude shares with the host. Guest
/// code reaches the host only through the verified capability checks that
/// the registered functions call.
#[verifier::external_body]
pub struct Engine {
    koto: koto::Koto,
    canvas_module: koto::runtime::ValueMap,
    play_module: koto::runtime::ValueMap,
    queue: Rc<RefCell<VecDeque<KotoMessage>>>,
    dims: Rc<Cell<(u32, u32)>>,
}

/// Relies on the guest value model of koto 0.11: each variant the capability
/// surface reads is moved into [`Arg`] one for one; floats travel as their
/// bit patterns, a `Num4`'s 32-bit components are widened first; any other
/// value keeps only its type name.
/// Relies on the guest number model: an integer keeps its value, a float
/// travels as its bit pattern.
#[verifier::external_body]
fn num_from_koto(n: &ValueNumber) -> Num {
    match n {
        ValueNumber::I64(i) => Num::Int(*i),
        ValueNumber::F64(f) => Num::Float(f.to_bits()),
    }
}

#[verifier::external_body]
fn arg_from_koto(v: &Value) -> Arg {
    let widen = |x| Num::Float(ValueNumber::from(x).to_bits());
    match v {
        Value::Null => Arg::Null,
        Value::Bool(b) => Arg::Bool(*b),
        Value::Number(n) => Arg::Number(num_from_koto(n)),
        Value::Num2(n) => Arg::Num2(Num::Float(n.0.to_bits()), Num::Float(n.1.to_bits())),
        Value::Num4(n) => Arg::Num4(widen(n.0), widen(n.1), widen(n.2), widen(n.3)),
        Value::Str(s) => Arg::Str(s.as_str().to_string()),
        other => Arg::Other(other.type_as_string()),
    }
}

/// Converts a guest argument slice with [`arg_from_koto`], in order.
#[verifier::external_body]
fn args_from_koto(vals: &[Value]) -> Vec<Arg> {
    vals.iter().map(arg_from_koto).collect()
}

/// Relies on ValueMap::default: the empty map used as the user state when a
/// script defines no `setup` hook.
#[verifier::external_body]
pub(crate) fn default_user_state() -> Value {
    Value::Map(koto::runtime::ValueMap::default())
}

/// Relies on Vm::run_unary_op (Display): renders one guest value the way
/// the io module renders printed values, erring when the display form is
/// not a string.
#[verifier::external_body]
fn display_text(vm: &mut Vm, value: Value) -> Result<String, RuntimeError> {
    match vm.run_unary_op(UnaryOp::Display, value)? {
        Value::Str(s) => Ok(s.as_str().to_string()),
        other => unexpected_type_error_with_slice("print", "a String from @display", &[other]),
    }
}

/// Relies on the string module's format_string: renders a format string
/// with its arguments, exactly as the io module's print does.
#[verifier::external_body]
fn format_text(vm: &mut Vm, f: &str, rest: &[Value]) -> Result<String, RuntimeError> {
    koto::runtime::core::string::format::format_string(vm, f, rest)
}

/// Renders one print call the way the io module's print does: a lone
/// string passes through, a format string is rendered with its arguments,
/// and anything else goes through its display form — several values as one
/// tuple. No arguments is an error.
#[verifier::external_body]
fn print_line(vm: &mut Vm, args: &[Value]) -> Result<String, RuntimeError> {
    match args {
        [] => unexpected_type_error_with_slice("print", "some values to print", &[]),
        [Value::Str(s)] => Ok(s.as_str().to_string()),
        [Value::Str(f), rest @ ..] => format_text(vm, f.as_str(), rest),
        [single] => display_text(vm, single.clone()),
        rest => display_text(vm, Value::Tuple(rest.to_vec().into())),
    }
}

impl Engine {
    /// Relies on Koto::new and ValueMap::add_map: builds the interpreter and
    /// installs the canvas, play and random module tables in its prelude,
    /// sharing one message queue and the surface dimensions with them. The
    /// queue starts empty and the play table starts with no entries at all.
    #[verifier::external_body]
    fn base(width: u32, height: u32) -> (r: Engine)
        ensures
            queue_of(r) == Seq::<KotoMessage>::empty(),
            forall|n: Seq<char>| #[trigger] play_hook(r, n) == false,
    {
        let queue = Rc::new(RefCell::new(VecDeque::new()));
        let koto = koto::Koto::new();
        let canvas_module = koto::runtime::ValueMap::default();
        let play_module = koto::runtime::ValueMap::default();
        koto.prelude().add_map("canvas", canvas_module.clone());
        koto.prelude().add_map("play", play_module.clone());
        koto.prelude().add_map("random", koto_random::make_module());
        let dims = Rc::new(Cell::new((width, height)));
        Engine { koto, canvas_module, play_module, queue, dims }
    }

    /// Relies on ValueMap::add_fn: registers one canvas function whose
    /// behaviour is decided by the verified [`canvas_call`]; on success the
    /// message is appended to the shared queue and the module table itself
    /// is returned, so guest code can chain calls. Registration touches
    /// only the canvas table: the queue and the play table are unchanged.
    #[verifier::external_body]
    fn add_canvas_fn(&mut self, which: CanvasFn, name: &str)
        ensures
            queue_of(*final(self)) == queue_of(*old(self)),
            forall|n: Seq<char>| #[trigger] play_hook(*final(self), n) == play_hook(*old(self), n),
    {
        let module = self.canvas_module.clone();
        let queue = self.queue.clone();
        self.canvas_module.add_fn(name, move |vm, args| {
            match canvas_call(which, &args_from_koto(vm.get_args(args))) {
                Ok(msg) => { queue.borrow_mut().push_back(msg); Ok(Value::Map(module.clone())) },
                Err(e) => Err(RuntimeError::from(e.message())),
            }
        });
    }

    /// Relies on ValueMap::add_fn and the shared dimensions cell: the pure
    /// accessors `width` and `height` return the drawing surface's current
    /// size synchronously and enqueue nothing. Registration touches only
    /// the canvas table: the queue and the play table are unchanged.
    #[verifier::external_body]
    fn add_canvas_size_fn(&mut self, use_height: bool, name: &str)
        ensures
            queue_of(*final(self)) == queue_of(*old(self)),
            forall|n: Seq<char>| #[trigger] play_hook(*final(self), n) == play_hook(*old(self), n),
    {
        let dims = self.dims.clone();
        self.canvas_module.add_fn(name, move |_, _| {
            let (w, h) = dims.get();
            Ok(Value::Number((if use_height { h } else { w }).into()))
        });
    }

    /// Relies on ValueMap::add_fn: registers one play function whose
    /// behaviour is decided by the verified [`play_call`]. The play table
    /// gains exactly the given name; the queue is unchanged.
    #[verifier::external_body]
    fn add_play_fn(&mut self, which: PlayFn, name: &str)
        ensures
            queue_of(*final(self)) == queue_of(*old(self)),
            forall|n: Seq<char>|
                #[trigger] play_hook(*final(self), n) == (play_hook(*old(self), n) || n == name@),
    {
        let queue = self.queue.clone();
        self.play_module.add_fn(name, move |vm, args| {
            match play_call(which, &args_from_koto(vm.get_args(args))) {
                Ok(msg) => { queue.borrow_mut().push_back(msg); Ok(Value::Null) },
                Err(e) => Err(RuntimeError::from(e.message())),
            }
        });
    }

    /// Relies on rand::thread_rng for the color channels; the argument check
    /// is the verified [`play_random_color_check`], and the optional alpha
    /// argument is handed through unchanged. The play table gains exactly
    /// the given name; the queue is unchanged.
    #[verifier::external_body]
    fn add_random_color_fn(&mut self, name: &str)
        ensures
            queue_of(*final(self)) == queue_of(*old(self)),
            forall|n: Seq<char>|
                #[trigger] play_hook(*final(self), n) == (play_hook(*old(self), n) || n == name@),
    {
        self.play_module.add_fn(name, move |vm, args| {
            let koto_args = vm.get_args(args);
            if let Err(e) = play_random_color_check(&args_from_koto(koto_args)) {
                return Err(RuntimeError::from(e.message()));
            }
            let alpha = match koto_args { [Value::Number(a)] => a.into(), _ => 1u8.into() };
            let mut rng = rand::thread_rng();
            let (r, g, b): (u8, u8, u8) = (rng.gen_range(0..=255), rng.gen_range(0..=255), rng.gen_range(0..=255));
            Ok(Value::Num4(Num4(r.into(), g.into(), b.into(), alpha)))
        });
    }

    /// Relies on ValueMap::add_fn, format_string and Vm::run_unary_op:
    /// replaces the prelude's `print` so printed text is queued as a
    /// message instead of reaching the process's stdout, accepting the same
    /// argument shapes as the io module's print — a string, a format string
    /// with arguments, or values rendered through their display form — each
    /// queued with a trailing newline, as the io module writes it. The
    /// queue gains entries only when guest code prints; the play table is
    /// unchanged.
    #[verifier::external_body]
    fn add_print_capture(&mut self)
        ensures
            queue_of(*final(self)) == queue_of(*old(self)),
            forall|n: Seq<char>| #[trigger] play_hook(*final(self), n) == play_hook(*old(self), n),
    {
        let queue = self.queue.clone();
        self.koto.prelude().add_fn("print", move |vm, args| {
            let vals = vm.get_args(args).to_vec();
            let line = print_line(vm, &vals)?;
            queue.borrow_mut().push_back(KotoMessage::Print(format!("{line}\n")));
            Ok(Value::Null)
        });
    }

    /// Relies on ValueMap::add_value and the shared module tables: points
    /// the io module's `print` at the capturing `print` installed by
    /// [`Engine::add_print_capture`], so `io.print` output is queued as
    /// well. The queue and the play table are unchanged.
    #[verifier::external_body]
    fn route_io_print(&mut self)
        ensures
            queue_of(*final(self)) == queue_of(*old(self)),
            forall|n: Seq<char>| #[trigger] play_hook(*final(self), n) == play_hook(*old(self), n),
    {
        let printer = self.koto.prelude().data().get_with_string("print").cloned();
        let io = self.koto.prelude().data().get_with_string("io").cloned();
        if let (Some(printer), Some(Value::Map(io))) = (printer, io) {
            io.add_value("print", printer);
        }
    }

    /// Builds the interpreter with the full capability surface installed.
    /// Nothing has run yet: the queue is empty, and none of the script
    /// hooks exists — the play table holds only the host's own functions.
    pub(crate) fn new(width: u32, height: u32) -> (r: Engine)
        ensures
            queue_of(r) == Seq::<KotoMessage>::empty(),
            !play_hook(r, "setup"@),
            !play_hook(r, "on_load"@),
            !play_hook(r, "update"@),
    {
        proof {
            reveal_strlit("setup");
            reveal_strlit("on_load");
            reveal_strlit("update");
            reveal_strlit("clear_output");
            reveal_strlit("random_color");
            reveal_strlit("set_fps");
            assert("setup"@.len() == 5);
            assert("on_load"@.len() == 7);
            assert("update"@.len() == 6);
            assert("clear_output"@.len() == 12);
            assert("random_color"@.len() == 12);
            assert("set_fps"@.len() == 7);
            assert("on_load"@[0] == 'o' && "set_fps"@[0] == 's');
        }
        let mut e = Engine::base(width, height);
        e.add_print_capture();
        e.route_io_print();
        e.add_canvas_fn(CanvasFn::Arc, "arc");
        e.add_canvas_fn(CanvasFn::BeginPath, "begin_path");
        e.add_canvas_fn(CanvasFn::Clear, "clear");
        e.add_canvas_fn(CanvasFn::Fill, "fill");
        e.add_canvas_fn(CanvasFn::FillRect, "fill_rect");
        e.add_canvas_fn(CanvasFn::FillText, "fill_text");
        e.add_canvas_size_fn(true, "height");
        e.add_canvas_fn(CanvasFn::LineTo, "line_to");
        e.add_canvas_fn(CanvasFn::MoveTo, "move_to");
        e.add_canvas_fn(CanvasFn::Rect, "rect");
        e.add_canvas_fn(CanvasFn::Rotate, "rotate");
        e.add_canvas_fn(CanvasFn::SetFillColor, "set_fill_color");
        e.add_canvas_fn(CanvasFn::SetFont, "set_font");
        e.add_canvas_fn(CanvasFn::SetLineWidth, "set_line_width");
        e.add_canvas_fn(CanvasFn::SetStrokeColor, "set_stroke_color");
        e.add_canvas_fn(CanvasFn::SetTextAlign, "set_text_align");
        e.add_canvas_fn(CanvasFn::SetTextBaseline, "set_text_baseline");
        e.add_canvas_fn(CanvasFn::SetTransform, "set_transform");
        e.add_canvas_fn(CanvasFn::Stroke, "stroke");
        e.add_canvas_fn(CanvasFn::StrokeRect, "stroke_rect");
        e.add_canvas_fn(CanvasFn::StrokeText, "stroke_text");
        e.add_canvas_fn(CanvasFn::Translate, "translate");
        e.add_canvas_size_fn(false, "width");
        e.add_play_fn(PlayFn::ClearOutput, "clear_output");
        e.add_random_color_fn("random_color");
        e.add_play_fn(PlayFn::SetFps, "set_fps");
        e
    }

    /// Relies on Cell::set: records the drawing surface's new size for the
    /// width and height accessors. The queue and the play module are
    /// untouched.
    #[verifier::external_body]
    pub(crate) fn set_dims(&mut self, width: u32, height: u32)
        ensures
            queue_of(*final(self)) == queue_of(*old(self)),
            forall|n: Seq<char>| #[trigger] play_hook(*final(self), n) == play_hook(*old(self), n),
    {
        self.dims.set((width, height));
    }

    /// Relies on VecDeque::clear: empties the message queue. The play
    /// module is untouched.
    #[verifier::external_body]
    pub(crate) fn clear_queue(&mut self)
        ensures
            queue_of(*final(self)) == Seq::<KotoMessage>::empty(),
            forall|n: Seq<char>| #[trigger] play_hook(*final(self), n) == play_hook(*old(self), n),
    {
        self.queue.borrow_mut().clear();
    }

    /// Relies on DataMap::remove_with_string: unhooks the script-defined
    /// entry points, so a stale script's hooks cannot survive a recompile.
    /// The queue is untouched.
    #[verifier::external_body]
    pub(crate) fn remove_play_hooks(&mut self)
        ensures
            !play_hook(*final(self), "setup"@),
            !play_hook(*final(self), "on_load"@),
            !play_hook(*final(self), "update"@),
            queue_of(*final(self)) == queue_of(*old(self)),
    {
        let mut data = self.play_module.data_mut();
        data.remove_with_string("setup");
        data.remove_with_string("on_load");
        data.remove_with_string("update");
    }

    /// Relies on Koto::clear_module_cache and Koto::compile: compilation is
    /// a function of the source text alone, named [`compile_outcome`]; on
    /// failure the compiler's rendered message is returned. Compiling runs
    /// no guest code, so the queue and the play module are untouched.
    #[verifier::external_body]
    pub(crate) fn compile(&mut self, script: &str) -> (r: Result<(), String>)
        ensures
            r is Ok <==> compile_outcome(script@) is None,
            r matches Err(e) ==> compile_outcome(script@) == Some(e@),
            queue_of(*final(self)) == queue_of(*old(self)),
            forall|n: Seq<char>| #[trigger] play_hook(*final(self), n) == play_hook(*old(self), n),
    {
        self.koto.clear_module_cache();
        match self.koto.compile(script) {
            Ok(_) => Ok(()),
            Err(e) => Err(e.to_string()),
        }
    }

    /// Relies on Koto::run: executes the compiled module body once. What
    /// the guest does to the queue and the play module is unconstrained.
    #[verifier::external_body]
    pub(crate) fn run(&mut self) -> (r: Result<(), String>) {
        match self.koto.run() {
            Ok(_) => Ok(()),
            Err(e) => Err(e.to_string()),
        }
    }

    /// Relies on DataMap::get_with_string: whether the play module table
    /// currently holds a value under this name.
    #[verifier::external_body]
    pub(crate) fn has_play_hook(&self, name: &str) -> (r: bool)
        ensures
            r == play_hook(*self, name@),
    {
        self.play_module.data().get_with_string(name).is_some()
    }

    /// Relies on Koto::run_function: calls the play module's `setup` hook
    /// with no arguments and returns the guest value it produced. What the
    /// guest does is unconstrained.
    #[verifier::external_body]
    pub(crate) fn call_setup(&mut self) -> (r: Result<Value, String>) {
        let maybe = self.play_module.data().get_with_string("setup").cloned();
        match maybe {
            Some(f) => self.koto.run_function(f, CallArgs::None).map_err(|e| e.to_string()),
            None => Err("play.setup is not defined".to_string()),
        }
    }

    /// Relies on Koto::run_function: calls the play module's `on_load` hook
    /// with the user state; a missing hook is not an error. What the guest
    /// does is unconstrained.
    #[verifier::external_body]
    pub(crate) fn call_on_load(&mut self, state: &Value) -> (r: Result<(), String>) {
        let maybe = self.play_module.data().get_with_string("on_load").cloned();
        match maybe {
            Some(f) => self.koto.run_function(f, CallArgs::Separate(&[state.clone()])).map(|_| ()).map_err(|e| e.to_string()),
            None => Ok(()),
        }
    }

    /// Relies on Koto::run_function: calls the play module's `update` hook
    /// with the user state and the time value; a missing hook is not an
    /// error — no guest code runs at all, so the call succeeds with the
    /// queue and the play table untouched. When the hook exists, what the
    /// guest does is unconstrained.
    #[verifier::external_body]
    pub(crate) fn call_update(&mut self, state: &Value, time: i64) -> (r: Result<(), String>)
        ensures
            !play_hook(*old(self), "update"@) ==> r is Ok
                && queue_of(*final(self)) == queue_of(*old(self))
                && (forall|n: Seq<char>|
                    #[trigger] play_hook(*final(self), n) == play_hook(*old(self), n)),
    {
        let maybe = self.play_module.data().get_with_string("update").cloned();
        match maybe {
            Some(f) => self.koto.run_function(f, CallArgs::Separate(&[state.clone(), time.into()])).map(|_| ()).map_err(|e| e.to_string()),
            None => Ok(()),
        }
    }

    /// Relies on VecDeque::drain: hands out every queued message, oldest
    /// first, and leaves the queue empty. The play module is untouched.
    #[verifier::external_body]
    pub(crate) fn take_messages(&mut self) -> (r: Vec<KotoMessage>)
        ensures
            r@ == queue_of(*old(self)),
            queue_of(*final(self)) == Seq::<KotoMessage>::empty(),
            forall|n: Seq<char>| #[trigger] play_hook(*final(self), n) == play_hook(*old(self), n),
    {
        self.queue.borrow_mut().drain(..).collect()
    }
}

} // verus!
