use vstd::prelude::*;

use koto::runtime::Value;

use crate::engine::{compile_outcome, default_user_state, play_hook, queue_of, Engine};
use crate::renderer::{render_plan, RenderPlan};

verus! {

/// The lifecycle states a guest script moves through between edits and runs.
#[derive(Clone, Copy, Debug, PartialEq, Eq, Structural)]
pub enum ScriptState {
    /// No compiled script is usable: nothing compiled yet, the last compile
    /// failed, or an error struck before the script ever ran.
    NotReady,
    /// The first compile of a session succeeded; the script has not run yet.
    Compiled,
    /// A later edit recompiled successfully after the script had already
    /// compiled once; the user state survives.
    Recompiled,
    /// The module body and the startup hooks ran to completion.
    Initialized,
    /// The script broke after a prior successful run; the last good frame
    /// stays visible until a fresh successful compile.
    ErrorAfterInitialized,
}

impl ScriptState {
    /// A script is usable unless it never became ready or broke after
    /// having run.
    pub open spec fn spec_is_ready(self) -> bool {
        !(self is NotReady || self is ErrorAfterInitialized)
    }
}

/// The wrapper around the guest interpreter: it owns the lifecycle state
/// machine, decides when guest code runs, clears and drains the message
/// queue, and converts every guest error into a status text plus a state
/// transition. One wrapper serves one hosting session.
pub struct KotoWrapper {
    engine: Engine,
    script_state: ScriptState,
    status: String,
    user_state: Value,
    has_initialized: bool,
}

impl KotoWrapper {
    /// The current lifecycle state.
    pub closed spec fn spec_state(self) -> ScriptState {
        self.script_state
    }

    /// The status text shown to the user: empty, `Success`, or an error.
    pub closed spec fn spec_status(self) -> Seq<char> {
        self.status@
    }

    /// The guest-owned value produced by `setup`, threaded unchanged into
    /// every later `update` call and never inspected by the host.
    pub closed spec fn spec_user_state(self) -> Value {
        self.user_state
    }

    /// Whether a run has succeeded since the wrapper was created or last
    /// reset; decides how a later error is classified.
    pub closed spec fn spec_has_initialized(self) -> bool {
        self.has_initialized
    }

    /// The engine, for speaking about its queue and hooks.
    pub closed spec fn spec_engine(self) -> Engine {
        self.engine
    }

    /// What `compile_script` does, for any outcome of the compiler.
    pub open spec fn compile_transition(pre: KotoWrapper, post: KotoWrapper, script: Seq<char>) -> bool {
        &&& queue_of(post.spec_engine()) == Seq::<crate::messages::KotoMessage>::empty()
        &&& !play_hook(post.spec_engine(), "setup"@)
        &&& !play_hook(post.spec_engine(), "on_load"@)
        &&& !play_hook(post.spec_engine(), "update"@)
        &&& post.spec_user_state() == pre.spec_user_state()
        &&& post.spec_has_initialized() == pre.spec_has_initialized()
        &&& match compile_outcome(script) {
            None => {
                &&& post.spec_state() == (if pre.spec_state() is NotReady {
                    ScriptState::Compiled
                } else {
                    ScriptState::Recompiled
                })
                &&& post.spec_status() == "Success"@
            },
            Some(err) => {
                &&& post.spec_state() is NotReady
                &&& post.spec_status() == "Error while compiling script: "@ + err
            },
        }
    }

    /// What `run` does, for any outcome of the guest.
    pub open spec fn run_transition(pre: KotoWrapper, post: KotoWrapper, r: Option<RenderPlan>) -> bool {
        &&& match r {
            Some(_) => {
                &&& post.spec_state() is Initialized
                &&& post.spec_has_initialized()
                &&& post.spec_status() == pre.spec_status()
                &&& queue_of(post.spec_engine()) == Seq::<crate::messages::KotoMessage>::empty()
            },
            None => {
                &&& post.spec_state() == (if pre.spec_has_initialized() {
                    ScriptState::ErrorAfterInitialized
                } else {
                    ScriptState::NotReady
                })
                &&& post.spec_has_initialized() == pre.spec_has_initialized()
            },
        }
        &&& pre.spec_state() is Recompiled ==> post.spec_user_state() == pre.spec_user_state()
    }

    /// What `run_update` does, for any outcome of the guest. When the
    /// script exports no `update` hook, no guest code runs and success is
    /// owed: a missing `update` is not an error.
    pub open spec fn update_transition(pre: KotoWrapper, post: KotoWrapper, r: Option<RenderPlan>) -> bool {
        &&& post.spec_user_state() == pre.spec_user_state()
        &&& post.spec_has_initialized() == pre.spec_has_initialized()
        &&& !play_hook(pre.spec_engine(), "update"@) ==> r is Some
        &&& match r {
            Some(_) => {
                &&& post.spec_state() == pre.spec_state()
                &&& post.spec_status() == pre.spec_status()
                &&& queue_of(post.spec_engine()) == Seq::<crate::messages::KotoMessage>::empty()
            },
            None => post.spec_state() is ErrorAfterInitialized,
        }
    }

    /// What `on_resize` does, for any outcome of the guest.
    pub open spec fn resize_transition(pre: KotoWrapper, post: KotoWrapper, r: Option<RenderPlan>) -> bool {
        &&& post.spec_user_state() == pre.spec_user_state()
        &&& post.spec_has_initialized() == pre.spec_has_initialized()
        &&& !pre.spec_state().spec_is_ready() ==> {
            &&& r is None
            &&& post.spec_state() == pre.spec_state()
            &&& post.spec_status() == pre.spec_status()
            &&& queue_of(post.spec_engine()) == queue_of(pre.spec_engine())
        }
        &&& match r {
            Some(_) => {
                &&& post.spec_state() == pre.spec_state()
                &&& post.spec_status() == pre.spec_status()
                &&& queue_of(post.spec_engine()) == Seq::<crate::messages::KotoMessage>::empty()
            },
            None => pre.spec_state().spec_is_ready() ==> post.spec_state() == (
                if pre.spec_has_initialized() {
                    ScriptState::ErrorAfterInitialized
                } else {
                    ScriptState::NotReady
                }
            ),
        }
    }

    /// What `reset` does: the outcome does not depend on the prior state.
    pub open spec fn reset_transition(pre: KotoWrapper, post: KotoWrapper) -> bool {
        &&& post.spec_state() is NotReady
        &&& post.spec_status() == Seq::<char>::empty()
        &&& !post.spec_has_initialized()
        &&& post.spec_user_state() == pre.spec_user_state()
        &&& post.spec_engine() == pre.spec_engine()
    }

    /// Builds a wrapper for a drawing surface of the given size. The
    /// interpreter and its capability modules are created once and live for
    /// the whole session. Nothing has run: the queue is empty and no
    /// script hook exists yet.
    pub fn new(width: u32, height: u32) -> (r: KotoWrapper)
        ensures
            r.spec_state() is NotReady,
            r.spec_status() == Seq::<char>::empty(),
            !r.spec_has_initialized(),
            queue_of(r.spec_engine()) == Seq::<crate::messages::KotoMessage>::empty(),
            !play_hook(r.spec_engine(), "setup"@),
            !play_hook(r.spec_engine(), "on_load"@),
            !play_hook(r.spec_engine(), "update"@),
    {
        KotoWrapper {
            engine: Engine::new(width, height),
            script_state: ScriptState::NotReady,
            status: String::new(),
            user_state: default_user_state(),
            has_initialized: false,
        }
    }

    /// Records an error text in the status area.
    fn record_error(&mut self, error: String)
        ensures
            final(self).spec_status() == error@,
            final(self).spec_state() == old(self).spec_state(),
            final(self).spec_user_state() == old(self).spec_user_state(),
            final(self).spec_has_initialized() == old(self).spec_has_initialized(),
            final(self).spec_engine() == old(self).spec_engine(),
    {
        self.status = error;
    }

    /// Compiles an edited source text. The message queue and any hooks a
    /// previous script installed are cleared first, so nothing stale bleeds
    /// into the new session. On compiler failure the state is NotReady —
    /// a broken script is never left running — and the compiler's message
    /// is recorded; on success the state records whether this was the
    /// session's first compile, and the status reads `Success`.
    pub fn compile_script(&mut self, script: &str)
        requires
            script@.len() > 0,
        ensures
            Self::compile_transition(*old(self), *final(self), script@),
    {
        self.engine.clear_queue();
        self.engine.remove_play_hooks();
        match self.engine.compile(script) {
            Ok(()) => {
                self.status = String::from_str("Success");
                self.script_state = if matches!(self.script_state, ScriptState::NotReady) {
                    ScriptState::Compiled
                } else {
                    ScriptState::Recompiled
                };
            },
            Err(e) => {
                let mut msg = String::from_str("Error while compiling script: ");
                msg.append(e.as_str());
                self.record_error(msg);
                self.script_state = ScriptState::NotReady;
            },
        }
    }

    /// Runs the module body of a freshly compiled script once. Calling this
    /// while already Initialized is host misuse and is excluded by the
    /// precondition rather than ignored.
    ///
    /// On the session's first successful compile, an exported `setup` is
    /// called and its value captured as the user state (an empty map when
    /// `setup` is absent); `setup` is never re-invoked for a recompile.
    /// Then `on_load` runs, if present. Any failure stops execution,
    /// records the error and classifies it: NotReady when no run had
    /// succeeded yet, ErrorAfterInitialized otherwise. On full success the
    /// state is Initialized and the queue is drained into the returned
    /// plan.
    pub fn run(&mut self) -> (r: Option<RenderPlan>)
        requires
            old(self).spec_state() is Compiled || old(self).spec_state() is Recompiled,
        ensures
            Self::run_transition(*old(self), *final(self), r),
    {
        let was_first = matches!(self.script_state, ScriptState::Compiled);
        match self.engine.run() {
            Err(e) => {
                self.fail_run(e);
                return None;
            },
            Ok(()) => {},
        }
        if was_first {
            if self.engine.has_play_hook("setup") {
                match self.engine.call_setup() {
                    Ok(state) => {
                        self.user_state = state;
                    },
                    Err(e) => {
                        self.fail_run(e);
                        return None;
                    },
                }
            } else {
                self.user_state = default_user_state();
            }
        }
        match self.engine.call_on_load(&self.user_state) {
            Err(e) => {
                self.fail_run(e);
                return None;
            },
            Ok(()) => {},
        }
        self.script_state = ScriptState::Initialized;
        self.has_initialized = true;
        let msgs = self.engine.take_messages();
        Some(render_plan(msgs))
    }

    /// Records a pre- or post-initialization runtime error: equivalent to a
    /// compile failure when the script never started, else the last good
    /// frame is kept under ErrorAfterInitialized.
    fn fail_run(&mut self, error: String)
        ensures
            final(self).spec_status() == error@,
            final(self).spec_state() == (if old(self).spec_has_initialized() {
                ScriptState::ErrorAfterInitialized
            } else {
                ScriptState::NotReady
            }),
            final(self).spec_user_state() == old(self).spec_user_state(),
            final(self).spec_has_initialized() == old(self).spec_has_initialized(),
    {
        self.status = error;
        self.script_state = if self.has_initialized {
            ScriptState::ErrorAfterInitialized
        } else {
            ScriptState::NotReady
        };
    }

    /// Calls the exported `update` hook with the user state and a
    /// caller-supplied monotonic time value — here an integer, by host
    /// convention, forwarded and never interpreted. A missing hook is not
    /// an error. On success the queue is drained into the returned plan; on
    /// failure the state becomes ErrorAfterInitialized and the caller must
    /// stop scheduling further ticks.
    pub fn run_update(&mut self, time: i64) -> (r: Option<RenderPlan>)
        requires
            old(self).spec_state().spec_is_ready(),
        ensures
            Self::update_transition(*old(self), *final(self), r),
    {
        match self.engine.call_update(&self.user_state, time) {
            Ok(()) => {
                let msgs = self.engine.take_messages();
                Some(render_plan(msgs))
            },
            Err(e) => {
                self.record_error(e);
                self.script_state = ScriptState::ErrorAfterInitialized;
                None
            },
        }
    }

    /// Re-executes the module body after the drawing surface changed size,
    /// so the script can repaint at the new dimensions. Does nothing when
    /// the script is not ready.
    pub fn on_resize(&mut self, width: u32, height: u32) -> (r: Option<RenderPlan>)
        ensures
            Self::resize_transition(*old(self), *final(self), r),
    {
        self.engine.set_dims(width, height);
        if !self.is_ready() {
            return None;
        }
        match self.engine.run() {
            Err(e) => {
                self.fail_run(e);
                None
            },
            Ok(()) => {
                let msgs = self.engine.take_messages();
                Some(render_plan(msgs))
            },
        }
    }

    /// Forces NotReady and clears the status, without discarding the
    /// interpreter or its cached compiled code; callers in practice always
    /// recompile afterwards.
    pub fn reset(&mut self)
        ensures
            Self::reset_transition(*old(self), *final(self)),
    {
        self.script_state = ScriptState::NotReady;
        self.has_initialized = false;
        self.status = String::new();
    }

    /// True unless the state is NotReady or ErrorAfterInitialized.
    pub fn is_ready(&self) -> (r: bool)
        ensures
            r == self.spec_state().spec_is_ready(),
    {
        !(matches!(self.script_state, ScriptState::NotReady) || matches!(
            self.script_state,
            ScriptState::ErrorAfterInitialized,
        ))
    }

    /// True exactly in the Initialized state.
    pub fn is_initialized(&self) -> (r: bool)
        ensures
            r == (self.spec_state() is Initialized),
    {
        matches!(self.script_state, ScriptState::Initialized)
    }

    /// Governs whether the host keeps scheduling ticks at all: true iff the
    /// script is Initialized and exports an `update` hook.
    pub fn update_should_be_called(&self) -> (r: bool)
        ensures
            r == (self.spec_state() is Initialized && play_hook(self.spec_engine(), "update"@)),
    {
        self.is_initialized() && self.engine.has_play_hook("update")
    }

    /// The current lifecycle state.
    pub fn state(&self) -> (r: ScriptState)
        ensures
            r == self.spec_state(),
    {
        self.script_state
    }

    /// The current status text.
    pub fn status(&self) -> (r: &String)
        ensures
            r@ == self.spec_status(),
    {
        &self.status
    }
}

// ---------------------------------------------------------------------------
// Laws of the lifecycle
// ---------------------------------------------------------------------------

/// After any compile, readiness reports exactly whether the source compiled:
/// false immediately after a compile error, true immediately after a
/// successful compile — whatever state the wrapper was in before.
pub proof fn lemma_ready_after_compile(pre: KotoWrapper, post: KotoWrapper, script: Seq<char>)
    requires
        KotoWrapper::compile_transition(pre, post, script),
    ensures
        compile_outcome(script) is Some ==> !post.spec_state().spec_is_ready(),
        compile_outcome(script) is None ==> post.spec_state().spec_is_ready(),
{
}

/// `update_should_be_called` is false whenever the state is not
/// Initialized, whether or not the script exports an `update` hook.
pub proof fn lemma_update_needs_initialized(w: KotoWrapper)
    requires
        !(w.spec_state() is Initialized),
    ensures
        !(w.spec_state() is Initialized && play_hook(w.spec_engine(), "update"@)),
{
}

/// The message queue is empty immediately after any compile, even with
/// messages pending from a prior session.
pub proof fn lemma_queue_empty_after_compile(pre: KotoWrapper, post: KotoWrapper, script: Seq<char>)
    requires
        KotoWrapper::compile_transition(pre, post, script),
    ensures
        queue_of(post.spec_engine()) == Seq::<crate::messages::KotoMessage>::empty(),
{
}

/// Right after any compile no tick is due: the state is not Initialized,
/// and the previous script's `update` hook is gone, so a pending scheduled
/// tick that still fires finds nothing to run.
pub proof fn lemma_no_tick_due_after_compile(pre: KotoWrapper, post: KotoWrapper, script: Seq<char>)
    requires
        KotoWrapper::compile_transition(pre, post, script),
    ensures
        !(post.spec_state() is Initialized && play_hook(post.spec_engine(), "update"@)),
{
}

/// `reset` is idempotent: every observable of the wrapper after two resets
/// equals its value after one.
pub proof fn lemma_reset_idempotent(a: KotoWrapper, b: KotoWrapper, c: KotoWrapper)
    requires
        KotoWrapper::reset_transition(a, b),
        KotoWrapper::reset_transition(b, c),
    ensures
        c.spec_state() == b.spec_state(),
        c.spec_status() == b.spec_status(),
        c.spec_has_initialized() == b.spec_has_initialized(),
        c.spec_user_state() == b.spec_user_state(),
        c.spec_engine() == b.spec_engine(),
{
}

/// The user state round-trips unmodified through update ticks: however many
/// updates run, and whether they succeed or fail, the value captured from
/// `setup` is the one passed onward, until the next first-compile cycle.
pub proof fn lemma_user_state_round_trip(
    pre: KotoWrapper,
    mid: KotoWrapper,
    post: KotoWrapper,
    r1: Option<RenderPlan>,
    r2: Option<RenderPlan>,
)
    requires
        KotoWrapper::update_transition(pre, mid, r1),
        KotoWrapper::update_transition(mid, post, r2),
    ensures
        post.spec_user_state() == pre.spec_user_state(),
{
}

/// A recompile preserves the user state across the whole edit-and-rerun
/// cycle: compiling an edited source and running it again never re-invokes
/// `setup`, so the captured state survives.
pub proof fn lemma_user_state_survives_recompile(
    pre: KotoWrapper,
    mid: KotoWrapper,
    post: KotoWrapper,
    script: Seq<char>,
    r: Option<RenderPlan>,
)
    requires
        pre.spec_state() is Initialized,
        KotoWrapper::compile_transition(pre, mid, script),
        compile_outcome(script) is None,
        KotoWrapper::run_transition(mid, post, r),
    ensures
        post.spec_user_state() == pre.spec_user_state(),
{
}

/// A failed update lands in ErrorAfterInitialized: the host keeps the last
/// good frame visible and must stop scheduling ticks, and the wrapper is no
/// longer ready until a fresh successful compile.
pub proof fn lemma_failed_update_is_terminal(pre: KotoWrapper, post: KotoWrapper)
    requires
        KotoWrapper::update_transition(pre, post, None),
    ensures
        post.spec_state() is ErrorAfterInitialized,
        !post.spec_state().spec_is_ready(),
{
}

} // verus!
