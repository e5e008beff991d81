use koto_playground::{KotoMessage, KotoWrapper, Num, Rect, ScriptState};

const COUNTER: &str = "\
play.setup = || {count: 0}

play.update = |state, time|
  state.count += 1
  canvas.fill_rect 0, 0, 10, 10
  print state.count
";

#[test]
fn compile_error_resets_to_not_ready() {
    let mut w = KotoWrapper::new(200, 100);
    assert!(!w.is_ready());
    w.compile_script("play.setup = ");
    assert_eq!(w.state(), ScriptState::NotReady);
    assert!(!w.is_ready());
    assert!(w
        .status()
        .starts_with("Error while compiling script: "));
}

#[test]
fn successful_compile_is_ready() {
    let mut w = KotoWrapper::new(200, 100);
    w.compile_script("x = 1");
    assert_eq!(w.state(), ScriptState::Compiled);
    assert!(w.is_ready());
    assert_eq!(w.status(), "Success");
}

#[test]
fn compile_after_ready_is_recompiled() {
    let mut w = KotoWrapper::new(200, 100);
    w.compile_script("x = 1");
    w.compile_script("x = 2");
    assert_eq!(w.state(), ScriptState::Recompiled);
}

#[test]
fn compile_error_resets_even_when_initialized() {
    let mut w = KotoWrapper::new(200, 100);
    w.compile_script(COUNTER);
    assert!(w.run().is_some());
    assert!(w.is_initialized());
    w.compile_script("play.update = |");
    assert_eq!(w.state(), ScriptState::NotReady);
}

#[test]
fn run_initializes_and_drains() {
    let mut w = KotoWrapper::new(200, 100);
    w.compile_script("canvas.begin_path().move_to(0, 0).line_to(10, 10).stroke()");
    let plan = w.run().expect("run should succeed");
    assert!(w.is_initialized());
    let kinds: Vec<&KotoMessage> = plan.commands.iter().collect();
    assert_eq!(kinds.len(), 4);
    assert!(matches!(kinds[0], KotoMessage::BeginPath));
    assert!(matches!(kinds[1], KotoMessage::MoveTo(_)));
    assert!(matches!(kinds[2], KotoMessage::LineTo(_)));
    assert!(matches!(kinds[3], KotoMessage::Stroke));
}

#[test]
fn queue_is_cleared_by_compile() {
    let mut w = KotoWrapper::new(200, 100);
    // The first script enqueues a message and then fails, so its message is
    // never drained and would still be pending.
    w.compile_script("canvas.stroke()\nthrow 'boom'");
    assert!(w.run().is_none());
    // A fresh compile must drop the stale message: only the new script's
    // message comes out.
    w.compile_script("canvas.fill()");
    let plan = w.run().expect("second script should run");
    assert_eq!(plan.commands, vec![KotoMessage::Fill]);
}

#[test]
fn update_counts_and_draws_each_tick() {
    let mut w = KotoWrapper::new(200, 100);
    w.compile_script(COUNTER);
    let plan = w.run().expect("run should succeed");
    assert!(plan.commands.is_empty());
    assert!(w.update_should_be_called());
    let n = 5;
    let mut fill_rects = 0;
    for tick in 1..=n {
        let plan = w.run_update(tick * 16).expect("update should succeed");
        // The guest incremented its own state and drew exactly once.
        assert_eq!(plan.output, format!("{tick}\n"));
        fill_rects += plan
            .commands
            .iter()
            .filter(|m| {
                **m == KotoMessage::FillRect(Rect {
                    x: Num::Int(0),
                    y: Num::Int(0),
                    width: Num::Int(10),
                    height: Num::Int(10),
                })
            })
            .count();
    }
    assert_eq!(fill_rects, n as usize);
}

#[test]
fn update_should_be_called_needs_initialized_and_hook() {
    let mut w = KotoWrapper::new(200, 100);
    w.compile_script("x = 1");
    // Compiled but not run: no.
    assert!(!w.update_should_be_called());
    let _ = w.run().expect("run should succeed");
    // Initialized, but the script never installed an update hook: no.
    assert!(!w.update_should_be_called());
    w.compile_script(COUNTER);
    let _ = w.run().expect("run should succeed");
    assert!(w.update_should_be_called());
    // A failing update makes the state ErrorAfterInitialized: no, even
    // though the hook still exists.
    w.compile_script("play.update = |state, time| throw 'broken'");
    let _ = w.run().expect("recompiled body should run");
    assert!(w.run_update(1).is_none());
    assert!(!w.update_should_be_called());
}

#[test]
fn runtime_error_after_initialized_keeps_last_frame_state() {
    let mut w = KotoWrapper::new(200, 100);
    w.compile_script(COUNTER);
    assert!(w.run().is_some());
    assert!(w.is_initialized());
    // The script is edited to throw inside update.
    w.compile_script(
        "play.setup = || {count: 0}\n\nplay.update = |state, time| throw 'tick failure'",
    );
    assert_eq!(w.state(), ScriptState::Recompiled);
    assert!(w.run().is_some());
    assert!(w.is_initialized());
    assert!(w.run_update(1).is_none());
    assert_eq!(w.state(), ScriptState::ErrorAfterInitialized);
    assert!(!w.is_ready());
    assert!(w.status().contains("tick failure"));
}

#[test]
fn pre_initialization_error_resets_to_not_ready() {
    let mut w = KotoWrapper::new(200, 100);
    w.compile_script("throw 'early'");
    assert!(w.run().is_none());
    assert_eq!(w.state(), ScriptState::NotReady);
    assert!(w.status().contains("early"));
}

#[test]
fn setup_runs_only_on_first_compile() {
    let mut w = KotoWrapper::new(200, 100);
    w.compile_script(COUNTER);
    assert!(w.run().is_some());
    let plan = w.run_update(1).expect("update should succeed");
    assert_eq!(plan.output, "1\n");
    let plan = w.run_update(2).expect("update should succeed");
    assert_eq!(plan.output, "2\n");
    // Edit and recompile: setup is not re-invoked, the count survives.
    w.compile_script(COUNTER);
    assert!(w.run().is_some());
    let plan = w.run_update(3).expect("update should succeed");
    assert_eq!(plan.output, "3\n");
}

#[test]
fn on_load_receives_the_setup_state() {
    let mut w = KotoWrapper::new(200, 100);
    w.compile_script(
        "play.setup = || {greeting: 'hello'}\n\nplay.on_load = |state| print state.greeting",
    );
    let plan = w.run().expect("run should succeed");
    assert_eq!(plan.output, "hello\n");
}

#[test]
fn argument_error_stops_the_script_and_enqueues_nothing() {
    let mut w = KotoWrapper::new(200, 100);
    // A color setter given 2 numbers: the call must fail with an error
    // naming the function and the accepted shapes.
    w.compile_script("canvas.set_fill_color 1, 2");
    assert!(w.run().is_none());
    assert!(w
        .status()
        .contains("canvas.set_fill_color - expected 3 or 4 Numbers or a Num4, but found 'Int, Int'."));
    // The rejected call enqueued nothing: a caught failure leaves only what
    // later calls append.
    w.compile_script(
        "try\n  canvas.set_fill_color 1, 2\ncatch e\n  canvas.stroke()",
    );
    let plan = w.run().expect("the guest catches the argument error");
    assert_eq!(plan.commands, vec![KotoMessage::Stroke]);
}

#[test]
fn reset_is_idempotent() {
    let mut w = KotoWrapper::new(200, 100);
    w.compile_script(COUNTER);
    assert!(w.run().is_some());
    w.reset();
    let state_once = w.state();
    let status_once = w.status().clone();
    let ready_once = w.is_ready();
    w.reset();
    assert_eq!(w.state(), state_once);
    assert_eq!(w.status(), &status_once);
    assert_eq!(w.is_ready(), ready_once);
    assert_eq!(w.state(), ScriptState::NotReady);
    assert_eq!(w.status(), "");
}

#[test]
fn width_and_height_read_the_surface_size() {
    let mut w = KotoWrapper::new(320, 240);
    w.compile_script("print canvas.width()\nprint canvas.height()");
    let plan = w.run().expect("run should succeed");
    assert_eq!(plan.output, "320\n240\n");
}

#[test]
fn resize_reruns_the_module_body() {
    let mut w = KotoWrapper::new(100, 100);
    w.compile_script("canvas.fill_rect 0, 0, canvas.width(), canvas.height()");
    let plan = w.run().expect("run should succeed");
    assert_eq!(
        plan.commands,
        vec![KotoMessage::FillRect(Rect {
            x: Num::Int(0),
            y: Num::Int(0),
            width: Num::Int(100),
            height: Num::Int(100),
        })]
    );
    let plan = w.on_resize(640, 480).expect("resize rerun should succeed");
    assert_eq!(
        plan.commands,
        vec![KotoMessage::FillRect(Rect {
            x: Num::Int(0),
            y: Num::Int(0),
            width: Num::Int(640),
            height: Num::Int(480),
        })]
    );
    assert!(w.is_initialized());
}

#[test]
fn resize_does_nothing_when_not_ready() {
    let mut w = KotoWrapper::new(100, 100);
    assert!(w.on_resize(640, 480).is_none());
    assert_eq!(w.state(), ScriptState::NotReady);
}

#[test]
fn set_fps_reaches_the_host() {
    let mut w = KotoWrapper::new(100, 100);
    w.compile_script("play.set_fps 30");
    let plan = w.run().expect("run should succeed");
    assert_eq!(plan.commands, vec![KotoMessage::SetFps(Num::Int(30))]);
}

#[test]
fn random_color_yields_a_color_value() {
    let mut w = KotoWrapper::new(100, 100);
    w.compile_script("canvas.set_fill_color play.random_color()");
    let plan = w.run().expect("run should succeed");
    assert_eq!(plan.commands.len(), 1);
    match &plan.commands[0] {
        KotoMessage::SetFillColor(c) => {
            for channel in [c.r, c.g, c.b] {
                match channel {
                    Num::Float(bits) => {
                        let v = f64::from_bits(bits);
                        assert!((0.0..=255.0).contains(&v));
                    }
                    other => panic!("unexpected channel: {other:?}"),
                }
            }
            assert_eq!(c.a, Num::Float((1.0f32 as f64).to_bits()));
        }
        other => panic!("unexpected message: {other:?}"),
    }
}

#[test]
fn missing_setup_yields_an_empty_map_state() {
    let mut w = KotoWrapper::new(100, 100);
    w.compile_script("play.update = |state, time| print type state");
    assert!(w.run().is_some());
    let plan = w.run_update(1).expect("update should succeed");
    assert_eq!(plan.output, "Map\n");
}

#[test]
fn missing_update_is_not_an_error() {
    let mut w = KotoWrapper::new(100, 100);
    w.compile_script("x = 1");
    assert!(w.run().is_some());
    assert!(!w.update_should_be_called());
    // The host may still drive a tick while ready; the absent hook is
    // simply skipped.
    let plan = w.run_update(1).expect("a missing update hook is skipped");
    assert!(plan.commands.is_empty());
    assert_eq!(plan.output, "");
    assert!(w.is_initialized());
}

#[test]
fn stale_hooks_do_not_survive_a_recompile() {
    let mut w = KotoWrapper::new(100, 100);
    w.compile_script(COUNTER);
    assert!(w.run().is_some());
    assert!(w.update_should_be_called());
    // The new script installs no hooks: the old script's update must not
    // be called for it.
    w.compile_script("x = 1");
    assert!(w.run().is_some());
    assert!(!w.update_should_be_called());
}

#[test]
fn print_supports_the_io_module_shapes() {
    let mut w = KotoWrapper::new(100, 100);
    w.compile_script("print 'plain'\nprint 'count: {}', 3\nprint 1, 2\nio.print 'via io'");
    let plan = w.run().expect("run should succeed");
    assert_eq!(plan.output, "plain\ncount: 3\n(1, 2)\nvia io\n");
}

#[test]
fn clear_output_is_forwarded() {
    let mut w = KotoWrapper::new(100, 100);
    w.compile_script("play.clear_output()");
    let plan = w.run().expect("run should succeed");
    assert_eq!(plan.commands, vec![KotoMessage::ClearOutput]);
}
