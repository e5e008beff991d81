//! A verified bridge around an embedded scripting-language interpreter.
//!
//! Guest scripts are compiled and run by the koto interpreter; this library
//! owns everything around it: the lifecycle state machine that decides when
//! guest code may run and how each error is classified, the validation of
//! every argument a script passes to the host's `canvas` and `play`
//! capability functions, the message queue those functions fill, and the
//! drain that hands the queued commands to a rendering host in order.
//!
//! The interpreter itself is reached only through the small trusted surface
//! in [`engine`]; the state machine, the argument checks, the error texts
//! and the drain are verified.

pub mod args;
pub mod canvas;
pub mod engine;
pub mod errors;
pub mod messages;
pub mod play;
pub mod renderer;
pub mod stored_value;
pub mod wrapper;

pub use args::Arg;
pub use errors::ArgumentError;
pub use messages::{Color, KotoMessage, Num, Point, Rect};
pub use renderer::RenderPlan;
pub use stored_value::{StorableValue, StoredValue};
pub use wrapper::{KotoWrapper, ScriptState};
