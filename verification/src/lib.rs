//! An interpreter for the render-command bytecode of a 3D model: it decodes a
//! byte stream into matrix-stack and draw requests and hands them, in order,
//! to a renderer.
//!
//! - [`cur`]: the cursor that the stream is read through.
//! - [`opcode`]: the operand length of each opcode.
//! - [`command`]: the instructions, and how bytes decode to them.
//! - [`sink`]: the renderer as the interpreter sees it.
//! - [`interp`]: the interpreter's state, what a run of a stream is, and the
//!   functions that carry one out.
//! - [`recorder`]: a renderer that only writes down what it is asked.
//! - [`laws`]: what holds of every run.
//! - [`error`]: how a run can fail.

pub mod command;
pub mod cur;
pub mod error;
pub mod interp;
pub mod laws;
pub mod opcode;
pub mod recorder;
pub mod sink;

pub use command::Command;
pub use cur::Cur;
pub use error::{DecodeError, RenderError};
pub use interp::{run_commands, RenderInterpreterState};
pub use opcode::cmd_size;
pub use recorder::{record_commands, Recorder};
pub use sink::{BlendTerm, RenderOp, Sink, WEIGHT_ONE};
