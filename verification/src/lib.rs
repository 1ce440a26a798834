//! The engine behind an interactive drawing surface: the drawing state, the
//! render engine's state machine, the frame scheduler, the input bridge and
//! the application handle that owns them, together with the planning half of
//! the project's development command line.
//!
//! The engine never touches the host document itself. Each entry point takes
//! the plain values that the host reported (sizes, rectangles, handles) and
//! returns the decision or the work to perform, so that every rule of the
//! lifecycle is stated in a contract and proved.

pub mod app_handle;
pub mod cli;
pub mod color;
pub mod error;
pub mod input;
pub mod layout;
pub mod render;
pub mod scalar;
pub mod scheduler;
pub mod state;
pub mod text;
