//! Shell-style command construction, interpolation and execution semantics.
//!
//! The crate models commands as a program name followed by arguments in call
//! order, interpolates templated command descriptions against named values,
//! renders command lines with quoting, classifies the outcome of running a
//! child process, and gives scoped, restorable transitions for the ambient
//! state a process shares across threads (working directory, environment
//! variables).
//!
//! Argument text is held as UTF-8 strings; callers that talk to the operating
//! system convert to and from OS-native strings at the boundary.

pub mod ambient;
pub mod cmd;
pub mod error;
pub mod interp;
pub mod outcome;
pub mod text;

pub use ambient::AmbientState;
pub use ambient::PushdGuard;
pub use ambient::PushenvGuard;
pub use ambient::joined_path;
pub use ambient::resolve_path;
pub use cmd::Cmd;
pub use error::Error;
pub use interp::Binding;
pub use interp::InterpError;
pub use interp::Piece;
pub use interp::ShellValue;
pub use interp::Template;
pub use interp::Word;
pub use interp::interpolate;
pub use outcome::CaptureOutcome;
pub use outcome::RunOutcome;
