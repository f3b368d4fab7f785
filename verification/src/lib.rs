//! Raw-mode session management and size reporting for terminals whose state
//! is controlled through a console-mode API on handles.
//!
//! The core of the crate is the scoped raw-mode session: it reads the mode
//! flags of the output and input endpoints, applies the raw-mode flag set,
//! and restores the original flags exactly once when the session is released,
//! all against an abstract [`TerminalBackend`] capability. A platform adapter
//! supplies the four backend primitives; an in-memory [`SimulatedBackend`]
//! is provided here, fully verified, for testing the session logic.

mod backend;
mod raw;
mod sim;
mod sink;
mod size;

pub use sim::SIM_FAULT_CODE;
pub use sim::SimulatedBackend;
pub use size::lemma_size_query_idempotent;
pub use size::size_query_result;
pub use size::terminal_size;

pub use raw::DISABLE_NEWLINE_AUTO_RETURN;
pub use raw::ENABLE_ECHO_INPUT;
pub use raw::ENABLE_LINE_INPUT;
pub use raw::ENABLE_PROCESSED_INPUT;
pub use raw::ENABLE_PROCESSED_OUTPUT;
pub use raw::ENABLE_VIRTUAL_TERMINAL_INPUT;
pub use raw::ENABLE_VIRTUAL_TERMINAL_PROCESSING;
pub use raw::ENABLE_WINDOW_INPUT;
pub use raw::IntoRawMode;
pub use raw::RawTerminal;
pub use raw::enable_vt_mode_input;
pub use raw::enable_vt_mode_output;
pub use raw::enter_error;
pub use raw::enter_raw_mode;
pub use raw::enter_raw_ok;
pub use raw::input_enable_error;
pub use raw::lemma_restoration_round_trip;
pub use raw::output_enable_error;
pub use raw::raw_entered;
pub use raw::raw_input_flags;
pub use raw::raw_output_flags;
pub use raw::restore_step;
pub use raw::restored;

pub use sink::ByteSink;
pub use sink::SinkError;
pub use sink::VecSink;

pub use backend::BackendModel;
pub use backend::Endpoint;
pub use backend::GeometryError;
pub use backend::Handle;
pub use backend::HandleError;
pub use backend::IoError;
pub use backend::ModeQueryError;
pub use backend::ModeSetError;
pub use backend::TerminalBackend;
