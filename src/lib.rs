//! Capability-aware terminal output: the status vocabulary, the coloring
//! policy, output streams with color negotiation, and the shell and UI that
//! write one formatted, flushed line per call.

pub mod render;
pub mod settings;
pub mod shell;
pub mod status;
pub mod stream;
