//! Output-routing policy for a command-line tool.
//!
//! Given a user-selected verbosity mode, the library decides which of three
//! output channels are active: a progress indicator, the primary message
//! stream, and the diagnostic stream. Writes submitted to a disabled channel
//! are accepted and silently discarded; writes to an enabled channel are
//! forwarded verbatim, in call order.

pub mod channel;
pub mod printer;
pub mod progress;

pub use channel::ChannelState;
pub use printer::Printer;
pub use progress::ProgressVisibility;
