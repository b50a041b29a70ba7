//! Safety policy engine, action dispatcher and gateway control channel of a
//! desktop companion that performs operations on behalf of a remote gateway.
//!
//! - `safety`: the risk classifier; verdicts on file operations, shell
//!   commands and process termination.
//! - `actions`: the dispatcher; decides each request and packages what the
//!   host reports after performing it.
//! - `desktop`: the desktop-automation sub-dispatcher and its scripts.
//! - `channel`: connection states, the single-flight loop guard, the
//!   channel's event-to-command decisions, and the frames on the wire.
//! - `session`: safety checks without execution, status, pairing
//!   credentials and chat messages.
//! - `output`, `text`: number and size formatting, byte budgets, and
//!   character-sequence helpers.

pub mod text;
pub mod output;
pub mod safety;
pub mod actions;
pub mod desktop;
pub mod channel;
pub mod session;
