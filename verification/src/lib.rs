//! Liveness monitor for a single tunneled endpoint: a bounded ring of status
//! transitions, a debouncing monitoring engine, the trickle check protocol's
//! classification rule, and the text rendering the front door serves.

pub mod addr;
pub mod check;
pub mod engine;
pub mod render;
pub mod router;
pub mod status_log;
pub mod trickle;
