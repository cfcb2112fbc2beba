//! The state and rules of a quote-of-the-day board: cards that poll a remote
//! service, keep the latest quote and a favourite flag, and render as text.

pub mod board;
pub mod card;
pub mod connector;
pub mod json;
pub mod poller;
