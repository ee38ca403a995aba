//! A client for Server-Sent Events streams: a line parser that assembles
//! events, a rendering of events back to wire text, and the decision logic
//! of the reconnecting client, each with its contract.

pub mod client;
pub mod event;
pub mod laws;
pub mod number;
pub mod parser;
pub mod text;

pub use client::{Action, Client, Error, Signal};
pub use event::{Event, EventView};
pub use number::{parse_retry, parse_u64_spec};
pub use parser::ParseResult;
