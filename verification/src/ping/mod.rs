//! The ping monitor: timestamps, sequence numbers, messages, per-peer state
//! and the worker's decisions.

pub mod buffer;
pub mod deque;
pub mod message;
pub mod monitor;
pub mod seq;
pub mod status;
pub mod time;
pub mod worker;

pub use self::monitor::{Config, PeerStatus};
pub use self::status::Latency;
pub use self::time::{Clock, Timestamp};
