//! Peer liveness and latency monitoring for the machines of one application
//! in a private network.
//!
//! Each machine probes its peers over UDP, keeps a bounded history of what
//! came of the probes, and tells for each peer whether it is reachable and
//! how long a round trip takes. This crate holds the rules of that monitor:
//!
//! - [`ping::message`]: the probe and the reply, and their bytes on the wire;
//! - [`ping::seq`] and [`ping::time`]: sequence numbers and timestamps;
//! - [`ping::status`]: the history of observations and the latency estimate;
//! - [`ping::monitor`]: the state that is kept of one peer;
//! - [`ping::worker`]: what the monitor's worker decides at each event;
//! - [`machine`], [`region`], [`resolver`], [`record`] and [`api`]: machine
//!   IDs, regions, and what discovery and the platform report of machines.
//!
//! Every function here is verified against its contract. What the contracts
//! take on trust of the crates that the library calls is stated where the
//! call is made: in [`ping::buffer`], [`ping::deque`] and [`ping::time`], and
//! beside the few single calls elsewhere. The socket, the timers and the
//! shared peer table are not part of this crate.

pub mod api;
pub mod error;
pub mod machine;
pub mod ping;
pub mod record;
pub mod region;
pub mod resolver;

pub use error::Error;
pub use machine::MachineId;
pub use region::{City, Location, Region, RegionCode, RegionDetails, RegionError};
pub use resolver::{dns_server_address, Instance, Node, Peer};
