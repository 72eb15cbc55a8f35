//! Decision logic of the bOSminer Stratum V2 client: how mining jobs are paired
//! with the previous-block-hash announcements of the pool, how the client reacts
//! to every message of the protocol, and how found shares are numbered.

pub mod frontend;
pub mod hashes;
pub mod messages;
pub mod job;
pub mod handler;
pub mod solution;
pub mod stringify;
pub mod connection;

pub use frontend::Frontend;
pub use handler::StratumEventHandler;
pub use job::StratumJob;
pub use solution::StratumSolutionHandler;
pub use stringify::StringifyV2;
