//! Verified decision logic of the naia multi-client demos: the state that the
//! clients and servers keep, and what they do on each network event.

pub mod decimal;
pub mod history;
pub mod sequence;
pub mod relations;
pub mod socket;
pub mod text;
pub mod runner;
pub mod server;
pub mod names;
pub mod lines;
pub mod prediction;
