//! Rotation of pseudo-random IPv6 addresses on a network device.
//!
//! A rotator makes up addresses under a prefix, keeps those that are
//! assigned to the device, and says which commands are to be run against
//! the device, and when. It runs none of them: whoever drives the rotator
//! runs the commands, waits out the intervals, and tells the rotator what
//! has happened.

pub mod address;
pub mod block;
pub mod command;
pub mod error;
pub mod pool;
pub mod random;
pub mod rotator;
pub mod runs;
pub mod scheduler;
pub mod state;
