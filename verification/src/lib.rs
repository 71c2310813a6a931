//! Resource-state coordination for a single-process daemon, together with
//! the small utilities that ship beside it.

pub mod device;
pub mod error;
pub mod hiberutil;
pub mod modes;
pub mod parse;
pub mod policy;
pub mod rand;
pub mod reactor;
pub mod service;
pub mod state;
