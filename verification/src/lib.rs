//! A small library of validated value types and an in-process ticket store
//! service: a single server loop owns the store and serves insert/get
//! requests arriving over a bounded command channel, replying on the
//! one-shot channel each command carries.

pub mod channel;
pub mod order;
pub mod service;
pub mod store;
pub mod sums;
pub mod ticket;
