//! A small payment ledger: callers identify themselves with a bearer token,
//! submit payments with a strictly positive amount, and read back the
//! payments they own. Every creation attempt is counted.

pub mod auth;
pub mod payment;
pub mod service;
pub mod store;
