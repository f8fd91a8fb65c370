//! The request handlers: the decision and bookkeeping half of the service's
//! endpoints, working on the in-memory [`crate::store::Store`].

pub mod cell;
pub mod user;
