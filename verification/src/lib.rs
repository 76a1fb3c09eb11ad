//! An asynchronous request/response facade over a bounded pool of slow,
//! blocking resources.
//!
//! The library holds the logic of such a facade: a [`pool::Pool`] that leases
//! its resources one caller at a time, a structured request that is compiled
//! into an opaque query by an external query builder, and the call protocol
//! of the facade itself ([`service::DataResolver`]), which never blocks.  The
//! blocking work is carried out by the embedding program on an isolated
//! execution context; it reports the outcome back through
//! [`service::BlockingOutcome`], and the facade resolves every call with
//! either the success marker or a typed [`errors::CallError`].

pub mod errors;
pub mod pool;
pub mod query;
pub mod service;
