//! Core of a coordinator/worker work-distribution framework.
//!
//! A coordinator hands opaque chunks of work to workers over a byte stream
//! and collects their results; the domain logic is supplied by the embedding
//! application through two capability traits.  This crate owns the parts
//! that can be stated and proved: the wire codec for the two control-message
//! enums, the length-prefixed framing layer, the coordinator's per-connection
//! decision logic together with the shutdown handshake, the worker's client
//! decision logic, and the shared error vocabulary.  The surrounding runtime
//! (sockets, task spawning, locking) drives these functions and performs the
//! I/O they decide on.
#![allow(non_camel_case_types)]

pub mod nc_config;
pub mod nc_error;
pub mod nc_frame;
pub mod nc_node;
pub mod nc_server;
pub mod nc_util;
