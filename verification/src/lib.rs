//! Greeting texts, and the handlers of a small greeting service.
//!
//! `greeting` composes the texts, `trim` cuts the white space from the ends of a
//! name that was read from input, and `service` answers the requests of the
//! service from plain values, leaving transport and encoding to its caller.

pub mod greeting;
pub mod service;
pub mod trim;
