//! A verified core for instruction introspection: a program that proves it can
//! identify its own position within the ordered instruction list of its
//! enclosing transaction, by reading the runtime's shared introspection
//! account rather than trusting any caller-supplied claim.
//!
//! The library is split into three pieces: the data model ([`model`]), the
//! introspection reader that interprets the shared account's bytes
//! ([`reader`]), and the verification routine together with the recursive
//! self-invocation trigger ([`routine`]).

pub mod model;
pub mod reader;
pub mod routine;
