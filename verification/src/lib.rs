//! The verified core of a family of stateless agents.
//!
//! A host hands an agent a request as bytes and reads back a response. This crate holds what
//! an agent decides on the way: how a request is decoded, which operation it names, which
//! members that operation needs, which capability calls follow and what the response says.
//! Quantities that are binary64 numbers are carried by their bit patterns in [`scalar::Scalar`];
//! their arithmetic is the host's.

pub mod scalar;
pub mod scoring;
pub mod json;
pub mod codec;
pub mod operation;
pub mod capability;
pub mod response;
pub mod task;
pub mod dispatch;
pub mod wire;
