//! Verified core of a synchronous foreign-call boundary for an asynchronous
//! publish/subscribe messaging engine.
//!
//! The messaging engine itself (transport, routing, wire encoding) is an
//! external collaborator; what this library holds is the logic of the
//! boundary layer around it: the status-code and quality-of-service
//! vocabulary that crosses the boundary, input validation (null arguments,
//! UTF-8 key expressions), the encoding-identifier mapping, the handle
//! ownership model that keeps a session's connection alive for as long as
//! any dependent resource needs it, the marshaling of delivered events into
//! flat views, the per-thread diagnostic slot, and the decision rule that
//! lets a callback re-enter the boundary without deadlocking the runtime.

pub mod attachment;
pub mod boundary;
pub mod bridge;
pub mod encoding;
pub mod errchan;
pub mod hex;
pub mod qos;
pub mod registry;
pub mod sample;
pub mod status;
pub mod text;
