//! Core of an attested secure channel: the configuration handed to the
//! transport, the lifecycle of one session, and the judgement of the peer's
//! attestation evidence against a policy.
//!
//! Nothing here performs I/O. The transport and the policy engine are driven
//! by the caller, which reports what they returned; every decision taken on
//! those reports is made, and proved, in this crate.

pub mod canonical;
pub mod config;
pub mod dispatch;
pub mod evidence;
pub mod json;
pub mod policy;
pub mod session;
