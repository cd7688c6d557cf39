//! Verified core of a Bitcoin peer handshake sweep.
//!
//! The library models the `version`/`verack` exchange that every Bitcoin
//! peer-to-peer session begins with.  The handshake itself is a small state
//! machine ([`machine`]) driven by network events; classifying the outcome of
//! each attempt and composing one outcome record per candidate address is the
//! orchestrator's logic ([`orchestrator`]).  Wire encoding and decoding of the
//! protocol messages is delegated to the `bitcoin` crate behind a narrow
//! trusted boundary ([`wire`]).  The unverified binary around this library
//! performs the actual socket I/O and feeds the events back in.

pub mod addr;
pub mod errors;
pub mod machine;
pub mod orchestrator;
pub mod params;
pub mod wire;
