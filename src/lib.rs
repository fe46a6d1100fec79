//! The certificate-chain command of a DICE protection environment: it checks
//! a requested byte window against the largest certificate chain the engine
//! accepts, asks the platform for that window in a fixed-size chunk, and
//! packages the chunk into a response.
use vstd::prelude::*;

pub mod get_certificate_chain;
pub mod platform;
pub mod response;

verus! {

/// The largest certificate chain, in bytes, that the engine will hand out.
pub const MAX_CERT_SIZE: usize = 2048;

} // verus!
