//! Responses and error codes of the engine's commands.
use vstd::prelude::*;

use crate::platform::MAX_CHUNK_SIZE;

verus! {

/// Why a command was refused.
#[derive(Debug, Clone, Copy, PartialEq, Eq)]
pub enum DpeErrorCode {
    /// The bytes handed in do not hold a command.
    InvalidCommand,
    /// An argument of the command is out of range, or the platform could not
    /// serve it.
    InvalidArgument,
}

/// One chunk of the certificate chain.
#[derive(Debug, Clone, Copy, PartialEq, Eq)]
pub struct GetCertificateChainResp {
    /// The chunk buffer; only its first `certificate_size` bytes are meaningful.
    pub certificate_chain: [u8; MAX_CHUNK_SIZE],
    /// How many leading bytes of `certificate_chain` hold certificate data.
    pub certificate_size: u32,
}

/// The response of a command that succeeded.
#[derive(Debug, Clone, Copy, PartialEq, Eq)]
pub enum Response {
    GetCertificateChain(GetCertificateChainResp),
}

} // verus!
