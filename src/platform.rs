//! What the engine needs from the platform it runs on.
use vstd::prelude::*;

verus! {

/// The capacity, in bytes, of the buffer that receives one chunk of the
/// certificate chain.
pub const MAX_CHUNK_SIZE: usize = 2048;

/// A failure reported by the platform.
#[derive(Debug, Clone, Copy, PartialEq, Eq)]
pub enum PlatformError {
    /// The requested window of the certificate chain could not be read.
    CertificateChainError,
    /// The platform does not offer the operation.
    NotImplemented,
}

/// The services that a platform gives the engine.
pub trait Platform: Sized {
    /// What the platform allows as one read of the certificate chain: asked
    /// for `size` bytes from `offset` while in state `self`, with the chunk
    /// buffer holding `before`, it may end in state `after`, leave the buffer
    /// holding `out`, and return `r`. A platform states its own rule here;
    /// one that states none allows every outcome.
    open spec fn chain_read(
        &self,
        offset: u32,
        size: u32,
        before: Seq<u8>,
        after: Self,
        out: Seq<u8>,
        r: Result<u32, PlatformError>,
    ) -> bool {
        true
    }

    /// Copies up to `size` bytes of the certificate chain, starting at byte
    /// `offset`, into the front of `out`, and returns how many bytes it wrote.
    /// How a window that runs past the stored chain is treated is up to the
    /// platform.
    fn get_certificate_chain(
        &mut self,
        offset: u32,
        size: u32,
        out: &mut [u8; MAX_CHUNK_SIZE],
    ) -> (r: Result<u32, PlatformError>)
        ensures
            old(self).chain_read(offset, size, old(out)@, *final(self), final(out)@, r),
    ;
}

} // verus!
