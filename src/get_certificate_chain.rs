//! The command that hands out the certificate chain one chunk at a time.
use vstd::prelude::*;

use crate::platform::{Platform, PlatformError, MAX_CHUNK_SIZE};
use crate::response::{DpeErrorCode, GetCertificateChainResp, Response};
use crate::MAX_CERT_SIZE;

verus! {

/// A request for `size` bytes of the certificate chain, starting at byte
/// `offset`.
#[derive(Debug, Clone, Copy, PartialEq, Eq)]
pub struct GetCertificateChainCmd {
    pub offset: u32,
    pub size: u32,
}

/// The number of bytes a command occupies on the wire.
pub const CMD_SIZE: usize = 8;

/// The little-endian encoding of `v` in four bytes: its base-256 digits,
/// least significant first.
pub open spec fn le_bytes(v: u32) -> Seq<u8> {
    seq![
        (v % 256) as u8,
        (v / 256 % 256) as u8,
        (v / 65536 % 256) as u8,
        (v / 16777216) as u8,
    ]
}

/// The number held little-endian in the four bytes of `b` from index `i`.
pub open spec fn le_value_at(b: Seq<u8>, i: int) -> nat {
    (b[i] + 256 * b[i + 1] + 65536 * b[i + 2] + 16777216 * b[i + 3]) as nat
}

impl GetCertificateChainCmd {
    /// The command's wire form: `offset`, then `size`, each a little-endian
    /// `u32`.
    pub open spec fn encoding(self) -> Seq<u8> {
        le_bytes(self.offset) + le_bytes(self.size)
    }
}

/// The command read from the front of `bytes`, or `InvalidCommand` when
/// fewer than `CMD_SIZE` bytes are there. Bytes after the command are not
/// read.
pub open spec fn decoding(bytes: Seq<u8>) -> Result<GetCertificateChainCmd, DpeErrorCode> {
    if bytes.len() < CMD_SIZE {
        Err(DpeErrorCode::InvalidCommand)
    } else {
        Ok(
            GetCertificateChainCmd {
                offset: le_value_at(bytes, 0) as u32,
                size: le_value_at(bytes, 4) as u32,
            },
        )
    }
}

/// Reading back the wire form of a command gives the command, whatever
/// follows it in the buffer.
pub proof fn lemma_decode_encode(cmd: GetCertificateChainCmd, rest: Seq<u8>)
    ensures
        decoding(cmd.encoding() + rest) == Ok::<GetCertificateChainCmd, DpeErrorCode>(cmd),
{
    let b = cmd.encoding() + rest;
    lemma_le_round_trip(cmd.offset);
    lemma_le_round_trip(cmd.size);
    assert(b.subrange(0, 4) == le_bytes(cmd.offset));
    assert(b.subrange(4, 8) == le_bytes(cmd.size));
}

/// The four bytes of `le_bytes(v)` read back as `v`.
pub proof fn lemma_le_round_trip(v: u32)
    ensures
        le_bytes(v).len() == 4,
        le_value_at(le_bytes(v), 0) == v,
{
}

/// Reads the little-endian `u32` at `bytes[i..i + 4]`.
fn read_le_u32(bytes: &[u8], i: usize) -> (r: u32)
    requires
        i + 4 <= bytes@.len(),
    ensures
        r == le_value_at(bytes@, i as int),
{
    let b0 = bytes[i] as u32;
    let b1 = bytes[i + 1] as u32;
    let b2 = bytes[i + 2] as u32;
    let b3 = bytes[i + 3] as u32;
    assert(b0 | (b1 << 8) | (b2 << 16) | (b3 << 24) == b0 + b1 * 256 + b2 * 65536 + b3
        * 16777216) by (bit_vector)
        requires
            b0 < 256,
            b1 < 256,
            b2 < 256,
            b3 < 256,
    ;
    b0 | (b1 << 8) | (b2 << 16) | (b3 << 24)
}

/// Appends the little-endian encoding of `v` to `out`.
fn push_le_u32(out: &mut Vec<u8>, v: u32)
    ensures
        final(out)@ == old(out)@ + le_bytes(v),
{
    assert(v & 0xff == v % 256 && (v >> 8) & 0xff == v / 256 % 256 && (v >> 16) & 0xff == v
        / 65536 % 256 && v >> 24 == v / 16777216) by (bit_vector);
    out.push((v & 0xff) as u8);
    out.push(((v >> 8) & 0xff) as u8);
    out.push(((v >> 16) & 0xff) as u8);
    out.push((v >> 24) as u8);
    assert(out@ =~= old(out)@ + le_bytes(v));
}

/// A chunk buffer before the platform writes to it: `MAX_CHUNK_SIZE` zero
/// bytes.
pub open spec fn zeroed_chunk() -> Seq<u8> {
    Seq::new(MAX_CHUNK_SIZE as nat, |i: int| 0u8)
}

/// The response owed for a chunk buffer, given what the platform reported
/// after filling it: the whole buffer with the reported length when the
/// platform succeeded within the buffer's capacity, and `InvalidArgument`
/// otherwise.
pub open spec fn chain_response(
    cert_chunk: [u8; MAX_CHUNK_SIZE],
    read: Result<u32, PlatformError>,
) -> Result<Response, DpeErrorCode> {
    match read {
        Ok(len) => if len <= MAX_CHUNK_SIZE {
            Ok(
                Response::GetCertificateChain(
                    GetCertificateChainResp { certificate_chain: cert_chunk, certificate_size: len },
                ),
            )
        } else {
            Err(DpeErrorCode::InvalidArgument)
        },
        Err(_) => Err(DpeErrorCode::InvalidArgument),
    }
}

/// Packages a chunk buffer and the platform's report on filling it into the
/// command's result. A platform error of any kind, and a reported length
/// beyond the buffer's capacity, become `InvalidArgument`.
pub fn certificate_chain_response(
    cert_chunk: [u8; MAX_CHUNK_SIZE],
    read: Result<u32, PlatformError>,
) -> (r: Result<Response, DpeErrorCode>)
    ensures
        r == chain_response(cert_chunk, read),
        read is Err ==> r == Err::<Response, DpeErrorCode>(DpeErrorCode::InvalidArgument),
        forall|len: u32|
            read == Ok::<u32, PlatformError>(len) && len <= MAX_CHUNK_SIZE ==> {
                &&& r matches Ok(Response::GetCertificateChain(resp))
                &&& resp.certificate_size == len
                &&& resp.certificate_chain@.subrange(0, len as int) == cert_chunk@.subrange(
                    0,
                    len as int,
                )
            },
{
    match read {
        Ok(len) => {
            if len as usize <= MAX_CHUNK_SIZE {
                Ok(
                    Response::GetCertificateChain(
                        GetCertificateChainResp { certificate_chain: cert_chunk, certificate_size: len },
                    ),
                )
            } else {
                Err(DpeErrorCode::InvalidArgument)
            }
        },
        Err(_) => Err(DpeErrorCode::InvalidArgument),
    }
}

impl GetCertificateChainCmd {
    /// Reads a command from the front of `bytes`; fails with `InvalidCommand`
    /// when `bytes` is shorter than a command.
    pub fn deserialize(bytes: &[u8]) -> (r: Result<GetCertificateChainCmd, DpeErrorCode>)
        ensures
            r == decoding(bytes@),
    {
        if bytes.len() < CMD_SIZE {
            return Err(DpeErrorCode::InvalidCommand);
        }
        Ok(GetCertificateChainCmd { offset: read_le_u32(bytes, 0), size: read_le_u32(bytes, 4) })
    }

    /// The command's wire form.
    pub fn as_bytes(&self) -> (r: Vec<u8>)
        ensures
            r@ == self.encoding(),
    {
        let mut r: Vec<u8> = Vec::new();
        push_le_u32(&mut r, self.offset);
        push_le_u32(&mut r, self.size);
        r
    }

    /// Runs the command against `platform`. A `size` above `MAX_CERT_SIZE` is
    /// refused with `InvalidArgument` before the platform is asked anything.
    /// Otherwise the platform is asked once for `size` bytes of the chain from
    /// `offset` into a zeroed chunk buffer, and the result is
    /// `chain_response` of the buffer and report it gave back. The caller's
    /// locality is taken, as by every command, but this command does not
    /// depend on it.
    pub fn execute<P: Platform>(&self, platform: &mut P, _locality: u32) -> (r: Result<
        Response,
        DpeErrorCode,
    >)
        ensures
            self.size > MAX_CERT_SIZE ==> r == Err::<Response, DpeErrorCode>(
                DpeErrorCode::InvalidArgument,
            ) && *final(platform) == *old(platform),
            r is Err ==> r == Err::<Response, DpeErrorCode>(DpeErrorCode::InvalidArgument),
            r matches Ok(Response::GetCertificateChain(resp)) ==> resp.certificate_size
                <= MAX_CHUNK_SIZE,
            self.size <= MAX_CERT_SIZE ==> exists|
                buf: [u8; MAX_CHUNK_SIZE],
                read: Result<u32, PlatformError>,
            |
                #[trigger] old(platform).chain_read(
                    self.offset,
                    self.size,
                    zeroed_chunk(),
                    *final(platform),
                    buf@,
                    read,
                ) && r == chain_response(buf, read),
    {
        if self.size > MAX_CERT_SIZE as u32 {
            return Err(DpeErrorCode::InvalidArgument);
        }
        let mut cert_chunk = [0u8; MAX_CHUNK_SIZE];
        let ghost zero = cert_chunk@;
        assert(zero =~= zeroed_chunk());
        let read = platform.get_certificate_chain(self.offset, self.size, &mut cert_chunk);
        assert(old(platform).chain_read(
            self.offset,
            self.size,
            zeroed_chunk(),
            *platform,
            cert_chunk@,
            read,
        ));
        certificate_chain_response(cert_chunk, read)
    }
}

} // verus!
