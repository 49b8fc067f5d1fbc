//! Generic-netlink framing: a datagram is a 16-byte netlink header, a 4-byte
//! generic-netlink header and the payload.

use vstd::prelude::*;
use crate::bytes::{copy_range, read_le_u32, spec_le_u32};

verus! {

/// Size of the netlink header.
pub const NLMSG_HDRLEN: usize = 16;

/// Size of the generic-netlink header.
pub const GENL_HDRLEN: usize = 4;

/// Bytes in front of the payload.
pub const TOTAL_HEADER_SIZE: usize = 20;

/// Why a datagram yields no payload.
#[derive(Debug, Clone, Copy, PartialEq, Eq, Structural)]
pub enum FrameError {
    /// The datagram cannot hold both headers.
    BufferTooSmall,
    /// The declared length is shorter than the headers or longer than the
    /// datagram.
    InvalidLength,
}

/// The message length that the netlink header declares: its first four
/// bytes, little-endian.
pub open spec fn spec_declared_length(raw: Seq<u8>) -> int {
    spec_le_u32(raw, 0)
}

/// What `extract_payload` returns for a datagram.
pub open spec fn spec_extract_payload(raw: Seq<u8>) -> Result<Seq<u8>, FrameError> {
    if raw.len() < TOTAL_HEADER_SIZE {
        Err(FrameError::BufferTooSmall)
    } else if spec_declared_length(raw) < TOTAL_HEADER_SIZE || spec_declared_length(raw)
        > raw.len() {
        Err(FrameError::InvalidLength)
    } else {
        Ok(raw.subrange(TOTAL_HEADER_SIZE as int, spec_declared_length(raw)))
    }
}

/// Strips the netlink and generic-netlink headers from a datagram.
///
/// The payload runs from byte 20 to the length that the netlink header
/// declares; bytes of the buffer behind that length are not part of it.
pub fn extract_payload(raw: &[u8]) -> (r: Result<Vec<u8>, FrameError>)
    ensures
        match r {
            Ok(payload) => spec_extract_payload(raw@) == Ok::<Seq<u8>, FrameError>(payload@),
            Err(e) => spec_extract_payload(raw@) == Err::<Seq<u8>, FrameError>(e),
        },
        raw.len() >= 20 && 20 <= spec_declared_length(raw@) <= raw.len() ==> r is Ok
            && r->Ok_0.len() == spec_declared_length(raw@) - 20,
{
    if raw.len() < TOTAL_HEADER_SIZE {
        return Err(FrameError::BufferTooSmall);
    }
    let nl_len: usize = read_le_u32(raw, 0) as usize;
    if nl_len < TOTAL_HEADER_SIZE || nl_len > raw.len() {
        return Err(FrameError::InvalidLength);
    }
    Ok(copy_range(raw, TOTAL_HEADER_SIZE, nl_len))
}

} // verus!
