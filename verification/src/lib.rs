//! A length-framed, authenticated transport codec for a key-value service.
//!
//! The wire format is a fixed two-byte big-endian length header followed by
//! that many payload bytes. A stateful codec carries a handshake engine that
//! transitions irreversibly into a transport session once the key exchange
//! completes; the framing layer is resumable across arbitrary, unaligned
//! byte-stream deliveries.

use vstd::prelude::*;

pub mod driver;
pub mod frame;
pub mod noise;
pub mod noise_codec;
pub mod server;

verus! {

/// Width in bytes of the frame length header.
pub const HEADER_LEN: usize = 2;

/// Largest wire payload a frame can carry: the maximum value representable
/// in the two-byte header.
pub const MAX_FRAME_SIZE: usize = 65535;

/// Errors the codec surfaces to its caller.
///
/// A payload too large for the header width rejects only that send; a crypto
/// failure — failed authentication, a bad tag, or a protocol-order violation
/// — is fatal to the connection.
#[derive(Clone, Copy, Debug, PartialEq, Eq, Structural)]
pub enum CodecError {
    FrameTooLarge,
    Crypto,
}

} // verus!
