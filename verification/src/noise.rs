//! Trusted boundary around the Noise protocol implementation.
//!
//! The cryptographic primitives are consumed as an opaque capability: each
//! wrapper makes one step of the key exchange or one cipher transform, and
//! its contract states only what the implementation's source shows of every
//! outcome — chiefly output lengths, since keys, nonces and ciphertexts
//! depend on freshly generated random key material.

use vstd::prelude::*;
use crate::{CodecError, MAX_FRAME_SIZE};

verus! {

#[verifier::external_type_specification]
#[verifier::external_body]
pub struct ExHandshakeState(snow::HandshakeState);

#[verifier::external_type_specification]
#[verifier::external_body]
pub struct ExTransportState(snow::TransportState);

/// Whether a handshake engine has processed its whole message pattern; only
/// then may a transport session be derived from it.
pub uninterp spec fn hs_finished(s: snow::HandshakeState) -> bool;

/// Whether a handshake engine plays the initiator's role; what
/// snow::HandshakeState::is_initiator reads.
pub uninterp spec fn hs_initiator(s: snow::HandshakeState) -> bool;

/// The outcome of one transport-mode encryption of `payload` from the given
/// session state into a maximal buffer: the ciphertext, or nothing where the
/// session refuses — the write direction is closed to this role, a nonce is
/// exhausted, or the ciphertext would not fit. The ciphers are deterministic
/// in key, nonce and plaintext, all part of the state value.
pub uninterp spec fn ts_encrypted(s: snow::TransportState, payload: Seq<u8>) -> Option<Seq<u8>>;

/// The outcome of one transport-mode decryption of `message` from the given
/// session state: the plaintext, or nothing where the tag does not verify or
/// the session refuses. Deterministic in the state value and the message.
pub uninterp spec fn ts_decrypted(s: snow::TransportState, message: Seq<u8>) -> Option<Seq<u8>>;

/// Relies on snow::Builder: parses the Noise parameter string, generates a
/// fresh local keypair, and builds the initiator or responder handshake
/// state for the role asked for. Its source starts every engine at pattern
/// position zero and no pattern is empty, so a fresh engine is never
/// finished. The keys are fresh random material, so nothing more is stated.
#[verifier::external_body]
pub(crate) fn new_handshake(params: &str, initiator: bool) -> (r: Result<
    snow::HandshakeState,
    CodecError,
>)
    ensures
        (r matches Ok(s) ==> !hs_finished(s)),
        (r matches Ok(s) ==> hs_initiator(s) == initiator),
{
    let builder = snow::Builder::new(params.parse().map_err(|_| CodecError::Crypto)?);
    let keypair = builder.generate_keypair().map_err(|_| CodecError::Crypto)?;
    let builder = builder.local_private_key(&keypair.private).map_err(|_| CodecError::Crypto)?;
    let state = if initiator {
        builder.build_initiator()
    } else {
        builder.build_responder()
    };
    state.map_err(|_| CodecError::Crypto)
}

/// Relies on snow::HandshakeState::write_message: produces the next outbound
/// handshake message for the current step into the buffer handed to it and
/// reports how many bytes it wrote, never more than that buffer holds. A
/// write after the pattern has completed is a protocol-order violation and
/// always fails.
#[verifier::external_body]
pub(crate) fn hs_write_message(state: &mut snow::HandshakeState, payload: &Vec<u8>) -> (r: Result<
    Vec<u8>,
    CodecError,
>)
    ensures
        (r matches Ok(m) ==> m@.len() <= MAX_FRAME_SIZE),
        hs_finished(*old(state)) ==> r is Err,
{
    let mut buf = vec![0u8; MAX_FRAME_SIZE];
    match state.write_message(payload, &mut buf) {
        Ok(n) => {
            buf.truncate(n);
            Ok(buf)
        },
        Err(snow::Error::Input) => Err(CodecError::FrameTooLarge),
        Err(_) => Err(CodecError::Crypto),
    }
}

/// Relies on snow::HandshakeState::read_message: validates and consumes the
/// next inbound handshake message, writing its payload into the buffer
/// handed to it and reporting how many bytes it wrote, never more than that
/// buffer holds; authentication or decryption failure is an error.
#[verifier::external_body]
pub(crate) fn hs_read_message(state: &mut snow::HandshakeState, message: &Vec<u8>) -> (r: Result<
    Vec<u8>,
    CodecError,
>)
    ensures
        (r matches Ok(m) ==> m@.len() <= MAX_FRAME_SIZE),
{
    let mut buf = vec![0u8; MAX_FRAME_SIZE];
    match state.read_message(message, &mut buf) {
        Ok(n) => {
            buf.truncate(n);
            Ok(buf)
        },
        Err(_) => Err(CodecError::Crypto),
    }
}

/// Relies on snow::HandshakeState::is_handshake_finished: true exactly when
/// the whole handshake pattern has been processed by this side.
#[verifier::external_body]
pub(crate) fn hs_is_finished(state: &snow::HandshakeState) -> (r: bool)
    ensures
        r == hs_finished(*state),
{
    state.is_handshake_finished()
}

/// Relies on snow::HandshakeState::into_transport_mode: consumes a handshake
/// state and derives the two directional cipher states; its source shows it
/// succeeds exactly when the handshake has completed.
#[verifier::external_body]
pub(crate) fn hs_into_transport(state: snow::HandshakeState) -> (r: Result<
    snow::TransportState,
    CodecError,
>)
    ensures
        r is Ok <==> hs_finished(state),
{
    state.into_transport_mode().map_err(|_| CodecError::Crypto)
}

/// Relies on snow::TransportState::write_message: encrypts with the
/// send-direction cipher state and the next nonce. Its source shows the
/// ciphertext is exactly the plaintext plus the 16-byte tag, and that any
/// plaintext whose ciphertext would exceed the Noise message ceiling is
/// rejected with nothing written.
#[verifier::external_body]
pub(crate) fn ts_write_message(state: &mut snow::TransportState, payload: &Vec<u8>) -> (r: Result<
    Vec<u8>,
    CodecError,
>)
    ensures
        (r matches Ok(m) ==> m@.len() == payload@.len() + 16 && m@.len() <= MAX_FRAME_SIZE),
        payload@.len() + 16 > MAX_FRAME_SIZE ==> r is Err,
        payload@.len() + 16 <= MAX_FRAME_SIZE ==> (r matches Err(e) ==> e == CodecError::Crypto),
        r is Ok <==> ts_encrypted(*old(state), payload@) is Some,
        (r matches Ok(m) ==> ts_encrypted(*old(state), payload@) == Some(m@)),
{
    let mut buf = vec![0u8; MAX_FRAME_SIZE];
    match state.write_message(payload, &mut buf) {
        Ok(n) => {
            buf.truncate(n);
            Ok(buf)
        },
        Err(snow::Error::Input) => Err(CodecError::FrameTooLarge),
        Err(_) => Err(CodecError::Crypto),
    }
}

/// Relies on snow::TransportState::read_message: decrypts with the
/// receive-direction cipher state and the next nonce. Its source shows the
/// plaintext is exactly the ciphertext minus the 16-byte tag; a bad tag, a
/// nonce problem or a short message is an error.
#[verifier::external_body]
pub(crate) fn ts_read_message(state: &mut snow::TransportState, message: &Vec<u8>) -> (r: Result<
    Vec<u8>,
    CodecError,
>)
    ensures
        (r matches Ok(m) ==> m@.len() + 16 == message@.len()),
        r is Ok <==> ts_decrypted(*old(state), message@) is Some,
        (r matches Ok(m) ==> ts_decrypted(*old(state), message@) == Some(m@)),
{
    let mut buf = vec![0u8; MAX_FRAME_SIZE];
    match state.read_message(message, &mut buf) {
        Ok(n) => {
            buf.truncate(n);
            Ok(buf)
        },
        Err(_) => Err(CodecError::Crypto),
    }
}

} // verus!
