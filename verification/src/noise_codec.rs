//! The stateful framing codec.
//!
//! A `NoiseCodec` owns one `NoiseState`: the handshake engine while the key
//! exchange runs, then — after a one-way, irreversible transition — the
//! transport session with its two directional cipher states. Encoding
//! transforms a payload through whichever engine is active and writes one
//! length-prefixed frame; decoding consumes exactly one whole frame from the
//! front of the buffer and inverts the transform, reporting "incomplete"
//! without touching the buffer while less than a whole frame is buffered.

use vstd::prelude::*;
use crate::frame::{
    encode_frame, frame_for, frame_payload, frame_ready, frame_rest, try_decode_frame,
};
use crate::noise::{
    hs_finished, hs_initiator, hs_into_transport, hs_is_finished, hs_read_message,
    hs_write_message, new_handshake, ts_decrypted, ts_encrypted, ts_read_message,
    ts_write_message,
};
use vstd::pervasive::arbitrary;
use crate::{CodecError, HEADER_LEN, MAX_FRAME_SIZE};

verus! {

/// The Noise parameter string naming the handshake pattern, key-exchange
/// function, cipher and hash this codec is built with.
pub const NOISE_PARAMS: &'static str = "Noise_XX_25519_ChaChaPoly_BLAKE2s";

/// The engine a codec currently transforms payloads with. `Closed` is a
/// transient placeholder that exists only so the active variant can be moved
/// out, converted and moved back in; it is never externally observed.
pub enum NoiseState {
    Handshake(snow::HandshakeState),
    Transport(snow::TransportState),
    Closed,
}

/// The codec's operating mode, as contracts speak of it.
pub enum Mode {
    Handshaking,
    Transporting,
    Closed,
}

pub struct NoiseCodec {
    state: NoiseState,
}

/// Collects the parameters a codec is built from.
pub struct Builder {
    pub params: &'static str,
    pub initiator: bool,
}

impl NoiseCodec {
    /// The mode the codec is in: handshake until the one-way transition,
    /// transport after it.
    pub closed spec fn mode(&self) -> Mode {
        match self.state {
            NoiseState::Handshake(_) => Mode::Handshaking,
            NoiseState::Transport(_) => Mode::Transporting,
            NoiseState::Closed => Mode::Closed,
        }
    }

    pub fn builder(params: &'static str, initiator: bool) -> (r: Builder)
        ensures
            r.params == params,
            r.initiator == initiator,
    {
        Builder::new(params, initiator)
    }

    /// The role the handshake engine was built for, initiator when true;
    /// meaningful while the codec is in handshake mode.
    pub closed spec fn role_initiator(&self) -> bool {
        match self.state {
            NoiseState::Handshake(s) => hs_initiator(s),
            NoiseState::Transport(_) => false,
            NoiseState::Closed => false,
        }
    }

    /// The transport session's state value; meaningful in transport mode.
    pub closed spec fn transport_state(&self) -> snow::TransportState
        recommends
            self.mode() is Transporting,
    {
        match self.state {
            NoiseState::Transport(t) => t,
            _ => arbitrary(),
        }
    }

    /// Whether this side's part of the handshake pattern has been fully
    /// processed; only then may the codec enter transport mode. A codec
    /// already in transport mode counts as complete.
    pub closed spec fn handshake_complete(&self) -> bool {
        match self.state {
            NoiseState::Handshake(s) => hs_finished(s),
            NoiseState::Transport(_) => true,
            NoiseState::Closed => false,
        }
    }

    /// Whether this side's part of the handshake pattern has been fully
    /// processed; only then may the codec enter transport mode.
    pub fn is_handshake_complete(&self) -> (r: bool)
        ensures
            r == self.handshake_complete(),
    {
        match &self.state {
            NoiseState::Handshake(s) => hs_is_finished(s),
            NoiseState::Transport(_) => true,
            NoiseState::Closed => false,
        }
    }

    /// One-shot replacement of the handshake engine by the transport session
    /// derived from it. Calling this before the handshake reports completion
    /// is a programmer error, not a recoverable runtime condition, so the
    /// precondition demands completion; the transition then always succeeds
    /// and only goes forward — a codec already in transport mode stays there
    /// untouched.
    pub fn into_transport_mode(&mut self) -> (r: Result<(), CodecError>)
        requires
            old(self).mode() !is Closed,
            old(self).mode() is Handshaking ==> old(self).handshake_complete(),
        ensures
            r is Ok,
            final(self).mode() is Transporting,
            old(self).mode() is Transporting ==> *final(self) == *old(self),
    {
        let mut prior = NoiseState::Closed;
        core::mem::swap(&mut prior, &mut self.state);
        match prior {
            NoiseState::Handshake(s) => {
                match hs_into_transport(s) {
                    Ok(t) => {
                        self.state = NoiseState::Transport(t);
                        Ok(())
                    },
                    Err(e) => {
                        proof {
                            assert(false);
                        }
                        Err(e)
                    },
                }
            },
            NoiseState::Transport(t) => {
                self.state = NoiseState::Transport(t);
                Ok(())
            },
            NoiseState::Closed => {
                proof {
                    assert(false);
                }
                Ok(())
            },
        }
    }

    /// Encodes one payload as one frame appended to `dst`: the active
    /// engine transforms the payload, and the frame's header declares the
    /// transformed length. The header width caps the post-transform wire
    /// payload, so in transport mode a payload whose ciphertext — payload
    /// plus the 16-byte tag — would not fit is rejected whole, as is any
    /// payload over the header's ceiling; on any failure nothing is written.
    pub fn encode(&mut self, item: &Vec<u8>, dst: &mut Vec<u8>) -> (r: Result<(), CodecError>)
        requires
            old(self).mode() !is Closed,
        ensures
            final(self).mode() == old(self).mode(),
            r is Ok ==> (exists|w: Seq<u8>|
                w.len() <= MAX_FRAME_SIZE && final(dst)@ == old(dst)@ + #[trigger] frame_for(w)),
            r is Err ==> final(dst)@ == old(dst)@,
            old(dst)@.is_prefix_of(final(dst)@),
            item@.len() > MAX_FRAME_SIZE ==> (r == Err::<(), CodecError>(CodecError::FrameTooLarge)
                && *final(self) == *old(self)),
            (old(self).mode() is Transporting && item@.len() + 16 > MAX_FRAME_SIZE) ==> (r
                == Err::<(), CodecError>(CodecError::FrameTooLarge) && *final(self) == *old(self)),
            (old(self).mode() is Transporting && r is Ok) ==> final(dst)@.len() == old(dst)@.len()
                + HEADER_LEN + item@.len() + 16,
            (old(self).mode() is Handshaking && old(self).handshake_complete()) ==> r is Err,
            (old(self).mode() is Transporting && item@.len() + 16 <= MAX_FRAME_SIZE) ==> r
                != Err::<(), CodecError>(CodecError::FrameTooLarge),
            (old(self).mode() is Transporting && item@.len() + 16 <= MAX_FRAME_SIZE) ==> (r is Ok
                <==> ts_encrypted(old(self).transport_state(), item@) is Some),
            (old(self).mode() is Transporting && r is Ok) ==> (ts_encrypted(
                old(self).transport_state(),
                item@,
            ) matches Some(c) && final(dst)@ == old(dst)@ + frame_for(c)),
    {
        proof {
            assert(old(dst)@.subrange(0, old(dst)@.len() as int) =~= old(dst)@);
        }
        if item.len() > MAX_FRAME_SIZE {
            return Err(CodecError::FrameTooLarge);
        }
        let transporting = match &self.state {
            NoiseState::Transport(_) => true,
            _ => false,
        };
        if transporting && item.len() > MAX_FRAME_SIZE - 16 {
            return Err(CodecError::FrameTooLarge);
        }
        let wire = match &mut self.state {
            NoiseState::Handshake(s) => hs_write_message(s, item),
            NoiseState::Transport(s) => ts_write_message(s, item),
            NoiseState::Closed => Err(CodecError::Crypto),
        };
        match wire {
            Ok(w) => {
                let res = encode_frame(&w, dst);
                proof {
                    assert(w@.len() <= MAX_FRAME_SIZE && dst@ == old(dst)@ + frame_for(w@));
                    assert(dst@.subrange(0, old(dst)@.len() as int) =~= old(dst)@);
                }
                res
            },
            Err(e) => Err(e),
        }
    }

    /// Decodes at most one frame from the front of `src`: while less than a
    /// whole frame is buffered it reports nothing and leaves `src` untouched,
    /// so the caller can offer more bytes later; otherwise it consumes
    /// exactly the frame — header plus declared length — and returns the
    /// active engine's inverse transform of the frame's payload.
    pub fn decode(&mut self, src: &mut Vec<u8>) -> (r: Result<Option<Vec<u8>>, CodecError>)
        requires
            old(self).mode() !is Closed,
        ensures
            final(self).mode() == old(self).mode(),
            !frame_ready(old(src)@) ==> (r == Ok::<Option<Vec<u8>>, CodecError>(None)
                && final(src)@ == old(src)@ && *final(self) == *old(self)),
            frame_ready(old(src)@) ==> final(src)@ == frame_rest(old(src)@),
            frame_ready(old(src)@) ==> (r matches Ok(p) ==> p is Some),
            (old(self).mode() is Transporting && frame_ready(old(src)@)) ==> (r matches Ok(p)
                ==> (p matches Some(m) && m@.len() + 16 == frame_payload(old(src)@).len())),
            (old(self).mode() is Transporting && frame_ready(old(src)@)) ==> (r is Ok
                <==> ts_decrypted(old(self).transport_state(), frame_payload(old(src)@)) is Some),
            (old(self).mode() is Transporting && frame_ready(old(src)@)) ==> (r matches Ok(p)
                ==> (p matches Some(m) && Some(m@) == ts_decrypted(
                old(self).transport_state(),
                frame_payload(old(src)@),
            ))),
    {
        let wire = match try_decode_frame(src) {
            None => {
                return Ok(None);
            },
            Some(w) => w,
        };
        let plain = match &mut self.state {
            NoiseState::Handshake(s) => hs_read_message(s, &wire),
            NoiseState::Transport(s) => ts_read_message(s, &wire),
            NoiseState::Closed => Err(CodecError::Crypto),
        };
        match plain {
            Ok(p) => Ok(Some(p)),
            Err(e) => Err(e),
        }
    }
}

impl Builder {
    pub fn new(params: &'static str, initiator: bool) -> (r: Builder)
        ensures
            r.params == params,
            r.initiator == initiator,
    {
        Builder { params, initiator }
    }

    /// Builds a fresh codec for this builder's role: in handshake mode,
    /// with the whole pattern still ahead of it.
    pub fn new_codec(self) -> (r: Result<NoiseCodec, CodecError>)
        ensures
            (r matches Ok(c) ==> (c.mode() is Handshaking && !c.handshake_complete()
                && c.role_initiator() == self.initiator)),
    {
        let state = new_handshake(self.params, self.initiator)?;
        Ok(NoiseCodec { state: NoiseState::Handshake(state) })
    }
}

} // verus!
