//! Role-aware connection sequencing.
//!
//! A `ConnectionDriver` owns one codec and a receive buffer for the lifetime
//! of its connection. It sequences the fixed 3-message handshake for its
//! role — the initiator sends message 1, answers message 2 with message 3
//! and enters transport mode; the responder answers message 1 with message 2
//! and enters transport mode once message 3 arrives — then relays opaque
//! application frames. Any failure while driving is fatal to this one
//! connection: the driver closes and reports the error outward, and no
//! partial-handshake retry is ever attempted.

use vstd::prelude::*;
use vstd::assert_seqs_equal;
use crate::frame::{
    frame_for, frame_payloads, frame_ready, frame_rest, header_value, lemma_frame_split,
    lemma_frames_append, whole_frames,
};
use crate::noise_codec::{Builder, NoiseCodec, NOISE_PARAMS};
use crate::{CodecError, HEADER_LEN, MAX_FRAME_SIZE};

verus! {

/// Where a connection stands in its lifecycle. Phases only move forward.
#[derive(Clone, Copy, PartialEq, Eq, Structural, Debug)]
pub enum Phase {
    AwaitingHandshakeStart,
    HandshakeInProgress,
    Transport,
    Closed,
}

/// A phase's rank in the lifecycle order; contracts state that a driver's
/// rank never decreases, so the transition into transport mode is one-way
/// and happens at most once per connection.
pub open spec fn phase_order(p: Phase) -> int {
    match p {
        Phase::AwaitingHandshakeStart => 0,
        Phase::HandshakeInProgress => 1,
        Phase::Transport => 2,
        Phase::Closed => 3,
    }
}

/// Drives one connection, initiator or responder.
pub struct ConnectionDriver {
    codec: NoiseCodec,
    initiator: bool,
    phase: Phase,
    hs_replied: bool,
    inbuf: Vec<u8>,
}

impl ConnectionDriver {
    /// The lifecycle phase the driver is in.
    pub closed spec fn phase(&self) -> Phase {
        self.phase
    }

    /// Whether this side opened the handshake.
    pub closed spec fn is_initiator(&self) -> bool {
        self.initiator
    }

    /// The stream bytes received but not yet consumed as whole frames.
    pub closed spec fn buffered(&self) -> Seq<u8> {
        self.inbuf@
    }

    /// Well-formedness: the codec's mode agrees with the driver's phase —
    /// handshake engine before the transition, transport session after it.
    pub closed spec fn wf(&self) -> bool {
        match self.phase {
            Phase::AwaitingHandshakeStart => self.codec.mode() is Handshaking,
            Phase::HandshakeInProgress => self.codec.mode() is Handshaking,
            Phase::Transport => self.codec.mode() is Transporting,
            Phase::Closed => true,
        }
    }

    /// Builds a fresh driver with a fresh handshake engine for `initiator`'s
    /// role.
    pub fn new(initiator: bool) -> (r: Result<ConnectionDriver, CodecError>)
        ensures
            (r matches Ok(d) ==> (d.wf() && d.phase() == Phase::AwaitingHandshakeStart
                && d.is_initiator() == initiator)),
    {
        let codec = Builder::new(NOISE_PARAMS, initiator).new_codec()?;
        Ok(
            ConnectionDriver {
                codec,
                initiator,
                phase: Phase::AwaitingHandshakeStart,
                hs_replied: false,
                inbuf: Vec::new(),
            },
        )
    }

    /// The phase, for the caller running the connection's loop.
    pub fn current_phase(&self) -> (r: Phase)
        ensures
            r == self.phase(),
    {
        self.phase
    }

    /// Opens the handshake: the initiator appends handshake message 1 — an
    /// empty payload — to `out`; the responder writes nothing and waits.
    pub fn start(&mut self, out: &mut Vec<u8>) -> (r: Result<(), CodecError>)
        requires
            old(self).wf(),
            old(self).phase() == Phase::AwaitingHandshakeStart,
        ensures
            final(self).wf(),
            final(self).is_initiator() == old(self).is_initiator(),
            r is Ok ==> final(self).phase() == Phase::HandshakeInProgress,
            r is Err ==> final(self).phase() == Phase::Closed,
            !old(self).is_initiator() ==> (r is Ok && final(out)@ == old(out)@),
            (old(self).is_initiator() && r is Ok) ==> (exists|w: Seq<u8>|
                w.len() <= MAX_FRAME_SIZE && final(out)@ == old(out)@ + #[trigger] frame_for(w)),
            old(out)@.is_prefix_of(final(out)@),
    {
        if self.initiator {
            let empty: Vec<u8> = Vec::new();
            match self.codec.encode(&empty, out) {
                Ok(_) => {},
                Err(e) => {
                    self.phase = Phase::Closed;
                    return Err(e);
                },
            }
        } else {
            proof {
                assert(out@.subrange(0, out@.len() as int) =~= out@);
            }
        }
        self.phase = Phase::HandshakeInProgress;
        Ok(())
    }

    /// Feeds bytes as they came off the stream, in whatever split they
    /// arrived. Each whole buffered frame is consumed as soon as it
    /// completes: handshake frames advance this role's sequence and trigger
    /// the one-way transition into transport mode at its end, and transport
    /// frames are decrypted and appended to `delivered` in order; replies
    /// the peer is owed are appended to `out`. On success the earlier
    /// buffered bytes plus the chunk are exactly the whole frames consumed
    /// followed by what stays buffered — never a whole frame — and in
    /// transport each consumed frame delivers exactly one message, 16 bytes
    /// shorter than the frame's wire payload.
    pub fn on_bytes(&mut self, chunk: &Vec<u8>, out: &mut Vec<u8>, delivered: &mut Vec<Vec<u8>>) -> (r:
        Result<(), CodecError>)
        requires
            old(self).wf(),
            old(self).phase() == Phase::HandshakeInProgress || old(self).phase()
                == Phase::Transport,
        ensures
            final(self).wf(),
            final(self).is_initiator() == old(self).is_initiator(),
            phase_order(old(self).phase()) <= phase_order(final(self).phase()),
            r is Err ==> final(self).phase() == Phase::Closed,
            r is Ok ==> (final(self).phase() == Phase::HandshakeInProgress || final(self).phase()
                == Phase::Transport),
            r is Ok ==> !frame_ready(final(self).buffered()),
            !frame_ready(old(self).buffered() + chunk@) ==> (r is Ok && final(self).buffered()
                == old(self).buffered() + chunk@ && final(out)@ == old(out)@
                && final(delivered)@ == old(delivered)@ && final(self).phase() == old(
                self,
            ).phase()),
            r is Ok ==> (exists|consumed: Seq<u8>|
                #[trigger] whole_frames(consumed) && old(self).buffered() + chunk@ == consumed
                    + final(self).buffered() && (old(self).phase() == Phase::Transport ==> (
                final(delivered)@.len() == old(delivered)@.len() + frame_payloads(consumed).len()
                    && (forall|i: int|
                    0 <= i < frame_payloads(consumed).len()
                        ==> #[trigger] frame_payloads(consumed)[i].len() == final(delivered)@[old(
                        delivered,
                    )@.len() + i]@.len() + 16)))),
            (old(self).phase() == Phase::HandshakeInProgress && old(self).is_initiator() && r
                is Ok && final(self).phase() == Phase::HandshakeInProgress) ==> (final(out)@
                == old(out)@ && final(self).buffered() == old(self).buffered() + chunk@),
            (old(self).phase() == Phase::HandshakeInProgress && old(self).is_initiator() && r
                is Ok && final(self).phase() == Phase::Transport) ==> (exists|w: Seq<u8>|
                w.len() <= MAX_FRAME_SIZE && final(out)@ == old(out)@ + #[trigger] frame_for(w)),
            old(out)@.is_prefix_of(final(out)@),
            old(delivered)@.is_prefix_of(final(delivered)@),
    {
        proof {
            assert(out@.subrange(0, out@.len() as int) =~= out@);
            assert(delivered@.subrange(0, delivered@.len() as int) =~= delivered@);
        }
        let mut k: usize = 0;
        while k < chunk.len()
            invariant
                k <= chunk@.len(),
                self.wf(),
                self.codec == old(self).codec,
                self.initiator == old(self).initiator,
                self.phase == old(self).phase,
                self.hs_replied == old(self).hs_replied,
                self.inbuf@ == old(self).inbuf@ + chunk@.take(k as int),
            decreases chunk@.len() - k,
        {
            self.inbuf.push(chunk[k]);
            proof {
                assert_seqs_equal!(
                    old(self).inbuf@ + chunk@.take(k + 1)
                        == (old(self).inbuf@ + chunk@.take(k as int)).push(chunk@[k as int])
                );
            }
            k += 1;
        }
        let ghost mut consumed: Seq<u8> = Seq::<u8>::empty();
        proof {
            assert_seqs_equal!(chunk@.take(chunk@.len() as int) == chunk@);
            assert(old(self).buffered() + chunk@ =~= consumed + self.inbuf@);
            assert(whole_frames(consumed));
        }
        loop
            invariant
                self.wf(),
                self.is_initiator() == old(self).is_initiator(),
                self.phase() == Phase::HandshakeInProgress || self.phase() == Phase::Transport,
                phase_order(old(self).phase()) <= phase_order(self.phase()),
                old(out)@.is_prefix_of(out@),
                old(delivered)@.is_prefix_of(delivered@),
                whole_frames(consumed),
                old(self).buffered() + chunk@ == consumed + self.buffered(),
                !frame_ready(old(self).buffered() + chunk@) ==> (consumed.len() == 0 && out@
                    == old(out)@ && delivered@ == old(delivered)@ && self.phase() == old(
                    self,
                ).phase()),
                (old(self).phase() == Phase::HandshakeInProgress && self.is_initiator()
                    && self.phase() == Phase::HandshakeInProgress) ==> (consumed.len() == 0
                    && out@ == old(out)@),
                (old(self).phase() == Phase::HandshakeInProgress && self.is_initiator()
                    && self.phase() == Phase::Transport) ==> (exists|w: Seq<u8>|
                    w.len() <= MAX_FRAME_SIZE && out@ == old(out)@ + #[trigger] frame_for(w)),
                old(self).phase() == Phase::Transport ==> (delivered@.len() == old(
                    delivered,
                )@.len() + frame_payloads(consumed).len() && (forall|i: int|
                    0 <= i < frame_payloads(consumed).len()
                        ==> #[trigger] frame_payloads(consumed)[i].len() == delivered@[old(
                        delivered,
                    )@.len() + i]@.len() + 16)),
            decreases self.inbuf@.len(),
        {
            let ghost buf_before = self.inbuf@;
            let ghost out_before = out@;
            let ghost prior_consumed = consumed;
            let msg = match self.codec.decode(&mut self.inbuf) {
                Err(e) => {
                    self.phase = Phase::Closed;
                    return Err(e);
                },
                Ok(None) => {
                    proof {
                        assert(!frame_ready(buf_before));
                        assert(consumed.len() == 0 ==> (old(self).buffered() + chunk@
                            =~= self.inbuf@));
                    }
                    return Ok(());
                },
                Ok(Some(m)) => m,
            };
            proof {
                assert(frame_ready(buf_before));
                assert(self.inbuf@ =~= frame_rest(buf_before));
                assert(self.inbuf@.len() < buf_before.len());
                lemma_frame_split(buf_before);
                let this_frame = buf_before.take(
                    HEADER_LEN + header_value(buf_before[0], buf_before[1]),
                );
                lemma_frames_append(prior_consumed, this_frame);
                consumed = prior_consumed + this_frame;
                assert_seqs_equal!(
                    consumed + self.inbuf@ == prior_consumed + buf_before
                );
            }
            match self.phase {
                Phase::HandshakeInProgress => {
                    if self.initiator {
                        match self.codec.encode(&msg, out) {
                            Ok(_) => {},
                            Err(e) => {
                                self.phase = Phase::Closed;
                                return Err(e);
                            },
                        }
                        if self.codec.is_handshake_complete() {
                            match self.codec.into_transport_mode() {
                                Ok(_) => {},
                                Err(e) => {
                                    proof {
                                        assert(false);
                                    }
                                    return Err(e);
                                },
                            }
                            self.phase = Phase::Transport;
                        } else {
                            self.phase = Phase::Closed;
                            return Err(CodecError::Crypto);
                        }
                    } else {
                        if !self.hs_replied {
                            self.hs_replied = true;
                            match self.codec.encode(&msg, out) {
                                Ok(_) => {},
                                Err(e) => {
                                    self.phase = Phase::Closed;
                                    return Err(e);
                                },
                            }
                        } else {
                            if self.codec.is_handshake_complete() {
                                match self.codec.into_transport_mode() {
                                    Ok(_) => {},
                                    Err(e) => {
                                        proof {
                                            assert(false);
                                        }
                                        return Err(e);
                                    },
                                }
                                self.phase = Phase::Transport;
                            } else {
                                self.phase = Phase::Closed;
                                return Err(CodecError::Crypto);
                            }
                        }
                    }
                },
                Phase::Transport => {
                    delivered.push(msg);
                },
                Phase::AwaitingHandshakeStart => {
                    proof {
                        assert(false);
                    }
                },
                Phase::Closed => {
                    proof {
                        assert(false);
                    }
                },
            }
            proof {
                assert(out_before.is_prefix_of(out@)) by {
                    assert(out@.subrange(0, out_before.len() as int) =~= out_before);
                }
                assert(old(out)@.is_prefix_of(out@)) by {
                    assert(out@.subrange(0, old(out)@.len() as int) =~= old(out)@);
                }
                assert(old(delivered)@.is_prefix_of(delivered@)) by {
                    assert(delivered@.subrange(0, old(delivered)@.len() as int) =~= old(
                        delivered,
                    )@);
                }
            }
        }
    }

    /// Relays one outbound application payload in transport mode: encrypts
    /// it and appends the one resulting frame to `out`. A payload too large
    /// for the wire rejects only this send and the connection stands; a
    /// crypto failure closes it.
    pub fn send(&mut self, payload: &Vec<u8>, out: &mut Vec<u8>) -> (r: Result<(), CodecError>)
        requires
            old(self).wf(),
            old(self).phase() == Phase::Transport,
        ensures
            final(self).wf(),
            final(self).is_initiator() == old(self).is_initiator(),
            phase_order(old(self).phase()) <= phase_order(final(self).phase()),
            r is Ok ==> (final(self).phase() == Phase::Transport && final(out)@.len() == old(
                out,
            )@.len() + HEADER_LEN + payload@.len() + 16),
            r is Ok ==> (exists|w: Seq<u8>|
                w.len() <= MAX_FRAME_SIZE && final(out)@ == old(out)@ + #[trigger] frame_for(w)),
            payload@.len() + 16 > MAX_FRAME_SIZE ==> r == Err::<(), CodecError>(
                CodecError::FrameTooLarge,
            ),
            payload@.len() + 16 <= MAX_FRAME_SIZE ==> r != Err::<(), CodecError>(
                CodecError::FrameTooLarge,
            ),
            r == Err::<(), CodecError>(CodecError::FrameTooLarge) ==> (final(self).phase()
                == Phase::Transport && final(out)@ == old(out)@),
            r == Err::<(), CodecError>(CodecError::Crypto) ==> final(self).phase()
                == Phase::Closed,
            old(out)@.is_prefix_of(final(out)@),
    {
        match self.codec.encode(payload, out) {
            Ok(_) => Ok(()),
            Err(e) => {
                match e {
                    CodecError::FrameTooLarge => {},
                    CodecError::Crypto => {
                        self.phase = Phase::Closed;
                    },
                }
                Err(e)
            },
        }
    }
}

} // verus!
