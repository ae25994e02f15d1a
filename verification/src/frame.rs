//! Length-prefixed framing over a growable byte buffer.
//!
//! One frame is a two-byte big-endian length header followed by exactly that
//! many payload bytes. Decoding is re-entrant: while fewer bytes than one
//! whole frame are buffered it reports "incomplete" and leaves the buffer
//! untouched, so the caller can retry once more bytes arrive.

use vstd::prelude::*;
use vstd::assert_seqs_equal;
use crate::{CodecError, HEADER_LEN, MAX_FRAME_SIZE};

verus! {

/// The length a two-byte big-endian header declares.
pub open spec fn header_value(b0: u8, b1: u8) -> int {
    b0 * 256 + b1
}

/// The wire bytes of one frame carrying `payload`.
pub open spec fn frame_for(payload: Seq<u8>) -> Seq<u8>
    recommends
        payload.len() <= MAX_FRAME_SIZE,
{
    seq![(payload.len() / 256) as u8, (payload.len() % 256) as u8] + payload
}

/// Whether the buffer holds at least one whole frame: the header and all the
/// bytes it declares.
pub open spec fn frame_ready(b: Seq<u8>) -> bool {
    b.len() >= HEADER_LEN && b.len() >= HEADER_LEN + header_value(b[0], b[1])
}

/// The payload of the frame at the front of the buffer.
pub open spec fn frame_payload(b: Seq<u8>) -> Seq<u8>
    recommends
        frame_ready(b),
{
    b.subrange(HEADER_LEN as int, HEADER_LEN + header_value(b[0], b[1]))
}

/// What stays in the buffer once the frame at the front is consumed.
pub open spec fn frame_rest(b: Seq<u8>) -> Seq<u8>
    recommends
        frame_ready(b),
{
    b.subrange(HEADER_LEN + header_value(b[0], b[1]), b.len() as int)
}

/// Appends one frame carrying `payload` to `dst`; payloads over the header's
/// ceiling are rejected whole, with nothing written.
pub fn encode_frame(payload: &Vec<u8>, dst: &mut Vec<u8>) -> (r: Result<(), CodecError>)
    ensures
        payload@.len() <= MAX_FRAME_SIZE ==> (r is Ok && final(dst)@ == old(dst)@ + frame_for(
            payload@,
        )),
        payload@.len() > MAX_FRAME_SIZE ==> (r == Err::<(), CodecError>(CodecError::FrameTooLarge)
            && final(dst)@ == old(dst)@),
{
    let n = payload.len();
    if n > MAX_FRAME_SIZE {
        return Err(CodecError::FrameTooLarge);
    }
    proof {
        vstd::arithmetic::div_mod::lemma_fundamental_div_mod(n as int, 256);
    }
    dst.push((n / 256) as u8);
    dst.push((n % 256) as u8);
    let mut i: usize = 0;
    while i < n
        invariant
            i <= n,
            n == payload@.len() <= MAX_FRAME_SIZE,
            dst@ == old(dst)@ + frame_for(payload@).take(HEADER_LEN + i),
        decreases n - i,
    {
        dst.push(payload[i]);
        proof {
            assert_seqs_equal!(
                frame_for(payload@).take(HEADER_LEN + i + 1)
                    == frame_for(payload@).take(HEADER_LEN + i).push(payload@[i as int])
            );
        }
        i += 1;
    }
    proof {
        assert_seqs_equal!(frame_for(payload@).take(HEADER_LEN + n) == frame_for(payload@));
    }
    Ok(())
}

/// Takes one whole frame off the front of `buf` and returns its payload, or
/// returns nothing and leaves `buf` untouched while less than a whole frame
/// is buffered.
pub fn try_decode_frame(buf: &mut Vec<u8>) -> (r: Option<Vec<u8>>)
    ensures
        !frame_ready(old(buf)@) ==> (r is None && final(buf)@ == old(buf)@),
        frame_ready(old(buf)@) ==> (r matches Some(p) && p@ == frame_payload(old(buf)@)
            && final(buf)@ == frame_rest(old(buf)@)),
{
    if buf.len() < HEADER_LEN {
        return None;
    }
    let len: usize = (buf[0] as usize) * 256 + (buf[1] as usize);
    if buf.len() < HEADER_LEN + len {
        return None;
    }
    let mut payload: Vec<u8> = Vec::new();
    let mut i: usize = 0;
    while i < len
        invariant
            i <= len,
            buf@ == old(buf)@,
            frame_ready(buf@),
            len == header_value(buf@[0], buf@[1]),
            payload@ == buf@.subrange(HEADER_LEN as int, HEADER_LEN + i),
        decreases len - i,
    {
        payload.push(buf[HEADER_LEN + i]);
        proof {
            assert_seqs_equal!(
                buf@.subrange(HEADER_LEN as int, HEADER_LEN + i + 1)
                    == buf@.subrange(HEADER_LEN as int, HEADER_LEN + i).push(
                        buf@[HEADER_LEN + i]
                    )
            );
        }
        i += 1;
    }
    let mut rest: Vec<u8> = Vec::new();
    let mut j: usize = HEADER_LEN + len;
    while j < buf.len()
        invariant
            HEADER_LEN + len <= j <= buf@.len(),
            buf@ == old(buf)@,
            frame_ready(buf@),
            len == header_value(buf@[0], buf@[1]),
            rest@ == buf@.subrange(HEADER_LEN + len, j as int),
        decreases buf@.len() - j,
    {
        rest.push(buf[j]);
        proof {
            assert_seqs_equal!(
                buf@.subrange(HEADER_LEN + len, j + 1)
                    == buf@.subrange(HEADER_LEN + len, j as int).push(buf@[j as int])
            );
        }
        j += 1;
    }
    *buf = rest;
    Some(payload)
}

/// Law: framing round-trips. A frame carrying `payload`, followed by any
/// further buffered bytes, is ready to decode, decodes to exactly `payload`,
/// and leaves exactly the further bytes behind.
pub proof fn lemma_frame_round_trip(payload: Seq<u8>, rest: Seq<u8>)
    requires
        payload.len() <= MAX_FRAME_SIZE,
    ensures
        frame_ready(frame_for(payload) + rest),
        frame_payload(frame_for(payload) + rest) == payload,
        frame_rest(frame_for(payload) + rest) == rest,
{
    let b = frame_for(payload) + rest;
    vstd::arithmetic::div_mod::lemma_fundamental_div_mod(payload.len() as int, 256);
    assert(header_value(b[0], b[1]) == payload.len());
    assert_seqs_equal!(b.subrange(HEADER_LEN as int, HEADER_LEN + payload.len()) == payload);
    assert_seqs_equal!(b.subrange(HEADER_LEN + payload.len(), b.len() as int) == rest);
}

/// Law: partial deliveries are resumable. Any strict prefix of one frame's
/// bytes is not ready to decode — each call on it reports "incomplete" — and
/// once the remaining bytes arrive the whole buffer decodes to the frame's
/// payload, exactly as a single whole-buffer call would.
pub proof fn lemma_partial_delivery(payload: Seq<u8>, i: int)
    requires
        payload.len() <= MAX_FRAME_SIZE,
        0 <= i < frame_for(payload).len(),
    ensures
        !frame_ready(frame_for(payload).take(i)),
        frame_for(payload).take(i) + frame_for(payload).skip(i) == frame_for(payload),
        frame_ready(frame_for(payload)),
        frame_payload(frame_for(payload)) == payload,
        frame_rest(frame_for(payload)) == Seq::<u8>::empty(),
{
    let f = frame_for(payload);
    let pre = f.take(i);
    if i >= HEADER_LEN {
        vstd::arithmetic::div_mod::lemma_fundamental_div_mod(payload.len() as int, 256);
        assert(header_value(pre[0], pre[1]) == payload.len());
    }
    assert_seqs_equal!(f.take(i) + f.skip(i) == f);
    lemma_frame_round_trip(payload, Seq::<u8>::empty());
    assert_seqs_equal!(frame_for(payload) + Seq::<u8>::empty() == frame_for(payload));
}


/// Whether the buffer parses as zero or more whole frames with nothing left
/// over.
pub open spec fn whole_frames(b: Seq<u8>) -> bool
    decreases b.len(),
{
    if b.len() == 0 {
        true
    } else if !frame_ready(b) {
        false
    } else {
        whole_frames(frame_rest(b))
    }
}

/// The wire payloads of the whole frames at the front of the buffer, in
/// order.
pub open spec fn frame_payloads(b: Seq<u8>) -> Seq<Seq<u8>>
    decreases b.len(),
{
    if !frame_ready(b) {
        Seq::empty()
    } else {
        seq![frame_payload(b)] + frame_payloads(frame_rest(b))
    }
}

/// A ready buffer splits into its first frame — itself one whole frame —
/// and the rest.
pub proof fn lemma_frame_split(b: Seq<u8>)
    requires
        frame_ready(b),
    ensures
        ({
            let c = b.take(HEADER_LEN + header_value(b[0], b[1]));
            frame_ready(c) && frame_rest(c).len() == 0 && frame_payload(c) == frame_payload(b)
                && b == c + frame_rest(b)
        }),
{
    let c = b.take(HEADER_LEN + header_value(b[0], b[1]));
    assert(c[0] == b[0] && c[1] == b[1]);
    assert_seqs_equal!(frame_rest(c) == Seq::<u8>::empty());
    assert_seqs_equal!(frame_payload(c) == frame_payload(b));
    assert_seqs_equal!(b == c + frame_rest(b));
}

/// Appending one whole frame to a run of whole frames gives a run of whole
/// frames, with the new frame's payload appended to the payload list.
pub proof fn lemma_frames_append(a: Seq<u8>, c: Seq<u8>)
    requires
        whole_frames(a),
        frame_ready(c),
        frame_rest(c).len() == 0,
    ensures
        whole_frames(a + c),
        frame_payloads(a + c) == frame_payloads(a).push(frame_payload(c)),
    decreases a.len(),
{
    if a.len() == 0 {
        assert(a + c =~= c);
        assert_seqs_equal!(frame_rest(c) == Seq::<u8>::empty());
        assert(whole_frames(frame_rest(c)));
        assert(!frame_ready(frame_rest(c)));
        assert(frame_payloads(frame_rest(c)) =~= Seq::<Seq<u8>>::empty());
        assert(frame_payloads(c) == seq![frame_payload(c)] + frame_payloads(frame_rest(c)));
        assert(!frame_ready(a));
        assert(frame_payloads(a) =~= Seq::<Seq<u8>>::empty());
        assert(frame_payloads(a + c) =~= frame_payloads(a).push(frame_payload(c)));
    } else {
        let ac = a + c;
        assert(frame_ready(a));
        assert(ac[0] == a[0] && ac[1] == a[1]);
        assert(frame_ready(ac));
        assert_seqs_equal!(frame_rest(ac) == frame_rest(a) + c);
        assert_seqs_equal!(frame_payload(ac) == frame_payload(a));
        lemma_frames_append(frame_rest(a), c);
        assert(frame_payloads(ac) == seq![frame_payload(a)] + frame_payloads(frame_rest(a) + c));
        assert(frame_payloads(a) == seq![frame_payload(a)] + frame_payloads(frame_rest(a)));
        assert(frame_payloads(ac) =~= frame_payloads(a).push(frame_payload(c)));
    }
}

} // verus!
