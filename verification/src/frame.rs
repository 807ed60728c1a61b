//! Binary-frame stream tagging.
//!
//! Text frames carry the JSON control-plane envelope; binary frames carry raw
//! stream bytes prefixed with a one-byte stream tag, `[tag][payload...]`, so
//! new streams can be added later without a protocol redesign.

use vstd::prelude::*;
use vstd::slice::slice_subrange;

pub mod stream_tag;

verus! {

/// The bytes of a binary frame carrying `payload` on stream `tag`.
pub open spec fn framed(tag: u8, payload: Seq<u8>) -> Seq<u8> {
    seq![tag] + payload
}

/// What a frame says: `None` for an empty frame, otherwise its first byte as
/// the stream tag and the rest as the payload.
pub open spec fn unframed(frame: Seq<u8>) -> Option<(u8, Seq<u8>)> {
    if frame.len() == 0 {
        None
    } else {
        Some((frame[0], frame.drop_first()))
    }
}

/// Wrap raw stream bytes with their one-byte tag: `[tag][payload...]`.
pub fn encode(tag: u8, payload: &[u8]) -> (out: Vec<u8>)
    ensures
        out@ == framed(tag, payload@),
{
    let mut out: Vec<u8> = Vec::with_capacity(payload.len().saturating_add(1));
    out.push(tag);
    let mut i: usize = 0;
    while i < payload.len()
        invariant
            i <= payload@.len(),
            out@ == framed(tag, payload@.take(i as int)),
        decreases payload@.len() - i,
    {
        out.push(payload[i]);
        i = i + 1;
        assert(payload@.take(i as int) == payload@.take(i - 1).push(payload@[i - 1]));
    }
    assert(payload@.take(i as int) == payload@);
    out
}

/// Split a tagged binary frame into `(stream_tag, payload)`.
///
/// Returns `None` if the frame is empty (no tag byte).
pub fn decode(frame: &[u8]) -> (res: Option<(u8, &[u8])>)
    ensures
        match (res, unframed(frame@)) {
            (None, None) => true,
            (Some((tag, payload)), Some((t, p))) => tag == t && payload@ == p,
            _ => false,
        },
{
    if frame.len() == 0 {
        None
    } else {
        let rest = slice_subrange(frame, 1, frame.len());
        assert(rest@ == frame@.drop_first());
        Some((frame[0], rest))
    }
}

/// Decoding an encoded frame gives back the tag and the payload.
pub proof fn lemma_decode_encode(tag: u8, payload: Seq<u8>)
    ensures
        unframed(framed(tag, payload)) == Some((tag, payload)),
{
    assert(framed(tag, payload).drop_first() =~= payload);
}

/// Every non-empty frame is the encoding of what it decodes to; the empty
/// frame decodes to nothing.
pub proof fn lemma_encode_decode(frame: Seq<u8>)
    ensures
        frame.len() == 0 <==> unframed(frame) is None,
        unframed(frame) matches Some((t, p)) ==> framed(t, p) == frame,
{
    if frame.len() > 0 {
        assert(framed(frame[0], frame.drop_first()) =~= frame);
    }
}

} // verus!
