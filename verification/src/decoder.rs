//! What the two frame decoders share: the error vocabulary, the two-state
//! escape machine they both run, and a helper for carving decoded fields out
//! of the payload buffer.

use vstd::prelude::*;

verus! {

/// Errors a decoder can report for a completed frame.
#[derive(Debug, PartialEq, Eq, Structural, Clone, Copy)]
pub enum Error {
    /// A frame named an opcode outside the wire vocabulary. The decoders in
    /// this crate treat such a frame as line noise and keep loading instead,
    /// so they never report this; it stays in the vocabulary for callers and
    /// for stricter decoders.
    UnknownCommand,
    /// The opcode was recognised but the accumulated payload did not have the
    /// length or shape that opcode requires.
    BadArguments,
}

/// The escape machine every decoder runs: in `Loading` bytes are payload and
/// a single escape byte switches to `Escape`; in `Escape` the next byte is
/// either a second escape (a literal payload byte) or the frame's opcode.
pub(crate) enum DecoderState {
    Loading,
    Escape,
}

/// Copy the bytes of `v` from `start` (inclusive) to `end` (exclusive) into a
/// fresh vector.
pub(crate) fn vec_range(v: &Vec<u8>, start: usize, end: usize) -> (r: Vec<u8>)
    requires
        start <= end <= v@.len(),
    ensures
        r@ == v@.subrange(start as int, end as int),
{
    let mut r: Vec<u8> = Vec::new();
    let mut i: usize = start;
    proof {
        assert(v@.subrange(start as int, start as int) =~= Seq::<u8>::empty());
    }
    while i < end
        invariant
            start <= i <= end <= v@.len(),
            r@ == v@.subrange(start as int, i as int),
        decreases end - i,
    {
        r.push(v[i]);
        proof {
            assert(v@.subrange(start as int, i + 1) =~= v@.subrange(start as int, i as int).push(
                v@[i as int],
            ));
        }
        i = i + 1;
    }
    r
}

} // verus!
