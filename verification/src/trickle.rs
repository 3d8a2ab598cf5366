//! The trickle responder's payload.
//!
//! The responder answers its fixed path with exactly `TRICKLE_LEN` bytes,
//! paced one byte per second; the pacing is the runtime's, the payload and
//! its length are fixed here. The check protocol's exact byte-count rule and
//! its deadline are calibrated against this responder: the two are a matched
//! pair.

use vstd::prelude::*;

verus! {

/// Exact number of bytes a healthy responder delivers per probe.
pub const TRICKLE_LEN: usize = 30;

/// The byte the responder trickles out: ASCII `x`.
pub const TRICKLE_BYTE: u8 = 120;

/// The full payload the responder emits over one probe: `TRICKLE_LEN`
/// repetitions of the trickle byte.
pub fn trickle_body() -> (body: Vec<u8>)
    ensures
        body@ == Seq::new(TRICKLE_LEN as nat, |i: int| TRICKLE_BYTE),
{
    let mut body: Vec<u8> = Vec::new();
    while body.len() < TRICKLE_LEN
        invariant
            body@.len() <= TRICKLE_LEN,
            forall|i: int| 0 <= i < body@.len() ==> body@[i] == TRICKLE_BYTE,
        decreases TRICKLE_LEN - body@.len(),
    {
        body.push(TRICKLE_BYTE);
    }
    proof {
        assert(body@ =~= Seq::new(TRICKLE_LEN as nat, |i: int| TRICKLE_BYTE));
    }
    body
}

} // verus!
