use crate::entropy::{Decode, Encode, NewEncoder, Recover, RecoverEncode};
use vstd::prelude::*;

verus! {

/// What the codec worker answers a job with.
#[derive(Debug)]
pub enum Event<E, D> {
    NewEncoder(NewEncoder<E>),
    Encode(Encode),
    Decode(Decode<D>),
    Recover(Recover),
    RecoverEncode(RecoverEncode),
}

/// What the codec worker does with a decoder that has taken a fragment.
#[derive(Debug, Clone, Copy, PartialEq, Eq, Structural)]
pub enum Next {
    /// The chunk is not recovered yet: the decoder goes back to its owner, in a
    /// [`Decode`].
    Return,
    /// The chunk is recovered and nothing is to be encoded: its bytes go to the owner, in
    /// a [`Recover`].
    Recover,
    /// The chunk is recovered: the decoder becomes an encoder, and the fragment at the
    /// index goes to the owner, in a [`RecoverEncode`].
    RecoverEncode(u32),
}

/// What follows a decoding step: `complete` says whether the decoder has recovered the
/// chunk, `encode_index` which fragment the owner wants encoded from it, if any.
pub open spec fn next_step(complete: bool, encode_index: Option<u32>) -> Next {
    if !complete {
        Next::Return
    } else {
        match encode_index {
            Some(index) => Next::RecoverEncode(index),
            None => Next::Recover,
        }
    }
}

/// What the codec worker does after the decoder has taken a fragment.
pub fn after_decode(complete: bool, encode_index: Option<u32>) -> (next: Next)
    ensures
        next == next_step(complete, encode_index),
{
    if !complete {
        Next::Return
    } else {
        match encode_index {
            Some(index) => Next::RecoverEncode(index),
            None => Next::Recover,
        }
    }
}

} // verus!
