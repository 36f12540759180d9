//! The frame sampler: the window of the most recent samples, refilled in
//! place frame by frame.

use crate::sample::{Sample, EXPONENT_MIN};
use vstd::prelude::*;

verus! {

/// Points of the transform window that the analysis node is set up with; it
/// hands out half as many samples at a time.
pub const TRANSFORM_SIZE: u32 = 2048;

/// Why a capture was not taken over.
#[derive(Clone, Copy, Debug, PartialEq, Eq, Structural)]
pub enum SampleError {
    /// The capture does not have the length of the window.
    LengthMismatch { expected: usize, actual: usize },
    /// Word `index` is the first of the capture that encodes an infinity or
    /// a NaN.
    NotFinite { index: usize },
}

/// The samples that a capture of finite words encodes, word by word.
pub open spec fn decode_window(capture: Seq<u32>) -> Seq<Sample> {
    Seq::new(capture.len(), |index: int| Sample::decode(capture[index])->0)
}

/// A window of `len` samples takes over `capture`: the lengths agree and
/// every word is finite.
pub open spec fn acceptable(len: nat, capture: Seq<u32>) -> bool {
    &&& capture.len() == len
    &&& forall|index: int| 0 <= index < capture.len() ==> Sample::decode(#[trigger] capture[index]) is Some
}

/// `error` is what a window of `len` samples answers to `capture`: a wrong
/// length is reported before any word is looked at, and of the words that are
/// not finite the first.
pub open spec fn rejects(len: nat, capture: Seq<u32>, error: SampleError) -> bool {
    match error {
        SampleError::LengthMismatch { expected, actual } => {
            &&& expected == len
            &&& actual == capture.len()
            &&& capture.len() != len
        },
        SampleError::NotFinite { index } => {
            &&& capture.len() == len
            &&& index < capture.len()
            &&& Sample::decode(capture[index as int]) is None
            &&& forall|before: int|
                0 <= before < index ==> Sample::decode(#[trigger] capture[before]) is Some
        },
    }
}

/// What a window holds after `capture` was offered to it: the decoded
/// capture, or, where the capture is not acceptable, what it held before.
pub open spec fn sample_spec(window: Seq<Sample>, capture: Seq<u32>) -> Seq<Sample> {
    if acceptable(window.len(), capture) {
        decode_window(capture)
    } else {
        window
    }
}

/// No capture is both acceptable and rejected, and none is rejected with
/// two errors.
pub proof fn lemma_rejection_is_unique(
    len: nat,
    capture: Seq<u32>,
    first: SampleError,
    second: SampleError,
)
    requires
        rejects(len, capture, first),
        rejects(len, capture, second),
    ensures
        first == second,
        !acceptable(len, capture),
{
    if let SampleError::NotFinite { index: i } = first {
        if let SampleError::NotFinite { index: j } = second {
            if i < j {
                assert(Sample::decode(capture[i as int]) is Some);
            }
            if j < i {
                assert(Sample::decode(capture[j as int]) is Some);
            }
        }
        assert(Sample::decode(capture[i as int]) is None);
    }
}

/// Sampling is idempotent: offering the same capture again leaves the
/// window as the first offer left it, whatever it held before.
pub proof fn lemma_sample_idempotent(window: Seq<Sample>, capture: Seq<u32>)
    ensures
        sample_spec(sample_spec(window, capture), capture) == sample_spec(window, capture),
        sample_spec(window, capture).len() == window.len(),
{
}

/// Owner of the window of samples. The window is never empty and its length
/// never changes.
pub struct FrameSampler {
    buffer: Vec<Sample>,
}

impl View for FrameSampler {
    type V = Seq<Sample>;

    closed spec fn view(&self) -> Seq<Sample> {
        self.buffer@
    }
}

impl FrameSampler {
    #[verifier::type_invariant]
    spec fn inv(self) -> bool {
        0 < self.buffer.len() <= u32::MAX
    }

    /// A window of `window` samples, all zero. There is no window of no
    /// samples.
    pub fn new(window: u32) -> (sampler: Option<FrameSampler>)
        ensures
            window == 0 <==> sampler is None,
            sampler matches Some(s) ==> s@ == Seq::new(window as nat, |index: int| Sample::zero()),
    {
        if window == 0 {
            return None;
        }
        let mut buffer: Vec<Sample> = Vec::new();
        let mut filled: u32 = 0;
        while filled < window
            invariant
                filled <= window,
                buffer@ =~= Seq::new(filled as nat, |index: int| Sample::zero()),
            decreases window - filled,
        {
            buffer.push(Sample { mantissa: 0, exponent: EXPONENT_MIN });
            filled = filled + 1;
        }
        Some(FrameSampler { buffer })
    }

    /// The length of the window.
    pub fn len(&self) -> (len: usize)
        ensures
            len == self@.len(),
            0 < len <= u32::MAX,
    {
        proof {
            use_type_invariant(self);
        }
        self.buffer.len()
    }

    /// The window as the last accepted capture left it.
    pub fn buffer(&self) -> (buffer: &Vec<Sample>)
        ensures
            buffer@ == self@,
            0 < buffer.len() <= u32::MAX,
    {
        proof {
            use_type_invariant(self);
        }
        &self.buffer
    }

    /// Takes over a capture of single-precision words, overwriting the
    /// window in place. A capture that is not acceptable leaves the window
    /// untouched.
    pub fn sample(&mut self, capture: &Vec<u32>) -> (outcome: Result<(), SampleError>)
        ensures
            final(self)@ == sample_spec(old(self)@, capture@),
            final(self)@.len() == old(self)@.len(),
            match outcome {
                Ok(()) => acceptable(old(self)@.len(), capture@),
                Err(error) => rejects(old(self)@.len(), capture@, error),
            },
    {
        proof {
            use_type_invariant(&*self);
        }
        let len: usize = self.buffer.len();
        if capture.len() != len {
            return Err(SampleError::LengthMismatch { expected: len, actual: capture.len() });
        }
        let mut checked: usize = 0;
        while checked < len
            invariant
                *self == *old(self),
                len == self.buffer.len(),
                len == capture.len(),
                checked <= len,
                forall|before: int|
                    0 <= before < checked ==> Sample::decode(#[trigger] capture[before]) is Some,
            decreases len - checked,
        {
            if Sample::from_bits(capture[checked]).is_none() {
                return Err(SampleError::NotFinite { index: checked });
            }
            checked = checked + 1;
        }
        let mut index: usize = 0;
        while index < len
            invariant
                len == capture.len(),
                len == self.buffer.len(),
                len == old(self).buffer.len(),
                0 < len <= u32::MAX,
                index <= len,
                acceptable(len as nat, capture@),
                forall|before: int|
                    0 <= before < index ==> #[trigger] self.buffer[before] == Sample::decode(
                        capture[before],
                    )->0,
            decreases len - index,
        {
            if let Some(sample) = Sample::from_bits(capture[index]) {
                self.buffer[index] = sample;
            }
            index = index + 1;
        }
        assert(self.buffer@ =~= decode_window(capture@));
        Ok(())
    }
}

} // verus!
