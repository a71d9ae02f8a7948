//! The chunk accumulator and the silence gate.
//!
//! Samples arrive in batches. Once a window's worth has been gathered the
//! window is closed: the buffer is emptied, and its samples are handed on as
//! a chunk if the silence gate admits the window's energy, and dropped if not.
//! Nothing is carried over from one window into the next.
//!
//! The library does no arithmetic on samples. A sample is any copyable value,
//! and the energy of a window is measured by the caller, who hands it over as
//! the bit pattern of an IEEE 754 single-precision number.

use crate::capture::CaptureConfig;
use vstd::prelude::*;
use vstd::slice::slice_to_vec;

verus! {

/// The bit pattern of the silence threshold, `0.0001`.
pub const SILENCE_THRESHOLD_BITS: u32 = 0x38D1_B717;

/// The bit pattern of positive infinity: the greatest pattern that stands for
/// a number that is not negative. Those above it have the sign bit set or
/// stand for no number at all.
pub const POSITIVE_INFINITY_BITS: u32 = 0x7F80_0000;

/// A root-mean-square energy, as the bit pattern of a single-precision number.
///
/// Among the patterns up to `POSITIVE_INFINITY_BITS` a greater pattern is a
/// greater number, so on them the order of energies is the order of `bits`.
#[derive(Clone, Copy, Debug, PartialEq, Eq, Structural)]
pub struct Energy {
    pub bits: u32,
}

impl Energy {
    /// Whether this is the energy of some window: zero, a positive number or
    /// positive infinity. The rest are negative or not numbers.
    pub open spec fn is_measure(&self) -> bool {
        self.bits <= POSITIVE_INFINITY_BITS
    }

    /// Whether this energy is greater than the silence threshold. What is
    /// negative or no number is greater than nothing.
    pub open spec fn exceeds_threshold(&self) -> bool {
        SILENCE_THRESHOLD_BITS < self.bits <= POSITIVE_INFINITY_BITS
    }
}

/// The policy that decides whether a window is worth translating.
pub struct SilenceGate;

impl SilenceGate {
    /// Whether a window of this energy is admitted: exactly when the energy is
    /// greater than the silence threshold.
    pub fn admits(energy: Energy) -> (admitted: bool)
        ensures
            admitted == energy.exceeds_threshold(),
    {
        SILENCE_THRESHOLD_BITS < energy.bits && energy.bits <= POSITIVE_INFINITY_BITS
    }
}

/// Admission goes by a threshold: what is at least as loud as an admitted
/// window is admitted too, and a window at the threshold or below it never is.
pub proof fn lemma_gate_is_a_threshold(quiet: Energy, loud: Energy)
    requires
        quiet.is_measure(),
        loud.is_measure(),
        quiet.bits <= loud.bits,
    ensures
        quiet.exceeds_threshold() ==> loud.exceeds_threshold(),
        quiet.bits <= SILENCE_THRESHOLD_BITS ==> !quiet.exceeds_threshold(),
{
}

/// The samples of one closed window that was admitted.
#[derive(Debug, PartialEq)]
pub struct CompletedChunk<S> {
    pub samples: Vec<S>,
}

/// Gathers samples until a window is complete.
pub struct ChunkAccumulator<S> {
    samples: Vec<S>,
    target: u64,
}

impl<S> ChunkAccumulator<S> {
    /// The samples gathered since the last window was closed.
    pub closed spec fn buffered(&self) -> Seq<S> {
        self.samples@
    }

    /// How many samples make a window.
    pub closed spec fn target(&self) -> nat {
        self.target as nat
    }

    /// Whether enough samples have been gathered to close the window.
    pub open spec fn window_complete(&self) -> bool {
        self.buffered().len() >= self.target()
    }

    /// An empty accumulator whose window is one chunk of `config`'s stream.
    pub fn new(config: &CaptureConfig) -> (accumulator: Self)
        ensures
            accumulator.buffered().len() == 0,
            accumulator.target() == config.target_samples(),
    {
        ChunkAccumulator { samples: Vec::new(), target: config.target_sample_count() }
    }

    /// How many samples make a window.
    pub fn target_len(&self) -> (target: u64)
        ensures
            target == self.target(),
    {
        self.target
    }

    /// The samples gathered since the last window was closed, for measuring
    /// their energy.
    pub fn window(&self) -> (window: &[S])
        ensures
            window@ == self.buffered(),
    {
        self.samples.as_slice()
    }

    /// Appends `samples` and says whether the window is now complete.
    pub fn accumulate(&mut self, samples: &[S]) -> (complete: bool) where S: Copy
        ensures
            final(self).buffered() == old(self).buffered() + samples@,
            final(self).target() == old(self).target(),
            complete == final(self).window_complete(),
    {
        let mut incoming = slice_to_vec(samples);
        self.samples.append(&mut incoming);
        self.samples.len() as u64 >= self.target
    }

    /// Closes the window if it is complete, given the energy measured over
    /// `window()`.
    ///
    /// An incomplete window is left as it is and yields nothing. A complete
    /// one is emptied whatever its energy: it yields all its samples as one
    /// chunk if the energy exceeds the silence threshold, and nothing if not.
    pub fn drain(&mut self, energy: Energy) -> (chunk: Option<CompletedChunk<S>>)
        ensures
            final(self).target() == old(self).target(),
            !old(self).window_complete() ==> {
                &&& chunk is None
                &&& final(self).buffered() == old(self).buffered()
            },
            old(self).window_complete() ==> final(self).buffered().len() == 0,
            final(self).buffered().len() == 0 || !final(self).window_complete(),
            old(self).window_complete() && !energy.exceeds_threshold() ==> chunk is None,
            old(self).window_complete() && energy.exceeds_threshold() ==> {
                &&& chunk matches Some(completed)
                &&& completed.samples@ == old(self).buffered()
            },
    {
        if (self.samples.len() as u64) < self.target {
            return None;
        }
        let mut window: Vec<S> = Vec::new();
        window.append(&mut self.samples);
        if SilenceGate::admits(energy) {
            Some(CompletedChunk { samples: window })
        } else {
            None
        }
    }
}

} // verus!
