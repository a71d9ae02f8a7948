//! The part of a capture session that decides: what each batch of samples
//! from the device leads to. The device itself, the measuring of energy and
//! the writing of files are the caller's.
//!
//! A session gathers samples into windows. When a window is complete the
//! caller measures its energy and closes it; an admitted window comes back as
//! an encode job, with the name of its file and the format of its container.
//! Jobs are numbered in the order in which their windows closed.

use crate::accumulator::{ChunkAccumulator, Energy};
use crate::capture::CaptureConfig;
use crate::encoder::{chunk_file_name, container_for, ChunkEncoder, ContainerFormat};
use vstd::prelude::*;

verus! {

/// One admitted window, ready to be written to its transient file.
#[derive(Debug, PartialEq)]
pub struct EncodeJob<S> {
    pub file_name: String,
    pub format: ContainerFormat,
    pub samples: Vec<S>,
}

/// The state of one capture session.
pub struct CaptureSession<S> {
    config: CaptureConfig,
    accumulator: ChunkAccumulator<S>,
    encoder: ChunkEncoder,
}

impl<S> CaptureSession<S> {
    /// The format the session was opened with.
    pub closed spec fn config(&self) -> CaptureConfig {
        self.config
    }

    /// The samples gathered since the last window was closed.
    pub closed spec fn buffered(&self) -> Seq<S> {
        self.accumulator.buffered()
    }

    /// How many windows were admitted so far.
    pub closed spec fn admitted(&self) -> nat {
        self.encoder.next_index()
    }

    /// How many samples make a window.
    pub closed spec fn target(&self) -> nat {
        self.accumulator.target()
    }

    /// Whether enough samples have been gathered to close the window.
    pub open spec fn window_complete(&self) -> bool {
        self.buffered().len() >= self.target()
    }

    /// A session for a stream of format `config`, with nothing gathered and
    /// nothing admitted, whose window is one chunk of that format.
    pub fn open(config: CaptureConfig) -> (session: Self)
        ensures
            session.config() == config,
            session.target() == config.target_samples(),
            session.buffered().len() == 0,
            session.admitted() == 0,
    {
        CaptureSession {
            config,
            accumulator: ChunkAccumulator::new(&config),
            encoder: ChunkEncoder::new(),
        }
    }

    /// The format the session was opened with.
    pub fn format(&self) -> (config: CaptureConfig)
        ensures
            config == self.config(),
    {
        self.config
    }

    /// How many windows were admitted so far.
    pub fn admitted_count(&self) -> (count: u32)
        ensures
            count == self.admitted(),
    {
        self.encoder.issued()
    }

    /// The samples gathered since the last window was closed, for measuring
    /// their energy.
    pub fn window(&self) -> (window: &[S])
        ensures
            window@ == self.buffered(),
    {
        self.accumulator.window()
    }

    /// Appends `samples` and says whether the window is now complete.
    pub fn accumulate(&mut self, samples: &[S]) -> (complete: bool) where S: Copy
        ensures
            final(self).config() == old(self).config(),
            final(self).target() == old(self).target(),
            final(self).admitted() == old(self).admitted(),
            final(self).buffered() == old(self).buffered() + samples@,
            complete == final(self).window_complete(),
    {
        self.accumulator.accumulate(samples)
    }

    /// Closes the window if it is complete, given the energy measured over
    /// `window()`.
    ///
    /// An incomplete window is left as it is. A complete one is emptied
    /// whatever its energy. If the energy exceeds the silence threshold the
    /// window is admitted: all its samples come back as one job, named by the
    /// number of windows admitted before it. If not, the window is dropped and
    /// no name is used up.
    pub fn close_window(&mut self, energy: Energy) -> (job: Option<EncodeJob<S>>)
        requires
            old(self).window_complete() && energy.exceeds_threshold() ==> old(self).admitted()
                < u32::MAX,
        ensures
            final(self).config() == old(self).config(),
            final(self).target() == old(self).target(),
            final(self).buffered().len() == 0 || !final(self).window_complete(),
            !old(self).window_complete() ==> {
                &&& job is None
                &&& final(self).buffered() == old(self).buffered()
                &&& final(self).admitted() == old(self).admitted()
            },
            old(self).window_complete() ==> final(self).buffered().len() == 0,
            old(self).window_complete() && !energy.exceeds_threshold() ==> {
                &&& job is None
                &&& final(self).admitted() == old(self).admitted()
            },
            old(self).window_complete() && energy.exceeds_threshold() ==> {
                &&& job matches Some(job)
                &&& job.file_name@ == chunk_file_name(old(self).admitted())
                &&& job.format == container_for(old(self).config())
                &&& job.samples@ == old(self).buffered()
                &&& final(self).admitted() == old(self).admitted() + 1
            },
    {
        match self.accumulator.drain(energy) {
            Some(chunk) => {
                let file_name = self.encoder.next_file_name();
                Some(
                    EncodeJob {
                        file_name,
                        format: ChunkEncoder::container_format(&self.config),
                        samples: chunk.samples,
                    },
                )
            },
            None => None,
        }
    }
}

} // verus!
