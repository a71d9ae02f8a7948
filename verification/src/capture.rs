//! What a capture session is opened with, and what it reports when it cannot
//! be opened.

use crate::text::same_text;
use vstd::prelude::*;

verus! {

/// How many seconds of audio make one chunk.
pub const CHUNK_SECONDS: u64 = 5;

/// How long, in milliseconds, the capture loop sleeps between two reads of
/// the lifecycle flag.
pub const CAPTURE_POLL_MILLIS: u64 = 200;

/// Which side of the audio device is captured.
#[derive(Clone, Copy, Debug, PartialEq, Eq, Structural)]
pub enum SourceKind {
    /// The default input device: a microphone.
    Input,
    /// The default output device, captured as loopback.
    Output,
}

/// The source that `name` asks for: the output for `"output"`, the input for
/// anything else.
pub open spec fn source_named(name: Seq<char>) -> SourceKind {
    if name == "output"@ {
        SourceKind::Output
    } else {
        SourceKind::Input
    }
}

impl SourceKind {
    /// The source that `name` asks for.
    pub fn from_name(name: &str) -> (kind: SourceKind)
        ensures
            kind == source_named(name@),
    {
        if same_text(name, "output") {
            SourceKind::Output
        } else {
            SourceKind::Input
        }
    }
}

/// The format of a session's stream, fixed when the device is opened.
#[derive(Clone, Copy, Debug, PartialEq, Eq, Structural)]
pub struct CaptureConfig {
    pub channel_count: u16,
    pub sample_rate: u32,
    pub source_kind: SourceKind,
}

impl CaptureConfig {
    /// How many interleaved samples make one chunk.
    pub open spec fn target_samples(&self) -> nat {
        (self.sample_rate * self.channel_count * CHUNK_SECONDS) as nat
    }

    /// How many interleaved samples make one chunk.
    pub fn target_sample_count(&self) -> (count: u64)
        ensures
            count == self.target_samples(),
    {
        let rate: u64 = self.sample_rate as u64;
        let channels: u64 = self.channel_count as u64;
        assert(rate * channels <= 0xFFFF_FFFF * 0xFFFF) by (nonlinear_arith)
            requires
                rate <= 0xFFFF_FFFF,
                channels <= 0xFFFF,
        ;
        rate * channels * CHUNK_SECONDS
    }
}

/// Why a capture session could not be opened.
#[derive(Debug, PartialEq, Eq)]
pub enum DeviceError {
    /// There is no default device for the requested source.
    NoDevice,
    /// The device did not yield a stream format; `detail` says why.
    ConfigFailed { detail: String },
}

/// A device error as a mathematical value.
pub enum DeviceErrorModel {
    NoDevice,
    ConfigFailed { detail: Seq<char> },
}

impl View for DeviceError {
    type V = DeviceErrorModel;

    open spec fn view(&self) -> DeviceErrorModel {
        match *self {
            DeviceError::NoDevice => DeviceErrorModel::NoDevice,
            DeviceError::ConfigFailed { detail } => DeviceErrorModel::ConfigFailed {
                detail: detail@,
            },
        }
    }
}

/// The bracketed text under which a device error reaches the listener.
pub open spec fn device_error_text(error: DeviceErrorModel) -> Seq<char> {
    match error {
        DeviceErrorModel::NoDevice => "[Error: No audio device found.]"@,
        DeviceErrorModel::ConfigFailed { detail } => "[Error: Audio config failed: "@ + detail
            + "]"@,
    }
}

impl DeviceError {
    /// The bracketed text under which this error reaches the listener.
    pub fn report(&self) -> (text: String)
        ensures
            text@ == device_error_text(self@),
    {
        match self {
            DeviceError::NoDevice => "[Error: No audio device found.]".to_owned(),
            DeviceError::ConfigFailed { detail } => {
                let mut text = "[Error: Audio config failed: ".to_owned();
                text.append(detail.as_str());
                text.append("]");
                text
            },
        }
    }
}

} // verus!
