//! What the chunk encoder decides before anything is written: the name of the
//! next transient file and the format of the container.

use crate::capture::CaptureConfig;
use crate::text::{decimal, lemma_decimal_injective, push_decimal};
use vstd::prelude::*;

verus! {

/// How the samples of a container are encoded.
#[derive(Clone, Copy, Debug, PartialEq, Eq, Structural)]
pub enum SampleEncoding {
    /// IEEE 754 floating point.
    Float,
    /// Signed integers.
    Integer,
}

/// The header fields of an uncompressed audio container.
#[derive(Clone, Copy, Debug, PartialEq, Eq, Structural)]
pub struct ContainerFormat {
    pub channels: u16,
    pub sample_rate: u32,
    pub bits_per_sample: u16,
    pub encoding: SampleEncoding,
}

/// The container that carries the chunks of a stream of format `config`:
/// 32-bit floating point, with the stream's channel count and sample rate.
pub open spec fn container_for(config: CaptureConfig) -> ContainerFormat {
    ContainerFormat {
        channels: config.channel_count,
        sample_rate: config.sample_rate,
        bits_per_sample: 32,
        encoding: SampleEncoding::Float,
    }
}

/// The name of the transient file of the chunk numbered `index`.
pub open spec fn chunk_file_name(index: nat) -> Seq<char> {
    "temp_capture_"@ + decimal(index) + ".wav"@
}

/// Chunks with different numbers have files with different names.
pub proof fn lemma_file_names_distinct(a: nat, b: nat)
    requires
        chunk_file_name(a) == chunk_file_name(b),
    ensures
        a == b,
{
    reveal_strlit("temp_capture_");
    reveal_strlit(".wav");
    let head = "temp_capture_"@;
    let tail = ".wav"@;
    let name = chunk_file_name(a);
    assert(name.subrange(head.len() as int, name.len() - tail.len()) =~= decimal(a));
    assert(name.subrange(head.len() as int, name.len() - tail.len()) =~= decimal(b));
    lemma_decimal_injective(a, b);
}

/// Numbers the chunks of one session, so that each gets a file of its own.
pub struct ChunkEncoder {
    next_index: u32,
}

impl ChunkEncoder {
    /// The number that the next chunk gets: how many names were handed out.
    pub closed spec fn next_index(&self) -> nat {
        self.next_index as nat
    }

    /// An encoder that has named no chunk yet.
    pub fn new() -> (encoder: Self)
        ensures
            encoder.next_index() == 0,
    {
        ChunkEncoder { next_index: 0 }
    }

    /// How many names were handed out.
    pub fn issued(&self) -> (count: u32)
        ensures
            count == self.next_index(),
    {
        self.next_index
    }

    /// Hands out the file name of the next chunk.
    pub fn next_file_name(&mut self) -> (name: String)
        requires
            old(self).next_index() < u32::MAX,
        ensures
            name@ == chunk_file_name(old(self).next_index()),
            final(self).next_index() == old(self).next_index() + 1,
    {
        let mut name = "temp_capture_".to_owned();
        push_decimal(&mut name, self.next_index);
        name.append(".wav");
        self.next_index = self.next_index + 1;
        name
    }

    /// The container that carries the chunks of a stream of format `config`.
    pub fn container_format(config: &CaptureConfig) -> (format: ContainerFormat)
        ensures
            format == container_for(*config),
    {
        ContainerFormat {
            channels: config.channel_count,
            sample_rate: config.sample_rate,
            bits_per_sample: 32,
            encoding: SampleEncoding::Float,
        }
    }
}

} // verus!
