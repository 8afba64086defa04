use vstd::prelude::*;

verus! {

/// Encoding of the samples in a [`SpeechResult`]; always mono, little endian.
#[derive(Debug, Clone, Copy, PartialEq, Eq, Structural)]
pub enum SampleFormat {
    /// 16-bit signed integers.
    S16,
    /// 32-bit IEEE floats.
    F32,
}

/// A complete synthesized utterance.
#[derive(Debug, Clone, PartialEq, Eq)]
pub struct SpeechResult {
    pub pcm: Vec<u8>,
    pub sample_format: SampleFormat,
    pub sample_rate: u32,
}

/// Mono samples decoded from a PCM buffer, ready for the shared sink.
///
/// Float samples are carried as their IEEE bit patterns.
#[derive(Debug, Clone, PartialEq, Eq)]
pub enum Samples {
    S16(Vec<i16>),
    F32Bits(Vec<u32>),
}

/// One instruction for the shared audio sink, performed in order.
#[derive(Debug, Clone, PartialEq, Eq)]
pub enum SinkCommand {
    /// Drop whatever the sink is playing or has queued.
    Stop,
    /// Queue a clip after those already queued.
    Append { samples: Samples, sample_rate: u32 },
}

/// Bytes per sample of a format.
pub open spec fn sample_size(format: SampleFormat) -> nat {
    match format {
        SampleFormat::S16 => 2,
        SampleFormat::F32 => 4,
    }
}

impl SampleFormat {
    pub fn sample_size(&self) -> (r: usize)
        ensures
            r == sample_size(*self),
    {
        match self {
            SampleFormat::S16 => 2,
            SampleFormat::F32 => 4,
        }
    }
}

/// The signed 16-bit value of two little-endian bytes.
pub open spec fn le_i16(lo: u8, hi: u8) -> int {
    let v = lo as int + 256 * hi as int;
    if v >= 32768 {
        v - 65536
    } else {
        v
    }
}

/// The unsigned 32-bit value of four little-endian bytes.
pub open spec fn le_u32(b0: u8, b1: u8, b2: u8, b3: u8) -> int {
    b0 as int + 256 * b1 as int + 65536 * b2 as int + 16777216 * b3 as int
}

/// The 16-bit samples of a buffer; a trailing odd byte is ignored.
pub open spec fn s16_samples(pcm: Seq<u8>) -> Seq<int> {
    Seq::new(pcm.len() / 2, |i: int| le_i16(pcm[2 * i], pcm[2 * i + 1]))
}

/// The 32-bit sample words of a buffer; trailing bytes short of a word are
/// ignored.
pub open spec fn u32_samples(pcm: Seq<u8>) -> Seq<int> {
    Seq::new(
        pcm.len() / 4,
        |i: int| le_u32(pcm[4 * i], pcm[4 * i + 1], pcm[4 * i + 2], pcm[4 * i + 3]),
    )
}

/// What the sink receives for a buffer in a given format.
pub open spec fn samples_match(s: Samples, pcm: Seq<u8>, format: SampleFormat) -> bool {
    match format {
        SampleFormat::S16 => s matches Samples::S16(v) && v@.map_values(|x: i16| x as int)
            == s16_samples(pcm),
        SampleFormat::F32 => s matches Samples::F32Bits(v) && v@.map_values(|x: u32| x as int)
            == u32_samples(pcm),
    }
}

fn decode_s16(pcm: &Vec<u8>) -> (r: Vec<i16>)
    ensures
        r@.map_values(|x: i16| x as int) == s16_samples(pcm@),
{
    let mut out: Vec<i16> = Vec::new();
    let mut k: usize = 0;
    while k + 1 < pcm.len()
        invariant
            k == 2 * out@.len(),
            k <= pcm@.len(),
            forall|j: int|
                0 <= j < out@.len() ==> out@[j] as int == le_i16(pcm@[2 * j], pcm@[2 * j + 1]),
        decreases pcm@.len() - k,
    {
        let lo = pcm[k];
        let hi = pcm[k + 1];
        let v: i32 = lo as i32 + 256 * (hi as i32);
        let s: i32 = if v >= 32768 {
            v - 65536
        } else {
            v
        };
        out.push(s as i16);
        k = k + 2;
    }
    assert(out@.len() == pcm@.len() / 2);
    assert(out@.map_values(|x: i16| x as int) =~= s16_samples(pcm@));
    out
}

fn decode_u32(pcm: &Vec<u8>) -> (r: Vec<u32>)
    ensures
        r@.map_values(|x: u32| x as int) == u32_samples(pcm@),
{
    let mut out: Vec<u32> = Vec::new();
    let mut k: usize = 0;
    while k + 3 < pcm.len()
        invariant
            k == 4 * out@.len(),
            k <= pcm@.len(),
            forall|j: int|
                0 <= j < out@.len() ==> out@[j] as int == le_u32(
                    pcm@[4 * j],
                    pcm@[4 * j + 1],
                    pcm@[4 * j + 2],
                    pcm@[4 * j + 3],
                ),
        decreases pcm@.len() - k,
    {
        let w: u32 = pcm[k] as u32 + 256 * (pcm[k + 1] as u32) + 65536 * (pcm[k + 2] as u32)
            + 16777216 * (pcm[k + 3] as u32);
        out.push(w);
        k = k + 4;
    }
    assert(out@.len() == pcm@.len() / 4);
    assert(out@.map_values(|x: u32| x as int) =~= u32_samples(pcm@));
    out
}

/// Reads a PCM buffer as mono samples of the given format.
pub fn decode_samples(pcm: &Vec<u8>, format: SampleFormat) -> (r: Samples)
    ensures
        samples_match(r, pcm@, format),
{
    match format {
        SampleFormat::S16 => Samples::S16(decode_s16(pcm)),
        SampleFormat::F32 => Samples::F32Bits(decode_u32(pcm)),
    }
}

/// The sink commands that play a generated utterance: a stop first when the
/// caller asked to interrupt, then the clip itself.
pub open spec fn playback_commands_match(
    cmds: Seq<SinkCommand>,
    result: SpeechResult,
    interrupt: bool,
) -> bool {
    let clip = if interrupt {
        1int
    } else {
        0int
    };
    &&& cmds.len() == clip + 1
    &&& interrupt ==> cmds[0] == SinkCommand::Stop
    &&& cmds[clip] matches SinkCommand::Append { samples, sample_rate }
    &&& sample_rate == result.sample_rate
    &&& samples_match(samples, result.pcm@, result.sample_format)
}

/// Queues a generated utterance on the shared sink.
pub fn play_audio(result: &SpeechResult, interrupt: bool, sink: &mut Vec<SinkCommand>)
    ensures
        old(sink)@.len() <= final(sink)@.len(),
        final(sink)@.subrange(0, old(sink)@.len() as int) == old(sink)@,
        playback_commands_match(
            final(sink)@.subrange(old(sink)@.len() as int, final(sink)@.len() as int),
            *result,
            interrupt,
        ),
{
    if interrupt {
        sink.push(SinkCommand::Stop);
    }
    let samples = decode_samples(&result.pcm, result.sample_format);
    sink.push(SinkCommand::Append { samples, sample_rate: result.sample_rate });
}

} // verus!
