//! The capture buffer: a bounded sink that takes sample frames while open,
//! ignores them once finalized, and is finalized into a 16-bit PCM
//! container exactly once.

use vstd::prelude::*;
use crate::error::PipelineError;
use crate::sample::{convert_frame, law_round_trip, to_i16_spec, to_i32_spec, STEP};

verus! {

/// The most samples a buffer holds: the container records its length in 32
/// bits, two bytes per sample after a header of at most 68 bytes.
pub const MAX_SAMPLES: usize = 2147483600;

/// The shape of the stored audio: signed 16-bit integer PCM.
#[derive(Debug, Clone, Copy, PartialEq, Eq, Structural)]
pub struct AudioFormat {
    pub channels: u16,
    pub sample_rate: u32,
}

impl AudioFormat {
    /// At least one channel, a positive rate, and a byte rate that fits in
    /// 32 bits.
    pub open spec fn wf(&self) -> bool {
        1 <= self.channels && 1 <= self.sample_rate
            && self.sample_rate as int * self.channels as int * 2 <= u32::MAX
    }

    /// A format for `channels` channels at `sample_rate` Hz; one that cannot
    /// be stored is rejected.
    pub fn new(channels: u16, sample_rate: u32) -> (r: Result<AudioFormat, PipelineError>)
        ensures
            r matches Ok(f) ==> f.channels == channels && f.sample_rate == sample_rate && f.wf(),
            r is Err <==> !(AudioFormat { channels, sample_rate }).wf(),
            r matches Err(e) ==> e == PipelineError::FormatRejected,
    {
        if channels == 0 || sample_rate == 0 {
            return Err(PipelineError::FormatRejected);
        }
        assert(sample_rate as int * channels as int * 2 <= 0xffff_ffff * 0xffff * 2) by (nonlinear_arith)
            requires sample_rate as int <= 0xffff_ffff, channels as int <= 0xffff;
        let byte_rate: u64 = sample_rate as u64 * channels as u64 * 2;
        if byte_rate > u32::MAX as u64 {
            return Err(PipelineError::FormatRejected);
        }
        Ok(AudioFormat { channels, sample_rate })
    }

    /// The recorder's format: one channel at 44100 Hz.
    pub fn recorder() -> (r: AudioFormat)
        ensures
            r.channels == 1 && r.sample_rate == 44100 && r.wf(),
    {
        AudioFormat { channels: 1, sample_rate: 44100 }
    }
}

/// The two little-endian bytes of a 32-bit value's low half.
pub open spec fn le16(x: int) -> Seq<u8> {
    seq![(x % 256) as u8, ((x / 256) % 256) as u8]
}

/// The four little-endian bytes of a 32-bit value.
pub open spec fn le32(x: int) -> Seq<u8> {
    le16(x % 65536) + le16(x / 65536)
}

/// The two's-complement little-endian bytes of one sample.
pub open spec fn sample_bytes(s: i16) -> Seq<u8> {
    le16((s as int + 65536) % 65536)
}

/// The little-endian bytes of all samples, in order.
pub open spec fn pcm_bytes(samples: Seq<i16>) -> Seq<u8>
    decreases samples.len(),
{
    if samples.len() == 0 {
        seq![]
    } else {
        sample_bytes(samples[0]) + pcm_bytes(samples.drop_first())
    }
}

/// A 16-bit integer PCM container of one or two channels: the RIFF header,
/// the 16-byte `fmt ` chunk, and the `data` chunk with the samples.
pub open spec fn pcm16_container(channels: u16, sample_rate: u32, samples: Seq<i16>) -> Seq<u8> {
    let data_len = 2 * samples.len() as int;
    seq![0x52u8, 0x49, 0x46, 0x46] + le32(36 + data_len) + seq![0x57u8, 0x41, 0x56, 0x45]
        + seq![0x66u8, 0x6d, 0x74, 0x20] + le32(16) + le16(1) + le16(channels as int)
        + le32(sample_rate as int) + le32(sample_rate as int * 2 * channels as int)
        + le16(2 * channels as int) + le16(16) + seq![0x64u8, 0x61, 0x74, 0x61] + le32(data_len)
        + pcm_bytes(samples)
}

/// The container that hound writes for these samples.
pub uninterp spec fn wav_container(channels: u16, sample_rate: u32, samples: Seq<i16>) -> Seq<u8>;

#[verifier::external_type_specification]
#[verifier::external_body]
pub struct ExHoundError(hound::Error);

/// Relies on hound::WavWriter::new, write_sample and finalize over an
/// in-memory cursor, whose writes and seeks do not fail: the header is 44
/// bytes for one or two channels (RIFF, a PCMWAVEFORMAT `fmt ` chunk, the
/// `data` chunk header), each i16 sample is written as two little-endian
/// bytes, finalize writes the two chunk lengths, and it fails only when the
/// sample count is not a whole number of channel groups. The bounds keep hound's 32-bit arithmetic from overflowing.
#[verifier::external_body]
fn encode_wav(channels: u16, sample_rate: u32, samples: &Vec<i16>) -> (r: Result<Vec<u8>, hound::Error>)
    requires
        1 <= channels,
        1 <= sample_rate,
        sample_rate as int * channels as int * 2 <= u32::MAX,
        samples@.len() <= MAX_SAMPLES,
    ensures
        r is Ok <==> samples@.len() as int % channels as int == 0,
        r matches Ok(b) ==> b@ == wav_container(channels, sample_rate, samples@),
        r matches Ok(b) ==> (channels <= 2 ==> b@ == pcm16_container(channels, sample_rate, samples@)),
{
    let spec = hound::WavSpec { channels, sample_rate, bits_per_sample: 16, sample_format: hound::SampleFormat::Int };
    let mut cursor = std::io::Cursor::new(Vec::new());
    let mut writer = hound::WavWriter::new(&mut cursor, spec)?;
    for s in samples.iter() {
        writer.write_sample(*s)?;
    }
    writer.finalize()?;
    Ok(cursor.into_inner())
}

/// What a capture buffer holds: its samples, and whether it is finalized.
pub ghost struct SinkView {
    pub samples: Seq<i16>,
    pub finalized: bool,
}

/// One operation on a buffer, as the lock serializes them.
pub ghost enum SinkOp {
    Write(Seq<i16>),
    Finalize,
}

/// A write appends the whole frame while the buffer is open and has room
/// for it; otherwise it changes nothing.
pub open spec fn write_spec(v: SinkView, frame: Seq<i16>) -> SinkView {
    if v.finalized || v.samples.len() + frame.len() > MAX_SAMPLES {
        v
    } else {
        SinkView { samples: v.samples + frame, finalized: false }
    }
}

pub open spec fn step_spec(v: SinkView, op: SinkOp) -> SinkView {
    match op {
        SinkOp::Write(frame) => write_spec(v, frame),
        SinkOp::Finalize => SinkView { samples: v.samples, finalized: true },
    }
}

/// The buffer after a sequence of operations.
pub open spec fn run_spec(v: SinkView, ops: Seq<SinkOp>) -> SinkView
    decreases ops.len(),
{
    if ops.len() == 0 {
        v
    } else {
        run_spec(step_spec(v, ops[0]), ops.drop_first())
    }
}

/// The frames of the writes that come before the first finalize.
pub open spec fn frames_before_finalize(ops: Seq<SinkOp>) -> Seq<Seq<i16>>
    decreases ops.len(),
{
    if ops.len() == 0 {
        seq![]
    } else {
        match ops[0] {
            SinkOp::Write(frame) => seq![frame] + frames_before_finalize(ops.drop_first()),
            SinkOp::Finalize => seq![],
        }
    }
}

/// The number of samples over all writes.
pub open spec fn written_len(ops: Seq<SinkOp>) -> nat
    decreases ops.len(),
{
    if ops.len() == 0 {
        0
    } else {
        match ops[0] {
            SinkOp::Write(frame) => frame.len() + written_len(ops.drop_first()),
            SinkOp::Finalize => written_len(ops.drop_first()),
        }
    }
}

/// The frame as stored: each 32-bit sample taken to 16 bits.
pub open spec fn converted_spec(frame: Seq<i32>) -> Seq<i16> {
    frame.map_values(|x: i32| to_i16_spec(x) as i16)
}

/// A capture buffer, created open when capture starts, filled by the capture
/// callback, and finalized exactly once when capture stops.
pub struct CaptureBuffer {
    format: AudioFormat,
    samples: Vec<i16>,
    finalized: bool,
}

impl View for CaptureBuffer {
    type V = SinkView;

    closed spec fn view(&self) -> SinkView {
        SinkView { samples: self.samples@, finalized: self.finalized }
    }
}

impl CaptureBuffer {
    pub closed spec fn format_spec(&self) -> AudioFormat {
        self.format
    }

    /// A valid format and no more than the bound of samples.
    pub closed spec fn wf(&self) -> bool {
        self.format.wf() && self.samples@.len() <= MAX_SAMPLES
    }

    /// An open, empty buffer for `format`.
    pub fn new(format: AudioFormat) -> (r: CaptureBuffer)
        requires
            format.wf(),
        ensures
            r.wf(),
            r.format_spec() == format,
            r@ == (SinkView { samples: seq![], finalized: false }),
    {
        CaptureBuffer { format, samples: Vec::new(), finalized: false }
    }

    /// The format the buffer stores.
    pub fn format(&self) -> (r: AudioFormat)
        ensures
            r == self.format_spec(),
    {
        self.format
    }

    /// Whether the buffer was finalized.
    pub fn is_finalized(&self) -> (r: bool)
        ensures
            r == self@.finalized,
    {
        self.finalized
    }

    /// The number of samples held.
    pub fn sample_count(&self) -> (r: usize)
        ensures
            r == self@.samples.len(),
    {
        self.samples.len()
    }

    /// Appends a frame of 16-bit samples while open; once finalized, or when
    /// the frame would pass the bound, the frame is dropped.
    pub fn write(&mut self, frame: &[i16])
        requires
            old(self).wf(),
        ensures
            final(self).wf(),
            final(self).format_spec() == old(self).format_spec(),
            final(self)@ == write_spec(old(self)@, frame@),
    {
        if self.finalized || frame.len() > MAX_SAMPLES - self.samples.len() {
            return;
        }
        let ghost before = self.samples@;
        let mut i: usize = 0;
        while i < frame.len()
            invariant
                i <= frame@.len(),
                before.len() + frame@.len() <= MAX_SAMPLES,
                self.samples@ == before + frame@.subrange(0, i as int),
                self.format == old(self).format,
                self.finalized == old(self).finalized,
            decreases frame@.len() - i,
        {
            self.samples.push(frame[i]);
            i = i + 1;
            assert(self.samples@ =~= before + frame@.subrange(0, i as int));
        }
        assert(frame@.subrange(0, frame@.len() as int) =~= frame@);
    }

    /// Converts a frame of 32-bit samples to 16 bits and writes it.
    pub fn write_i32(&mut self, frame: &[i32])
        requires
            old(self).wf(),
        ensures
            final(self).wf(),
            final(self).format_spec() == old(self).format_spec(),
            final(self)@ == write_spec(old(self)@, converted_spec(frame@)),
    {
        let converted = convert_frame(frame);
        assert(converted@ =~= converted_spec(frame@));
        self.write(converted.as_slice());
    }

    /// Closes the buffer and returns the completed container. A second call
    /// fails with `AlreadyFinalized`; the buffer stays finalized either way.
    pub fn finalize(&mut self) -> (r: Result<Vec<u8>, PipelineError>)
        requires
            old(self).wf(),
        ensures
            final(self).wf(),
            final(self).format_spec() == old(self).format_spec(),
            final(self)@ == (SinkView { samples: old(self)@.samples, finalized: true }),
            old(self)@.finalized ==> r == Err::<Vec<u8>, PipelineError>(PipelineError::AlreadyFinalized),
            !old(self)@.finalized ==> (r is Ok <==> old(self)@.samples.len() as int
                % old(self).format_spec().channels as int == 0),
            !old(self)@.finalized ==> (r matches Err(e) ==> e == PipelineError::IoFailure),
            r matches Ok(b) ==> b@ == wav_container(
                old(self).format_spec().channels,
                old(self).format_spec().sample_rate,
                old(self)@.samples,
            ),
            r matches Ok(b) ==> (old(self).format_spec().channels <= 2 ==> b@ == pcm16_container(
                old(self).format_spec().channels,
                old(self).format_spec().sample_rate,
                old(self)@.samples,
            )),
    {
        if self.finalized {
            return Err(PipelineError::AlreadyFinalized);
        }
        self.finalized = true;
        match encode_wav(self.format.channels, self.format.sample_rate, &self.samples) {
            Ok(bytes) => Ok(bytes),
            Err(_) => Err(PipelineError::IoFailure),
        }
    }
}

proof fn lemma_pcm_bytes_len(samples: Seq<i16>)
    ensures
        pcm_bytes(samples).len() == 2 * samples.len(),
    decreases samples.len(),
{
    if samples.len() > 0 {
        lemma_pcm_bytes_len(samples.drop_first());
    }
}

/// A one- or two-channel container is 44 header bytes and two bytes per
/// sample.
pub proof fn law_container_len(channels: u16, sample_rate: u32, samples: Seq<i16>)
    ensures
        pcm16_container(channels, sample_rate, samples).len() == 44 + 2 * samples.len(),
{
    lemma_pcm_bytes_len(samples);
}

/// A 32-bit sample written to an open buffer with room is stored as one
/// 16-bit sample that, scaled back up, lies at most one 16-bit step below
/// the input and never above it.
pub proof fn law_stored_sample_within_step(v: SinkView, x: i32)
    requires
        !v.finalized,
        v.samples.len() + 1 <= MAX_SAMPLES,
    ensures
        ({
            let w = write_spec(v, converted_spec(seq![x]));
            &&& w.samples.len() == v.samples.len() + 1
            &&& w.samples.drop_last() == v.samples
            &&& to_i32_spec(w.samples.last()) <= x as int
            &&& x as int - to_i32_spec(w.samples.last()) < STEP
        }),
{
    law_round_trip(x, 0);
    let w = write_spec(v, converted_spec(seq![x]));
    assert(converted_spec(seq![x])[0] == to_i16_spec(x) as i16);
    assert(w.samples.drop_last() =~= v.samples);
}

/// The container of a one-channel 44100 Hz recording of `samples`: its 44
/// header bytes record the channel count, the rate and a data length of two
/// bytes per sample, and the samples follow in order.
pub proof fn law_recording_container(samples: Seq<i16>)
    ensures
        ({
            let c = pcm16_container(1, 44100, samples);
            &&& c.len() == 44 + 2 * samples.len()
            &&& c.subrange(22, 24) == le16(1)
            &&& c.subrange(24, 28) == le32(44100)
            &&& c.subrange(40, 44) == le32(2 * samples.len() as int)
            &&& c.subrange(44, c.len() as int) == pcm_bytes(samples)
        }),
{
    lemma_pcm_bytes_len(samples);
    let c = pcm16_container(1, 44100, samples);
    assert(c.subrange(22, 24) =~= le16(1));
    assert(c.subrange(24, 28) =~= le32(44100));
    assert(c.subrange(40, 44) =~= le32(2 * samples.len() as int));
    assert(c.subrange(44, c.len() as int) =~= pcm_bytes(samples));
}

/// Once a buffer is finalized, no later write or finalize changes it.
pub proof fn law_finalized_is_frozen(v: SinkView, ops: Seq<SinkOp>)
    requires
        v.finalized,
    ensures
        run_spec(v, ops) == v,
    decreases ops.len(),
{
    if ops.len() > 0 {
        law_finalized_is_frozen(step_spec(v, ops[0]), ops.drop_first());
    }
}

/// However writes from many producers and a finalize are ordered, the
/// samples kept are the whole frames written before the finalize, one after
/// another, never two frames mixed; the buffer ends finalized once a
/// finalize is among the operations.
pub proof fn law_whole_frames(v: SinkView, ops: Seq<SinkOp>)
    requires
        !v.finalized,
        v.samples.len() + written_len(ops) <= MAX_SAMPLES,
    ensures
        run_spec(v, ops).samples == v.samples + frames_before_finalize(ops).flatten(),
        ops.contains(SinkOp::Finalize) ==> run_spec(v, ops).finalized,
    decreases ops.len(),
{
    if ops.len() == 0 {
        assert(frames_before_finalize(ops).flatten() =~= seq![]);
        assert(v.samples + seq![] =~= v.samples);
    } else {
        let rest = ops.drop_first();
        match ops[0] {
            SinkOp::Write(frame) => {
                let w = step_spec(v, ops[0]);
                law_whole_frames(w, rest);
                let fs = frames_before_finalize(rest);
                assert(frames_before_finalize(ops) == seq![frame] + fs);
                assert((seq![frame] + fs).drop_first() =~= fs);
                assert((seq![frame] + fs).first() == frame);
                assert(v.samples + (frame + fs.flatten()) =~= (v.samples + frame) + fs.flatten());
                if ops.contains(SinkOp::Finalize) {
                    let i = choose|i: int| 0 <= i < ops.len() && ops[i] == SinkOp::Finalize;
                    assert(rest[i - 1] == SinkOp::Finalize);
                }
            }
            SinkOp::Finalize => {
                law_finalized_is_frozen(step_spec(v, ops[0]), rest);
                assert(frames_before_finalize(ops).flatten() =~= seq![]);
                assert(v.samples + seq![] =~= v.samples);
            }
        }
    }
}

} // verus!
