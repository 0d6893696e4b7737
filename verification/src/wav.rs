//! The PCM stream encoder: an incremental writer for an uncompressed audio
//! container holding 16-bit little-endian PCM samples.
//!
//! The writer accumulates raw sample bytes and defers the header's size
//! fields until [`WavWriter::finalize`]; [`WavWriter::container_bytes`] then
//! yields the complete container image, header patched, for the surrounding
//! process layer to persist.

use crate::errors::RecorderError;
use vstd::bytes::*;
use vstd::prelude::*;
use vstd::slice::slice_subrange;

verus! {

/// The header stores the data section's length in a 32-bit field, and the
/// enclosing chunk length adds 36 bytes of header past that field.
pub const MAX_DATA_BYTES: u64 = 0xFFFF_FFFF - 36;

/// A format the container can carry: positive rate and channel count, with
/// the derived per-second byte rate and per-frame block size in range of
/// their 32-bit and 16-bit header fields.
pub open spec fn valid_format(rate: u32, channels: u16) -> bool {
    &&& 1 <= rate
    &&& 1 <= channels
    &&& channels * 2 <= 0xFFFF
    &&& rate * channels * 2 <= 0xFFFF_FFFF
}

/// The 44-byte container header for the given format and data-section
/// length: the RIFF chunk, the format description fixed to 16-bit PCM, and
/// the data chunk's declared length.
pub open spec fn spec_wav_header(rate: u32, channels: u16, data_len: u32) -> Seq<u8>
    recommends
        valid_format(rate, channels),
        data_len <= MAX_DATA_BYTES,
{
    seq![0x52u8, 0x49u8, 0x46u8, 0x46u8]  // "RIFF"
    + spec_u32_to_le_bytes((data_len + 36) as u32)
    + seq![0x57u8, 0x41u8, 0x56u8, 0x45u8]  // "WAVE"
    + seq![0x66u8, 0x6du8, 0x74u8, 0x20u8]  // "fmt "
    + spec_u32_to_le_bytes(16u32)
    + spec_u16_to_le_bytes(1u16)  // PCM
    + spec_u16_to_le_bytes(channels)
    + spec_u32_to_le_bytes(rate)
    + spec_u32_to_le_bytes((rate * channels * 2) as u32)
    + spec_u16_to_le_bytes((channels * 2) as u16)
    + spec_u16_to_le_bytes(16u16)  // bits per sample
    + seq![0x64u8, 0x61u8, 0x74u8, 0x61u8]  // "data"
    + spec_u32_to_le_bytes(data_len)
}

/// Reads a header back: `Some((rate, channels, data_len))` when the first 44
/// bytes are a well-formed 16-bit PCM header whose derived fields are
/// mutually consistent, `None` otherwise.
pub open spec fn spec_parse_wav_header(bytes: Seq<u8>) -> Option<(u32, u16, u32)> {
    if bytes.len() < 44 {
        None
    } else {
        let riff_len = spec_u32_from_le_bytes(bytes.subrange(4, 8));
        let fmt_len = spec_u32_from_le_bytes(bytes.subrange(16, 20));
        let codec = spec_u16_from_le_bytes(bytes.subrange(20, 22));
        let channels = spec_u16_from_le_bytes(bytes.subrange(22, 24));
        let rate = spec_u32_from_le_bytes(bytes.subrange(24, 28));
        let byte_rate = spec_u32_from_le_bytes(bytes.subrange(28, 32));
        let block_align = spec_u16_from_le_bytes(bytes.subrange(32, 34));
        let bits = spec_u16_from_le_bytes(bytes.subrange(34, 36));
        let data_len = spec_u32_from_le_bytes(bytes.subrange(40, 44));
        if {
            &&& bytes[0] == 0x52u8 && bytes[1] == 0x49u8 && bytes[2] == 0x46u8 && bytes[3]
                == 0x46u8
            &&& bytes[8] == 0x57u8 && bytes[9] == 0x41u8 && bytes[10] == 0x56u8 && bytes[11]
                == 0x45u8
            &&& bytes[12] == 0x66u8 && bytes[13] == 0x6du8 && bytes[14] == 0x74u8 && bytes[15]
                == 0x20u8
            &&& bytes[36] == 0x64u8 && bytes[37] == 0x61u8 && bytes[38] == 0x74u8 && bytes[39]
                == 0x61u8
            &&& fmt_len == 16
            &&& codec == 1
            &&& valid_format(rate, channels)
            &&& riff_len == data_len + 36
            &&& byte_rate == rate * channels * 2
            &&& block_align == channels * 2
            &&& bits == 16
        } {
            Some((rate, channels, data_len))
        } else {
            None
        }
    }
}

/// A complete container image: a parsable header whose declared data length
/// matches exactly the bytes that follow it.
pub open spec fn spec_wav_container_ok(bytes: Seq<u8>) -> bool {
    match spec_parse_wav_header(bytes) {
        Some((rate, channels, data_len)) => bytes.len() == 44 + data_len,
        None => false,
    }
}

/// Whole seconds and milliseconds are derived from the sample count as
/// `total_samples / (rate * channels)`; this is that quotient in
/// milliseconds, rounded down.
pub open spec fn spec_duration_millis(data_len: nat, rate: u32, channels: u16) -> int
    recommends
        valid_format(rate, channels),
{
    (((data_len / 2) * 1000) as int) / ((rate * channels) as int)
}

/// Builds the 44-byte header for the given format and data length.
pub fn make_wav_header(rate: u32, channels: u16, data_len: u32) -> (h: Vec<u8>)
    requires
        valid_format(rate, channels),
        data_len <= MAX_DATA_BYTES,
    ensures
        h@ == spec_wav_header(rate, channels, data_len),
        h@.len() == 44,
{
    proof {
        lemma_auto_spec_u16_to_from_le_bytes();
        lemma_auto_spec_u32_to_from_le_bytes();
    }
    let mut h: Vec<u8> = Vec::new();
    h.push(0x52);
    h.push(0x49);
    h.push(0x46);
    h.push(0x46);
    let mut riff_len = u32_to_le_bytes(data_len + 36);
    h.append(&mut riff_len);
    h.push(0x57);
    h.push(0x41);
    h.push(0x56);
    h.push(0x45);
    h.push(0x66);
    h.push(0x6d);
    h.push(0x74);
    h.push(0x20);
    let mut fmt_len = u32_to_le_bytes(16);
    h.append(&mut fmt_len);
    let mut codec = u16_to_le_bytes(1);
    h.append(&mut codec);
    let mut channel_field = u16_to_le_bytes(channels);
    h.append(&mut channel_field);
    let mut rate_field = u32_to_le_bytes(rate);
    h.append(&mut rate_field);
    let mut byte_rate = u32_to_le_bytes(rate * (channels as u32) * 2);
    h.append(&mut byte_rate);
    let mut block_align = u16_to_le_bytes(channels * 2);
    h.append(&mut block_align);
    let mut bits = u16_to_le_bytes(16);
    h.append(&mut bits);
    h.push(0x64);
    h.push(0x61);
    h.push(0x74);
    h.push(0x61);
    let mut data_len_field = u32_to_le_bytes(data_len);
    h.append(&mut data_len_field);
    proof {
        assert(h@ =~= spec_wav_header(rate, channels, data_len));
    }
    h
}

/// Reads the header of a container image, checking the same conditions as
/// [`spec_parse_wav_header`].
pub fn parse_wav_header(bytes: &Vec<u8>) -> (r: Option<(u32, u16, u32)>)
    ensures
        r == spec_parse_wav_header(bytes@),
{
    proof {
        lemma_auto_spec_u16_to_from_le_bytes();
        lemma_auto_spec_u32_to_from_le_bytes();
    }
    if bytes.len() < 44 {
        return None;
    }
    let riff_len = u32_from_le_bytes(slice_subrange(bytes.as_slice(), 4, 8));
    let fmt_len = u32_from_le_bytes(slice_subrange(bytes.as_slice(), 16, 20));
    let codec = u16_from_le_bytes(slice_subrange(bytes.as_slice(), 20, 22));
    let channels = u16_from_le_bytes(slice_subrange(bytes.as_slice(), 22, 24));
    let rate = u32_from_le_bytes(slice_subrange(bytes.as_slice(), 24, 28));
    let byte_rate = u32_from_le_bytes(slice_subrange(bytes.as_slice(), 28, 32));
    let block_align = u16_from_le_bytes(slice_subrange(bytes.as_slice(), 32, 34));
    let bits = u16_from_le_bytes(slice_subrange(bytes.as_slice(), 34, 36));
    let data_len = u32_from_le_bytes(slice_subrange(bytes.as_slice(), 40, 44));
    proof {
        assert((rate as u64) * (channels as u64) * 2 <= 0xFFFF_FFFFu64 * 0xFFFFu64 * 2)
            by (nonlinear_arith)
            requires
                rate <= 0xFFFF_FFFFu64,
                channels <= 0xFFFFu64,
        ;
    }
    let magics_ok = *bytes.get(0).unwrap() == 0x52 && *bytes.get(1).unwrap() == 0x49
        && *bytes.get(2).unwrap() == 0x46 && *bytes.get(3).unwrap() == 0x46 && *bytes.get(
        8,
    ).unwrap() == 0x57 && *bytes.get(9).unwrap() == 0x41 && *bytes.get(10).unwrap() == 0x56
        && *bytes.get(11).unwrap() == 0x45 && *bytes.get(12).unwrap() == 0x66 && *bytes.get(
        13,
    ).unwrap() == 0x6d && *bytes.get(14).unwrap() == 0x74 && *bytes.get(15).unwrap() == 0x20
        && *bytes.get(36).unwrap() == 0x64 && *bytes.get(37).unwrap() == 0x61 && *bytes.get(
        38,
    ).unwrap() == 0x74 && *bytes.get(39).unwrap() == 0x61;
    let format_ok = 1 <= rate && 1 <= channels && (channels as u32) * 2 <= 0xFFFF && (rate as u64)
        * (channels as u64) * 2 <= 0xFFFF_FFFF;
    let fields_ok = fmt_len == 16 && codec == 1 && (riff_len as u64) == (data_len as u64) + 36 && (
    byte_rate as u64) == (rate as u64) * (channels as u64) * 2 && (block_align as u32) == (
    channels as u32) * 2 && bits == 16;
    if magics_ok && format_ok && fields_ok {
        Some((rate, channels, data_len))
    } else {
        None
    }
}

/// A header built by [`spec_wav_header`] parses back to the format and
/// length it was built from, whatever data section follows it.
pub proof fn lemma_wav_header_round_trip(rate: u32, channels: u16, data_len: u32, tail: Seq<u8>)
    requires
        valid_format(rate, channels),
        data_len <= MAX_DATA_BYTES,
    ensures
        spec_parse_wav_header(spec_wav_header(rate, channels, data_len) + tail) == Some(
            (rate, channels, data_len),
        ),
{
    lemma_auto_spec_u16_to_from_le_bytes();
    lemma_auto_spec_u32_to_from_le_bytes();
    let h = spec_wav_header(rate, channels, data_len);
    let all = h + tail;
    assert(all.subrange(4, 8) =~= spec_u32_to_le_bytes((data_len + 36) as u32));
    assert(all.subrange(16, 20) =~= spec_u32_to_le_bytes(16u32));
    assert(all.subrange(20, 22) =~= spec_u16_to_le_bytes(1u16));
    assert(all.subrange(22, 24) =~= spec_u16_to_le_bytes(channels));
    assert(all.subrange(24, 28) =~= spec_u32_to_le_bytes(rate));
    assert(all.subrange(28, 32) =~= spec_u32_to_le_bytes((rate * channels * 2) as u32));
    assert(all.subrange(32, 34) =~= spec_u16_to_le_bytes((channels * 2) as u16));
    assert(all.subrange(34, 36) =~= spec_u16_to_le_bytes(16u16));
    assert(all.subrange(40, 44) =~= spec_u32_to_le_bytes(data_len));
}

/// Parsing is also sound: bytes whose header parses begin with exactly the
/// header that the parsed format and length rebuild — every one of the 44
/// header bytes is determined by the parse result.
pub proof fn lemma_parse_header_sound(bytes: Seq<u8>, rate: u32, channels: u16, data_len: u32)
    requires
        spec_parse_wav_header(bytes) == Some((rate, channels, data_len)),
    ensures
        valid_format(rate, channels),
        data_len <= MAX_DATA_BYTES,
        bytes.subrange(0, 44) == spec_wav_header(rate, channels, data_len),
{
    lemma_auto_spec_u16_to_from_le_bytes();
    lemma_auto_spec_u32_to_from_le_bytes();
    assert(spec_u32_to_le_bytes((data_len + 36) as u32) =~= bytes.subrange(4, 8));
    assert(spec_u32_to_le_bytes(16u32) =~= bytes.subrange(16, 20));
    assert(spec_u16_to_le_bytes(1u16) =~= bytes.subrange(20, 22));
    assert(spec_u16_to_le_bytes(channels) =~= bytes.subrange(22, 24));
    assert(spec_u32_to_le_bytes(rate) =~= bytes.subrange(24, 28));
    assert(spec_u32_to_le_bytes((rate * channels * 2) as u32) =~= bytes.subrange(28, 32));
    assert(spec_u16_to_le_bytes((channels * 2) as u16) =~= bytes.subrange(32, 34));
    assert(spec_u16_to_le_bytes(16u16) =~= bytes.subrange(34, 36));
    assert(spec_u32_to_le_bytes(data_len) =~= bytes.subrange(40, 44));
    assert(bytes.subrange(0, 44) =~= spec_wav_header(rate, channels, data_len));
}

/// The observable state of a [`WavWriter`]: its fixed format, the sample
/// bytes accepted so far, and whether the header has been finalized.
#[verifier::ext_equal]
pub ghost struct WavWriterView {
    pub rate: u32,
    pub channels: u16,
    pub data: Seq<u8>,
    pub finalized: bool,
}

/// The incremental container writer.
///
/// Sample bytes are appended by [`WavWriter::write_samples`]; the header's
/// size fields stay pending until [`WavWriter::finalize`]. After
/// finalization, further writes are refused.
pub struct WavWriter {
    sample_rate: u32,
    channels: u16,
    data: Vec<u8>,
    finalized: bool,
}

impl View for WavWriter {
    type V = WavWriterView;

    closed spec fn view(&self) -> WavWriterView {
        WavWriterView {
            rate: self.sample_rate,
            channels: self.channels,
            data: self.data@,
            finalized: self.finalized,
        }
    }
}

/// Whether a write of `n` more bytes is accepted: the writer is not yet
/// finalized, the bytes form whole 16-bit samples, and the data section
/// stays within the header's 32-bit length field.
pub open spec fn spec_write_accepts(w: WavWriterView, n: nat) -> bool {
    &&& !w.finalized
    &&& n % 2 == 0
    &&& w.data.len() + n <= MAX_DATA_BYTES
}

/// The error a refused write reports: writes after finalization are out of
/// sequence, odd byte counts are a format error, and anything else is the
/// data section running out of room.
pub open spec fn spec_write_error(w: WavWriterView, n: nat) -> RecorderError {
    if w.finalized {
        RecorderError::InvalidState
    } else if n % 2 != 0 {
        RecorderError::Configuration
    } else {
        RecorderError::Io
    }
}

/// The writer's invariant over its observable state: a representable
/// format and a data section of whole samples within the header's length
/// field.
pub open spec fn wav_view_wf(w: WavWriterView) -> bool {
    &&& valid_format(w.rate, w.channels)
    &&& w.data.len() <= MAX_DATA_BYTES
    &&& w.data.len() % 2 == 0
}

impl WavWriter {
    /// The writer's invariant: see [`wav_view_wf`].
    pub open spec fn wf(&self) -> bool {
        wav_view_wf(self@)
    }

    /// Opens a writer for the given format with an empty data section.
    pub fn new(sample_rate: u32, channels: u16) -> (r: Result<WavWriter, RecorderError>)
        ensures
            valid_format(sample_rate, channels) ==> (r matches Ok(w) && {
                &&& w.wf()
                &&& w@.rate == sample_rate
                &&& w@.channels == channels
                &&& w@.data.len() == 0
                &&& !w@.finalized
            }),
            !valid_format(sample_rate, channels) ==> (r matches Err(e) && e
                == RecorderError::Configuration),
    {
        proof {
            assert((sample_rate as u64) * (channels as u64) * 2 <= 0xFFFF_FFFFu64 * 0xFFFFu64 * 2)
                by (nonlinear_arith)
                requires
                    sample_rate <= 0xFFFF_FFFFu64,
                    channels <= 0xFFFFu64,
            ;
        }
        if 1 <= sample_rate && 1 <= channels && (channels as u32) * 2 <= 0xFFFF && (
        sample_rate as u64) * (channels as u64) * 2 <= 0xFFFF_FFFF {
            Ok(
                WavWriter {
                    sample_rate,
                    channels,
                    data: Vec::new(),
                    finalized: false,
                },
            )
        } else {
            Err(RecorderError::Configuration)
        }
    }

    /// Appends a buffer of raw sample bytes to the data section. A refused
    /// buffer leaves the writer unchanged.
    pub fn write_samples(&mut self, samples: &[u8]) -> (r: Result<(), RecorderError>)
        requires
            old(self).wf(),
        ensures
            final(self).wf(),
            final(self)@.rate == old(self)@.rate,
            final(self)@.channels == old(self)@.channels,
            final(self)@.finalized == old(self)@.finalized,
            spec_write_accepts(old(self)@, samples@.len()) ==> (r matches Ok(_)
                && final(self)@.data == old(self)@.data + samples@),
            !spec_write_accepts(old(self)@, samples@.len()) ==> (r matches Err(e)
                && e == spec_write_error(old(self)@, samples@.len())
                && final(self)@.data == old(self)@.data),
    {
        if self.finalized {
            return Err(RecorderError::InvalidState);
        }
        if samples.len() % 2 != 0 {
            return Err(RecorderError::Configuration);
        }
        if (samples.len() as u64) > MAX_DATA_BYTES - (self.data.len() as u64) {
            return Err(RecorderError::Io);
        }
        let ghost prior = self.data@;
        let mut i: usize = 0;
        while i < samples.len()
            invariant
                i <= samples@.len(),
                self.data@ == prior + samples@.subrange(0, i as int),
                prior.len() + samples@.len() <= MAX_DATA_BYTES,
                self.sample_rate == old(self)@.rate,
                self.channels == old(self)@.channels,
                self.finalized == old(self)@.finalized,
            decreases samples@.len() - i,
        {
            self.data.push(samples[i]);
            i = i + 1;
            proof {
                assert(self.data@ =~= prior + samples@.subrange(0, i as int));
            }
        }
        proof {
            assert(samples@.subrange(0, samples@.len() as int) =~= samples@);
        }
        Ok(())
    }

    /// Marks the container finished: the header's size fields become
    /// patchable from the accumulated byte count. Finalizing an already
    /// finalized writer changes nothing and still succeeds.
    pub fn finalize(&mut self) -> (r: Result<(), RecorderError>)
        requires
            old(self).wf(),
        ensures
            final(self).wf(),
            r matches Ok(_),
            final(self)@.rate == old(self)@.rate,
            final(self)@.channels == old(self)@.channels,
            final(self)@.data == old(self)@.data,
            final(self)@.finalized,
    {
        self.finalized = true;
        Ok(())
    }

    /// The number of 16-bit samples accepted so far.
    pub fn total_samples(&self) -> (r: u64)
        requires
            self.wf(),
        ensures
            r == self@.data.len() / 2,
    {
        (self.data.len() as u64) / 2
    }

    /// The recording's length in whole milliseconds, rounded down.
    pub fn duration_millis(&self) -> (r: u64)
        requires
            self.wf(),
        ensures
            r == spec_duration_millis(self@.data.len(), self@.rate, self@.channels),
    {
        let samples: u64 = (self.data.len() as u64) / 2;
        proof {
            assert((self.sample_rate as u64) * (self.channels as u64) >= 1 && (
            self.sample_rate as u64) * (self.channels as u64) <= 0xFFFF_FFFFu64 * 0xFFFFu64)
                by (nonlinear_arith)
                requires
                    1 <= self.sample_rate <= 0xFFFF_FFFFu64,
                    1 <= self.channels <= 0xFFFFu64,
            ;
        }
        let denom: u64 = (self.sample_rate as u64) * (self.channels as u64);
        (samples * 1000) / denom
    }

    /// The format and duration of the recording: sample rate, channel
    /// count, and milliseconds.
    pub fn get_metadata(&self) -> (r: (u32, u16, u64))
        requires
            self.wf(),
        ensures
            r.0 == self@.rate,
            r.1 == self@.channels,
            r.2 == spec_duration_millis(self@.data.len(), self@.rate, self@.channels),
    {
        (self.sample_rate, self.channels, self.duration_millis())
    }

    /// The sample rate the writer was opened with.
    pub fn sample_rate(&self) -> (r: u32)
        ensures
            r == self@.rate,
    {
        self.sample_rate
    }

    /// The channel count the writer was opened with.
    pub fn channels(&self) -> (r: u16)
        ensures
            r == self@.channels,
    {
        self.channels
    }

    /// Whether the writer has been finalized.
    pub fn is_finalized(&self) -> (r: bool)
        ensures
            r == self@.finalized,
    {
        self.finalized
    }

    /// The complete container image: the patched header followed by the
    /// data section. Only a finalized writer has a settled header.
    pub fn container_bytes(&self) -> (r: Vec<u8>)
        requires
            self.wf(),
            self@.finalized,
        ensures
            r@ == spec_wav_header(self@.rate, self@.channels, self@.data.len() as u32)
                + self@.data,
            r@.len() == 44 + self@.data.len(),
            spec_wav_container_ok(r@),
    {
        let mut out = make_wav_header(self.sample_rate, self.channels, self.data.len() as u32);
        let ghost header = out@;
        let mut i: usize = 0;
        while i < self.data.len()
            invariant
                i <= self@.data.len(),
                out@ == header + self@.data.subrange(0, i as int),
            decreases self@.data.len() - i,
        {
            out.push(self.data[i]);
            i = i + 1;
            proof {
                assert(out@ =~= header + self@.data.subrange(0, i as int));
            }
        }
        proof {
            assert(self@.data.subrange(0, self@.data.len() as int) =~= self@.data);
            lemma_wav_header_round_trip(
                self@.rate,
                self@.channels,
                self@.data.len() as u32,
                self@.data,
            );
        }
        out
    }
}

} // verus!
