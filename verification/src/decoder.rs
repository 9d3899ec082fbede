use vstd::prelude::*;

use crate::{PlaybackInstructions, ReceivedData};

verus! {

#[verifier::external_type_specification]
#[verifier::external_body]
pub struct ExMetadataRevision(symphonia::core::meta::MetadataRevision);

#[verifier::external_type_specification]
#[verifier::external_body]
pub struct ExMediaSourceStream(symphonia::core::io::MediaSourceStream);

#[verifier::external_type_specification]
#[verifier::external_body]
pub struct ExPacket(symphonia::core::formats::Packet);

#[verifier::external_type_specification]
#[verifier::external_body]
pub struct ExSymphoniaError(symphonia::core::errors::Error);

#[verifier::external_type_specification]
#[verifier::external_body]
#[verifier::reject_recursive_types(T)]
pub struct ExTokioSender<T>(tokio::sync::mpsc::Sender<T>);

#[verifier::external_type_specification]
#[verifier::external_body]
#[verifier::reject_recursive_types(T)]
pub struct ExStdReceiver<T>(std::sync::mpsc::Receiver<T>);

/// A decode-path failure, by kind. A `DecodeFailure` is transient and retried
/// up to the budget; every other kind is fatal at once.
#[derive(Clone, Copy, Debug, PartialEq, Eq, Structural)]
pub enum DecoderError {
    IoFailure,
    DecodeFailure,
    SeekFailure,
    UnsupportedFormat,
    LimitReached,
    ResetRequired,
    NoStreams,
}

/// One decoded packet's interleaved samples together with its signal spec,
/// which may legitimately change from packet to packet.
pub struct SampleChunk {
    pub samples: Vec<i16>,
    pub channels: u16,
    pub rate: u32,
}

/// The kind of telemetry event the decoder offers to the event channel.
pub enum EventKind {
    MetadataEvent,
    TimestampEvent,
}

/// Decode errors in more than this many consecutive packets are fatal.
pub const MAX_DECODE_ERRORS: u32 = 3;

/// Owns the container demuxer produced by probing; its inner state is opaque
/// to verification and reached only through the trusted calls below.
#[verifier::external_body]
struct FormatHandle {
    reader: Box<dyn symphonia::core::formats::FormatReader>,
}

/// Owns the codec decoder for the selected track; opaque to verification.
#[verifier::external_body]
struct CodecHandle {
    decoder: Box<dyn symphonia::core::codecs::Decoder>,
}

/// Relies on the shape of symphonia's error type: each of its variants is
/// carried over to the failure kind of this library that stands for it.
#[verifier::external_body]
fn error_kind(e: &symphonia::core::errors::Error) -> (r: DecoderError) {
    match e {
        symphonia::core::errors::Error::IoError(_) => DecoderError::IoFailure,
        symphonia::core::errors::Error::DecodeError(_) => DecoderError::DecodeFailure,
        symphonia::core::errors::Error::SeekError(_) => DecoderError::SeekFailure,
        symphonia::core::errors::Error::Unsupported(_) => DecoderError::UnsupportedFormat,
        symphonia::core::errors::Error::LimitError(_) => DecoderError::LimitReached,
        symphonia::core::errors::Error::ResetRequired => DecoderError::ResetRequired,
    }
}

/// Relies on symphonia's `get_probe().format(...)`: probes the source for a
/// supported container format and yields its demuxer, together with the latest
/// metadata revision read during the probe, if the stream carried one
/// (`ProbedMetadata::get` and `Metadata::skip_to_latest`).
#[verifier::external_body]
fn probe_format(mss: symphonia::core::io::MediaSourceStream) -> (r: Result<
    (FormatHandle, Option<symphonia::core::meta::MetadataRevision>),
    symphonia::core::errors::Error,
>) {
    let hint = symphonia::core::probe::Hint::new();
    let format_opts: symphonia::core::formats::FormatOptions = Default::default();
    let metadata_opts: symphonia::core::meta::MetadataOptions = Default::default();
    match symphonia::default::get_probe().format(&hint, mss, &format_opts, &metadata_opts) {
        Ok(mut probed) => {
            let revision = probed.metadata.get().and_then(|mut m| m.skip_to_latest().cloned());
            Ok((FormatHandle { reader: probed.format }, revision))
        },
        Err(e) => Err(e),
    }
}

/// Relies on `FormatReader::default_track` and `get_codecs().make(...)`: picks
/// the default elementary stream, if any, and builds a decoder for its codec
/// parameters, requesting output verification.
#[verifier::external_body]
fn make_codec(format: &FormatHandle) -> (r: Result<
    Option<CodecHandle>,
    symphonia::core::errors::Error,
>) {
    let track = match format.reader.default_track() {
        Some(t) => t,
        None => return Ok(None),
    };
    let opts = symphonia::core::codecs::DecoderOptions { verify: true };
    match symphonia::default::get_codecs().make(&track.codec_params, &opts) {
        Ok(d) => Ok(Some(CodecHandle { decoder: d })),
        Err(e) => Err(e),
    }
}

/// Relies on `FormatReader::next_packet`: pulls the next packet of the
/// container, in stream order.
#[verifier::external_body]
fn read_packet(format: &mut FormatHandle) -> (r: Result<
    symphonia::core::formats::Packet,
    symphonia::core::errors::Error,
>) {
    format.reader.next_packet()
}

/// Relies on `Packet::ts`: the packet's native timestamp.
pub assume_specification[ symphonia::core::formats::Packet::ts ](
    p: &symphonia::core::formats::Packet,
) -> u64;

/// Relies on `Decoder::decode`, `SampleBuffer::copy_interleaved_ref` and
/// `AudioBufferRef::spec`: decodes one packet and converts the decoded audio
/// into plain interleaved samples with their channel count and sample rate.
#[verifier::external_body]
fn decode_packet(codec: &mut CodecHandle, packet: &symphonia::core::formats::Packet) -> (r: Result<
    SampleChunk,
    symphonia::core::errors::Error,
>) {
    let decoded = codec.decoder.decode(packet)?;
    let spec = *decoded.spec();
    let duration = decoded.capacity() as u64;
    let mut buf = symphonia::core::audio::SampleBuffer::<i16>::new(duration, spec);
    buf.copy_interleaved_ref(decoded);
    let samples = buf.samples().to_vec();
    Ok(SampleChunk { samples, channels: spec.channels.count() as u16, rate: spec.rate })
}

/// Relies on `FormatReader::seek` in accurate mode: repositions the demuxer as
/// close as possible to the requested time. Callers treat the move as best
/// effort and ignore failure.
#[verifier::external_body]
fn seek_to_seconds(format: &mut FormatHandle, seconds: u64) -> (r: bool) {
    let to = symphonia::core::formats::SeekTo::Time {
        time: symphonia::core::units::Time::from(seconds),
        track_id: None,
    };
    format.reader.seek(symphonia::core::formats::SeekMode::Accurate, to).is_ok()
}

/// Relies on tokio's bounded `Sender::blocking_send`: hands the metadata event
/// over, waiting until the channel has room, so the consumer observes it; a
/// closed channel is ignored, metadata delivery failure is not fatal to
/// decoding. Must be called from outside an asynchronous runtime.
#[verifier::external_body]
fn send_metadata(
    tx: &tokio::sync::mpsc::Sender<ReceivedData>,
    revision: symphonia::core::meta::MetadataRevision,
) {
    let _ = tx.blocking_send(ReceivedData::NewMetadata(revision));
}

/// Relies on tokio's `Sender::try_send`: offers the timestamp event only if
/// the channel has room, dropping it otherwise, so telemetry never blocks
/// decoding.
#[verifier::external_body]
fn send_timestamp(tx: &tokio::sync::mpsc::Sender<ReceivedData>, ts: u64) {
    let _ = tx.try_send(ReceivedData::NewTimestamp(ts));
}

/// Relies on std's `mpsc::Receiver::try_recv`: takes one pending instruction
/// off the seek side channel without blocking, if one is waiting.
#[verifier::external_body]
fn try_recv_instruction(rx: &std::sync::mpsc::Receiver<PlaybackInstructions>) -> (r: Option<
    PlaybackInstructions,
>) {
    rx.try_recv().ok()
}

/// One step of the bounded retry policy: a malformed packet either consumes
/// one unit of retry budget or, once the budget is spent, becomes fatal.
pub fn bump_decode_errors(decode_errors: u32) -> (r: Option<u32>)
    ensures
        decode_errors < MAX_DECODE_ERRORS ==> r == Some((decode_errors + 1) as u32),
        decode_errors >= MAX_DECODE_ERRORS ==> r is None,
{
    if decode_errors < MAX_DECODE_ERRORS {
        Some(decode_errors + 1)
    } else {
        None
    }
}

/// The outcome of one attempt to pull the next packet and decode it.
#[derive(Clone, Copy, Debug, PartialEq, Eq, Structural)]
pub enum PacketOutcome {
    /// The packet decoded successfully.
    Decoded,
    /// The packet was malformed: a transient decode error.
    Malformed,
    /// Pulling or decoding failed with a non-decode error.
    Failed,
}

/// What the bounded retry policy decides for a stream of attempt outcomes,
/// with the index of the attempt the decision fell on.
pub enum RetryVerdict {
    /// The attempt at this index decoded and its samples are yielded.
    Accepted(int),
    /// The attempt at this index exhausted the retry budget: fatal.
    GaveUp(int),
    /// The attempt at this index failed with a non-decode error: fatal at once.
    Stopped(int),
    /// The outcomes ran out before the policy decided.
    Starved,
}

/// The same verdict with its index moved `k` attempts later.
pub open spec fn shift_verdict(v: RetryVerdict, k: int) -> RetryVerdict {
    match v {
        RetryVerdict::Accepted(i) => RetryVerdict::Accepted(i + k),
        RetryVerdict::GaveUp(i) => RetryVerdict::GaveUp(i + k),
        RetryVerdict::Stopped(i) => RetryVerdict::Stopped(i + k),
        RetryVerdict::Starved => RetryVerdict::Starved,
    }
}

/// The bounded retry policy over a sequence of attempt outcomes, entered with
/// `errors` consecutive decode errors already counted: the first decodable
/// attempt is accepted, a malformed attempt beyond the budget or any
/// non-decode failure is fatal.
pub open spec fn retry_verdict(outcomes: Seq<PacketOutcome>, errors: int) -> RetryVerdict
    decreases outcomes.len(),
{
    if outcomes.len() == 0 {
        RetryVerdict::Starved
    } else {
        match outcomes[0] {
            PacketOutcome::Decoded => RetryVerdict::Accepted(0),
            PacketOutcome::Failed => RetryVerdict::Stopped(0),
            PacketOutcome::Malformed => if errors >= MAX_DECODE_ERRORS {
                RetryVerdict::GaveUp(0)
            } else {
                shift_verdict(retry_verdict(outcomes.drop_first(), errors + 1), 1)
            },
        }
    }
}

/// The exec mirror of a retry verdict.
#[derive(Clone, Copy, Debug, PartialEq, Eq, Structural)]
pub enum RetryResult {
    Accepted(usize),
    GaveUp(usize),
    Stopped(usize),
    Starved,
}

/// Replays the bounded retry policy over a recorded sequence of per-attempt
/// outcomes, exactly as the decoder applies it to live packets.
pub fn run_retry(outcomes: &Vec<PacketOutcome>) -> (r: RetryResult)
    ensures
        ({
            let v = retry_verdict(outcomes@, 0);
            match r {
                RetryResult::Accepted(i) => v == RetryVerdict::Accepted(i as int),
                RetryResult::GaveUp(i) => v == RetryVerdict::GaveUp(i as int),
                RetryResult::Stopped(i) => v == RetryVerdict::Stopped(i as int),
                RetryResult::Starved => v == RetryVerdict::Starved,
            }
        }),
{
    let mut i: usize = 0;
    let mut errors: u32 = 0;
    proof {
        assert(outcomes@.skip(0) =~= outcomes@);
    }
    while i < outcomes.len()
        invariant
            i <= outcomes@.len(),
            errors <= MAX_DECODE_ERRORS,
            retry_verdict(outcomes@, 0) == shift_verdict(
                retry_verdict(outcomes@.skip(i as int), errors as int),
                i as int,
            ),
        decreases outcomes@.len() - i,
    {
        let ghost suffix = outcomes@.skip(i as int);
        proof {
            assert(suffix[0] == outcomes@[i as int]);
            assert(suffix.drop_first() =~= outcomes@.skip(i as int + 1));
        }
        match outcomes[i] {
            PacketOutcome::Decoded => {
                return RetryResult::Accepted(i);
            },
            PacketOutcome::Failed => {
                return RetryResult::Stopped(i);
            },
            PacketOutcome::Malformed => {
                match bump_decode_errors(errors) {
                    Some(n) => {
                        errors = n;
                    },
                    None => {
                        return RetryResult::GaveUp(i);
                    },
                }
            },
        }
        i = i + 1;
    }
    proof {
        assert(outcomes@.skip(i as int) =~= Seq::<PacketOutcome>::empty());
    }
    RetryResult::Starved
}

/// Law: a stream whose first decodable packet follows exactly three malformed
/// packets is still accepted, at that fourth packet.
pub proof fn lemma_three_malformed_then_accepted(outcomes: Seq<PacketOutcome>)
    requires
        outcomes.len() >= 4,
        outcomes[0] == PacketOutcome::Malformed,
        outcomes[1] == PacketOutcome::Malformed,
        outcomes[2] == PacketOutcome::Malformed,
        outcomes[3] == PacketOutcome::Decoded,
    ensures
        retry_verdict(outcomes, 0) == RetryVerdict::Accepted(3),
{
    let s1 = outcomes.drop_first();
    let s2 = s1.drop_first();
    let s3 = s2.drop_first();
    assert(s1[0] == outcomes[1]);
    assert(s2[0] == outcomes[2]);
    assert(s3[0] == outcomes[3]);
    assert(retry_verdict(s3, 3) == RetryVerdict::Accepted(0));
    assert(retry_verdict(s2, 2) == RetryVerdict::Accepted(1));
    assert(retry_verdict(s1, 1) == RetryVerdict::Accepted(2));
}

/// Law: four consecutive malformed packets exhaust the retry budget, a fatal
/// decode failure at the fourth.
pub proof fn lemma_four_malformed_gives_up(outcomes: Seq<PacketOutcome>)
    requires
        outcomes.len() >= 4,
        outcomes[0] == PacketOutcome::Malformed,
        outcomes[1] == PacketOutcome::Malformed,
        outcomes[2] == PacketOutcome::Malformed,
        outcomes[3] == PacketOutcome::Malformed,
    ensures
        retry_verdict(outcomes, 0) == RetryVerdict::GaveUp(3),
{
    let s1 = outcomes.drop_first();
    let s2 = s1.drop_first();
    let s3 = s2.drop_first();
    assert(s1[0] == outcomes[1]);
    assert(s2[0] == outcomes[2]);
    assert(s3[0] == outcomes[3]);
    assert(retry_verdict(s3, 3) == RetryVerdict::GaveUp(0));
    assert(retry_verdict(s2, 2) == RetryVerdict::GaveUp(1));
    assert(retry_verdict(s1, 1) == RetryVerdict::GaveUp(2));
}

/// Shifting a verdict twice shifts it by the sum.
proof fn lemma_shift_compose(v: RetryVerdict, a: int, b: int)
    ensures
        shift_verdict(shift_verdict(v, a), b) == shift_verdict(v, a + b),
{
}

/// Skipping a leading run of `k` malformed attempts that stays under the
/// retry threshold: the policy's answer for the whole sequence is its answer
/// for the remainder, with `k` more errors counted and indices `k` later.
proof fn lemma_verdict_skip_malformed(s: Seq<PacketOutcome>, errors: int, k: int)
    requires
        0 <= errors,
        0 <= k <= s.len(),
        errors + k <= MAX_DECODE_ERRORS,
        forall|i: int| 0 <= i < k ==> s[i] == PacketOutcome::Malformed,
    ensures
        retry_verdict(s, errors) == shift_verdict(retry_verdict(s.skip(k), errors + k), k),
    decreases k,
{
    if k == 0 {
        assert(s.skip(0) =~= s);
    } else {
        assert(forall|i: int|
            0 <= i < k - 1 ==> s.drop_first()[i] == PacketOutcome::Malformed);
        lemma_verdict_skip_malformed(s.drop_first(), errors + 1, k - 1);
        assert(s.drop_first().skip(k - 1) =~= s.skip(k));
        lemma_shift_compose(retry_verdict(s.skip(k), errors + k), k - 1, 1);
    }
}

/// Pulls and decodes packets until one decodes, applying the bounded retry
/// policy: a malformed packet consumes retry budget, anything else is fatal.
/// Yields the decoded samples and the packet's native timestamp, together
/// with the recorded attempt outcomes; the result is exactly the policy's
/// verdict on those outcomes.
fn decode_next_chunk(format: &mut FormatHandle, codec: &mut CodecHandle) -> (r: (
    Result<(SampleChunk, u64), DecoderError>,
    Ghost<Seq<PacketOutcome>>,
))
    ensures
        ({
            let verdict = retry_verdict(r.1@, 0);
            &&& (r.0 is Ok ==> verdict is Accepted)
            &&& (r.0 is Err ==> verdict is GaveUp || verdict is Stopped)
            &&& (verdict is GaveUp ==> r.0 == Err::<(SampleChunk, u64), DecoderError>(
                DecoderError::DecodeFailure,
            ))
        }),
{
    let mut decode_errors: u32 = 0;
    let ghost mut attempts: Seq<PacketOutcome> = Seq::empty();
    loop
        invariant
            decode_errors <= MAX_DECODE_ERRORS,
            attempts.len() == decode_errors,
            forall|i: int| 0 <= i < attempts.len() ==> attempts[i] == PacketOutcome::Malformed,
        decreases MAX_DECODE_ERRORS - decode_errors,
    {
        let ghost k = attempts.len() as int;
        let packet = match read_packet(format) {
            Ok(p) => p,
            Err(e) => {
                let kind = error_kind(&e);
                proof {
                    attempts = attempts.push(PacketOutcome::Failed);
                    lemma_verdict_skip_malformed(attempts, 0, k);
                    assert(attempts.skip(k) =~= seq![PacketOutcome::Failed]);
                }
                return (Err(kind), Ghost(attempts));
            },
        };
        let ts = packet.ts();
        match decode_packet(codec, &packet) {
            Ok(chunk) => {
                proof {
                    attempts = attempts.push(PacketOutcome::Decoded);
                    lemma_verdict_skip_malformed(attempts, 0, k);
                    assert(attempts.skip(k) =~= seq![PacketOutcome::Decoded]);
                }
                return (Ok((chunk, ts)), Ghost(attempts));
            },
            Err(e) => {
                let kind = error_kind(&e);
                match kind {
                    DecoderError::DecodeFailure => {
                        proof {
                            attempts = attempts.push(PacketOutcome::Malformed);
                        }
                        match bump_decode_errors(decode_errors) {
                            Some(n) => {
                                decode_errors = n;
                            },
                            None => {
                                proof {
                                    lemma_verdict_skip_malformed(attempts, 0, k);
                                    assert(attempts.skip(k) =~= seq![PacketOutcome::Malformed]);
                                }
                                return (Err(DecoderError::DecodeFailure), Ghost(attempts));
                            },
                        }
                    },
                    _ => {
                        proof {
                            attempts = attempts.push(PacketOutcome::Failed);
                            lemma_verdict_skip_malformed(attempts, 0, k);
                            assert(attempts.skip(k) =~= seq![PacketOutcome::Failed]);
                        }
                        return (Err(kind), Ghost(attempts));
                    },
                }
            },
        }
    }
}

/// A pull-based audio decoder over a probed byte source: it yields one
/// interleaved sample at a time, refilling its buffer a packet at a time,
/// observing pending seek requests at refill boundaries, and offering
/// telemetry upward: the stream's metadata revision once, before any sample,
/// and each decoded packet's timestamp.
pub struct AudioDecoder {
    format: FormatHandle,
    codec: CodecHandle,
    buffer: Vec<i16>,
    offset: usize,
    channels: u16,
    rate: u32,
    tx: tokio::sync::mpsc::Sender<ReceivedData>,
    rx: std::sync::mpsc::Receiver<PlaybackInstructions>,
    events: Ghost<Seq<EventKind>>,
    has_metadata: Ghost<bool>,
}

impl AudioDecoder {
    /// The samples decoded from the current packet.
    pub closed spec fn samples(&self) -> Seq<i16> {
        self.buffer@
    }

    /// The read offset within the current packet's samples.
    pub closed spec fn sample_offset(&self) -> usize {
        self.offset
    }

    /// The events this decoder has offered to the telemetry channel, oldest
    /// first.
    pub closed spec fn events(&self) -> Seq<EventKind> {
        self.events@
    }

    /// Whether the probed stream carried a metadata revision.
    pub closed spec fn carried_metadata(&self) -> bool {
        self.has_metadata@
    }

    /// The channel count of the current packet's signal spec.
    pub closed spec fn channel_count(&self) -> u16 {
        self.channels
    }

    /// The sample rate of the current packet's signal spec.
    pub closed spec fn sampling_rate(&self) -> u32 {
        self.rate
    }

    /// The read offset never passes the buffered samples, and the event log is
    /// ordered: when the stream carried metadata, the metadata event comes
    /// first and everything after it is a timestamp; otherwise only timestamps
    /// are ever offered.
    pub open spec fn wf(&self) -> bool {
        &&& self.sample_offset() <= self.samples().len()
        &&& (self.carried_metadata() ==> self.events().len() >= 1 && self.events()[0]
            == EventKind::MetadataEvent && (forall|i: int|
            1 <= i < self.events().len() ==> self.events()[i] == EventKind::TimestampEvent))
        &&& (!self.carried_metadata() ==> (forall|i: int|
            0 <= i < self.events().len() ==> self.events()[i] == EventKind::TimestampEvent))
    }

    /// Probes the source, delivers its metadata revision (if any) with a
    /// blocking send before anything else, selects the default track, builds
    /// its codec decoder, and decodes packets under the bounded retry policy
    /// until the first one succeeds. Any failure is fatal to initialization:
    /// the error says which kind stopped it.
    pub fn new(
        mss: symphonia::core::io::MediaSourceStream,
        tx: tokio::sync::mpsc::Sender<ReceivedData>,
        rx: std::sync::mpsc::Receiver<PlaybackInstructions>,
    ) -> (r: Result<AudioDecoder, DecoderError>)
        ensures
            match r {
                Ok(d) => {
                    &&& d.wf()
                    &&& d.sample_offset() == 0
                    &&& (d.carried_metadata() ==> d.events() == seq![EventKind::MetadataEvent])
                    &&& (!d.carried_metadata() ==> d.events() == Seq::<EventKind>::empty())
                },
                Err(_) => true,
            },
    {
        let (format, meta) = match probe_format(mss) {
            Ok(p) => p,
            Err(e) => {
                return Err(error_kind(&e));
            },
        };
        let mut format = format;
        let ghost mut events: Seq<EventKind> = Seq::empty();
        let ghost had_meta = meta is Some;
        match meta {
            Some(revision) => {
                send_metadata(&tx, revision);
                proof {
                    events = events.push(EventKind::MetadataEvent);
                }
            },
            None => {},
        }
        let mut codec = match make_codec(&format) {
            Ok(Some(c)) => c,
            Ok(None) => {
                return Err(DecoderError::NoStreams);
            },
            Err(e) => {
                return Err(error_kind(&e));
            },
        };
        let (outcome, _attempts) = decode_next_chunk(&mut format, &mut codec);
        let (first, _ts) = match outcome {
            Ok(p) => p,
            Err(e) => {
                return Err(e);
            },
        };
        Ok(
            AudioDecoder {
                format,
                codec,
                buffer: first.samples,
                offset: 0,
                channels: first.channels,
                rate: first.rate,
                tx,
                rx,
                events: Ghost(events),
                has_metadata: Ghost(had_meta),
            },
        )
    }

    /// Yields the next interleaved sample. While the current packet's buffer
    /// still has samples, the one at the read offset is returned and the
    /// offset advances; at a buffer boundary the decoder first honours a
    /// pending seek request (best effort), then decodes the next packet under
    /// the bounded retry policy, offers its timestamp to the telemetry channel
    /// without blocking, and yields the fresh buffer's first sample. The end
    /// of the stream, or a fatal decode failure, yields nothing.
    pub fn next_sample(&mut self) -> (r: Option<i16>)
        requires
            old(self).wf(),
        ensures
            final(self).wf(),
            final(self).carried_metadata() == old(self).carried_metadata(),
            old(self).sample_offset() < old(self).samples().len() ==> {
                &&& r == Some(old(self).samples()[old(self).sample_offset() as int])
                &&& final(self).samples() == old(self).samples()
                &&& final(self).sample_offset() == old(self).sample_offset() + 1
                &&& final(self).events() == old(self).events()
            },
            old(self).sample_offset() == old(self).samples().len() ==> match r {
                Some(s) => {
                    &&& final(self).samples().len() >= 1
                    &&& s == final(self).samples()[0]
                    &&& final(self).sample_offset() == 1
                    &&& final(self).events() == old(self).events().push(EventKind::TimestampEvent)
                },
                None => final(self).events() == old(self).events(),
            },
    {
        if self.offset == self.buffer.len() {
            match try_recv_instruction(&self.rx) {
                Some(PlaybackInstructions::Seek(to)) => {
                    let seconds = to / 1000;
                    let _ = seek_to_seconds(&mut self.format, seconds);
                },
                _ => {},
            }
            let (outcome, _attempts) = decode_next_chunk(&mut self.format, &mut self.codec);
            let (chunk, ts) = match outcome {
                Ok(p) => p,
                Err(_) => {
                    return None;
                },
            };
            if chunk.samples.len() == 0 {
                return None;
            }
            self.channels = chunk.channels;
            self.rate = chunk.rate;
            self.buffer = chunk.samples;
            self.offset = 1;
            send_timestamp(&self.tx, ts);
            self.events = Ghost(self.events@.push(EventKind::TimestampEvent));
            Some(self.buffer[0])
        } else {
            let s = self.buffer[self.offset];
            self.offset = self.offset + 1;
            Some(s)
        }
    }

    /// How many samples the current packet decoded to.
    pub fn current_frame_len(&self) -> (r: usize)
        ensures
            r == self.samples().len(),
    {
        self.buffer.len()
    }

    /// The channel count of the current packet.
    pub fn channels(&self) -> (r: u16)
        ensures
            r == self.channel_count(),
    {
        self.channels
    }

    /// The sample rate of the current packet.
    pub fn sample_rate(&self) -> (r: u32)
        ensures
            r == self.sampling_rate(),
    {
        self.rate
    }
}

/// Law: when the probed stream carried a metadata block, the metadata event
/// was offered to the telemetry channel strictly before every timestamp event.
pub proof fn lemma_metadata_before_first_timestamp(d: &AudioDecoder, i: int)
    requires
        d.wf(),
        d.carried_metadata(),
        0 <= i < d.events().len(),
        d.events()[i] == EventKind::TimestampEvent,
    ensures
        1 <= i,
        d.events()[0] == EventKind::MetadataEvent,
{
}

} // verus!
