use vstd::prelude::*;

use crate::PlaybackInstructions;
use crate::byte_source::BytesWrapper;

verus! {

/// The playback rate that means real time, in thousandths.
pub const REAL_TIME_SPEED: u32 = 1000;

/// The transport state of the render loop's output sink: play/pause and rate,
/// independent of decode progress, plus whether a stream has been loaded.
#[derive(Clone, Copy, Debug, PartialEq, Eq, Structural)]
pub struct Transport {
    /// Whether a stream has been handed to the sink.
    pub stream_active: bool,
    /// Whether the sink is playing (true) or paused (false).
    pub playing: bool,
    /// The playback rate, in thousandths of real time.
    pub speed: u32,
}

/// What the render loop must do to its sink and decoder for one instruction.
pub enum RenderAction {
    /// Resume the sink.
    Resume,
    /// Pause the sink.
    Suspend,
    /// Set the sink's playback rate, in thousandths of real time.
    ChangeSpeed(u32),
    /// Offer the position, in milliseconds, to the active decoder's seek side
    /// channel; with no active decoder the request is dropped.
    ForwardSeek(u64),
    /// Tear down the current decoder and sink, and rebuild both around this
    /// byte source.
    SwapStream(BytesWrapper),
}

impl Transport {
    /// The state the render loop starts in: a fresh, empty sink playing at
    /// real time, with no stream loaded yet.
    pub open spec fn initial() -> Transport {
        Transport { stream_active: false, playing: true, speed: REAL_TIME_SPEED }
    }

    /// Builds the render loop's starting transport state.
    pub fn new() -> (r: Transport)
        ensures
            r == Transport::initial(),
    {
        Transport { stream_active: false, playing: true, speed: REAL_TIME_SPEED }
    }
}

/// The transport state after one instruction: transport instructions update
/// play/pause or rate, a seek leaves it alone, and a new stream rebuilds the
/// sink into its fresh state with a stream loaded.
pub open spec fn spec_step(t: Transport, i: PlaybackInstructions) -> Transport {
    match i {
        PlaybackInstructions::Play => Transport { playing: true, ..t },
        PlaybackInstructions::Pause => Transport { playing: false, ..t },
        PlaybackInstructions::Speed(s) => Transport { speed: s, ..t },
        PlaybackInstructions::Seek(_) => t,
        PlaybackInstructions::NewStream(_) => Transport {
            stream_active: true,
            playing: true,
            speed: REAL_TIME_SPEED,
        },
    }
}

/// The transport state after a whole sequence of instructions, applied in
/// send order.
pub open spec fn spec_replay(t: Transport, s: Seq<PlaybackInstructions>) -> Transport
    decreases s.len(),
{
    if s.len() == 0 {
        t
    } else {
        spec_replay(spec_step(t, s[0]), s.drop_first())
    }
}

/// Applies one instruction to the transport state and hands back the action
/// the render loop must perform. The loop consumes its bounded command queue
/// one instruction at a time, so instructions take effect in send order.
pub fn render_step(t: &Transport, instruction: PlaybackInstructions) -> (r: (
    Transport,
    RenderAction,
))
    ensures
        r.0 == spec_step(*t, instruction),
        match instruction {
            PlaybackInstructions::Play => r.1 is Resume,
            PlaybackInstructions::Pause => r.1 is Suspend,
            PlaybackInstructions::Speed(s) => r.1 == RenderAction::ChangeSpeed(s),
            PlaybackInstructions::Seek(p) => r.1 == RenderAction::ForwardSeek(p),
            PlaybackInstructions::NewStream(b) => r.1 == RenderAction::SwapStream(b),
        },
{
    match instruction {
        PlaybackInstructions::Play => (Transport { playing: true, ..*t }, RenderAction::Resume),
        PlaybackInstructions::Pause => (Transport { playing: false, ..*t }, RenderAction::Suspend),
        PlaybackInstructions::Speed(s) => (
            Transport { speed: s, ..*t },
            RenderAction::ChangeSpeed(s),
        ),
        PlaybackInstructions::Seek(p) => (*t, RenderAction::ForwardSeek(p)),
        PlaybackInstructions::NewStream(b) => (
            Transport { stream_active: true, playing: true, speed: REAL_TIME_SPEED },
            RenderAction::SwapStream(b),
        ),
    }
}

/// Whether the sink plays after the last instruction that touches play/pause:
/// the last play, pause or stream swap decides, or the starting state if none
/// occurs.
pub open spec fn last_playing(t: Transport, s: Seq<PlaybackInstructions>) -> bool
    decreases s.len(),
{
    if s.len() == 0 {
        t.playing
    } else {
        match s.last() {
            PlaybackInstructions::Play => true,
            PlaybackInstructions::Pause => false,
            PlaybackInstructions::NewStream(_) => true,
            _ => last_playing(t, s.drop_last()),
        }
    }
}

/// The rate set by the last instruction that touches the rate: the last speed
/// change, or real time after the last stream swap, or the starting state's
/// rate if neither occurs.
pub open spec fn last_speed(t: Transport, s: Seq<PlaybackInstructions>) -> u32
    decreases s.len(),
{
    if s.len() == 0 {
        t.speed
    } else {
        match s.last() {
            PlaybackInstructions::Speed(x) => x,
            PlaybackInstructions::NewStream(_) => REAL_TIME_SPEED,
            _ => last_speed(t, s.drop_last()),
        }
    }
}

/// Replaying one more instruction is one more step.
pub proof fn lemma_replay_push(t: Transport, s: Seq<PlaybackInstructions>, i: PlaybackInstructions)
    ensures
        spec_replay(t, s.push(i)) == spec_step(spec_replay(t, s), i),
    decreases s.len(),
{
    if s.len() == 0 {
        assert(s.push(i)[0] == i);
        assert(s.push(i).drop_first() =~= Seq::<PlaybackInstructions>::empty());
        assert(spec_replay(spec_step(t, i), s.push(i).drop_first()) == spec_step(t, i));
        assert(spec_replay(t, s.push(i)) == spec_replay(spec_step(t, i), s.push(i).drop_first()));
        assert(spec_replay(t, s) == t);
    } else {
        lemma_replay_push(spec_step(t, s[0]), s.drop_first(), i);
        assert(s.push(i)[0] == s[0]);
        assert(s.push(i).drop_first() =~= s.drop_first().push(i));
        assert(spec_replay(t, s.push(i)) == spec_replay(
            spec_step(t, s[0]),
            s.push(i).drop_first(),
        ));
        assert(spec_replay(t, s) == spec_replay(spec_step(t, s[0]), s.drop_first()));
    }
}

/// Law: for every sequence of instructions sent to the render loop, applying
/// them in send order leaves the sink playing or paused according to the last
/// applicable play/pause instruction, and at the rate of the last applicable
/// speed instruction.
pub proof fn lemma_instructions_apply_in_order(t: Transport, s: Seq<PlaybackInstructions>)
    ensures
        spec_replay(t, s).playing == last_playing(t, s),
        spec_replay(t, s).speed == last_speed(t, s),
    decreases s.len(),
{
    if s.len() > 0 {
        let s0 = s.drop_last();
        lemma_instructions_apply_in_order(t, s0);
        lemma_replay_push(t, s0, s.last());
        assert(s =~= s0.push(s.last()));
    }
}

} // verus!
