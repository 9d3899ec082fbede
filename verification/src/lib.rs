use vstd::prelude::*;

pub mod byte_source;
pub mod chunks;
pub mod decoder;
pub mod download;
pub mod render;

use crate::byte_source::BytesWrapper;

verus! {

/// Where the bytes of a playback session come from: a local file on disk or a
/// remote resource reached by its address. Immutable once chosen for a session.
pub enum Stream {
    File(String),
    Url(String),
}

/// A transport command sent by a controller to the render loop, delivered in
/// send order over a bounded queue.
pub enum PlaybackInstructions {
    /// Replace the active stream with one backed by the given byte source.
    NewStream(BytesWrapper),
    /// Suspend the output sink.
    Pause,
    /// Resume the output sink.
    Play,
    /// Change the playback rate, in thousandths of real time (1000 is real time).
    Speed(u32),
    /// Jump to the given position, in milliseconds.
    Seek(u64),
}

/// Telemetry flowing from the decoder back to the controller.
pub enum ReceivedData {
    /// The native timestamp of the packet most recently decoded.
    NewTimestamp(u64),
    /// The latest metadata revision carried by the stream, delivered before the
    /// first sample of the stream is handed out.
    NewMetadata(symphonia::core::meta::MetadataRevision),
}

} // verus!
