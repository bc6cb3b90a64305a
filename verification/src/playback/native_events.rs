//! Events that the audio backend reports on its own, and where the controller drains them.
use vstd::prelude::*;

verus! {

/// An event of the audio backend.
#[derive(Debug, Clone, PartialEq, Eq)]
pub enum PlaybackNativeEvent {
    Buffering { position_ms: u32 },
    Ready { position_ms: u32 },
    Playing { position_ms: u32 },
    Paused { position_ms: u32 },
    SeekProcessed { position_ms: u32 },
    Error { message: String, handled: bool },
    GaplessPrepared { generation: u64 },
    GaplessFailed { generation: u64, message: String },
    GaplessTransition,
    Ended,
}

/// Where backend events wait until the controller drains them.
pub trait NativePlaybackEventSource {
    /// Takes every waiting event, oldest first.
    fn drain_events(&mut self) -> Vec<PlaybackNativeEvent>;

    /// Asks for the controller to drain events again after `delay_ms` milliseconds.
    fn request_processing_after(&mut self, delay_ms: u64) {
    }
}

/// An event source that never has events.
#[derive(Debug, Default, Clone, Copy)]
pub struct NoopNativePlaybackEventSource;

impl NativePlaybackEventSource for NoopNativePlaybackEventSource {
    fn drain_events(&mut self) -> (r: Vec<PlaybackNativeEvent>)
        ensures
            r@.len() == 0,
    {
        Vec::new()
    }
}

/// Backend events waiting to be drained, oldest first.
#[derive(Debug, Clone, PartialEq, Eq)]
pub struct PlaybackEventQueue {
    events: Vec<PlaybackNativeEvent>,
}

impl View for PlaybackEventQueue {
    type V = Seq<PlaybackNativeEvent>;

    closed spec fn view(&self) -> Seq<PlaybackNativeEvent> {
        self.events@
    }
}

impl PlaybackEventQueue {
    /// A queue without events.
    pub fn new() -> (r: Self)
        ensures
            r@ == Seq::<PlaybackNativeEvent>::empty(),
    {
        PlaybackEventQueue { events: Vec::new() }
    }

    /// Adds an event after the waiting ones.
    pub fn push(&mut self, event: PlaybackNativeEvent)
        ensures
            final(self)@ == old(self)@.push(event),
    {
        self.events.push(event);
    }

    /// Drops the waiting events.
    pub fn clear(&mut self)
        ensures
            final(self)@ == Seq::<PlaybackNativeEvent>::empty(),
    {
        self.events = Vec::new();
    }

    /// Takes every waiting event, oldest first.
    pub fn drain(&mut self) -> (r: Vec<PlaybackNativeEvent>)
        ensures
            r@ == old(self)@,
            final(self)@ == Seq::<PlaybackNativeEvent>::empty(),
    {
        let mut events: Vec<PlaybackNativeEvent> = Vec::new();
        std::mem::swap(&mut events, &mut self.events);
        events
    }
}

impl NativePlaybackEventSource for PlaybackEventQueue {
    fn drain_events(&mut self) -> (r: Vec<PlaybackNativeEvent>)
        ensures
            r@ == old(self)@,
            final(self)@ == Seq::<PlaybackNativeEvent>::empty(),
    {
        self.drain()
    }
}

} // verus!
