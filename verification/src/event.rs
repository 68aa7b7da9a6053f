//! The signals that a spinner's handle sends to its render loop.

use crate::spinners::Frames;
use vstd::prelude::*;

verus! {

/// A signal for a running render loop.
#[derive(Debug, Clone, PartialEq, Eq)]
pub enum Event {
    /// Stop rendering.
    Stop,
    /// Show this message from the next frame on.
    SetMessage(String),
    /// Wait this many milliseconds between frames.
    SetInterval(u64),
    /// Play these frames, starting at the first.
    SetFrames(Frames),
}

/// The mathematical value of an [`Event`].
pub enum EventView {
    /// Stop rendering.
    Stop,
    /// Show this message from the next frame on.
    SetMessage(Seq<char>),
    /// Wait this many milliseconds between frames.
    SetInterval(u64),
    /// Play these frames, starting at the first.
    SetFrames(Seq<&'static str>),
}

impl View for Event {
    type V = EventView;

    open spec fn view(&self) -> EventView {
        match self {
            Event::Stop => EventView::Stop,
            Event::SetMessage(text) => EventView::SetMessage(text@),
            Event::SetInterval(ms) => EventView::SetInterval(*ms),
            Event::SetFrames(frames) => EventView::SetFrames(frames@),
        }
    }
}

/// The values of a batch of events, in the order of the batch.
pub open spec fn views(events: Seq<Event>) -> Seq<EventView> {
    Seq::new(events.len(), |i: int| events[i]@)
}

/// The value of an optional signal.
pub open spec fn signal_view(signal: Option<Event>) -> Option<EventView> {
    match signal {
        Some(ev) => Some(ev@),
        None => None,
    }
}

} // verus!
