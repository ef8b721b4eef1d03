//! Window events and their classification.
//!
//! Each drained batch of events is read in arrival order. A close request or
//! an Escape key ends the loop; only the events before that terminator count.
//! The spec functions here say which prefix of a batch is processed, which
//! resize wins, and how often the debug key was pressed.

use vstd::prelude::*;
use crate::geometry::DeviceSize;

verus! {

/// The keys the host distinguishes; every other key is `Other`.
#[derive(Clone, Copy, Debug, PartialEq, Eq, Structural)]
pub enum Key {
    Escape,
    P,
    Other,
}

/// One window event, as the surrounding windowing code hands it in.
#[derive(Clone, Copy, Debug, PartialEq, Eq, Structural)]
pub enum Event {
    /// The window manager asked to close the window.
    CloseRequested,
    /// A key changed state; `pressed` is true on press, false on release.
    KeyboardInput { key: Key, pressed: bool },
    /// The window was resized to the given size in device pixels.
    Resized { width: u32, height: u32 },
    /// Any other kind of event; ignored.
    Other,
}

/// What one event means to the loop.
#[derive(Clone, Copy, Debug, PartialEq, Eq, Structural)]
pub enum EventClass {
    /// Tear down and leave the loop; later events in the batch are not read.
    Terminate,
    /// Toggle the profiler overlay bit.
    ToggleDebug,
    /// Adopt a new framebuffer size.
    Resize { size: DeviceSize },
    /// Forward-compatible no-op.
    Ignore,
}

/// Close requests and Escape (pressed or released) terminate; a press of the
/// debug key toggles; a resize carries its dimensions; all else is ignored.
pub open spec fn spec_classify(e: Event) -> EventClass {
    match e {
        Event::CloseRequested => EventClass::Terminate,
        Event::KeyboardInput { key: Key::Escape, pressed: _ } => EventClass::Terminate,
        Event::KeyboardInput { key: Key::P, pressed: true } => EventClass::ToggleDebug,
        Event::KeyboardInput { key: _, pressed: _ } => EventClass::Ignore,
        Event::Resized { width, height } => (EventClass::Resize {
            size: DeviceSize { width, height },
        }),
        Event::Other => EventClass::Ignore,
    }
}

pub fn classify(e: &Event) -> (c: EventClass)
    ensures
        c == spec_classify(*e),
{
    match e {
        Event::CloseRequested => EventClass::Terminate,
        Event::KeyboardInput { key: Key::Escape, pressed: _ } => EventClass::Terminate,
        Event::KeyboardInput { key: Key::P, pressed: true } => EventClass::ToggleDebug,
        Event::KeyboardInput { key: _, pressed: _ } => EventClass::Ignore,
        Event::Resized { width, height } => EventClass::Resize {
            size: DeviceSize { width: *width, height: *height },
        },
        Event::Other => EventClass::Ignore,
    }
}

pub open spec fn spec_is_terminator(e: Event) -> bool {
    spec_classify(e) is Terminate
}

/// The index of the first terminating event, or the batch length if none.
pub open spec fn spec_stop_index(events: Seq<Event>) -> int
    decreases events.len(),
{
    if events.len() == 0 {
        0
    } else if spec_is_terminator(events[0]) {
        0
    } else {
        1 + spec_stop_index(events.drop_first())
    }
}

/// The events the loop acts on: everything before the first terminator.
pub open spec fn spec_processed(events: Seq<Event>) -> Seq<Event> {
    events.take(spec_stop_index(events))
}

/// Whether the batch ends the loop.
pub open spec fn spec_batch_terminates(events: Seq<Event>) -> bool {
    spec_stop_index(events) < events.len()
}

/// The stop index lies in the batch; the event there (if any) terminates,
/// and no earlier event does.
pub proof fn lemma_stop_index_bounds(events: Seq<Event>)
    ensures
        0 <= spec_stop_index(events) <= events.len(),
        spec_stop_index(events) < events.len() ==> spec_is_terminator(
            events[spec_stop_index(events)],
        ),
        forall|j: int|
            0 <= j < spec_stop_index(events) ==> !spec_is_terminator(#[trigger] events[j]),
    decreases events.len(),
{
    if events.len() > 0 && !spec_is_terminator(events[0]) {
        let rest = events.drop_first();
        lemma_stop_index_bounds(rest);
        let k = spec_stop_index(events);
        assert(k == 1 + spec_stop_index(rest));
        if k < events.len() {
            assert(events[k] == rest[k - 1]);
        }
        assert forall|j: int| 0 <= j < k implies !spec_is_terminator(#[trigger] events[j]) by {
            if j > 0 {
                assert(events[j] == rest[j - 1]);
                assert(!spec_is_terminator(rest[j - 1]));
            }
        }
    }
}

/// The dimensions of the last resize event, if the sequence holds one.
pub open spec fn spec_last_resize(events: Seq<Event>) -> Option<DeviceSize>
    decreases events.len(),
{
    if events.len() == 0 {
        Option::None
    } else {
        match spec_classify(events.last()) {
            EventClass::Resize { size } => Option::Some(size),
            _ => spec_last_resize(events.drop_last()),
        }
    }
}

/// How many debug-toggle presses the sequence holds.
pub open spec fn spec_toggle_count(events: Seq<Event>) -> nat
    decreases events.len(),
{
    if events.len() == 0 {
        0
    } else {
        spec_toggle_count(events.drop_last()) + if spec_classify(events.last()) is ToggleDebug {
            1nat
        } else {
            0nat
        }
    }
}

} // verus!
