//! The frame lifecycle: state owned by the host loop, and the processing of
//! one drained batch of events into state updates and an ordered plan of
//! compositor calls.
//!
//! The surrounding (unverified) windowing code blocks for one event, drains
//! the rest, hands the batch to `process_batch`, performs the returned
//! actions in order, and then — unless the batch terminated the loop —
//! renders and presents.

use vstd::prelude::*;
use crate::display_list::{render, spec_scene, DisplayItem, DisplayListBuilder};
use crate::event::{
    classify, lemma_stop_index_bounds, spec_batch_terminates, spec_is_terminator,
    spec_last_resize, spec_processed, spec_stop_index, spec_toggle_count, Event, EventClass,
};
use crate::geometry::{layout_of, spec_layout_of, DeviceRect, DeviceSize, LayoutSize, PixelRatio};

verus! {

/// The bit of `debug_flags` that the debug key toggles: the profiler overlay.
pub const PROFILER_DEBUG_FLAG: u32 = 1;

/// The mutable state the host loop owns across iterations.
pub struct FrameState {
    /// Surface size in device pixels.
    pub framebuffer_size: DeviceSize,
    /// Scale from layout pixels to device pixels; fixed for the process.
    pub ratio: PixelRatio,
    /// Always the framebuffer size divided by the ratio, never stale.
    pub layout_size: LayoutSize,
    /// Version tag of the submitted display list; held constant here.
    pub epoch: u32,
    /// Names the one logical document registered with the compositor.
    pub document_id: u64,
    /// Names the one content pipeline feeding that document.
    pub pipeline_id: u64,
    /// Toggleable debug bits, e.g. the profiler overlay.
    pub debug_flags: u32,
}

impl FrameState {
    pub open spec fn wf(self) -> bool {
        &&& self.ratio.wf()
        &&& self.layout_size == spec_layout_of(self.framebuffer_size, self.ratio)
        &&& self.layout_size.wf()
    }

    pub fn new(
        framebuffer_size: DeviceSize,
        ratio: PixelRatio,
        document_id: u64,
        pipeline_id: u64,
    ) -> (s: FrameState)
        requires
            ratio.wf(),
        ensures
            s.wf(),
            s.framebuffer_size == framebuffer_size,
            s.ratio == ratio,
            s.layout_size == spec_layout_of(framebuffer_size, ratio),
            s.epoch == 0,
            s.document_id == document_id,
            s.pipeline_id == pipeline_id,
            s.debug_flags == 0,
    {
        let layout_size = layout_of(framebuffer_size, ratio);
        FrameState {
            framebuffer_size,
            ratio,
            layout_size,
            epoch: 0,
            document_id,
            pipeline_id,
            debug_flags: 0,
        }
    }
}

/// A batch of resource-registration deltas submitted beside a display list.
/// This host registers no resources, so the batch carries nothing; the slot
/// exists because the submission protocol requires one.
#[derive(Clone, Copy, Debug, PartialEq, Eq, Structural)]
pub struct ResourceUpdates {}

impl ResourceUpdates {
    pub fn new() -> (r: ResourceUpdates)
        ensures
            r == (ResourceUpdates {  }),
    {
        ResourceUpdates {  }
    }
}

/// Everything one display-list submission hands to the compositor: the new
/// list for the document at the current epoch and layout size, with an empty
/// resource batch, flagging that layout is preserved across the update. A
/// frame-generation request follows it.
pub struct Submission {
    pub epoch: u32,
    pub layout_size: LayoutSize,
    pub display_list: Vec<DisplayItem>,
    pub preserve_layout: bool,
    pub resources: ResourceUpdates,
}

/// One compositor or renderer call the host must perform, in order.
#[derive(Clone, Copy, Debug, PartialEq, Eq, Structural)]
pub enum Action {
    /// Toggle the profiler overlay on the renderer.
    ToggleDebugFlags,
    /// Register the new window parameters: framebuffer size, a clip covering
    /// the full new framebuffer, and the device pixel ratio.
    SetWindowParameters { framebuffer_size: DeviceSize, clip: DeviceRect, ratio: PixelRatio },
    /// Hand the rebuilt display list (the `submission` of the outcome) to the
    /// compositor.
    SetDisplayList,
    /// Ask the compositor to generate a frame for the document.
    GenerateFrame,
    /// Tear down the renderer and leave the loop.
    Teardown,
}

/// What one drained batch asks the host to do.
pub struct BatchOutcome {
    /// The loop reached its terminal state; no render step follows.
    pub terminated: bool,
    /// The calls to perform, in order.
    pub actions: Vec<Action>,
    /// The rebuilt display list, present exactly when the batch resized.
    pub submission: Option<Submission>,
}

/// Build the one submission this host ever makes: the scene at the state's
/// layout size, at the current epoch, with an empty resource batch and
/// layout preserved. The very first frame and every resize reuse this.
pub fn build_submission(state: &FrameState) -> (sub: Submission)
    requires
        state.wf(),
    ensures
        sub.epoch == state.epoch,
        sub.layout_size == state.layout_size,
        sub.display_list@ == spec_scene(state.layout_size),
        sub.preserve_layout == true,
{
    let mut builder = DisplayListBuilder::new();
    render(&mut builder, state.layout_size);
    let display_list = builder.finalize();
    proof {
        assert(display_list@ =~= spec_scene(state.layout_size));
    }
    Submission {
        epoch: state.epoch,
        layout_size: state.layout_size,
        display_list,
        preserve_layout: true,
        resources: ResourceUpdates::new(),
    }
}

/// `flags` with the profiler bit flipped.
pub open spec fn spec_toggle_profiler(flags: u32) -> u32 {
    flags ^ PROFILER_DEBUG_FLAG
}

/// Two toggles in sequence restore the original flags.
pub proof fn lemma_toggle_twice(flags: u32)
    ensures
        spec_toggle_profiler(spec_toggle_profiler(flags)) == flags,
{
    assert((flags ^ 1u32) ^ 1u32 == flags) by (bit_vector);
}

/// The framebuffer size after a batch: the last resize before the terminator
/// wins; with no resize the old size stands.
pub open spec fn spec_batch_framebuffer(fb0: DeviceSize, events: Seq<Event>) -> DeviceSize {
    match spec_last_resize(spec_processed(events)) {
        Option::Some(d) => d,
        Option::None => fb0,
    }
}

/// Whether the processed prefix of the batch holds at least one resize.
pub open spec fn spec_batch_resizes(events: Seq<Event>) -> bool {
    spec_last_resize(spec_processed(events)) is Some
}

/// The debug flags after a batch: flipped once per debug-key press before
/// the terminator, so only the parity matters.
pub open spec fn spec_batch_flags(flags0: u32, events: Seq<Event>) -> u32 {
    if spec_toggle_count(spec_processed(events)) % 2 == 1 {
        spec_toggle_profiler(flags0)
    } else {
        flags0
    }
}

/// An even number of debug-key presses in a batch leaves the flags as they
/// were.
pub proof fn lemma_even_toggles_restore(flags0: u32, events: Seq<Event>)
    requires
        spec_toggle_count(spec_processed(events)) % 2 == 0,
    ensures
        spec_batch_flags(flags0, events) == flags0,
{
}

/// The ordered plan for one batch: one toggle per debug-key press, then —
/// exactly when the batch resized — the window-parameter update followed by
/// the display-list submission and the frame-generation request, then — when
/// the batch terminates — the teardown.
pub open spec fn spec_batch_actions(s: FrameState, events: Seq<Event>) -> Seq<Action> {
    Seq::new(spec_toggle_count(spec_processed(events)), |k: int| Action::ToggleDebugFlags) + (
    if spec_batch_resizes(events) {
        seq![
            Action::SetWindowParameters {
                framebuffer_size: spec_batch_framebuffer(s.framebuffer_size, events),
                clip: DeviceRect::spec_full(spec_batch_framebuffer(s.framebuffer_size, events)),
                ratio: s.ratio,
            },
            Action::SetDisplayList,
            Action::GenerateFrame,
        ]
    } else {
        Seq::<Action>::empty()
    }) + (if spec_batch_terminates(events) {
        seq![Action::Teardown]
    } else {
        Seq::<Action>::empty()
    })
}

/// Process one drained batch of events, in arrival order.
///
/// Events after the first close request or Escape are not read. The last
/// resize before that point wins: it sets the framebuffer size, the layout
/// size is recomputed from it at once, and exactly one window-parameter
/// update, one display-list rebuild and one frame-generation request are
/// planned — none when the batch holds no resize. Each debug-key press flips
/// the profiler bit once.
pub fn process_batch(state: &mut FrameState, events: &Vec<Event>) -> (out: BatchOutcome)
    requires
        old(state).wf(),
    ensures
        final(state).wf(),
        final(state).framebuffer_size == spec_batch_framebuffer(
            old(state).framebuffer_size,
            events@,
        ),
        final(state).layout_size == spec_layout_of(
            final(state).framebuffer_size,
            old(state).ratio,
        ),
        final(state).debug_flags == spec_batch_flags(old(state).debug_flags, events@),
        final(state).ratio == old(state).ratio,
        final(state).epoch == old(state).epoch,
        final(state).document_id == old(state).document_id,
        final(state).pipeline_id == old(state).pipeline_id,
        out.terminated == spec_batch_terminates(events@),
        out.actions@ == spec_batch_actions(*old(state), events@),
        (out.submission is Some) == spec_batch_resizes(events@),
        out.submission matches Option::Some(sub) ==> {
            &&& sub.epoch == old(state).epoch
            &&& sub.layout_size == final(state).layout_size
            &&& sub.display_list@ == spec_scene(final(state).layout_size)
            &&& sub.preserve_layout == true
        },
{
    let ghost evs = events@;
    let n = events.len();
    let mut actions: Vec<Action> = Vec::new();
    let mut i: usize = 0;
    let mut terminated: bool = false;
    let mut fb: DeviceSize = state.framebuffer_size;
    let mut saw_resize: bool = false;
    let mut flags: u32 = state.debug_flags;
    let ghost fb0 = state.framebuffer_size;
    let ghost flags0 = state.debug_flags;

    while i < n && !terminated
        invariant
            n == evs.len(),
            i <= n,
            forall|j: int| 0 <= j < i ==> !spec_is_terminator(#[trigger] evs[j]),
            terminated ==> i < n && spec_is_terminator(evs[i as int]),
            fb == match spec_last_resize(evs.take(i as int)) {
                Option::Some(d) => d,
                Option::None => fb0,
            },
            saw_resize == (spec_last_resize(evs.take(i as int)) is Some),
            flags == if spec_toggle_count(evs.take(i as int)) % 2 == 1 {
                spec_toggle_profiler(flags0)
            } else {
                flags0
            },
            actions@.len() == spec_toggle_count(evs.take(i as int)),
            forall|k: int| 0 <= k < actions@.len() ==> actions@[k] == Action::ToggleDebugFlags,
            events@ == evs,
        decreases n - i + if terminated {
            0int
        } else {
            1int
        },
    {
        let ghost s_pre = evs.take(i as int);
        let ghost s_post = evs.take(i + 1 as int);
        proof {
            assert(s_post.drop_last() =~= s_pre);
            assert(s_post.last() == evs[i as int]);
        }
        let e = &events[i];
        match classify(e) {
            EventClass::Terminate => {
                terminated = true;
            },
            EventClass::ToggleDebug => {
                proof {
                    lemma_toggle_twice(flags0);
                }
                flags = flags ^ PROFILER_DEBUG_FLAG;
                actions.push(Action::ToggleDebugFlags);
                i = i + 1;
            },
            EventClass::Resize { size } => {
                fb = size;
                saw_resize = true;
                i = i + 1;
            },
            EventClass::Ignore => {
                i = i + 1;
            },
        }
    }

    proof {
        lemma_stop_index_bounds(evs);
        let si = spec_stop_index(evs);
        if terminated {
            if si < i as int {
                assert(!spec_is_terminator(evs[si]));
                assert(false);
            }
            if si > i as int {
                assert(!spec_is_terminator(evs[i as int]));
                assert(false);
            }
            assert(si == i as int);
        } else {
            assert(i == n);
            if si < n as int {
                assert(spec_is_terminator(evs[si]));
                assert(false);
            }
            assert(si == n as int);
        }
        assert(spec_processed(evs) =~= evs.take(i as int));
        assert(spec_batch_terminates(evs) == terminated);
    }

    state.framebuffer_size = fb;
    state.debug_flags = flags;
    let new_layout = layout_of(fb, state.ratio);
    state.layout_size = new_layout;

    let mut submission: Option<Submission> = Option::None;
    if saw_resize {
        actions.push(
            Action::SetWindowParameters {
                framebuffer_size: fb,
                clip: DeviceRect::full(fb),
                ratio: state.ratio,
            },
        );
        let sub = build_submission(state);
        actions.push(Action::SetDisplayList);
        actions.push(Action::GenerateFrame);
        submission = Option::Some(sub);
    }
    if terminated {
        actions.push(Action::Teardown);
    }

    proof {
        assert(actions@ =~= spec_batch_actions(*old(state), evs));
    }

    BatchOutcome { terminated, actions, submission }
}

/// How many window-parameter updates a plan holds.
pub open spec fn spec_window_update_count(s: Seq<Action>) -> int
    decreases s.len(),
{
    if s.len() == 0 {
        0
    } else {
        spec_window_update_count(s.drop_last()) + if s.last() is SetWindowParameters {
            1int
        } else {
            0int
        }
    }
}

proof fn lemma_window_update_count_concat(a: Seq<Action>, b: Seq<Action>)
    ensures
        spec_window_update_count(a + b) == spec_window_update_count(a)
            + spec_window_update_count(b),
    decreases b.len(),
{
    if b.len() == 0 {
        assert(a + b =~= a);
    } else {
        assert((a + b).drop_last() =~= a + b.drop_last());
        assert((a + b).last() == b.last());
        lemma_window_update_count_concat(a, b.drop_last());
    }
}

proof fn lemma_window_update_count_toggles(n: nat)
    ensures
        spec_window_update_count(Seq::new(n, |k: int| Action::ToggleDebugFlags)) == 0,
    decreases n,
{
    if n > 0 {
        assert(Seq::new(n, |k: int| Action::ToggleDebugFlags).drop_last() =~= Seq::new(
            (n - 1) as nat,
            |k: int| Action::ToggleDebugFlags,
        ));
        lemma_window_update_count_toggles((n - 1) as nat);
    }
}

/// A batch plans the window-parameter update exactly once when its processed
/// prefix holds a resize and never otherwise, and the one update carries the
/// final framebuffer size, a clip covering it whole, and the fixed ratio.
pub proof fn lemma_window_update_once(s: FrameState, events: Seq<Event>)
    ensures
        spec_window_update_count(spec_batch_actions(s, events)) == if spec_batch_resizes(events) {
            1int
        } else {
            0int
        },
        forall|k: int|
            0 <= k < spec_batch_actions(s, events).len() && #[trigger] spec_batch_actions(
                s,
                events,
            )[k] is SetWindowParameters ==> spec_batch_actions(s, events)[k] == (
            Action::SetWindowParameters {
                framebuffer_size: spec_batch_framebuffer(s.framebuffer_size, events),
                clip: DeviceRect::spec_full(spec_batch_framebuffer(s.framebuffer_size, events)),
                ratio: s.ratio,
            }),
{
    let tc = spec_toggle_count(spec_processed(events));
    let toggles = Seq::new(tc, |k: int| Action::ToggleDebugFlags);
    let swp = Action::SetWindowParameters {
        framebuffer_size: spec_batch_framebuffer(s.framebuffer_size, events),
        clip: DeviceRect::spec_full(spec_batch_framebuffer(s.framebuffer_size, events)),
        ratio: s.ratio,
    };
    let mid = if spec_batch_resizes(events) {
        seq![swp, Action::SetDisplayList, Action::GenerateFrame]
    } else {
        Seq::<Action>::empty()
    };
    let tail = if spec_batch_terminates(events) {
        seq![Action::Teardown]
    } else {
        Seq::<Action>::empty()
    };
    let whole = spec_batch_actions(s, events);
    assert(whole == toggles + mid + tail);
    lemma_window_update_count_concat(toggles + mid, tail);
    lemma_window_update_count_concat(toggles, mid);
    lemma_window_update_count_toggles(tc);
    assert(spec_window_update_count(Seq::<Action>::empty()) == 0);
    if spec_batch_resizes(events) {
        assert(mid.drop_last() =~= seq![swp, Action::SetDisplayList]);
        assert(seq![swp, Action::SetDisplayList].drop_last() =~= seq![swp]);
        assert(seq![swp].drop_last() =~= Seq::<Action>::empty());
        assert(seq![swp].last() == swp);
        assert(spec_window_update_count(seq![swp]) == 1);
        assert(seq![swp, Action::SetDisplayList].last() == Action::SetDisplayList);
        assert(spec_window_update_count(seq![swp, Action::SetDisplayList]) == 1);
        assert(mid.last() == Action::GenerateFrame);
        assert(spec_window_update_count(mid) == 1);
    }
    if spec_batch_terminates(events) {
        assert(tail.drop_last() =~= Seq::<Action>::empty());
        assert(tail.last() == Action::Teardown);
        assert(spec_window_update_count(tail) == 0);
    }
    assert forall|k: int|
        0 <= k < whole.len() && #[trigger] whole[k] is SetWindowParameters implies whole[k]
        == swp by {
        if k < toggles.len() {
            assert(whole[k] == toggles[k]);
            assert(toggles[k] == Action::ToggleDebugFlags);
        } else if k < toggles.len() + mid.len() {
            assert(whole[k] == mid[k - toggles.len()]);
        } else {
            assert(whole[k] == tail[k - toggles.len() - mid.len()]);
        }
    }
}

/// A batch that terminates plans the teardown as its last action.
pub proof fn lemma_terminator_plans_teardown(s: FrameState, events: Seq<Event>)
    requires
        spec_batch_terminates(events),
    ensures
        spec_batch_actions(s, events).len() > 0,
        spec_batch_actions(s, events).last() == Action::Teardown,
{
    let whole = spec_batch_actions(s, events);
    assert(whole[whole.len() - 1] == seq![Action::Teardown][0]);
}

/// Events after a close request or Escape in the same batch have no effect:
/// the batch behaves exactly as if it ended just after the terminator.
pub proof fn lemma_events_after_terminator_ignored(s: FrameState, events: Seq<Event>, k: int)
    requires
        0 <= k < events.len(),
        spec_stop_index(events) == k,
    ensures
        spec_batch_terminates(events),
        spec_batch_terminates(events.take(k + 1)),
        spec_batch_framebuffer(s.framebuffer_size, events) == spec_batch_framebuffer(
            s.framebuffer_size,
            events.take(k + 1),
        ),
        spec_batch_flags(s.debug_flags, events) == spec_batch_flags(
            s.debug_flags,
            events.take(k + 1),
        ),
        spec_batch_actions(s, events) == spec_batch_actions(s, events.take(k + 1)),
{
    let t = events.take(k + 1);
    lemma_stop_index_bounds(events);
    lemma_stop_index_bounds(t);
    let sit = spec_stop_index(t);
    if sit < k {
        assert(spec_is_terminator(t[sit]));
        assert(t[sit] == events[sit]);
        assert(!spec_is_terminator(events[sit]));
        assert(false);
    }
    if sit == k + 1 {
        assert(!spec_is_terminator(t[k]));
        assert(t[k] == events[k]);
        assert(spec_is_terminator(events[k]));
        assert(false);
    }
    assert(sit == k);
    assert(spec_processed(t) =~= spec_processed(events));
}

/// The compositor's document-ready signal always wakes the host loop: the
/// `scrolled` and `composite_needed` hints never suppress the wake, so the
/// loop re-renders at least as often as the hints would demand.
pub fn new_document_ready_wakes(scrolled: bool, composite_needed: bool) -> (wake: bool)
    ensures
        wake,
{
    let _hints: bool = scrolled && composite_needed;
    true
}

} // verus!

