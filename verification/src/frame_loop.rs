//! The decisions of the frame loop: which events stop it, what a poll cycle
//! does to the session, and what the frame of an iteration needs.

use crate::swap_chain::{
    acquired, descriptor_of, rebuilt, resized, AcquireError, Frame, SwapChainDescriptor,
    SwapChainState,
};
use vstd::prelude::*;

verus! {

/// The keys that the loop tells apart.
#[derive(Clone, Copy, Debug, PartialEq, Eq, Structural)]
pub enum Key {
    Escape,
    Other,
}

/// Whether a key went down or up.
#[derive(Clone, Copy, Debug, PartialEq, Eq, Structural)]
pub enum ElementState {
    Pressed,
    Released,
}

/// One event of the window, as far as the loop reads it. The size of a
/// resize is in physical pixels.
#[derive(Clone, Copy, Debug, PartialEq, Eq, Structural)]
pub enum WindowEvent {
    CloseRequested,
    KeyboardInput { key: Key, state: ElementState },
    Resized { width: u32, height: u32 },
    Other,
}

/// The two states of the loop.
#[derive(Clone, Copy, Debug, PartialEq, Eq, Structural)]
pub enum LoopState {
    Running,
    Stopped,
}

/// What the frame of an iteration needs first.
#[derive(Clone, Copy, Debug, PartialEq, Eq, Structural)]
pub enum FrameStep {
    /// Build the swap chain from the descriptor, report it, and ask again.
    Rebuild(SwapChainDescriptor),
    /// Acquire the image, record the pass and submit it.
    Render(Frame),
    /// No chain was ever configured: nothing can be drawn.
    NotConfigured,
}

/// The session that the loop drives.
#[derive(Clone, Copy, Debug, PartialEq, Eq, Structural)]
pub struct RenderSession {
    pub state: LoopState,
    pub swap_chain: SwapChainState,
}

/// The event asks the loop to stop: a close request or a press of Escape.
pub open spec fn requests_stop(event: WindowEvent) -> bool {
    event is CloseRequested || event == (WindowEvent::KeyboardInput {
        key: Key::Escape,
        state: ElementState::Pressed,
    })
}

/// The loop state after one event. `Stopped` is final.
pub open spec fn state_after_event(state: LoopState, event: WindowEvent) -> LoopState {
    if requests_stop(event) {
        LoopState::Stopped
    } else {
        state
    }
}

/// The swap chain after one event: a resize makes it stale, nothing else
/// touches it.
pub open spec fn chain_after_event(chain: SwapChainState, event: WindowEvent) -> SwapChainState {
    match event {
        WindowEvent::Resized { width, height } => resized(chain, width, height),
        _ => chain,
    }
}

/// The session after one event.
pub open spec fn after_event(session: RenderSession, event: WindowEvent) -> RenderSession {
    RenderSession {
        state: state_after_event(session.state, event),
        swap_chain: chain_after_event(session.swap_chain, event),
    }
}

/// The session after a whole poll cycle: the events applied one by one, in
/// the order of arrival.
pub open spec fn after_events(session: RenderSession, events: Seq<WindowEvent>) -> RenderSession
    decreases events.len(),
{
    if events.len() == 0 {
        session
    } else {
        after_event(after_events(session, events.drop_last()), events.last())
    }
}

/// What the frame of the current iteration needs with this swap chain.
pub open spec fn frame_step_of(chain: SwapChainState) -> FrameStep {
    match chain {
        SwapChainState::Unconfigured => FrameStep::NotConfigured,
        SwapChainState::Configured(d) => FrameStep::Render(Frame { width: d.width, height: d.height }),
        SwapChainState::Stale(d) => FrameStep::Rebuild(d),
    }
}

impl WindowEvent {
    /// Whether the event stops the loop.
    pub fn stops_loop(&self) -> (b: bool)
        ensures
            b == requests_stop(*self),
    {
        match self {
            WindowEvent::CloseRequested => true,
            WindowEvent::KeyboardInput { key: Key::Escape, state: ElementState::Pressed } => true,
            _ => false,
        }
    }
}

impl RenderSession {
    /// A running session over a swap chain built for the given size.
    pub fn start(width: u32, height: u32) -> (s: RenderSession)
        ensures
            s.state == LoopState::Running,
            s.swap_chain == SwapChainState::Configured(descriptor_of(width, height)),
    {
        RenderSession {
            state: LoopState::Running,
            swap_chain: SwapChainState::Configured(SwapChainDescriptor::new(width, height)),
        }
    }

    /// Applies one event.
    pub fn handle_event(&mut self, event: WindowEvent)
        ensures
            *final(self) == after_event(*old(self), event),
    {
        if event.stops_loop() {
            self.state = LoopState::Stopped;
        }
        match event {
            WindowEvent::Resized { width, height } => {
                self.swap_chain = self.swap_chain.resize(width, height);
            },
            _ => {},
        }
    }

    /// Applies every pending event of a poll cycle, in the order of arrival.
    pub fn poll(&mut self, events: &Vec<WindowEvent>)
        ensures
            *final(self) == after_events(*old(self), events@),
    {
        let mut k: usize = 0;
        while k < events.len()
            invariant
                k <= events@.len(),
                *self == after_events(*old(self), events@.take(k as int)),
            decreases events@.len() - k,
        {
            proof {
                assert(events@.take(k + 1).drop_last() =~= events@.take(k as int));
            }
            self.handle_event(events[k]);
            k += 1;
        }
        proof {
            assert(events@.take(k as int) =~= events@);
        }
    }

    /// Whether another iteration begins.
    pub fn is_running(&self) -> (b: bool)
        ensures
            b == (self.state == LoopState::Running),
    {
        match self.state {
            LoopState::Running => true,
            LoopState::Stopped => false,
        }
    }

    /// What the frame of the current iteration needs: a rebuild where the
    /// chain is stale, else the frame to render. The loop state has no say
    /// in it: a frame that is in flight when a stop arrives is completed.
    pub fn frame_step(&self) -> (step: FrameStep)
        ensures
            step == frame_step_of(self.swap_chain),
            step matches FrameStep::Render(f) ==> acquired(self.swap_chain) == Ok::<Frame, AcquireError>(f),
    {
        match self.swap_chain {
            SwapChainState::Unconfigured => FrameStep::NotConfigured,
            SwapChainState::Configured(d) => FrameStep::Render(
                Frame { width: d.width, height: d.height },
            ),
            SwapChainState::Stale(d) => FrameStep::Rebuild(d),
        }
    }

    /// The swap chain was rebuilt from the pending descriptor.
    pub fn chain_rebuilt(&mut self)
        ensures
            final(self).state == old(self).state,
            final(self).swap_chain == rebuilt(old(self).swap_chain),
    {
        self.swap_chain = self.swap_chain.rebuild();
    }
}

/// The loop state after a poll cycle is `Stopped` exactly when it was so
/// before or one of the events asks for it.
pub proof fn lemma_stopped_after_events(session: RenderSession, events: Seq<WindowEvent>)
    ensures
        after_events(session, events).state == LoopState::Stopped <==> (session.state
            == LoopState::Stopped || exists|k: int|
            0 <= k < events.len() && requests_stop(#[trigger] events[k])),
    decreases events.len(),
{
    if events.len() > 0 {
        let init = events.drop_last();
        lemma_stopped_after_events(session, init);
        if exists|k: int| 0 <= k < events.len() && requests_stop(#[trigger] events[k]) {
            let k = choose|k: int| 0 <= k < events.len() && requests_stop(#[trigger] events[k]);
            if k < init.len() {
                assert(requests_stop(init[k]));
            }
        }
        if exists|k: int| 0 <= k < init.len() && requests_stop(#[trigger] init[k]) {
            let k = choose|k: int| 0 <= k < init.len() && requests_stop(#[trigger] init[k]);
            assert(requests_stop(events[k]));
        }
        if requests_stop(events.last()) {
            assert(requests_stop(events[events.len() - 1]));
        }
    }
}

/// A poll cycle whose only event is a close request stops a running loop.
pub proof fn lemma_close_request_stops(session: RenderSession)
    ensures
        after_events(session, seq![WindowEvent::CloseRequested]).state == LoopState::Stopped,
{
    let events = seq![WindowEvent::CloseRequested];
    assert(requests_stop(events[0]));
    lemma_stopped_after_events(session, events);
}

/// A stopped loop stays stopped whatever arrives.
pub proof fn lemma_stopped_is_final(session: RenderSession, events: Seq<WindowEvent>)
    requires
        session.state == LoopState::Stopped,
    ensures
        after_events(session, events).state == LoopState::Stopped,
{
    lemma_stopped_after_events(session, events);
}

/// The frames recorded by a loop that is fed the poll cycles in turn. Each
/// iteration of a running loop polls one cycle and then records one frame; a
/// stopped loop begins no iteration.
pub open spec fn frames_recorded(session: RenderSession, cycles: Seq<Seq<WindowEvent>>) -> nat
    decreases cycles.len(),
{
    if session.state != LoopState::Running || cycles.len() == 0 {
        0
    } else {
        1 + frames_recorded(after_events(session, cycles.first()), cycles.drop_first())
    }
}

/// A stop that arrives in a poll cycle lets the frame of that iteration
/// complete and no further frame begin, whatever arrives later.
pub proof fn lemma_stop_completes_one_frame(
    session: RenderSession,
    cycles: Seq<Seq<WindowEvent>>,
    k: int,
)
    requires
        session.state == LoopState::Running,
        cycles.len() > 0,
        0 <= k < cycles.first().len(),
        requests_stop(cycles.first()[k]),
    ensures
        frames_recorded(session, cycles) == 1,
{
    lemma_stopped_after_events(session, cycles.first());
    assert(frames_recorded(after_events(session, cycles.first()), cycles.drop_first()) == 0);
}

/// While no stop arrives, every poll cycle is followed by a frame.
pub proof fn lemma_frames_without_stop(session: RenderSession, cycles: Seq<Seq<WindowEvent>>)
    requires
        session.state == LoopState::Running,
        forall|c: int, k: int|
            0 <= c < cycles.len() && 0 <= k < cycles[c].len() ==> !requests_stop(
                #[trigger] cycles[c][k],
            ),
    ensures
        frames_recorded(session, cycles) == cycles.len(),
    decreases cycles.len(),
{
    if cycles.len() > 0 {
        let next = after_events(session, cycles.first());
        lemma_stopped_after_events(session, cycles.first());
        let rest = cycles.drop_first();
        assert forall|c: int, k: int| 0 <= c < rest.len() && 0 <= k < rest[c].len() implies !requests_stop(
            #[trigger] rest[c][k],
        ) by {
            assert(rest[c] == cycles[c + 1]);
        }
        lemma_frames_without_stop(next, rest);
    }
}

/// After a poll cycle that holds a resize, a session whose chain was
/// configured renders nothing before the chain is rebuilt: the frame step
/// is a rebuild with the dimensions of the last resize.
pub proof fn lemma_resize_in_cycle_forces_rebuild(
    session: RenderSession,
    events: Seq<WindowEvent>,
    last: int,
)
    requires
        !(session.swap_chain is Unconfigured),
        0 <= last < events.len(),
        events[last] is Resized,
        forall|k: int| last < k < events.len() ==> !((#[trigger] events[k]) is Resized),
    ensures
        frame_step_of(after_events(session, events).swap_chain) matches FrameStep::Rebuild(d)
            && d.width == events[last]->width && d.height == events[last]->height,
    decreases events.len(),
{
    let init = events.drop_last();
    lemma_chain_stays_configured(session, init);
    if last < events.len() - 1 {
        lemma_resize_in_cycle_forces_rebuild(session, init, last);
    }
}

/// Events never take a swap chain back to the unconfigured state.
pub proof fn lemma_chain_stays_configured(session: RenderSession, events: Seq<WindowEvent>)
    requires
        !(session.swap_chain is Unconfigured),
    ensures
        !(after_events(session, events).swap_chain is Unconfigured),
    decreases events.len(),
{
    if events.len() > 0 {
        lemma_chain_stays_configured(session, events.drop_last());
    }
}

} // verus!
