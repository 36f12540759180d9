//! The render scheduler: the render loop as a state machine that says when
//! to register for the next display refresh and when to draw.

use vstd::prelude::*;

verus! {

/// Where the loop stands.
#[derive(Clone, Copy, Debug, PartialEq, Eq, Structural)]
pub enum SchedulerState {
    /// Not started: no callback is registered.
    Idle,
    /// A callback is registered and the next display refresh is awaited.
    Armed,
    /// A display refresh has invoked the callback. `rearmed` tells whether
    /// the callback for the refresh after this one is registered already.
    Running { rearmed: bool },
}

/// What the host reports to the scheduler.
#[derive(Clone, Copy, Debug, PartialEq, Eq, Structural)]
pub enum Event {
    /// The session starts.
    Start,
    /// The display is about to repaint and has invoked the callback.
    Refresh,
    /// The registration that the scheduler asked for while running is made.
    Rearmed,
    /// The frame was sampled, projected and painted.
    FrameFinished,
    /// The work on the frame was given up.
    FrameFailed,
}

/// What the scheduler asks the host to do next.
#[derive(Clone, Copy, Debug, PartialEq, Eq, Structural)]
pub enum Action {
    /// Register the callback for the next display refresh.
    Register,
    /// Sample, project and paint one frame.
    Draw,
    /// Nothing until the next display refresh.
    Wait,
}

/// A step of the loop: the state it leads to and what it asks for.
#[derive(Clone, Copy, Debug, PartialEq, Eq, Structural)]
pub struct Transition {
    pub next: SchedulerState,
    pub action: Action,
}

/// A callback is registered for the next display refresh.
pub open spec fn registered(state: SchedulerState) -> bool {
    state == SchedulerState::Armed || state == (SchedulerState::Running { rearmed: true })
}

/// The step that `event` causes in `state`, or `None` where the event cannot
/// occur there.
///
/// Starting registers the callback once. A refresh is answered by
/// registering for the next one, before anything is drawn; drawing is asked
/// for when that is done. The end of a frame, good or bad, leaves the loop
/// armed, and so does a frame that never reports back: the next refresh
/// starts the next frame.
pub open spec fn step_spec(state: SchedulerState, event: Event) -> Option<Transition> {
    match (state, event) {
        (SchedulerState::Idle, Event::Start) => Some(
            Transition { next: SchedulerState::Armed, action: Action::Register },
        ),
        (SchedulerState::Armed, Event::Refresh) => Some(
            Transition {
                next: SchedulerState::Running { rearmed: false },
                action: Action::Register,
            },
        ),
        (SchedulerState::Running { rearmed: true }, Event::Refresh) => Some(
            Transition {
                next: SchedulerState::Running { rearmed: false },
                action: Action::Register,
            },
        ),
        (SchedulerState::Running { rearmed: false }, Event::Rearmed) => Some(
            Transition { next: SchedulerState::Running { rearmed: true }, action: Action::Draw },
        ),
        (SchedulerState::Running { rearmed: true }, Event::FrameFinished) => Some(
            Transition { next: SchedulerState::Armed, action: Action::Wait },
        ),
        (SchedulerState::Running { rearmed: true }, Event::FrameFailed) => Some(
            Transition { next: SchedulerState::Armed, action: Action::Wait },
        ),
        _ => None,
    }
}

/// Computes the step that `event` causes in `state`.
pub fn step(state: SchedulerState, event: Event) -> (transition: Option<Transition>)
    ensures
        transition == step_spec(state, event),
{
    match (state, event) {
        (SchedulerState::Idle, Event::Start) => Some(
            Transition { next: SchedulerState::Armed, action: Action::Register },
        ),
        (SchedulerState::Armed, Event::Refresh) => Some(
            Transition {
                next: SchedulerState::Running { rearmed: false },
                action: Action::Register,
            },
        ),
        (SchedulerState::Running { rearmed }, Event::Refresh) => {
            if rearmed {
                Some(
                    Transition {
                        next: SchedulerState::Running { rearmed: false },
                        action: Action::Register,
                    },
                )
            } else {
                None
            }
        },
        (SchedulerState::Running { rearmed }, Event::Rearmed) => {
            if rearmed {
                None
            } else {
                Some(
                    Transition {
                        next: SchedulerState::Running { rearmed: true },
                        action: Action::Draw,
                    },
                )
            }
        },
        (SchedulerState::Running { rearmed }, Event::FrameFinished) => {
            if rearmed {
                Some(Transition { next: SchedulerState::Armed, action: Action::Wait })
            } else {
                None
            }
        },
        (SchedulerState::Running { rearmed }, Event::FrameFailed) => {
            if rearmed {
                Some(Transition { next: SchedulerState::Armed, action: Action::Wait })
            } else {
                None
            }
        },
        _ => None,
    }
}

/// Whenever a callback is registered, the refresh that invokes it is
/// served, and the first thing asked for is the next registration.
pub proof fn lemma_refresh_rearms_first(state: SchedulerState)
    ensures
        registered(state) <==> step_spec(state, Event::Refresh) is Some,
        registered(state) ==> step_spec(state, Event::Refresh) == Some(
            Transition {
                next: SchedulerState::Running { rearmed: false },
                action: Action::Register,
            },
        ),
{
}

/// Drawing is asked for only in answer to the registration for the next
/// refresh, and a callback is registered whenever a frame is drawn.
pub proof fn lemma_draw_follows_rearm(state: SchedulerState, event: Event)
    requires
        step_spec(state, event) matches Some(transition) && transition.action == Action::Draw,
    ensures
        event == Event::Rearmed,
        state == (SchedulerState::Running { rearmed: false }),
        registered(step_spec(state, event)->0.next),
{
}

/// A frame that fails leaves the loop where a frame that succeeds leaves
/// it: armed.
pub proof fn lemma_failure_keeps_loop_armed(state: SchedulerState)
    ensures
        step_spec(state, Event::FrameFailed) == step_spec(state, Event::FrameFinished),
        step_spec(state, Event::FrameFailed) matches Some(transition) ==> transition.next
            == SchedulerState::Armed,
{
}

/// One registration is asked for at the start and one for every refresh
/// that is served, and none besides.
pub proof fn lemma_one_registration_per_refresh(state: SchedulerState, event: Event)
    requires
        step_spec(state, event) is Some,
    ensures
        step_spec(state, event)->0.action == Action::Register <==> event == Event::Start || event
            == Event::Refresh,
{
}

/// The loop has no end: no step leads back to `Idle`, and in every state
/// some event can occur.
pub proof fn lemma_loop_never_ends(state: SchedulerState, event: Event)
    ensures
        step_spec(state, event) matches Some(transition) ==> transition.next
            != SchedulerState::Idle,
        exists|possible: Event| step_spec(state, possible) is Some,
{
    match state {
        SchedulerState::Idle => {
            assert(step_spec(state, Event::Start) is Some);
        },
        SchedulerState::Armed => {
            assert(step_spec(state, Event::Refresh) is Some);
        },
        SchedulerState::Running { rearmed } => {
            if rearmed {
                assert(step_spec(state, Event::Refresh) is Some);
            } else {
                assert(step_spec(state, Event::Rearmed) is Some);
            }
        },
    }
}

/// The scheduler of one session: it owns the state of the loop.
pub struct RenderScheduler {
    state: SchedulerState,
}

impl View for RenderScheduler {
    type V = SchedulerState;

    closed spec fn view(&self) -> SchedulerState {
        self.state
    }
}

impl RenderScheduler {
    /// A scheduler that has not started.
    pub fn new() -> (scheduler: RenderScheduler)
        ensures
            scheduler@ == SchedulerState::Idle,
    {
        RenderScheduler { state: SchedulerState::Idle }
    }

    /// The state of the loop.
    pub fn state(&self) -> (state: SchedulerState)
        ensures
            state == self@,
    {
        self.state
    }

    /// Takes an event and says what to do next. An event that cannot occur
    /// in the present state is answered with `None` and changes nothing.
    pub fn handle(&mut self, event: Event) -> (action: Option<Action>)
        ensures
            match step_spec(old(self)@, event) {
                Some(transition) => final(self)@ == transition.next && action == Some(
                    transition.action,
                ),
                None => final(self)@ == old(self)@ && action is None,
            },
    {
        match step(self.state, event) {
            Some(transition) => {
                self.state = transition.next;
                Some(transition.action)
            },
            None => None,
        }
    }
}

} // verus!
