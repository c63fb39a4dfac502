//! The projection window: one full-screen, undecorated, always-on-top window
//! that shows the application's entry document to an audience.
//!
//! The host runtime keeps the registry of live windows. A command first
//! learns from the host whether the projection window is registered, then
//! decides here what to ask of the host, and finally turns the host's reply
//! into its own result. The decisions never ask for a second window while one
//! is registered.

use vstd::prelude::*;
use crate::config::{projection_config, projection_window_config, WindowConfig, WindowConfigView};
use crate::host::{outcome_view, report, reported, HostOperationError};

verus! {

/// Whether a window is registered with the host under the projection label.
#[derive(Clone, Copy, Debug, PartialEq, Eq, Structural)]
pub enum WindowState {
    Absent,
    Present,
}

/// Something that happens to the projection window: one of the two commands,
/// or the user closing the window through the host's own controls.
#[derive(Clone, Copy, Debug, PartialEq, Eq, Structural)]
pub enum Event {
    Open,
    Close,
    ClosedByUser,
}

/// What a command asks of the host.
#[derive(Clone, Debug, PartialEq, Eq)]
pub enum WindowAction {
    /// Construct a window with these settings.
    Create(WindowConfig),
    /// Bring the registered projection window to the front.
    Focus,
    /// Close the registered projection window.
    Destroy,
    /// Ask nothing of the host.
    Nothing,
}

/// The mathematical value of a [`WindowAction`].
pub enum WindowActionView {
    Create(WindowConfigView),
    Focus,
    Destroy,
    Nothing,
}

impl View for WindowAction {
    type V = WindowActionView;

    open spec fn view(&self) -> WindowActionView {
        match self {
            WindowAction::Create(config) => WindowActionView::Create(config@),
            WindowAction::Focus => WindowActionView::Focus,
            WindowAction::Destroy => WindowActionView::Destroy,
            WindowAction::Nothing => WindowActionView::Nothing,
        }
    }
}

/// The values of a sequence of requests, one by one.
pub open spec fn views_of(actions: Seq<WindowAction>) -> Seq<WindowActionView> {
    actions.map_values(|action: WindowAction| action@)
}

/// The request that answers `event` when the registry is in `state`. A window
/// is constructed with the projection window's settings and no others. The
/// user closing the window is the host's own doing and asks for nothing.
pub open spec fn action_for(state: WindowState, event: Event) -> WindowActionView {
    match (event, state) {
        (Event::Open, WindowState::Absent) => WindowActionView::Create(projection_config()),
        (Event::Open, WindowState::Present) => WindowActionView::Focus,
        (Event::Close, WindowState::Present) => WindowActionView::Destroy,
        (Event::Close, WindowState::Absent) => WindowActionView::Nothing,
        (Event::ClosedByUser, _) => WindowActionView::Nothing,
    }
}

/// The registry's state once the host has carried out `action` from `state`.
pub open spec fn effect_of(state: WindowState, action: WindowActionView) -> WindowState {
    match action {
        WindowActionView::Create(_) => WindowState::Present,
        WindowActionView::Destroy => WindowState::Absent,
        WindowActionView::Focus => state,
        WindowActionView::Nothing => state,
    }
}

/// The registry's state after `event`, given that the host carried out what
/// was asked of it.
pub open spec fn state_after(state: WindowState, event: Event) -> WindowState {
    match event {
        Event::ClosedByUser => WindowState::Absent,
        _ => effect_of(state, action_for(state, event)),
    }
}

/// The registry's state after all of `events`, taken in order from `start`.
pub open spec fn final_state(start: WindowState, events: Seq<Event>) -> WindowState
    decreases events.len(),
{
    if events.len() == 0 {
        start
    } else {
        state_after(final_state(start, events.drop_last()), events.last())
    }
}

/// The requests made of the host, one for each of `events`, in order.
pub open spec fn actions_of(start: WindowState, events: Seq<Event>) -> Seq<WindowActionView>
    decreases events.len(),
{
    if events.len() == 0 {
        Seq::empty()
    } else {
        actions_of(start, events.drop_last()).push(
            action_for(final_state(start, events.drop_last()), events.last()),
        )
    }
}

impl Default for WindowState {
    /// The state at start-up: no projection window is registered.
    fn default() -> (state: WindowState)
        ensures
            state == WindowState::Absent,
    {
        WindowState::Absent
    }
}

impl WindowState {
    /// The state that a lookup in the host's registry shows.
    pub fn from_lookup(found: bool) -> (state: WindowState)
        ensures
            state == (if found {
                WindowState::Present
            } else {
                WindowState::Absent
            }),
    {
        if found {
            WindowState::Present
        } else {
            WindowState::Absent
        }
    }
}

/// Decides what opening the projection window asks of the host: a registered
/// window is focused, and only where none is registered is one constructed.
pub fn open_projection_window(state: WindowState) -> (action: WindowAction)
    ensures
        action@ == action_for(state, Event::Open),
{
    match state {
        WindowState::Present => WindowAction::Focus,
        WindowState::Absent => WindowAction::Create(projection_window_config()),
    }
}

/// Decides what closing the projection window asks of the host: a registered
/// window is closed, and where none is registered there is nothing to do.
pub fn close_projection_window(state: WindowState) -> (action: WindowAction)
    ensures
        action@ == action_for(state, Event::Close),
{
    match state {
        WindowState::Present => WindowAction::Destroy,
        WindowState::Absent => WindowAction::Nothing,
    }
}

/// What the caller sees once `action` has been handed to the host and the
/// host has answered with `reply`. Where nothing was asked, nothing can have
/// failed.
pub open spec fn result_of(
    action: WindowActionView,
    reply: Result<(), HostOperationError>,
) -> Result<(), Seq<char>> {
    match action {
        WindowActionView::Nothing => Ok(()),
        _ => reported(reply),
    }
}

/// Turns the host's reply to `action` into the command's result.
pub fn command_result(action: &WindowAction, reply: Result<(), HostOperationError>) -> (outcome:
    Result<(), String>)
    ensures
        outcome_view(outcome) == result_of(action@, reply),
{
    match action {
        WindowAction::Nothing => Ok(()),
        _ => report(reply),
    }
}

/// One step of the lifecycle: the request that answers `event` and the state
/// in which a host that carries it out leaves the registry.
pub fn step(state: WindowState, event: Event) -> (next: (WindowState, WindowAction))
    ensures
        next.0 == state_after(state, event),
        next.1@ == action_for(state, event),
{
    match event {
        Event::Open => (WindowState::Present, open_projection_window(state)),
        Event::Close => (WindowState::Absent, close_projection_window(state)),
        Event::ClosedByUser => (WindowState::Absent, WindowAction::Nothing),
    }
}

/// Runs `events` in order against a host that carries out every request, and
/// returns the requests made and the state that the registry ends in.
pub fn replay(start: WindowState, events: &Vec<Event>) -> (run: (Vec<WindowAction>, WindowState))
    ensures
        views_of(run.0@) == actions_of(start, events@),
        run.1 == final_state(start, events@),
{
    let mut actions: Vec<WindowAction> = Vec::new();
    let mut state = start;
    let mut i: usize = 0;
    while i < events.len()
        invariant
            i <= events.len(),
            views_of(actions@) == actions_of(start, events@.take(i as int)),
            state == final_state(start, events@.take(i as int)),
        decreases events.len() - i,
    {
        proof {
            let upto = events@.take(i + 1);
            assert(upto.drop_last() == events@.take(i as int));
            assert(upto.last() == events@[i as int]);
        }
        let (next, action) = step(state, events[i]);
        proof {
            assert(views_of(actions@.push(action)) == views_of(actions@).push(action@));
        }
        actions.push(action);
        state = next;
        i += 1;
    }
    proof {
        assert(events@.take(events.len() as int) == events@);
    }
    (actions, state)
}

} // verus!
