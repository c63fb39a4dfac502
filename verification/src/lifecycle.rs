//! What holds of the projection window over time, whatever the order of
//! commands, as long as the host carries out what it is asked.

use vstd::prelude::*;
use crate::config::projection_config;
use crate::host::HostOperationError;
use crate::projection::{
    action_for, actions_of, final_state, result_of, state_after, Event, WindowActionView,
    WindowState,
};

verus! {

/// The number of live windows under the projection label in `state`.
pub open spec fn live_windows(state: WindowState) -> int {
    match state {
        WindowState::Absent => 0,
        WindowState::Present => 1,
    }
}

/// The number of live windows once the host has carried out `action` with
/// `count` windows live: constructing adds one and closing removes one.
pub open spec fn windows_after(count: int, action: WindowActionView) -> int {
    match action {
        WindowActionView::Create(_) => count + 1,
        WindowActionView::Destroy => count - 1,
        WindowActionView::Focus => count,
        WindowActionView::Nothing => count,
    }
}

/// Whether every one of `events` is an open command.
pub open spec fn all_open(events: Seq<Event>) -> bool {
    forall|i: int| 0 <= i < events.len() ==> events[i] == Event::Open
}

/// There is one request for each event, and the request for the event at
/// `index` is the one decided in the state that the events before it lead to.
pub proof fn lemma_action_at(start: WindowState, events: Seq<Event>, index: int)
    requires
        0 <= index < events.len(),
    ensures
        actions_of(start, events).len() == events.len(),
        actions_of(start, events)[index] == action_for(
            final_state(start, events.take(index)),
            events[index],
        ),
    decreases events.len(),
{
    let earlier = events.drop_last();
    lemma_actions_len(start, earlier);
    if index == events.len() - 1 {
        assert(events.take(index) == earlier);
    } else {
        lemma_action_at(start, earlier, index);
        assert(earlier.take(index) == events.take(index));
    }
}

/// There is one request for each event.
pub proof fn lemma_actions_len(start: WindowState, events: Seq<Event>)
    ensures
        actions_of(start, events).len() == events.len(),
    decreases events.len(),
{
    if events.len() > 0 {
        lemma_actions_len(start, events.drop_last());
    }
}

/// No event leaves more than one projection window, and a window is
/// constructed only where none is live. For the two commands the count of
/// live windows follows the request made: constructing adds one, closing
/// removes one, and the result is the count that the next state stands for.
pub proof fn lemma_at_most_one_window(state: WindowState, event: Event)
    ensures
        0 <= live_windows(state_after(state, event)) <= 1,
        action_for(state, event) is Create ==> live_windows(state) == 0,
        action_for(state, event) is Destroy ==> live_windows(state) == 1,
        event != Event::ClosedByUser ==> windows_after(
            live_windows(state),
            action_for(state, event),
        ) == live_windows(state_after(state, event)),
{
}

/// In any run of events, a window is constructed exactly where an open
/// command finds none registered, and a registered window is closed exactly
/// where a close command finds one.
pub proof fn lemma_requests_follow_the_registry(
    start: WindowState,
    events: Seq<Event>,
    index: int,
)
    requires
        0 <= index < events.len(),
    ensures
        actions_of(start, events)[index] is Create <==> events[index] == Event::Open
            && final_state(start, events.take(index)) == WindowState::Absent,
        actions_of(start, events)[index] is Focus <==> events[index] == Event::Open
            && final_state(start, events.take(index)) == WindowState::Present,
        actions_of(start, events)[index] is Destroy <==> events[index] == Event::Close
            && final_state(start, events.take(index)) == WindowState::Present,
{
    lemma_action_at(start, events, index);
}

/// After one or more open commands with no close between them the window is
/// present, whatever the state before.
pub proof fn lemma_open_leaves_present(start: WindowState, events: Seq<Event>)
    requires
        all_open(events),
        events.len() > 0,
    ensures
        final_state(start, events) == WindowState::Present,
{
    assert(events.last() == Event::Open);
}

/// In a run of open commands with no close between them, the window is
/// present after each command, every command after the first only focuses,
/// and a window is constructed at most once: by the first command, and only
/// where none was present before.
pub proof fn lemma_repeated_open(start: WindowState, events: Seq<Event>)
    requires
        all_open(events),
    ensures
        actions_of(start, events).len() == events.len(),
        forall|k: int|
            1 <= k <= events.len() ==> #[trigger] final_state(start, events.take(k))
                == WindowState::Present,
        forall|i: int|
            1 <= i < events.len() ==> #[trigger] actions_of(start, events)[i]
                == WindowActionView::Focus,
        forall|i: int|
            0 <= i < events.len() && #[trigger] actions_of(start, events)[i] is Create ==> i == 0
                && start == WindowState::Absent,
{
    lemma_actions_len(start, events);
    assert forall|k: int| 1 <= k <= events.len() implies #[trigger] final_state(
        start,
        events.take(k),
    ) == WindowState::Present by {
        lemma_open_leaves_present(start, events.take(k));
    }
    assert forall|i: int| 0 <= i < events.len() implies (i >= 1 ==> #[trigger] actions_of(
        start,
        events,
    )[i] == WindowActionView::Focus) && (actions_of(start, events)[i] is Create ==> i == 0
        && start == WindowState::Absent) by {
        lemma_action_at(start, events, i);
        if i >= 1 {
            lemma_open_leaves_present(start, events.take(i));
        } else {
            assert(events.take(0) =~= Seq::<Event>::empty());
        }
    }
}

/// Closing is idempotent: a second close changes nothing, and closing where
/// no window is registered asks nothing of the host and succeeds, whatever
/// the host would have answered.
pub proof fn lemma_close_is_idempotent(state: WindowState, reply: Result<(), HostOperationError>)
    ensures
        state_after(state_after(state, Event::Close), Event::Close) == state_after(
            state,
            Event::Close,
        ),
        action_for(state_after(state, Event::Close), Event::Close) == WindowActionView::Nothing,
        action_for(WindowState::Absent, Event::Close) == WindowActionView::Nothing,
        state_after(WindowState::Absent, Event::Close) == WindowState::Absent,
        result_of(action_for(WindowState::Absent, Event::Close), reply) == Ok::<(), Seq<char>>(()),
{
}

/// Closing removes the window for good: open, close, open constructs a new
/// window with the second open, whatever the state before.
pub proof fn lemma_reopen_after_close(start: WindowState)
    ensures
        actions_of(start, seq![Event::Open, Event::Close, Event::Open]) == seq![
            action_for(start, Event::Open),
            WindowActionView::Destroy,
            WindowActionView::Create(projection_config()),
        ],
        final_state(start, seq![Event::Open, Event::Close, Event::Open]) == WindowState::Present,
{
    let events = seq![Event::Open, Event::Close, Event::Open];
    let two = seq![Event::Open, Event::Close];
    let one = seq![Event::Open];
    assert(events.drop_last() == two);
    assert(two.drop_last() == one);
    assert(one.drop_last() == Seq::<Event>::empty());
    reveal_with_fuel(final_state, 4);
    reveal_with_fuel(actions_of, 4);
}

/// The user closing the window is tolerated: the next open constructs a new
/// window and the next close has nothing to do.
pub proof fn lemma_closed_by_user(state: WindowState)
    ensures
        state_after(state, Event::ClosedByUser) == WindowState::Absent,
        action_for(state_after(state, Event::ClosedByUser), Event::Open)
            == WindowActionView::Create(projection_config()),
        action_for(state_after(state, Event::ClosedByUser), Event::Close)
            == WindowActionView::Nothing,
{
}

} // verus!
