//! What holds of every run of the coordinator.
//!
//! Each law is stated over [`step`], [`state_after`] and [`actions_of`], the
//! functions by which `Coordinator::step` and `Coordinator::run` say what they
//! do.

use vstd::prelude::*;
use crate::command::CommandView;
use crate::coordinator::model::{
    actions_of, delivered, enabled_after, key_burst, keys_let_through, last_session_id,
    state_after, step, switch, ActionView, CoordinatorView, EventView,
};
use crate::session::SessionView;
use crate::text::lowercase;

verus! {

/// Handling one more event is one more step from the state reached so far.
pub proof fn lemma_state_after_next<E>(state: CoordinatorView, events: Seq<EventView<E>>, i: int)
    requires
        0 <= i < events.len(),
    ensures
        state_after(state, events.take(i + 1)) == step(state_after(state, events.take(i)), events[i]).0,
{
    assert(events.take(i + 1).drop_last() =~= events.take(i));
    assert(events.take(i + 1).last() == events[i]);
}

/// Events are handled one by one, in arrival order: a run over `first`
/// followed by `second` is the run over `first`, then the run over `second`
/// from the state that `first` left. No answer is revised by what arrives
/// later.
pub proof fn law_runs_compose<E>(
    state: CoordinatorView,
    first: Seq<EventView<E>>,
    second: Seq<EventView<E>>,
)
    ensures
        state_after(state, first + second) == state_after(state_after(state, first), second),
        actions_of(state, first + second) == actions_of(state, first) + actions_of(
            state_after(state, first),
            second,
        ),
    decreases second.len(),
{
    let middle = state_after(state, first);
    if second.len() == 0 {
        assert(first + second =~= first);
    } else {
        law_runs_compose(state, first, second.drop_last());
        assert((first + second).drop_last() =~= first + second.drop_last());
        assert((first + second).last() == second.last());
    }
    let whole = actions_of(state, first + second);
    let parts = actions_of(state, first) + actions_of(middle, second);
    assert forall|i: int| 0 <= i < whole.len() implies whole[i] == parts[i] by {
        if i < first.len() {
            assert((first + second).take(i) =~= first.take(i));
        } else {
            let j = i - first.len();
            assert((first + second).take(i) =~= first + second.take(j));
            law_runs_compose(state, first, second.take(j));
        }
    }
    assert(whole =~= parts);
}

/// The worker sees key events in the order in which they were sent: the
/// action at `i` answers the event at `i`, and where it hands a key event to a
/// session, that key event is the one which arrived at `i`, forwarding was on,
/// and the session is the one active at that moment.
pub proof fn law_keys_are_handled_in_arrival_order<E>(
    state: CoordinatorView,
    events: Seq<EventView<E>>,
)
    ensures
        actions_of(state, events).len() == events.len(),
        forall|i: int|
            0 <= i < events.len() ==> (#[trigger] actions_of(state, events)[i]
                matches ActionView::HandleKey { session, event } ==> {
                &&& events[i] == EventView::Received(CommandView::KeyEvent(event))
                &&& state_after(state, events.take(i)).enabled
                &&& session == state_after(state, events.take(i)).active.id
            }),
{
}

/// A run without its last event is answered as the run is, up to that event.
proof fn lemma_actions_without_last<E>(state: CoordinatorView, events: Seq<EventView<E>>)
    requires
        events.len() > 0,
    ensures
        actions_of(state, events).drop_last() == actions_of(state, events.drop_last()),
        actions_of(state, events).last() == step(
            state_after(state, events.drop_last()),
            events.last(),
        ).1,
{
    let earlier = events.drop_last();
    assert forall|i: int| 0 <= i < earlier.len() implies actions_of(state, events)[i] == actions_of(
        state,
        earlier,
    )[i] by {
        assert(events.take(i) =~= earlier.take(i));
    }
    assert(actions_of(state, events).drop_last() =~= actions_of(state, earlier));
    assert(events.take(events.len() - 1) =~= earlier);
}

/// The worker sees exactly the key events that were sent while forwarding
/// was on, in the order in which they were sent: none is lost, none comes
/// twice, none overtakes another, and none gets through while forwarding is
/// off. Forwarding is on or off as the last switch says.
pub proof fn law_worker_sees_the_keys_sent_while_enabled<E>(
    state: CoordinatorView,
    events: Seq<EventView<E>>,
)
    ensures
        state_after(state, events).enabled == enabled_after(state.enabled, events),
        delivered(actions_of(state, events)).map_values(|handed: (int, E)| handed.1)
            == keys_let_through(state.enabled, events),
    decreases events.len(),
{
    let seen = delivered(actions_of(state, events)).map_values(|handed: (int, E)| handed.1);
    if events.len() == 0 {
        assert(actions_of(state, events) =~= Seq::<ActionView<E>>::empty());
        assert(seen =~= Seq::<E>::empty());
    } else {
        let earlier = events.drop_last();
        law_worker_sees_the_keys_sent_while_enabled(state, earlier);
        lemma_actions_without_last(state, events);
        let seen_earlier = delivered(actions_of(state, earlier)).map_values(
            |handed: (int, E)| handed.1,
        );
        match actions_of(state, events).last() {
            ActionView::HandleKey { session, event } => {
                assert(seen =~= seen_earlier.push(event));
            },
            _ => {
                assert(seen =~= seen_earlier);
            },
        }
    }
}

/// The number of the active session never goes down, and the catalogue and
/// the mute key never change.
pub proof fn law_sessions_only_advance<E>(state: CoordinatorView, events: Seq<EventView<E>>)
    ensures
        state_after(state, events).active.id >= state.active.id,
        state_after(state, events).presets == state.presets,
        state_after(state, events).mute_key == state.mute_key,
    decreases events.len(),
{
    if events.len() > 0 {
        law_sessions_only_advance(state, events.drop_last());
    }
}

/// A sound state stays sound.
pub proof fn law_soundness_is_kept<E>(state: CoordinatorView, events: Seq<EventView<E>>)
    requires
        state.wf(),
    ensures
        state_after(state, events).wf(),
    decreases events.len(),
{
    if events.len() > 0 {
        law_soundness_is_kept(state, events.drop_last());
    }
}

/// While forwarding is off, a key event reaches no session and changes
/// nothing.
pub proof fn law_disabled_key_is_dropped<E>(state: CoordinatorView, key: E)
    requires
        !state.enabled,
    ensures
        step(state, EventView::Received(CommandView::KeyEvent(key))) == (state, ActionView::<E>::Wait),
{
}

/// From a state with forwarding off, no event of a run reaches a session as
/// long as none of them switches forwarding on.
pub proof fn law_disabled_run_delivers_nothing<E>(state: CoordinatorView, events: Seq<EventView<E>>)
    requires
        !state.enabled,
        forall|i: int| 0 <= i < events.len() ==> events[i] != switch::<E>(true),
    ensures
        !state_after(state, events).enabled,
        forall|i: int|
            0 <= i < events.len() ==> !(#[trigger] actions_of(state, events)[i] is HandleKey),
        delivered(actions_of(state, events)) == Seq::<(int, E)>::empty(),
    decreases events.len(),
{
    if events.len() > 0 {
        let before = events.drop_last();
        law_disabled_run_delivers_nothing(state, before);
        assert forall|i: int| 0 <= i < events.len() implies !(#[trigger] actions_of(
            state,
            events,
        )[i] is HandleKey) by {
            assert(events.take(i) =~= before.take(i));
            if i < before.len() {
                assert(actions_of(state, before)[i] == actions_of(state, events)[i]);
            } else {
                assert(events.take(i) =~= before);
            }
        }
        lemma_delivered_nothing(actions_of(state, events));
    } else {
        assert(actions_of(state, events) =~= Seq::<ActionView<E>>::empty());
    }
}

/// Actions that hand over no key event deliver nothing.
proof fn lemma_delivered_nothing<E>(actions: Seq<ActionView<E>>)
    requires
        forall|i: int| 0 <= i < actions.len() ==> !(#[trigger] actions[i] is HandleKey),
    ensures
        delivered(actions) == Seq::<(int, E)>::empty(),
    decreases actions.len(),
{
    if actions.len() > 0 {
        lemma_delivered_nothing(actions.drop_last());
    }
}

/// What two runs of actions deliver, one after the other.
proof fn lemma_delivered_concat<E>(first: Seq<ActionView<E>>, second: Seq<ActionView<E>>)
    ensures
        delivered(first + second) == delivered(first) + delivered(second),
    decreases second.len(),
{
    if second.len() == 0 {
        assert(first + second =~= first);
        assert(delivered(first) + delivered(second) =~= delivered(first));
    } else {
        lemma_delivered_concat(first, second.drop_last());
        assert((first + second).drop_last() =~= first + second.drop_last());
        assert((first + second).last() == second.last());
        assert(delivered(first + second) =~= delivered(first) + delivered(second));
    }
}

/// While forwarding is on, a burst of key events reaches the active session
/// whole and in order, and changes nothing.
pub proof fn law_enabled_burst_is_delivered<E>(state: CoordinatorView, keys: Seq<E>)
    requires
        state.enabled,
    ensures
        state_after(state, key_burst(keys)) == state,
        delivered(actions_of(state, key_burst(keys))) == keys.map_values(
            |key: E| (state.active.id, key),
        ),
    decreases keys.len(),
{
    let events = key_burst(keys);
    let expected = keys.map_values(|key: E| (state.active.id, key));
    if keys.len() == 0 {
        assert(actions_of(state, events) =~= Seq::<ActionView<E>>::empty());
        assert(expected =~= Seq::<(int, E)>::empty());
    } else {
        let before = keys.drop_last();
        law_enabled_burst_is_delivered(state, before);
        assert(events.drop_last() =~= key_burst(before));
        assert(events.last() == EventView::Received(CommandView::KeyEvent(keys.last())));
        let actions = actions_of(state, events);
        assert(actions.drop_last() =~= actions_of(state, key_burst(before))) by {
            assert forall|i: int| 0 <= i < before.len() implies actions[i] == actions_of(
                state,
                key_burst(before),
            )[i] by {
                assert(events.take(i) =~= key_burst(before).take(i));
            }
        }
        assert(events.take(events.len() - 1) =~= key_burst(before));
        assert(actions.last() == ActionView::HandleKey { session: state.active.id, event: keys.last() });
        assert(expected =~= before.map_values(|key: E| (state.active.id, key)).push(
            (state.active.id, keys.last()),
        ));
    }
}

/// When forwarding is switched off and on again around a burst of key
/// events, exactly that burst is dropped: the bursts before and after reach
/// the active session whole, in order.
pub proof fn law_toggle_drops_the_burst_between<E>(
    state: CoordinatorView,
    before: Seq<E>,
    between: Seq<E>,
    after: Seq<E>,
)
    requires
        state.enabled,
    ensures
        ({
            let events = key_burst(before) + seq![switch::<E>(false)] + key_burst(between)
                + seq![switch::<E>(true)] + key_burst(after);
            &&& state_after(state, events) == state
            &&& delivered(actions_of(state, events)) == (before + after).map_values(
                |key: E| (state.active.id, key),
            )
        }),
{
    let off = CoordinatorView { enabled: false, ..state };
    let e1 = key_burst(before);
    let e2 = seq![switch::<E>(false)];
    let e3 = key_burst(between);
    let e4 = seq![switch::<E>(true)];
    let e5 = key_burst(after);
    law_enabled_burst_is_delivered(state, before);
    law_enabled_burst_is_delivered(state, after);
    lemma_single(state, switch::<E>(false));
    lemma_single(off, switch::<E>(true));
    assert forall|i: int| 0 <= i < e3.len() implies e3[i] != switch::<E>(true) by {}
    law_disabled_run_delivers_nothing(off, e3);
    lemma_state_unchanged_by_keys(off, between);
    law_runs_compose(state, e1, e2);
    law_runs_compose(state, e1 + e2, e3);
    law_runs_compose(state, e1 + e2 + e3, e4);
    law_runs_compose(state, e1 + e2 + e3 + e4, e5);
    let a1 = actions_of(state, e1);
    let a2 = actions_of(state, e2);
    let a3 = actions_of(off, e3);
    let a4 = actions_of(off, e4);
    let a5 = actions_of(state, e5);
    assert(state_after(state, e1 + e2) == off);
    assert(state_after(state, e1 + e2 + e3) == off);
    assert(state_after(state, e1 + e2 + e3 + e4) == state);
    lemma_delivered_concat(a1, a2);
    lemma_delivered_concat(a1 + a2, a3);
    lemma_delivered_concat(a1 + a2 + a3, a4);
    lemma_delivered_concat(a1 + a2 + a3 + a4, a5);
    assert(delivered(a2) =~= Seq::<(int, E)>::empty()) by {
        lemma_delivered_nothing(a2);
    }
    assert(delivered(a4) =~= Seq::<(int, E)>::empty()) by {
        lemma_delivered_nothing(a4);
    }
    assert((before + after).map_values(|key: E| (state.active.id, key)) =~= before.map_values(
        |key: E| (state.active.id, key),
    ) + after.map_values(|key: E| (state.active.id, key)));
}

/// A run over one event is one step.
proof fn lemma_single<E>(state: CoordinatorView, event: EventView<E>)
    ensures
        state_after(state, seq![event]) == step(state, event).0,
        actions_of(state, seq![event]) == seq![step(state, event).1],
{
    assert(seq![event].drop_last() =~= Seq::<EventView<E>>::empty());
    assert(seq![event].take(0) =~= Seq::<EventView<E>>::empty());
    assert(state_after(state, Seq::<EventView<E>>::empty()) == state);
    assert(seq![event].last() == event);
    assert(actions_of(state, seq![event]) =~= seq![step(state, event).1]);
}

/// Key events change nothing in the state.
proof fn lemma_state_unchanged_by_keys<E>(state: CoordinatorView, keys: Seq<E>)
    ensures
        state_after(state, key_burst(keys)) == state,
    decreases keys.len(),
{
    if keys.len() > 0 {
        lemma_state_unchanged_by_keys(state, keys.drop_last());
        assert(key_burst(keys).drop_last() =~= key_burst(keys.drop_last()));
    }
}

/// A session that was replaced receives nothing more: once `session` has
/// taken over, every key event of any later run goes to `session` or to a
/// session built after it, never to the one that was active before.
pub proof fn law_replaced_session_receives_nothing<E>(
    state: CoordinatorView,
    session: SessionView,
    later: Seq<EventView<E>>,
)
    requires
        state.accepts(session),
    ensures
        ({
            let (replaced, answer) = step::<E>(state, EventView::SessionBuilt(session));
            &&& replaced.active == session
            &&& answer == ActionView::<E>::Retire { session: state.active.id }
            &&& forall|i: int|
                0 <= i < later.len() ==> (#[trigger] actions_of(replaced, later)[i]
                    matches ActionView::HandleKey { session: receiver, .. } ==> receiver >= session.id
                    > state.active.id)
        }),
{
    let replaced = step::<E>(state, EventView::SessionBuilt(session)).0;
    assert forall|i: int| 0 <= i < later.len() implies (#[trigger] actions_of(replaced, later)[i]
        matches ActionView::HandleKey { session: receiver, .. } ==> receiver >= session.id
        > state.active.id) by {
        law_sessions_only_advance(replaced, later.take(i));
    }
}

/// A request to reconfigure replaces the session for good. Where the preset
/// is in the catalogue and a session number is left, the request is answered
/// by the order to build the next session, from that preset on the device in
/// lower case; and once that session is reported built it is the active one,
/// and every key event of any later run goes to it or to a session built
/// after it, never to the one that was active before.
pub proof fn law_change_config_replaces_the_session<E>(
    state: CoordinatorView,
    preset_name: Seq<char>,
    device_name: Seq<char>,
    later: Seq<EventView<E>>,
)
    requires
        state.presets.contains(preset_name),
        state.active.id < last_session_id(),
    ensures
        ({
            let request = EventView::<E>::Received(CommandView::ChangeConfig { preset_name, device_name });
            let session = state.successor(
                state.presets.index_of_first(preset_name).unwrap(),
                lowercase(device_name),
            );
            let replaced = step::<E>(state, EventView::SessionBuilt(session)).0;
            &&& step(state, request) == (state, ActionView::<E>::BuildSession(session))
            &&& session.config.preset_name == preset_name
            &&& session.config.device_name == lowercase(device_name)
            &&& session.id == state.active.id + 1
            &&& replaced.active == session
            &&& forall|i: int|
                0 <= i < later.len() ==> (#[trigger] actions_of(replaced, later)[i]
                    matches ActionView::HandleKey { session: receiver, .. } ==> receiver >= session.id
                    > state.active.id)
        }),
{
    state.presets.index_of_first_ensures(preset_name);
    let session = state.successor(
        state.presets.index_of_first(preset_name).unwrap(),
        lowercase(device_name),
    );
    assert(state.accepts(session));
    law_replaced_session_receives_nothing(state, session, later);
}

/// After a change of configuration the new session gets every key event and
/// the old one none. Where forwarding is on, the preset is in the catalogue
/// and a session number is left, a request to reconfigure, the report that
/// its session is built and then a burst of key events hand each key event of
/// the burst, in order, to the new session, and nothing to any other.
pub proof fn law_keys_after_a_change_reach_the_new_session<E>(
    state: CoordinatorView,
    preset_name: Seq<char>,
    device_name: Seq<char>,
    keys: Seq<E>,
)
    requires
        state.enabled,
        state.presets.contains(preset_name),
        state.active.id < last_session_id(),
    ensures
        ({
            let session = state.successor(
                state.presets.index_of_first(preset_name).unwrap(),
                lowercase(device_name),
            );
            let events = seq![
                EventView::<E>::Received(CommandView::ChangeConfig { preset_name, device_name }),
                EventView::<E>::SessionBuilt(session),
            ] + key_burst(keys);
            &&& state_after(state, events).active == session
            &&& delivered(actions_of(state, events)) == keys.map_values(|key: E| (session.id, key))
        }),
{
    let request = EventView::<E>::Received(CommandView::ChangeConfig { preset_name, device_name });
    let session = state.successor(
        state.presets.index_of_first(preset_name).unwrap(),
        lowercase(device_name),
    );
    let built = EventView::<E>::SessionBuilt(session);
    let replaced = step(state, built).0;
    law_change_config_replaces_the_session::<E>(state, preset_name, device_name, Seq::empty());
    lemma_single(state, request);
    lemma_single(state, built);
    law_runs_compose(state, seq![request], seq![built]);
    assert(seq![request] + seq![built] =~= seq![request, built]);
    law_runs_compose(state, seq![request, built], key_burst(keys));
    law_enabled_burst_is_delivered(replaced, keys);
    let change = actions_of(state, seq![request, built]);
    lemma_delivered_nothing(change);
    lemma_delivered_concat(change, actions_of(replaced, key_burst(keys)));
    assert(delivered(change) + delivered(actions_of(replaced, key_burst(keys))) =~= delivered(
        actions_of(replaced, key_burst(keys)),
    ));
}

/// A request to reconfigure changes nothing by itself, and a session that
/// could not be built changes nothing either: after both, the state is what
/// it was, so the session that was active goes on receiving, and every later
/// run is answered as if the request had never come.
pub proof fn law_failed_build_keeps_the_session<E>(
    state: CoordinatorView,
    preset_name: Seq<char>,
    device_name: Seq<char>,
    failed: SessionView,
    later: Seq<EventView<E>>,
)
    ensures
        ({
            let request = EventView::<E>::Received(CommandView::ChangeConfig { preset_name, device_name });
            let attempt = seq![request, EventView::<E>::SessionFailed(failed)];
            &&& step(state, request).0 == state
            &&& step::<E>(state, EventView::SessionFailed(failed)) == (state, ActionView::<E>::Wait)
            &&& state_after(state, attempt) == state
            &&& state_after(state, attempt + later) == state_after(state, later)
            &&& actions_of(state, attempt + later) == actions_of(state, attempt) + actions_of(
                state,
                later,
            )
        }),
{
    let request = EventView::<E>::Received(CommandView::ChangeConfig { preset_name, device_name });
    let report = EventView::<E>::SessionFailed(failed);
    let attempt = seq![request, report];
    lemma_single(state, request);
    lemma_single(state, report);
    law_runs_compose(state, seq![request], seq![report]);
    assert(seq![request] + seq![report] =~= attempt);
    law_runs_compose(state, attempt, later);
}

} // verus!
