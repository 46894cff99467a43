//! The coordinator as a transition system on mathematical values.
//!
//! [`step`] is the whole rule book: what one event does to the state and which
//! action answers it. [`actions_of`] and [`state_after`] extend it to a
//! sequence of events handled one after the other.

use vstd::prelude::*;
use crate::command::CommandView;
use crate::session::{SessionConfigView, SessionView};
use crate::text::lowercase;

verus! {

/// Why the coordinator gives up.
pub enum FatalView {
    UnknownPreset(Seq<char>),
    SessionsExhausted,
}

/// What the loop reports to the coordinator.
pub enum EventView<E> {
    Received(CommandView<E>),
    Disconnected,
    KeyFailed,
    SessionBuilt(SessionView),
    SessionFailed(SessionView),
}

/// What the coordinator asks of the loop.
pub enum ActionView<E> {
    Wait,
    HandleKey { session: int, event: E },
    BuildSession(SessionView),
    Retire { session: int },
    Stop,
    Abort(FatalView),
}

/// State of the coordinator.
pub struct CoordinatorView {
    /// Names of the presets, in catalogue order.
    pub presets: Seq<Seq<char>>,
    /// Mute key that every session is built with.
    pub mute_key: Option<u32>,
    /// Whether key events are forwarded.
    pub enabled: bool,
    /// The one session that receives key events.
    pub active: SessionView,
}

/// Largest number a session can have.
pub open spec fn last_session_id() -> int {
    u64::MAX as int
}

impl CoordinatorView {
    /// Whether `session` was built from this coordinator's catalogue and mute key.
    pub open spec fn fits(self, session: SessionView) -> bool {
        &&& session.config.mute_key == self.mute_key
        &&& 0 <= session.config.preset_index < self.presets.len()
        &&& self.presets[session.config.preset_index] == session.config.preset_name
    }

    /// Whether `session` can take over from the active one: it fits and is
    /// numbered next.
    pub open spec fn accepts(self, session: SessionView) -> bool {
        &&& session.id == self.active.id + 1
        &&& session.id <= last_session_id()
        &&& self.fits(session)
    }

    /// The state is sound: the active session fits and its number is in range.
    pub open spec fn wf(self) -> bool {
        &&& 0 <= self.active.id <= last_session_id()
        &&& self.fits(self.active)
    }

    /// The session that would follow the active one, built from the preset at
    /// `preset_index` on the device `device_name`.
    pub open spec fn successor(self, preset_index: int, device_name: Seq<char>) -> SessionView {
        SessionView {
            id: self.active.id + 1,
            config: SessionConfigView {
                mute_key: self.mute_key,
                preset_index,
                preset_name: self.presets[preset_index],
                device_name,
            },
        }
    }

    /// Answer to a request for the preset `preset_name` on the device whose
    /// lower-case name is `device_name`.
    pub open spec fn reconfigure<E>(self, preset_name: Seq<char>, device_name: Seq<char>) -> ActionView<E> {
        match self.presets.index_of_first(preset_name) {
            None => ActionView::Abort(FatalView::UnknownPreset(preset_name)),
            Some(preset_index) => if self.active.id >= last_session_id() {
                ActionView::Abort(FatalView::SessionsExhausted)
            } else {
                ActionView::BuildSession(self.successor(preset_index, device_name))
            },
        }
    }
}

/// The state after `event`, and the action that answers it.
pub open spec fn step<E>(state: CoordinatorView, event: EventView<E>) -> (CoordinatorView, ActionView<E>) {
    match event {
        EventView::Received(CommandView::KeyEvent(key)) => if state.enabled {
            (state, ActionView::HandleKey { session: state.active.id, event: key })
        } else {
            (state, ActionView::Wait)
        },
        EventView::Received(CommandView::SetEnabled(enabled)) => (
            CoordinatorView { enabled, ..state },
            ActionView::Wait,
        ),
        EventView::Received(CommandView::ChangeConfig { preset_name, device_name }) => (
            state,
            state.reconfigure(preset_name, lowercase(device_name)),
        ),
        EventView::Disconnected => (state, ActionView::Stop),
        EventView::KeyFailed => (state, ActionView::Wait),
        EventView::SessionBuilt(session) => if state.accepts(session) {
            (CoordinatorView { active: session, ..state }, ActionView::Retire { session: state.active.id })
        } else {
            (state, ActionView::Wait)
        },
        EventView::SessionFailed(_) => (state, ActionView::Wait),
    }
}

/// The state after the events of `events`, handled in order.
pub open spec fn state_after<E>(state: CoordinatorView, events: Seq<EventView<E>>) -> CoordinatorView
    decreases events.len(),
{
    if events.len() == 0 {
        state
    } else {
        step(state_after(state, events.drop_last()), events.last()).0
    }
}

/// The actions that answer the events of `events`, handled in order from
/// `state`: the action at `i` answers the event at `i`.
pub open spec fn actions_of<E>(state: CoordinatorView, events: Seq<EventView<E>>) -> Seq<ActionView<E>> {
    Seq::new(events.len(), |i: int| step(state_after(state, events.take(i)), events[i]).1)
}

/// The key events that `actions` hand to a worker, each with the number of the
/// session that gets it, in the order of the actions.
pub open spec fn delivered<E>(actions: Seq<ActionView<E>>) -> Seq<(int, E)>
    decreases actions.len(),
{
    if actions.len() == 0 {
        Seq::empty()
    } else {
        match actions.last() {
            ActionView::HandleKey { session, event } => delivered(actions.drop_last()).push((session, event)),
            _ => delivered(actions.drop_last()),
        }
    }
}

/// The events by which a burst of key events arrives.
pub open spec fn key_burst<E>(keys: Seq<E>) -> Seq<EventView<E>> {
    keys.map_values(|key: E| EventView::Received(CommandView::KeyEvent(key)))
}

/// The event by which a switch of the forwarding arrives.
pub open spec fn switch<E>(enabled: bool) -> EventView<E> {
    EventView::Received(CommandView::SetEnabled(enabled))
}

/// Whether forwarding is on after `events`, where it was `enabled` before:
/// the last switch among them decides.
pub open spec fn enabled_after<E>(enabled: bool, events: Seq<EventView<E>>) -> bool
    decreases events.len(),
{
    if events.len() == 0 {
        enabled
    } else {
        match events.last() {
            EventView::Received(CommandView::SetEnabled(switched)) => switched,
            _ => enabled_after(enabled, events.drop_last()),
        }
    }
}

/// The key events among `events` that arrive while forwarding is on, in the
/// order of arrival, where forwarding was `enabled` before.
pub open spec fn keys_let_through<E>(enabled: bool, events: Seq<EventView<E>>) -> Seq<E>
    decreases events.len(),
{
    if events.len() == 0 {
        Seq::empty()
    } else {
        let earlier = keys_let_through(enabled, events.drop_last());
        match events.last() {
            EventView::Received(CommandView::KeyEvent(key)) => if enabled_after(
                enabled,
                events.drop_last(),
            ) {
                earlier.push(key)
            } else {
                earlier
            },
            _ => earlier,
        }
    }
}

} // verus!
