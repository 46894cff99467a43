//! The coordinator: sole consumer of the control channel.
//!
//! A [`Coordinator`] decides, event by event, what the loop around it has to
//! do: pass a key event to the active audio session, build a new session, let
//! the old one go, stop. It performs nothing itself. The loop reports what
//! happened as the next [`Event`] and obeys the [`Action`] it gets back, so
//! every command is applied once, in arrival order, and exactly one session
//! receives key events at any time.
//!
//! A session asked for by `ChangeConfig` is built before the active one is let
//! go, and takes over only once the loop reports it built. Until then, and
//! forever if building fails, the active session stays the one that receives.

use vstd::prelude::*;
use crate::command::Command;
use crate::coordinator::model::{
    actions_of, state_after, ActionView, CoordinatorView, EventView, FatalView,
};
use crate::registry::{find_preset, texts};
use crate::session::{Session, SessionConfig, SessionConfigView, SessionView};
use crate::text::to_lowercase;

pub mod laws;
pub mod model;

verus! {

/// Why the coordinator gives up.
#[derive(Clone, Debug, PartialEq, Eq)]
pub enum Fatal {
    /// A preset was asked for that the catalogue does not hold.
    UnknownPreset(String),
    /// Every session number has been used.
    SessionsExhausted,
}

impl View for Fatal {
    type V = FatalView;

    open spec fn view(&self) -> FatalView {
        match *self {
            Fatal::UnknownPreset(name) => FatalView::UnknownPreset(name@),
            Fatal::SessionsExhausted => FatalView::SessionsExhausted,
        }
    }
}

/// What the loop reports to the coordinator.
#[derive(Clone, Debug, PartialEq, Eq)]
pub enum Event<E> {
    /// The channel delivered a command.
    Received(Command<E>),
    /// The channel is closed: no sender is left.
    Disconnected,
    /// The active session failed on the key event it was handed.
    KeyFailed,
    /// The session asked for by `Action::BuildSession` is built.
    SessionBuilt(Session),
    /// The session asked for by `Action::BuildSession` could not be built.
    SessionFailed(Session),
}

impl<E> View for Event<E> {
    type V = EventView<E>;

    open spec fn view(&self) -> EventView<E> {
        match *self {
            Event::Received(command) => EventView::Received(command@),
            Event::Disconnected => EventView::Disconnected,
            Event::KeyFailed => EventView::KeyFailed,
            Event::SessionBuilt(session) => EventView::SessionBuilt(session@),
            Event::SessionFailed(session) => EventView::SessionFailed(session@),
        }
    }
}

/// What the coordinator asks of the loop.
#[derive(Clone, Debug, PartialEq, Eq)]
pub enum Action<E> {
    /// Nothing to perform: wait for the next command.
    Wait,
    /// Hand `event` to the worker of session `session`. If the worker fails,
    /// report `Event::KeyFailed`.
    HandleKey { session: u64, event: E },
    /// Build a worker for this session, beside the active one, and report
    /// `Event::SessionBuilt` or `Event::SessionFailed` with the same session.
    BuildSession(Session),
    /// Release the worker of session `session`: its successor has taken over.
    Retire { session: u64 },
    /// Leave the loop.
    Stop,
    /// Give up: the request breaks an invariant of the program.
    Abort(Fatal),
}

impl<E> View for Action<E> {
    type V = ActionView<E>;

    open spec fn view(&self) -> ActionView<E> {
        match *self {
            Action::Wait => ActionView::Wait,
            Action::HandleKey { session, event } => ActionView::HandleKey { session: session as int, event },
            Action::BuildSession(session) => ActionView::BuildSession(session@),
            Action::Retire { session } => ActionView::Retire { session: session as int },
            Action::Stop => ActionView::Stop,
            Action::Abort(fatal) => ActionView::Abort(fatal@),
        }
    }
}

/// The values of a list of events.
pub open spec fn event_views<E>(events: Seq<Event<E>>) -> Seq<EventView<E>> {
    events.map_values(|event: Event<E>| event@)
}

/// The values of a list of actions.
pub open spec fn action_views<E>(actions: Seq<Action<E>>) -> Seq<ActionView<E>> {
    actions.map_values(|action: Action<E>| action@)
}

/// State of the consumer of the control channel.
pub struct Coordinator {
    presets: Vec<String>,
    mute_key: Option<u32>,
    enabled: bool,
    active: Session,
}

impl View for Coordinator {
    type V = CoordinatorView;

    closed spec fn view(&self) -> CoordinatorView {
        CoordinatorView {
            presets: texts(self.presets@),
            mute_key: self.mute_key,
            enabled: self.enabled,
            active: self.active@,
        }
    }
}

impl Coordinator {
    #[verifier::type_invariant]
    spec fn sound(&self) -> bool {
        self@.wf()
    }

    /// A coordinator over the catalogue `presets` whose session 0 plays the
    /// preset `preset_name` on `device_name`, taken as it is given.
    ///
    /// Fails when the catalogue holds no preset of that name.
    pub fn new(
        presets: Vec<String>,
        mute_key: Option<u32>,
        enabled: bool,
        preset_name: &str,
        device_name: String,
    ) -> (made: Result<Coordinator, Fatal>)
        ensures
            match texts(presets@).index_of_first(preset_name@) {
                Some(preset_index) => made matches Ok(coordinator) && coordinator@ == (CoordinatorView {
                    presets: texts(presets@),
                    mute_key,
                    enabled,
                    active: SessionView {
                        id: 0,
                        config: SessionConfigView {
                            mute_key,
                            preset_index,
                            preset_name: preset_name@,
                            device_name: device_name@,
                        },
                    },
                }) && coordinator@.wf(),
                None => made matches Err(fatal) && fatal@ == FatalView::UnknownPreset(preset_name@),
            },
    {
        proof {
            texts(presets@).index_of_first_ensures(preset_name@);
        }
        match find_preset(&presets, preset_name) {
            Some(preset_index) => {
                let config = SessionConfig {
                    mute_key,
                    preset_index,
                    preset_name: preset_name.to_owned(),
                    device_name,
                };
                Ok(Coordinator { presets, mute_key, enabled, active: Session { id: 0, config } })
            },
            None => Err(Fatal::UnknownPreset(preset_name.to_owned())),
        }
    }

    /// A coordinator over the catalogue `presets` that takes over `active`, a
    /// session that is already running, with its number and its mute key.
    ///
    /// Fails when the catalogue does not hold the session's preset at the
    /// position that the session names.
    pub fn with_session(presets: Vec<String>, enabled: bool, active: Session) -> (made: Result<
        Coordinator,
        Fatal,
    >)
        ensures
            ({
                let state = CoordinatorView {
                    presets: texts(presets@),
                    mute_key: active.config.mute_key,
                    enabled,
                    active: active@,
                };
                if state.fits(active@) {
                    made matches Ok(coordinator) && coordinator@ == state && state.wf()
                } else {
                    made matches Err(fatal) && fatal@ == FatalView::UnknownPreset(
                        active.config.preset_name@,
                    )
                }
            }),
    {
        if active.config.preset_index < presets.len() && presets[active.config.preset_index]
            == active.config.preset_name {
            let mute_key = active.config.mute_key;
            Ok(Coordinator { presets, mute_key, enabled, active })
        } else {
            Err(Fatal::UnknownPreset(active.config.preset_name))
        }
    }

    /// Whether key events are forwarded.
    pub fn enabled(&self) -> (enabled: bool)
        ensures
            enabled == self@.enabled,
    {
        self.enabled
    }

    /// The session that receives key events. Its preset is in the catalogue,
    /// at the position it names.
    pub fn active(&self) -> (session: &Session)
        ensures
            session@ == self@.active,
            self@.wf(),
    {
        proof {
            use_type_invariant(self);
        }
        &self.active
    }

    /// The mute key that every session is built with.
    pub fn mute_key(&self) -> (mute_key: Option<u32>)
        ensures
            mute_key == self@.mute_key,
    {
        self.mute_key
    }

    /// Names of the presets, in catalogue order.
    pub fn presets(&self) -> (presets: &Vec<String>)
        ensures
            texts(presets@) == self@.presets,
    {
        &self.presets
    }

    /// Answer to a request for the preset `preset_name` on the device
    /// `device_name`, which is already in lower case: the session to build,
    /// numbered after the active one, or the reason to give up.
    pub fn reconfigure<E>(&self, preset_name: String, device_name: String) -> (action: Action<E>)
        ensures
            action@ == self@.reconfigure::<E>(preset_name@, device_name@),
    {
        proof {
            use_type_invariant(self);
            texts(self.presets@).index_of_first_ensures(preset_name@);
        }
        match find_preset(&self.presets, preset_name.as_str()) {
            None => Action::Abort(Fatal::UnknownPreset(preset_name)),
            Some(preset_index) => {
                if self.active.id == u64::MAX {
                    Action::Abort(Fatal::SessionsExhausted)
                } else {
                    Action::BuildSession(
                        Session {
                            id: self.active.id + 1,
                            config: SessionConfig {
                                mute_key: self.mute_key,
                                preset_index,
                                preset_name,
                                device_name,
                            },
                        },
                    )
                }
            },
        }
    }

    /// Whether `session` can take over from the active one.
    pub fn accepts(&self, session: &Session) -> (accepted: bool)
        ensures
            accepted == self@.accepts(session@),
    {
        proof {
            use_type_invariant(self);
        }
        session.id > 0 && session.id - 1 == self.active.id && session.config.mute_key
            == self.mute_key && session.config.preset_index < self.presets.len()
            && self.presets[session.config.preset_index] == session.config.preset_name
    }

    /// Handles one event: updates the state and returns the action that the
    /// loop has to perform, both as [`model::step`] gives them.
    pub fn step<E>(&mut self, event: Event<E>) -> (action: Action<E>)
        ensures
            final(self)@ == model::step(old(self)@, event@).0,
            action@ == model::step(old(self)@, event@).1,
    {
        proof {
            use_type_invariant(&*self);
        }
        match event {
            Event::Received(Command::KeyEvent(key)) => {
                if self.enabled {
                    Action::HandleKey { session: self.active.id, event: key }
                } else {
                    Action::Wait
                }
            },
            Event::Received(Command::SetEnabled(enabled)) => {
                self.enabled = enabled;
                Action::Wait
            },
            Event::Received(Command::ChangeConfig { preset_name, device_name }) => {
                let normalized = to_lowercase(device_name.as_str());
                self.reconfigure(preset_name, normalized)
            },
            Event::Disconnected => Action::Stop,
            Event::KeyFailed => Action::Wait,
            Event::SessionBuilt(session) => {
                if self.accepts(&session) {
                    let retired = self.active.id;
                    self.active = session;
                    Action::Retire { session: retired }
                } else {
                    Action::Wait
                }
            },
            Event::SessionFailed(_) => Action::Wait,
        }
    }

    /// Handles `events` one after the other, in order, and returns the action
    /// that answered each: the action at `i` answers the event at `i`.
    pub fn run<E>(&mut self, events: Vec<Event<E>>) -> (actions: Vec<Action<E>>)
        ensures
            final(self)@ == state_after(old(self)@, event_views(events@)),
            action_views(actions@) == actions_of(old(self)@, event_views(events@)),
    {
        let ghost start = self@;
        let ghost all = event_views(events@);
        let mut actions: Vec<Action<E>> = Vec::new();
        for event in iter: events.into_iter()
            invariant
                iter.seq() == events@,
                all == event_views(events@),
                self@ == state_after(start, all.take(iter.index() as int)),
                actions.len() == iter.index(),
                forall|i: int|
                    0 <= i < actions.len() ==> #[trigger] actions[i]@ == model::step(
                        state_after(start, all.take(i)),
                        all[i],
                    ).1,
        {
            proof {
                laws::lemma_state_after_next(start, all, iter.index() as int);
            }
            let action = self.step(event);
            actions.push(action);
        }
        proof {
            assert(all.take(all.len() as int) =~= all);
            assert(action_views(actions@) =~= actions_of(start, all));
        }
        actions
    }
}

} // verus!
