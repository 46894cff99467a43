//! The start at login when the program starts.
//!
//! A start that was restored takes over what the platform has registered. A
//! first start prefers what the packaging prefers and asks the platform to
//! follow where it differs. Without a usable service the start at login is
//! off and not offered. [`startup_step`] gives the order of the calls: after
//! each report it names the one call to make next, or what to record.

use vstd::prelude::*;
use crate::autostart::{AutostartReport, AutostartReportView};

verus! {

/// Where the reconciliation stands.
#[derive(Clone, Copy, Debug, PartialEq, Eq)]
pub enum StartupState {
    /// Waiting to learn whether the service is available.
    Asking { restored: bool, preferred: bool },
    /// Waiting for the registration to be read.
    Querying { restored: bool, preferred: bool },
    /// Waiting for the outcome of the request to follow the preference; the
    /// platform had `registered`.
    Applying { preferred: bool, registered: bool },
    /// Settled.
    Done,
}

/// What to record once the reconciliation is through.
#[derive(Clone, Copy, Debug, PartialEq, Eq)]
pub struct Settled {
    /// Whether the menu offers the start at login.
    pub available: bool,
    /// Whether the program starts at login.
    pub run_on_login: bool,
}

/// What the reconciliation asks of the program.
#[derive(Clone, Copy, Debug, PartialEq, Eq)]
pub enum StartupAction {
    /// Find out whether the service is available.
    CheckAvailable,
    /// Read the registration.
    QueryEnabled,
    /// Ask the platform to register the program, or to unregister it.
    SetEnabled(bool),
    /// Stop, and record this.
    Settle(Settled),
}

/// The end without a usable service: off, and not offered.
pub open spec fn unusable() -> (StartupState, StartupAction) {
    (StartupState::Done, StartupAction::Settle(Settled { available: false, run_on_login: false }))
}

/// The end with the service at hand and the program registered, or not.
pub open spec fn settled_on(run_on_login: bool) -> (StartupState, StartupAction) {
    (StartupState::Done, StartupAction::Settle(Settled { available: true, run_on_login }))
}

/// The state after `report`, and the action that answers it.
///
/// A service that is not available or cannot be read is unusable, and so is
/// one whose reports come out of turn. A refused request leaves the program
/// registered as the platform had it.
pub open spec fn startup_next(state: StartupState, report: AutostartReportView) -> (
    StartupState,
    StartupAction,
) {
    match (state, report) {
        (StartupState::Asking { restored, preferred }, AutostartReportView::Availability(true)) => (
            StartupState::Querying { restored, preferred },
            StartupAction::QueryEnabled,
        ),
        (
            StartupState::Querying { restored, preferred },
            AutostartReportView::Queried(Ok(registered)),
        ) => if restored {
            settled_on(registered)
        } else if registered == preferred {
            settled_on(preferred)
        } else {
            (StartupState::Applying { preferred, registered }, StartupAction::SetEnabled(preferred))
        },
        (StartupState::Applying { preferred, .. }, AutostartReportView::SetDone(Ok(_))) => settled_on(
            preferred,
        ),
        (StartupState::Applying { registered, .. }, AutostartReportView::SetDone(Err(_))) => settled_on(
            registered,
        ),
        _ => unusable(),
    }
}

/// The state after the reports of `reports`, handled in order.
pub open spec fn startup_state_after(state: StartupState, reports: Seq<AutostartReportView>) -> StartupState
    decreases reports.len(),
{
    if reports.len() == 0 {
        state
    } else {
        startup_next(startup_state_after(state, reports.drop_last()), reports.last()).0
    }
}

/// The actions that answer the reports of `reports`, handled in order from
/// `state`: the action at `i` answers the report at `i`.
pub open spec fn startup_actions(state: StartupState, reports: Seq<AutostartReportView>) -> Seq<
    StartupAction,
> {
    Seq::new(
        reports.len(),
        |i: int| startup_next(startup_state_after(state, reports.take(i)), reports[i]).1,
    )
}

/// Begins the reconciliation of a start that is `restored` or not, with the
/// packaging's preference `preferred`: the first thing to find out is
/// whether the service is available.
pub fn startup_start(restored: bool, preferred: bool) -> (begun: (StartupState, StartupAction))
    ensures
        begun == (StartupState::Asking { restored, preferred }, StartupAction::CheckAvailable),
{
    (StartupState::Asking { restored, preferred }, StartupAction::CheckAvailable)
}

/// Handles one report: returns the next state and the action that the
/// program has to perform, as [`startup_next`] gives them.
pub fn startup_step(state: StartupState, report: AutostartReport) -> (next: (StartupState, StartupAction))
    ensures
        next == startup_next(state, report@),
{
    let unusable = (
        StartupState::Done,
        StartupAction::Settle(Settled { available: false, run_on_login: false }),
    );
    match state {
        StartupState::Asking { restored, preferred } => match report {
            AutostartReport::Availability(true) => (
                StartupState::Querying { restored, preferred },
                StartupAction::QueryEnabled,
            ),
            _ => unusable,
        },
        StartupState::Querying { restored, preferred } => match report {
            AutostartReport::Queried(Ok(registered)) => {
                if restored {
                    (
                        StartupState::Done,
                        StartupAction::Settle(Settled { available: true, run_on_login: registered }),
                    )
                } else if registered == preferred {
                    (
                        StartupState::Done,
                        StartupAction::Settle(Settled { available: true, run_on_login: preferred }),
                    )
                } else {
                    (
                        StartupState::Applying { preferred, registered },
                        StartupAction::SetEnabled(preferred),
                    )
                }
            },
            _ => unusable,
        },
        StartupState::Applying { preferred, registered } => match report {
            AutostartReport::SetDone(Ok(_)) => (
                StartupState::Done,
                StartupAction::Settle(Settled { available: true, run_on_login: preferred }),
            ),
            AutostartReport::SetDone(Err(_)) => (
                StartupState::Done,
                StartupAction::Settle(Settled { available: true, run_on_login: registered }),
            ),
            _ => unusable,
        },
        StartupState::Done => unusable,
    }
}

/// How far a reconciliation has come.
spec fn progress(state: StartupState) -> int {
    match state {
        StartupState::Asking { .. } => 0,
        StartupState::Querying { .. } => 1,
        StartupState::Applying { .. } => 2,
        StartupState::Done => 3,
    }
}

/// Whether `state` belongs to the reconciliation of a start that is
/// `restored` or not, with the preference `preferred`.
spec fn belongs_to(state: StartupState, restored: bool, preferred: bool) -> bool {
    match state {
        StartupState::Asking { restored: was, preferred: wanted } => was == restored && wanted
            == preferred,
        StartupState::Querying { restored: was, preferred: wanted } => was == restored && wanted
            == preferred,
        StartupState::Applying { preferred: wanted, registered } => !restored && wanted == preferred
            && registered != preferred,
        StartupState::Done => true,
    }
}

/// Handling one more report is one more step from the state reached so far.
proof fn lemma_startup_next_state(state: StartupState, reports: Seq<AutostartReportView>, i: int)
    requires
        0 <= i < reports.len(),
    ensures
        startup_state_after(state, reports.take(i + 1)) == startup_next(
            startup_state_after(state, reports.take(i)),
            reports[i],
        ).0,
{
    assert(reports.take(i + 1).drop_last() =~= reports.take(i));
    assert(reports.take(i + 1).last() == reports[i]);
}

/// A reconciliation only moves on, and stays the reconciliation of the same
/// start.
proof fn lemma_startup_moves_on(
    restored: bool,
    preferred: bool,
    reports: Seq<AutostartReportView>,
    i: int,
    j: int,
)
    requires
        0 <= i <= j <= reports.len(),
    ensures
        progress(startup_state_after(StartupState::Asking { restored, preferred }, reports.take(i)))
            <= progress(
            startup_state_after(StartupState::Asking { restored, preferred }, reports.take(j)),
        ),
        belongs_to(
            startup_state_after(StartupState::Asking { restored, preferred }, reports.take(j)),
            restored,
            preferred,
        ),
    decreases j,
{
    if j == 0 {
        assert(reports.take(0) =~= Seq::<AutostartReportView>::empty());
    } else {
        lemma_startup_moves_on(restored, preferred, reports, if i < j { i } else { j - 1 }, j - 1);
        lemma_startup_next_state(StartupState::Asking { restored, preferred }, reports, j - 1);
    }
}

/// A reconciliation that is past the first question has read the
/// registration, or is reading it, on the order of an earlier step.
proof fn lemma_registration_was_asked(
    restored: bool,
    preferred: bool,
    reports: Seq<AutostartReportView>,
    i: int,
) -> (j: int)
    requires
        0 <= i <= reports.len(),
        1 <= progress(
            startup_state_after(StartupState::Asking { restored, preferred }, reports.take(i)),
        ) <= 2,
    ensures
        0 <= j < i,
        startup_actions(StartupState::Asking { restored, preferred }, reports)[j]
            == StartupAction::QueryEnabled,
    decreases i,
{
    let start = StartupState::Asking { restored, preferred };
    if i == 0 {
        assert(reports.take(0) =~= Seq::<AutostartReportView>::empty());
        0
    } else {
        lemma_startup_next_state(start, reports, i - 1);
        lemma_startup_moves_on(restored, preferred, reports, i - 1, i - 1);
        if progress(startup_state_after(start, reports.take(i - 1))) == 0 {
            i - 1
        } else {
            lemma_registration_was_asked(restored, preferred, reports, i - 1)
        }
    }
}

/// What the step at `i` was taken from, by the action that answered it.
proof fn lemma_step_shapes(restored: bool, preferred: bool, reports: Seq<AutostartReportView>, i: int)
    requires
        0 <= i < reports.len(),
    ensures
        ({
            let start = StartupState::Asking { restored, preferred };
            let state = startup_state_after(start, reports.take(i));
            let action = startup_actions(start, reports)[i];
            &&& action == StartupAction::QueryEnabled ==> progress(state) == 0
            &&& action is SetEnabled ==> progress(state) == 1
        }),
{
    lemma_startup_moves_on(restored, preferred, reports, i, i);
}

/// The reconciliation makes its calls in order, whatever is reported. At
/// any step `i` of a run for a start that is `restored` or not, with the
/// preference `preferred`:
/// the registration is read only in answer to the report that the service
/// is available;
/// a request is made only for a start that was not restored, only after the
/// registration was read, in answer to a registration that differs from the
/// preference, and it asks for the preference itself.
pub proof fn law_startup_asks_in_order(
    restored: bool,
    preferred: bool,
    reports: Seq<AutostartReportView>,
    i: int,
)
    requires
        0 <= i < reports.len(),
    ensures
        ({
            let actions = startup_actions(StartupState::Asking { restored, preferred }, reports);
            &&& actions[i] != StartupAction::CheckAvailable
            &&& actions[i] == StartupAction::QueryEnabled ==> reports[i]
                == AutostartReportView::Availability(true)
            &&& actions[i] is SetEnabled ==> {
                &&& !restored
                &&& actions[i] == StartupAction::SetEnabled(preferred)
                &&& reports[i] == AutostartReportView::Queried(Ok(!preferred))
                &&& exists|j: int| 0 <= j < i && #[trigger] actions[j] == StartupAction::QueryEnabled
            }
        }),
{
    let actions = startup_actions(StartupState::Asking { restored, preferred }, reports);
    lemma_startup_moves_on(restored, preferred, reports, i, i);
    if actions[i] is SetEnabled {
        let j = lemma_registration_was_asked(restored, preferred, reports, i);
        assert(actions[j] == StartupAction::QueryEnabled);
    }
}

/// The reconciliation makes each call at most once, whatever is reported:
/// where the registration is read at a step, it is not read again at a later
/// one, and where a request is made at a step, none is made at a later one.
pub proof fn law_startup_asks_once(
    restored: bool,
    preferred: bool,
    reports: Seq<AutostartReportView>,
    i: int,
    j: int,
)
    requires
        0 <= i < j < reports.len(),
    ensures
        ({
            let actions = startup_actions(StartupState::Asking { restored, preferred }, reports);
            &&& actions[i] == StartupAction::QueryEnabled ==> actions[j] != StartupAction::QueryEnabled
            &&& actions[i] is SetEnabled ==> !(actions[j] is SetEnabled)
        }),
{
    let start = StartupState::Asking { restored, preferred };
    lemma_step_shapes(restored, preferred, reports, i);
    lemma_step_shapes(restored, preferred, reports, j);
    lemma_startup_next_state(start, reports, i);
    lemma_startup_moves_on(restored, preferred, reports, i + 1, j);
}

/// What a reconciliation records when it runs its course with the service
/// available and the program `registered` or not: a restored start records
/// what the platform has; a first start records the preference where the
/// platform has it already or follows the request, and what the platform had
/// where the request is refused.
pub proof fn law_startup_records_what_the_platform_has(
    restored: bool,
    preferred: bool,
    registered: bool,
    outcome: Result<(), Seq<char>>,
)
    ensures
        ({
            let start = StartupState::Asking { restored, preferred };
            let read = seq![
                AutostartReportView::Availability(true),
                AutostartReportView::Queried(Ok(registered)),
            ];
            let asked = read.push(AutostartReportView::SetDone(outcome));
            if restored || registered == preferred {
                startup_actions(start, read) == seq![
                    StartupAction::QueryEnabled,
                    StartupAction::Settle(Settled { available: true, run_on_login: registered }),
                ]
            } else {
                startup_actions(start, asked) == seq![
                    StartupAction::QueryEnabled,
                    StartupAction::SetEnabled(preferred),
                    StartupAction::Settle(
                        Settled {
                            available: true,
                            run_on_login: if outcome.is_ok() {
                                preferred
                            } else {
                                registered
                            },
                        },
                    ),
                ]
            }
        }),
{
    let start = StartupState::Asking { restored, preferred };
    let read = seq![
        AutostartReportView::Availability(true),
        AutostartReportView::Queried(Ok(registered)),
    ];
    let asked = read.push(AutostartReportView::SetDone(outcome));
    assert(read.take(0) =~= Seq::<AutostartReportView>::empty());
    assert(asked.take(0) =~= Seq::<AutostartReportView>::empty());
    assert(startup_state_after(start, read.take(0)) == start);
    assert(startup_state_after(start, asked.take(0)) == start);
    lemma_startup_next_state(start, read, 0);
    lemma_startup_next_state(start, asked, 0);
    lemma_startup_next_state(start, asked, 1);
    if restored || registered == preferred {
        assert(startup_actions(start, read) =~= seq![
            StartupAction::QueryEnabled,
            StartupAction::Settle(Settled { available: true, run_on_login: registered }),
        ]);
    } else {
        assert(startup_actions(start, asked) =~= seq![
            StartupAction::QueryEnabled,
            StartupAction::SetEnabled(preferred),
            StartupAction::Settle(
                Settled {
                    available: true,
                    run_on_login: if outcome.is_ok() {
                        preferred
                    } else {
                        registered
                    },
                },
            ),
        ]);
    }
}

/// Without a usable service the start at login is off and not offered: a
/// service that is not available, or whose registration cannot be read, ends
/// the reconciliation at once, with no request made.
pub proof fn law_startup_without_the_service_is_off(
    restored: bool,
    preferred: bool,
    reason: Seq<char>,
)
    ensures
        ({
            let start = StartupState::Asking { restored, preferred };
            let off = StartupAction::Settle(Settled { available: false, run_on_login: false });
            &&& startup_actions(start, seq![AutostartReportView::Availability(false)]) == seq![off]
            &&& startup_actions(
                start,
                seq![
                    AutostartReportView::Availability(true),
                    AutostartReportView::Queried(Err(reason)),
                ],
            ) == seq![StartupAction::QueryEnabled, off]
        }),
{
    let start = StartupState::Asking { restored, preferred };
    let off = StartupAction::Settle(Settled { available: false, run_on_login: false });
    let absent = seq![AutostartReportView::Availability(false)];
    let unreadable = seq![
        AutostartReportView::Availability(true),
        AutostartReportView::Queried(Err(reason)),
    ];
    assert(absent.take(0) =~= Seq::<AutostartReportView>::empty());
    assert(unreadable.take(0) =~= Seq::<AutostartReportView>::empty());
    assert(startup_state_after(start, absent.take(0)) == start);
    assert(startup_state_after(start, unreadable.take(0)) == start);
    lemma_startup_next_state(start, unreadable, 0);
    assert(startup_actions(start, absent) =~= seq![off]);
    assert(startup_actions(start, unreadable) =~= seq![StartupAction::QueryEnabled, off]);
}

} // verus!
