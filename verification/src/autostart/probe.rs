//! The self-check of the start at login.
//!
//! The check asks whether the service is available, requests the
//! registration that the packaging prefers, reads the registration back and
//! compares. [`probe_step`] gives the order: after each report it names the
//! one call to make next, or the verdict.

use vstd::prelude::*;
use crate::autostart::{AutostartReport, AutostartReportView, ProbeError, ProbeErrorView};

verus! {

/// Where the self-check stands.
#[derive(Clone, Copy, Debug, PartialEq, Eq)]
pub enum ProbeState {
    /// Waiting to learn whether the service is available.
    Asking { desired: bool },
    /// Waiting for the outcome of the request.
    Setting { desired: bool },
    /// Waiting for the registration to be read back.
    Verifying { desired: bool },
    /// The verdict is out.
    Done,
}

/// What the self-check asks of the program.
#[derive(Debug, PartialEq, Eq)]
pub enum ProbeAction {
    /// Find out whether the service is available.
    CheckAvailable,
    /// Ask the platform to register the program, or to unregister it.
    SetEnabled(bool),
    /// Read the registration.
    QueryEnabled,
    /// Stop: this is the verdict.
    Finish(Result<(), ProbeError>),
}

/// Mathematical value of a [`ProbeAction`].
pub enum ProbeActionView {
    CheckAvailable,
    SetEnabled(bool),
    QueryEnabled,
    Finish(Result<(), ProbeErrorView>),
}

impl View for ProbeAction {
    type V = ProbeActionView;

    open spec fn view(&self) -> ProbeActionView {
        match *self {
            ProbeAction::CheckAvailable => ProbeActionView::CheckAvailable,
            ProbeAction::SetEnabled(enable) => ProbeActionView::SetEnabled(enable),
            ProbeAction::QueryEnabled => ProbeActionView::QueryEnabled,
            ProbeAction::Finish(Ok(_)) => ProbeActionView::Finish(Ok(())),
            ProbeAction::Finish(Err(error)) => ProbeActionView::Finish(Err(error@)),
        }
    }
}

/// The verdict that fails the check with `error`.
pub open spec fn failed(error: ProbeErrorView) -> (ProbeState, ProbeActionView) {
    (ProbeState::Done, ProbeActionView::Finish(Err(error)))
}

/// The state after `report`, and the action that answers it.
///
/// An unavailable service, a refused request, a registration that cannot be
/// read and one that differs from the request each fail the check; so does
/// a report that the check was not waiting for.
pub open spec fn probe_next(state: ProbeState, report: AutostartReportView) -> (
    ProbeState,
    ProbeActionView,
) {
    match (state, report) {
        (ProbeState::Asking { desired }, AutostartReportView::Availability(true)) => (
            ProbeState::Setting { desired },
            ProbeActionView::SetEnabled(desired),
        ),
        (ProbeState::Asking { .. }, AutostartReportView::Availability(false)) => failed(
            ProbeErrorView::Unsupported,
        ),
        (ProbeState::Setting { desired }, AutostartReportView::SetDone(Ok(_))) => (
            ProbeState::Verifying { desired },
            ProbeActionView::QueryEnabled,
        ),
        (ProbeState::Setting { .. }, AutostartReportView::SetDone(Err(reason))) => failed(
            ProbeErrorView::SetFailed(reason),
        ),
        (ProbeState::Verifying { desired }, AutostartReportView::Queried(Ok(registered))) => if registered
            == desired {
            (ProbeState::Done, ProbeActionView::Finish(Ok(())))
        } else {
            failed(ProbeErrorView::Mismatch { expected: desired, observed: registered })
        },
        (ProbeState::Verifying { .. }, AutostartReportView::Queried(Err(reason))) => failed(
            ProbeErrorView::VerifyFailed(reason),
        ),
        _ => failed(ProbeErrorView::OutOfTurn),
    }
}

/// The state after the reports of `reports`, handled in order.
pub open spec fn probe_state_after(state: ProbeState, reports: Seq<AutostartReportView>) -> ProbeState
    decreases reports.len(),
{
    if reports.len() == 0 {
        state
    } else {
        probe_next(probe_state_after(state, reports.drop_last()), reports.last()).0
    }
}

/// The actions that answer the reports of `reports`, handled in order from
/// `state`: the action at `i` answers the report at `i`.
pub open spec fn probe_actions(state: ProbeState, reports: Seq<AutostartReportView>) -> Seq<
    ProbeActionView,
> {
    Seq::new(
        reports.len(),
        |i: int| probe_next(probe_state_after(state, reports.take(i)), reports[i]).1,
    )
}

/// Begins a self-check for the registration `desired`: the first thing to
/// find out is whether the service is available.
pub fn probe_start(desired: bool) -> (begun: (ProbeState, ProbeAction))
    ensures
        begun.0 == (ProbeState::Asking { desired }),
        begun.1@ == ProbeActionView::CheckAvailable,
{
    (ProbeState::Asking { desired }, ProbeAction::CheckAvailable)
}

/// Handles one report: returns the next state and the action that the
/// program has to perform, both as [`probe_next`] gives them.
pub fn probe_step(state: ProbeState, report: AutostartReport) -> (next: (ProbeState, ProbeAction))
    ensures
        next.0 == probe_next(state, report@).0,
        next.1@ == probe_next(state, report@).1,
{
    match state {
        ProbeState::Asking { desired } => match report {
            AutostartReport::Availability(true) => (
                ProbeState::Setting { desired },
                ProbeAction::SetEnabled(desired),
            ),
            AutostartReport::Availability(false) => (
                ProbeState::Done,
                ProbeAction::Finish(Err(ProbeError::Unsupported)),
            ),
            _ => (ProbeState::Done, ProbeAction::Finish(Err(ProbeError::OutOfTurn))),
        },
        ProbeState::Setting { desired } => match report {
            AutostartReport::SetDone(Ok(_)) => (ProbeState::Verifying { desired }, ProbeAction::QueryEnabled),
            AutostartReport::SetDone(Err(reason)) => (
                ProbeState::Done,
                ProbeAction::Finish(Err(ProbeError::SetFailed(reason))),
            ),
            _ => (ProbeState::Done, ProbeAction::Finish(Err(ProbeError::OutOfTurn))),
        },
        ProbeState::Verifying { desired } => match report {
            AutostartReport::Queried(Ok(registered)) => {
                if registered == desired {
                    (ProbeState::Done, ProbeAction::Finish(Ok(())))
                } else {
                    (
                        ProbeState::Done,
                        ProbeAction::Finish(
                            Err(ProbeError::Mismatch { expected: desired, observed: registered }),
                        ),
                    )
                }
            },
            AutostartReport::Queried(Err(reason)) => (
                ProbeState::Done,
                ProbeAction::Finish(Err(ProbeError::VerifyFailed(reason))),
            ),
            _ => (ProbeState::Done, ProbeAction::Finish(Err(ProbeError::OutOfTurn))),
        },
        ProbeState::Done => (ProbeState::Done, ProbeAction::Finish(Err(ProbeError::OutOfTurn))),
    }
}

/// How far a check has come.
spec fn progress(state: ProbeState) -> int {
    match state {
        ProbeState::Asking { .. } => 0,
        ProbeState::Setting { .. } => 1,
        ProbeState::Verifying { .. } => 2,
        ProbeState::Done => 3,
    }
}

/// Whether `state` belongs to a check for the registration `desired`.
spec fn checks_for(state: ProbeState, desired: bool) -> bool {
    match state {
        ProbeState::Asking { desired: wanted } => wanted == desired,
        ProbeState::Setting { desired: wanted } => wanted == desired,
        ProbeState::Verifying { desired: wanted } => wanted == desired,
        ProbeState::Done => true,
    }
}

/// Handling one more report is one more step from the state reached so far.
proof fn lemma_probe_next_state(state: ProbeState, reports: Seq<AutostartReportView>, i: int)
    requires
        0 <= i < reports.len(),
    ensures
        probe_state_after(state, reports.take(i + 1)) == probe_next(
            probe_state_after(state, reports.take(i)),
            reports[i],
        ).0,
{
    assert(reports.take(i + 1).drop_last() =~= reports.take(i));
    assert(reports.take(i + 1).last() == reports[i]);
}

/// A check only moves on, and stays a check for the same registration.
proof fn lemma_probe_moves_on(desired: bool, reports: Seq<AutostartReportView>, i: int, j: int)
    requires
        0 <= i <= j <= reports.len(),
    ensures
        progress(probe_state_after(ProbeState::Asking { desired }, reports.take(i))) <= progress(
            probe_state_after(ProbeState::Asking { desired }, reports.take(j)),
        ),
        checks_for(probe_state_after(ProbeState::Asking { desired }, reports.take(j)), desired),
    decreases j,
{
    if j == 0 {
        assert(reports.take(0) =~= Seq::<AutostartReportView>::empty());
    } else {
        lemma_probe_moves_on(desired, reports, if i < j { i } else { j - 1 }, j - 1);
        lemma_probe_next_state(ProbeState::Asking { desired }, reports, j - 1);
    }
}

/// A check that waits for the outcome of the request, or for the
/// registration, has made the request at an earlier step.
proof fn lemma_request_was_made(desired: bool, reports: Seq<AutostartReportView>, i: int) -> (j: int)
    requires
        0 <= i <= reports.len(),
        1 <= progress(probe_state_after(ProbeState::Asking { desired }, reports.take(i))) <= 2,
    ensures
        0 <= j < i,
        probe_actions(ProbeState::Asking { desired }, reports)[j] == ProbeActionView::SetEnabled(
            desired,
        ),
    decreases i,
{
    let start = ProbeState::Asking { desired };
    if i == 0 {
        assert(reports.take(0) =~= Seq::<AutostartReportView>::empty());
        0
    } else {
        lemma_probe_next_state(start, reports, i - 1);
        lemma_probe_moves_on(desired, reports, i - 1, i - 1);
        if progress(probe_state_after(start, reports.take(i - 1))) == 0 {
            i - 1
        } else {
            lemma_request_was_made(desired, reports, i - 1)
        }
    }
}

/// The self-check makes its calls in order, whatever is reported. At any
/// step `i` of a run of a check for the registration `desired`:
/// a request is made only in answer to the report that the service is
/// available, and it asks for `desired` itself;
/// the registration is read only in answer to the report that the request
/// went through, and so only after the request was made.
pub proof fn law_probe_asks_in_order(desired: bool, reports: Seq<AutostartReportView>, i: int)
    requires
        0 <= i < reports.len(),
    ensures
        ({
            let actions = probe_actions(ProbeState::Asking { desired }, reports);
            &&& !(actions[i] is CheckAvailable)
            &&& actions[i] is SetEnabled ==> actions[i] == ProbeActionView::SetEnabled(desired)
                && reports[i] == AutostartReportView::Availability(true)
            &&& actions[i] is QueryEnabled ==> {
                &&& reports[i] matches AutostartReportView::SetDone(Ok(_))
                &&& exists|j: int|
                    0 <= j < i && #[trigger] actions[j] == ProbeActionView::SetEnabled(desired)
            }
        }),
{
    let actions = probe_actions(ProbeState::Asking { desired }, reports);
    lemma_probe_moves_on(desired, reports, i, i);
    if actions[i] is QueryEnabled {
        let j = lemma_request_was_made(desired, reports, i);
        assert(actions[j] == ProbeActionView::SetEnabled(desired));
    }
}

/// The self-check makes each call at most once, whatever is reported: where
/// a request is made at a step, none is made at a later one, and where the
/// registration is read at a step, it is not read again at a later one.
pub proof fn law_probe_asks_once(desired: bool, reports: Seq<AutostartReportView>, i: int, j: int)
    requires
        0 <= i < j < reports.len(),
    ensures
        ({
            let actions = probe_actions(ProbeState::Asking { desired }, reports);
            &&& actions[i] is SetEnabled ==> !(actions[j] is SetEnabled)
            &&& actions[i] is QueryEnabled ==> !(actions[j] is QueryEnabled)
        }),
{
    let start = ProbeState::Asking { desired };
    lemma_probe_moves_on(desired, reports, i, i);
    lemma_probe_next_state(start, reports, i);
    lemma_probe_moves_on(desired, reports, i + 1, j);
}

/// The verdict of a check that ran its course: with the service available
/// and the request granted, the check passes exactly if the platform reports
/// the registration that was asked for.
pub proof fn law_probe_verdict(desired: bool, registered: bool)
    ensures
        ({
            let reports = seq![
                AutostartReportView::Availability(true),
                AutostartReportView::SetDone(Ok(())),
                AutostartReportView::Queried(Ok(registered)),
            ];
            probe_actions(ProbeState::Asking { desired }, reports) == seq![
                ProbeActionView::SetEnabled(desired),
                ProbeActionView::QueryEnabled,
                ProbeActionView::Finish(
                    if registered == desired {
                        Ok(())
                    } else {
                        Err(ProbeErrorView::Mismatch { expected: desired, observed: registered })
                    },
                ),
            ]
        }),
{
    let start = ProbeState::Asking { desired };
    let reports = seq![
        AutostartReportView::Availability(true),
        AutostartReportView::SetDone(Ok(())),
        AutostartReportView::Queried(Ok(registered)),
    ];
    assert(reports.take(0) =~= Seq::<AutostartReportView>::empty());
    lemma_probe_next_state(start, reports, 0);
    lemma_probe_next_state(start, reports, 1);
    assert(probe_state_after(start, reports.take(0)) == start);
    assert(probe_state_after(start, reports.take(1)) == (ProbeState::Setting { desired }));
    assert(probe_state_after(start, reports.take(2)) == (ProbeState::Verifying { desired }));
    assert(probe_actions(start, reports) =~= seq![
        ProbeActionView::SetEnabled(desired),
        ProbeActionView::QueryEnabled,
        ProbeActionView::Finish(
            if registered == desired {
                Ok(())
            } else {
                Err(ProbeErrorView::Mismatch { expected: desired, observed: registered })
            },
        ),
    ]);
}

} // verus!
