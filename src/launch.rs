//! The order of events inside one recoverable launch.
//!
//! A launch runs its work, then the error handler if the work faulted, then
//! the finalizer if it has one. Each call is guarded by the host, which hands
//! the outcome back to [`Launch::advance`] and performs the action it gets.
//! No outcome ends a launch early or escapes it: every path leads to
//! [`Action::Finish`].
use vstd::prelude::*;

use crate::fault::{payload_text, spawn_error_to_string, Outcome};

verus! {

/// Which of the three launchers a launch belongs to.
#[derive(Clone, Copy, Debug, PartialEq, Eq, Structural)]
pub enum LaunchKind {
    /// Work only; its outcome is dropped.
    Recover,
    /// Work, and an error handler that receives the text of its fault.
    Catch,
    /// Work, the error handler, and a finalizer that always runs last.
    CatchFinally,
}

impl LaunchKind {
    pub open spec fn has_handler(self) -> bool {
        !(self is Recover)
    }

    pub open spec fn has_finalizer(self) -> bool {
        self is CatchFinally
    }
}

/// The guarded call a launch is waiting on, or `Done`.
#[derive(Clone, Copy, Debug, PartialEq, Eq, Structural)]
pub enum Stage {
    RunningWork,
    RunningHandler,
    RunningFinalizer,
    Done,
}

/// A bound on the guarded calls left, the current one included; every
/// step that does not finish the launch lowers it.
pub open spec fn stage_rank(s: Stage) -> nat {
    match s {
        Stage::RunningWork => 3,
        Stage::RunningHandler => 2,
        Stage::RunningFinalizer => 1,
        Stage::Done => 0,
    }
}

/// What the host does next.
#[derive(Debug)]
pub enum Action {
    /// Run the work under a guard.
    RunWork,
    /// Run the error handler, under a guard, on this text.
    RunHandler(String),
    /// Run the finalizer under a guard.
    RunFinalizer,
    /// The launch is over.
    Finish,
}

/// An [`Action`] with its text as a sequence of characters.
pub enum ActionView {
    RunWork,
    RunHandler(Seq<char>),
    RunFinalizer,
    Finish,
}

impl View for Action {
    type V = ActionView;

    open spec fn view(&self) -> ActionView {
        match self {
            Action::RunWork => ActionView::RunWork,
            Action::RunHandler(s) => ActionView::RunHandler(s@),
            Action::RunFinalizer => ActionView::RunFinalizer,
            Action::Finish => ActionView::Finish,
        }
    }
}

/// The step taken once the work has succeeded or the handler has returned.
pub open spec fn closing_step(kind: LaunchKind) -> (Stage, ActionView) {
    if kind.has_finalizer() {
        (Stage::RunningFinalizer, ActionView::RunFinalizer)
    } else {
        (Stage::Done, ActionView::Finish)
    }
}

/// The next stage and action, given the outcome of the current stage's call.
pub open spec fn transition(kind: LaunchKind, stage: Stage, outcome: Outcome) -> (Stage, ActionView) {
    match stage {
        Stage::RunningWork => match outcome {
            Ok(()) => closing_step(kind),
            Err(p) => if kind.has_handler() {
                (Stage::RunningHandler, ActionView::RunHandler(payload_text(p)))
            } else {
                closing_step(kind)
            },
        },
        Stage::RunningHandler => closing_step(kind),
        Stage::RunningFinalizer => (Stage::Done, ActionView::Finish),
        Stage::Done => (Stage::Done, ActionView::Finish),
    }
}

/// The state of one launch.
pub struct Launch {
    pub kind: LaunchKind,
    pub stage: Stage,
}

impl Launch {
    /// A stage is only reached by a launch that has the call it waits on.
    pub open spec fn wf(&self) -> bool {
        &&& self.stage is RunningHandler ==> self.kind.has_handler()
        &&& self.stage is RunningFinalizer ==> self.kind.has_finalizer()
    }

    /// Starts a launch: its first action is always to run the work.
    pub fn start(kind: LaunchKind) -> (r: (Launch, Action))
        ensures
            r.0.kind == kind,
            r.0.stage == Stage::RunningWork,
            r.0.wf(),
            r.1@ == ActionView::RunWork,
    {
        (Launch { kind, stage: Stage::RunningWork }, Action::RunWork)
    }

    /// Takes the outcome of the call the launch was waiting on and returns
    /// what to do next. A faulted work hands its text to the handler; every
    /// other outcome, a fault of the handler or of the finalizer included, is
    /// dropped.
    pub fn advance(&mut self, outcome: Outcome) -> (a: Action)
        ensures
            (final(self).stage, a@) == transition(old(self).kind, old(self).stage, outcome),
            final(self).kind == old(self).kind,
            old(self).wf() ==> final(self).wf(),
    {
        match self.stage {
            Stage::RunningWork => match outcome {
                Ok(()) => self.close(),
                Err(p) => match self.kind {
                    LaunchKind::Recover => self.close(),
                    _ => {
                        self.stage = Stage::RunningHandler;
                        Action::RunHandler(spawn_error_to_string(p))
                    },
                },
            },
            Stage::RunningHandler => self.close(),
            Stage::RunningFinalizer | Stage::Done => {
                self.stage = Stage::Done;
                Action::Finish
            },
        }
    }

    fn close(&mut self) -> (a: Action)
        ensures
            (final(self).stage, a@) == closing_step(old(self).kind),
            final(self).kind == old(self).kind,
    {
        match self.kind {
            LaunchKind::CatchFinally => {
                self.stage = Stage::RunningFinalizer;
                Action::RunFinalizer
            },
            _ => {
                self.stage = Stage::Done;
                Action::Finish
            },
        }
    }
}

/// The outcome that the call of a stage yields, out of the outcomes of the
/// work, the handler and the finalizer.
pub open spec fn outcome_at(stage: Stage, work: Outcome, handler: Outcome, finalizer: Outcome) -> Outcome {
    match stage {
        Stage::RunningWork => work,
        Stage::RunningHandler => handler,
        _ => finalizer,
    }
}

/// The actions that [`Launch::advance`] returns from `stage` on, up to and
/// including [`Action::Finish`], when the calls yield the given outcomes.
pub open spec fn actions_from(
    kind: LaunchKind,
    stage: Stage,
    work: Outcome,
    handler: Outcome,
    finalizer: Outcome,
) -> Seq<ActionView>
    decreases stage_rank(stage),
{
    if stage is Done {
        seq![]
    } else {
        let (next, a) = transition(kind, stage, outcome_at(stage, work, handler, finalizer));
        if stage_rank(next) < stage_rank(stage) && !(next is Done) {
            seq![a] + actions_from(kind, next, work, handler, finalizer)
        } else {
            seq![a]
        }
    }
}

/// Every action handed out by one launch, from [`Launch::start`] to
/// [`Action::Finish`].
pub open spec fn launch_actions(kind: LaunchKind, work: Outcome, handler: Outcome, finalizer: Outcome) -> Seq<ActionView> {
    seq![ActionView::RunWork] + actions_from(kind, Stage::RunningWork, work, handler, finalizer)
}

/// The actions of a launch, written out for each kind and work outcome.
proof fn lemma_launch_actions(kind: LaunchKind, work: Outcome, handler: Outcome, finalizer: Outcome)
    ensures
        launch_actions(kind, work, handler, finalizer) == match (kind, work) {
            (LaunchKind::Recover, _) => seq![ActionView::RunWork, ActionView::Finish],
            (LaunchKind::Catch, Ok(())) => seq![ActionView::RunWork, ActionView::Finish],
            (LaunchKind::Catch, Err(p)) => seq![
                ActionView::RunWork,
                ActionView::RunHandler(payload_text(p)),
                ActionView::Finish,
            ],
            (LaunchKind::CatchFinally, Ok(())) => seq![
                ActionView::RunWork,
                ActionView::RunFinalizer,
                ActionView::Finish,
            ],
            (LaunchKind::CatchFinally, Err(p)) => seq![
                ActionView::RunWork,
                ActionView::RunHandler(payload_text(p)),
                ActionView::RunFinalizer,
                ActionView::Finish,
            ],
        },
{
    reveal_with_fuel(actions_from, 4);
    let t = launch_actions(kind, work, handler, finalizer);
    match (kind, work) {
        (LaunchKind::Recover, _) => {
            assert(t =~= seq![ActionView::RunWork, ActionView::Finish]);
        },
        (LaunchKind::Catch, Ok(())) => {
            assert(t =~= seq![ActionView::RunWork, ActionView::Finish]);
        },
        (LaunchKind::Catch, Err(p)) => {
            assert(t =~= seq![
                ActionView::RunWork,
                ActionView::RunHandler(payload_text(p)),
                ActionView::Finish,
            ]);
        },
        (LaunchKind::CatchFinally, Ok(())) => {
            assert(t =~= seq![ActionView::RunWork, ActionView::RunFinalizer, ActionView::Finish]);
        },
        (LaunchKind::CatchFinally, Err(p)) => {
            assert(t =~= seq![
                ActionView::RunWork,
                ActionView::RunHandler(payload_text(p)),
                ActionView::RunFinalizer,
                ActionView::Finish,
            ]);
        },
    }
}

/// Every launch runs its work exactly once, first, and ends in
/// [`Action::Finish`], whatever its calls yield: no fault of the work, the
/// handler or the finalizer escapes it or cuts it short.
pub proof fn launch_always_finishes(kind: LaunchKind, work: Outcome, handler: Outcome, finalizer: Outcome)
    ensures
        ({
            let t = launch_actions(kind, work, handler, finalizer);
            &&& 2 <= t.len() <= 4
            &&& t[0] == ActionView::RunWork
            &&& t.last() == ActionView::Finish
            &&& forall|i: int| 1 <= i < t.len() ==> !(#[trigger] t[i] is RunWork)
            &&& forall|i: int| 0 <= i < t.len() - 1 ==> !(#[trigger] t[i] is Finish)
        }),
{
    lemma_launch_actions(kind, work, handler, finalizer);
}

/// The handler runs if and only if the launch has one and the work faulted;
/// it then runs right after the work, on the text of the work's fault. Work
/// that completes normally is followed by no handler.
pub proof fn handler_runs_iff_work_faulted(kind: LaunchKind, work: Outcome, handler: Outcome, finalizer: Outcome)
    ensures
        ({
            let t = launch_actions(kind, work, handler, finalizer);
            &&& (exists|i: int| 0 <= i < t.len() && #[trigger] t[i] is RunHandler)
                <==> (kind.has_handler() && work is Err)
            &&& forall|i: int| 0 <= i < t.len() && #[trigger] t[i] is RunHandler ==> i == 1
            &&& kind.has_handler() ==> (work matches Err(p) ==> t[1] == ActionView::RunHandler(payload_text(p)))
        }),
{
    lemma_launch_actions(kind, work, handler, finalizer);
    let t = launch_actions(kind, work, handler, finalizer);
    if kind.has_handler() && work is Err {
        assert(t[1] is RunHandler);
    }
}

/// A launch with a finalizer runs it exactly once, after the work and the
/// handler stage and just before it finishes, whether the work succeeded or
/// faulted and whether the handler succeeded or faulted. A launch without one
/// never runs it.
pub proof fn finalizer_runs_once_last(kind: LaunchKind, work: Outcome, handler: Outcome, finalizer: Outcome)
    ensures
        ({
            let t = launch_actions(kind, work, handler, finalizer);
            &&& kind.has_finalizer() ==> {
                &&& t[t.len() - 2] == ActionView::RunFinalizer
                &&& forall|i: int| 0 <= i < t.len() && #[trigger] t[i] is RunFinalizer ==> i == t.len() - 2
                &&& forall|i: int| 0 <= i < t.len() - 2 ==> (#[trigger] t[i] is RunWork || t[i] is RunHandler)
            }
            &&& !kind.has_finalizer() ==> forall|i: int| 0 <= i < t.len() ==> !(#[trigger] t[i] is RunFinalizer)
        }),
{
    lemma_launch_actions(kind, work, handler, finalizer);
}

} // verus!
