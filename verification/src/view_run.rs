//! The view run: carrying out the entries of a view, one action at a time.
//!
//! As in an archive run, the run names the next action and the caller
//! answers with an event. A failure is reported and costs the rest of the
//! entry it befell, never the run.

use vstd::prelude::*;

use crate::error::ArchiveError;
use crate::entry::{ViewAction, ViewActionView, ViewEntry, ViewEntryView};
use crate::event::Event;

verus! {

/// What the run is doing with the action it stands at.
#[derive(Clone, Copy, Debug, PartialEq, Eq, Structural)]
pub enum ViewPhase {
    /// Asking for the action.
    Act,
    /// Reporting its failure.
    Failed(ArchiveError),
}

/// The state of a view run.
pub struct ViewState {
    /// What the view holds, row by row.
    pub entries: Seq<ViewEntryView>,
    /// The entry the run stands at; past the last one when it has finished.
    pub entry: nat,
    /// The action of the entry the run stands at.
    pub step: nat,
    pub phase: ViewPhase,
}

impl ViewState {
    /// The state before the first action.
    pub open spec fn start(entries: Seq<ViewEntryView>) -> ViewState {
        ViewState { entries, entry: 0, step: 0, phase: ViewPhase::Act }
    }

    /// Whether the run has passed its last entry.
    pub open spec fn finished(self) -> bool {
        self.entry >= self.entries.len()
    }

    /// The current entry.
    pub open spec fn current(self) -> ViewEntryView {
        self.entries[self.entry as int]
    }

    /// The position is within the entries, and only an action of the entry
    /// is reported as failed.
    pub open spec fn wf(self) -> bool {
        &&& self.entry <= self.entries.len()
        &&& !self.finished() ==> {
            let count = self.current().actions.len();
            match self.phase {
                ViewPhase::Act => self.step < count || (count == 0 && self.step == 0),
                ViewPhase::Failed(_) => self.step < count,
            }
        }
    }

    /// The action that the caller is asked to perform in this state, or
    /// `None` where the run has finished. An entry without actions is noted
    /// as passed over.
    pub open spec fn pending(self) -> Option<ViewActionView> {
        if self.finished() {
            None
        } else {
            let entry = self.current();
            Some(
                match self.phase {
                    ViewPhase::Act => if entry.actions.len() == 0 {
                        ViewActionView::Skip { post_id: entry.post_id }
                    } else {
                        entry.actions[self.step as int]
                    },
                    ViewPhase::Failed(error) => ViewActionView::Report {
                        post_id: entry.post_id,
                        subject: entry.actions[self.step as int].subject(),
                        error,
                    },
                },
            )
        }
    }

    /// The state at the next action of the entry, or at the next entry where
    /// the current action is the last.
    pub open spec fn onward(self) -> ViewState {
        if self.step + 1 < self.current().actions.len() {
            ViewState { step: self.step + 1, ..self }
        } else {
            self.next_entry()
        }
    }

    /// The state at the start of the next entry.
    pub open spec fn next_entry(self) -> ViewState {
        ViewState { entry: self.entry + 1, step: 0, phase: ViewPhase::Act, ..self }
    }

    /// Whether `event` answers the pending action.
    pub open spec fn takes(self, event: Event) -> bool {
        self.pending() matches Some(action) && action.answered_by(event)
    }

    /// The state after the caller answered the pending action with `event`.
    ///
    /// A finished action leads to the next one. A failed action is reported
    /// next, and after the report the run turns to the next entry. An event
    /// that does not answer the pending action changes nothing.
    pub open spec fn step(self, event: Event) -> ViewState {
        if !self.takes(event) {
            self
        } else {
            match (self.phase, event) {
                (ViewPhase::Act, Event::Failed(error)) => ViewState {
                    phase: ViewPhase::Failed(error),
                    ..self
                },
                (ViewPhase::Act, _) => self.onward(),
                (ViewPhase::Failed(_), _) => self.next_entry(),
            }
        }
    }

    /// The state after the caller answered with `events`, one after another.
    pub open spec fn run(self, events: Seq<Event>) -> ViewState
        decreases events.len(),
    {
        if events.len() == 0 {
            self
        } else {
            self.step(events[0]).run(events.drop_first())
        }
    }
}

/// Where a run stands in its entries.
#[derive(Clone, Copy)]
struct Position {
    entry: usize,
    step: usize,
    phase: ViewPhase,
}

/// A view run over the entries of one view.
pub struct ViewRun {
    entries: Vec<ViewEntry>,
    position: Position,
}

impl View for ViewRun {
    type V = ViewState;

    closed spec fn view(&self) -> ViewState {
        ViewState {
            entries: self.entries.deep_view(),
            entry: self.position.entry as nat,
            step: self.position.step as nat,
            phase: self.position.phase,
        }
    }
}

impl ViewRun {
    #[verifier::type_invariant]
    spec fn inv(self) -> bool {
        self@.wf()
    }

    /// Starts a run over `entries`.
    pub fn new(entries: Vec<ViewEntry>) -> (run: ViewRun)
        ensures
            run@ == ViewState::start(entries.deep_view()),
            run@.wf(),
    {
        ViewRun { entries, position: Position { entry: 0, step: 0, phase: ViewPhase::Act } }
    }

    /// Whether the run has nothing left to do.
    pub fn is_finished(&self) -> (finished: bool)
        ensures
            finished == self@.finished(),
            self@.wf(),
    {
        proof {
            use_type_invariant(self);
        }
        self.position.entry >= self.entries.len()
    }

    /// The action that the caller is asked to perform next, or `None` where
    /// the run has finished.
    pub fn pending(&self) -> (action: Option<ViewAction>)
        ensures
            action.deep_view() == self@.pending(),
            self@.wf(),
    {
        proof {
            use_type_invariant(self);
        }
        if self.position.entry >= self.entries.len() {
            return None;
        }
        let entry = &self.entries[self.position.entry];
        let action = match self.position.phase {
            ViewPhase::Act => {
                if entry.actions.len() == 0 {
                    ViewAction::Skip { post_id: entry.post_id.clone() }
                } else {
                    entry.actions[self.position.step].duplicate()
                }
            },
            ViewPhase::Failed(error) => ViewAction::Report {
                post_id: entry.post_id.clone(),
                subject: entry.actions[self.position.step].subject().clone(),
                error,
            },
        };
        Some(action)
    }

    /// Takes the caller's answer to the pending action and moves on.
    ///
    /// An event that does not answer the pending action is ignored: the same
    /// action stays pending.
    pub fn advance(self, event: Event) -> (next: ViewRun)
        ensures
            next@ == self@.step(event),
            next@.wf(),
    {
        proof {
            use_type_invariant(&self);
        }
        let ghost before = self@;
        let ViewRun { entries, position } = self;
        if position.entry >= entries.len() {
            return ViewRun { entries, position };
        }
        let count = entries[position.entry].actions.len();
        let beyond = Position { entry: position.entry + 1, step: 0, phase: ViewPhase::Act };
        let onward = if position.step < count && position.step + 1 < count {
            Position { entry: position.entry, step: position.step + 1, phase: ViewPhase::Act }
        } else {
            beyond
        };
        let may_fail = position.step < count && matches!(
            entries[position.entry].actions[position.step],
            ViewAction::EnsureDir { .. } | ViewAction::Link { .. }
        );
        let next = match position.phase {
            ViewPhase::Act => match event {
                Event::Done => onward,
                Event::Failed(error) => if may_fail {
                    Position { phase: ViewPhase::Failed(error), ..position }
                } else {
                    position
                },
                _ => position,
            },
            ViewPhase::Failed(_) => match event {
                Event::Done => beyond,
                _ => position,
            },
        };
        ViewRun { entries, position: next }
    }
}

/// The steps that the entries from position `from` on can take at most.
pub open spec fn view_work_from(entries: Seq<ViewEntryView>, from: int) -> nat
    decreases entries.len() - from,
{
    if from < 0 || from >= entries.len() {
        0
    } else {
        2 * entries[from].actions.len() + 2 + view_work_from(entries, from + 1)
    }
}

impl ViewState {
    /// A bound on the answers that the run still takes before it finishes.
    pub open spec fn remaining(self) -> nat {
        if self.finished() {
            0
        } else {
            (view_work_from(self.entries, self.entry as int) - 2 * self.step - match self.phase {
                ViewPhase::Act => 0int,
                ViewPhase::Failed(_) => 1int,
            }) as nat
        }
    }
}

/// A step keeps the state well formed and never touches the entries.
pub proof fn lemma_view_step_wf(s: ViewState, event: Event)
    requires
        s.wf(),
    ensures
        s.step(event).wf(),
        s.step(event).entries == s.entries,
        !s.takes(event) ==> s.step(event) == s,
{
}

/// Every answer brings the run closer to its end.
pub proof fn lemma_view_step_progress(s: ViewState, event: Event)
    requires
        s.wf(),
        s.takes(event),
    ensures
        s.step(event).remaining() < s.remaining(),
{
}

/// Only a finished run has nothing pending, and it stays finished.
pub proof fn lemma_view_finished(s: ViewState, event: Event)
    requires
        s.wf(),
    ensures
        s.finished() <==> s.pending() is None,
        s.finished() <==> s.remaining() == 0,
        s.finished() ==> s.step(event) == s,
{
}

/// A folder that cannot be made, or a link that cannot be made, costs the
/// rest of its entry and nothing else: the failure is reported, and after
/// the report the run stands at the start of the next entry.
pub proof fn lemma_failed_action_is_isolated(s: ViewState, error: ArchiveError)
    requires
        s.wf(),
        s.pending() matches Some(action) && (action is EnsureDir || action is Link),
        s.phase == ViewPhase::Act,
    ensures
        s.step(Event::Failed(error)).pending() == Some(
            ViewActionView::Report {
                post_id: s.current().post_id,
                subject: s.pending().unwrap().subject(),
                error,
            },
        ),
        s.step(Event::Failed(error)).step(Event::Done) == s.next_entry(),
        s.next_entry().entry == s.entry + 1,
        s.next_entry().entries == s.entries,
{
}

/// A report in an entry, such as that of a dangling reference, holds up
/// nothing: once it is logged the run goes on with what follows it.
pub proof fn lemma_report_is_passed(s: ViewState)
    requires
        s.wf(),
        s.phase == ViewPhase::Act,
        s.pending() matches Some(ViewActionView::Report { .. }),
    ensures
        s.step(Event::Done) == s.onward(),
        s.current().actions.len() == 1 ==> s.step(Event::Done) == s.next_entry(),
{
}

} // verus!
