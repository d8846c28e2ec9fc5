//! The archive run: fetching the selected media of every post and writing
//! its metadata file, one action at a time.
//!
//! The run itself touches nothing. It names the next action, the caller
//! performs it and answers with an event, and the run moves on. A failure is
//! reported and costs the variant or the post it befell, never the run.
//!
//! For each post with media the run goes through the targets of the post in
//! order. A target without a file name is reported. The file of any other
//! target is probed, and fetched only where storage lacks it. The metadata
//! file is written last, whether or not a fetch failed: it is named after,
//! and lists, the files that storage held or that were fetched.

use vstd::prelude::*;

use crate::error::ArchiveError;
use crate::event::Event;
use crate::metadata::{metadata_content, metadata_content_of};
use crate::plan::{PostPlan, PostPlanView, Target, TargetView};
use crate::utils::{metadata_filename, metadata_filename_of};

verus! {

/// What the caller of an archive run is asked to do next.
#[derive(Clone, Debug, PartialEq, Eq)]
pub enum ArchiveAction {
    /// Tell whether canonical storage holds `filename`.
    Probe { filename: String },
    /// Fetch `url` and store the whole body as `filename`.
    Download { url: String, filename: String },
    /// Write `content` to `filename`, replacing what is there.
    WriteMetadata { filename: String, content: String },
    /// Note that the post has no media and is passed over.
    Skip { post_id: String },
    /// Log that `subject`, a URL or a file name of the post, was given up.
    Report { post_id: String, subject: String, error: ArchiveError },
}

/// An action of an archive run, with its texts as sequences of characters.
pub enum ArchiveActionView {
    Probe { filename: Seq<char> },
    Download { url: Seq<char>, filename: Seq<char> },
    WriteMetadata { filename: Seq<char>, content: Seq<char> },
    Skip { post_id: Seq<char> },
    Report { post_id: Seq<char>, subject: Seq<char>, error: ArchiveError },
}

impl View for ArchiveAction {
    type V = ArchiveActionView;

    open spec fn view(&self) -> ArchiveActionView {
        match self {
            ArchiveAction::Probe { filename } => ArchiveActionView::Probe { filename: filename@ },
            ArchiveAction::Download { url, filename } => ArchiveActionView::Download {
                url: url@,
                filename: filename@,
            },
            ArchiveAction::WriteMetadata { filename, content } => ArchiveActionView::WriteMetadata {
                filename: filename@,
                content: content@,
            },
            ArchiveAction::Skip { post_id } => ArchiveActionView::Skip { post_id: post_id@ },
            ArchiveAction::Report { post_id, subject, error } => ArchiveActionView::Report {
                post_id: post_id@,
                subject: subject@,
                error: *error,
            },
        }
    }
}

impl DeepView for ArchiveAction {
    type V = ArchiveActionView;

    open spec fn deep_view(&self) -> ArchiveActionView {
        self@
    }
}

impl ArchiveActionView {
    /// Whether `event` is an answer to this action.
    pub open spec fn answered_by(self, event: Event) -> bool {
        match self {
            ArchiveActionView::Probe { .. } => event == Event::Present || event == Event::Absent,
            ArchiveActionView::Download { .. } | ArchiveActionView::WriteMetadata { .. } => event
                == Event::Done || event is Failed,
            ArchiveActionView::Skip { .. } | ArchiveActionView::Report { .. } => event
                == Event::Done,
        }
    }
}

/// What the run is doing with the variant or the post it stands at.
#[derive(Clone, Copy, Debug, PartialEq, Eq, Structural)]
pub enum Phase {
    /// Looking at the variant: probing its file, or reporting it unusable.
    Check,
    /// Downloading the variant, whose file was absent.
    Fetch,
    /// Reporting the failed download of the variant.
    Failed(ArchiveError),
    /// Writing the metadata file of the post.
    Write,
    /// Reporting the failed write of the metadata file.
    WriteFailed(ArchiveError),
}

/// The state of an archive run.
pub struct RunState {
    /// What is to be stored, post by post.
    pub plans: Seq<PostPlanView>,
    /// The post the run stands at; past the last one when it has finished.
    pub post: nat,
    /// The target the run stands at; past the last one while the metadata
    /// file is written.
    pub variant: nat,
    pub phase: Phase,
    /// The files of the current post found or put in storage so far.
    pub stored: Seq<Seq<char>>,
}

impl RunState {
    /// The state before the first action.
    pub open spec fn start(plans: Seq<PostPlanView>) -> RunState {
        RunState {
            plans,
            post: 0,
            variant: 0,
            phase: Phase::Check,
            stored: Seq::empty(),
        }
    }

    /// Whether the run has passed its last post.
    pub open spec fn finished(self) -> bool {
        self.post >= self.plans.len()
    }

    /// The plan of the current post.
    pub open spec fn plan(self) -> PostPlanView {
        self.plans[self.post as int]
    }

    /// The current target.
    pub open spec fn target(self) -> TargetView {
        self.plan().targets[self.variant as int]
    }

    /// The position is within the plans, and the phase fits the position.
    pub open spec fn wf(self) -> bool {
        &&& self.post <= self.plans.len()
        &&& !self.finished() ==> {
            let count = self.plan().targets.len();
            match self.phase {
                Phase::Check => self.variant < count || (count == 0 && self.variant == 0),
                Phase::Fetch | Phase::Failed(_) => self.variant < count && self.target() is File,
                Phase::Write | Phase::WriteFailed(_) => self.variant == count && count > 0,
            }
        }
    }

    /// The action that the caller is asked to perform in this state, or
    /// `None` where the run has finished.
    pub open spec fn pending(self) -> Option<ArchiveActionView> {
        if self.finished() {
            None
        } else {
            let post_id = self.plan().post.id;
            Some(
                match self.phase {
                    Phase::Check => if self.plan().targets.len() == 0 {
                        ArchiveActionView::Skip { post_id }
                    } else {
                        match self.target() {
                            TargetView::File { filename, .. } => ArchiveActionView::Probe {
                                filename,
                            },
                            TargetView::Unusable { url, error } => ArchiveActionView::Report {
                                post_id,
                                subject: url,
                                error,
                            },
                        }
                    },
                    Phase::Fetch => ArchiveActionView::Download {
                        url: self.target().url(),
                        filename: self.target().subject(),
                    },
                    Phase::Failed(error) => ArchiveActionView::Report {
                        post_id,
                        subject: self.target().subject(),
                        error,
                    },
                    Phase::Write => ArchiveActionView::WriteMetadata {
                        filename: metadata_filename_of(self.stored),
                        content: metadata_content_of(self.plan().post, self.stored),
                    },
                    Phase::WriteFailed(error) => ArchiveActionView::Report {
                        post_id,
                        subject: metadata_filename_of(self.stored),
                        error,
                    },
                },
            )
        }
    }

    /// The state with the file of the current target counted as stored.
    pub open spec fn keep(self) -> RunState {
        RunState { stored: self.stored.push(self.target().subject()), ..self }
    }

    /// The state at the next target of the post, or at its metadata file
    /// where the current target is the last.
    pub open spec fn next_variant(self) -> RunState {
        RunState {
            variant: self.variant + 1,
            phase: if self.variant + 1 == self.plan().targets.len() {
                Phase::Write
            } else {
                Phase::Check
            },
            ..self
        }
    }

    /// The state at the start of the next post.
    pub open spec fn next_post(self) -> RunState {
        RunState {
            post: self.post + 1,
            variant: 0,
            phase: Phase::Check,
            stored: Seq::empty(),
            ..self
        }
    }

    /// The state at the same target, in another phase.
    pub open spec fn enter(self, phase: Phase) -> RunState {
        RunState { phase, ..self }
    }

    /// The state after the caller answered the pending action with `event`.
    ///
    /// An event that does not answer the pending action changes nothing.
    pub open spec fn step(self, event: Event) -> RunState {
        match self.pending() {
            None => self,
            Some(ArchiveActionView::Probe { .. }) => match event {
                Event::Present => self.keep().next_variant(),
                Event::Absent => self.enter(Phase::Fetch),
                _ => self,
            },
            Some(ArchiveActionView::Download { .. }) => match event {
                Event::Done => self.keep().next_variant(),
                Event::Failed(error) => self.enter(Phase::Failed(error)),
                _ => self,
            },
            Some(ArchiveActionView::WriteMetadata { .. }) => match event {
                Event::Done => self.next_post(),
                Event::Failed(error) => self.enter(Phase::WriteFailed(error)),
                _ => self,
            },
            Some(ArchiveActionView::Skip { .. }) => match event {
                Event::Done => self.next_post(),
                _ => self,
            },
            Some(ArchiveActionView::Report { .. }) => match event {
                Event::Done => if self.phase is WriteFailed {
                    self.next_post()
                } else {
                    self.next_variant()
                },
                _ => self,
            },
        }
    }

    /// Whether `event` answers the pending action.
    pub open spec fn takes(self, event: Event) -> bool {
        self.pending() matches Some(action) && action.answered_by(event)
    }
}

/// Where a run stands in its plans.
#[derive(Clone, Copy)]
struct Cursor {
    post: usize,
    variant: usize,
    phase: Phase,
}

/// An archive run over the plans of a catalog.
pub struct ArchiveRun {
    plans: Vec<PostPlan>,
    cursor: Cursor,
    stored: Vec<String>,
}

impl View for ArchiveRun {
    type V = RunState;

    closed spec fn view(&self) -> RunState {
        RunState {
            plans: self.plans.deep_view(),
            post: self.cursor.post as nat,
            variant: self.cursor.variant as nat,
            phase: self.cursor.phase,
            stored: self.stored.deep_view(),
        }
    }
}

impl ArchiveRun {
    #[verifier::type_invariant]
    spec fn inv(self) -> bool {
        self@.wf()
    }

    /// Starts a run over `plans`.
    pub fn new(plans: Vec<PostPlan>) -> (run: ArchiveRun)
        ensures
            run@ == RunState::start(plans.deep_view()),
            run@.wf(),
    {
        let run = ArchiveRun {
            plans,
            cursor: Cursor { post: 0, variant: 0, phase: Phase::Check },
            stored: Vec::new(),
        };
        assert(run@.stored =~= Seq::empty());
        run
    }

    /// Whether the run has nothing left to do.
    pub fn is_finished(&self) -> (finished: bool)
        ensures
            finished == self@.finished(),
            self@.wf(),
    {
        proof {
            use_type_invariant(self);
        }
        self.cursor.post >= self.plans.len()
    }

    /// The action that the caller is asked to perform next, or `None` where
    /// the run has finished.
    pub fn pending(&self) -> (action: Option<ArchiveAction>)
        ensures
            action.deep_view() == self@.pending(),
            self@.wf(),
    {
        proof {
            use_type_invariant(self);
        }
        if self.cursor.post >= self.plans.len() {
            return None;
        }
        let plan = &self.plans[self.cursor.post];
        let post_id = plan.post.id.clone();
        let action = match self.cursor.phase {
            Phase::Check => {
                if plan.targets.len() == 0 {
                    ArchiveAction::Skip { post_id }
                } else {
                    match &plan.targets[self.cursor.variant] {
                        Target::File { filename, .. } => ArchiveAction::Probe {
                            filename: filename.clone(),
                        },
                        Target::Unusable { url, error } => ArchiveAction::Report {
                            post_id,
                            subject: url.clone(),
                            error: *error,
                        },
                    }
                }
            },
            Phase::Fetch => {
                let target = &plan.targets[self.cursor.variant];
                ArchiveAction::Download {
                    url: target.url().clone(),
                    filename: target.subject().clone(),
                }
            },
            Phase::Failed(error) => ArchiveAction::Report {
                post_id,
                subject: plan.targets[self.cursor.variant].subject().clone(),
                error,
            },
            Phase::Write => ArchiveAction::WriteMetadata {
                filename: metadata_filename(&self.stored),
                content: metadata_content(&plan.post, &self.stored),
            },
            Phase::WriteFailed(error) => ArchiveAction::Report {
                post_id,
                subject: metadata_filename(&self.stored),
                error,
            },
        };
        Some(action)
    }

    /// Takes the caller's answer to the pending action and moves on.
    ///
    /// An event that does not answer the pending action is ignored: the same
    /// action stays pending.
    pub fn advance(self, event: Event) -> (next: ArchiveRun)
        ensures
            next@ == self@.step(event),
            next@.wf(),
    {
        proof {
            use_type_invariant(&self);
        }
        let ghost before = self@;
        let ArchiveRun { plans, cursor, mut stored } = self;
        if cursor.post >= plans.len() {
            return ArchiveRun { plans, cursor, stored };
        }
        let post = cursor.post;
        let variant = cursor.variant;
        let count = plans[post].targets.len();
        let usable = variant < count && matches!(plans[post].targets[variant], Target::File { .. });
        let onward = Cursor {
            post,
            variant: if variant < count {
                variant + 1
            } else {
                variant
            },
            phase: if variant < count && variant + 1 == count {
                Phase::Write
            } else {
                Phase::Check
            },
        };
        let beyond = Cursor { post: post + 1, variant: 0, phase: Phase::Check };
        let mut keep = false;
        let mut next = cursor;
        match cursor.phase {
            Phase::Check => {
                if count == 0 {
                    if event == Event::Done {
                        next = beyond;
                    }
                } else if usable {
                    if event == Event::Present {
                        keep = true;
                        next = onward;
                    } else if event == Event::Absent {
                        next = Cursor { post, variant, phase: Phase::Fetch };
                    }
                } else if event == Event::Done {
                    next = onward;
                }
            },
            Phase::Fetch => {
                match event {
                    Event::Done => {
                        keep = true;
                        next = onward;
                    },
                    Event::Failed(error) => {
                        next = Cursor { post, variant, phase: Phase::Failed(error) };
                    },
                    _ => {},
                }
            },
            Phase::Failed(_) => {
                if event == Event::Done {
                    next = onward;
                }
            },
            Phase::Write => {
                match event {
                    Event::Done => {
                        next = beyond;
                    },
                    Event::Failed(error) => {
                        next = Cursor { post, variant, phase: Phase::WriteFailed(error) };
                    },
                    _ => {},
                }
            },
            Phase::WriteFailed(_) => {
                if event == Event::Done {
                    next = beyond;
                }
            },
        }
        if keep {
            stored.push(plans[post].targets[variant].subject().clone());
            assert(stored.deep_view() =~= before.keep().stored);
        }
        if next.post != post {
            stored = Vec::new();
            assert(stored.deep_view() =~= Seq::empty());
        }
        ArchiveRun { plans, cursor: next, stored }
    }
}

/// The steps that the plans from position `from` on can take at most.
pub open spec fn work_from(plans: Seq<PostPlanView>, from: int) -> nat
    decreases plans.len() - from,
{
    if from < 0 || from >= plans.len() {
        0
    } else {
        3 * plans[from].targets.len() + 3 + work_from(plans, from + 1)
    }
}

impl RunState {
    /// The steps already taken within the current post.
    pub open spec fn spent(self) -> nat {
        3 * self.variant + match self.phase {
            Phase::Check | Phase::Write => 0nat,
            Phase::Fetch | Phase::WriteFailed(_) => 1nat,
            Phase::Failed(_) => 2nat,
        }
    }

    /// A bound on the answers that the run still takes before it finishes.
    pub open spec fn remaining(self) -> nat {
        if self.finished() {
            0
        } else {
            (work_from(self.plans, self.post as int) - self.spent()) as nat
        }
    }

    /// The state after the caller answered with `events`, one after another.
    pub open spec fn run(self, events: Seq<Event>) -> RunState
        decreases events.len(),
    {
        if events.len() == 0 {
            self
        } else {
            self.step(events[0]).run(events.drop_first())
        }
    }
}

/// A step keeps the state well formed and never touches the plans.
pub proof fn lemma_step_wf(s: RunState, event: Event)
    requires
        s.wf(),
    ensures
        s.step(event).wf(),
        s.step(event).plans == s.plans,
        !s.takes(event) ==> s.step(event) == s,
{
}

/// Every answer brings the run closer to its end: a run over `n` remaining
/// steps is finished after at most `n` answers.
pub proof fn lemma_step_progress(s: RunState, event: Event)
    requires
        s.wf(),
        s.takes(event),
    ensures
        s.step(event).remaining() < s.remaining(),
{
}

/// Only a finished run has nothing pending, and it stays finished.
pub proof fn lemma_finished(s: RunState, event: Event)
    requires
        s.wf(),
    ensures
        s.finished() <==> s.pending() is None,
        s.finished() <==> s.remaining() == 0,
        s.finished() ==> s.step(event) == s,
{
}

/// A post without media is passed over: the run asks for a note and then
/// turns to the next post, with nothing probed, fetched or written.
pub proof fn lemma_post_without_media(s: RunState)
    requires
        s.wf(),
        !s.finished(),
        s.plan().targets.len() == 0,
    ensures
        s.pending() == Some(ArchiveActionView::Skip { post_id: s.plan().post.id }),
        s.step(Event::Done) == s.next_post(),
        s.step(Event::Done).post == s.post + 1,
{
}

/// A file that storage holds is not fetched: it counts as stored at once,
/// and the run turns to what follows. A file that storage lacks is fetched
/// next, from the URL of its variant and under its own name.
pub proof fn lemma_probe(s: RunState)
    requires
        s.wf(),
        s.pending() matches Some(ArchiveActionView::Probe { .. }),
    ensures
        s.step(Event::Present) == s.keep().next_variant(),
        s.step(Event::Present).stored == s.stored.push(s.pending().unwrap()->Probe_filename),
        !(s.step(Event::Present).pending() matches Some(ArchiveActionView::Download { .. })),
        s.step(Event::Absent).pending() == Some(
            ArchiveActionView::Download {
                url: s.target().url(),
                filename: s.pending().unwrap()->Probe_filename,
            },
        ),
{
}

/// A download is asked for only after its file was probed and found
/// absent: whenever a step leaves a download pending, either it was pending
/// before and the event was no answer to it, or the step answered the probe
/// of that file with `Absent`.
pub proof fn lemma_download_follows_absent_probe(s: RunState, event: Event)
    requires
        s.wf(),
        s.step(event).pending() matches Some(ArchiveActionView::Download { .. }),
    ensures
        s.pending() == s.step(event).pending() || (event == Event::Absent && s.pending() == Some(
            ArchiveActionView::Probe {
                filename: s.step(event).pending().unwrap()->Download_filename,
            },
        )),
{
}

/// A failed download costs only the file that failed. Once the failure is
/// reported, the run stands where a successful download would have left it,
/// with that one file missing from those counted as stored.
pub proof fn lemma_failed_download_is_isolated(s: RunState, error: ArchiveError)
    requires
        s.wf(),
        s.pending() matches Some(ArchiveActionView::Download { .. }),
    ensures
        s.step(Event::Failed(error)).pending() == Some(
            ArchiveActionView::Report {
                post_id: s.plan().post.id,
                subject: s.pending().unwrap()->Download_filename,
                error,
            },
        ),
        s.step(Event::Failed(error)).step(Event::Done) == (RunState {
            stored: s.stored,
            ..s.step(Event::Done)
        }),
        s.step(Event::Done).stored == s.stored.push(s.pending().unwrap()->Download_filename),
{
}

/// A failed metadata write costs only that file: once it is reported, the
/// run turns to the next post as it would have after a successful write.
pub proof fn lemma_failed_write_is_isolated(s: RunState, error: ArchiveError)
    requires
        s.wf(),
        s.pending() matches Some(ArchiveActionView::WriteMetadata { .. }),
    ensures
        s.step(Event::Failed(error)).pending() == Some(
            ArchiveActionView::Report {
                post_id: s.plan().post.id,
                subject: s.pending().unwrap()->WriteMetadata_filename,
                error,
            },
        ),
        s.step(Event::Failed(error)).step(Event::Done) == s.step(Event::Done),
        s.step(Event::Done) == s.next_post(),
{
}

/// A variant whose URL yields no file name is reported and passed over; the
/// run then stands at the next variant with the stored files unchanged.
pub proof fn lemma_unusable_variant_is_isolated(s: RunState)
    requires
        s.wf(),
        !s.finished(),
        s.phase == Phase::Check,
        s.plan().targets.len() > 0,
        s.target() is Unusable,
    ensures
        s.pending() == Some(
            ArchiveActionView::Report {
                post_id: s.plan().post.id,
                subject: s.target()->Unusable_url,
                error: s.target()->Unusable_error,
            },
        ),
        s.step(Event::Done) == s.next_variant(),
{
}

} // verus!
