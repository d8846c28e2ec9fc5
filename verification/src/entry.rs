//! The entries of a view: for one row, the actions that bring the files of
//! a post into the view.

use vstd::prelude::*;

use crate::error::ArchiveError;
use crate::event::Event;
use crate::plan::{names_upto, PostPlan, PostPlanView, Target, TargetView};
use crate::utils::{metadata_filename, metadata_filename_of};

verus! {

/// What the caller of a view run is asked to do next.
#[derive(Clone, Debug, PartialEq, Eq)]
pub enum ViewAction {
    /// Create the folder `folder` below the root of the view, with what
    /// leads to it, unless it is there.
    EnsureDir { folder: String },
    /// Link `filename` of canonical storage under the same name into the
    /// folder `into` below the root of the view, or into the root itself.
    Link { into: Option<String>, filename: String },
    /// Note that the post has no media and is passed over.
    Skip { post_id: String },
    /// Log that `subject` was given up.
    Report { post_id: String, subject: String, error: ArchiveError },
}

/// An action of a view run, with its texts as sequences of characters.
pub enum ViewActionView {
    EnsureDir { folder: Seq<char> },
    Link { into: Option<Seq<char>>, filename: Seq<char> },
    Skip { post_id: Seq<char> },
    Report { post_id: Seq<char>, subject: Seq<char>, error: ArchiveError },
}

impl View for ViewAction {
    type V = ViewActionView;

    open spec fn view(&self) -> ViewActionView {
        match self {
            ViewAction::EnsureDir { folder } => ViewActionView::EnsureDir { folder: folder@ },
            ViewAction::Link { into, filename } => ViewActionView::Link {
                into: into.deep_view(),
                filename: filename@,
            },
            ViewAction::Skip { post_id } => ViewActionView::Skip { post_id: post_id@ },
            ViewAction::Report { post_id, subject, error } => ViewActionView::Report {
                post_id: post_id@,
                subject: subject@,
                error: *error,
            },
        }
    }
}

impl DeepView for ViewAction {
    type V = ViewActionView;

    open spec fn deep_view(&self) -> ViewActionView {
        self@
    }
}

impl ViewActionView {
    /// Whether `event` is an answer to this action.
    pub open spec fn answered_by(self, event: Event) -> bool {
        match self {
            ViewActionView::EnsureDir { .. } | ViewActionView::Link { .. } => event == Event::Done
                || event is Failed,
            ViewActionView::Skip { .. } | ViewActionView::Report { .. } => event == Event::Done,
        }
    }

    /// What a report about the failure of this action names: the folder or
    /// the file that was to be made.
    pub open spec fn subject(self) -> Seq<char> {
        match self {
            ViewActionView::EnsureDir { folder } => folder,
            ViewActionView::Link { filename, .. } => filename,
            ViewActionView::Skip { post_id } => post_id,
            ViewActionView::Report { subject, .. } => subject,
        }
    }
}

impl ViewAction {
    /// What a report about the failure of this action names: the folder or
    /// the file that was to be made.
    pub fn subject(&self) -> (subject: &String)
        ensures
            subject@ == self@.subject(),
    {
        match self {
            ViewAction::EnsureDir { folder } => folder,
            ViewAction::Link { filename, .. } => filename,
            ViewAction::Skip { post_id } => post_id,
            ViewAction::Report { subject, .. } => subject,
        }
    }

    /// A copy of the action.
    pub fn duplicate(&self) -> (copy: ViewAction)
        ensures
            copy@ == self@,
    {
        match self {
            ViewAction::EnsureDir { folder } => ViewAction::EnsureDir { folder: folder.clone() },
            ViewAction::Link { into, filename } => ViewAction::Link {
                into: copy_folder(into),
                filename: filename.clone(),
            },
            ViewAction::Skip { post_id } => ViewAction::Skip { post_id: post_id.clone() },
            ViewAction::Report { post_id, subject, error } => ViewAction::Report {
                post_id: post_id.clone(),
                subject: subject.clone(),
                error: *error,
            },
        }
    }
}

/// What a view does for one row: the actions that bring the files of the
/// post `post_id` into the view, in order.
#[derive(Clone, Debug, PartialEq, Eq)]
pub struct ViewEntry {
    pub post_id: String,
    pub actions: Vec<ViewAction>,
}

/// An entry of a view, with its actions as a sequence.
pub struct ViewEntryView {
    pub post_id: Seq<char>,
    pub actions: Seq<ViewActionView>,
}

impl View for ViewEntry {
    type V = ViewEntryView;

    open spec fn view(&self) -> ViewEntryView {
        ViewEntryView { post_id: self.post_id@, actions: self.actions.deep_view() }
    }
}

impl DeepView for ViewEntry {
    type V = ViewEntryView;

    open spec fn deep_view(&self) -> ViewEntryView {
        self@
    }
}

/// What is done about one target of a post: a usable one is linked, an
/// unusable one reported.
pub open spec fn link_of(
    folder: Option<Seq<char>>,
    post_id: Seq<char>,
    target: TargetView,
) -> ViewActionView {
    match target {
        TargetView::File { filename, .. } => ViewActionView::Link { into: folder, filename },
        TargetView::Unusable { url, error } => ViewActionView::Report {
            post_id,
            subject: url,
            error,
        },
    }
}

/// The links of a post with media: one for each file under which its media
/// are stored, in selector order, then one for its metadata file.
pub open spec fn links_of(
    folder: Option<Seq<char>>,
    post_id: Seq<char>,
    plan: PostPlanView,
) -> Seq<ViewActionView> {
    Seq::new(plan.targets.len(), |i: int| link_of(folder, post_id, plan.targets[i])).push(
        ViewActionView::Link { into: folder, filename: metadata_filename_of(plan.names()) },
    )
}

/// What a view does about the post `post_id`, whose plan is `plan` where
/// the catalog holds the post.
pub open spec fn body_of(
    folder: Option<Seq<char>>,
    post_id: Seq<char>,
    plan: Option<PostPlanView>,
) -> Seq<ViewActionView> {
    match plan {
        None => seq![
            ViewActionView::Report {
                post_id,
                subject: post_id,
                error: ArchiveError::DanglingReference,
            },
        ],
        Some(plan) => if plan.targets.len() == 0 {
            seq![ViewActionView::Skip { post_id }]
        } else {
            links_of(folder, post_id, plan)
        },
    }
}

/// The entry of a row that names the post `post_id` and puts its files into
/// `folder`, or into the root of the view.
pub open spec fn entry_of(
    folder: Option<Seq<char>>,
    post_id: Seq<char>,
    plan: Option<PostPlanView>,
) -> ViewEntryView {
    ViewEntryView {
        post_id,
        actions: match folder {
            Some(name) => seq![ViewActionView::EnsureDir { folder: name }] + body_of(
                folder,
                post_id,
                plan,
            ),
            None => body_of(folder, post_id, plan),
        },
    }
}

fn copy_folder(folder: &Option<String>) -> (copy: Option<String>)
    ensures
        copy.deep_view() == folder.deep_view(),
{
    match folder {
        Some(name) => Some(name.clone()),
        None => None,
    }
}

/// Works out the entry of one row.
///
/// `plan` is the plan of the post that the row names, or `None` where the
/// catalog holds no such post. A missing post is reported as a dangling
/// reference, a post without media is passed over, and of any other post
/// every stored file and the metadata file are linked.
pub fn make_entry(folder: Option<String>, post_id: &str, plan: Option<&PostPlan>) -> (entry:
    ViewEntry)
    ensures
        entry@ == entry_of(folder.deep_view(), post_id@, plan.deep_view()),
{
    let ghost expected = entry_of(folder.deep_view(), post_id@, plan.deep_view());
    let mut actions: Vec<ViewAction> = Vec::new();
    if let Some(name) = &folder {
        actions.push(ViewAction::EnsureDir { folder: name.clone() });
    }
    let ghost head = actions.deep_view();
    assert(head =~= match folder.deep_view() {
        Some(name) => seq![ViewActionView::EnsureDir { folder: name }],
        None => Seq::empty(),
    });
    match plan {
        None => {
            actions.push(
                ViewAction::Report {
                    post_id: String::from_str(post_id),
                    subject: String::from_str(post_id),
                    error: ArchiveError::DanglingReference,
                },
            );
            assert(actions.deep_view() =~= expected.actions);
        },
        Some(plan) => {
            if plan.targets.len() == 0 {
                actions.push(ViewAction::Skip { post_id: String::from_str(post_id) });
                assert(actions.deep_view() =~= expected.actions);
            } else {
                let ghost targets = plan@.targets;
                for i in 0..plan.targets.len()
                    invariant
                        targets == plan.targets.deep_view(),
                        actions.deep_view() == head + Seq::new(
                            i as nat,
                            |k: int| link_of(folder.deep_view(), post_id@, targets[k]),
                        ),
                {
                    let ghost before = actions.deep_view();
                    let action = match &plan.targets[i] {
                        Target::File { filename, .. } => ViewAction::Link {
                            into: copy_folder(&folder),
                            filename: filename.clone(),
                        },
                        Target::Unusable { url, error } => ViewAction::Report {
                            post_id: String::from_str(post_id),
                            subject: url.clone(),
                            error: *error,
                        },
                    };
                    actions.push(action);
                    assert(actions.deep_view() =~= before.push(action@));
                }
                let ghost before = actions.deep_view();
                let names = plan.names();
                let last = ViewAction::Link {
                    into: copy_folder(&folder),
                    filename: metadata_filename(&names),
                };
                actions.push(last);
                assert(actions.deep_view() =~= before.push(last@));
            }
        },
    }
    ViewEntry { post_id: String::from_str(post_id), actions }
}

/// The names of the files that `actions` link, in order.
pub open spec fn linked_names(actions: Seq<ViewActionView>) -> Seq<Seq<char>>
    decreases actions.len(),
{
    if actions.len() == 0 {
        Seq::empty()
    } else {
        match actions.last() {
            ViewActionView::Link { filename, .. } => linked_names(actions.drop_last()).push(
                filename,
            ),
            _ => linked_names(actions.drop_last()),
        }
    }
}

/// Where no action is a link, no file is linked.
pub proof fn lemma_no_link_no_name(actions: Seq<ViewActionView>)
    requires
        forall|k: int| 0 <= k < actions.len() ==> !(#[trigger] actions[k] is Link),
    ensures
        linked_names(actions).len() == 0,
    decreases actions.len(),
{
    if actions.len() > 0 {
        lemma_no_link_no_name(actions.drop_last());
    }
}

proof fn lemma_linked_names_of_targets(
    folder: Option<Seq<char>>,
    post_id: Seq<char>,
    targets: Seq<TargetView>,
    upto: int,
)
    requires
        0 <= upto <= targets.len(),
    ensures
        linked_names(Seq::new(upto as nat, |i: int| link_of(folder, post_id, targets[i])))
            == names_upto(targets, upto),
    decreases upto,
{
    let links = Seq::new(upto as nat, |i: int| link_of(folder, post_id, targets[i]));
    if upto > 0 {
        lemma_linked_names_of_targets(folder, post_id, targets, upto - 1);
        assert(links.drop_last() =~= Seq::new(
            (upto - 1) as nat,
            |i: int| link_of(folder, post_id, targets[i]),
        ));
    }
}

/// A view links what the archive stores: for a post with media, the files
/// under which its media are stored, in selector order, and then the
/// metadata file named after them. Every link of the entry goes into the
/// folder of the entry.
pub proof fn lemma_links_follow_the_plan(
    folder: Option<Seq<char>>,
    post_id: Seq<char>,
    plan: PostPlanView,
)
    requires
        plan.targets.len() > 0,
    ensures
        linked_names(entry_of(folder, post_id, Some(plan)).actions) == plan.names().push(
            metadata_filename_of(plan.names()),
        ),
        forall|i: int|
            0 <= i < entry_of(folder, post_id, Some(plan)).actions.len() ==> (#[trigger] entry_of(
                folder,
                post_id,
                Some(plan),
            ).actions[i] matches ViewActionView::Link { into, .. } ==> into == folder),
{
    let body = links_of(folder, post_id, plan);
    let links = Seq::new(plan.targets.len(), |i: int| link_of(folder, post_id, plan.targets[i]));
    lemma_linked_names_of_targets(folder, post_id, plan.targets, plan.targets.len() as int);
    assert(body.drop_last() =~= links);
    if let Some(name) = folder {
        lemma_linked_names_skip_dir(name, body, body.len() as int);
        assert(body.take(body.len() as int) =~= body);
    }
}

proof fn lemma_linked_names_skip_dir(name: Seq<char>, body: Seq<ViewActionView>, upto: int)
    requires
        0 <= upto <= body.len(),
    ensures
        linked_names(seq![ViewActionView::EnsureDir { folder: name }] + body.take(upto))
            == linked_names(body.take(upto)),
    decreases upto,
{
    let head = seq![ViewActionView::EnsureDir { folder: name }];
    if upto == 0 {
        assert(head.drop_last() =~= Seq::empty());
        assert(body.take(0) =~= Seq::empty());
    } else {
        lemma_linked_names_skip_dir(name, body, upto - 1);
        assert((head + body.take(upto)).drop_last() =~= head + body.take(upto - 1));
        assert(body.take(upto).drop_last() =~= body.take(upto - 1));
    }
}

/// A post without media gets no link in any view: its entry notes that the
/// post is passed over and, where the view has folders, makes the folder.
pub proof fn lemma_post_without_media_has_no_link(
    folder: Option<Seq<char>>,
    post_id: Seq<char>,
    plan: PostPlanView,
)
    requires
        plan.targets.len() == 0,
    ensures
        body_of(folder, post_id, Some(plan)) == seq![ViewActionView::Skip { post_id }],
        linked_names(entry_of(folder, post_id, Some(plan)).actions).len() == 0,
        forall|k: int|
            0 <= k < entry_of(folder, post_id, Some(plan)).actions.len() ==> !(
            #[trigger] entry_of(folder, post_id, Some(plan)).actions[k] is Link),
{
    lemma_no_link_no_name(entry_of(folder, post_id, Some(plan)).actions);
}

/// A row that names a post which the catalog lacks is answered with one
/// report of a dangling reference, after the folder of the row where the
/// view has folders, and with no link.
pub proof fn lemma_missing_post_has_no_link(folder: Option<Seq<char>>, post_id: Seq<char>)
    ensures
        body_of(folder, post_id, None) == seq![
            ViewActionView::Report {
                post_id,
                subject: post_id,
                error: ArchiveError::DanglingReference,
            },
        ],
        linked_names(entry_of(folder, post_id, None).actions).len() == 0,
        forall|k: int|
            0 <= k < entry_of(folder, post_id, None).actions.len() ==> !(#[trigger] entry_of(
                folder,
                post_id,
                None,
            ).actions[k] is Link),
{
    lemma_no_link_no_name(entry_of(folder, post_id, None).actions);
}

} // verus!
