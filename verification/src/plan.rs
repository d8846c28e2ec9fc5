//! What is to be stored for each post, worked out from the catalog alone.

use vstd::prelude::*;

use crate::catalog::{Catalog, CatalogView, MediaVariant, MediaVariantView, Post, PostView};
use crate::error::ArchiveError;
use crate::selector::{lemma_selected_indices, select_variants, selected};
use crate::utils::{filename_from_url, filename_of_url};

verus! {

/// Where a selected variant is stored, or why it cannot be.
#[derive(Clone, Debug, PartialEq, Eq)]
pub enum Target {
    /// The media at `url` is stored as `filename`.
    File { url: String, filename: String },
    /// No file name can be derived from `url`.
    Unusable { url: String, error: ArchiveError },
}

/// A target, with its texts as sequences of characters.
pub enum TargetView {
    File { url: Seq<char>, filename: Seq<char> },
    Unusable { url: Seq<char>, error: ArchiveError },
}

impl View for Target {
    type V = TargetView;

    open spec fn view(&self) -> TargetView {
        match self {
            Target::File { url, filename } => TargetView::File { url: url@, filename: filename@ },
            Target::Unusable { url, error } => TargetView::Unusable { url: url@, error: *error },
        }
    }
}

impl DeepView for Target {
    type V = TargetView;

    open spec fn deep_view(&self) -> TargetView {
        self@
    }
}

impl TargetView {
    /// The source URL of the variant.
    pub open spec fn url(self) -> Seq<char> {
        match self {
            TargetView::File { url, .. } => url,
            TargetView::Unusable { url, .. } => url,
        }
    }

    /// What a report about the target names: the file of a usable target,
    /// the URL of an unusable one.
    pub open spec fn subject(self) -> Seq<char> {
        match self {
            TargetView::File { filename, .. } => filename,
            TargetView::Unusable { url, .. } => url,
        }
    }
}

impl Target {
    /// The source URL of the variant.
    pub fn url(&self) -> (url: &String)
        ensures
            url@ == self@.url(),
    {
        match self {
            Target::File { url, .. } => url,
            Target::Unusable { url, .. } => url,
        }
    }

    /// What a report about the target names: the file of a usable target,
    /// the URL of an unusable one.
    pub fn subject(&self) -> (subject: &String)
        ensures
            subject@ == self@.subject(),
    {
        match self {
            Target::File { filename, .. } => filename,
            Target::Unusable { url, .. } => url,
        }
    }
}

/// A post together with the targets of its selected variants, in selector
/// order. A post without media has no targets.
#[derive(Clone, Debug, PartialEq, Eq)]
pub struct PostPlan {
    pub post: Post,
    pub targets: Vec<Target>,
}

/// The plan of a post, with its targets as a sequence.
pub struct PostPlanView {
    pub post: PostView,
    pub targets: Seq<TargetView>,
}

impl View for PostPlan {
    type V = PostPlanView;

    open spec fn view(&self) -> PostPlanView {
        PostPlanView { post: self.post@, targets: self.targets.deep_view() }
    }
}

impl DeepView for PostPlan {
    type V = PostPlanView;

    open spec fn deep_view(&self) -> PostPlanView {
        self@
    }
}

/// The target of the variant at `url`.
pub open spec fn target_of(url: Seq<char>) -> TargetView {
    match filename_of_url(url) {
        Ok(filename) => TargetView::File { url, filename },
        Err(error) => TargetView::Unusable { url, error },
    }
}

/// The targets of the variants `chosen`, one for one.
pub open spec fn targets_of(chosen: Seq<MediaVariantView>) -> Seq<TargetView> {
    chosen.map_values(|m: MediaVariantView| target_of(m.url))
}

/// The plan for `post`, whose media rows are `group`.
pub open spec fn plan_of(post: PostView, group: Seq<MediaVariantView>) -> PostPlanView {
    PostPlanView { post, targets: targets_of(selected(group)) }
}

/// The plans for all posts of the catalog, in table order.
pub open spec fn archive_plan(catalog: CatalogView) -> Seq<PostPlanView> {
    catalog.posts.map_values(|p: PostView| plan_of(p, catalog.media_for_post(p.id)))
}

/// The file names of the usable targets among the first `upto`, in order.
pub open spec fn names_upto(targets: Seq<TargetView>, upto: int) -> Seq<Seq<char>>
    decreases upto,
{
    if upto <= 0 {
        Seq::empty()
    } else {
        match targets[upto - 1] {
            TargetView::File { filename, .. } => names_upto(targets, upto - 1).push(filename),
            TargetView::Unusable { .. } => names_upto(targets, upto - 1),
        }
    }
}

impl PostPlanView {
    /// The file names under which the media of the post are stored, in
    /// selector order.
    pub open spec fn names(self) -> Seq<Seq<char>> {
        names_upto(self.targets, self.targets.len() as int)
    }
}

impl PostPlan {
    /// The file names under which the media of the post are stored, in
    /// selector order.
    pub fn names(&self) -> (names: Vec<String>)
        ensures
            names.deep_view() == self@.names(),
    {
        let ghost targets = self.targets.deep_view();
        let mut names: Vec<String> = Vec::new();
        for i in 0..self.targets.len()
            invariant
                targets == self.targets.deep_view(),
                names.deep_view() == names_upto(targets, i as int),
        {
            if let Target::File { filename, .. } = &self.targets[i] {
                names.push(filename.clone());
            }
        }
        names
    }
}

/// Works out what is to be stored for one post.
///
/// `group` holds all media rows of the post. The variants to fetch are
/// selected from it, and each is given the file name that its URL yields. A
/// variant whose URL yields none stays in the plan as unusable, so that it
/// can be reported.
pub fn plan_post(post: &Post, group: &Vec<&MediaVariant>) -> (plan: PostPlan)
    ensures
        plan@ == plan_of(post@, group.deep_view()),
{
    let chosen = select_variants(group);
    let ghost views = chosen.deep_view();
    let mut targets: Vec<Target> = Vec::new();
    for i in 0..chosen.len()
        invariant
            views == chosen.deep_view(),
            targets.deep_view() == targets_of(views.take(i as int)),
    {
        assert(targets.deep_view().len() == targets@.len());
        let url = chosen[i].url.clone();
        let target = match filename_from_url(url.as_str()) {
            Ok(filename) => Target::File { url, filename },
            Err(error) => Target::Unusable { url, error },
        };
        let ghost before = targets.deep_view();
        targets.push(target);
        assert forall|j: int| 0 <= j <= i implies targets.deep_view()[j] == targets_of(
            views.take(i + 1),
        )[j] by {
            if j < i {
                assert(targets.deep_view()[j] == before[j]);
            }
        }
    }
    assert(views.take(chosen.len() as int) =~= views);
    PostPlan { post: post.duplicate(), targets }
}

/// Works out what is to be stored for every post of the catalog.
pub fn plan_archive(catalog: &Catalog) -> (plans: Vec<PostPlan>)
    ensures
        plans.deep_view() == archive_plan(catalog@),
{
    let mut plans: Vec<PostPlan> = Vec::new();
    for i in 0..catalog.posts.len()
        invariant
            plans.deep_view() == archive_plan(catalog@).take(i as int),
    {
        assert(plans.deep_view().len() == plans@.len());
        let post = &catalog.posts[i];
        let group = catalog.media_for_post(post.id.as_str());
        let plan = plan_post(post, &group);
        plans.push(plan);
    }
    plans
}

/// A post has targets exactly where it has media: the plan of a post
/// without media rows is empty, and that of any other post is not.
pub proof fn lemma_targets_follow_media(post: PostView, group: Seq<MediaVariantView>)
    ensures
        plan_of(post, group).targets.len() == selected(group).len(),
        group.len() == 0 <==> plan_of(post, group).targets.len() == 0,
        plan_of(post, group).post == post,
        forall|i: int|
            0 <= i < selected(group).len() ==> #[trigger] plan_of(post, group).targets[i]
                == target_of(selected(group)[i].url),
{
    if group.len() > 0 {
        lemma_selected_indices(group);
    }
}

/// The plans of the archive follow the posts of the catalog one for one,
/// and the plan of a post is empty exactly where the catalog holds no media
/// row of the post.
pub proof fn lemma_archive_plan(catalog: CatalogView, i: int)
    requires
        0 <= i < catalog.posts.len(),
    ensures
        archive_plan(catalog).len() == catalog.posts.len(),
        archive_plan(catalog)[i].post == catalog.posts[i],
        archive_plan(catalog)[i].targets.len() == 0 <==> catalog.media_for_post(
            catalog.posts[i].id,
        ).len() == 0,
{
    lemma_targets_follow_media(catalog.posts[i], catalog.media_for_post(catalog.posts[i].id));
}

} // verus!
