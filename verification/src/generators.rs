//! The views over the archive: for each kind of view, the entries it is
//! made of.
//!
//! A view is a tree of symbolic links into canonical storage. A generator
//! works out, from the catalog alone, one entry for each row that the view is
//! built from. Carrying the entries out is left to a `ViewRun` and its
//! caller.

use vstd::prelude::*;

use crate::catalog::{lemma_find_post, Catalog, CatalogView};
use crate::entry::{
    entry_of, lemma_missing_post_has_no_link, lemma_post_without_media_has_no_link, linked_names,
    make_entry, ViewActionView, ViewEntry, ViewEntryView,
};
use crate::error::ArchiveError;
use crate::plan::{lemma_targets_follow_media, plan_of, plan_post, PostPlan, PostPlanView};

verus! {

/// The plan of the post that a row names by `post_id`, where the catalog
/// holds such a post.
pub open spec fn plan_for(catalog: CatalogView, post_id: Seq<char>) -> Option<PostPlanView> {
    match catalog.find_post(post_id) {
        Some(post) => Some(plan_of(post, catalog.media_for_post(post_id))),
        None => None,
    }
}

/// The entries of the view by account: one for each post, in table order,
/// in the folder named after the account of the post.
pub open spec fn artists_entries(catalog: CatalogView) -> Seq<ViewEntryView> {
    Seq::new(
        catalog.posts.len(),
        |i: int|
            entry_of(
                Some(catalog.posts[i].account_username),
                catalog.posts[i].id,
                Some(plan_of(catalog.posts[i], catalog.media_for_post(catalog.posts[i].id))),
            ),
    )
}

/// The entries of the view of liked posts: one for each like, in table
/// order, in the root of the view.
pub open spec fn likes_entries(catalog: CatalogView) -> Seq<ViewEntryView> {
    Seq::new(
        catalog.likes.len(),
        |i: int|
            entry_of(None, catalog.likes[i].post_id, plan_for(catalog, catalog.likes[i].post_id)),
    )
}

/// The entries of the view of bookmarked posts: one for each bookmark, in
/// table order, in the root of the view.
pub open spec fn bookmarks_entries(catalog: CatalogView) -> Seq<ViewEntryView> {
    Seq::new(
        catalog.bookmarks.len(),
        |i: int|
            entry_of(
                None,
                catalog.bookmarks[i].post_id,
                plan_for(catalog, catalog.bookmarks[i].post_id),
            ),
    )
}

/// The entries of the view by list: one for each membership, in table
/// order, in the folder named after the list.
pub open spec fn lists_entries(catalog: CatalogView) -> Seq<ViewEntryView> {
    Seq::new(
        catalog.lists.len(),
        |i: int|
            entry_of(
                Some(catalog.lists[i].list_name),
                catalog.lists[i].post_id,
                plan_for(catalog, catalog.lists[i].post_id),
            ),
    )
}

/// Looks up the post that a row names and works out its plan.
pub fn find_plan(catalog: &Catalog, post_id: &str) -> (plan: Option<PostPlan>)
    ensures
        plan.deep_view() == plan_for(catalog@, post_id@),
{
    match catalog.find_post(post_id) {
        Some(post) => {
            let group = catalog.media_for_post(post_id);
            Some(plan_post(post, &group))
        },
        None => None,
    }
}

/// A kind of view: what it holds, given the catalog.
pub trait Generator {
    /// The entries of this view over `catalog`.
    spec fn entries(&self, catalog: CatalogView) -> Seq<ViewEntryView>;

    /// Works out the entries of this view, one for each row that it is built
    /// from, in table order.
    fn generate_entires(&self, catalog: &Catalog) -> (entries: Vec<ViewEntry>)
        ensures
            entries.deep_view() == self.entries(catalog@),
    ;
}

/// The view by account: below the root one folder for each account, which
/// holds the files of the account's posts.
pub struct ArtistsGenerator;

/// The view of liked posts, flat in the root of the view.
pub struct LikesGenerator;

/// The view of bookmarked posts, flat in the root of the view.
pub struct BookmarksGenerator;

/// The view by list: below the root one folder for each list, which holds
/// the files of the posts on the list.
pub struct ListsGenerator;

impl Generator for ArtistsGenerator {
    open spec fn entries(&self, catalog: CatalogView) -> Seq<ViewEntryView> {
        artists_entries(catalog)
    }

    fn generate_entires(&self, catalog: &Catalog) -> (entries: Vec<ViewEntry>) {
        let mut entries: Vec<ViewEntry> = Vec::new();
        for i in 0..catalog.posts.len()
            invariant
                entries.deep_view() == artists_entries(catalog@).take(i as int),
        {
            let ghost before = entries.deep_view();
            let post = &catalog.posts[i];
            let group = catalog.media_for_post(post.id.as_str());
            let plan = plan_post(post, &group);
            let entry = make_entry(
                Some(post.account_username.clone()),
                post.id.as_str(),
                Some(&plan),
            );
            entries.push(entry);
            assert(entries.deep_view() =~= before.push(entry@));
        }
        entries
    }
}

impl Generator for LikesGenerator {
    open spec fn entries(&self, catalog: CatalogView) -> Seq<ViewEntryView> {
        likes_entries(catalog)
    }

    fn generate_entires(&self, catalog: &Catalog) -> (entries: Vec<ViewEntry>) {
        let mut entries: Vec<ViewEntry> = Vec::new();
        for i in 0..catalog.likes.len()
            invariant
                entries.deep_view() == likes_entries(catalog@).take(i as int),
        {
            let ghost before = entries.deep_view();
            let post_id = catalog.likes[i].post_id.as_str();
            let plan = find_plan(catalog, post_id);
            let entry = make_entry(None, post_id, plan.as_ref());
            entries.push(entry);
            assert(entries.deep_view() =~= before.push(entry@));
        }
        entries
    }
}

impl Generator for BookmarksGenerator {
    open spec fn entries(&self, catalog: CatalogView) -> Seq<ViewEntryView> {
        bookmarks_entries(catalog)
    }

    fn generate_entires(&self, catalog: &Catalog) -> (entries: Vec<ViewEntry>) {
        let mut entries: Vec<ViewEntry> = Vec::new();
        for i in 0..catalog.bookmarks.len()
            invariant
                entries.deep_view() == bookmarks_entries(catalog@).take(i as int),
        {
            let ghost before = entries.deep_view();
            let post_id = catalog.bookmarks[i].post_id.as_str();
            let plan = find_plan(catalog, post_id);
            let entry = make_entry(None, post_id, plan.as_ref());
            entries.push(entry);
            assert(entries.deep_view() =~= before.push(entry@));
        }
        entries
    }
}

impl Generator for ListsGenerator {
    open spec fn entries(&self, catalog: CatalogView) -> Seq<ViewEntryView> {
        lists_entries(catalog)
    }

    fn generate_entires(&self, catalog: &Catalog) -> (entries: Vec<ViewEntry>) {
        let mut entries: Vec<ViewEntry> = Vec::new();
        for i in 0..catalog.lists.len()
            invariant
                entries.deep_view() == lists_entries(catalog@).take(i as int),
        {
            let ghost before = entries.deep_view();
            let post_id = catalog.lists[i].post_id.as_str();
            let plan = find_plan(catalog, post_id);
            let entry = make_entry(
                Some(catalog.lists[i].list_name.clone()),
                post_id,
                plan.as_ref(),
            );
            entries.push(entry);
            assert(entries.deep_view() =~= before.push(entry@));
        }
        entries
    }
}

/// The kinds of view, as a closed set.
#[derive(Clone, Copy, Debug, PartialEq, Eq, Structural)]
pub enum ViewKind {
    Artists,
    Likes,
    Bookmarks,
    Lists,
}

impl ViewKind {
    /// The name of the directory that holds the view, beside canonical
    /// storage.
    pub open spec fn directory_spec(self) -> Seq<char> {
        match self {
            ViewKind::Artists => "Artists"@,
            ViewKind::Likes => "Likes"@,
            ViewKind::Bookmarks => "Bookmarks"@,
            ViewKind::Lists => "Lists"@,
        }
    }

    /// The name of the directory that holds the view, beside canonical
    /// storage.
    pub fn directory(&self) -> (name: String)
        ensures
            name@ == self.directory_spec(),
    {
        match self {
            ViewKind::Artists => String::from_str("Artists"),
            ViewKind::Likes => String::from_str("Likes"),
            ViewKind::Bookmarks => String::from_str("Bookmarks"),
            ViewKind::Lists => String::from_str("Lists"),
        }
    }

    /// The views that are built unless the caller chooses otherwise: by
    /// account, of likes and of bookmarks, in this order.
    pub fn defaults() -> (kinds: Vec<ViewKind>)
        ensures
            kinds@ == seq![ViewKind::Artists, ViewKind::Likes, ViewKind::Bookmarks],
    {
        let mut kinds: Vec<ViewKind> = Vec::new();
        kinds.push(ViewKind::Artists);
        kinds.push(ViewKind::Likes);
        kinds.push(ViewKind::Bookmarks);
        kinds
    }
}

impl Generator for ViewKind {
    open spec fn entries(&self, catalog: CatalogView) -> Seq<ViewEntryView> {
        match self {
            ViewKind::Artists => artists_entries(catalog),
            ViewKind::Likes => likes_entries(catalog),
            ViewKind::Bookmarks => bookmarks_entries(catalog),
            ViewKind::Lists => lists_entries(catalog),
        }
    }

    fn generate_entires(&self, catalog: &Catalog) -> (entries: Vec<ViewEntry>) {
        match self {
            ViewKind::Artists => ArtistsGenerator.generate_entires(catalog),
            ViewKind::Likes => LikesGenerator.generate_entires(catalog),
            ViewKind::Bookmarks => BookmarksGenerator.generate_entires(catalog),
            ViewKind::Lists => ListsGenerator.generate_entires(catalog),
        }
    }
}

/// What a view does for a like depends on the post that the like names and
/// on the posts and media of the catalog, and on nothing else: no other
/// like, dangling or not, changes it.
pub proof fn lemma_likes_are_independent(a: CatalogView, b: CatalogView, i: int, j: int)
    requires
        a.posts == b.posts,
        a.media == b.media,
        0 <= i < a.likes.len(),
        0 <= j < b.likes.len(),
        a.likes[i].post_id == b.likes[j].post_id,
    ensures
        likes_entries(a)[i] == likes_entries(b)[j],
{
    lemma_plan_for_reads_posts_and_media(a, b, a.likes[i].post_id);
}

/// What a view does for a bookmark depends on the post that the bookmark
/// names and on the posts and media of the catalog, and on nothing else.
pub proof fn lemma_bookmarks_are_independent(a: CatalogView, b: CatalogView, i: int, j: int)
    requires
        a.posts == b.posts,
        a.media == b.media,
        0 <= i < a.bookmarks.len(),
        0 <= j < b.bookmarks.len(),
        a.bookmarks[i].post_id == b.bookmarks[j].post_id,
    ensures
        bookmarks_entries(a)[i] == bookmarks_entries(b)[j],
{
    lemma_plan_for_reads_posts_and_media(a, b, a.bookmarks[i].post_id);
}

proof fn lemma_plan_for_reads_posts_and_media(a: CatalogView, b: CatalogView, post_id: Seq<char>)
    requires
        a.posts == b.posts,
        a.media == b.media,
    ensures
        plan_for(a, post_id) == plan_for(b, post_id),
{
    assert forall|i: int| a.is_first_post(post_id, i) == b.is_first_post(post_id, i) by {}
}

/// Every entry of a view carries the id of the post that its row names,
/// and stands where the row stands in its table.
pub proof fn lemma_entries_follow_rows(catalog: CatalogView, kind: ViewKind)
    ensures
        kind.entries(catalog).len() == match kind {
            ViewKind::Artists => catalog.posts.len(),
            ViewKind::Likes => catalog.likes.len(),
            ViewKind::Bookmarks => catalog.bookmarks.len(),
            ViewKind::Lists => catalog.lists.len(),
        },
        forall|i: int|
            0 <= i < kind.entries(catalog).len() ==> (#[trigger] kind.entries(catalog)[i]).post_id
                == match kind {
                ViewKind::Artists => catalog.posts[i].id,
                ViewKind::Likes => catalog.likes[i].post_id,
                ViewKind::Bookmarks => catalog.bookmarks[i].post_id,
                ViewKind::Lists => catalog.lists[i].post_id,
            },
{
}

/// A post without media rows gets no link in any view, whichever row names
/// it.
pub proof fn lemma_post_without_media_is_not_linked(
    catalog: CatalogView,
    kind: ViewKind,
    i: int,
)
    requires
        0 <= i < kind.entries(catalog).len(),
        catalog.media_for_post(kind.entries(catalog)[i].post_id).len() == 0,
    ensures
        linked_names(kind.entries(catalog)[i].actions).len() == 0,
        forall|k: int|
            0 <= k < kind.entries(catalog)[i].actions.len() ==> !(
            #[trigger] kind.entries(catalog)[i].actions[k] is Link),
{
    let post_id = kind.entries(catalog)[i].post_id;
    match kind {
        ViewKind::Artists => {
            let post = catalog.posts[i];
            lemma_targets_follow_media(post, catalog.media_for_post(post_id));
            lemma_post_without_media_has_no_link(
                Some(post.account_username),
                post_id,
                plan_of(post, catalog.media_for_post(post_id)),
            );
        },
        ViewKind::Likes | ViewKind::Bookmarks => {
            lemma_row_without_media(catalog, None, post_id);
        },
        ViewKind::Lists => {
            lemma_row_without_media(catalog, Some(catalog.lists[i].list_name), post_id);
        },
    }
}

proof fn lemma_row_without_media(
    catalog: CatalogView,
    folder: Option<Seq<char>>,
    post_id: Seq<char>,
)
    requires
        catalog.media_for_post(post_id).len() == 0,
    ensures
        linked_names(entry_of(folder, post_id, plan_for(catalog, post_id)).actions).len() == 0,
        forall|k: int|
            0 <= k < entry_of(folder, post_id, plan_for(catalog, post_id)).actions.len() ==> !(
            #[trigger] entry_of(folder, post_id, plan_for(catalog, post_id)).actions[k] is Link),
{
    match catalog.find_post(post_id) {
        Some(post) => {
            lemma_targets_follow_media(post, catalog.media_for_post(post_id));
            lemma_post_without_media_has_no_link(
                folder,
                post_id,
                plan_of(post, catalog.media_for_post(post_id)),
            );
        },
        None => {
            lemma_missing_post_has_no_link(folder, post_id);
        },
    }
}

/// A row that names a post which the catalog lacks is answered with a
/// report of a dangling reference and with no link: a like or a bookmark
/// with that report alone, a list membership with it after the folder of
/// the list.
pub proof fn lemma_dangling_row(catalog: CatalogView, kind: ViewKind, i: int)
    requires
        0 <= i < kind.entries(catalog).len(),
        !catalog.has_post(kind.entries(catalog)[i].post_id),
    ensures
        kind != ViewKind::Artists,
        kind.entries(catalog)[i].actions.last() == (ViewActionView::Report {
            post_id: kind.entries(catalog)[i].post_id,
            subject: kind.entries(catalog)[i].post_id,
            error: ArchiveError::DanglingReference,
        }),
        kind.entries(catalog)[i].actions.len() == if kind == ViewKind::Lists {
            2int
        } else {
            1int
        },
        linked_names(kind.entries(catalog)[i].actions).len() == 0,
{
    let post_id = kind.entries(catalog)[i].post_id;
    lemma_find_post(catalog, post_id);
    match kind {
        ViewKind::Artists => {},
        ViewKind::Likes | ViewKind::Bookmarks => {
            lemma_missing_post_has_no_link(None, post_id);
        },
        ViewKind::Lists => {
            lemma_missing_post_has_no_link(Some(catalog.lists[i].list_name), post_id);
        },
    }
}

} // verus!
