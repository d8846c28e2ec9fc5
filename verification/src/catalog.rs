//! The rows of the catalog that the archiver reads, held in memory.
//!
//! The catalog is filled by whoever ingests the posts; nothing here writes to
//! it. A `Catalog` is a snapshot of its tables, in the order in which they
//! were read.

use vstd::prelude::*;

verus! {

/// One archived post.
#[derive(Clone, Debug, PartialEq, Eq)]
pub struct Post {
    pub id: String,
    pub account_username: String,
    pub text: Option<String>,
}

/// One downloadable rendition of a media item attached to a post.
///
/// Photo variants stand for themselves; the variants of a video or of an
/// audio track are renditions of one asset at different bitrates.
#[derive(Clone, Debug, PartialEq, Eq)]
pub struct MediaVariant {
    pub id: String,
    pub post_id: String,
    pub url: String,
    pub alt_text: Option<String>,
    /// `"photo"` or another kind; a variant without a kind counts as a photo.
    pub media_type: Option<String>,
    pub bitrate: Option<i32>,
}

/// A like, naming the liked post.
#[derive(Clone, Debug, PartialEq, Eq)]
pub struct Like {
    pub id: i32,
    pub post_id: String,
}

/// A bookmark, naming the bookmarked post.
#[derive(Clone, Debug, PartialEq, Eq)]
pub struct Bookmark {
    pub id: i32,
    pub post_id: String,
}

/// The membership of a post in a named list.
#[derive(Clone, Debug, PartialEq, Eq)]
pub struct ListMembership {
    pub list_name: String,
    pub post_id: String,
}

/// A snapshot of the catalog's tables.
#[derive(Clone, Debug, PartialEq, Eq)]
pub struct Catalog {
    pub posts: Vec<Post>,
    pub media: Vec<MediaVariant>,
    pub likes: Vec<Like>,
    pub bookmarks: Vec<Bookmark>,
    pub lists: Vec<ListMembership>,
}

/// A post, with its texts as sequences of characters.
pub struct PostView {
    pub id: Seq<char>,
    pub account_username: Seq<char>,
    pub text: Option<Seq<char>>,
}

/// A media variant, with its texts as sequences of characters.
pub struct MediaVariantView {
    pub id: Seq<char>,
    pub post_id: Seq<char>,
    pub url: Seq<char>,
    pub alt_text: Option<Seq<char>>,
    pub media_type: Option<Seq<char>>,
    pub bitrate: Option<i32>,
}

/// A like, with the id of its post as a sequence of characters.
pub struct LikeView {
    pub id: i32,
    pub post_id: Seq<char>,
}

/// A bookmark, with the id of its post as a sequence of characters.
pub struct BookmarkView {
    pub id: i32,
    pub post_id: Seq<char>,
}

/// A list membership, with its texts as sequences of characters.
pub struct ListMembershipView {
    pub list_name: Seq<char>,
    pub post_id: Seq<char>,
}

/// The tables of a catalog as sequences of rows.
pub struct CatalogView {
    pub posts: Seq<PostView>,
    pub media: Seq<MediaVariantView>,
    pub likes: Seq<LikeView>,
    pub bookmarks: Seq<BookmarkView>,
    pub lists: Seq<ListMembershipView>,
}

impl View for Post {
    type V = PostView;

    open spec fn view(&self) -> PostView {
        PostView {
            id: self.id@,
            account_username: self.account_username@,
            text: self.text.deep_view(),
        }
    }
}

impl DeepView for Post {
    type V = PostView;

    open spec fn deep_view(&self) -> PostView {
        self@
    }
}

impl View for MediaVariant {
    type V = MediaVariantView;

    open spec fn view(&self) -> MediaVariantView {
        MediaVariantView {
            id: self.id@,
            post_id: self.post_id@,
            url: self.url@,
            alt_text: self.alt_text.deep_view(),
            media_type: self.media_type.deep_view(),
            bitrate: self.bitrate,
        }
    }
}

impl DeepView for MediaVariant {
    type V = MediaVariantView;

    open spec fn deep_view(&self) -> MediaVariantView {
        self@
    }
}

impl View for Like {
    type V = LikeView;

    open spec fn view(&self) -> LikeView {
        LikeView { id: self.id, post_id: self.post_id@ }
    }
}

impl DeepView for Like {
    type V = LikeView;

    open spec fn deep_view(&self) -> LikeView {
        self@
    }
}

impl View for Bookmark {
    type V = BookmarkView;

    open spec fn view(&self) -> BookmarkView {
        BookmarkView { id: self.id, post_id: self.post_id@ }
    }
}

impl DeepView for Bookmark {
    type V = BookmarkView;

    open spec fn deep_view(&self) -> BookmarkView {
        self@
    }
}

impl View for ListMembership {
    type V = ListMembershipView;

    open spec fn view(&self) -> ListMembershipView {
        ListMembershipView { list_name: self.list_name@, post_id: self.post_id@ }
    }
}

impl DeepView for ListMembership {
    type V = ListMembershipView;

    open spec fn deep_view(&self) -> ListMembershipView {
        self@
    }
}

impl View for Catalog {
    type V = CatalogView;

    open spec fn view(&self) -> CatalogView {
        CatalogView {
            posts: self.posts.deep_view(),
            media: self.media.deep_view(),
            likes: self.likes.deep_view(),
            bookmarks: self.bookmarks.deep_view(),
            lists: self.lists.deep_view(),
        }
    }
}

impl CatalogView {
    /// The media rows of the post `post_id`, in table order.
    pub open spec fn media_for_post(self, post_id: Seq<char>) -> Seq<MediaVariantView> {
        self.media.filter(|m: MediaVariantView| m.post_id == post_id)
    }

    /// Whether a post row carries the id `post_id`.
    pub open spec fn has_post(self, post_id: Seq<char>) -> bool {
        exists|i: int| 0 <= i < self.posts.len() && #[trigger] self.posts[i].id == post_id
    }

    /// Whether position `i` holds the first post row with the id `post_id`.
    pub open spec fn is_first_post(self, post_id: Seq<char>, i: int) -> bool {
        &&& 0 <= i < self.posts.len()
        &&& self.posts[i].id == post_id
        &&& forall|j: int| 0 <= j < i ==> (#[trigger] self.posts[j]).id != post_id
    }

    /// The post with the id `post_id`: the first such row, should the table
    /// hold more than one.
    pub open spec fn find_post(self, post_id: Seq<char>) -> Option<PostView> {
        if exists|i: int| self.is_first_post(post_id, i) {
            Some(self.posts[choose|i: int| self.is_first_post(post_id, i)])
        } else {
            None
        }
    }
}

/// A post is found exactly where some row carries its id, and the row found
/// is the first that does.
pub proof fn lemma_find_post(catalog: CatalogView, post_id: Seq<char>)
    ensures
        catalog.find_post(post_id) is Some <==> catalog.has_post(post_id),
        forall|i: int|
            catalog.is_first_post(post_id, i) ==> catalog.find_post(post_id) == Some(
                catalog.posts[i],
            ),
        catalog.find_post(post_id) matches Some(post) ==> post.id == post_id,
{
    if catalog.has_post(post_id) {
        lemma_first_post_exists(catalog, post_id, catalog.posts.len() as int);
    }
}

proof fn lemma_first_post_exists(catalog: CatalogView, post_id: Seq<char>, upto: int)
    requires
        0 <= upto <= catalog.posts.len(),
        exists|i: int| 0 <= i < upto && #[trigger] catalog.posts[i].id == post_id,
    ensures
        exists|i: int| catalog.is_first_post(post_id, i),
    decreases upto,
{
    let last = upto - 1;
    if exists|i: int| 0 <= i < last && #[trigger] catalog.posts[i].id == post_id {
        lemma_first_post_exists(catalog, post_id, last);
    } else {
        assert(catalog.is_first_post(post_id, last));
    }
}

impl Post {
    /// A copy of the post.
    pub fn duplicate(&self) -> (copy: Post)
        ensures
            copy@ == self@,
    {
        Post {
            id: self.id.clone(),
            account_username: self.account_username.clone(),
            text: match &self.text {
                Some(text) => Some(text.clone()),
                None => None,
            },
        }
    }
}

impl Catalog {
    /// The media rows that belong to the post `post_id`, in table order.
    ///
    /// A post without media rows gets the empty list.
    pub fn media_for_post(&self, post_id: &str) -> (rows: Vec<&MediaVariant>)
        ensures
            rows.deep_view() == self@.media_for_post(post_id@),
    {
        let wanted = String::from_str(post_id);
        let mut rows: Vec<&MediaVariant> = Vec::new();
        let ghost pred = |m: MediaVariantView| m.post_id == post_id@;
        for i in 0..self.media.len()
            invariant
                wanted@ == post_id@,
                pred == (|m: MediaVariantView| m.post_id == post_id@),
                rows.deep_view() == self.media.deep_view().take(i as int).filter(pred),
        {
            proof {
                reveal(Seq::filter);
                let all = self.media.deep_view();
                assert(all.take(i + 1).drop_last() =~= all.take(i as int));
            }
            if self.media[i].post_id == wanted {
                rows.push(&self.media[i]);
            }
        }
        assert(self.media.deep_view().take(self.media.len() as int) =~= self.media.deep_view());
        rows
    }

    /// The post with the id `post_id`: the first such row, should the table
    /// hold more than one.
    pub fn find_post(&self, post_id: &str) -> (found: Option<&Post>)
        ensures
            found.deep_view() == self@.find_post(post_id@),
    {
        let wanted = String::from_str(post_id);
        for i in 0..self.posts.len()
            invariant
                wanted@ == post_id@,
                forall|j: int| 0 <= j < i ==> (#[trigger] self@.posts[j]).id != post_id@,
        {
            if self.posts[i].id == wanted {
                proof {
                    assert(self@.is_first_post(post_id@, i as int));
                    lemma_find_post(self@, post_id@);
                }
                return Some(&self.posts[i]);
            }
        }
        proof {
            lemma_find_post(self@, post_id@);
        }
        None
    }
}

} // verus!
