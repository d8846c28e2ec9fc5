//! What the companion metadata file of a post says.

use vstd::prelude::*;

use crate::catalog::{Post, PostView};
use crate::utils::{join, join_names};

verus! {

/// The text of the metadata file for `post` and the files `names`: the post
/// id, the account, the text of the post (nothing where it has none), and the
/// names separated by a comma and a space.
pub open spec fn metadata_content_of(post: PostView, names: Seq<Seq<char>>) -> Seq<char> {
    let text = match post.text {
        Some(text) => text,
        None => Seq::empty(),
    };
    "post id: "@ + post.id + "\nartist: "@ + post.account_username + "\ntext:\n"@ + text
        + "\n\n\nfiles: "@ + join(names, ", "@)
}

/// Composes the metadata file of a post.
///
/// `names` are the media files that the metadata speaks of, in the order in
/// which they were selected.
pub fn metadata_content(post: &Post, names: &Vec<String>) -> (content: String)
    ensures
        content@ == metadata_content_of(post@, names.deep_view()),
{
    let mut content = String::from_str("post id: ");
    content.append(post.id.as_str());
    content.append("\nartist: ");
    content.append(post.account_username.as_str());
    content.append("\ntext:\n");
    if let Some(text) = &post.text {
        content.append(text.as_str());
    }
    content.append("\n\n\nfiles: ");
    let files = join_names(names, ", ");
    content.append(files.as_str());
    content
}

} // verus!
