//! Which variants of a post are fetched.

use vstd::prelude::*;

use crate::catalog::{MediaVariant, MediaVariantView};

verus! {

/// Whether a variant is a photo. A variant without a kind counts as one.
pub open spec fn is_photo(m: MediaVariantView) -> bool {
    match m.media_type {
        None => true,
        Some(kind) => kind == "photo"@,
    }
}

/// Whether any variant of the group is a photo.
pub open spec fn has_photo(group: Seq<MediaVariantView>) -> bool {
    exists|i: int| 0 <= i < group.len() && is_photo(#[trigger] group[i])
}

/// The rank by which renditions of one asset are ordered: the bitrate, with
/// every variant that states none below all that state one.
pub open spec fn rank(m: MediaVariantView) -> int {
    match m.bitrate {
        None => i32::MIN - 1,
        Some(bitrate) => bitrate as int,
    }
}

/// Whether position `k` holds the rendition to fetch: none ranks above it,
/// and all before it rank strictly below.
pub open spec fn is_best(group: Seq<MediaVariantView>, k: int) -> bool {
    &&& 0 <= k < group.len()
    &&& forall|i: int| 0 <= i < group.len() ==> rank(#[trigger] group[i]) <= rank(group[k])
    &&& forall|i: int| 0 <= i < k ==> rank(#[trigger] group[i]) < rank(group[k])
}

/// The position of the rendition to fetch in a group without photos.
pub open spec fn best_index(group: Seq<MediaVariantView>) -> int
    decreases group.len(),
{
    if group.len() <= 1 {
        0
    } else {
        let before = best_index(group.drop_last());
        if rank(group.last()) > rank(group[before]) {
            group.len() - 1
        } else {
            before
        }
    }
}

/// The positions of the variants of `group` that are fetched, ascending.
///
/// A group with a photo is fetched whole. Of any other group only the best
/// rendition is fetched. The empty group selects nothing.
pub open spec fn selected_indices(group: Seq<MediaVariantView>) -> Seq<int> {
    if group.len() == 0 {
        Seq::empty()
    } else if has_photo(group) {
        Seq::new(group.len(), |i: int| i)
    } else {
        seq![best_index(group)]
    }
}

/// The variants of `group` that are fetched, in the order of `group`.
pub open spec fn selected(group: Seq<MediaVariantView>) -> Seq<MediaVariantView> {
    selected_indices(group).map_values(|i: int| group[i])
}

/// `best_index` is the one position that `is_best` describes.
pub proof fn lemma_best_index(group: Seq<MediaVariantView>)
    requires
        group.len() > 0,
    ensures
        is_best(group, best_index(group)),
        forall|k: int| is_best(group, k) ==> k == best_index(group),
    decreases group.len(),
{
    let best = best_index(group);
    if group.len() > 1 {
        let front = group.drop_last();
        lemma_best_index(front);
        let before = best_index(front);
        assert forall|i: int| 0 <= i < group.len() implies rank(#[trigger] group[i]) <= rank(
            group[best],
        ) by {
            if i < front.len() {
                assert(rank(front[i]) <= rank(front[before]));
            }
        }
        assert forall|i: int| 0 <= i < best implies rank(#[trigger] group[i]) < rank(
            group[best],
        ) by {
            assert(rank(front[i]) <= rank(front[before]));
        }
    }
}

/// In a group without photos the rendition to fetch is the first of those
/// with the greatest bitrate. A row that states no bitrate is fetched only
/// where no row states one, and then it is the first row.
pub proof fn lemma_best_rendition(group: Seq<MediaVariantView>)
    requires
        group.len() > 0,
    ensures
        0 <= best_index(group) < group.len(),
        forall|i: int|
            0 <= i < group.len() && (#[trigger] group[i]).bitrate is Some ==> {
                &&& group[best_index(group)].bitrate is Some
                &&& group[i].bitrate->0 <= group[best_index(group)].bitrate->0
                &&& i < best_index(group) ==> group[i].bitrate->0 < group[best_index(
                    group,
                )].bitrate->0
            },
        (forall|i: int| 0 <= i < group.len() ==> (#[trigger] group[i]).bitrate is None)
            ==> best_index(group) == 0,
{
    lemma_best_index(group);
    let best = best_index(group);
    assert forall|i: int| 0 <= i < group.len() && (#[trigger] group[i]).bitrate is Some implies {
        &&& group[best].bitrate is Some
        &&& group[i].bitrate->0 <= group[best].bitrate->0
        &&& i < best ==> group[i].bitrate->0 < group[best].bitrate->0
    } by {}
    if best > 0 {
        assert(rank(group[0]) < rank(group[best]));
    }
}

/// A group that is not empty always has something selected, and what is
/// selected comes from the group.
pub proof fn lemma_selected_indices(group: Seq<MediaVariantView>)
    requires
        group.len() > 0,
    ensures
        selected_indices(group).len() > 0,
        selected(group).len() == selected_indices(group).len(),
        forall|j: int|
            0 <= j < selected_indices(group).len() ==> 0 <= #[trigger] selected_indices(group)[j]
                < group.len(),
        forall|j: int, k: int|
            0 <= j < k < selected_indices(group).len() ==> selected_indices(group)[j]
                < selected_indices(group)[k],
{
    lemma_best_index(group);
}

fn is_photo_variant(m: &MediaVariant, photo: &String) -> (r: bool)
    requires
        photo@ == "photo"@,
    ensures
        r == is_photo(m@),
{
    match &m.media_type {
        None => true,
        Some(kind) => *kind == *photo,
    }
}

fn outranks(a: &MediaVariant, b: &MediaVariant) -> (r: bool)
    ensures
        r == (rank(a@) > rank(b@)),
{
    match a.bitrate {
        None => false,
        Some(x) => match b.bitrate {
            None => true,
            Some(y) => x > y,
        },
    }
}

/// Decides which variants of one post are fetched.
///
/// `group` holds all media rows of the post. Where any of them is a photo,
/// every row is selected, in order. Otherwise the rows are renditions of one
/// asset and the one with the greatest bitrate is selected, the first of them
/// where several share it; a row without a bitrate is selected only where no
/// row states one, and then it is the first row.
pub fn select_variants<'a>(group: &Vec<&'a MediaVariant>) -> (chosen: Vec<&'a MediaVariant>)
    ensures
        chosen.deep_view() == selected(group.deep_view()),
{
    let ghost views = group.deep_view();
    let mut chosen: Vec<&MediaVariant> = Vec::new();
    if group.len() == 0 {
        return chosen;
    }
    let photo = String::from_str("photo");
    let mut any_photo = false;
    let mut best: usize = 0;
    for i in 0..group.len()
        invariant
            photo@ == "photo"@,
            views == group.deep_view(),
            any_photo == has_photo(views.take(i as int)),
            best as int == best_index(views.take(i as int)),
            i > 0 ==> best < i,
            best < group.len(),
    {
        proof {
            let after = views.take(i + 1);
            assert(after.drop_last() =~= views.take(i as int));
            assert(after.last() == views[i as int]);
        }
        if is_photo_variant(group[i], &photo) {
            any_photo = true;
        }
        if i > 0 && outranks(group[i], group[best]) {
            best = i;
        }
    }
    assert(views.take(group.len() as int) =~= views);
    if any_photo {
        for i in 0..group.len()
            invariant
                views == group.deep_view(),
                chosen.deep_view() == views.take(i as int),
        {
            assert(chosen.deep_view().len() == i);
            chosen.push(group[i]);
        }
    } else {
        chosen.push(group[best]);
    }
    chosen
}

} // verus!
