//! What an archive run leaves behind in storage.
//!
//! Storage is taken as a map from file names to bytes, and the network as a
//! map from URLs to bodies. Two things are shown of a run whose actions a
//! caller carries out over them. A run that meets no failure leaves in
//! storage every file of its plans. And a run over storage that holds every
//! file of its plans fetches nothing and leaves storage as it was. Over
//! such storage no link of a view dangles.

use vstd::prelude::*;
use vstd::utf8::encode_utf8;

use crate::catalog::{lemma_find_post, CatalogView};
use crate::entry::entry_of;
use crate::error::ArchiveError;
use crate::event::Event;
use crate::generators::{plan_for, Generator, ViewKind};
use crate::metadata::metadata_content_of;
use crate::pipeline::{
    lemma_finished, lemma_step_progress, lemma_step_wf, ArchiveActionView, Phase, RunState,
};
use crate::plan::{archive_plan, lemma_archive_plan, names_upto, PostPlanView, TargetView};
use crate::utils::metadata_filename_of;

verus! {

/// The bytes of the metadata file of a post whose media are all stored.
pub open spec fn metadata_bytes(plan: PostPlanView) -> Seq<u8> {
    encode_utf8(metadata_content_of(plan.post, plan.names()))
}

/// Whether `storage` holds all that archiving the post of `plan` leaves
/// behind: each media file, and the metadata file that lists them all.
pub open spec fn holds_post(plan: PostPlanView, storage: Map<Seq<char>, Seq<u8>>) -> bool {
    &&& forall|t: int|
        0 <= t < plan.targets.len() ==> (
            (#[trigger] plan.targets[t]) matches TargetView::File { filename, .. }
                ==> storage.contains_key(filename))
    &&& plan.targets.len() > 0 ==> {
        &&& storage.contains_key(metadata_filename_of(plan.names()))
        &&& storage[metadata_filename_of(plan.names())] == metadata_bytes(plan)
    }
}

/// Whether `storage` holds all that archiving every post of `plans` leaves
/// behind.
pub open spec fn populated(plans: Seq<PostPlanView>, storage: Map<Seq<char>, Seq<u8>>) -> bool {
    forall|p: int| 0 <= p < plans.len() ==> holds_post(#[trigger] plans[p], storage)
}

/// Whether the network serves the URL of every usable target of `plans`.
pub open spec fn served(plans: Seq<PostPlanView>, network: Map<Seq<char>, Seq<u8>>) -> bool {
    forall|p: int, t: int|
        0 <= p < plans.len() && 0 <= t < plans[p].targets.len()
            && (#[trigger] plans[p].targets[t]) is File ==> network.contains_key(
            plans[p].targets[t].url(),
        )
}

/// Whether no metadata file of `plans` gets in the way of another file: no
/// media file carries the name of a metadata file, and two posts share the
/// name of their metadata file only where they share its bytes too.
pub open spec fn clash_free(plans: Seq<PostPlanView>) -> bool {
    forall|p: int, q: int|
        0 <= p < plans.len() && 0 <= q < plans.len() && plans[p].targets.len() > 0 ==> {
            let name = metadata_filename_of((#[trigger] plans[p]).names());
            &&& forall|t: int|
                0 <= t < plans[q].targets.len() ==> (
                    (#[trigger] plans[q].targets[t]) matches TargetView::File { filename, .. }
                        ==> filename != name)
            &&& (#[trigger] plans[q]).targets.len() > 0 && metadata_filename_of(plans[q].names())
                == name ==> metadata_bytes(plans[q]) == metadata_bytes(plans[p])
        }
}

/// Whether `name` is the name of the metadata file of a post of `plans`.
pub open spec fn is_metadata_name(plans: Seq<PostPlanView>, name: Seq<char>) -> bool {
    exists|p: int|
        0 <= p < plans.len() && (#[trigger] plans[p]).targets.len() > 0 && name
            == metadata_filename_of(plans[p].names())
}

/// Whether `after` holds every file of `before`, each with the bytes it had
/// unless it is a metadata file of `plans`.
pub open spec fn kept(
    plans: Seq<PostPlanView>,
    before: Map<Seq<char>, Seq<u8>>,
    after: Map<Seq<char>, Seq<u8>>,
) -> bool {
    forall|name: Seq<char>| #[trigger]
        before.contains_key(name) ==> after.contains_key(name) && (is_metadata_name(plans, name)
            || after[name] == before[name])
}

/// The answer of a caller that carries out `action` over `storage` and
/// `network`, and storage as the action leaves it. A probe is answered by
/// what storage holds, a download stores what the network serves and fails
/// where the network serves nothing, and a write stores the text as UTF-8.
pub open spec fn carry_out(
    action: ArchiveActionView,
    storage: Map<Seq<char>, Seq<u8>>,
    network: Map<Seq<char>, Seq<u8>>,
) -> (Event, Map<Seq<char>, Seq<u8>>) {
    match action {
        ArchiveActionView::Probe { filename } => (
            if storage.contains_key(filename) {
                Event::Present
            } else {
                Event::Absent
            },
            storage,
        ),
        ArchiveActionView::Download { url, filename } => if network.contains_key(url) {
            (Event::Done, storage.insert(filename, network[url]))
        } else {
            (Event::Failed(ArchiveError::NetworkError), storage)
        },
        ArchiveActionView::WriteMetadata { filename, content } => (
            Event::Done,
            storage.insert(filename, encode_utf8(content)),
        ),
        ArchiveActionView::Skip { .. } | ArchiveActionView::Report { .. } => (Event::Done, storage),
    }
}

/// The state and storage once a caller has carried out the pending actions
/// of the run from `s` on, `steps` of them at most.
pub open spec fn carried_out(
    s: RunState,
    storage: Map<Seq<char>, Seq<u8>>,
    network: Map<Seq<char>, Seq<u8>>,
    steps: nat,
) -> (RunState, Map<Seq<char>, Seq<u8>>)
    decreases steps,
{
    if steps == 0 || s.finished() {
        (s, storage)
    } else {
        let (event, after) = carry_out(s.pending().unwrap(), storage, network);
        carried_out(s.step(event), after, network, (steps - 1) as nat)
    }
}

/// The posts before the current one are stored whole, and of the current
/// one the files of the targets before the current one.
spec fn stored_so_far(s: RunState, storage: Map<Seq<char>, Seq<u8>>) -> bool {
    &&& s.wf()
    &&& forall|q: int| 0 <= q < s.post && q < s.plans.len() ==> holds_post(
        #[trigger] s.plans[q],
        storage,
    )
    &&& !s.finished() ==> {
        &&& s.stored == names_upto(s.plan().targets, s.variant as int)
        &&& forall|t: int|
            0 <= t < s.variant && t < s.plan().targets.len() ==> (
                (#[trigger] s.plan().targets[t]) matches TargetView::File { filename, .. }
                    ==> storage.contains_key(filename))
        &&& !(s.phase is Failed)
        &&& !(s.phase is WriteFailed)
        &&& s.phase == Phase::Fetch ==> !storage.contains_key(s.target().subject())
    }
}

proof fn lemma_stored_so_far_step(
    s: RunState,
    storage: Map<Seq<char>, Seq<u8>>,
    network: Map<Seq<char>, Seq<u8>>,
)
    requires
        stored_so_far(s, storage),
        !s.finished(),
        clash_free(s.plans),
        served(s.plans, network),
    ensures
        ({
            let (event, after) = carry_out(s.pending().unwrap(), storage, network);
            &&& s.takes(event)
            &&& stored_so_far(s.step(event), after)
            &&& kept(s.plans, storage, after)
        }),
{
}

proof fn lemma_carried_out(
    s: RunState,
    storage: Map<Seq<char>, Seq<u8>>,
    network: Map<Seq<char>, Seq<u8>>,
    steps: nat,
)
    requires
        stored_so_far(s, storage),
        clash_free(s.plans),
        served(s.plans, network),
        steps >= s.remaining(),
    ensures
        ({
            let (end, after) = carried_out(s, storage, network, steps);
            &&& end.finished()
            &&& end.plans == s.plans
            &&& stored_so_far(end, after)
            &&& kept(s.plans, storage, after)
        }),
    decreases steps,
{
    if s.finished() {
    } else {
        let (event, after) = carry_out(s.pending().unwrap(), storage, network);
        lemma_stored_so_far_step(s, storage, network);
        lemma_finished(s, event);
        lemma_step_progress(s, event);
        lemma_step_wf(s, event);
        lemma_carried_out(s.step(event), after, network, (steps - 1) as nat);
        let end = carried_out(s, storage, network, steps).1;
    }
}

/// A run that meets no failure stores every post whole. Where the network
/// serves every usable URL and no metadata file gets in the way of another
/// file, a caller who carries out the actions of a run, as many as the run
/// has left at its start, ends with the run finished and with storage
/// holding every media file of the plans and the metadata file of every
/// post with media. What storage held before is still there, and but for
/// the metadata files it is unchanged: no file is fetched over.
pub proof fn lemma_run_populates(
    plans: Seq<PostPlanView>,
    storage: Map<Seq<char>, Seq<u8>>,
    network: Map<Seq<char>, Seq<u8>>,
)
    requires
        clash_free(plans),
        served(plans, network),
    ensures
        ({
            let start = RunState::start(plans);
            let (end, after) = carried_out(start, storage, network, start.remaining());
            &&& end.finished()
            &&& populated(plans, after)
            &&& kept(plans, storage, after)
        }),
{
    let start = RunState::start(plans);
    lemma_carried_out(start, storage, network, start.remaining());
}

/// The run has found every usable file of the current post so far in
/// storage, and has never had to fetch.
spec fn settled(s: RunState) -> bool {
    &&& s.wf()
    &&& !s.finished() ==> {
        &&& s.stored == names_upto(s.plan().targets, s.variant as int)
        &&& s.phase != Phase::Fetch
        &&& !(s.phase is Failed)
    }
}

proof fn lemma_settled_step(
    s: RunState,
    storage: Map<Seq<char>, Seq<u8>>,
    network: Map<Seq<char>, Seq<u8>>,
)
    requires
        settled(s),
        !s.finished(),
        populated(s.plans, storage),
    ensures
        ({
            let action = s.pending().unwrap();
            let (event, after) = carry_out(action, storage, network);
            &&& !(action is Download)
            &&& after == storage
            &&& settled(s.step(event))
            &&& s.step(event).plans == s.plans
        }),
{
}

/// The downloads among the actions that a caller carries out in the run
/// from `s` on, `steps` of them at most.
pub open spec fn downloads(
    s: RunState,
    storage: Map<Seq<char>, Seq<u8>>,
    network: Map<Seq<char>, Seq<u8>>,
    steps: nat,
) -> nat
    decreases steps,
{
    if steps == 0 || s.finished() {
        0
    } else {
        let action = s.pending().unwrap();
        let (event, after) = carry_out(action, storage, network);
        let fetched: nat = if action is Download {
            1
        } else {
            0
        };
        fetched + downloads(s.step(event), after, network, (steps - 1) as nat)
    }
}

proof fn lemma_settled_carried_out(
    s: RunState,
    storage: Map<Seq<char>, Seq<u8>>,
    network: Map<Seq<char>, Seq<u8>>,
    steps: nat,
)
    requires
        settled(s),
        populated(s.plans, storage),
    ensures
        carried_out(s, storage, network, steps).1 == storage,
        downloads(s, storage, network, steps) == 0,
    decreases steps,
{
    if steps > 0 && !s.finished() {
        let event = carry_out(s.pending().unwrap(), storage, network).0;
        lemma_settled_step(s, storage, network);
        lemma_settled_carried_out(s.step(event), storage, network, (steps - 1) as nat);
    }
}

/// A run over storage that holds every file of its plans fetches nothing
/// and changes nothing: however many of its actions a caller carries out,
/// none is a download and storage stays as it was, byte for byte.
pub proof fn lemma_run_over_populated_storage(
    plans: Seq<PostPlanView>,
    storage: Map<Seq<char>, Seq<u8>>,
    network: Map<Seq<char>, Seq<u8>>,
    steps: nat,
)
    requires
        populated(plans, storage),
    ensures
        downloads(RunState::start(plans), storage, network, steps) == 0,
        carried_out(RunState::start(plans), storage, network, steps).1 == storage,
{
    let start = RunState::start(plans);
    lemma_settled_carried_out(start, storage, network, steps);
}

/// Archiving twice is archiving once. After a run that met no failure, a
/// second run over the same plans and over storage as the first left it
/// fetches nothing and leaves storage as it found it, whatever the network
/// serves by then.
pub proof fn lemma_second_run_is_idle(
    plans: Seq<PostPlanView>,
    storage: Map<Seq<char>, Seq<u8>>,
    network: Map<Seq<char>, Seq<u8>>,
    later: Map<Seq<char>, Seq<u8>>,
    steps: nat,
)
    requires
        clash_free(plans),
        served(plans, network),
    ensures
        ({
            let start = RunState::start(plans);
            let first = carried_out(start, storage, network, start.remaining()).1;
            &&& downloads(start, first, later, steps) == 0
            &&& carried_out(start, first, later, steps).1 == first
        }),
{
    let start = RunState::start(plans);
    lemma_run_populates(plans, storage, network);
    let first = carried_out(start, storage, network, start.remaining()).1;
    lemma_run_over_populated_storage(plans, first, later, steps);
}

/// The views link what storage holds. Over storage that holds every file
/// of the archive plans of a catalog, every link of every view of that
/// catalog names a file of storage: no link dangles.
pub proof fn lemma_links_point_into_storage(
    catalog: CatalogView,
    kind: ViewKind,
    storage: Map<Seq<char>, Seq<u8>>,
    i: int,
    k: int,
)
    requires
        populated(archive_plan(catalog), storage),
        0 <= i < kind.entries(catalog).len(),
        0 <= k < kind.entries(catalog)[i].actions.len(),
        kind.entries(catalog)[i].actions[k] is Link,
    ensures
        storage.contains_key(kind.entries(catalog)[i].actions[k]->Link_filename),
{
    let post_id = kind.entries(catalog)[i].post_id;
    match kind {
        ViewKind::Artists => {
            lemma_archive_plan(catalog, i);
            lemma_links_of_stored_post(
                Some(catalog.posts[i].account_username),
                post_id,
                archive_plan(catalog)[i],
                storage,
                k,
            );
        },
        ViewKind::Likes | ViewKind::Bookmarks => {
            lemma_links_of_row(catalog, None, post_id, storage, k);
        },
        ViewKind::Lists => {
            lemma_links_of_row(catalog, Some(catalog.lists[i].list_name), post_id, storage, k);
        },
    }
}

proof fn lemma_links_of_row(
    catalog: CatalogView,
    folder: Option<Seq<char>>,
    post_id: Seq<char>,
    storage: Map<Seq<char>, Seq<u8>>,
    k: int,
)
    requires
        populated(archive_plan(catalog), storage),
        0 <= k < entry_of(folder, post_id, plan_for(catalog, post_id)).actions.len(),
        entry_of(folder, post_id, plan_for(catalog, post_id)).actions[k] is Link,
    ensures
        storage.contains_key(
            entry_of(folder, post_id, plan_for(catalog, post_id)).actions[k]->Link_filename,
        ),
{
    lemma_find_post(catalog, post_id);
    if catalog.find_post(post_id) is Some {
        let j = choose|j: int| catalog.is_first_post(post_id, j);
        lemma_archive_plan(catalog, j);
        lemma_links_of_stored_post(folder, post_id, archive_plan(catalog)[j], storage, k);
    }
}

proof fn lemma_links_of_stored_post(
    folder: Option<Seq<char>>,
    post_id: Seq<char>,
    plan: PostPlanView,
    storage: Map<Seq<char>, Seq<u8>>,
    k: int,
)
    requires
        holds_post(plan, storage),
        0 <= k < entry_of(folder, post_id, Some(plan)).actions.len(),
        entry_of(folder, post_id, Some(plan)).actions[k] is Link,
    ensures
        storage.contains_key(entry_of(folder, post_id, Some(plan)).actions[k]->Link_filename),
{
}

} // verus!
