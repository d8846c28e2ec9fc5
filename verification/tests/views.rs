use std::collections::{BTreeMap, BTreeSet};

use harrow_downloader::catalog::{
    Bookmark, Catalog, Like, ListMembership, MediaVariant, Post,
};
use harrow_downloader::cli::{CliArgs, StoragePreparation};
use harrow_downloader::error::ArchiveError;
use harrow_downloader::entry::{make_entry, ViewAction, ViewEntry};
use harrow_downloader::generators::{
    find_plan, ArtistsGenerator, BookmarksGenerator, Generator, LikesGenerator, ListsGenerator,
    ViewKind,
};
use harrow_downloader::event::Event;
use harrow_downloader::view_run::ViewRun;

/// The tree of one view: its folders, and its links with their targets.
struct Tree {
    folders: BTreeSet<String>,
    links: BTreeMap<String, String>,
    forbidden: Vec<String>,
    skipped: Vec<String>,
    reports: Vec<(String, String, ArchiveError)>,
}

fn tree() -> Tree {
    Tree {
        folders: BTreeSet::new(),
        links: BTreeMap::new(),
        forbidden: Vec::new(),
        skipped: Vec::new(),
        reports: Vec::new(),
    }
}

fn perform(tree: &mut Tree, root: &str, action: ViewAction) -> Event {
    match action {
        ViewAction::EnsureDir { folder } => {
            if tree.forbidden.contains(&folder) {
                Event::Failed(ArchiveError::WriteError)
            } else {
                tree.folders.insert(format!("{}/{}", root, folder));
                Event::Done
            }
        }
        ViewAction::Link { into, filename } => {
            let at = match into {
                Some(folder) => format!("{}/{}/{}", root, folder, filename),
                None => format!("{}/{}", root, filename),
            };
            if tree.links.contains_key(&at) {
                Event::Failed(ArchiveError::AlreadyExists)
            } else {
                tree.links.insert(at, format!("All/{}", filename));
                Event::Done
            }
        }
        ViewAction::Skip { post_id } => {
            tree.skipped.push(post_id);
            Event::Done
        }
        ViewAction::Report {
            post_id,
            subject,
            error,
        } => {
            tree.reports.push((post_id, subject, error));
            Event::Done
        }
    }
}

fn build(entries: Vec<ViewEntry>, root: &str, tree: &mut Tree) {
    let mut run = ViewRun::new(entries);
    let mut steps = 0;
    while let Some(action) = run.pending() {
        let event = perform(tree, root, action);
        run = run.advance(event);
        steps += 1;
        assert!(steps < 10_000);
    }
    assert!(run.is_finished());
}

fn post(id: &str, account: &str) -> Post {
    Post {
        id: id.to_string(),
        account_username: account.to_string(),
        text: None,
    }
}

fn photo(post_id: &str, url: &str) -> MediaVariant {
    MediaVariant {
        id: url.to_string(),
        post_id: post_id.to_string(),
        url: url.to_string(),
        alt_text: None,
        media_type: Some("photo".to_string()),
        bitrate: None,
    }
}

fn video(post_id: &str, url: &str, bitrate: i32) -> MediaVariant {
    MediaVariant {
        id: url.to_string(),
        post_id: post_id.to_string(),
        url: url.to_string(),
        alt_text: None,
        media_type: Some("video".to_string()),
        bitrate: Some(bitrate),
    }
}

fn like(id: i32, post_id: &str) -> Like {
    Like {
        id,
        post_id: post_id.to_string(),
    }
}

fn bookmark(id: i32, post_id: &str) -> Bookmark {
    Bookmark {
        id,
        post_id: post_id.to_string(),
    }
}

fn member(list: &str, post_id: &str) -> ListMembership {
    ListMembership {
        list_name: list.to_string(),
        post_id: post_id.to_string(),
    }
}

fn sample() -> Catalog {
    Catalog {
        posts: vec![
            post("p1", "alice"),
            post("p2", "bob"),
            post("p3", "alice"),
            post("p4", "carol"),
        ],
        media: vec![
            photo("p1", "https://e.com/m/x.jpg"),
            photo("p1", "https://e.com/m/y.jpg"),
            video("p3", "https://e.com/v/lo.mp4", 300),
            video("p3", "https://e.com/v/hi.mp4", 900),
            photo("p4", "https://e.com/m/z.jpg"),
        ],
        likes: vec![like(1, "p1"), like(2, "gone"), like(3, "p3"), like(4, "p2")],
        bookmarks: vec![bookmark(1, "p4"), bookmark(2, "missing")],
        lists: vec![
            member("best", "p1"),
            member("rest", "p4"),
            member("best", "p3"),
            member("rest", "nowhere"),
        ],
    }
}

fn link(into: Option<&str>, filename: &str) -> ViewAction {
    ViewAction::Link {
        into: into.map(|f| f.to_string()),
        filename: filename.to_string(),
    }
}

fn paths(tree: &Tree) -> Vec<String> {
    tree.links.keys().cloned().collect()
}

#[test]
fn artists_view_links_the_files_of_a_post() {
    let catalog = Catalog {
        posts: vec![Post {
            id: "p1".to_string(),
            account_username: "alice".to_string(),
            text: Some("hi".to_string()),
        }],
        media: vec![
            photo("p1", "https://e.com/m/x.jpg"),
            photo("p1", "https://e.com/m/y.jpg"),
        ],
        likes: Vec::new(),
        bookmarks: Vec::new(),
        lists: Vec::new(),
    };
    let mut t = tree();
    build(ArtistsGenerator.generate_entires(&catalog), "Artists", &mut t);
    assert_eq!(
        paths(&t),
        vec![
            "Artists/alice/x.jpg",
            "Artists/alice/x.jpg__y.jpg.txt",
            "Artists/alice/y.jpg"
        ]
    );
    assert_eq!(t.links["Artists/alice/x.jpg"], "All/x.jpg");
    assert_eq!(t.links["Artists/alice/y.jpg"], "All/y.jpg");
    assert_eq!(
        t.links["Artists/alice/x.jpg__y.jpg.txt"],
        "All/x.jpg__y.jpg.txt"
    );
    assert!(t.folders.contains("Artists/alice"));
    assert!(t.reports.is_empty());
}

#[test]
fn artists_view_has_one_entry_for_each_post() {
    let entries = ArtistsGenerator.generate_entires(&sample());
    assert_eq!(entries.len(), 4);
    assert_eq!(
        entries[0],
        ViewEntry {
            post_id: "p1".to_string(),
            actions: vec![
                ViewAction::EnsureDir {
                    folder: "alice".to_string()
                },
                link(Some("alice"), "x.jpg"),
                link(Some("alice"), "y.jpg"),
                link(Some("alice"), "x.jpg__y.jpg.txt"),
            ],
        }
    );
    assert_eq!(
        entries[1],
        ViewEntry {
            post_id: "p2".to_string(),
            actions: vec![
                ViewAction::EnsureDir {
                    folder: "bob".to_string()
                },
                ViewAction::Skip {
                    post_id: "p2".to_string()
                },
            ],
        }
    );
    assert_eq!(
        entries[2].actions,
        vec![
            ViewAction::EnsureDir {
                folder: "alice".to_string()
            },
            link(Some("alice"), "hi.mp4"),
            link(Some("alice"), "hi.mp4.txt"),
        ]
    );
}

#[test]
fn artists_view_groups_posts_by_account() {
    let mut t = tree();
    build(ArtistsGenerator.generate_entires(&sample()), "Artists", &mut t);
    assert_eq!(
        paths(&t),
        vec![
            "Artists/alice/hi.mp4",
            "Artists/alice/hi.mp4.txt",
            "Artists/alice/x.jpg",
            "Artists/alice/x.jpg__y.jpg.txt",
            "Artists/alice/y.jpg",
            "Artists/carol/z.jpg",
            "Artists/carol/z.jpg.txt",
        ]
    );
    assert_eq!(t.skipped, vec!["p2"]);
    assert!(t.reports.is_empty());
}

#[test]
fn post_without_media_gets_no_link_in_any_view() {
    let catalog = Catalog {
        posts: vec![post("p2", "bob")],
        media: Vec::new(),
        likes: vec![like(1, "p2")],
        bookmarks: vec![bookmark(1, "p2")],
        lists: vec![member("best", "p2")],
    };
    for kind in [
        ViewKind::Artists,
        ViewKind::Likes,
        ViewKind::Bookmarks,
        ViewKind::Lists,
    ] {
        let entries = kind.generate_entires(&catalog);
        assert_eq!(entries.len(), 1);
        assert!(entries[0]
            .actions
            .iter()
            .all(|a| !matches!(a, ViewAction::Link { .. })));
        let mut t = tree();
        build(entries, "View", &mut t);
        assert!(t.links.is_empty());
        assert_eq!(t.skipped, vec!["p2"]);
        assert!(t.reports.is_empty());
    }
}

#[test]
fn likes_view_is_flat() {
    let mut t = tree();
    build(LikesGenerator.generate_entires(&sample()), "Likes", &mut t);
    assert_eq!(
        paths(&t),
        vec![
            "Likes/hi.mp4",
            "Likes/hi.mp4.txt",
            "Likes/x.jpg",
            "Likes/x.jpg__y.jpg.txt",
            "Likes/y.jpg",
        ]
    );
    assert!(t.folders.is_empty());
    assert_eq!(t.links["Likes/hi.mp4"], "All/hi.mp4");
}

#[test]
fn dangling_like_is_reported_and_the_others_are_linked() {
    let mut t = tree();
    build(LikesGenerator.generate_entires(&sample()), "Likes", &mut t);
    assert_eq!(
        t.reports,
        vec![(
            "gone".to_string(),
            "gone".to_string(),
            ArchiveError::DanglingReference
        )]
    );
    assert_eq!(t.links.len(), 5);
    assert_eq!(t.skipped, vec!["p2"]);
}

#[test]
fn dangling_like_changes_no_other_entry() {
    let with = sample();
    let mut without = sample();
    without.likes.remove(1);
    let mut entries = LikesGenerator.generate_entires(&with);
    assert_eq!(
        entries[1],
        ViewEntry {
            post_id: "gone".to_string(),
            actions: vec![ViewAction::Report {
                post_id: "gone".to_string(),
                subject: "gone".to_string(),
                error: ArchiveError::DanglingReference
            }],
        }
    );
    entries.remove(1);
    assert_eq!(entries, LikesGenerator.generate_entires(&without));
}

#[test]
fn bookmarks_view_is_flat() {
    let mut t = tree();
    build(
        BookmarksGenerator.generate_entires(&sample()),
        "Bookmarks",
        &mut t,
    );
    assert_eq!(paths(&t), vec!["Bookmarks/z.jpg", "Bookmarks/z.jpg.txt"]);
    assert_eq!(
        t.reports,
        vec![(
            "missing".to_string(),
            "missing".to_string(),
            ArchiveError::DanglingReference
        )]
    );
}

#[test]
fn lists_view_has_a_folder_for_each_list() {
    let mut t = tree();
    build(ListsGenerator.generate_entires(&sample()), "Lists", &mut t);
    assert_eq!(
        paths(&t),
        vec![
            "Lists/best/hi.mp4",
            "Lists/best/hi.mp4.txt",
            "Lists/best/x.jpg",
            "Lists/best/x.jpg__y.jpg.txt",
            "Lists/best/y.jpg",
            "Lists/rest/z.jpg",
            "Lists/rest/z.jpg.txt",
        ]
    );
    let folders: Vec<String> = t.folders.iter().cloned().collect();
    assert_eq!(folders, vec!["Lists/best", "Lists/rest"]);
    assert_eq!(
        t.reports,
        vec![(
            "nowhere".to_string(),
            "nowhere".to_string(),
            ArchiveError::DanglingReference
        )]
    );
}

#[test]
fn folder_that_cannot_be_made_costs_its_entry_only() {
    let mut t = tree();
    t.forbidden.push("alice".to_string());
    build(ArtistsGenerator.generate_entires(&sample()), "Artists", &mut t);
    assert_eq!(
        paths(&t),
        vec!["Artists/carol/z.jpg", "Artists/carol/z.jpg.txt"]
    );
    assert_eq!(
        t.reports,
        vec![
            (
                "p1".to_string(),
                "alice".to_string(),
                ArchiveError::WriteError
            ),
            (
                "p3".to_string(),
                "alice".to_string(),
                ArchiveError::WriteError
            ),
        ]
    );
}

#[test]
fn link_that_exists_costs_the_rest_of_its_entry_only() {
    let mut catalog = sample();
    catalog.likes = vec![like(1, "p1"), like(2, "p1"), like(3, "p4")];
    let mut t = tree();
    build(LikesGenerator.generate_entires(&catalog), "Likes", &mut t);
    assert_eq!(
        t.reports,
        vec![(
            "p1".to_string(),
            "x.jpg".to_string(),
            ArchiveError::AlreadyExists
        )]
    );
    assert_eq!(
        paths(&t),
        vec![
            "Likes/x.jpg",
            "Likes/x.jpg__y.jpg.txt",
            "Likes/y.jpg",
            "Likes/z.jpg",
            "Likes/z.jpg.txt",
        ]
    );
}

#[test]
fn view_links_what_resolves_and_reports_the_rest() {
    let catalog = Catalog {
        posts: vec![post("p1", "alice")],
        media: vec![
            photo("p1", "https://e.com/a.jpg"),
            photo("p1", "nonsense"),
            photo("p1", "https://e.com/c.jpg"),
        ],
        likes: vec![like(1, "p1")],
        bookmarks: Vec::new(),
        lists: Vec::new(),
    };
    let entries = LikesGenerator.generate_entires(&catalog);
    assert_eq!(
        entries[0].actions,
        vec![
            link(None, "a.jpg"),
            ViewAction::Report {
                post_id: "p1".to_string(),
                subject: "nonsense".to_string(),
                error: ArchiveError::InvalidUrl
            },
            link(None, "c.jpg"),
            link(None, "a.jpg__c.jpg.txt"),
        ]
    );
}

#[test]
fn view_run_names_its_actions_in_order() {
    let entries = BookmarksGenerator.generate_entires(&sample());
    let mut run = ViewRun::new(entries);
    assert!(!run.is_finished());
    assert_eq!(run.pending(), Some(link(None, "z.jpg")));
    run = run.advance(Event::Present);
    assert_eq!(run.pending(), Some(link(None, "z.jpg")));
    run = run.advance(Event::Done);
    assert_eq!(run.pending(), Some(link(None, "z.jpg.txt")));
    run = run.advance(Event::Failed(ArchiveError::AlreadyExists));
    assert_eq!(
        run.pending(),
        Some(ViewAction::Report {
            post_id: "p4".to_string(),
            subject: "z.jpg.txt".to_string(),
            error: ArchiveError::AlreadyExists
        })
    );
    run = run.advance(Event::Failed(ArchiveError::WriteError));
    assert!(matches!(run.pending(), Some(ViewAction::Report { .. })));
    run = run.advance(Event::Done);
    assert_eq!(
        run.pending(),
        Some(ViewAction::Report {
            post_id: "missing".to_string(),
            subject: "missing".to_string(),
            error: ArchiveError::DanglingReference
        })
    );
    run = run.advance(Event::Failed(ArchiveError::WriteError));
    assert!(matches!(run.pending(), Some(ViewAction::Report { .. })));
    run = run.advance(Event::Done);
    assert_eq!(run.pending(), None);
    assert!(run.is_finished());
    run = run.advance(Event::Done);
    assert!(run.is_finished());
}

#[test]
fn view_run_over_nothing_is_finished() {
    let run = ViewRun::new(Vec::new());
    assert!(run.is_finished());
    assert_eq!(run.pending(), None);
}

#[test]
fn entry_without_actions_is_noted_as_passed_over() {
    let mut run = ViewRun::new(vec![
        ViewEntry {
            post_id: "p9".to_string(),
            actions: Vec::new(),
        },
        ViewEntry {
            post_id: "p1".to_string(),
            actions: vec![link(None, "a.jpg")],
        },
    ]);
    assert_eq!(
        run.pending(),
        Some(ViewAction::Skip {
            post_id: "p9".to_string()
        })
    );
    run = run.advance(Event::Done);
    assert_eq!(run.pending(), Some(link(None, "a.jpg")));
}

#[test]
fn entry_of_a_missing_post_is_one_report() {
    let entry = make_entry(Some("best".to_string()), "p0", None);
    assert_eq!(
        entry,
        ViewEntry {
            post_id: "p0".to_string(),
            actions: vec![
                ViewAction::EnsureDir {
                    folder: "best".to_string()
                },
                ViewAction::Report {
                    post_id: "p0".to_string(),
                    subject: "p0".to_string(),
                    error: ArchiveError::DanglingReference
                },
            ],
        }
    );
}

#[test]
fn plan_is_found_for_a_post_of_the_catalog() {
    let catalog = sample();
    let plan = find_plan(&catalog, "p3").unwrap();
    assert_eq!(plan.post.id, "p3");
    assert_eq!(plan.names(), vec!["hi.mp4"]);
    assert!(find_plan(&catalog, "gone").is_none());
    assert!(find_plan(&catalog, "p2").unwrap().targets.is_empty());
}

#[test]
fn action_is_copied_whole() {
    for action in [
        ViewAction::EnsureDir {
            folder: "f".to_string(),
        },
        link(Some("f"), "a.jpg"),
        link(None, "a.jpg"),
        ViewAction::Skip {
            post_id: "p".to_string(),
        },
        ViewAction::Report {
            post_id: "p".to_string(),
            subject: "s".to_string(),
            error: ArchiveError::AlreadyExists,
        },
    ] {
        assert_eq!(action.duplicate(), action);
    }
    assert_eq!(link(Some("f"), "a.jpg").subject(), "a.jpg");
    assert_eq!(
        ViewAction::EnsureDir {
            folder: "f".to_string()
        }
        .subject(),
        "f"
    );
}

#[test]
fn each_kind_of_view_has_its_directory() {
    assert_eq!(ViewKind::Artists.directory(), "Artists");
    assert_eq!(ViewKind::Likes.directory(), "Likes");
    assert_eq!(ViewKind::Bookmarks.directory(), "Bookmarks");
    assert_eq!(ViewKind::Lists.directory(), "Lists");
    assert_eq!(
        ViewKind::defaults(),
        vec![ViewKind::Artists, ViewKind::Likes, ViewKind::Bookmarks]
    );
}

#[test]
fn kind_of_view_generates_what_its_generator_does() {
    let catalog = sample();
    assert_eq!(
        ViewKind::Artists.generate_entires(&catalog),
        ArtistsGenerator.generate_entires(&catalog)
    );
    assert_eq!(
        ViewKind::Likes.generate_entires(&catalog),
        LikesGenerator.generate_entires(&catalog)
    );
    assert_eq!(
        ViewKind::Bookmarks.generate_entires(&catalog),
        BookmarksGenerator.generate_entires(&catalog)
    );
    assert_eq!(
        ViewKind::Lists.generate_entires(&catalog),
        ListsGenerator.generate_entires(&catalog)
    );
}

fn args(skip_db_regen: bool, clean_data_directory: bool) -> CliArgs {
    CliArgs {
        api_delay: None,
        data_directory: None,
        skip_db_regen,
        skip_metadata_files: false,
        skip_generators: false,
        clean_data_directory,
    }
}

#[test]
fn storage_is_prepared_as_the_options_say() {
    assert_eq!(
        args(false, false).storage_preparation(false),
        StoragePreparation::Create
    );
    assert_eq!(
        args(false, true).storage_preparation(false),
        StoragePreparation::Create
    );
    assert_eq!(
        args(false, false).storage_preparation(true),
        StoragePreparation::Keep
    );
    assert_eq!(
        args(false, true).storage_preparation(true),
        StoragePreparation::Recreate
    );
}

#[test]
fn catalog_is_removed_only_to_be_refilled() {
    assert!(args(false, false).removes_catalog(true));
    assert!(!args(false, false).removes_catalog(false));
    assert!(!args(true, false).removes_catalog(true));
    assert!(!args(true, true).removes_catalog(false));
}
