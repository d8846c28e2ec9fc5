use harrow_downloader::catalog::{Catalog, MediaVariant, Post};
use harrow_downloader::metadata::metadata_content;
use harrow_downloader::selector::select_variants;

fn variant(id: &str, kind: Option<&str>, bitrate: Option<i32>) -> MediaVariant {
    MediaVariant {
        id: id.to_string(),
        post_id: "p".to_string(),
        url: format!("https://example.com/{}", id),
        alt_text: None,
        media_type: kind.map(|k| k.to_string()),
        bitrate,
    }
}

fn chosen_ids(group: &[MediaVariant]) -> Vec<String> {
    let refs: Vec<&MediaVariant> = group.iter().collect();
    select_variants(&refs).iter().map(|m| m.id.clone()).collect()
}

fn post(id: &str, account: &str, text: Option<&str>) -> Post {
    Post {
        id: id.to_string(),
        account_username: account.to_string(),
        text: text.map(|t| t.to_string()),
    }
}

#[test]
fn video_with_greatest_bitrate_is_selected() {
    let group = vec![
        variant("low", Some("video"), Some(64)),
        variant("high", Some("video"), Some(320)),
    ];
    let refs: Vec<&MediaVariant> = group.iter().collect();
    let chosen = select_variants(&refs);
    assert_eq!(chosen.len(), 1);
    assert_eq!(chosen[0].bitrate, Some(320));
    assert_eq!(chosen[0].id, "high");
}

#[test]
fn all_photos_are_selected() {
    let group = vec![
        variant("one", Some("photo"), None),
        variant("two", Some("photo"), None),
    ];
    assert_eq!(chosen_ids(&group), vec!["one", "two"]);
}

#[test]
fn variant_with_bitrate_beats_variant_without() {
    let group = vec![
        variant("none", Some("video"), None),
        variant("some", Some("video"), Some(128)),
    ];
    let refs: Vec<&MediaVariant> = group.iter().collect();
    let chosen = select_variants(&refs);
    assert_eq!(chosen.len(), 1);
    assert_eq!(chosen[0].bitrate, Some(128));
}

#[test]
fn variant_with_bitrate_zero_beats_variant_without() {
    let group = vec![
        variant("none", Some("video"), None),
        variant("zero", Some("video"), Some(0)),
        variant("also-none", Some("video"), None),
    ];
    assert_eq!(chosen_ids(&group), vec!["zero"]);
}

#[test]
fn first_of_equal_bitrates_is_selected() {
    let group = vec![
        variant("a", Some("video"), Some(100)),
        variant("b", Some("video"), Some(832)),
        variant("c", Some("video"), Some(832)),
        variant("d", Some("video"), Some(256)),
    ];
    assert_eq!(chosen_ids(&group), vec!["b"]);
}

#[test]
fn first_variant_is_selected_where_none_has_a_bitrate() {
    let group = vec![
        variant("a", Some("video"), None),
        variant("b", Some("video"), None),
        variant("c", Some("animated_gif"), None),
    ];
    assert_eq!(chosen_ids(&group), vec!["a"]);
}

#[test]
fn greatest_bitrate_is_found_at_any_position() {
    let first = vec![
        variant("a", Some("video"), Some(2176)),
        variant("b", Some("video"), Some(632)),
        variant("c", Some("video"), Some(950)),
    ];
    assert_eq!(chosen_ids(&first), vec!["a"]);
    let middle = vec![
        variant("a", Some("video"), Some(632)),
        variant("b", Some("video"), Some(2176)),
        variant("c", Some("video"), Some(950)),
    ];
    assert_eq!(chosen_ids(&middle), vec!["b"]);
    let last = vec![
        variant("a", Some("video"), Some(632)),
        variant("b", Some("video"), Some(950)),
        variant("c", Some("video"), Some(2176)),
    ];
    assert_eq!(chosen_ids(&last), vec!["c"]);
}

#[test]
fn negative_bitrate_still_beats_none() {
    let group = vec![
        variant("none", Some("video"), None),
        variant("low", Some("video"), Some(-7)),
        variant("lower", Some("video"), Some(-9)),
    ];
    assert_eq!(chosen_ids(&group), vec!["low"]);
}

#[test]
fn variant_without_kind_counts_as_photo() {
    let group = vec![
        variant("v1", Some("video"), Some(64)),
        variant("untyped", None, None),
        variant("v2", Some("video"), Some(320)),
    ];
    assert_eq!(chosen_ids(&group), vec!["v1", "untyped", "v2"]);
}

#[test]
fn one_photo_selects_the_whole_group_in_order() {
    let group = vec![
        variant("v", Some("video"), Some(900)),
        variant("g", Some("animated_gif"), Some(0)),
        variant("p", Some("photo"), None),
    ];
    assert_eq!(chosen_ids(&group), vec!["v", "g", "p"]);
}

#[test]
fn kind_is_compared_exactly() {
    let group = vec![
        variant("a", Some("Photo"), Some(1)),
        variant("b", Some("photos"), Some(2)),
        variant("c", Some(""), Some(3)),
    ];
    assert_eq!(chosen_ids(&group), vec!["c"]);
}

#[test]
fn single_variant_is_selected() {
    assert_eq!(
        chosen_ids(&[variant("only", Some("video"), None)]),
        vec!["only"]
    );
    assert_eq!(
        chosen_ids(&[variant("only", Some("photo"), Some(5))]),
        vec!["only"]
    );
}

#[test]
fn empty_group_selects_nothing() {
    assert!(chosen_ids(&[]).is_empty());
}

#[test]
fn selection_is_reproducible() {
    let group = vec![
        variant("a", Some("video"), Some(5)),
        variant("b", Some("video"), Some(5)),
    ];
    assert_eq!(chosen_ids(&group), chosen_ids(&group));
}

#[test]
fn media_rows_of_a_post_keep_table_order() {
    let mut catalog = Catalog {
        posts: vec![post("p1", "alice", None), post("p2", "bob", None)],
        media: Vec::new(),
        likes: Vec::new(),
        bookmarks: Vec::new(),
        lists: Vec::new(),
    };
    for (id, owner) in [("m1", "p1"), ("m2", "p2"), ("m3", "p1"), ("m4", "p3")] {
        let mut row = variant(id, Some("photo"), None);
        row.post_id = owner.to_string();
        catalog.media.push(row);
    }
    let ids = |rows: Vec<&MediaVariant>| rows.iter().map(|m| m.id.clone()).collect::<Vec<_>>();
    assert_eq!(ids(catalog.media_for_post("p1")), vec!["m1", "m3"]);
    assert_eq!(ids(catalog.media_for_post("p2")), vec!["m2"]);
    assert_eq!(ids(catalog.media_for_post("p3")), vec!["m4"]);
    assert!(catalog.media_for_post("p4").is_empty());
    assert!(catalog.media_for_post("").is_empty());
}

#[test]
fn post_is_found_by_id() {
    let catalog = Catalog {
        posts: vec![
            post("p1", "alice", Some("one")),
            post("p2", "bob", None),
            post("p1", "carol", Some("again")),
        ],
        media: Vec::new(),
        likes: Vec::new(),
        bookmarks: Vec::new(),
        lists: Vec::new(),
    };
    assert_eq!(catalog.find_post("p1").unwrap().account_username, "alice");
    assert_eq!(catalog.find_post("p2").unwrap().account_username, "bob");
    assert!(catalog.find_post("p3").is_none());
    assert!(catalog.find_post("p1 ").is_none());
}

#[test]
fn metadata_content_lists_post_and_files() {
    let names = vec!["x.jpg".to_string(), "y.jpg".to_string()];
    assert_eq!(
        metadata_content(&post("p1", "alice", Some("hi")), &names),
        "post id: p1\nartist: alice\ntext:\nhi\n\n\nfiles: x.jpg, y.jpg"
    );
}

#[test]
fn metadata_content_of_post_without_text() {
    let names = vec!["clip.mp4".to_string()];
    assert_eq!(
        metadata_content(&post("77", "bob", None), &names),
        "post id: 77\nartist: bob\ntext:\n\n\n\nfiles: clip.mp4"
    );
}

#[test]
fn metadata_content_keeps_text_verbatim() {
    let names: Vec<String> = Vec::new();
    assert_eq!(
        metadata_content(&post("9", "dé", Some("line one\nline two: ü")), &names),
        "post id: 9\nartist: dé\ntext:\nline one\nline two: ü\n\n\nfiles: "
    );
}

#[test]
fn duplicate_of_a_post_equals_it() {
    let first = post("p1", "alice", Some("hi"));
    let copy = first.duplicate();
    assert_eq!(copy.id, "p1");
    assert_eq!(copy.account_username, "alice");
    assert_eq!(copy.text, Some("hi".to_string()));
    assert_eq!(post("p2", "bob", None).duplicate().text, None);
}
