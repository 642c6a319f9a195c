use home_radio::backend::file_backend::FileBackend;
use home_radio::backend::{find_default, mark_currently_playing, position_of};
use home_radio::backend::{MediaSource, MediaType};
use home_radio::errors::{HomeRadioError, IoKind};

fn source(name: &str, link: &str, default_source: bool) -> MediaSource {
    MediaSource {
        link: link.to_string(),
        name: name.to_string(),
        media_type: MediaType::Radio,
        currently_playing: None,
        default_source,
    }
}

fn add(catalog: &mut Vec<MediaSource>, source: MediaSource) {
    let before = std::mem::take(catalog);
    *catalog = FileBackend::add_media_source(Ok(before), source).unwrap();
}

fn names(sources: &Vec<MediaSource>) -> Vec<String> {
    let mut out = Vec::new();
    for s in sources {
        out.push(s.name.clone());
    }
    out
}

#[test]
fn add_appends_a_new_name() {
    let mut catalog = Vec::new();
    add(&mut catalog, source("a", "http://a", false));
    add(&mut catalog, source("b", "http://b", false));
    add(&mut catalog, source("c", "http://c", false));
    assert_eq!(names(&catalog), vec!["a", "b", "c"]);
}

#[test]
fn add_replaces_a_known_name_in_place() {
    let mut catalog = vec![
        source("a", "http://a", false),
        source("b", "http://b", false),
        source("c", "http://c", false),
    ];
    let replacement = MediaSource {
        link: "http://b2".to_string(),
        name: "b".to_string(),
        media_type: MediaType::YouTube,
        currently_playing: Some(true),
        default_source: true,
    };
    add(&mut catalog, replacement.clone());
    assert_eq!(catalog.len(), 3);
    assert_eq!(catalog[0], source("a", "http://a", false));
    assert_eq!(
        catalog[1],
        MediaSource {
            link: "http://b2".to_string(),
            name: "b".to_string(),
            media_type: MediaType::YouTube,
            currently_playing: None,
            default_source: true,
        }
    );
    assert_eq!(catalog[2], source("c", "http://c", false));
}

#[test]
fn add_stores_no_mark_of_what_plays() {
    let mut catalog = vec![source("a", "http://a", false), source("b", "http://b", false)];
    catalog[0].currently_playing = Some(true);
    catalog[1].currently_playing = Some(false);
    let mut c = source("c", "http://c", true);
    c.currently_playing = Some(true);
    add(&mut catalog, c);
    assert_eq!(
        catalog,
        vec![
            source("a", "http://a", false),
            source("b", "http://b", false),
            source("c", "http://c", true),
        ]
    );
}

#[test]
fn add_to_a_catalog_that_could_not_be_read_fails_as_the_read_did() {
    for e in [HomeRadioError::Serde, HomeRadioError::Io(IoKind::NotFound)] {
        assert_eq!(
            FileBackend::add_media_source(Err(e), source("a", "http://a", false)),
            Err(e)
        );
    }
}

#[test]
fn add_never_leaves_two_entries_of_one_name() {
    let adds = ["x", "y", "x", "z", "y", "x", "w", "z", "z", "x"];
    let mut catalog = Vec::new();
    for (i, name) in adds.iter().enumerate() {
        add(&mut catalog, source(name, &format!("http://{}", i), false));
        for a in 0..catalog.len() {
            for b in a + 1..catalog.len() {
                assert_ne!(catalog[a].name, catalog[b].name);
            }
        }
    }
    assert_eq!(names(&catalog), vec!["x", "y", "z", "w"]);
    assert_eq!(catalog[0].link, "http://9");
    assert_eq!(catalog[1].link, "http://4");
    assert_eq!(catalog[2].link, "http://8");
    assert_eq!(catalog[3].link, "http://6");
}

#[test]
fn added_source_is_listed_field_for_field() {
    let x = MediaSource {
        link: "https://example.org/stream".to_string(),
        name: "X".to_string(),
        media_type: MediaType::YouTube,
        currently_playing: None,
        default_source: true,
    };
    let others = [source("a", "1", false), source("b", "2", true), source("c", "3", false)];
    for before in 0..=others.len() {
        let mut catalog = Vec::new();
        for o in &others[..before] {
            add(&mut catalog, o.clone());
        }
        add(&mut catalog, x.clone());
        for o in &others[before..] {
            add(&mut catalog, o.clone());
        }
        assert_eq!(catalog.len(), 4);
        assert!(catalog.contains(&x));
        assert_eq!(catalog[before], x);
    }
}

#[test]
fn add_overwrites_the_first_of_two_entries_of_one_name() {
    let mut catalog = vec![source("a", "1", false), source("a", "2", false)];
    add(&mut catalog, source("a", "3", false));
    assert_eq!(catalog, vec![source("a", "3", false), source("a", "2", false)]);
}

#[test]
fn position_is_the_index_or_the_length() {
    let catalog = vec![source("a", "1", false), source("b", "2", false), source("a", "3", false)];
    assert_eq!(position_of(&catalog, &"a".to_string()), 0);
    assert_eq!(position_of(&catalog, &"b".to_string()), 1);
    assert_eq!(position_of(&catalog, &"c".to_string()), 3);
    assert_eq!(position_of(&Vec::new(), &"a".to_string()), 0);
}

#[test]
fn default_is_the_first_one_flagged() {
    let catalog = vec![
        source("a", "1", false),
        source("b", "2", true),
        source("c", "3", true),
    ];
    assert_eq!(find_default(&catalog), Some(&catalog[1]));
    let none = vec![source("a", "1", false), source("b", "2", false)];
    assert_eq!(find_default(&none), None);
    assert_eq!(find_default(&Vec::new()), None);
}

#[test]
fn listing_marks_the_entries_with_the_link_on_record() {
    let mut catalog = vec![
        source("a", "http://one", false),
        source("b", "http://two", false),
        source("c", "http://one", false),
    ];
    catalog[1].currently_playing = Some(true);
    mark_currently_playing(&mut catalog, &Some("http://one".to_string()));
    assert_eq!(catalog[0].currently_playing, Some(true));
    assert_eq!(catalog[1].currently_playing, None);
    assert_eq!(catalog[2].currently_playing, Some(true));
    assert_eq!(names(&catalog), vec!["a", "b", "c"]);
    assert_eq!(catalog[1].link, "http://two");
}

#[test]
fn listing_without_a_link_on_record_marks_nothing() {
    let mut catalog = vec![source("a", "http://one", false), source("b", "http://two", true)];
    catalog[0].currently_playing = Some(true);
    catalog[1].currently_playing = Some(false);
    mark_currently_playing(&mut catalog, &None);
    assert_eq!(
        catalog,
        vec![source("a", "http://one", false), source("b", "http://two", true)]
    );
}

#[test]
fn listing_does_not_look_at_the_marks_it_finds() {
    let mut catalog = vec![source("a", "http://one", false), source("b", "http://two", true)];
    catalog[0].currently_playing = Some(true);
    mark_currently_playing(&mut catalog, &Some("http://two".to_string()));
    assert_eq!(catalog[0].currently_playing, None);
    assert_eq!(catalog[1].currently_playing, Some(true));
    mark_currently_playing(&mut catalog, &Some("http://nowhere".to_string()));
    assert_eq!(catalog[0].currently_playing, None);
    assert_eq!(catalog[1].currently_playing, None);
}
