use music_bot::queue::QueueError;
use music_bot::resolve::{
    added_to_queue_message, get_song_data, is_search_query, playlist_lines, SearchHit,
};

#[test]
fn urls_are_not_searched() {
    assert!(!is_search_query("https://youtu.be/x"));
    assert!(!is_search_query("http"));
    assert!(is_search_query("htt"));
    assert!(is_search_query("never gonna give you up"));
    assert!(is_search_query(""));
}

#[test]
fn song_from_first_hit() {
    let hits = vec![
        SearchHit {
            title: Some("First".to_owned()),
            source_url: Some("https://src/1".to_owned()),
            duration_secs: Some(212),
        },
        SearchHit { title: Some("Second".to_owned()), source_url: None, duration_secs: None },
    ];
    let song = get_song_data("some query".to_owned(), hits).unwrap();
    assert_eq!(song.name, "First");
    assert_eq!(song.url.as_deref(), Some("https://src/1"));
    assert_eq!(song.source, "some query");
    assert_eq!(song.duration_secs, 212);
}

#[test]
fn song_defaults_when_metadata_is_missing() {
    let hit = || SearchHit { title: None, source_url: None, duration_secs: None };
    let searched = get_song_data("words".to_owned(), vec![hit()]).unwrap();
    assert_eq!(searched.name, "Unknown");
    assert_eq!(searched.url, None);
    assert_eq!(searched.duration_secs, 0);
    let linked = get_song_data("https://x/y".to_owned(), vec![hit()]).unwrap();
    assert_eq!(linked.url, None);
    assert_eq!(linked.source, "https://x/y");
}

#[test]
fn no_hits_is_a_resolution_failure() {
    let r = get_song_data("nothing".to_owned(), vec![]);
    assert!(matches!(r, Err(QueueError::ResolutionFailure)));
}

#[test]
fn playlist_output_lines() {
    let out = b"{\"a\":1}\n\n{\"b\":2}\n{\"c\":3}".to_vec();
    assert_eq!(
        playlist_lines(&out),
        vec![b"{\"a\":1}".to_vec(), b"{\"b\":2}".to_vec(), b"{\"c\":3}".to_vec()]
    );
    assert_eq!(playlist_lines(&b"\n\n".to_vec()), Vec::<Vec<u8>>::new());
}

#[test]
fn playlist_output_is_capped() {
    let mut out = Vec::new();
    for i in 0..60 {
        out.extend_from_slice(format!("line{}\n", i).as_bytes());
    }
    let lines = playlist_lines(&out);
    assert_eq!(lines.len(), 50);
    assert_eq!(lines[49], b"line49".to_vec());
}

#[test]
fn added_messages() {
    assert_eq!(added_to_queue_message(&vec!["A".to_owned()]), "\"A\" added to queue.");
    assert_eq!(
        added_to_queue_message(&vec!["A".to_owned(), "B".to_owned()]),
        "\"A\" and \"B\" added to queue."
    );
    assert_eq!(
        added_to_queue_message(&vec!["A".to_owned(), "B".to_owned(), "C".to_owned()]),
        "\"A\", \"B\" and \"C\" added to queue."
    );
}
