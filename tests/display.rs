use std::collections::VecDeque;

use music_bot::config::{default_max_previously_played, default_prefix};
use music_bot::data::Data;
use music_bot::playlist_info::{
    build_now_playing, build_previously_played, clean_song_title, format_duration,
    get_playlist_info_embeds, refresh_sleep_ms, AttemptStep, HangingCall,
    NowPlaying, NowPlayingResult, HELP_COLOUR, HISTORY_COLOUR, NOW_PLAYING_COLOUR,
};
use music_bot::server_info::{MsgLocation, ServerInfo, SongLink};
use music_bot::visitor::EmbedFieldVisitor;

fn link(title: &str, url: Option<&str>) -> SongLink {
    SongLink { title: title.to_owned(), url: url.map(|u| u.to_owned()) }
}

#[test]
fn history_keeps_the_newest_entries() {
    let mut info = ServerInfo::new();
    for i in 0..8 {
        info.record_played(link(&format!("song{}", i), None), 5);
        assert!(info.previous_songs().len() <= 5);
    }
    let titles: Vec<String> = info.previous_songs().iter().map(|s| s.title.clone()).collect();
    assert_eq!(titles, vec!["song3", "song4", "song5", "song6", "song7"]);
}

#[test]
fn history_with_zero_bound_stays_empty() {
    let mut data: Data<u32> = Data::new(0);
    data.record_played(7, link("a", None));
    assert_eq!(data.server_info(7).unwrap().previous_songs().len(), 0);
}

#[test]
fn history_bound_from_configuration() {
    let mut data: Data<u32> = Data::new(default_max_previously_played());
    for i in 0..7 {
        data.record_played(3, link(&format!("t{}", i), None));
    }
    let history = data.server_info(3).unwrap().previous_songs();
    assert_eq!(history.len(), 5);
    assert_eq!(history[0].title, "t2");
}

#[test]
fn failed_refresh_clears_only_that_pointer() {
    let mut data: Data<u32> = Data::new(5);
    let a = MsgLocation::new(10, 100);
    let b = MsgLocation::new(20, 200);
    data.set_status_message(1, a);
    data.set_status_message(2, b);
    data.record_played(3, link("no pointer", None));
    let mut pending = data.pending_status_updates();
    pending.sort_by_key(|p| p.0);
    assert_eq!(pending, vec![(1, a), (2, b)]);

    data.finish_status_update(1, a, false);
    data.finish_status_update(2, b, true);
    assert_eq!(data.server_info(1).unwrap().status_message(), None);
    assert_eq!(data.server_info(2).unwrap().status_message(), Some(b));
    assert_eq!(data.pending_status_updates(), vec![(2, b)]);
}

#[test]
fn failed_refresh_keeps_a_newer_pointer() {
    let mut data: Data<u32> = Data::new(5);
    let old = MsgLocation::new(10, 100);
    let new = MsgLocation::new(10, 101);
    data.set_status_message(1, old);
    data.set_status_message(1, new);
    data.finish_status_update(1, old, false);
    assert_eq!(data.server_info(1).unwrap().status_message(), Some(new));
    assert_eq!(data.take_status_message(1), Some(new));
    assert_eq!(data.pending_status_updates(), vec![]);
}

#[test]
fn refresh_sleep_fills_the_period() {
    assert_eq!(refresh_sleep_ms(0), 1500);
    assert_eq!(refresh_sleep_ms(400), 1500);
    assert_eq!(refresh_sleep_ms(700), 1300);
    assert_eq!(refresh_sleep_ms(2000), 0);
    assert_eq!(refresh_sleep_ms(5000), 0);
}

#[test]
fn hanging_call_gets_three_attempts() {
    let mut call = HangingCall::new();
    let steps: Vec<AttemptStep> = (0..5).map(|_| call.next_step()).collect();
    assert_eq!(
        steps,
        vec![
            AttemptStep::Attempt,
            AttemptStep::Attempt,
            AttemptStep::Attempt,
            AttemptStep::Exhausted,
            AttemptStep::Exhausted
        ]
    );
}

#[test]
fn durations() {
    assert_eq!(format_duration(0), "0:00");
    assert_eq!(format_duration(65), "1:05");
    assert_eq!(format_duration(600), "10:00");
    assert_eq!(format_duration(3599), "59:59");
    assert_eq!(format_duration(3600), "1:00:00");
    assert_eq!(format_duration(3725), "1:02:05");
    assert_eq!(format_duration(36125), "10:02:05");
}

#[test]
fn titles_lose_square_brackets() {
    assert_eq!(clean_song_title("Song [Official Video]"), "Song (Official Video)");
    assert_eq!(clean_song_title("]["), ")(");
    assert_eq!(clean_song_title("plain 🎵"), "plain 🎵");
}

#[test]
fn previously_played_section() {
    let mut songs = VecDeque::new();
    assert_eq!(build_previously_played(&songs), "### Previously Played\n");
    songs.push_back(link("One [live]", Some("https://a")));
    songs.push_back(link("Two", None));
    assert_eq!(
        build_previously_played(&songs),
        "### Previously Played\n* [One (live)](https://a)\n* Two\n"
    );
}

#[test]
fn now_playing_section() {
    let np = NowPlaying {
        title: "Track".to_owned(),
        url: Some("https://t".to_owned()),
        position_secs: Some(75),
        length_secs: 200,
    };
    assert_eq!(
        build_now_playing(&np, &vec![]),
        "### Now Playing\n[Track](https://t)\n[ 1:15 / 3:20 ]\n"
    );
    let np = NowPlaying { url: None, position_secs: None, ..np };
    let up = vec![link("Next", Some("https://n")), link("Later", None)];
    assert_eq!(
        build_now_playing(&np, &up),
        "### Now Playing\nTrack\n[ ? / 3:20 ]\n\n### Up Next:\n1. [Next](https://n)\n2. Later\n"
    );
}

#[test]
fn status_display_embeds() {
    let mut history = VecDeque::new();
    history.push_back(link("Old", None));
    let (embeds, not_in_channel) = get_playlist_info_embeds(
        &history,
        NowPlayingResult::NotInChannel,
        None,
        "-play\n",
    );
    assert!(not_in_channel);
    assert_eq!(embeds.len(), 3);
    assert_eq!(
        embeds[0].description.as_deref(),
        Some("### Welcome to the Hroi-Radio!\n\n**Controls:**\n```\n-play\n```\n")
    );
    assert_eq!(embeds[0].colour, Some(HELP_COLOUR));
    assert_eq!(embeds[1].description.as_deref(), Some("### Previously Played\n* Old\n"));
    assert_eq!(embeds[1].colour, Some(HISTORY_COLOUR));
    assert_eq!(embeds[2].description.as_deref(), Some("### Nothing playing"));
    assert_eq!(embeds[2].colour, Some(NOW_PLAYING_COLOUR));

    let (embeds, not_in_channel) = get_playlist_info_embeds(
        &history,
        NowPlayingResult::Playing("### Now Playing\nX\n".to_owned()),
        Some("Guild".to_owned()),
        "",
    );
    assert!(!not_in_channel);
    assert!(embeds[0].description.as_deref().unwrap().starts_with("### Welcome to the Guild-Radio!"));
    assert_eq!(embeds[2].description.as_deref(), Some("### Now Playing\nX\n"));
}

#[test]
fn long_history_is_cut_at_a_line() {
    let mut history = VecDeque::new();
    for i in 0..400 {
        history.push_back(link(&format!("entry number {:04}", i), None));
    }
    let (embeds, _) =
        get_playlist_info_embeds(&history, NowPlayingResult::NotPlaying, None, "");
    let text = embeds[1].description.as_deref().unwrap();
    assert!(text.len() <= 4096);
    assert!(text.ends_with("\n..."));
    assert_eq!(embeds[2].description.as_deref(), Some("### Nothing playing"));
}

#[test]
fn visitor_collects_fields_and_message() {
    let mut v = EmbedFieldVisitor::new();
    v.field_name_prefix = Some("Span:".to_owned());
    v.record_value("guild", "42".to_owned());
    v.record_debug("message", "\"hello\"".to_owned());
    v.record_debug("err", "Timeout".to_owned());
    assert_eq!(v.message.as_deref(), Some("\"hello\""));
    assert_eq!(
        v.fields,
        vec![
            ("Span:guild".to_owned(), "42".to_owned(), true),
            ("Span:err".to_owned(), "Timeout".to_owned(), true)
        ]
    );
}

#[test]
fn configuration_defaults() {
    assert_eq!(default_max_previously_played(), 5);
    assert_eq!(default_prefix(), "=");
}
