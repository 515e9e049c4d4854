use music_bot::data::Data;
use music_bot::queue::{AddSongResult, QueueError, ServerQueue, Song};

const GUILD_A: u64 = 1;
const GUILD_B: u64 = 2;

fn song(name: &str) -> Song {
    Song {
        name: name.to_owned(),
        url: Some(format!("https://example.com/{}", name)),
        source: name.to_owned(),
        duration_secs: 180,
    }
}

fn start_ok(s: &Song) -> Option<String> {
    Some(format!("handle:{}", s.name))
}

fn start_none(_: &Song) -> Option<String> {
    None
}

fn added(r: &Result<AddSongResult, QueueError>) -> (&'static str, String) {
    match r {
        Ok(AddSongResult::NowPlaying(s)) => ("now", s.name.clone()),
        Ok(AddSongResult::AddedToQueue(s)) => ("queued", s.name.clone()),
        Err(_) => ("error", String::new()),
    }
}

fn current_index(data: &Data<String>, guild: u64) -> Option<usize> {
    data.get_queue(guild)
        .and_then(|q| q.current().as_ref().map(|c| c.index))
}

#[test]
fn add_advance_until_idle() {
    let mut data: Data<String> = Data::new(5);
    let r = data.add_song(GUILD_A, song("trackX"), true, start_ok);
    assert_eq!(added(&r), ("now", "trackX".to_owned()));
    assert_eq!(current_index(&data, GUILD_A), Some(0));

    let r = data.add_song(GUILD_A, song("trackY"), true, start_ok);
    assert_eq!(added(&r), ("queued", "trackY".to_owned()));
    assert_eq!(current_index(&data, GUILD_A), Some(0));

    let next = data.next_song(GUILD_A, start_ok).unwrap();
    assert_eq!(next.map(|s| s.name), Some("trackY".to_owned()));
    assert_eq!(current_index(&data, GUILD_A), Some(1));
    let handle = data
        .get_queue(GUILD_A)
        .and_then(|q| q.current().as_ref().map(|c| c.handle.clone()));
    assert_eq!(handle, Some("handle:trackY".to_owned()));

    let next = data.next_song(GUILD_A, start_ok).unwrap();
    assert!(next.is_none());
    assert_eq!(current_index(&data, GUILD_A), None);
    assert_eq!(data.get_queue(GUILD_A).unwrap().songs().len(), 2);
}

#[test]
fn loop_queue_wraps_from_last_to_first() {
    let mut q: ServerQueue<String> = ServerQueue::new();
    q.add_song(song("A"), true, start_ok).unwrap();
    q.add_song(song("B"), true, start_ok).unwrap();
    assert!(q.set_loop_queue());
    let jumped = q.play_index(1, |_| {}, start_ok).unwrap();
    assert_eq!(jumped.name, "B");
    assert_eq!(q.current().as_ref().map(|c| c.index), Some(1));
    let next = q.next_song(start_ok).unwrap();
    assert_eq!(next.map(|s| s.name), Some("A".to_owned()));
    assert_eq!(q.current().as_ref().map(|c| c.index), Some(0));
}

#[test]
fn loop_song_replays_the_same_entry() {
    let mut q: ServerQueue<String> = ServerQueue::new();
    q.add_song(song("A"), true, start_ok).unwrap();
    q.add_song(song("B"), true, start_ok).unwrap();
    assert!(q.set_loop_song());
    for _ in 0..3 {
        let next = q.next_song(start_ok).unwrap();
        assert_eq!(next.map(|s| s.name), Some("A".to_owned()));
        assert_eq!(q.current().as_ref().map(|c| c.index), Some(0));
    }
    assert!(!q.set_loop_song());
    assert!(!q.loop_song());
}

#[test]
fn loop_song_at_last_entry_with_loop_queue_stays() {
    let mut q: ServerQueue<String> = ServerQueue::new();
    q.add_song(song("A"), true, start_ok).unwrap();
    q.add_song(song("B"), true, start_ok).unwrap();
    q.set_loop_song();
    q.set_loop_queue();
    q.play_index(1, |_| {}, start_ok).unwrap();
    let next = q.next_song(start_ok).unwrap();
    assert_eq!(next.map(|s| s.name), Some("B".to_owned()));
    assert_eq!(q.current().as_ref().map(|c| c.index), Some(1));
}

#[test]
fn last_entry_without_loops_goes_idle() {
    let mut q: ServerQueue<String> = ServerQueue::new();
    q.add_song(song("A"), true, start_ok).unwrap();
    let r = q.next_song(start_ok);
    assert!(matches!(r, Ok(None)));
    assert!(q.current().is_none());
}

#[test]
fn play_index_out_of_range_changes_nothing() {
    let mut q: ServerQueue<String> = ServerQueue::new();
    q.add_song(song("A"), true, start_ok).unwrap();
    let mut paused = false;
    let r = q.play_index(1, |_| paused = true, start_ok);
    assert_eq!(r.map(|s| s.name), Err(QueueError::IndexOutOfRange));
    assert!(!paused);
    assert_eq!(q.songs().len(), 1);
    assert_eq!(q.current().as_ref().map(|c| c.index), Some(0));

    let mut data: Data<String> = Data::new(5);
    let r = data.play_index(GUILD_B, 0, |_| {}, start_ok);
    assert_eq!(r.map(|s| s.name), Err(QueueError::IndexOutOfRange));
    assert!(data.get_queue(GUILD_B).is_none());
}

#[test]
fn play_index_pauses_the_current_track() {
    let mut q: ServerQueue<String> = ServerQueue::new();
    q.add_song(song("A"), true, start_ok).unwrap();
    q.add_song(song("B"), true, start_ok).unwrap();
    let mut paused = Vec::new();
    let r = q.play_index(1, |h: &String| paused.push(h.clone()), start_ok);
    assert_eq!(r.map(|s| s.name), Ok("B".to_owned()));
    assert_eq!(paused, vec!["handle:A".to_owned()]);
}

#[test]
fn without_voice_connection_nothing_changes() {
    let mut data: Data<String> = Data::new(5);
    let r = data.add_song(GUILD_A, song("A"), true, start_none);
    assert!(matches!(r, Err(QueueError::NotInVoiceChannel)));
    assert!(data.get_queue(GUILD_A).is_none());
    let r = data.add_song(GUILD_A, song("A"), false, start_ok);
    assert!(matches!(r, Err(QueueError::NotInVoiceChannel)));
    assert!(data.get_queue(GUILD_A).is_none());

    data.add_song(GUILD_A, song("A"), true, start_ok).unwrap();
    data.add_song(GUILD_A, song("B"), true, start_ok).unwrap();
    let r = data.add_song(GUILD_A, song("C"), false, start_ok);
    assert!(matches!(r, Err(QueueError::NotInVoiceChannel)));
    assert_eq!(data.get_queue(GUILD_A).unwrap().songs().len(), 2);
    let r = data.next_song(GUILD_A, start_none);
    assert_eq!(r.map(|o| o.map(|s| s.name)), Err(QueueError::NotInVoiceChannel));
    assert_eq!(current_index(&data, GUILD_A), Some(0));
    let r = data.play_index(GUILD_A, 1, |_| {}, start_none);
    assert_eq!(r.map(|s| s.name), Err(QueueError::NotInVoiceChannel));
    assert_eq!(current_index(&data, GUILD_A), Some(0));
}

#[test]
fn next_song_when_idle_fails() {
    let mut data: Data<String> = Data::new(5);
    let r = data.next_song(GUILD_A, start_ok);
    assert_eq!(r.map(|o| o.map(|s| s.name)), Err(QueueError::NothingPlaying));
    assert!(data.set_loop_queue(GUILD_A));
    let r = data.next_song(GUILD_A, start_ok);
    assert_eq!(r.map(|o| o.map(|s| s.name)), Err(QueueError::NothingPlaying));
}

#[test]
fn guilds_are_independent() {
    let mut data: Data<String> = Data::new(5);
    data.add_song(GUILD_A, song("A"), true, start_ok).unwrap();
    data.add_song(GUILD_B, song("B"), true, start_ok).unwrap();
    assert!(data.set_loop_song(GUILD_A));
    assert!(!data.get_queue(GUILD_B).unwrap().loop_song());
    let old = data.reset_queue(GUILD_A).unwrap();
    assert_eq!(old.songs()[0].name, "A");
    assert!(data.get_queue(GUILD_A).is_none());
    assert_eq!(current_index(&data, GUILD_B), Some(0));
}

#[test]
fn track_end_records_history_and_advances() {
    let mut data: Data<String> = Data::new(5);
    data.add_song(GUILD_A, song("A"), true, start_ok).unwrap();
    data.add_song(GUILD_A, song("B"), true, start_ok).unwrap();

    let stale = data.track_ended(GUILD_A, |h| h == "handle:old", start_ok);
    assert!(stale.is_none());
    assert_eq!(current_index(&data, GUILD_A), Some(0));
    assert!(data.server_info(GUILD_A).is_none());

    let r = data.track_ended(GUILD_A, |h| h == "handle:A", start_ok);
    assert_eq!(r.map(|x| x.map(|o| o.map(|s| s.name))), Some(Ok(Some("B".to_owned()))));
    assert_eq!(current_index(&data, GUILD_A), Some(1));
    let history = data.server_info(GUILD_A).unwrap().previous_songs();
    assert_eq!(history.len(), 1);
    assert_eq!(history[0].title, "A");
    assert_eq!(history[0].url.as_deref(), Some("https://example.com/A"));

    let r = data.track_ended(GUILD_A, |h| h == "handle:B", start_ok);
    assert_eq!(r.map(|x| x.map(|o| o.map(|s| s.name))), Some(Ok(None)));
    assert_eq!(current_index(&data, GUILD_A), None);
    assert_eq!(data.server_info(GUILD_A).unwrap().previous_songs().len(), 2);
    assert!(data.track_ended(GUILD_B, |_| true, start_ok).is_none());
}

#[test]
fn up_next_lists_entries_after_the_current_one() {
    let mut q: ServerQueue<String> = ServerQueue::new();
    assert!(q.up_next().is_empty());
    q.add_song(song("A"), true, start_ok).unwrap();
    q.add_song(song("B"), true, start_ok).unwrap();
    q.add_song(song("C"), true, start_ok).unwrap();
    let titles: Vec<String> = q.up_next().into_iter().map(|l| l.title).collect();
    assert_eq!(titles, vec!["B", "C"]);
    q.play_index(2, |_| {}, start_ok).unwrap();
    assert!(q.up_next().is_empty());
}
