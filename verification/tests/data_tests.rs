use mpc_display_rs::data::MusicData;
use mpc_display_rs::track::{get_metadata, PlayState, StatusInfo, Track};

fn track(title: &str, artist: &str, album: &str) -> Track {
    Track {
        file: format!("music/{title}.flac"),
        title: Some(title.to_string()),
        artist: Some(artist.to_string()),
        place: None,
        tags: vec![("Album".to_string(), album.to_string())],
    }
}

fn fmt(names: &[&str]) -> Vec<String> {
    names.iter().map(|s| s.to_string()).collect()
}

#[test]
fn status_overwrites_playback_fields() {
    let mut d = MusicData::new(fmt(&["title"]), false, true, false);
    let st = StatusInfo {
        song: Some(2),
        queue_len: 7,
        elapsed: Some(10),
        duration: Some(180),
        state: PlayState::Play,
        volume: 64,
        repeat: true,
        random: false,
        single: true,
        consume: false,
        crossfade: Some(5),
    };
    d.update_status(st);
    assert_eq!(d.queue_track, Some(2));
    assert_eq!(d.queue_total, Some(7));
    assert_eq!(d.time_curr, Some(10));
    assert_eq!(d.time_total, Some(180));
    assert_eq!(d.state, PlayState::Play);
    assert_eq!(d.volume, 64);
    assert_eq!(d.ersc_opts, vec![true, false, true, false]);
    assert_eq!(d.crossfade, Some(5));
}

#[test]
fn empty_queue_is_no_queue() {
    let mut d = MusicData::new(fmt(&["title"]), false, true, false);
    let st = StatusInfo { queue_len: 0, ..StatusInfo::default() };
    d.update_status(st);
    assert_eq!(d.queue_total, None);
}

#[test]
fn sticker_update_sets_rating() {
    let mut d = MusicData::new(fmt(&["title"]), false, true, false);
    d.update_sticker(Some("7".to_string()));
    assert_eq!(d.rating, Some("7".to_string()));
    d.update_sticker(None);
    assert_eq!(d.rating, None);
}

#[test]
fn increment_time_advances_only_when_loaded() {
    let mut d = MusicData::new(fmt(&["title"]), false, true, false);
    d.increment_time(3);
    assert_eq!(d.time_curr, None);
    d.time_curr = Some(10);
    d.increment_time(3);
    assert_eq!(d.time_curr, Some(13));
}

#[test]
fn metadata_lookup_ignores_key_case() {
    let t = track("Song", "Artist", "The Album");
    assert_eq!(get_metadata(&t, "album"), Some("The Album".to_string()));
    assert_eq!(get_metadata(&t, "ALBUM"), Some("The Album".to_string()));
    assert_eq!(get_metadata(&t, "date"), None);
    assert_eq!(get_metadata(&t, "title"), Some("Song".to_string()));
    assert_eq!(get_metadata(&t, "artist"), Some("Artist".to_string()));
}

#[test]
fn metadata_last_match_wins() {
    let mut t = track("Song", "Artist", "First");
    t.tags.push(("album".to_string(), "Second".to_string()));
    assert_eq!(get_metadata(&t, "Album"), Some("Second".to_string()));
}

#[test]
fn song_update_resolves_album_fields() {
    let mut d = MusicData::new(fmt(&["title"]), false, true, false);
    let mut t = track("Song", "Artist", "The Album");
    t.tags.push(("Track".to_string(), "4".to_string()));
    t.tags.push(("Date".to_string(), "1999".to_string()));
    let q = d.song_album_query(&t);
    assert_eq!(q, Some("The Album".to_string()));
    d.update_song(t, Some(11));
    assert_eq!(d.album, Some("The Album".to_string()));
    assert_eq!(d.album_track, Some(4));
    assert_eq!(d.album_total, Some(11));
    assert_eq!(d.date, Some("1999".to_string()));
    assert_eq!(d.artist, Some("Artist".to_string()));
    assert_eq!(d.title, Some("Song".to_string()));
    assert_eq!(d.prev_album, Some("The Album".to_string()));
    assert_eq!(d.prev_album_total, Some(11));
}

#[test]
fn album_size_cache_skips_second_search() {
    // A fake protocol client that only counts how often it is searched.
    struct FakeClient {
        search_calls: usize,
    }
    impl FakeClient {
        fn album_size(&mut self, _album: &str) -> Option<u32> {
            self.search_calls += 1;
            Some(12)
        }
    }
    let mut client = FakeClient { search_calls: 0 };
    let mut d = MusicData::new(fmt(&["title"]), false, true, false);

    // First sync of a song on this album: one search.
    let t1 = track("One", "Artist", "Same Album");
    let searched = match d.song_album_query(&t1) {
        Some(album) => client.album_size(&album),
        None => None,
    };
    d.update_song(t1, searched);
    assert_eq!(client.search_calls, 1);
    assert_eq!(d.album_total, Some(12));

    // Second sync with the album unchanged: the cache answers, no search.
    let t2 = track("Two", "Artist", "Same Album");
    let searched = match d.song_album_query(&t2) {
        Some(album) => client.album_size(&album),
        None => None,
    };
    d.update_song(t2, searched);
    assert_eq!(client.search_calls, 1);
    assert_eq!(d.album_total, Some(12));

    // A different album triggers one more search.
    let t3 = track("Three", "Artist", "Other Album");
    let searched = match d.song_album_query(&t3) {
        Some(album) => client.album_size(&album),
        None => None,
    };
    d.update_song(t3, searched);
    assert_eq!(client.search_calls, 2);
}

#[test]
fn song_without_album_asks_nothing() {
    let mut d = MusicData::new(fmt(&["title"]), false, true, false);
    let t = Track {
        file: "x.flac".to_string(),
        title: None,
        artist: None,
        place: None,
        tags: Vec::new(),
    };
    assert_eq!(d.song_album_query(&t), None);
    d.update_song(t, None);
    assert_eq!(d.album, None);
    assert_eq!(d.album_total, None);
}

#[test]
fn shared_album_column_is_suppressible() {
    // Every entry shares the album; artists and titles differ. Only the
    // album column (besides the forced-false title column) is redundant.
    let mut d = MusicData::new(fmt(&["title", "artist", "album"]), false, true, false);
    let queue = vec![
        track("One", "A", "Same Album"),
        track("Two", "B", "Same Album"),
        track("Three", "C", "Same Album"),
    ];
    d.update_playlist(queue);
    assert_eq!(d.verbose_tags, vec![false, false, true]);
}

#[test]
fn differing_album_column_is_kept() {
    let mut d = MusicData::new(fmt(&["title", "artist", "album"]), false, true, false);
    let queue = vec![track("One", "A", "X"), track("Two", "A", "Y")];
    d.update_playlist(queue);
    assert_eq!(d.verbose_tags, vec![false, true, false]);
}

#[test]
fn verbose_mode_suppresses_nothing() {
    let mut d = MusicData::new(fmt(&["title", "artist", "album"]), true, true, false);
    let queue = vec![track("One", "A", "X"), track("Two", "A", "X")];
    d.update_playlist(queue);
    assert_eq!(d.verbose_tags, Vec::<bool>::new());
}

#[test]
fn empty_queue_marks_all_but_title_suppressible() {
    let mut d = MusicData::new(fmt(&["title", "artist", "album"]), false, true, false);
    d.update_playlist(Vec::new());
    assert_eq!(d.verbose_tags, vec![false, true, true]);
}
