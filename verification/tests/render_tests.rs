use mpc_display_rs::data::MusicData;
use mpc_display_rs::track::{PlayState, StatusInfo, Track};

fn fmt(names: &[&str]) -> Vec<String> {
    names.iter().map(|s| s.to_string()).collect()
}

fn track_titled(title: &str, place: Option<u32>) -> Track {
    Track {
        file: format!("music/{title}.flac"),
        title: Some(title.to_string()),
        artist: None,
        place,
        tags: Vec::new(),
    }
}

fn with_rating(rating: Option<&str>, show: bool, easter: bool) -> MusicData {
    let mut d = MusicData::new(fmt(&["title"]), false, show, easter);
    d.update_sticker(rating.map(|s| s.to_string()));
    d
}

#[test]
fn rating_seven_is_three_full_one_half_one_empty() {
    let d = with_rating(Some("7"), true, false);
    assert_eq!(d.get_rating(), "<3<3<3<  .");
}

#[test]
fn rating_extremes_on_the_five_unit_scale() {
    assert_eq!(with_rating(Some("0"), true, false).get_rating(), " . . . . .");
    assert_eq!(with_rating(Some("10"), true, false).get_rating(), "<3<3<3<3<3");
    assert_eq!(with_rating(Some("1"), true, false).get_rating(), "<  . . . .");
}

#[test]
fn rating_out_of_range_falls_back_to_the_literal() {
    let d = with_rating(Some("11"), true, false);
    assert_eq!(d.get_rating(), "rating: 11");
}

#[test]
fn rating_non_numeric_falls_back_to_the_literal() {
    let d = with_rating(Some("great"), true, false);
    assert_eq!(d.get_rating(), "rating: great");
}

#[test]
fn rating_absent_shows_placeholders() {
    let d = with_rating(None, true, false);
    assert_eq!(d.get_rating(), " ? ? ? ? ?");
}

#[test]
fn rating_hidden_shows_nothing() {
    let d = with_rating(Some("7"), false, false);
    assert_eq!(d.get_rating(), "");
}

#[test]
fn rating_alternate_scale() {
    assert_eq!(with_rating(Some("7"), true, true).get_rating(), "\x1b[40m B+ \x1b[0m");
    assert_eq!(with_rating(None, true, true).get_rating(), "\x1b[40m \u{1f983} \x1b[0m");
    assert_eq!(with_rating(Some("10"), true, true).get_rating(), "\x1b[40m A+ \x1b[0m");
}

#[test]
fn pretty_time_pads_seconds() {
    assert_eq!(MusicData::get_pretty_time(Some(70)), Some("1:10".to_string()));
    assert_eq!(MusicData::get_pretty_time(Some(5)), Some("0:05".to_string()));
    assert_eq!(MusicData::get_pretty_time(Some(600)), Some("10:00".to_string()));
    assert_eq!(MusicData::get_pretty_time(None), None);
}

#[test]
fn ersc_letters_follow_the_options() {
    let mut d = MusicData::new(fmt(&["title"]), false, true, false);
    assert_eq!(d.get_ersc(), "ersc");
    d.update_status(StatusInfo {
        repeat: true,
        single: true,
        ..StatusInfo::default()
    });
    assert_eq!(d.get_ersc(), "ErSc");
}

#[test]
fn format_song_pads_and_marks() {
    let mut d = MusicData::new(fmt(&["title"]), false, true, false);
    d.update_playlist(vec![track_titled("T", None)]);
    let plain = d.format_song(&d.queue[0], 2, 3, false);
    assert_eq!(plain, "    2  T");
    let marked = d.format_song(&d.queue[0], 2, 3, true);
    assert_eq!(marked, "\x1b[7m>   2  T\x1b[0m");
}

#[test]
fn format_song_hides_suppressed_columns() {
    let mut d = MusicData::new(fmt(&["title", "album"]), false, true, false);
    let mut t = track_titled("T", None);
    t.tags.push(("Album".to_string(), "X".to_string()));
    d.update_playlist(vec![t.clone(), t.clone()]);
    assert_eq!(d.verbose_tags, vec![false, true]);
    let row = d.format_song(&d.queue[0], 1, 1, false);
    assert_eq!(row, "  1  T");
}

#[test]
fn format_song_unknown_tag_shows_placeholder() {
    let mut d = MusicData::new(fmt(&["title", "date"]), false, true, false);
    d.update_playlist(vec![track_titled("T", None), track_titled("U", None)]);
    // The date column is uniform (absent everywhere), hence suppressed;
    // force verbose display to see the placeholder.
    d.verbose = true;
    let row = d.format_song(&d.queue[0], 1, 1, false);
    assert_eq!(row, "  1  T  *  ?");
}

#[test]
fn queue_window_shows_three_rows_around_the_last_track() {
    // Five tracks, three visible rows, current track index 4: the crop
    // covers indices 2, 3 and 4 and the current row carries the marker.
    let mut d = MusicData::new(fmt(&["title"]), false, true, false);
    d.update_playlist(vec![
        track_titled("t1", Some(4)),
        track_titled("t2", Some(4)),
        track_titled("t3", Some(4)),
        track_titled("t4", Some(4)),
        track_titled("t5", Some(4)),
    ]);
    d.song = track_titled("t5", Some(4));
    let body = d.print_queue(3, 80, 0);
    assert_eq!(body, "  3  t3\n  4  t4\n\x1b[7m> 5  t5\x1b[0m");
}

#[test]
fn queue_shorter_than_window_is_padded_with_blank_lines() {
    let mut d = MusicData::new(fmt(&["title"]), false, true, false);
    d.update_playlist(vec![track_titled("t1", Some(0))]);
    d.song = track_titled("t1", Some(0));
    let body = d.print_queue(4, 80, 0);
    assert_eq!(body, "\x1b[7m> 1  t1\x1b[0m\n\n\n");
}

#[test]
fn long_rows_are_wrapped_to_the_width() {
    // One track whose row exceeds the width: the wrapped body has more
    // rows than the queue, and no row is wider than the terminal.
    let mut d = MusicData::new(fmt(&["title"]), false, true, false);
    d.update_playlist(vec![track_titled("aaaa bbbb cccc dddd", Some(0))]);
    d.song = track_titled("aaaa bbbb cccc dddd", Some(0));
    let body = d.print_queue(8, 12, 0);
    let rows: Vec<&str> = body.split('\n').collect();
    assert!(rows.iter().filter(|r| !r.is_empty()).count() > 1);
}

#[test]
fn header_shows_the_snapshot() {
    let mut d = MusicData::new(fmt(&["title"]), false, true, false);
    d.update_status(StatusInfo {
        song: Some(0),
        queue_len: 2,
        elapsed: Some(10),
        duration: Some(180),
        state: PlayState::Play,
        volume: 64,
        repeat: false,
        random: false,
        single: false,
        consume: false,
        crossfade: None,
    });
    let mut t = track_titled("Song", Some(0));
    t.artist = Some("Artist".to_string());
    t.tags.push(("Album".to_string(), "The Album".to_string()));
    t.tags.push(("Track".to_string(), "3".to_string()));
    t.tags.push(("Date".to_string(), "1999".to_string()));
    d.update_song(t, Some(9));
    d.update_sticker(Some("7".to_string()));
    let header = d.print_header();
    let expected = "\x1b[1;36mArtist\x1b[0m * \x1b[1;34mSong\x1b[0m\n(\x1b[32m#3/9\x1b[0m) \x1b[36mThe Album\x1b[0m \x1b[33m(1999)\x1b[0m\n\x1b[32m|> 1/2: 0:10/3:00, 5%\x1b[0m  \x1b[35;1m<3<3<3<  .\x1b[0m\n\x1b[32mersc, 64%\x1b[0m";
    assert_eq!(header, expected);
}

#[test]
fn header_of_an_empty_snapshot_is_all_placeholders() {
    let d = MusicData::new(fmt(&["title"]), false, false, false);
    let header = d.print_header();
    let expected = "\x1b[1;36m?\x1b[0m * \x1b[1;34m\x1b[0m\n(\x1b[32m#?/?\x1b[0m) \x1b[36m?\x1b[0m \x1b[33m(?)\x1b[0m\n\x1b[31m>< ?/?: ?/?, ?%\x1b[0m  \x1b[35;1m\x1b[0m\n\x1b[31mersc, 0%\x1b[0m";
    assert_eq!(header, expected);
}

#[test]
fn title_falls_back_to_the_file_name() {
    let mut d = MusicData::new(fmt(&["title"]), false, false, false);
    let t = Track {
        file: "library/disc/take-five.flac".to_string(),
        title: None,
        artist: None,
        place: None,
        tags: Vec::new(),
    };
    d.update_song(t, None);
    let header = d.print_header();
    assert!(header.contains("take-five.flac"));
    assert!(!header.contains("library/disc"));
}

#[test]
fn render_joins_header_and_queue() {
    let mut d = MusicData::new(fmt(&["title"]), false, false, false);
    d.update_playlist(vec![track_titled("t1", Some(0)), track_titled("t2", Some(0))]);
    d.song = track_titled("t1", Some(0));
    let text = d.render_with_size(10, 80);
    assert!(text.contains("\x1b[7m> 1  t1\x1b[0m"));
    assert!(text.contains("  2  t2"));
    assert!(text.starts_with("\x1b[1;36m?\x1b[0m * "));
}

#[test]
fn narrow_terminal_wraps_the_header() {
    let mut d = MusicData::new(fmt(&["title"]), false, false, false);
    let mut t = track_titled("A Very Long Song Title Indeed", Some(0));
    t.artist = Some("An Artist With A Long Name".to_string());
    d.update_song(t, None);
    let narrow = d.render_with_size(5, 20);
    let wide = d.render_with_size(5, 200);
    assert!(narrow.matches('\n').count() > wide.matches('\n').count());
}

#[test]
fn full_redraw_is_framed() {
    let d = MusicData::new(fmt(&["title"]), false, false, false);
    let text = d.render();
    assert!(text.starts_with("\x1b[2J"));
    assert!(text.ends_with("\x1b[H"));
}
