use mpc_display_rs::keys::{
    bump_volume, help_key_allowed, key_command, map_escape, next_crossfade, next_rating,
    seek_target, KeyCommand,
};
use mpc_display_rs::options::{exit_status, ExitCode, MusicOpts};
use mpc_display_rs::projector::projector_tick;
use mpc_display_rs::data::MusicData;
use mpc_display_rs::track::{PlayState, StatusInfo};

#[test]
fn keystroke_table() {
    assert_eq!(key_command('h'), KeyCommand::Help);
    assert_eq!(key_command('?'), KeyCommand::Help);
    assert_eq!(key_command('/'), KeyCommand::Help);
    assert_eq!(key_command('q'), KeyCommand::Quit);
    assert_eq!(key_command('Q'), KeyCommand::Quit);
    assert_eq!(key_command(' '), KeyCommand::TogglePause);
    assert_eq!(key_command('p'), KeyCommand::Prev);
    assert_eq!(key_command('k'), KeyCommand::Prev);
    assert_eq!(key_command('n'), KeyCommand::Next);
    assert_eq!(key_command('j'), KeyCommand::Next);
    assert_eq!(key_command('+'), KeyCommand::VolumeUp);
    assert_eq!(key_command('0'), KeyCommand::VolumeUp);
    assert_eq!(key_command('-'), KeyCommand::VolumeDown);
    assert_eq!(key_command('9'), KeyCommand::VolumeDown);
    assert_eq!(key_command('H'), KeyCommand::SeekBack);
    assert_eq!(key_command('L'), KeyCommand::SeekForward);
    assert_eq!(key_command('{'), KeyCommand::RateDown);
    assert_eq!(key_command('}'), KeyCommand::RateUp);
    assert_eq!(key_command('E'), KeyCommand::Repeat);
    assert_eq!(key_command('R'), KeyCommand::Random);
    assert_eq!(key_command('S'), KeyCommand::Single);
    assert_eq!(key_command('C'), KeyCommand::Consume);
    assert_eq!(key_command('F'), KeyCommand::Shuffle);
    assert_eq!(key_command('x'), KeyCommand::CrossfadeUp);
    assert_eq!(key_command('X'), KeyCommand::CrossfadeDown);
    assert_eq!(key_command('M'), KeyCommand::Stop);
    assert_eq!(key_command('z'), KeyCommand::Ignore);
}

#[test]
fn escape_reads_as_the_help_toggle() {
    assert_eq!(map_escape('\x1b'), '?');
    assert_eq!(map_escape('q'), 'q');
}

#[test]
fn help_overlay_defers_playback_keys() {
    assert!(help_key_allowed('h'));
    assert!(help_key_allowed('?'));
    assert!(help_key_allowed('/'));
    assert!(help_key_allowed('q'));
    assert!(help_key_allowed('Q'));
    assert!(!help_key_allowed(' '));
    assert!(!help_key_allowed('n'));
    assert!(!help_key_allowed('x'));
}

#[test]
fn volume_steps_by_five_within_bounds() {
    assert_eq!(bump_volume(50, true), 55);
    assert_eq!(bump_volume(98, true), 100);
    assert_eq!(bump_volume(100, true), 100);
    assert_eq!(bump_volume(50, false), 45);
    assert_eq!(bump_volume(3, false), 0);
    assert_eq!(bump_volume(0, false), 0);
    assert_eq!(bump_volume(-1, true), 4);
}

#[test]
fn seeking_stops_at_the_start() {
    assert_eq!(seek_target(5, true), 0);
    assert_eq!(seek_target(10, true), 0);
    assert_eq!(seek_target(30, true), 20);
    assert_eq!(seek_target(30, false), 40);
    assert_eq!(seek_target(0, false), 10);
}

#[test]
fn crossfade_steps_by_one_second() {
    assert_eq!(next_crossfade(3, true), Some(4));
    assert_eq!(next_crossfade(0, true), Some(1));
    assert_eq!(next_crossfade(3, false), Some(2));
    assert_eq!(next_crossfade(0, false), None);
}

#[test]
fn rating_adjustment_clamps_and_deletes() {
    assert_eq!(next_rating(&None, 1), Some(0));
    assert_eq!(next_rating(&None, -1), None);
    assert_eq!(next_rating(&Some("5".to_string()), 1), Some(6));
    assert_eq!(next_rating(&Some("5".to_string()), -1), Some(4));
    assert_eq!(next_rating(&Some("10".to_string()), 1), Some(10));
    assert_eq!(next_rating(&Some("0".to_string()), -1), None);
    // An unreadable sticker counts as no rating.
    assert_eq!(next_rating(&Some("loud".to_string()), 1), Some(0));
    assert_eq!(next_rating(&Some("999".to_string()), 1), Some(0));
}

#[test]
fn exit_reasons_map_to_process_status() {
    assert_eq!(exit_status(ExitCode::Unknown), 0);
    assert_eq!(exit_status(ExitCode::Quit), 0);
    assert_eq!(exit_status(ExitCode::Error), 1);
    assert_eq!(ExitCode::default(), ExitCode::Unknown);
    let opts = MusicOpts::default();
    assert!(!opts.verbose && !opts.ratings && !opts.easter);
}

#[test]
fn projector_ticks_advance_the_private_copy() {
    // Elapsed 10s of 180s, playing: three uncancelled ticks read 13s.
    let mut d = MusicData::new(vec!["title".to_string()], false, true, false);
    d.update_status(StatusInfo {
        elapsed: Some(10),
        duration: Some(180),
        state: PlayState::Play,
        ..StatusInfo::default()
    });
    let mut copy = d.clone();
    for _ in 0..3 {
        let rendered = projector_tick(&mut copy, false);
        assert!(rendered);
    }
    assert_eq!(copy.time_curr, Some(13));
    assert_eq!(copy.time_total, Some(180));

    // After cancellation, no further increments occur and nothing renders.
    let rendered = projector_tick(&mut copy, true);
    assert!(!rendered);
    assert_eq!(copy.time_curr, Some(13));

    // The cache's own snapshot was never touched.
    assert_eq!(d.time_curr, Some(10));
}
