//! The input side's decisions: which command a keystroke stands for, and
//! the small computations behind the volume, seek, crossfade and rating
//! adjustments. The connection work around them stays outside the library.

use vstd::prelude::*;

use crate::text::{opt_view, parse_u32, spec_parse_u32};
use crate::track::PlayState;

verus! {

/// What a keystroke asks for.
#[derive(Clone, Copy, Debug, PartialEq, Eq, Structural)]
pub enum KeyCommand {
    Help,
    Quit,
    TogglePause,
    Prev,
    Next,
    VolumeUp,
    VolumeDown,
    SeekBack,
    SeekForward,
    RateDown,
    RateUp,
    Repeat,
    Random,
    Single,
    Consume,
    Shuffle,
    CrossfadeUp,
    CrossfadeDown,
    Stop,
    Ignore,
}

/// The keystroke table.
pub open spec fn spec_key_command(c: char) -> KeyCommand {
    if c == 'h' || c == '?' || c == '/' {
        KeyCommand::Help
    } else if c == 'q' || c == 'Q' {
        KeyCommand::Quit
    } else if c == ' ' {
        KeyCommand::TogglePause
    } else if c == 'p' || c == 'k' {
        KeyCommand::Prev
    } else if c == 'n' || c == 'j' {
        KeyCommand::Next
    } else if c == '=' || c == '+' || c == '0' || c == ')' {
        KeyCommand::VolumeUp
    } else if c == '-' || c == '_' || c == '9' || c == '(' {
        KeyCommand::VolumeDown
    } else if c == 'H' {
        KeyCommand::SeekBack
    } else if c == 'L' {
        KeyCommand::SeekForward
    } else if c == '{' {
        KeyCommand::RateDown
    } else if c == '}' {
        KeyCommand::RateUp
    } else if c == 'E' {
        KeyCommand::Repeat
    } else if c == 'R' {
        KeyCommand::Random
    } else if c == 'S' {
        KeyCommand::Single
    } else if c == 'C' {
        KeyCommand::Consume
    } else if c == 'F' {
        KeyCommand::Shuffle
    } else if c == 'x' {
        KeyCommand::CrossfadeUp
    } else if c == 'X' {
        KeyCommand::CrossfadeDown
    } else if c == 'M' {
        KeyCommand::Stop
    } else {
        KeyCommand::Ignore
    }
}

/// Maps a keystroke to its command.
pub fn key_command(c: char) -> (r: KeyCommand)
    ensures
        r == spec_key_command(c),
{
    match c {
        'h' | '?' | '/' => KeyCommand::Help,
        'q' | 'Q' => KeyCommand::Quit,
        ' ' => KeyCommand::TogglePause,
        'p' | 'k' => KeyCommand::Prev,
        'n' | 'j' => KeyCommand::Next,
        '=' | '+' | '0' | ')' => KeyCommand::VolumeUp,
        '-' | '_' | '9' | '(' => KeyCommand::VolumeDown,
        'H' => KeyCommand::SeekBack,
        'L' => KeyCommand::SeekForward,
        '{' => KeyCommand::RateDown,
        '}' => KeyCommand::RateUp,
        'E' => KeyCommand::Repeat,
        'R' => KeyCommand::Random,
        'S' => KeyCommand::Single,
        'C' => KeyCommand::Consume,
        'F' => KeyCommand::Shuffle,
        'x' => KeyCommand::CrossfadeUp,
        'X' => KeyCommand::CrossfadeDown,
        'M' => KeyCommand::Stop,
        _ => KeyCommand::Ignore,
    }
}

/// The escape key closes the help overlay, so it reads as the help toggle.
pub fn map_escape(c: char) -> (r: char)
    ensures
        r == (if c == '\x1b' {
            '?'
        } else {
            c
        }),
{
    if c == '\x1b' {
        '?'
    } else {
        c
    }
}

/// While the help overlay is up, only the help toggle and quit keys act;
/// every other key is deferred.
pub fn help_key_allowed(c: char) -> (r: bool)
    ensures
        r == (spec_key_command(c) == KeyCommand::Help || spec_key_command(c) == KeyCommand::Quit),
{
    match key_command(c) {
        KeyCommand::Help | KeyCommand::Quit => true,
        _ => false,
    }
}

/// What the pause/play key does: pause while playing, play otherwise.
pub fn pause_action(state: PlayState) -> (pause: bool)
    ensures
        pause == (state == PlayState::Play),
{
    match state {
        PlayState::Play => true,
        PlayState::Pause | PlayState::Stop => false,
    }
}

/// Volume after one up or down step: five points, clamped to 0 through 100.
pub fn bump_volume(vol: i8, up: bool) -> (r: i8)
    ensures
        up ==> r as int == (if vol + 5 > 100 {
            100int
        } else {
            vol + 5
        }),
        !up ==> r as int == (if vol - 5 < 0 {
            0int
        } else {
            vol - 5
        }),
{
    let v = vol as i16;
    if up {
        let w = v + 5;
        if w > 100 {
            100
        } else {
            w as i8
        }
    } else {
        let w = v - 5;
        if w < 0 {
            0
        } else {
            w as i8
        }
    }
}

/// The seek target: ten seconds back (stopping at the start) or ahead.
pub fn seek_target(elapsed: u64, back: bool) -> (r: u64)
    ensures
        back ==> r as int == (if elapsed <= 10 {
            0int
        } else {
            elapsed - 10
        }),
        !back ==> r as int == (if elapsed + 10 > u64::MAX {
            u64::MAX as int
        } else {
            elapsed + 10
        }),
{
    if back {
        if elapsed <= 10 {
            0
        } else {
            elapsed - 10
        }
    } else {
        elapsed.saturating_add(10)
    }
}

/// The crossfade after one step: one second more, or one second less with
/// no change requested at zero.
pub fn next_crossfade(cur: u64, up: bool) -> (r: Option<u64>)
    ensures
        up ==> (r matches Some(v) && v as int == (if cur + 1 > u64::MAX {
            u64::MAX as int
        } else {
            cur + 1
        })),
        !up ==> r == (if cur == 0 {
            None
        } else {
            Some((cur - 1) as u64)
        }),
{
    if up {
        Some(cur.saturating_add(1))
    } else {
        if cur == 0 {
            None
        } else {
            Some(cur - 1)
        }
    }
}

/// How the current rating sticker reads as a number: an unreadable or
/// absent sticker counts as minus one, "no rating".
pub open spec fn spec_rating_value(sticker: Option<Seq<char>>) -> int {
    match sticker {
        None => -1,
        Some(s) => match spec_parse_u32(s) {
            Some(v) => if v <= 127 {
                v as int
            } else {
                -1
            },
            None => -1,
        },
    }
}

/// The rating after one adjustment, clamped to -1 through 10.
pub open spec fn spec_next_rating(sticker: Option<Seq<char>>, inc: int) -> int {
    let n = spec_rating_value(sticker) + inc;
    if n < -1 {
        -1
    } else if n > 10 {
        10
    } else {
        n
    }
}

/// Adjusts the current rating sticker by `inc` and clamps it; a result of
/// minus one means the sticker is deleted, any other value is stored.
pub fn next_rating(sticker: &Option<String>, inc: i8) -> (r: Option<i8>)
    ensures
        spec_next_rating(opt_view(*sticker), inc as int) == -1 <==> r is None,
        r matches Some(v) ==> v as int == spec_next_rating(opt_view(*sticker), inc as int),
{
    let cur: i8 = match sticker {
        None => -1,
        Some(s) => match parse_u32(s.as_str()) {
            Some(v) => if v <= 127 {
                v as i8
            } else {
                -1
            },
            None => -1,
        },
    };
    let n = cur as i16 + inc as i16;
    let clamped: i8 = if n < -1 {
        -1
    } else if n > 10 {
        10
    } else {
        n as i8
    };
    if clamped == -1 {
        None
    } else {
        Some(clamped)
    }
}

} // verus!
