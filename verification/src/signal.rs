//! Coordination between the display process and the input process over the
//! server's pub/sub channels: a session token embedded in two channel
//! names, and a three-state signal driven by observed channel membership.

use vstd::prelude::*;

use crate::ext::new_session_token;
use crate::text::str_eq;
use crate::track::PlayState;

verus! {

/// The display side's signal: showing the normal view, showing the help
/// overlay, or shutting down.
#[derive(Clone, Copy, Debug, PartialEq, Eq, Structural)]
pub enum Signal {
    Normal,
    Help,
    Quit,
}

impl Default for Signal {
    fn default() -> (r: Self)
        ensures
            r == Signal::Normal,
    {
        Signal::Normal
    }
}

/// The help channel's name for a session token.
pub open spec fn spec_help_channel(token: Seq<char>) -> Seq<char> {
    "help_"@ + token
}

/// The quit channel's name for a session token.
pub open spec fn spec_quit_channel(token: Seq<char>) -> Seq<char> {
    "quit_"@ + token
}

pub fn help_channel_name(token: &str) -> (r: String)
    ensures
        r@ == spec_help_channel(token@),
{
    let mut r = String::from_str("help_");
    r.append(token);
    r
}

pub fn quit_channel_name(token: &str) -> (r: String)
    ensures
        r@ == spec_quit_channel(token@),
{
    let mut r = String::from_str("quit_");
    r.append(token);
    r
}

/// A fresh session: its random token and the two channel names derived
/// from it.
pub fn new_session() -> (r: (String, String, String))
    ensures
        r.0@.len() == 32,
        r.1@ == spec_help_channel(r.0@),
        r.2@ == spec_quit_channel(r.0@),
{
    let token = new_session_token();
    let help = help_channel_name(token.as_str());
    let quit = quit_channel_name(token.as_str());
    (token, help, quit)
}

/// Whether the list of channel names contains this one.
pub open spec fn spec_contains_str(chans: Seq<Seq<char>>, name: Seq<char>) -> bool {
    exists|i: int| 0 <= i < chans.len() && chans[i] == name
}

pub fn contains_channel(chans: &Vec<String>, name: &str) -> (r: bool)
    ensures
        r == spec_contains_str(chans.deep_view(), name@),
{
    let mut i: usize = 0;
    while i < chans.len()
        invariant
            i <= chans.len(),
            chans.deep_view().len() == chans@.len(),
            forall|j: int| 0 <= j < i ==> chans.deep_view()[j] != name@,
        decreases chans.len() - i,
    {
        if str_eq(chans[i].as_str(), name) {
            proof {
                assert(chans.deep_view()[i as int] == name@);
            }
            return true;
        }
        i += 1;
    }
    false
}

/// The signal transition evaluated on a subscription change: the help
/// channel being subscribed (by either side) means Help; otherwise leaving
/// Help means the overlay was just closed; otherwise the quit channel being
/// subscribed means Quit; otherwise nothing changes.
pub open spec fn spec_signal_next(cur: Signal, chans: Seq<Seq<char>>, token: Seq<char>) -> Signal {
    if spec_contains_str(chans, spec_help_channel(token)) {
        Signal::Help
    } else if cur == Signal::Help {
        Signal::Normal
    } else if spec_contains_str(chans, spec_quit_channel(token)) {
        Signal::Quit
    } else {
        cur
    }
}

/// Evaluates the signal transition against the channel list fetched from
/// the server.
pub fn signal_next(cur: Signal, channels: &Vec<String>, token: &str) -> (r: Signal)
    ensures
        r == spec_signal_next(cur, channels.deep_view(), token@),
{
    let help = help_channel_name(token);
    if contains_channel(channels, help.as_str()) {
        Signal::Help
    } else if cur == Signal::Help {
        Signal::Normal
    } else {
        let quit = quit_channel_name(token);
        if contains_channel(channels, quit.as_str()) {
            Signal::Quit
        } else {
            cur
        }
    }
}

/// The three transitions the coordinator makes: subscribing the help
/// channel enters Help from any state, unsubscribing it leaves Help for
/// Normal, and subscribing the quit channel while Normal enters Quit.
/// Quit is terminal: the display cycle for Quit exits before any further
/// transition would be evaluated (see `cycle_plan`).
pub proof fn lemma_signal_transitions(cur: Signal, chans: Seq<Seq<char>>, token: Seq<char>)
    ensures
        spec_contains_str(chans, spec_help_channel(token)) ==> spec_signal_next(cur, chans, token)
            == Signal::Help,
        !spec_contains_str(chans, spec_help_channel(token)) && cur == Signal::Help
            ==> spec_signal_next(cur, chans, token) == Signal::Normal,
        !spec_contains_str(chans, spec_help_channel(token)) && cur == Signal::Normal
            && spec_contains_str(chans, spec_quit_channel(token)) ==> spec_signal_next(
            cur,
            chans,
            token,
        ) == Signal::Quit,
        !spec_contains_str(chans, spec_help_channel(token)) && cur == Signal::Normal
            && !spec_contains_str(chans, spec_quit_channel(token)) ==> spec_signal_next(
            cur,
            chans,
            token,
        ) == Signal::Normal,
{
}

/// What one display cycle does before waiting for the server: exit on
/// Quit, show the help overlay on Help, and start the elapsed-time
/// projector only in the normal view while playing.
pub struct CyclePlan {
    pub exit: bool,
    pub show_help: bool,
    pub spawn_projector: bool,
}

pub fn cycle_plan(signal: Signal, state: PlayState) -> (r: CyclePlan)
    ensures
        r.exit == (signal == Signal::Quit),
        r.show_help == (signal == Signal::Help),
        r.spawn_projector == (signal == Signal::Normal && state == PlayState::Play),
{
    CyclePlan {
        exit: signal == Signal::Quit,
        show_help: signal == Signal::Help,
        spawn_projector: signal == Signal::Normal && state == PlayState::Play,
    }
}

/// Whether the authoritative redraw happens at the end of a cycle: only in
/// the normal view.
pub fn cycle_renders(signal: Signal) -> (r: bool)
    ensures
        r == (signal == Signal::Normal),
{
    signal == Signal::Normal
}

/// The named categories of server-side change the display reacts to.
#[derive(Clone, Copy, Debug, PartialEq, Eq, Structural)]
pub enum SubsystemEvent {
    Player,
    Mixer,
    Options,
    Queue,
    Sticker,
    Subscription,
    Other,
}

/// Which syncs one change notification triggers. The status is refreshed
/// on every notification, since the projector depends on it being fresh.
pub struct SyncPlan {
    pub status: bool,
    pub song: bool,
    pub playlist: bool,
    pub sticker: bool,
    pub signal: bool,
}

pub fn event_plan(ev: SubsystemEvent) -> (r: SyncPlan)
    ensures
        r.status,
        r.song == (ev == SubsystemEvent::Player || ev == SubsystemEvent::Queue),
        r.playlist == (ev == SubsystemEvent::Queue),
        r.sticker == (ev == SubsystemEvent::Player || ev == SubsystemEvent::Queue || ev
            == SubsystemEvent::Sticker),
        r.signal == (ev == SubsystemEvent::Subscription),
{
    match ev {
        SubsystemEvent::Player => SyncPlan {
            status: true,
            song: true,
            playlist: false,
            sticker: true,
            signal: false,
        },
        SubsystemEvent::Queue => SyncPlan {
            status: true,
            song: true,
            playlist: true,
            sticker: true,
            signal: false,
        },
        SubsystemEvent::Sticker => SyncPlan {
            status: true,
            song: false,
            playlist: false,
            sticker: true,
            signal: false,
        },
        SubsystemEvent::Subscription => SyncPlan {
            status: true,
            song: false,
            playlist: false,
            sticker: false,
            signal: true,
        },
        SubsystemEvent::Mixer | SubsystemEvent::Options | SubsystemEvent::Other => SyncPlan {
            status: true,
            song: false,
            playlist: false,
            sticker: false,
            signal: false,
        },
    }
}

/// The help overlay text, framed by the clear-screen and home-cursor
/// escapes like any full redraw.
pub fn helptext() -> (r: &'static str)
    ensures
        r@.len() > 0,
{
    let text = "\x1b[2J
  \x1b[1mh, ?\x1b[0m ......show help text
  \x1b[1mspace\x1b[0m .....pause/play
  \x1b[1mpk, nj\x1b[0m ....prev/next track
  \x1b[1mH, L\x1b[0m ......seek back/ahead
  \x1b[1m+0, -9\x1b[0m ....volume up/down
  \x1b[1mERSC\x1b[0m ......repeat, random, single, consume
  \x1b[1mF\x1b[0m .........shuffle (reorders queue in-place)
  \x1b[1m{, }\x1b[0m ......adjust current track rating
  \x1b[1mM\x1b[0m .........stops playback
  \x1b[1mx, X\x1b[0m ......crossfade up/down
\x1b[H";
    proof {
        reveal_strlit(
            "\x1b[2J
  \x1b[1mh, ?\x1b[0m ......show help text
  \x1b[1mspace\x1b[0m .....pause/play
  \x1b[1mpk, nj\x1b[0m ....prev/next track
  \x1b[1mH, L\x1b[0m ......seek back/ahead
  \x1b[1m+0, -9\x1b[0m ....volume up/down
  \x1b[1mERSC\x1b[0m ......repeat, random, single, consume
  \x1b[1mF\x1b[0m .........shuffle (reorders queue in-place)
  \x1b[1m{, }\x1b[0m ......adjust current track rating
  \x1b[1mM\x1b[0m .........stops playback
  \x1b[1mx, X\x1b[0m ......crossfade up/down
\x1b[H",
        );
    }
    text
}

} // verus!
