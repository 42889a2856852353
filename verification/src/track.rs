//! The library's model of the server's data: a track in the queue, the
//! player's status, and case-insensitive tag lookup on a track.

use vstd::prelude::*;

use crate::text::{lower_seq, opt_view, str_eq, str_eq_ci};

verus! {

/// Playback state of the server.
#[derive(Clone, Copy, Debug, PartialEq, Eq, Structural)]
pub enum PlayState {
    Play,
    Pause,
    Stop,
}

impl Default for PlayState {
    /// A fresh snapshot starts stopped.
    fn default() -> (r: Self)
        ensures
            r == PlayState::Stop,
    {
        PlayState::Stop
    }
}

/// One track: its file identifier, the common tags kept apart, its position
/// in the queue when it is queued, and the remaining tags as key/value
/// pairs.
#[derive(Clone, Debug)]
pub struct Track {
    pub file: String,
    pub title: Option<String>,
    pub artist: Option<String>,
    pub place: Option<u32>,
    pub tags: Vec<(String, String)>,
}

impl Default for Track {
    /// The empty track used while nothing is loaded.
    fn default() -> (r: Self)
        ensures
            r.file@ == Seq::<char>::empty(),
            r.title is None,
            r.artist is None,
            r.place is None,
            r.tags@ == Seq::<(String, String)>::empty(),
    {
        Track {
            file: String::new(),
            title: None,
            artist: None,
            place: None,
            tags: Vec::new(),
        }
    }
}

/// The fields of the server's status reply that the snapshot keeps.
/// Durations are whole seconds.
#[derive(Clone, Debug)]
pub struct StatusInfo {
    pub song: Option<u32>,
    pub queue_len: u32,
    pub elapsed: Option<u64>,
    pub duration: Option<u64>,
    pub state: PlayState,
    pub volume: i8,
    pub repeat: bool,
    pub random: bool,
    pub single: bool,
    pub consume: bool,
    pub crossfade: Option<u64>,
}

impl Default for StatusInfo {
    /// The empty status used when a status query fails.
    fn default() -> (r: Self)
        ensures
            r.song is None,
            r.queue_len == 0,
            r.elapsed is None,
            r.duration is None,
            r.state == PlayState::Stop,
            r.volume == 0,
            !r.repeat,
            !r.random,
            !r.single,
            !r.consume,
            r.crossfade is None,
    {
        StatusInfo {
            song: None,
            queue_len: 0,
            elapsed: None,
            duration: None,
            state: PlayState::Stop,
            volume: 0,
            repeat: false,
            random: false,
            single: false,
            consume: false,
            crossfade: None,
        }
    }
}

/// The value of the last tag pair whose key equals `tag` up to ASCII case,
/// if any.
pub open spec fn spec_tag_lookup(tags: Seq<(String, String)>, tag: Seq<char>) -> Option<Seq<char>>
    decreases tags.len(),
{
    if tags.len() == 0 {
        None
    } else if lower_seq(tags.last().0@) == lower_seq(tag) {
        Some(tags.last().1@)
    } else {
        spec_tag_lookup(tags.drop_last(), tag)
    }
}

/// What a tag lookup on a track returns: the title and artist fields for
/// those tags, otherwise the last case-insensitive match in the tag list.
pub open spec fn spec_metadata(t: Track, tag: Seq<char>) -> Option<Seq<char>> {
    if tag == "title"@ {
        opt_view(t.title)
    } else if tag == "artist"@ {
        opt_view(t.artist)
    } else {
        spec_tag_lookup(t.tags@, tag)
    }
}

/// Looks a tag up on a track; the key comparison ignores ASCII case, and
/// the last matching pair wins.
pub fn get_metadata(song: &Track, tag: &str) -> (r: Option<String>)
    ensures
        opt_view(r) == spec_metadata(*song, tag@),
{
    if str_eq(tag, "title") {
        return match &song.title {
            Some(s) => Some(s.clone()),
            None => None,
        };
    }
    if str_eq(tag, "artist") {
        return match &song.artist {
            Some(s) => Some(s.clone()),
            None => None,
        };
    }
    let mut value: Option<String> = None;
    let mut i: usize = 0;
    proof {
        assert(song.tags@.take(0) =~= Seq::<(String, String)>::empty());
    }
    while i < song.tags.len()
        invariant
            i <= song.tags.len(),
            opt_view(value) == spec_tag_lookup(song.tags@.take(i as int), tag@),
        decreases song.tags.len() - i,
    {
        let pair = &song.tags[i];
        if str_eq_ci(pair.0.as_str(), tag) {
            value = Some(pair.1.clone());
        }
        proof {
            let tags = song.tags@;
            assert(tags.take(i + 1 as int).drop_last() =~= tags.take(i as int));
            assert(tags.take(i + 1 as int).last() == tags[i as int]);
            lemma_tag_lookup_step(tags.take(i + 1 as int), tag@);
        }
        i += 1;
    }
    proof {
        assert(song.tags@.take(song.tags.len() as int) =~= song.tags@);
    }
    value
}

/// Unfolds one step of the tag lookup on a nonempty tag list.
proof fn lemma_tag_lookup_step(tags: Seq<(String, String)>, tag: Seq<char>)
    requires
        tags.len() > 0,
    ensures
        spec_tag_lookup(tags, tag) == (if lower_seq(tags.last().0@) == lower_seq(tag) {
            Some(tags.last().1@)
        } else {
            spec_tag_lookup(tags.drop_last(), tag)
        }),
{
}

} // verus!
