//! The snapshot of the server's state that the display mirrors, and the
//! incremental updates applied to it when the server reports a change.
//!
//! Each update takes the data fetched from the server as plain values and
//! states exactly which fields it overwrites; everything else is unchanged.

use vstd::prelude::*;

use crate::text::{opt_str_clone, opt_str_eq, opt_view, parse_u32, spec_parse_u32, str_eq};
use crate::track::{get_metadata, spec_metadata, PlayState, StatusInfo, Track};

verus! {

/// The local mirror of playback, queue and metadata state.
#[derive(Clone, Debug)]
pub struct MusicData {
    // display configuration
    pub format: Vec<String>,
    pub verbose: bool,
    pub verbose_tags: Vec<bool>,
    pub show_ratings: bool,
    pub easter: bool,
    // one-entry cache of the last album's size
    pub prev_album: Option<String>,
    pub prev_album_total: Option<u32>,
    // mirrored server state
    pub song: Track,
    pub queue: Vec<Track>,
    pub artist: Option<String>,
    pub title: Option<String>,
    pub album: Option<String>,
    pub date: Option<String>,
    pub album_track: Option<u32>,
    pub album_total: Option<u32>,
    pub queue_track: Option<u32>,
    pub queue_total: Option<u32>,
    pub time_curr: Option<u64>,
    pub time_total: Option<u64>,
    pub state: PlayState,
    pub volume: i8,
    pub ersc_opts: Vec<bool>,
    pub crossfade: Option<u64>,
    pub rating: Option<String>,
}

/// The track number of a song: its "track" tag read as a decimal number.
pub open spec fn spec_track_num(song: Track) -> Option<u32> {
    match spec_metadata(song, "track"@) {
        Some(t) => spec_parse_u32(t),
        None => None,
    }
}

/// Which album a song update must ask the server about: the song's album,
/// unless it is absent or matches the cached one.
pub open spec fn spec_album_query(prev: Option<Seq<char>>, song: Track) -> Option<Seq<char>> {
    match spec_metadata(song, "album"@) {
        None => None,
        Some(a) => if prev == Some(a) {
            None
        } else {
            Some(a)
        },
    }
}

/// The first row's value for a tag; an empty queue counts as an empty value.
pub open spec fn first_tag_val(queue: Seq<Track>, tag: Seq<char>) -> Option<Seq<char>> {
    if queue.len() == 0 {
        Some(Seq::empty())
    } else {
        spec_metadata(queue[0], tag)
    }
}

/// A tag is uniform when every row of the queue shares the first row's
/// value for it.
pub open spec fn tag_uniform(queue: Seq<Track>, tag: Seq<char>) -> bool {
    forall|j: int| 0 <= j < queue.len() ==> spec_metadata(queue[j], tag) == first_tag_val(queue, tag)
}

/// Which format columns are redundant for the given queue: every column
/// except "title" whose value is the same on every row.
pub open spec fn spec_verbose_tags(format: Seq<String>, queue: Seq<Track>) -> Seq<bool> {
    Seq::new(format.len(), |i: int| format[i]@ != "title"@ && tag_uniform(queue, format[i]@))
}

impl MusicData {
    /// An empty snapshot showing nothing, carrying the display options.
    pub fn new(format: Vec<String>, verbose: bool, show_ratings: bool, easter: bool) -> (r: Self)
        ensures
            r.format == format,
            r.verbose == verbose,
            r.show_ratings == show_ratings,
            r.easter == easter,
            r.verbose_tags@ == Seq::<bool>::empty(),
            r.prev_album is None,
            r.prev_album_total is None,
            r.song.file@ == Seq::<char>::empty(),
            r.song.title is None,
            r.song.artist is None,
            r.song.place is None,
            r.song.tags@ == Seq::<(String, String)>::empty(),
            r.queue@ == Seq::<Track>::empty(),
            r.artist is None,
            r.title is None,
            r.album is None,
            r.date is None,
            r.album_track is None,
            r.album_total is None,
            r.queue_track is None,
            r.queue_total is None,
            r.time_curr is None,
            r.time_total is None,
            r.state == PlayState::Stop,
            r.volume == 0,
            r.ersc_opts@ == Seq::<bool>::empty(),
            r.crossfade is None,
            r.rating is None,
    {
        MusicData {
            format,
            verbose,
            verbose_tags: Vec::new(),
            show_ratings,
            easter,
            prev_album: None,
            prev_album_total: None,
            song: Track::default(),
            queue: Vec::new(),
            artist: None,
            title: None,
            album: None,
            date: None,
            album_track: None,
            album_total: None,
            queue_track: None,
            queue_total: None,
            time_curr: None,
            time_total: None,
            state: PlayState::Stop,
            volume: 0,
            ersc_opts: Vec::new(),
            crossfade: None,
            rating: None,
        }
    }

    /// Overwrites the playback fields with a fresh status reply; a queue
    /// length of zero is recorded as no queue at all.
    pub fn update_status(&mut self, status: StatusInfo)
        ensures
            *final(self) == (MusicData {
                queue_track: status.song,
                queue_total: if status.queue_len == 0 {
                    None
                } else {
                    Some(status.queue_len)
                },
                time_curr: status.elapsed,
                time_total: status.duration,
                state: status.state,
                volume: status.volume,
                ersc_opts: final(self).ersc_opts,
                crossfade: status.crossfade,
                ..*old(self)
            }),
            final(self).ersc_opts@ == seq![status.repeat, status.random, status.single, status.consume],
    {
        self.queue_track = status.song;
        self.queue_total = if status.queue_len == 0 {
            None
        } else {
            Some(status.queue_len)
        };
        self.time_curr = status.elapsed;
        self.time_total = status.duration;
        self.state = status.state;
        self.volume = status.volume;
        let mut opts: Vec<bool> = Vec::new();
        opts.push(status.repeat);
        opts.push(status.random);
        opts.push(status.single);
        opts.push(status.consume);
        proof {
            assert(opts@ =~= seq![status.repeat, status.random, status.single, status.consume]);
        }
        self.ersc_opts = opts;
        self.crossfade = status.crossfade;
    }

    /// The album the next song update would have to ask the server about,
    /// if any: `None` is a hit on the one-entry album cache (or a song with
    /// no album), so no search is needed.
    pub fn song_album_query(&self, song: &Track) -> (r: Option<String>)
        ensures
            opt_view(r) == spec_album_query(opt_view(self.prev_album), *song),
    {
        let album = get_metadata(song, "album");
        if album.is_none() {
            return None;
        }
        if opt_str_eq(&album, &self.prev_album) {
            None
        } else {
            album
        }
    }

    /// Installs a freshly fetched current song. `searched` is the album
    /// size the caller looked up (the answer to `song_album_query`); it is
    /// only used when the album differs from the cached one, and the cache
    /// is updated to the new album either way.
    pub fn update_song(&mut self, song: Track, searched: Option<u32>)
        ensures
            *final(self) == (MusicData {
                song: final(self).song,
                artist: final(self).artist,
                title: final(self).title,
                album: final(self).album,
                date: final(self).date,
                album_track: final(self).album_track,
                album_total: final(self).album_total,
                prev_album: final(self).prev_album,
                prev_album_total: final(self).prev_album_total,
                ..*old(self)
            }),
            final(self).song == song,
            final(self).artist == song.artist,
            final(self).title == song.title,
            opt_view(final(self).album) == spec_metadata(song, "album"@),
            opt_view(final(self).date) == spec_metadata(song, "date"@),
            final(self).album_track == spec_track_num(song),
            final(self).album_total == (if spec_metadata(song, "album"@) == opt_view(
                old(self).prev_album,
            ) {
                old(self).prev_album_total
            } else {
                searched
            }),
            opt_view(final(self).prev_album) == spec_metadata(song, "album"@),
            final(self).prev_album_total == final(self).album_total,
    {
        let album = get_metadata(&song, "album");
        let album_track = match get_metadata(&song, "track") {
            Some(t) => parse_u32(t.as_str()),
            None => None,
        };
        let album_total = if opt_str_eq(&album, &self.prev_album) {
            self.prev_album_total
        } else {
            searched
        };
        self.prev_album = opt_str_clone(&album);
        self.prev_album_total = album_total;
        let date = get_metadata(&song, "date");
        self.song = song;
        self.artist = opt_str_clone(&self.song.artist);
        self.title = opt_str_clone(&self.song.title);
        self.album = album;
        self.date = date;
        self.album_track = album_track;
        self.album_total = album_total;
    }

    /// Installs a freshly fetched queue and recomputes which format columns
    /// are redundant; with verbose display nothing is ever suppressed.
    pub fn update_playlist(&mut self, queue: Vec<Track>)
        ensures
            *final(self) == (MusicData {
                queue: final(self).queue,
                verbose_tags: final(self).verbose_tags,
                ..*old(self)
            }),
            final(self).queue == queue,
            old(self).verbose ==> final(self).verbose_tags@ == Seq::<bool>::empty(),
            !old(self).verbose ==> final(self).verbose_tags@ == spec_verbose_tags(
                old(self).format@,
                queue@,
            ),
    {
        if self.verbose {
            self.verbose_tags = Vec::new();
        } else {
            let mut vt: Vec<bool> = Vec::new();
            let mut i: usize = 0;
            while i < self.format.len()
                invariant
                    *self == *old(self),
                    i <= self.format.len(),
                    vt@.len() == i as int,
                    forall|k: int|
                        0 <= k < i ==> vt@[k] == spec_verbose_tags(self.format@, queue@)[k],
                decreases self.format.len() - i,
            {
                let tag = &self.format[i];
                let v = if str_eq(tag.as_str(), "title") {
                    false
                } else {
                    tag_is_uniform(&queue, tag.as_str())
                };
                vt.push(v);
                i += 1;
            }
            proof {
                assert(vt@ =~= spec_verbose_tags(self.format@, queue@));
            }
            self.verbose_tags = vt;
        }
        self.queue = queue;
    }

    /// Records the rating sticker fetched for the current track; absence is
    /// a valid state, not an error.
    pub fn update_sticker(&mut self, rating: Option<String>)
        ensures
            *final(self) == (MusicData { rating: final(self).rating, ..*old(self) }),
            final(self).rating == rating,
    {
        self.rating = rating;
    }

    /// Advances the elapsed time by `n` seconds when a track is loaded;
    /// a no-op otherwise. Used by the elapsed-time projector between
    /// server notifications.
    pub fn increment_time(&mut self, n: u64)
        ensures
            *final(self) == (MusicData { time_curr: final(self).time_curr, ..*old(self) }),
            final(self).time_curr == (match old(self).time_curr {
                Some(t) => Some(
                    if t + n > u64::MAX {
                        u64::MAX
                    } else {
                        (t + n) as u64
                    },
                ),
                None => None::<u64>,
            }),
    {
        self.time_curr = match self.time_curr {
            Some(t) => Some(t.saturating_add(n)),
            None => None,
        };
    }
}

/// Whether every row of the queue shares the first row's value for `tag`.
fn tag_is_uniform(queue: &Vec<Track>, tag: &str) -> (r: bool)
    ensures
        r == tag_uniform(queue@, tag@),
{
    let temp1: Option<String> = if queue.len() == 0 {
        Some(String::new())
    } else {
        get_metadata(&queue[0], tag)
    };
    let mut j: usize = 0;
    while j < queue.len()
        invariant
            j <= queue.len(),
            opt_view(temp1) == first_tag_val(queue@, tag@),
            forall|k: int| 0 <= k < j ==> spec_metadata(queue@[k], tag@) == first_tag_val(queue@, tag@),
        decreases queue.len() - j,
    {
        let temp2 = get_metadata(&queue[j], tag);
        if !opt_str_eq(&temp2, &temp1) {
            return false;
        }
        j += 1;
    }
    true
}

/// Album-size cache: after a song update stored an album, a query for any
/// track of that same album is answered from the cache — no second search
/// is ever asked for while the album is unchanged.
pub proof fn lemma_album_cache_hit(prev: Option<Seq<char>>, song: Track, song2: Track)
    requires
        prev == spec_metadata(song, "album"@),
        spec_metadata(song2, "album"@) == spec_metadata(song, "album"@),
    ensures
        spec_album_query(prev, song2) is None,
{
}

} // verus!
