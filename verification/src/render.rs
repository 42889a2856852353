//! Rendering the snapshot as colorized text: a four-line header followed by
//! the visible window of the queue, wrapped to the terminal width.

use vstd::prelude::*;

use crate::data::MusicData;
use crate::ext::{query_terminal_size, wrap_lines, wrap_text};
use crate::text::{
    dec_str, i64_to_string, int_str, join_sep, join_with, opt_view, parse_u32, push_newlines,
    repeat_char, repeat_seq, repeat_str, spec_basename, spec_parse_u32, u128_to_string,
};
use crate::text::basename;
use crate::track::{spec_metadata, PlayState, Track};
use crate::window::{filter_queue, spec_filter_queue};

verus! {

/// An optional text, or the placeholder shown when it is absent.
pub open spec fn opt_or_unknown(o: Option<Seq<char>>) -> Seq<char> {
    match o {
        Some(s) => s,
        None => "?"@,
    }
}

/// An optional number, or the placeholder shown when it is absent.
pub open spec fn opt_num_or_unknown(o: Option<u32>) -> Seq<char> {
    match o {
        Some(n) => dec_str(n as nat),
        None => "?"@,
    }
}

/// Whole seconds written as minutes and zero-padded seconds.
pub open spec fn spec_pretty_time(secs: int) -> Seq<char> {
    dec_str((secs / 60) as nat) + ":"@ + (if secs % 60 < 10 {
        "0"@ + dec_str((secs % 60) as nat)
    } else {
        dec_str((secs % 60) as nat)
    })
}

/// An optional duration, pretty-printed, or the placeholder.
pub open spec fn opt_time_or_unknown(o: Option<u64>) -> Seq<char> {
    match o {
        Some(t) => spec_pretty_time(t as int),
        None => "?"@,
    }
}

/// Whether toggle option `i` is set; options beyond the list count as off.
pub open spec fn opt_at(opts: Seq<bool>, i: int) -> bool {
    0 <= i < opts.len() && opts[i]
}

/// The four toggle options as the letters "ersc", upper-case when set.
pub open spec fn spec_ersc(opts: Seq<bool>) -> Seq<char> {
    seq![
        if opt_at(opts, 0) {
            'E'
        } else {
            'e'
        },
        if opt_at(opts, 1) {
            'R'
        } else {
            'r'
        },
        if opt_at(opts, 2) {
            'S'
        } else {
            's'
        },
        if opt_at(opts, 3) {
            'C'
        } else {
            'c'
        },
    ]
}

/// A rating of 0 to 10 on the five-unit scale: full, half and empty units.
pub open spec fn spec_stars(n: int) -> Seq<char> {
    repeat_seq("<3"@, (n / 2) as nat) + repeat_seq("< "@, (n % 2) as nat) + repeat_seq(
        " ."@,
        (5 - n / 2 - n % 2) as nat,
    )
}

/// The literal fallback for a rating that is not a number from 0 to 10.
pub open spec fn spec_rating_fallback(r: Seq<char>) -> Seq<char> {
    "rating: "@ + r
}

/// The other rating scale.
pub open spec fn spec_christgau(k: int) -> Seq<char> {
    if k == 0 {
        "\u{1f983}"@
    } else if k == 1 {
        "\u{1f4a3}"@
    } else if k == 2 {
        " \u{2702}\u{fe0f}"@
    } else if k == 3 {
        "\u{1f610}"@
    } else if k == 4 {
        "\u{2b50}"@
    } else if k == 5 {
        "\u{2b50} \u{2b50}"@
    } else if k == 6 {
        "\u{2b50} \u{2b50} \u{2b50}"@
    } else if k == 7 {
        "B+"@
    } else if k == 8 {
        "A-"@
    } else if k == 9 {
        "A"@
    } else {
        "A+"@
    }
}

/// The rating as the snapshot displays it: five units when the sticker is a
/// number from 0 to 10, a placeholder row when there is no sticker, the
/// literal value otherwise; the alternate scale when the hidden option is
/// on; nothing when ratings are hidden.
pub open spec fn spec_rating_text(d: MusicData) -> Seq<char> {
    if d.show_ratings && !d.easter {
        match d.rating {
            None => " ? ? ? ? ?"@,
            Some(r) => match spec_parse_u32(r@) {
                None => spec_rating_fallback(r@),
                Some(n) => if n > 10 {
                    spec_rating_fallback(r@)
                } else {
                    spec_stars(n as int)
                },
            },
        }
    } else if d.easter {
        let n: int = match d.rating {
            None => 0,
            Some(r) => match spec_parse_u32(r@) {
                None => 0,
                Some(v) => v as int,
            },
        };
        let k: int = if n > 10 {
            10
        } else {
            n
        };
        "\x1b[40m "@ + spec_christgau(k) + " \x1b[0m"@
    } else {
        Seq::empty()
    }
}

impl MusicData {
    /// Minutes and zero-padded seconds of a duration, when there is one.
    pub fn get_pretty_time(dur: Option<u64>) -> (r: Option<String>)
        ensures
            match r {
                Some(s) => dur matches Some(t) && s@ == spec_pretty_time(t as int),
                None => dur is None,
            },
    {
        let n = match dur {
            Some(n) => n,
            None => { return None },
        };
        let min = n / 60;
        let sec = n % 60;
        let mut s = u128_to_string(min as u128);
        s.append(":");
        if sec < 10 {
            s.append("0");
        }
        let sec_str = u128_to_string(sec as u128);
        s.append(sec_str.as_str());
        proof {
            assert(s@ =~= spec_pretty_time(n as int));
        }
        Some(s)
    }

    /// The toggle options as the four letters "ersc", upper-case when set.
    pub fn get_ersc(&self) -> (r: String)
        ensures
            r@ == spec_ersc(self.ersc_opts@),
    {
        let mut r = String::new();
        let opts = &self.ersc_opts;
        if opts.len() > 0 && opts[0] {
            r.append("E");
        } else {
            r.append("e");
        }
        if opts.len() > 1 && opts[1] {
            r.append("R");
        } else {
            r.append("r");
        }
        if opts.len() > 2 && opts[2] {
            r.append("S");
        } else {
            r.append("s");
        }
        if opts.len() > 3 && opts[3] {
            r.append("C");
        } else {
            r.append("c");
        }
        proof {
            reveal_strlit("E");
            reveal_strlit("e");
            reveal_strlit("R");
            reveal_strlit("r");
            reveal_strlit("S");
            reveal_strlit("s");
            reveal_strlit("C");
            reveal_strlit("c");
            assert(r@ =~= spec_ersc(self.ersc_opts@));
        }
        r
    }

    /// The rating display.
    pub fn get_rating(&self) -> (r: String)
        ensures
            r@ == spec_rating_text(*self),
    {
        if self.show_ratings && !self.easter {
            match &self.rating {
                None => String::from_str(" ? ? ? ? ?"),
                Some(rv) => {
                    match parse_u32(rv.as_str()) {
                        None => rating_fallback(rv.as_str()),
                        Some(n) => {
                            if n > 10 {
                                rating_fallback(rv.as_str())
                            } else {
                                let a = n / 2;
                                let b = n % 2;
                                let c = 5 - a - b;
                                let mut s = repeat_str("<3", a as usize);
                                let half = repeat_str("< ", b as usize);
                                let empty = repeat_str(" .", c as usize);
                                s.append(half.as_str());
                                s.append(empty.as_str());
                                proof {
                                    assert(s@ =~= spec_stars(n as int));
                                }
                                s
                            }
                        },
                    }
                },
            }
        } else if self.easter {
            let n: u32 = match &self.rating {
                None => 0,
                Some(rv) => match parse_u32(rv.as_str()) {
                    None => 0,
                    Some(v) => v,
                },
            };
            let k = if n > 10 {
                10
            } else {
                n
            };
            let mut s = String::from_str("\x1b[40m ");
            let grade = christgau(k);
            s.append(grade);
            s.append(" \x1b[0m");
            proof {
                assert(s@ =~= spec_rating_text(*self));
            }
            s
        } else {
            String::new()
        }
    }
}

/// The title shown: the title tag, or the file name when there is none.
pub open spec fn spec_title_text(d: MusicData) -> Seq<char> {
    match opt_view(d.title) {
        Some(t) => t,
        None => spec_basename(d.song.file@),
    }
}

/// The 1-based position of the current track in the queue.
pub open spec fn spec_queue_track_text(d: MusicData) -> Seq<char> {
    match d.queue_track {
        Some(p) => dec_str((p + 1) as nat),
        None => "?"@,
    }
}

/// How far into the track playback is, in whole percent.
pub open spec fn spec_percent_text(d: MusicData) -> Seq<char> {
    match (d.time_curr, d.time_total) {
        (Some(c), Some(t)) => if t == 0 {
            "?"@
        } else {
            dec_str((100 * c as int / t as int) as nat)
        },
        _ => "?"@,
    }
}

/// The playback-state glyph.
pub open spec fn spec_state_text(s: PlayState) -> Seq<char> {
    match s {
        PlayState::Play => "|>"@,
        PlayState::Pause => "[]"@,
        PlayState::Stop => "><"@,
    }
}

/// Green while playing, red otherwise.
pub open spec fn spec_state_color(s: PlayState) -> Seq<char> {
    if s == PlayState::Play {
        "\x1b[32m"@
    } else {
        "\x1b[31m"@
    }
}

/// The crossfade note, present only when a crossfade is set.
pub open spec fn spec_crossfade_text(d: MusicData) -> Seq<char> {
    match d.crossfade {
        Some(t) => " (x: "@ + dec_str(t as nat) + ")"@,
        None => Seq::empty(),
    }
}

/// Header line: artist and title.
pub open spec fn spec_header_line1(d: MusicData) -> Seq<char> {
    "\x1b[1;36m"@ + opt_or_unknown(opt_view(d.artist)) + "\x1b[0m"@ + " * "@ + "\x1b[1;34m"@
        + spec_title_text(d) + "\x1b[0m"@
}

/// Header line: track number, album and date.
pub open spec fn spec_header_line2(d: MusicData) -> Seq<char> {
    "("@ + "\x1b[32m"@ + "#"@ + opt_num_or_unknown(d.album_track) + "/"@ + opt_num_or_unknown(
        d.album_total,
    ) + "\x1b[0m"@ + ") "@ + "\x1b[36m"@ + opt_or_unknown(opt_view(d.album)) + "\x1b[0m"@ + " "@
        + "\x1b[33m"@ + "("@ + opt_or_unknown(opt_view(d.date)) + ")"@ + "\x1b[0m"@
}

/// Header line: state, queue position, times, percentage and rating.
pub open spec fn spec_header_line3(d: MusicData) -> Seq<char> {
    spec_state_color(d.state) + spec_state_text(d.state) + " "@ + spec_queue_track_text(d) + "/"@
        + opt_num_or_unknown(d.queue_total) + ": "@ + opt_time_or_unknown(d.time_curr) + "/"@
        + opt_time_or_unknown(d.time_total) + ", "@ + spec_percent_text(d) + "%"@ + "\x1b[0m"@
        + "  "@ + "\x1b[35;1m"@ + spec_rating_text(d) + "\x1b[0m"@
}

/// Header line: toggle options, volume and crossfade.
pub open spec fn spec_header_line4(d: MusicData) -> Seq<char> {
    spec_state_color(d.state) + spec_ersc(d.ersc_opts@) + ", "@ + int_str(d.volume as int) + "%"@
        + spec_crossfade_text(d) + "\x1b[0m"@
}

/// The whole four-line header.
pub open spec fn spec_print_header(d: MusicData) -> Seq<char> {
    spec_header_line1(d) + "\n"@ + spec_header_line2(d) + "\n"@ + spec_header_line3(d) + "\n"@
        + spec_header_line4(d)
}

/// A number padded on the left with spaces to at least `width` characters.
pub open spec fn spec_pad_num(n: nat, width: int) -> Seq<char> {
    repeat_char(
        ' ',
        (if width - dec_str(n).len() >= 0 {
            width - dec_str(n).len()
        } else {
            0
        }) as nat,
    ) + dec_str(n)
}

/// The tag values of the format columns that are not suppressed, in order,
/// for the first `n` columns.
pub open spec fn spec_tag_vals_prefix(
    format: Seq<String>,
    vt: Seq<bool>,
    verbose: bool,
    song: Track,
    n: int,
) -> Seq<Seq<char>>
    decreases n,
{
    if n <= 0 {
        Seq::empty()
    } else {
        spec_tag_vals_prefix(format, vt, verbose, song, n - 1) + (if !verbose && opt_at(
            vt,
            n - 1,
        ) {
            Seq::empty()
        } else {
            seq![opt_or_unknown(spec_metadata(song, format[n - 1]@))]
        })
    }
}

/// One rendered queue row: a marker and inverse styling on the current
/// track, the right-aligned 1-based index, then the visible tag values
/// joined by the column separator.
pub open spec fn spec_format_song(
    d: MusicData,
    song: Track,
    index: nat,
    padding: int,
    is_curr: bool,
) -> Seq<char> {
    (if is_curr {
        "\x1b[7m"@
    } else {
        Seq::empty()
    }) + (if is_curr {
        ">"@
    } else {
        " "@
    }) + " "@ + spec_pad_num(index, padding) + "  "@ + join_sep(
        spec_tag_vals_prefix(d.format@, d.verbose_tags@, d.verbose, song, d.format@.len() as int),
        "  *  "@,
    ) + (if is_curr {
        "\x1b[0m"@
    } else {
        Seq::empty()
    })
}

/// A row that carries the current-track marker: it starts with the marker
/// glyph or with the styling escape.
pub open spec fn starts_marker(l: Seq<char>) -> bool {
    l.len() > 0 && (l[0] == '>' || l[0] == '\x1b')
}

/// The focus row after wrapping: the last row that carries the marker, or
/// the first row when none does.
pub open spec fn spec_marker_pos(lines: Seq<Seq<char>>) -> int
    decreases lines.len(),
{
    if lines.len() == 0 {
        0
    } else if starts_marker(lines.last()) {
        lines.len() - 1
    } else {
        spec_marker_pos(lines.drop_last())
    }
}

/// The rows of the whole queue as rendered, before any cropping.
pub open spec fn spec_queue_lines(d: MusicData, padding: int, pos: int) -> Seq<Seq<char>> {
    Seq::new(
        d.queue@.len(),
        |i: int| spec_format_song(d, d.queue@[i], (i + 1) as nat, padding, i == pos),
    )
}

/// The position of the current track, counting from the start of the queue;
/// a track without a place counts as the first.
pub open spec fn spec_song_pos(d: MusicData) -> int {
    match d.song.place {
        Some(p) => p as int,
        None => 0,
    }
}

/// The queue body: rows rendered, cropped around the current track, wrapped
/// to the width, cropped again around the marker row, joined, and padded
/// with blank lines up to the window height.
pub open spec fn spec_print_queue(d: MusicData, height: int, width: int, header_height: int) -> Seq<
    char,
> {
    let qh = if header_height <= height {
        height - header_height
    } else {
        0
    };
    let qs = d.queue@.len() as int;
    let pos = spec_song_pos(d);
    let padding = dec_str(qs as nat).len() as int;
    let lines = spec_queue_lines(d, padding, pos);
    let crop1 = spec_filter_queue(lines, qh, qs, pos);
    let wrapped = wrap_lines(join_sep(crop1, "\n"@), width);
    let crop2 = spec_filter_queue(wrapped, qh, wrapped.len() as int, spec_marker_pos(wrapped));
    join_sep(crop2, "\n"@) + repeat_char(
        '\n',
        (if qh - crop2.len() >= 0 {
            qh - crop2.len()
        } else {
            0
        }) as nat,
    )
}

/// The full display text for a given terminal size: the wrapped header,
/// then the queue body under it.
pub open spec fn spec_render(d: MusicData, height: int, width: int) -> Seq<char> {
    let wrapped_header = wrap_lines(spec_print_header(d), width);
    join_sep(wrapped_header, "\n"@) + "\n"@ + spec_print_queue(
        d,
        height,
        width,
        wrapped_header.len() as int,
    )
}

/// One full redraw: the display text framed by the clear-screen and
/// home-cursor escape sequences.
pub open spec fn spec_full_redraw(d: MusicData, height: int, width: int) -> Seq<char> {
    "\x1b[2J"@ + spec_render(d, height, width) + "\x1b[H"@
}

impl MusicData {
    /// The four-line colorized header.
    pub fn print_header(&self) -> (r: String)
        ensures
            r@ == spec_print_header(*self),
    {
        let mut r = self.header_line1();
        r.append("\n");
        let l2 = self.header_line2();
        r.append(l2.as_str());
        r.append("\n");
        let l3 = self.header_line3();
        r.append(l3.as_str());
        r.append("\n");
        let l4 = self.header_line4();
        r.append(l4.as_str());
        proof {
            assert(r@ =~= spec_print_header(*self));
        }
        r
    }

    fn header_line1(&self) -> (r: String)
        ensures
            r@ == spec_header_line1(*self),
    {
        let mut r = String::from_str("\x1b[1;36m");
        let artist = opt_str_or_unknown(&self.artist);
        r.append(artist.as_str());
        r.append("\x1b[0m");
        r.append(" * ");
        r.append("\x1b[1;34m");
        let title = match &self.title {
            Some(t) => t.clone(),
            None => basename(self.song.file.as_str()),
        };
        r.append(title.as_str());
        r.append("\x1b[0m");
        proof {
            assert(r@ =~= spec_header_line1(*self));
        }
        r
    }

    fn header_line2(&self) -> (r: String)
        ensures
            r@ == spec_header_line2(*self),
    {
        let mut r = String::from_str("(");
        r.append("\x1b[32m");
        r.append("#");
        let at = opt_num_text(self.album_track);
        r.append(at.as_str());
        r.append("/");
        let tot = opt_num_text(self.album_total);
        r.append(tot.as_str());
        r.append("\x1b[0m");
        r.append(") ");
        r.append("\x1b[36m");
        let album = opt_str_or_unknown(&self.album);
        r.append(album.as_str());
        r.append("\x1b[0m");
        r.append(" ");
        r.append("\x1b[33m");
        r.append("(");
        let date = opt_str_or_unknown(&self.date);
        r.append(date.as_str());
        r.append(")");
        r.append("\x1b[0m");
        proof {
            assert(r@ =~= spec_header_line2(*self));
        }
        r
    }

    fn header_line3(&self) -> (r: String)
        ensures
            r@ == spec_header_line3(*self),
    {
        let mut r = String::from_str(if self.state == PlayState::Play {
            "\x1b[32m"
        } else {
            "\x1b[31m"
        });
        r.append(
            match self.state {
                PlayState::Play => "|>",
                PlayState::Pause => "[]",
                PlayState::Stop => "><",
            },
        );
        r.append(" ");
        let qt = match self.queue_track {
            Some(p) => u128_to_string(p as u128 + 1),
            None => String::from_str("?"),
        };
        r.append(qt.as_str());
        r.append("/");
        let tot = opt_num_text(self.queue_total);
        r.append(tot.as_str());
        r.append(": ");
        let elapsed = opt_time_text(self.time_curr);
        r.append(elapsed.as_str());
        r.append("/");
        let duration = opt_time_text(self.time_total);
        r.append(duration.as_str());
        r.append(", ");
        let percent = self.percent_text();
        r.append(percent.as_str());
        r.append("%");
        r.append("\x1b[0m");
        r.append("  ");
        r.append("\x1b[35;1m");
        let rating = self.get_rating();
        r.append(rating.as_str());
        r.append("\x1b[0m");
        proof {
            assert(r@ =~= spec_header_line3(*self));
        }
        r
    }

    fn header_line4(&self) -> (r: String)
        ensures
            r@ == spec_header_line4(*self),
    {
        let mut r = String::from_str(if self.state == PlayState::Play {
            "\x1b[32m"
        } else {
            "\x1b[31m"
        });
        let ersc = self.get_ersc();
        r.append(ersc.as_str());
        r.append(", ");
        let vol = i64_to_string(self.volume as i64);
        r.append(vol.as_str());
        r.append("%");
        match self.crossfade {
            Some(t) => {
                r.append(" (x: ");
                let secs = u128_to_string(t as u128);
                r.append(secs.as_str());
                r.append(")");
            },
            None => {},
        }
        r.append("\x1b[0m");
        proof {
            assert(r@ =~= spec_header_line4(*self));
        }
        r
    }

    fn percent_text(&self) -> (r: String)
        ensures
            r@ == spec_percent_text(*self),
    {
        match (self.time_curr, self.time_total) {
            (Some(c), Some(t)) => {
                if t == 0 {
                    String::from_str("?")
                } else {
                    u128_to_string((100u128 * c as u128) / (t as u128))
                }
            },
            _ => String::from_str("?"),
        }
    }

    /// One rendered queue row.
    pub fn format_song(&self, song: &Track, index: u64, padding: usize, is_curr: bool) -> (r:
        String)
        ensures
            r@ == spec_format_song(*self, *song, index as nat, padding as int, is_curr),
    {
        let mut tags: Vec<String> = Vec::new();
        let mut i: usize = 0;
        while i < self.format.len()
            invariant
                i <= self.format.len(),
                tags.deep_view() =~= spec_tag_vals_prefix(
                    self.format@,
                    self.verbose_tags@,
                    self.verbose,
                    *song,
                    i as int,
                ),
            decreases self.format.len() - i,
        {
            let suppressed = i < self.verbose_tags.len() && self.verbose_tags[i];
            if self.verbose || !suppressed {
                let v = match crate::track::get_metadata(song, self.format[i].as_str()) {
                    Some(s) => s,
                    None => String::from_str("?"),
                };
                let ghost prev = tags.deep_view();
                tags.push(v);
                proof {
                    assert forall|k: int| 0 <= k < tags.deep_view().len() implies tags.deep_view()[k]
                        == (prev + seq![
                        opt_or_unknown(spec_metadata(*song, self.format@[i as int]@)),
                    ])[k] by {
                        if k < prev.len() {
                            assert(tags@[k] == tags@.subrange(0, tags@.len() - 1)[k]);
                        }
                    }
                    assert(tags.deep_view() =~= spec_tag_vals_prefix(
                        self.format@,
                        self.verbose_tags@,
                        self.verbose,
                        *song,
                        i + 1 as int,
                    ));
                }
            }
            i += 1;
        }
        let songtext = join_with(&tags, "  *  ");
        let padded = pad_num(index, padding);
        let mut r = String::new();
        if is_curr {
            r.append("\x1b[7m");
            r.append(">");
        } else {
            r.append(" ");
        }
        r.append(" ");
        r.append(padded.as_str());
        r.append("  ");
        r.append(songtext.as_str());
        if is_curr {
            r.append("\x1b[0m");
        }
        proof {
            reveal_strlit(">");
            reveal_strlit(" ");
            assert(r@ =~= spec_format_song(*self, *song, index as nat, padding as int, is_curr));
        }
        r
    }

    /// The queue body: one row per track, the current one marked, cropped
    /// around it, wrapped to the width, cropped again, and padded with
    /// blank lines to the window height.
    pub fn print_queue(&self, height: usize, width: usize, header_height: usize) -> (r: String)
        ensures
            r@ == spec_print_queue(*self, height as int, width as int, header_height as int),
    {
        let queue_height = if header_height <= height {
            height - header_height
        } else {
            0
        };
        let queue_size = self.queue.len();
        let song_pos_n = match self.song.place {
            Some(p) => p,
            None => 0,
        };
        let song_pos = song_pos_n as usize;
        let num = u128_to_string(queue_size as u128);
        let padding = num.unicode_len();
        let mut lines: Vec<String> = Vec::new();
        let mut i: usize = 0;
        while i < queue_size
            invariant
                i <= queue_size,
                queue_size == self.queue@.len(),
                song_pos == spec_song_pos(*self),
                padding == dec_str(queue_size as nat).len(),
                lines.deep_view() =~= spec_queue_lines(*self, padding as int, song_pos as int).take(
                    i as int,
                ),
            decreases queue_size - i,
        {
            let row = self.format_song(&self.queue[i], (i as u64) + 1, padding, i == song_pos);
            let ghost prev_dv = lines.deep_view();
            let ghost prev_at = lines@;
            let ghost rowv = row@;
            lines.push(row);
            proof {
                let full = spec_queue_lines(*self, padding as int, song_pos as int);
                assert(full.len() == queue_size as int);
                assert(rowv == full[i as int]);
                assert(prev_dv.len() == prev_at.len());
                assert(prev_at.len() == i as int);
                assert forall|k: int| 0 <= k < lines.deep_view().len() implies lines.deep_view()[k]
                    == full.take(i + 1 as int)[k] by {
                    assert(lines.deep_view()[k] == lines@[k].deep_view());
                    if k < prev_at.len() {
                        assert(lines@[k] == prev_at[k]);
                        assert(prev_dv[k] == prev_at[k].deep_view());
                        assert(full.take(i + 1 as int)[k] == full[k]);
                        assert(full.take(i as int)[k] == full[k]);
                    } else {
                        assert(k == i as int);
                        assert(lines@[k]@ == rowv);
                        assert(full.take(i + 1 as int)[k] == full[k]);
                    }
                }
                assert(lines.deep_view() =~= full.take(i + 1 as int));
            }
            i += 1;
        }
        proof {
            assert(lines.deep_view() =~= spec_queue_lines(
                *self,
                padding as int,
                song_pos as int,
            ));
        }
        let cropped = filter_queue(&lines, queue_height, queue_size, song_pos);
        let joined = join_with(&cropped, "\n");
        let wrapped = wrap_text(joined.as_str(), width);
        let marker = find_marker(&wrapped);
        let cropped2 = filter_queue(&wrapped, queue_height, wrapped.len(), marker);
        let mut out = join_with(&cropped2, "\n");
        let pad = queue_height - cropped2.len();
        push_newlines(&mut out, pad);
        proof {
            assert(out@ =~= spec_print_queue(
                *self,
                height as int,
                width as int,
                header_height as int,
            ));
        }
        out
    }

    /// The full display text for the given terminal size: wrapped header,
    /// then the queue window under it.
    pub fn render_with_size(&self, height: u32, width: u32) -> (r: String)
        ensures
            r@ == spec_render(*self, height as int, width as int),
    {
        let header = self.print_header();
        let wrapped = wrap_text(header.as_str(), width as usize);
        let mut r = join_with(&wrapped, "\n");
        r.append("\n");
        let body = self.print_queue(height as usize, width as usize, wrapped.len());
        r.append(body.as_str());
        proof {
            assert(r@ =~= spec_render(*self, height as int, width as int));
        }
        r
    }

    /// One full redraw at the terminal's current size (24 by 80 when it
    /// cannot be read), framed by the clear-screen and home-cursor escapes.
    pub fn render(&self) -> (r: String)
        ensures
            exists|h: u32, w: u32| r@ == spec_full_redraw(*self, h as int, w as int),
    {
        let dims = query_terminal_size();
        let (height, width) = viewport_or_default(dims);
        let body = self.render_with_size(height, width);
        let mut r = String::from_str("\x1b[2J");
        r.append(body.as_str());
        r.append("\x1b[H");
        proof {
            assert(r@ =~= spec_full_redraw(*self, height as int, width as int));
        }
        r
    }
}

/// The terminal dimensions to use, as (height, width): the reported cells,
/// or the fixed 24 by 80 default when the size is unknown.
pub fn viewport_or_default(dims: Option<(u16, u16)>) -> (r: (u32, u32))
    ensures
        r.0 == (match dims {
            Some(p) => p.1 as u32,
            None => 24u32,
        }),
        r.1 == (match dims {
            Some(p) => p.0 as u32,
            None => 80u32,
        }),
{
    match dims {
        Some((w, h)) => (h as u32, w as u32),
        None => (24, 80),
    }
}

/// An optional string, or the placeholder.
fn opt_str_or_unknown(o: &Option<String>) -> (r: String)
    ensures
        r@ == opt_or_unknown(opt_view(*o)),
{
    match o {
        Some(s) => s.clone(),
        None => String::from_str("?"),
    }
}

/// An optional number in decimal, or the placeholder.
fn opt_num_text(o: Option<u32>) -> (r: String)
    ensures
        r@ == opt_num_or_unknown(o),
{
    match o {
        Some(n) => u128_to_string(n as u128),
        None => String::from_str("?"),
    }
}

/// An optional duration pretty-printed, or the placeholder.
fn opt_time_text(o: Option<u64>) -> (r: String)
    ensures
        r@ == opt_time_or_unknown(o),
{
    match MusicData::get_pretty_time(o) {
        Some(s) => s,
        None => String::from_str("?"),
    }
}

/// The number right-aligned with spaces to at least `width` characters.
fn pad_num(n: u64, width: usize) -> (r: String)
    ensures
        r@ == spec_pad_num(n as nat, width as int),
{
    let digits = u128_to_string(n as u128);
    let len = digits.as_str().unicode_len();
    let pad = if width > len {
        width - len
    } else {
        0
    };
    let mut r = repeat_str(" ", pad);
    r.append(digits.as_str());
    proof {
        reveal_strlit(" ");
        lemma_repeat_one_char(pad as nat);
        assert(r@ =~= spec_pad_num(n as nat, width as int));
    }
    r
}

/// Repeating a one-character piece is repeating its character.
proof fn lemma_repeat_one_char(n: nat)
    ensures
        repeat_seq(" "@, n) == repeat_char(' ', n),
    decreases n,
{
    reveal_strlit(" ");
    if n > 0 {
        lemma_repeat_one_char((n - 1) as nat);
        assert(repeat_seq(" "@, n) =~= repeat_char(' ', n));
    } else {
        assert(repeat_seq(" "@, n) =~= repeat_char(' ', n));
    }
}

/// The wrapped row carrying the marker: the last one that starts with the
/// marker glyph or the styling escape, or row 0 when none does.
fn find_marker(lines: &Vec<String>) -> (r: usize)
    ensures
        r as int == spec_marker_pos(lines.deep_view()),
{
    let mut i: usize = lines.len();
    proof {
        assert(lines.deep_view().take(lines@.len() as int) =~= lines.deep_view());
    }
    while i > 0
        invariant
            i <= lines.len(),
            lines.deep_view().len() == lines@.len(),
            spec_marker_pos(lines.deep_view()) == spec_marker_pos(
                lines.deep_view().take(i as int),
            ),
        decreases i,
    {
        let line = &lines[i - 1];
        let len = line.as_str().unicode_len();
        if len > 0 {
            let c = line.as_str().get_char(0);
            if c == '>' || c == '\x1b' {
                proof {
                    let dv = lines.deep_view();
                    assert(dv.take(i as int).last() == dv[i - 1]);
                    assert(starts_marker(dv[i - 1]));
                }
                return i - 1;
            }
        }
        proof {
            let dv = lines.deep_view();
            assert(dv.take(i as int).last() == dv[i - 1]);
            assert(!starts_marker(dv[i - 1]));
            assert(dv.take(i as int).drop_last() =~= dv.take(i - 1 as int));
        }
        i -= 1;
    }
    proof {
        assert(lines.deep_view().take(0) =~= Seq::<Seq<char>>::empty());
    }
    0
}

/// The literal fallback shown for an unusable rating sticker.
fn rating_fallback(r: &str) -> (s: String)
    ensures
        s@ == spec_rating_fallback(r@),
{
    let mut s = String::from_str("rating: ");
    s.append(r);
    s
}

/// One grade of the other rating scale.
fn christgau(k: u32) -> (r: &'static str)
    requires
        k <= 10,
    ensures
        r@ == spec_christgau(k as int),
{
    match k {
        0 => "\u{1f983}",
        1 => "\u{1f4a3}",
        2 => " \u{2702}\u{fe0f}",
        3 => "\u{1f610}",
        4 => "\u{2b50}",
        5 => "\u{2b50} \u{2b50}",
        6 => "\u{2b50} \u{2b50} \u{2b50}",
        7 => "B+",
        8 => "A-",
        9 => "A",
        _ => "A+",
    }
}

} // verus!
