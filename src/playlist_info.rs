//! The status display: the text it shows for a guild, and the decisions of
//! the background task that keeps it refreshed.
use std::collections::VecDeque;
use vstd::prelude::*;

use crate::server_info::SongLink;
use crate::text::{decimal, push_decimal, push_str, push_two_digits, two_digits};
use crate::trimmed_embed::{
    finished, fresh, with_description, BuilderView, Embed, EmbedView, Size, TrimmedEmbed,
    TrimmedEmbedView,
};

verus! {

broadcast use vstd::std_specs::vecdeque::group_vec_dequeue_axioms;

/// Square brackets would break the link markup, so they become round ones.
pub open spec fn clean_char(c: char) -> char {
    if c == '[' {
        '('
    } else if c == ']' {
        ')'
    } else {
        c
    }
}

pub open spec fn clean_title(t: Seq<char>) -> Seq<char> {
    t.map_values(|c: char| clean_char(c))
}

/// `title` with `[` and `]` replaced by `(` and `)`.
pub fn clean_song_title(title: &str) -> (r: String)
    ensures
        r@ == clean_title(title@),
{
    let mut r = String::new();
    let ghost mut done: int = 0;
    for c in it: title.chars()
        invariant
            it.seq() == title@,
            done == it.index(),
            0 <= done <= title@.len(),
            r@ == clean_title(title@.take(done)),
    {
        let d = if c == '[' {
            '('
        } else if c == ']' {
            ')'
        } else {
            c
        };
        r.push(d);
        proof {
            assert(title@.take(done + 1) =~= title@.take(done).push(c));
            assert(r@ =~= clean_title(title@.take(done + 1)));
            done = done + 1;
        }
    }
    proof {
        assert(title@.take(done) =~= title@);
    }
    r
}

/// `secs` as `h:mm:ss`, or `m:ss` below an hour.
pub open spec fn duration_text(secs: nat) -> Seq<char> {
    let s = secs % 60;
    let m = (secs / 60) % 60;
    let h = (secs / 60) / 60;
    if h > 0 {
        decimal(h) + ":"@ + two_digits(m) + ":"@ + two_digits(s)
    } else {
        decimal(m) + ":"@ + two_digits(s)
    }
}

/// A duration of `secs` seconds as `h:mm:ss`, or `m:ss` below an hour.
pub fn format_duration(secs: u64) -> (r: String)
    ensures
        r@ == duration_text(secs as nat),
{
    let seconds = secs % 60;
    let minutes = (secs / 60) % 60;
    let hours = (secs / 60) / 60;
    let mut r = String::new();
    if hours > 0 {
        push_decimal(&mut r, hours);
        push_str(&mut r, ":");
        push_two_digits(&mut r, minutes);
        push_str(&mut r, ":");
        push_two_digits(&mut r, seconds);
    } else {
        push_decimal(&mut r, minutes);
        push_str(&mut r, ":");
        push_two_digits(&mut r, seconds);
    }
    proof {
        assert(r@ =~= duration_text(secs as nat));
    }
    r
}

/// One history line: the cleaned title, linked when there is a URL.
pub open spec fn history_line(s: SongLink) -> Seq<char> {
    match s.url {
        Some(u) => "* ["@ + clean_title(s.title@) + "]("@ + u@ + ")\n"@,
        None => "* "@ + clean_title(s.title@) + "\n"@,
    }
}

pub open spec fn history_lines(s: Seq<SongLink>) -> Seq<char>
    decreases s.len(),
{
    if s.len() == 0 {
        Seq::empty()
    } else {
        history_lines(s.drop_last()) + history_line(s.last())
    }
}

pub open spec fn previously_played_text(s: Seq<SongLink>) -> Seq<char> {
    "### Previously Played\n"@ + history_lines(s)
}

/// The history section: a heading, then one line per finished track,
/// oldest first.
pub fn build_previously_played(songs: &VecDeque<SongLink>) -> (r: String)
    ensures
        r@ == previously_played_text(songs@),
{
    let mut r = String::new();
    push_str(&mut r, "### Previously Played\n");
    let mut i: usize = 0;
    while i < songs.len()
        invariant
            0 <= i <= songs@.len(),
            r@ == previously_played_text(songs@.take(i as int)),
        decreases songs@.len() - i,
    {
        let song = &songs[i];
        let title = clean_song_title(song.title.as_str());
        match &song.url {
            Some(url) => {
                push_str(&mut r, "* [");
                push_str(&mut r, title.as_str());
                push_str(&mut r, "](");
                push_str(&mut r, url.as_str());
                push_str(&mut r, ")\n");
            },
            None => {
                push_str(&mut r, "* ");
                push_str(&mut r, title.as_str());
                push_str(&mut r, "\n");
            },
        }
        proof {
            let next = songs@.take(i + 1);
            assert(next.drop_last() =~= songs@.take(i as int));
            assert(r@ =~= previously_played_text(next));
        }
        i = i + 1;
    }
    proof {
        assert(songs@.take(i as int) =~= songs@);
    }
    r
}

/// What is known of the track being played.
#[derive(Clone, Debug)]
pub struct NowPlaying {
    pub title: String,
    pub url: Option<String>,
    /// How far it has played; `None` when the transport did not say in time.
    pub position_secs: Option<u64>,
    pub length_secs: u64,
}

pub open spec fn position_text(p: Option<u64>) -> Seq<char> {
    match p {
        Some(secs) => duration_text(secs as nat),
        None => "?"@,
    }
}

pub open spec fn now_playing_head(np: NowPlaying) -> Seq<char> {
    let progress = "[ "@ + position_text(np.position_secs) + " / "@ + duration_text(
        np.length_secs as nat,
    ) + " ]\n"@;
    match np.url {
        Some(u) => "["@ + np.title@ + "]("@ + u@ + ")\n"@ + progress,
        None => np.title@ + "\n"@ + progress,
    }
}

/// One upcoming entry, numbered from 1.
pub open spec fn up_next_line(i: nat, s: SongLink) -> Seq<char> {
    match s.url {
        Some(u) => decimal(i + 1) + ". ["@ + s.title@ + "]("@ + u@ + ")\n"@,
        None => decimal(i + 1) + ". "@ + s.title@ + "\n"@,
    }
}

pub open spec fn up_next_lines(s: Seq<SongLink>) -> Seq<char>
    decreases s.len(),
{
    if s.len() == 0 {
        Seq::empty()
    } else {
        up_next_lines(s.drop_last()) + up_next_line((s.len() - 1) as nat, s.last())
    }
}

pub open spec fn now_playing_text(np: NowPlaying, up_next: Seq<SongLink>) -> Seq<char> {
    "### Now Playing\n"@ + now_playing_head(np) + if up_next.len() > 0 {
        "\n### Up Next:\n"@ + up_next_lines(up_next)
    } else {
        Seq::empty()
    }
}

/// The now-playing section: the current track with its progress, then the
/// numbered entries after it, if any.
pub fn build_now_playing(np: &NowPlaying, up_next: &Vec<SongLink>) -> (r: String)
    ensures
        r@ == now_playing_text(*np, up_next@),
{
    let mut r = String::new();
    push_str(&mut r, "### Now Playing\n");
    match &np.url {
        Some(url) => {
            push_str(&mut r, "[");
            push_str(&mut r, np.title.as_str());
            push_str(&mut r, "](");
            push_str(&mut r, url.as_str());
            push_str(&mut r, ")\n");
        },
        None => {
            push_str(&mut r, np.title.as_str());
            push_str(&mut r, "\n");
        },
    }
    push_str(&mut r, "[ ");
    match np.position_secs {
        Some(p) => {
            let pos = format_duration(p);
            push_str(&mut r, pos.as_str());
        },
        None => {
            push_str(&mut r, "?");
        },
    }
    push_str(&mut r, " / ");
    let length = format_duration(np.length_secs);
    push_str(&mut r, length.as_str());
    push_str(&mut r, " ]\n");
    proof {
        assert(r@ =~= "### Now Playing\n"@ + now_playing_head(*np));
    }
    let ghost head = r@;
    if up_next.len() > 0 {
        push_str(&mut r, "\n### Up Next:\n");
    }
    let ghost before_lines = r@;
    let mut i: usize = 0;
    while i < up_next.len()
        invariant
            0 <= i <= up_next@.len(),
            r@ == before_lines + up_next_lines(up_next@.take(i as int)),
        decreases up_next@.len() - i,
    {
        let song = &up_next[i];
        let ghost at = r@;
        push_decimal(&mut r, i as u64 + 1);
        match &song.url {
            Some(url) => {
                push_str(&mut r, ". [");
                push_str(&mut r, song.title.as_str());
                push_str(&mut r, "](");
                push_str(&mut r, url.as_str());
                push_str(&mut r, ")\n");
            },
            None => {
                push_str(&mut r, ". ");
                push_str(&mut r, song.title.as_str());
                push_str(&mut r, "\n");
            },
        }
        proof {
            let next = up_next@.take(i + 1);
            assert(next.drop_last() =~= up_next@.take(i as int));
            assert(r@ =~= at + up_next_line(i as nat, up_next@[i as int]));
            assert(r@ =~= before_lines + up_next_lines(next));
        }
        i = i + 1;
    }
    proof {
        assert(up_next@.take(i as int) =~= up_next@);
        assert(r@ =~= now_playing_text(*np, up_next@));
    }
    r
}

/// What the voice transport says about a guild right now.
#[derive(Clone, Debug)]
pub enum NowPlayingResult {
    /// The bot is in no voice channel of the guild.
    NotInChannel,
    /// In a channel, with nothing playing.
    NotPlaying,
    /// The now-playing section to show.
    Playing(String),
}

/// The now-playing section to show, and whether the bot has left the voice
/// channel (so the display should stop being refreshed).
pub open spec fn now_playing_section(np: NowPlayingResult) -> (Seq<char>, bool) {
    match np {
        NowPlayingResult::NotInChannel => ("### Nothing playing"@, true),
        NowPlayingResult::NotPlaying => ("### Nothing playing"@, false),
        NowPlayingResult::Playing(t) => (t@, false),
    }
}

/// The guild's name, or the name used when it could not be looked up.
pub open spec fn radio_name_text(name: Option<String>) -> Seq<char> {
    match name {
        Some(n) => n@,
        None => "Hroi"@,
    }
}

pub open spec fn help_text(radio: Seq<char>, commands: Seq<char>) -> Seq<char> {
    "### Welcome to the "@ + radio + "-Radio!\n\n**Controls:**\n```\n"@ + commands + "```\n"@
}

pub const HELP_COLOUR: u32 = 0x1F8B4C;

pub const HISTORY_COLOUR: u32 = 0x71368A;

pub const NOW_PLAYING_COLOUR: u32 = 0x3498DB;

pub open spec fn coloured(b: BuilderView, colour: u32) -> BuilderView {
    BuilderView { embed: EmbedView { colour: Some(colour), ..b.embed }, ..b }
}

/// Settings of the history and now-playing embeds: a short note, and cuts
/// at line boundaries.
pub open spec fn section_settings() -> TrimmedEmbedView {
    TrimmedEmbedView { too_big_msg: "..."@, newline: true }
}

/// The three embeds of the status display, sharing one size budget: help,
/// history, now playing.
pub open spec fn info_embeds(help: Seq<char>, history: Seq<char>, now: Seq<char>) -> Seq<EmbedView> {
    let (b1, u1) = with_description(
        fresh(
            TrimmedEmbedView {
                too_big_msg: "Too much data, some fields have been skipped."@,
                newline: false,
            },
        ),
        0,
        help,
    );
    let (b2, u2) = with_description(fresh(section_settings()), u1, history);
    let (b3, u3) = with_description(fresh(section_settings()), u2, now);
    seq![
        finished(coloured(b1, HELP_COLOUR)),
        finished(coloured(b2, HISTORY_COLOUR)),
        finished(coloured(b3, NOW_PLAYING_COLOUR)),
    ]
}

/// The status display for a guild, and whether the bot has left its voice
/// channel.
pub fn get_playlist_info_embeds(
    history: &VecDeque<SongLink>,
    now_playing: NowPlayingResult,
    radio_name: Option<String>,
    commands_info: &str,
) -> (r: (Vec<Embed>, bool))
    ensures
        r.1 == now_playing_section(now_playing).1,
        r.0@.map_values(|e: Embed| e@) == info_embeds(
            help_text(radio_name_text(radio_name), commands_info@),
            previously_played_text(history@),
            now_playing_section(now_playing).0,
        ),
{
    let history_text = build_previously_played(history);
    let (now_playing_text, not_in_channel) = match now_playing {
        NowPlayingResult::NotInChannel => (String::from_str("### Nothing playing"), true),
        NowPlayingResult::NotPlaying => (String::from_str("### Nothing playing"), false),
        NowPlayingResult::Playing(text) => (text, false),
    };
    let radio = match radio_name {
        Some(n) => n,
        None => String::from_str("Hroi"),
    };
    let mut help = String::new();
    push_str(&mut help, "### Welcome to the ");
    push_str(&mut help, radio.as_str());
    push_str(&mut help, "-Radio!\n\n**Controls:**\n```\n");
    push_str(&mut help, commands_info);
    push_str(&mut help, "```\n");
    proof {
        assert(help@ =~= help_text(radio_name_text(radio_name), commands_info@));
    }
    let mut size = Size::new();
    let e1 = TrimmedEmbed::new().description(&mut size, help).color(HELP_COLOUR).into_embed();
    let e2 = TrimmedEmbed::new().too_big_msg("...").truncate_description_newline().description(
        &mut size,
        history_text,
    ).color(HISTORY_COLOUR).into_embed();
    let e3 = TrimmedEmbed::new().too_big_msg("...").truncate_description_newline().description(
        &mut size,
        now_playing_text,
    ).color(NOW_PLAYING_COLOUR).into_embed();
    let embeds = vec![e1, e2, e3];
    proof {
        assert(embeds@.map_values(|e: Embed| e@) =~= info_embeds(
            help_text(radio_name_text(radio_name), commands_info@),
            previously_played_text(history@),
            now_playing_section(now_playing).0,
        ));
    }
    (embeds, not_in_channel)
}

/// Time from the start of one refresh cycle to the start of the next.
pub const REFRESH_PERIOD_MS: u64 = 2000;

/// A refresh cycle still running after this long is abandoned.
pub const REFRESH_TIMEOUT_MS: u64 = 5000;

/// The longest pause between two refresh cycles.
pub const MAX_REFRESH_SLEEP_MS: u64 = 1500;

/// The pause before the next refresh cycle, after one that took
/// `elapsed_ms`: what is left of the period, at most `MAX_REFRESH_SLEEP_MS`.
pub fn refresh_sleep_ms(elapsed_ms: u64) -> (r: u64)
    ensures
        r == if elapsed_ms >= REFRESH_PERIOD_MS {
            0
        } else if REFRESH_PERIOD_MS - elapsed_ms > MAX_REFRESH_SLEEP_MS {
            MAX_REFRESH_SLEEP_MS as int
        } else {
            REFRESH_PERIOD_MS - elapsed_ms
        },
{
    let rest = REFRESH_PERIOD_MS.saturating_sub(elapsed_ms);
    if rest > MAX_REFRESH_SLEEP_MS {
        MAX_REFRESH_SLEEP_MS
    } else {
        rest
    }
}

/// How often a call that may hang is tried.
pub const HANGING_CALL_ATTEMPTS: u32 = 3;

/// How long each try of a call that may hang is given.
pub const HANGING_CALL_TIMEOUT_MS: u64 = 1000;

/// What to do next with a call that may hang.
#[derive(Clone, Copy, Debug, PartialEq, Eq, Structural)]
pub enum AttemptStep {
    /// Start the call again, and give it `HANGING_CALL_TIMEOUT_MS`.
    Attempt,
    /// Give up: every try timed out.
    Exhausted,
}

/// The tries made so far of a call that may hang forever. The caller races
/// each try against its timeout and stops at the first that completes.
#[derive(Debug)]
pub struct HangingCall {
    attempts: u32,
}

/// One decision: from `attempts` tries made, the tries made after it and
/// whether it is to try again.
pub open spec fn attempt_step(attempts: nat) -> (nat, bool) {
    if attempts < HANGING_CALL_ATTEMPTS {
        (attempts + 1, true)
    } else {
        (attempts, false)
    }
}

/// Tries made after `n` decisions on a call that never completes.
pub open spec fn attempts_after(n: nat) -> nat
    decreases n,
{
    if n == 0 {
        0
    } else {
        attempt_step(attempts_after((n - 1) as nat)).0
    }
}

/// The time spent waiting on tries that timed out.
pub open spec fn waited_ms(attempts: nat) -> nat {
    (attempts * HANGING_CALL_TIMEOUT_MS) as nat
}

impl HangingCall {
    pub closed spec fn attempts(&self) -> nat {
        self.attempts as nat
    }

    /// No tries yet.
    pub fn new() -> (r: Self)
        ensures
            r.attempts() == 0,
    {
        HangingCall { attempts: 0 }
    }

    /// Decides whether to try again after the tries so far all timed out.
    pub fn next_step(&mut self) -> (r: AttemptStep)
        ensures
            (final(self).attempts(), r == AttemptStep::Attempt) == attempt_step(old(self).attempts()),
    {
        if self.attempts < HANGING_CALL_ATTEMPTS {
            self.attempts = self.attempts + 1;
            AttemptStep::Attempt
        } else {
            AttemptStep::Exhausted
        }
    }
}

/// A call that never completes is tried exactly `HANGING_CALL_ATTEMPTS`
/// times: the first three decisions start a try, every later one gives up,
/// and by then three timeouts, 3000 ms, have been waited out.
pub proof fn lemma_hanging_call_exhausts(n: nat)
    ensures
        attempt_step(attempts_after(n)).1 <==> n < HANGING_CALL_ATTEMPTS,
        n >= HANGING_CALL_ATTEMPTS ==> attempts_after(n) == HANGING_CALL_ATTEMPTS,
        n >= HANGING_CALL_ATTEMPTS ==> waited_ms(attempts_after(n)) == 3000,
    decreases n,
{
    if n > 0 {
        lemma_hanging_call_exhausts((n - 1) as nat);
    }
    if n <= HANGING_CALL_ATTEMPTS {
        assert(attempts_after(n) == n) by {
            reveal_with_fuel(attempts_after, 4);
        }
    }
}

} // verus!
