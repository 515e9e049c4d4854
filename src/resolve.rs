//! From what the audio resolver found to queue entries, and the reply that
//! names what was added.
use vstd::prelude::*;

use crate::queue::{QueueError, Song};
use crate::text::push_str;
use crate::trimmed_embed::opt_view;

verus! {

/// Whether `s` starts with `http`.
pub open spec fn starts_with_http(s: Seq<char>) -> bool {
    &&& s.len() >= 4
    &&& s[0] == 'h'
    &&& s[1] == 't'
    &&& s[2] == 't'
    &&& s[3] == 'p'
}

/// A query that is not a URL is searched for; a URL is played as it is.
pub fn is_search_query(query: &str) -> (r: bool)
    ensures
        r == !starts_with_http(query@),
{
    if query.unicode_len() < 4 {
        return true;
    }
    !(query.get_char(0) == 'h' && query.get_char(1) == 't' && query.get_char(2) == 't'
        && query.get_char(3) == 'p')
}

/// One result of the resolver, with what it could tell of it.
#[derive(Clone, Debug)]
pub struct SearchHit {
    pub title: Option<String>,
    pub source_url: Option<String>,
    pub duration_secs: Option<u64>,
}

pub open spec fn or_unknown(s: Option<String>) -> Seq<char> {
    match s {
        Some(t) => t@,
        None => "Unknown"@,
    }
}

fn or_unknown_string(s: &Option<String>) -> (r: String)
    ensures
        r@ == or_unknown(*s),
{
    match s {
        Some(t) => t.clone(),
        None => String::from_str("Unknown"),
    }
}

/// The queue entry for `query`, made from the first result of resolving
/// it; fails when there was none.
pub fn get_song_data(query: String, hits: Vec<SearchHit>) -> (r: Result<Song, QueueError>)
    ensures
        hits@.len() == 0 ==> r == Err::<Song, QueueError>(QueueError::ResolutionFailure),
        hits@.len() > 0 ==> (r matches Ok(song) && {
            let hit = hits@[0];
            &&& song.name@ == or_unknown(hit.title)
            &&& opt_view(song.url) == opt_view(hit.source_url)
            &&& song.source@ == query@
            &&& song.duration_secs == match hit.duration_secs {
                Some(d) => d,
                None => 0,
            }
        }),
{
    if hits.len() == 0 {
        return Err(QueueError::ResolutionFailure);
    }
    let hit = &hits[0];
    let name = or_unknown_string(&hit.title);
    let url = match &hit.source_url {
        Some(u) => Some(u.clone()),
        None => None,
    };
    let duration_secs = match hit.duration_secs {
        Some(d) => d,
        None => 0,
    };
    Ok(Song { name, url, source: query, duration_secs })
}

/// The most entries taken from one playlist.
pub const PLAYLIST_LIMIT: usize = 50;

/// Reading bytes left to right: the non-empty lines completed so far, and
/// the line being read.
pub open spec fn scan_lines(b: Seq<u8>) -> (Seq<Seq<u8>>, Seq<u8>)
    decreases b.len(),
{
    if b.len() == 0 {
        (Seq::empty(), Seq::empty())
    } else {
        let (done, cur) = scan_lines(b.drop_last());
        if b.last() == 10u8 {
            if cur.len() > 0 {
                (done.push(cur), Seq::empty())
            } else {
                (done, Seq::empty())
            }
        } else {
            (done, cur.push(b.last()))
        }
    }
}

/// The non-empty lines of `b`, in order, without their line feeds.
pub open spec fn nonempty_lines(b: Seq<u8>) -> Seq<Seq<u8>> {
    let (done, cur) = scan_lines(b);
    if cur.len() > 0 {
        done.push(cur)
    } else {
        done
    }
}

pub open spec fn lines_view(v: Seq<Vec<u8>>) -> Seq<Seq<u8>> {
    v.map_values(|l: Vec<u8>| l@)
}

/// The first `PLAYLIST_LIMIT` non-empty lines of a playlist listing, one
/// entry per line.
pub fn playlist_lines(output: &Vec<u8>) -> (r: Vec<Vec<u8>>)
    ensures
        lines_view(r@) == if nonempty_lines(output@).len() > PLAYLIST_LIMIT {
            nonempty_lines(output@).take(PLAYLIST_LIMIT as int)
        } else {
            nonempty_lines(output@)
        },
{
    let mut lines: Vec<Vec<u8>> = Vec::new();
    let mut cur: Vec<u8> = Vec::new();
    let mut i: usize = 0;
    while i < output.len()
        invariant
            0 <= i <= output@.len(),
            (lines_view(lines@), cur@) == scan_lines(output@.take(i as int)),
        decreases output@.len() - i,
    {
        let byte = output[i];
        proof {
            assert(output@.take(i + 1).drop_last() =~= output@.take(i as int));
        }
        if byte == 10u8 {
            if cur.len() > 0 {
                let ghost before = lines@;
                lines.push(cur);
                proof {
                    assert(lines_view(lines@) =~= lines_view(before).push(
                        scan_lines(output@.take(i as int)).1,
                    ));
                }
            }
            cur = Vec::new();
        } else {
            cur.push(byte);
        }
        i = i + 1;
    }
    proof {
        assert(output@.take(i as int) =~= output@);
    }
    if cur.len() > 0 {
        let ghost before = lines@;
        lines.push(cur);
        proof {
            assert(lines_view(lines@) =~= lines_view(before).push(scan_lines(output@).1));
        }
    }
    if lines.len() > PLAYLIST_LIMIT {
        let ghost before = lines@;
        lines.truncate(PLAYLIST_LIMIT);
        proof {
            assert(lines_view(lines@) =~= lines_view(before).take(PLAYLIST_LIMIT as int));
        }
    }
    lines
}

pub open spec fn quoted(t: Seq<char>) -> Seq<char> {
    "\""@ + t + "\""@
}

/// `, "t"` for each of `titles`.
pub open spec fn quoted_list(titles: Seq<String>) -> Seq<char>
    decreases titles.len(),
{
    if titles.len() == 0 {
        Seq::empty()
    } else {
        quoted_list(titles.drop_last()) + ", "@ + quoted(titles.last()@)
    }
}

/// `"a" added to queue.`, or `"a", "b" and "c" added to queue.`.
pub open spec fn added_message(titles: Seq<String>) -> Seq<char> {
    if titles.len() == 1 {
        quoted(titles[0]@) + " added to queue."@
    } else {
        quoted(titles[0]@) + quoted_list(titles.subrange(1, titles.len() - 1)) + " and "@
            + quoted(titles.last()@) + " added to queue."@
    }
}

/// The reply naming the tracks just queued.
pub fn added_to_queue_message(titles: &Vec<String>) -> (r: String)
    requires
        titles@.len() > 0,
    ensures
        r@ == added_message(titles@),
{
    let mut r = String::new();
    push_str(&mut r, "\"");
    push_str(&mut r, titles[0].as_str());
    push_str(&mut r, "\"");
    let n = titles.len();
    if n > 1 {
        let ghost head = r@;
        let mut i: usize = 1;
        proof {
            assert(titles@.subrange(1, 1) =~= Seq::<String>::empty());
            assert(r@ =~= head + quoted_list(titles@.subrange(1, 1)));
        }
        while i < n - 1
            invariant
                1 <= i <= n - 1,
                n == titles@.len(),
                r@ == head + quoted_list(titles@.subrange(1, i as int)),
            decreases n - 1 - i,
        {
            push_str(&mut r, ", ");
            push_str(&mut r, "\"");
            push_str(&mut r, titles[i].as_str());
            push_str(&mut r, "\"");
            proof {
                assert(titles@.subrange(1, i + 1).drop_last() =~= titles@.subrange(1, i as int));
                assert(r@ =~= head + quoted_list(titles@.subrange(1, i + 1)));
            }
            i = i + 1;
        }
        push_str(&mut r, " and ");
        push_str(&mut r, "\"");
        push_str(&mut r, titles[n - 1].as_str());
        push_str(&mut r, "\"");
    }
    push_str(&mut r, " added to queue.");
    proof {
        assert(r@ =~= added_message(titles@));
    }
    r
}

} // verus!
