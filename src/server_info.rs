//! Per-guild display state: the bounded history of finished tracks and the
//! location of the status message that is kept refreshed.
use std::collections::VecDeque;
use vstd::prelude::*;

verus! {

broadcast use vstd::std_specs::vecdeque::group_vec_dequeue_axioms;

/// A track title with the link to show for it, if any.
#[derive(Clone, Debug)]
pub struct SongLink {
    pub title: String,
    pub url: Option<String>,
}

/// Where a message lives: its channel and its own id.
#[derive(Clone, Copy, Debug, PartialEq, Eq, Structural)]
pub struct MsgLocation {
    pub channel_id: u64,
    pub message_id: u64,
}

impl MsgLocation {
    pub fn new(channel_id: u64, message_id: u64) -> (r: Self)
        ensures
            r == (MsgLocation { channel_id, message_id }),
    {
        MsgLocation { channel_id, message_id }
    }
}

/// Display state of one guild.
#[derive(Debug)]
pub struct ServerInfo {
    previous_songs: VecDeque<SongLink>,
    status_message: Option<MsgLocation>,
}

/// Mathematical model of a `ServerInfo`; `previous_songs` runs from the
/// oldest entry to the newest.
pub struct ServerInfoView {
    pub previous_songs: Seq<SongLink>,
    pub status_message: Option<MsgLocation>,
}

impl ServerInfoView {
    /// The history holds at most `max` entries.
    pub open spec fn wf(self, max: nat) -> bool {
        self.previous_songs.len() <= max
    }
}

/// The newest `max` entries of `s`, in their order.
pub open spec fn keep_newest(s: Seq<SongLink>, max: nat) -> Seq<SongLink> {
    if s.len() > max {
        s.skip(s.len() - max)
    } else {
        s
    }
}

impl View for ServerInfo {
    type V = ServerInfoView;

    closed spec fn view(&self) -> ServerInfoView {
        ServerInfoView { previous_songs: self.previous_songs@, status_message: self.status_message }
    }
}

impl ServerInfo {
    /// No history and no status message.
    pub fn new() -> (r: Self)
        ensures
            r@ == (ServerInfoView { previous_songs: Seq::empty(), status_message: None }),
    {
        ServerInfo { previous_songs: VecDeque::new(), status_message: None }
    }

    /// The finished tracks, oldest first.
    pub fn previous_songs(&self) -> (r: &VecDeque<SongLink>)
        ensures
            r@ == self@.previous_songs,
    {
        &self.previous_songs
    }

    pub fn status_message(&self) -> (r: Option<MsgLocation>)
        ensures
            r == self@.status_message,
    {
        self.status_message
    }

    /// Appends a finished track and drops the oldest entries until at most
    /// `max` remain.
    pub fn record_played(&mut self, song: SongLink, max: usize)
        ensures
            final(self)@.previous_songs == keep_newest(old(self)@.previous_songs.push(song), max as nat),
            final(self)@.status_message == old(self)@.status_message,
            final(self)@.wf(max as nat),
    {
        let ghost pushed = self.previous_songs@.push(song);
        self.previous_songs.push_back(song);
        while self.previous_songs.len() > max
            invariant
                self.previous_songs@.len() <= pushed.len(),
                self.previous_songs@ == pushed.skip(pushed.len() - self.previous_songs@.len()),
                self.previous_songs@.len() == pushed.len() || self.previous_songs@.len() >= max,
                self.status_message == old(self).status_message,
            decreases self.previous_songs@.len(),
        {
            let ghost before = self.previous_songs@;
            self.previous_songs.pop_front();
            assert(self.previous_songs@ =~= pushed.skip(pushed.len() - self.previous_songs@.len()))
                by {
                assert(self.previous_songs@ =~= before.drop_first());
            }
        }
        assert(self.previous_songs@ =~= keep_newest(pushed, max as nat));
    }

    /// Points the display at a new status message.
    pub fn set_status_message(&mut self, loc: MsgLocation)
        ensures
            final(self)@ == (ServerInfoView { status_message: Some(loc), ..old(self)@ }),
    {
        self.status_message = Some(loc);
    }

    /// Forgets the status message and returns where it was.
    pub fn take_status_message(&mut self) -> (r: Option<MsgLocation>)
        ensures
            r == old(self)@.status_message,
            final(self)@ == (ServerInfoView { status_message: None, ..old(self)@ }),
    {
        let r = self.status_message;
        self.status_message = None;
        r
    }

    /// Records the outcome of refreshing the status message at `loc`: a
    /// failed refresh forgets that message, so it is not tried again; a
    /// message set since then is kept.
    pub fn finish_status_update(&mut self, loc: MsgLocation, succeeded: bool)
        ensures
            final(self)@.previous_songs == old(self)@.previous_songs,
            final(self)@.status_message == if !succeeded && old(self)@.status_message == Some(
                loc,
            ) {
                None
            } else {
                old(self)@.status_message
            },
    {
        if let Some(current) = self.status_message {
            if !succeeded && current == loc {
                self.status_message = None;
            }
        }
    }
}

/// The history after recording each of `songs` in turn, as
/// `ServerInfo::record_played` does.
pub open spec fn record_all(h: Seq<SongLink>, songs: Seq<SongLink>, max: nat) -> Seq<SongLink>
    decreases songs.len(),
{
    if songs.len() == 0 {
        h
    } else {
        record_all(keep_newest(h.push(songs[0]), max), songs.drop_first(), max)
    }
}

/// Trimming twice to the newest `max` is trimming once.
proof fn lemma_keep_newest_concat(a: Seq<SongLink>, b: Seq<SongLink>, max: nat)
    ensures
        keep_newest(keep_newest(a, max) + b, max) == keep_newest(a + b, max),
{
    let k = keep_newest(a, max);
    if a.len() > max {
        let lhs = keep_newest(k + b, max);
        let rhs = keep_newest(a + b, max);
        assert(lhs.len() == rhs.len());
        assert forall|i: int| 0 <= i < lhs.len() implies lhs[i] == rhs[i] by {
            let bl = b.len() as int;
            let al = a.len() as int;
            if bl + i < max {
                assert(lhs[i] == k[bl + i]);
                assert(rhs[i] == a[al - max + bl + i]);
            } else {
                assert(lhs[i] == b[bl + i - max]);
                assert(rhs[i] == b[bl + i - max]);
            }
        }
        assert(lhs =~= rhs);
    } else {
        assert(k == a);
    }
}

/// However many finished tracks are recorded one after another, the
/// history is the newest `max` of the old history followed by them, in
/// order: it never holds more than `max`, and the oldest go first.
pub proof fn lemma_record_all(h: Seq<SongLink>, songs: Seq<SongLink>, max: nat)
    requires
        h.len() <= max,
    ensures
        record_all(h, songs, max) == keep_newest(h + songs, max),
        record_all(h, songs, max).len() <= max,
    decreases songs.len(),
{
    if songs.len() == 0 {
        assert(h + songs =~= h);
    } else {
        let h1 = keep_newest(h.push(songs[0]), max);
        lemma_record_all(h1, songs.drop_first(), max);
        lemma_keep_newest_concat(h.push(songs[0]), songs.drop_first(), max);
        assert(h.push(songs[0]) + songs.drop_first() =~= h + songs);
    }
}

} // verus!
