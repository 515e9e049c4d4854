//! The bot's shared state: every guild's queue and display state, created on
//! first use. Mutual exclusion is the holder's business: every operation here
//! is one step over `&mut self` and never waits on anything outside.
use std::collections::HashMap;
use vstd::prelude::*;
use vstd::std_specs::iter::IteratorSpec;

use crate::queue::{
    add_song_post, next_song_post, play_index_post, played_link, AddSongResult, QueueError, QueueView,
    ServerQueue, Song,
};
use crate::server_info::{keep_newest, MsgLocation, ServerInfo, ServerInfoView, SongLink};

verus! {

broadcast use vstd::std_specs::hash::group_hash_axioms;

pub struct Data<H> {
    server_queues: HashMap<u64, ServerQueue<H>>,
    server_info: HashMap<u64, ServerInfo>,
    max_previously_played: usize,
}

/// The queue a guild starts with.
pub open spec fn empty_queue<H>() -> QueueView<H> {
    QueueView { songs: Seq::empty(), current: None, loop_song: false, loop_queue: false }
}

/// The display state a guild starts with.
pub open spec fn empty_info() -> ServerInfoView {
    ServerInfoView { previous_songs: Seq::empty(), status_message: None }
}

impl<H> Data<H> {
    pub closed spec fn queues(&self) -> Map<u64, ServerQueue<H>> {
        self.server_queues@
    }

    pub closed spec fn infos(&self) -> Map<u64, ServerInfo> {
        self.server_info@
    }

    pub closed spec fn history_bound(&self) -> nat {
        self.max_previously_played as nat
    }

    /// A guild's queue, as it is or as it would be created.
    pub open spec fn queue_of(&self, guild_id: u64) -> QueueView<H> {
        if self.queues().contains_key(guild_id) {
            self.queues()[guild_id]@
        } else {
            empty_queue()
        }
    }

    /// A guild's display state, as it is or as it would be created.
    pub open spec fn info_of(&self, guild_id: u64) -> ServerInfoView {
        if self.infos().contains_key(guild_id) {
            self.infos()[guild_id]@
        } else {
            empty_info()
        }
    }

    /// Every guild's queue selects at most one entry, and only one that
    /// exists; every guild's history is within its bound.
    pub open spec fn wf(&self) -> bool {
        &&& forall|g: u64| #[trigger] self.queues().contains_key(g) ==> self.queues()[g]@.wf()
        &&& forall|g: u64| #[trigger]
            self.infos().contains_key(g) ==> self.infos()[g]@.wf(self.history_bound())
    }

    /// In every guild, including one not seen yet, a selected entry exists
    /// in the queue; being an `Option`, the selection is at most one.
    pub proof fn lemma_current_is_valid(&self, guild_id: u64)
        requires
            self.wf(),
        ensures
            self.queue_of(guild_id).current matches Some(c) ==> c.index < self.queue_of(
                guild_id,
            ).songs.len(),
    {
        if self.queues().contains_key(guild_id) {
            assert(self.queues()[guild_id]@.wf());
        }
    }

    /// Only guild `guild_id`'s queue may have changed, and it is now `q`.
    pub open spec fn queue_updated(&self, pre: &Self, guild_id: u64, q: QueueView<H>) -> bool {
        &&& self.queues().contains_key(guild_id)
        &&& self.queues()[guild_id]@ == q
        &&& forall|g: u64| g != guild_id ==> #[trigger] self.queues().contains_key(g)
            == pre.queues().contains_key(g)
        &&& forall|g: u64| g != guild_id && #[trigger] pre.queues().contains_key(g)
            ==> self.queues()[g] == pre.queues()[g]
        &&& self.infos() == pre.infos()
        &&& self.history_bound() == pre.history_bound()
    }

    /// Only guild `guild_id`'s display state may have changed, and it is now `i`.
    pub open spec fn info_updated(&self, pre: &Self, guild_id: u64, i: ServerInfoView) -> bool {
        &&& self.infos().contains_key(guild_id)
        &&& self.infos()[guild_id]@ == i
        &&& forall|g: u64| g != guild_id ==> #[trigger] self.infos().contains_key(g)
            == pre.infos().contains_key(g)
        &&& forall|g: u64| g != guild_id && #[trigger] pre.infos().contains_key(g)
            ==> self.infos()[g] == pre.infos()[g]
        &&& self.queues() == pre.queues()
        &&& self.history_bound() == pre.history_bound()
    }

    /// No guild state yet; histories keep `max_previously_played` entries.
    pub fn new(max_previously_played: usize) -> (r: Self)
        ensures
            r.wf(),
            r.queues() == Map::<u64, ServerQueue<H>>::empty(),
            r.infos() == Map::<u64, ServerInfo>::empty(),
            r.history_bound() == max_previously_played,
    {
        Data { server_queues: HashMap::new(), server_info: HashMap::new(), max_previously_played }
    }

    pub fn max_previously_played(&self) -> (r: usize)
        ensures
            r == self.history_bound(),
    {
        self.max_previously_played
    }

    /// The guild's queue, if it has one.
    pub fn get_queue(&self, guild_id: u64) -> (r: Option<&ServerQueue<H>>)
        ensures
            match r {
                Some(q) => self.queues().contains_key(guild_id) && *q == self.queues()[guild_id],
                None => !self.queues().contains_key(guild_id),
            },
    {
        self.server_queues.get(&guild_id)
    }

    /// Removes the guild's queue and returns what it was.
    pub fn reset_queue(&mut self, guild_id: u64) -> (r: Option<ServerQueue<H>>)
        requires
            old(self).wf(),
        ensures
            final(self).wf(),
            final(self).queues() == old(self).queues().remove(guild_id),
            final(self).infos() == old(self).infos(),
            final(self).history_bound() == old(self).history_bound(),
            match r {
                Some(q) => old(self).queues().contains_key(guild_id) && q == old(self).queues()[
                    guild_id
                ],
                None => !old(self).queues().contains_key(guild_id),
            },
    {
        let r = self.server_queues.remove(&guild_id);
        proof {
            self.lemma_wf_after_queue_change(old(self));
        }
        r
    }

    /// Well-formedness carries over when queues are only removed, or replaced
    /// by well-formed ones.
    proof fn lemma_wf_after_queue_change(&self, pre: &Self)
        requires
            pre.wf(),
            self.infos() == pre.infos(),
            self.history_bound() == pre.history_bound(),
            forall|g: u64| #[trigger]
                self.queues().contains_key(g) ==> pre.queues().contains_key(g) && self.queues()[g]
                    == pre.queues()[g] || self.queues()[g]@.wf(),
        ensures
            self.wf(),
    {
        assert forall|g: u64| #[trigger] self.queues().contains_key(g) implies self.queues()[g]@.wf() by {
            if pre.queues().contains_key(g) && self.queues()[g] == pre.queues()[g] {
                assert(pre.queues()[g]@.wf());
            }
        }
        assert forall|g: u64| #[trigger] self.infos().contains_key(g) implies self.infos()[
            g
        ]@.wf(self.history_bound()) by {
            assert(pre.infos().contains_key(g));
        }
    }

    /// Takes the guild's queue out of the map, or a new one.
    fn take_queue(&mut self, guild_id: u64) -> (r: ServerQueue<H>)
        requires
            old(self).wf(),
        ensures
            r@ == old(self).queue_of(guild_id),
            r@.wf(),
            old(self).queues().contains_key(guild_id) ==> r == old(self).queues()[guild_id],
            final(self).queues() == old(self).queues().remove(guild_id),
            final(self).infos() == old(self).infos(),
            final(self).history_bound() == old(self).history_bound(),
            final(self).wf(),
    {
        let r = match self.server_queues.remove(&guild_id) {
            Some(q) => q,
            None => ServerQueue::new(),
        };
        proof {
            self.lemma_wf_after_queue_change(old(self));
        }
        r
    }

    /// Puts a guild's queue (back) into the map.
    fn put_queue(&mut self, guild_id: u64, q: ServerQueue<H>)
        requires
            old(self).wf(),
            q@.wf(),
        ensures
            final(self).wf(),
            final(self).queues() == old(self).queues().insert(guild_id, q),
            final(self).infos() == old(self).infos(),
            final(self).history_bound() == old(self).history_bound(),
    {
        self.server_queues.insert(guild_id, q);
        proof {
            self.lemma_wf_after_queue_change(old(self));
        }
    }

    /// `ServerQueue::add_song` on the guild's queue, which is created first
    /// if need be; `connected` says whether the guild has a voice
    /// connection. On failure nothing changes.
    pub fn add_song<F: FnOnce(&Song) -> Option<H>>(
        &mut self,
        guild_id: u64,
        song: Song,
        connected: bool,
        start: F,
    ) -> (r: Result<AddSongResult, QueueError>)
        requires
            old(self).wf(),
            forall|s: &Song| #[trigger] start.requires((s,)),
        ensures
            final(self).wf(),
            r is Err ==> final(self).queues() == old(self).queues() && final(self).infos() == old(
                self,
            ).infos(),
            r is Ok ==> final(self).queue_updated(old(self), guild_id, final(self).queue_of(guild_id)),
            add_song_post(
                old(self).queue_of(guild_id),
                song,
                connected,
                start,
                r,
                final(self).queue_of(guild_id),
            ),
    {
        let ghost pre = *self;
        let present = self.server_queues.contains_key(&guild_id);
        let mut q = self.take_queue(guild_id);
        let r = q.add_song(song, connected, start);
        if r.is_ok() || present {
            self.put_queue(guild_id, q);
        }
        proof {
            if r is Err && present {
                assert(self.queues() =~= pre.queues());
            }
        }
        r
    }

    /// `ServerQueue::play_index` on the guild's queue. A guild without a
    /// queue has no entry at any index, and nothing changes.
    pub fn play_index<P: FnOnce(&H), F: FnOnce(&Song) -> Option<H>>(
        &mut self,
        guild_id: u64,
        index: usize,
        pause: P,
        start: F,
    ) -> (r: Result<Song, QueueError>)
        requires
            old(self).wf(),
            forall|h: &H| #[trigger] pause.requires((h,)),
            forall|s: &Song| #[trigger] start.requires((s,)),
        ensures
            final(self).wf(),
            r is Err ==> final(self).queues() == old(self).queues() && final(self).infos() == old(
                self,
            ).infos(),
            r is Ok ==> final(self).queue_updated(old(self), guild_id, final(self).queue_of(guild_id)),
            play_index_post(
                old(self).queue_of(guild_id),
                index,
                pause,
                start,
                r,
                final(self).queue_of(guild_id),
            ),
    {
        let ghost pre = *self;
        if !self.server_queues.contains_key(&guild_id) {
            return Err(QueueError::IndexOutOfRange);
        }
        let mut q = self.take_queue(guild_id);
        let r = q.play_index(index, pause, start);
        self.put_queue(guild_id, q);
        proof {
            if r is Err {
                assert(self.queues() =~= pre.queues());
            }
        }
        r
    }

    /// `ServerQueue::next_song` on the guild's queue. A guild without a
    /// queue has nothing playing, and nothing changes.
    pub fn next_song<F: FnOnce(&Song) -> Option<H>>(&mut self, guild_id: u64, start: F) -> (r:
        Result<Option<Song>, QueueError>)
        requires
            old(self).wf(),
            forall|s: &Song| #[trigger] start.requires((s,)),
        ensures
            final(self).wf(),
            r is Err ==> final(self).queues() == old(self).queues() && final(self).infos() == old(
                self,
            ).infos(),
            r is Ok ==> final(self).queue_updated(old(self), guild_id, final(self).queue_of(guild_id)),
            next_song_post(old(self).queue_of(guild_id), start, r, final(self).queue_of(guild_id)),
    {
        let ghost pre = *self;
        if !self.server_queues.contains_key(&guild_id) {
            return Err(QueueError::NothingPlaying);
        }
        let mut q = self.take_queue(guild_id);
        let r = q.next_song(start);
        self.put_queue(guild_id, q);
        proof {
            if r is Err {
                assert(self.queues() =~= pre.queues());
            }
        }
        r
    }

    /// Flips the guild's loop-song flag, creating its queue if need be, and
    /// returns the new value.
    pub fn set_loop_song(&mut self, guild_id: u64) -> (r: bool)
        requires
            old(self).wf(),
        ensures
            final(self).wf(),
            r == !old(self).queue_of(guild_id).loop_song,
            final(self).queue_updated(
                old(self),
                guild_id,
                QueueView { loop_song: r, ..old(self).queue_of(guild_id) },
            ),
    {
        let mut q = self.take_queue(guild_id);
        let r = q.set_loop_song();
        self.put_queue(guild_id, q);
        r
    }

    /// Flips the guild's loop-queue flag, creating its queue if need be, and
    /// returns the new value.
    pub fn set_loop_queue(&mut self, guild_id: u64) -> (r: bool)
        requires
            old(self).wf(),
        ensures
            final(self).wf(),
            r == !old(self).queue_of(guild_id).loop_queue,
            final(self).queue_updated(
                old(self),
                guild_id,
                QueueView { loop_queue: r, ..old(self).queue_of(guild_id) },
            ),
    {
        let mut q = self.take_queue(guild_id);
        let r = q.set_loop_queue();
        self.put_queue(guild_id, q);
        r
    }

    /// The guild's display state, if it has one; nothing is created.
    pub fn server_info(&self, guild_id: u64) -> (r: Option<&ServerInfo>)
        ensures
            match r {
                Some(i) => self.infos().contains_key(guild_id) && *i == self.infos()[guild_id],
                None => !self.infos().contains_key(guild_id),
            },
    {
        self.server_info.get(&guild_id)
    }

    /// Takes the guild's display state out of the map, or a new one.
    fn take_info(&mut self, guild_id: u64) -> (r: ServerInfo)
        requires
            old(self).wf(),
        ensures
            r@ == old(self).info_of(guild_id),
            r@.wf(old(self).history_bound()),
            final(self).infos() == old(self).infos().remove(guild_id),
            final(self).queues() == old(self).queues(),
            final(self).history_bound() == old(self).history_bound(),
            final(self).wf(),
    {
        let r = match self.server_info.remove(&guild_id) {
            Some(i) => i,
            None => ServerInfo::new(),
        };
        proof {
            self.lemma_wf_after_info_change(old(self));
        }
        r
    }

    /// Puts a guild's display state (back) into the map.
    fn put_info(&mut self, guild_id: u64, i: ServerInfo)
        requires
            old(self).wf(),
            i@.wf(old(self).history_bound()),
        ensures
            final(self).wf(),
            final(self).infos() == old(self).infos().insert(guild_id, i),
            final(self).queues() == old(self).queues(),
            final(self).history_bound() == old(self).history_bound(),
    {
        self.server_info.insert(guild_id, i);
        proof {
            self.lemma_wf_after_info_change(old(self));
        }
    }

    /// Well-formedness carries over when display states are only removed, or
    /// replaced by well-formed ones.
    proof fn lemma_wf_after_info_change(&self, pre: &Self)
        requires
            pre.wf(),
            self.queues() == pre.queues(),
            self.history_bound() == pre.history_bound(),
            forall|g: u64| #[trigger]
                self.infos().contains_key(g) ==> pre.infos().contains_key(g) && self.infos()[g]
                    == pre.infos()[g] || self.infos()[g]@.wf(self.history_bound()),
        ensures
            self.wf(),
    {
        assert forall|g: u64| #[trigger] self.infos().contains_key(g) implies self.infos()[
            g
        ]@.wf(self.history_bound()) by {
            if pre.infos().contains_key(g) && self.infos()[g] == pre.infos()[g] {
                assert(pre.infos()[g]@.wf(pre.history_bound()));
            }
        }
        assert forall|g: u64| #[trigger] self.queues().contains_key(g) implies self.queues()[
            g
        ]@.wf() by {
            assert(pre.queues().contains_key(g));
        }
    }

    /// Adds a finished track to the guild's history, dropping the oldest
    /// entries beyond the configured bound.
    pub fn record_played(&mut self, guild_id: u64, song: SongLink)
        requires
            old(self).wf(),
        ensures
            final(self).wf(),
            final(self).info_updated(
                old(self),
                guild_id,
                ServerInfoView {
                    previous_songs: keep_newest(
                        old(self).info_of(guild_id).previous_songs.push(song),
                        old(self).history_bound(),
                    ),
                    ..old(self).info_of(guild_id)
                },
            ),
    {
        let mut i = self.take_info(guild_id);
        i.record_played(song, self.max_previously_played);
        self.put_info(guild_id, i);
    }

    /// Makes `loc` the guild's status message, to be kept refreshed.
    pub fn set_status_message(&mut self, guild_id: u64, loc: MsgLocation)
        requires
            old(self).wf(),
        ensures
            final(self).wf(),
            final(self).info_updated(
                old(self),
                guild_id,
                ServerInfoView { status_message: Some(loc), ..old(self).info_of(guild_id) },
            ),
    {
        let mut i = self.take_info(guild_id);
        i.set_status_message(loc);
        self.put_info(guild_id, i);
    }

    /// Stops refreshing the guild's status message and returns where it was.
    pub fn take_status_message(&mut self, guild_id: u64) -> (r: Option<MsgLocation>)
        requires
            old(self).wf(),
        ensures
            final(self).wf(),
            r == old(self).info_of(guild_id).status_message,
            final(self).info_updated(
                old(self),
                guild_id,
                ServerInfoView { status_message: None, ..old(self).info_of(guild_id) },
            ),
    {
        let mut i = self.take_info(guild_id);
        let r = i.take_status_message();
        self.put_info(guild_id, i);
        r
    }

    /// Records the outcome of refreshing the guild's status message at
    /// `loc` (see `ServerInfo::finish_status_update`).
    pub fn finish_status_update(&mut self, guild_id: u64, loc: MsgLocation, succeeded: bool)
        requires
            old(self).wf(),
        ensures
            final(self).wf(),
            final(self).queues() == old(self).queues(),
            forall|g: u64| g != guild_id ==> #[trigger] final(self).info_of(g) == old(self).info_of(g),
            final(self).info_of(guild_id).previous_songs == old(self).info_of(guild_id).previous_songs,
            final(self).info_of(guild_id).status_message == if !succeeded && old(self).info_of(
                guild_id,
            ).status_message == Some(loc) {
                None
            } else {
                old(self).info_of(guild_id).status_message
            },
    {
        if !self.server_info.contains_key(&guild_id) {
            return;
        }
        let mut i = self.take_info(guild_id);
        i.finish_status_update(loc, succeeded);
        self.put_info(guild_id, i);
    }

    /// The guilds whose status message is to be refreshed, each once, with
    /// where that message is.
    pub fn pending_status_updates(&self) -> (r: Vec<(u64, MsgLocation)>)
        ensures
            forall|i: int|
                0 <= i < r.len() ==> #[trigger] self.info_of(r[i].0).status_message == Some(r[i].1),
            forall|g: u64|
                #[trigger] self.info_of(g).status_message is Some ==> exists|i: int|
                    0 <= i < r.len() && #[trigger] r[i].0 == g,
            forall|i: int, j: int| 0 <= i < j < r.len() ==> r[i].0 != r[j].0,
    {
        let mut r: Vec<(u64, MsgLocation)> = Vec::new();
        let ghost m = self.server_info@;
        let ghost items = vstd::std_specs::hash::spec_hash_map_iter(&self.server_info).remaining();
        let ghost mut done: int = 0;
        for entry in it: self.server_info.iter()
            invariant
                m == self.server_info@,
                it.seq() == items,
                items.no_duplicates(),
                done == it.index(),
                done <= items.len(),
                forall|k: int|
                    0 <= k < done && (#[trigger] items[k]).1@.status_message is Some
                        ==> exists|i: int| 0 <= i < r.len() && r[i].0 == *items[k].0,
                forall|i: int|
                    0 <= i < r.len() ==> #[trigger] self.info_of(r[i].0).status_message == Some(
                        r[i].1,
                    ),
                forall|i: int|
                    0 <= i < r.len() ==> exists|k: int|
                        0 <= k < done && #[trigger] r[i].0 == *items[k].0,
                forall|i: int, j: int| 0 <= i < j < r.len() ==> r[i].0 != r[j].0,
        {
            let (g, info) = entry;
            proof {
                let k = done;
                assert(items[k] == (g, info));
                assert forall|i: int| 0 <= i < r.len() implies r[i].0 != *g by {
                    let kk = choose|kk: int| 0 <= kk < k && #[trigger] r[i].0 == *items[kk].0;
                    if r[i].0 == *g {
                        assert(m[*items[kk].0] == *items[kk].1);
                        assert(m[*items[k].0] == *items[k].1);
                        assert(items[kk] == items[k]);
                    }
                }
            }
            let ghost before = r@;
            if let Some(loc) = info.status_message() {
                r.push((*g, loc));
            }
            proof {
                assert(forall|i: int| 0 <= i < before.len() ==> r[i] == before[i]);
                if info@.status_message is Some {
                    assert(r[r.len() - 1].0 == *items[done].0);
                }
                done = done + 1;
            }
        }
        proof {
            assert(done == items.len());
            assert forall|g: u64| #[trigger] self.info_of(g).status_message is Some implies exists|
                i: int,
            | 0 <= i < r.len() && #[trigger] r[i].0 == g by {
                assert(m.contains_key(g));
                assert(items.contains((&g, &m[g])));
                let k = choose|k: int| 0 <= k < items.len() && items[k] == (&g, &m[g]);
                assert(items[k].1@.status_message is Some);
            }
        }
        r
    }

    /// A guild's current track has ended, as the transport reports: when
    /// `ended` says the reported track is the current one, records the song
    /// in the history and moves the queue on (`ServerQueue::next_song`).
    /// Returns `None`, changing nothing, for a report about another track.
    pub fn track_ended<E: Fn(&H) -> bool, F: FnOnce(&Song) -> Option<H>>(
        &mut self,
        guild_id: u64,
        ended: E,
        start: F,
    ) -> (r: Option<Result<Option<Song>, QueueError>>)
        requires
            old(self).wf(),
            forall|h: &H| #[trigger] ended.requires((h,)),
            forall|s: &Song| #[trigger] start.requires((s,)),
        ensures
            final(self).wf(),
            match r {
                None => {
                    &&& final(self).queues() == old(self).queues()
                    &&& final(self).infos() == old(self).infos()
                    &&& old(self).queue_of(guild_id).current matches Some(c) ==> ended.ensures(
                        (&c.handle,),
                        false,
                    )
                },
                Some(res) => {
                    &&& old(self).queue_of(guild_id).current matches Some(c)
                    &&& ended.ensures((&c.handle,), true)
                    &&& final(self).info_of(guild_id).previous_songs == keep_newest(
                        old(self).info_of(guild_id).previous_songs.push(
                            played_link(old(self).queue_of(guild_id).songs[c.index as int]),
                        ),
                        old(self).history_bound(),
                    )
                    &&& next_song_post(
                        old(self).queue_of(guild_id),
                        start,
                        res,
                        final(self).queue_of(guild_id),
                    )
                },
            },
    {
        let link = match self.server_queues.get(&guild_id) {
            Some(q) => match q.current() {
                Some(c) => {
                    if ended(&c.handle) {
                        let song = &q.songs()[c.index];
                        let copy = song.duplicate();
                        Some(SongLink { title: copy.name, url: copy.url })
                    } else {
                        None
                    }
                },
                None => None,
            },
            None => None,
        };
        match link {
            None => None,
            Some(l) => {
                self.record_played(guild_id, l);
                Some(self.next_song(guild_id, start))
            },
        }
    }
}

} // verus!
