//! Per-guild playback queue: what is queued, what is playing, and the loop
//! flags, with the transitions that commands and track-end events drive.
//!
//! The voice transport stays outside this module. Operations that start or
//! pause audio take the transport action as a closure, so that the decision,
//! the action and the commit of its result happen as one step under whatever
//! exclusion the caller holds.
use vstd::arithmetic::div_mod::{lemma_mod_self_0, lemma_small_mod};
use vstd::prelude::*;

use crate::server_info::SongLink;

verus! {

/// A queued track: display metadata plus the query or URL the audio
/// resolver can turn into playable audio again.
#[derive(Clone, Debug)]
pub struct Song {
    pub name: String,
    /// The track's canonical link, when the resolver gave one.
    pub url: Option<String>,
    pub source: String,
    pub duration_secs: u64,
}

impl Song {
    /// A field-by-field copy of the song.
    pub fn duplicate(&self) -> (r: Song)
        ensures
            r == *self,
    {
        Song {
            name: self.name.clone(),
            url: match &self.url {
                Some(u) => Some(u.clone()),
                None => None,
            },
            source: self.source.clone(),
            duration_secs: self.duration_secs,
        }
    }
}

/// The entry selected for playback, with the transport's handle for it.
#[derive(Clone, Debug)]
pub struct CurrentSong<H> {
    pub index: usize,
    pub handle: H,
}

/// What `add_song` did with the new entry.
#[derive(Clone, Debug)]
pub enum AddSongResult {
    NowPlaying(Song),
    AddedToQueue(Song),
}

/// Why a queue operation did not happen. None of them changes the queue.
#[derive(Clone, Copy, Debug, PartialEq, Eq, Structural)]
pub enum QueueError {
    NotInVoiceChannel,
    ResolutionFailure,
    IndexOutOfRange,
    NothingPlaying,
}

/// The state of one guild's queue.
#[derive(Debug)]
pub struct ServerQueue<H> {
    loop_song: bool,
    loop_queue: bool,
    current: Option<CurrentSong<H>>,
    songs: Vec<Song>,
}

/// Mathematical model of a `ServerQueue`.
pub struct QueueView<H> {
    pub songs: Seq<Song>,
    pub current: Option<CurrentSong<H>>,
    pub loop_song: bool,
    pub loop_queue: bool,
}

impl<H> QueueView<H> {
    /// At most one entry is selected (by construction of `Option`), and a
    /// selected entry always exists in the queue.
    pub open spec fn wf(self) -> bool {
        self.current matches Some(c) ==> c.index < self.songs.len()
    }

    pub open spec fn is_idle(self) -> bool {
        self.current is None
    }

    pub open spec fn current_index(self) -> int {
        self.current->0.index as int
    }

    /// Where playback moves when the current track ends: the same entry when
    /// looping the song, else the next one, wrapped round when looping the
    /// queue; `None` when that runs past the end.
    pub open spec fn advance_target(self) -> Option<int> {
        let step = if self.loop_song {
            self.current_index()
        } else {
            self.current_index() + 1
        };
        let target = if self.loop_queue {
            step % (self.songs.len() as int)
        } else {
            step
        };
        if 0 <= target < self.songs.len() {
            Some(target)
        } else {
            None
        }
    }

    /// The same queue with another selection.
    pub open spec fn with_current(self, current: Option<CurrentSong<H>>) -> QueueView<H> {
        QueueView { current, ..self }
    }
}

/// The history entry for a song that has been played.
pub open spec fn played_link(song: Song) -> SongLink {
    SongLink { title: song.name, url: song.url }
}

/// The links of the entries after the selected one; none when idle.
pub open spec fn up_next_links<H>(q: QueueView<H>) -> Seq<SongLink> {
    match q.current {
        Some(c) => q.songs.subrange(c.index + 1, q.songs.len() as int).map_values(
            |s: Song| played_link(s),
        ),
        None => Seq::empty(),
    }
}

/// The outcome of `add_song` on a queue, related to the queue before.
pub open spec fn add_song_post<H, F: FnOnce(&Song) -> Option<H>>(
    pre: QueueView<H>,
    song: Song,
    connected: bool,
    start: F,
    r: Result<AddSongResult, QueueError>,
    post: QueueView<H>,
) -> bool {
    if !connected {
        r == Err::<AddSongResult, QueueError>(QueueError::NotInVoiceChannel) && post == pre
    } else if pre.is_idle() {
        match r {
            Ok(res) => {
                &&& res == AddSongResult::NowPlaying(song)
                &&& post.songs == pre.songs.push(song)
                &&& post.loop_song == pre.loop_song
                &&& post.loop_queue == pre.loop_queue
                &&& post.current matches Some(c) && c.index == pre.songs.len() && start.ensures(
                    (&song,),
                    Some(c.handle),
                )
            },
            Err(e) => e == QueueError::NotInVoiceChannel && post == pre && start.ensures(
                (&song,),
                None,
            ),
        }
    } else {
        &&& r == Ok::<AddSongResult, QueueError>(AddSongResult::AddedToQueue(song))
        &&& post == QueueView { songs: pre.songs.push(song), ..pre }
    }
}

/// The outcome of `play_index` on a queue, related to the queue before.
pub open spec fn play_index_post<H, P: FnOnce(&H), F: FnOnce(&Song) -> Option<H>>(
    pre: QueueView<H>,
    index: usize,
    pause: P,
    start: F,
    r: Result<Song, QueueError>,
    post: QueueView<H>,
) -> bool {
    if index >= pre.songs.len() {
        r == Err::<Song, QueueError>(QueueError::IndexOutOfRange) && post == pre
    } else {
        &&& pre.current matches Some(c) ==> pause.ensures((&c.handle,), ())
        &&& match r {
            Ok(song) => {
                &&& song == pre.songs[index as int]
                &&& post.songs == pre.songs
                &&& post.loop_song == pre.loop_song
                &&& post.loop_queue == pre.loop_queue
                &&& post.current matches Some(c) && c.index == index && start.ensures(
                    (&pre.songs[index as int],),
                    Some(c.handle),
                )
            },
            Err(e) => e == QueueError::NotInVoiceChannel && post == pre && start.ensures(
                (&pre.songs[index as int],),
                None,
            ),
        }
    }
}

/// The outcome of `next_song` on a queue, related to the queue before.
pub open spec fn next_song_post<H, F: FnOnce(&Song) -> Option<H>>(
    pre: QueueView<H>,
    start: F,
    r: Result<Option<Song>, QueueError>,
    post: QueueView<H>,
) -> bool {
    if pre.is_idle() {
        r == Err::<Option<Song>, QueueError>(QueueError::NothingPlaying) && post == pre
    } else {
        match pre.advance_target() {
            None => r == Ok::<Option<Song>, QueueError>(None) && post == pre.with_current(None),
            Some(t) => match r {
                Ok(Some(song)) => {
                    &&& song == pre.songs[t]
                    &&& post.songs == pre.songs
                    &&& post.loop_song == pre.loop_song
                    &&& post.loop_queue == pre.loop_queue
                    &&& post.current matches Some(c) && c.index == t && start.ensures(
                        (&pre.songs[t],),
                        Some(c.handle),
                    )
                },
                Ok(None) => false,
                Err(e) => e == QueueError::NotInVoiceChannel && post == pre && start.ensures(
                    (&pre.songs[t],),
                    None,
                ),
            },
        }
    }
}

impl<H> View for ServerQueue<H> {
    type V = QueueView<H>;

    closed spec fn view(&self) -> QueueView<H> {
        QueueView {
            songs: self.songs@,
            current: self.current,
            loop_song: self.loop_song,
            loop_queue: self.loop_queue,
        }
    }
}

impl<H> ServerQueue<H> {
    /// An empty, idle queue with both loop flags off.
    pub fn new() -> (r: Self)
        ensures
            r@ == (QueueView::<H> {
                songs: Seq::empty(),
                current: None,
                loop_song: false,
                loop_queue: false,
            }),
    {
        ServerQueue { loop_song: false, loop_queue: false, current: None, songs: Vec::new() }
    }

    pub fn songs(&self) -> (r: &Vec<Song>)
        ensures
            r@ == self@.songs,
    {
        &self.songs
    }

    pub fn current(&self) -> (r: &Option<CurrentSong<H>>)
        ensures
            *r == self@.current,
    {
        &self.current
    }

    pub fn loop_song(&self) -> (r: bool)
        ensures
            r == self@.loop_song,
    {
        self.loop_song
    }

    pub fn loop_queue(&self) -> (r: bool)
        ensures
            r == self@.loop_queue,
    {
        self.loop_queue
    }

    /// Appends `song`, when the guild has a voice connection (`connected`).
    /// On an idle queue it is started at once through `start`, which yields
    /// the transport's handle, or `None` when it could not play; the queue is
    /// then left as it was.
    pub fn add_song<F: FnOnce(&Song) -> Option<H>>(
        &mut self,
        song: Song,
        connected: bool,
        start: F,
    ) -> (r: Result<AddSongResult, QueueError>)
        requires
            old(self)@.wf(),
            forall|s: &Song| #[trigger] start.requires((s,)),
        ensures
            final(self)@.wf(),
            add_song_post(old(self)@, song, connected, start, r, final(self)@),
            r is Err ==> *final(self) == *old(self),
    {
        if !connected {
            return Err(QueueError::NotInVoiceChannel);
        }
        if self.current.is_some() {
            let copy = song.duplicate();
            self.songs.push(song);
            Ok(AddSongResult::AddedToQueue(copy))
        } else {
            match start(&song) {
                Some(handle) => {
                    let index = self.songs.len();
                    let copy = song.duplicate();
                    self.songs.push(song);
                    self.current = Some(CurrentSong { index, handle });
                    Ok(AddSongResult::NowPlaying(copy))
                },
                None => Err(QueueError::NotInVoiceChannel),
            }
        }
    }

    /// Jumps to the entry at `index`: pauses the current track, if any,
    /// through `pause`, then starts the entry through `start`.
    pub fn play_index<P: FnOnce(&H), F: FnOnce(&Song) -> Option<H>>(
        &mut self,
        index: usize,
        pause: P,
        start: F,
    ) -> (r: Result<Song, QueueError>)
        requires
            old(self)@.wf(),
            forall|h: &H| #[trigger] pause.requires((h,)),
            forall|s: &Song| #[trigger] start.requires((s,)),
        ensures
            final(self)@.wf(),
            play_index_post(old(self)@, index, pause, start, r, final(self)@),
            r is Err ==> *final(self) == *old(self),
            index >= old(self)@.songs.len() ==> r == Err::<Song, QueueError>(
                QueueError::IndexOutOfRange,
            ) && final(self)@ == old(self)@,
    {
        if index >= self.songs.len() {
            return Err(QueueError::IndexOutOfRange);
        }
        if let Some(c) = &self.current {
            pause(&c.handle);
        }
        self.start_at(index, start)
    }

    /// Starts the entry at `index` and makes it the current one.
    fn start_at<F: FnOnce(&Song) -> Option<H>>(&mut self, index: usize, start: F) -> (r: Result<
        Song,
        QueueError,
    >)
        requires
            old(self)@.wf(),
            index < old(self)@.songs.len(),
            forall|s: &Song| #[trigger] start.requires((s,)),
        ensures
            final(self)@.wf(),
            match r {
                Ok(song) => {
                    &&& song == old(self)@.songs[index as int]
                    &&& final(self)@.songs == old(self)@.songs
                    &&& final(self)@.loop_song == old(self)@.loop_song
                    &&& final(self)@.loop_queue == old(self)@.loop_queue
                    &&& final(self)@.current matches Some(c) && c.index == index && start.ensures(
                        (&old(self)@.songs[index as int],),
                        Some(c.handle),
                    )
                },
                Err(e) => e == QueueError::NotInVoiceChannel && *final(self) == *old(self)
                    && start.ensures((&old(self)@.songs[index as int],), None),
            },
    {
        match start(&self.songs[index]) {
            Some(handle) => {
                self.current = Some(CurrentSong { index, handle });
                Ok(self.songs[index].duplicate())
            },
            None => Err(QueueError::NotInVoiceChannel),
        }
    }

    /// Moves on when the current track has ended (see
    /// `QueueView::advance_target`): starts the target entry through `start`,
    /// or goes idle when there is none.
    pub fn next_song<F: FnOnce(&Song) -> Option<H>>(&mut self, start: F) -> (r: Result<
        Option<Song>,
        QueueError,
    >)
        requires
            old(self)@.wf(),
            forall|s: &Song| #[trigger] start.requires((s,)),
        ensures
            final(self)@.wf(),
            next_song_post(old(self)@, start, r, final(self)@),
            r is Err ==> *final(self) == *old(self),
            old(self)@.current is Some && old(self)@.loop_song ==> (final(self)@.current matches Some(
                c,
            ) && c.index == old(self)@.current_index()),
            old(self)@.current is Some && old(self)@.loop_queue && !old(self)@.loop_song
                && old(self)@.current_index() == old(self)@.songs.len() - 1 && r is Ok
                ==> (final(self)@.current matches Some(c) && c.index == 0),
            old(self)@.current is Some && !old(self)@.loop_queue && !old(self)@.loop_song
                && old(self)@.current_index() == old(self)@.songs.len() - 1 ==> r == Ok::<
                Option<Song>,
                QueueError,
            >(None) && final(self)@.current is None,
    {
        let len = self.songs.len();
        let index = match &self.current {
            Some(c) => c.index,
            None => {
                return Err(QueueError::NothingPlaying);
            },
        };
        proof {
            lemma_small_mod(index as nat, len as nat);
            lemma_mod_self_0(len as int);
        }
        let mut target: usize = if self.loop_song {
            index
        } else {
            index + 1
        };
        if self.loop_queue {
            target = target % len;
        }
        if target >= len {
            self.current = None;
            Ok(None)
        } else {
            match self.start_at(target, start) {
                Ok(song) => Ok(Some(song)),
                Err(e) => Err(e),
            }
        }
    }

    /// The entries after the current one, as history links; none when idle.
    pub fn up_next(&self) -> (r: Vec<SongLink>)
        requires
            self@.wf(),
        ensures
            r@ == up_next_links(self@),
    {
        let mut r: Vec<SongLink> = Vec::new();
        let len = self.songs.len();
        let first = match &self.current {
            Some(c) => c.index + 1,
            None => {
                return r;
            },
        };
        let mut i = first;
        while i < len
            invariant
                len == self.songs@.len(),
                first <= i <= self.songs@.len(),
                self@.wf(),
                self.current matches Some(c) && first == c.index + 1,
                r@ == self.songs@.subrange(first as int, i as int).map_values(
                    |s: Song| played_link(s),
                ),
            decreases self.songs@.len() - i,
        {
            let song = self.songs[i].duplicate();
            r.push(SongLink { title: song.name, url: song.url });
            proof {
                assert(r@ =~= self.songs@.subrange(first as int, i + 1).map_values(
                    |s: Song| played_link(s),
                ));
            }
            i = i + 1;
        }
        r
    }

    /// Flips the loop-song flag and returns its new value.
    pub fn set_loop_song(&mut self) -> (r: bool)
        ensures
            r == !old(self)@.loop_song,
            final(self)@ == (QueueView { loop_song: r, ..old(self)@ }),
    {
        self.loop_song = !self.loop_song;
        self.loop_song
    }

    /// Flips the loop-queue flag and returns its new value.
    pub fn set_loop_queue(&mut self) -> (r: bool)
        ensures
            r == !old(self)@.loop_queue,
            final(self)@ == (QueueView { loop_queue: r, ..old(self)@ }),
    {
        self.loop_queue = !self.loop_queue;
        self.loop_queue
    }
}

} // verus!
