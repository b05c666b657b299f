//! The play queue and the order in which it is played.

use vstd::prelude::*;
use crate::model::Song;

verus! {

#[derive(Debug, Clone, Copy, PartialEq, Eq, Structural)]
pub enum PlaybackMode {
    /// To the end of the queue, then stop.
    Sequential,
    /// From the end back to the start.
    RepeatAll,
    /// The same song again and again.
    RepeatOne,
    Shuffle,
}

impl PlaybackMode {
    pub open spec fn name(self) -> Seq<char> {
        match self {
            PlaybackMode::Sequential => "顺序"@,
            PlaybackMode::RepeatAll => "列表循环"@,
            PlaybackMode::RepeatOne => "单曲循环"@,
            PlaybackMode::Shuffle => "随机"@,
        }
    }

    pub fn label(self) -> (r: &'static str)
        ensures
            r@ == self.name(),
    {
        match self {
            PlaybackMode::Sequential => "顺序",
            PlaybackMode::RepeatAll => "列表循环",
            PlaybackMode::RepeatOne => "单曲循环",
            PlaybackMode::Shuffle => "随机",
        }
    }

    pub open spec fn following(self) -> PlaybackMode {
        match self {
            PlaybackMode::Sequential => PlaybackMode::RepeatAll,
            PlaybackMode::RepeatAll => PlaybackMode::RepeatOne,
            PlaybackMode::RepeatOne => PlaybackMode::Shuffle,
            PlaybackMode::Shuffle => PlaybackMode::Sequential,
        }
    }

    /// The next mode in turn.
    pub fn next(self) -> (r: PlaybackMode)
        ensures
            r == self.following(),
    {
        match self {
            PlaybackMode::Sequential => PlaybackMode::RepeatAll,
            PlaybackMode::RepeatAll => PlaybackMode::RepeatOne,
            PlaybackMode::RepeatOne => PlaybackMode::Shuffle,
            PlaybackMode::Shuffle => PlaybackMode::Sequential,
        }
    }
}

/// The queue: its songs, the one it stands at, and the mode. The type of the
/// list is a parameter, so that the view of a queue is a queue too.
#[verifier::ext_equal]
#[derive(Debug)]
pub struct PlayQueue<L = Vec<Song>> {
    pub items: L,
    pub cursor: Option<usize>,
    pub mode: PlaybackMode,
}

impl View for PlayQueue<Vec<Song>> {
    type V = PlayQueue<Seq<Song>>;

    open spec fn view(&self) -> PlayQueue<Seq<Song>> {
        PlayQueue { items: self.items@, cursor: self.cursor, mode: self.mode }
    }
}

impl PlayQueue<Seq<Song>> {
    /// The queue stands at one of its songs, if at any.
    pub open spec fn wf(self) -> bool {
        self.cursor matches Some(i) ==> i < self.items.len()
    }

    /// The song that the queue stands at.
    pub open spec fn current_song(self) -> Option<Song> {
        match self.cursor {
            Some(i) => if i < self.items.len() {
                Some(self.items[i as int])
            } else {
                None
            },
            None => None,
        }
    }

    /// Other songs, standing at `index` or, where that is too far, at the last.
    pub open spec fn replaced(self, songs: Seq<Song>, index: usize) -> PlayQueue<Seq<Song>> {
        PlayQueue {
            items: songs,
            cursor: if songs.len() == 0 {
                None
            } else if index < songs.len() {
                Some(index)
            } else {
                Some((songs.len() - 1) as usize)
            },
            ..self
        }
    }

    /// The place that follows: `None` where playing in order ends. `by_user` says
    /// that the user asked for it, `pick` is a random number.
    #[verifier::opaque]
    pub open spec fn next_place(self, by_user: bool, pick: usize) -> Option<usize> {
        let len = self.items.len();
        let after: int = match self.cursor {
            Some(i) => i + 1,
            None => 0,
        };
        if len == 0 {
            None
        } else {
            match self.mode {
                PlaybackMode::Sequential => if after < len {
                    Some(after as usize)
                } else {
                    None
                },
                PlaybackMode::RepeatAll => Some(
                    (if after < len {
                        after
                    } else {
                        0
                    }) as usize,
                ),
                PlaybackMode::RepeatOne => match self.cursor {
                    Some(i) if !by_user && i < len => Some(i),
                    _ => Some(
                        (if after < len {
                            after
                        } else {
                            0
                        }) as usize,
                    ),
                },
                PlaybackMode::Shuffle => Some((pick as int % len as int) as usize),
            }
        }
    }

    /// The place before: from the first back to the last.
    #[verifier::opaque]
    pub open spec fn previous_place(self) -> Option<usize> {
        let len = self.items.len();
        if len == 0 {
            None
        } else {
            match self.cursor {
                Some(i) => if 0 < i <= len {
                    Some((i - 1) as usize)
                } else {
                    Some((len - 1) as usize)
                },
                None => Some((len - 1) as usize),
            }
        }
    }

    /// Standing at `place`, where that is one.
    pub open spec fn at(self, place: Option<usize>) -> PlayQueue<Seq<Song>> {
        match place {
            Some(i) => PlayQueue { cursor: Some(i), ..self },
            None => self,
        }
    }

    /// Standing at `index`, where there is a song.
    pub open spec fn jumped(self, index: usize) -> PlayQueue<Seq<Song>> {
        if index < self.items.len() {
            PlayQueue { cursor: Some(index), ..self }
        } else {
            self
        }
    }

    pub open spec fn appended(self, songs: Seq<Song>) -> PlayQueue<Seq<Song>> {
        PlayQueue { items: self.items + songs, ..self }
    }

    /// Where a song goes that is to be played next.
    pub open spec fn place_for_next(self) -> int {
        match self.cursor {
            Some(i) => if i < self.items.len() {
                i + 1
            } else {
                self.items.len() as int
            },
            None => self.items.len() as int,
        }
    }

    pub open spec fn inserted_next(self, song: Song) -> PlayQueue<Seq<Song>> {
        PlayQueue { items: self.items.insert(self.place_for_next(), song), ..self }
    }

    /// Without the song at `index`; the queue keeps standing at its song, or at
    /// the one that takes its place.
    pub open spec fn without(self, index: usize) -> PlayQueue<Seq<Song>> {
        if index >= self.items.len() {
            self
        } else {
            PlayQueue {
                items: self.items.remove(index as int),
                cursor: match self.cursor {
                    Some(i) => if i > index {
                        Some((i - 1) as usize)
                    } else if i == index && i + 1 == self.items.len() {
                        if i == 0 {
                            None
                        } else {
                            Some((i - 1) as usize)
                        }
                    } else {
                        Some(i)
                    },
                    None => None,
                },
                ..self
            }
        }
    }

    pub open spec fn emptied(self) -> PlayQueue<Seq<Song>> {
        PlayQueue { items: Seq::empty(), cursor: None, ..self }
    }

    /// The first place of a song with this hash, from `from` on.
    pub open spec fn place_of(self, hash: Seq<char>, from: int) -> Option<usize>
        decreases self.items.len() - from,
    {
        if from < 0 || from >= self.items.len() {
            None
        } else if self.items[from].hash@ == hash {
            Some(from as usize)
        } else {
            self.place_of(hash, from + 1)
        }
    }
}

/// A copy of a list of songs.
pub fn clone_songs(songs: &Vec<Song>) -> (r: Vec<Song>)
    ensures
        r@ == songs@,
{
    let mut out: Vec<Song> = Vec::new();
    let mut i: usize = 0;
    while i < songs.len()
        invariant
            i <= songs@.len(),
            out@ == songs@.take(i as int),
        decreases songs@.len() - i,
    {
        out.push(songs[i].clone());
        i = i + 1;
        assert(out@ =~= songs@.take(i as int));
    }
    assert(songs@.take(i as int) =~= songs@);
    out
}

impl PlayQueue<Vec<Song>> {
    pub fn new(mode: PlaybackMode) -> (r: Self)
        ensures
            r@ == (PlayQueue { items: Seq::<Song>::empty(), cursor: None, mode }),
    {
        PlayQueue { items: Vec::new(), cursor: None, mode }
    }

    pub fn len(&self) -> (r: usize)
        ensures
            r == self@.items.len(),
    {
        self.items.len()
    }

    pub fn is_empty(&self) -> (r: bool)
        ensures
            r == (self@.items.len() == 0),
    {
        self.items.len() == 0
    }

    /// The song that the queue stands at.
    pub fn current(&self) -> (r: Option<Song>)
        ensures
            r == self@.current_song(),
    {
        match self.cursor {
            Some(i) => if i < self.items.len() {
                Some(self.items[i].clone())
            } else {
                None
            },
            None => None,
        }
    }

    /// Replaces the songs; gives the one that the queue then stands at.
    pub fn replace_with(&mut self, songs: Vec<Song>, index: usize) -> (r: Option<Song>)
        ensures
            final(self)@ == old(self)@.replaced(songs@, index),
            r == final(self)@.current_song(),
    {
        self.items = songs;
        self.cursor = if self.items.len() == 0 {
            None
        } else if index < self.items.len() {
            Some(index)
        } else {
            Some(self.items.len() - 1)
        };
        self.current()
    }

    /// Goes to `index`; gives the song there.
    pub fn jump_to(&mut self, index: usize) -> (r: Option<Song>)
        ensures
            final(self)@ == old(self)@.jumped(index),
            r == (if index < old(self)@.items.len() {
                Some(old(self)@.items[index as int])
            } else {
                None
            }),
    {
        if index < self.items.len() {
            self.cursor = Some(index);
            Some(self.items[index].clone())
        } else {
            None
        }
    }

    /// Goes on; gives the new place.
    pub fn advance(&mut self, by_user: bool, pick: usize) -> (r: Option<usize>)
        ensures
            r == old(self)@.next_place(by_user, pick),
            final(self)@ == old(self)@.at(r),
    {
        proof {
            reveal(PlayQueue::next_place);
        }
        let len: usize = self.items.len();
        if len == 0 {
            return None;
        }
        let after: usize = match self.cursor {
            Some(i) => if i < len {
                i + 1
            } else {
                len
            },
            None => 0,
        };
        let wrapped: usize = if after < len {
            after
        } else {
            0
        };
        let place: Option<usize> = match self.mode {
            PlaybackMode::Sequential => if after < len {
                Some(after)
            } else {
                None
            },
            PlaybackMode::RepeatAll => Some(wrapped),
            PlaybackMode::RepeatOne => match self.cursor {
                Some(i) => if !by_user && i < len {
                    Some(i)
                } else {
                    Some(wrapped)
                },
                None => Some(wrapped),
            },
            PlaybackMode::Shuffle => {
                assert(pick % len <= pick) by (nonlinear_arith)
                    requires
                        len > 0,
                ;
                Some(pick % len)
            },
        };
        if place.is_some() {
            self.cursor = place;
        }
        place
    }

    /// Goes back; gives the new place.
    pub fn retreat(&mut self) -> (r: Option<usize>)
        ensures
            r == old(self)@.previous_place(),
            final(self)@ == old(self)@.at(r),
    {
        proof {
            reveal(PlayQueue::previous_place);
        }
        let len: usize = self.items.len();
        if len == 0 {
            return None;
        }
        let place: usize = match self.cursor {
            Some(i) => if 0 < i && i <= len {
                i - 1
            } else {
                len - 1
            },
            None => len - 1,
        };
        self.cursor = Some(place);
        Some(place)
    }

    pub fn append(&mut self, song: Song)
        ensures
            final(self)@ == old(self)@.appended(seq![song]),
    {
        self.items.push(song);
        assert(self@ =~= old(self)@.appended(seq![song]));
    }

    pub fn append_all(&mut self, songs: Vec<Song>)
        ensures
            final(self)@ == old(self)@.appended(songs@),
    {
        let mut songs = songs;
        self.items.append(&mut songs);
    }

    pub fn insert_next(&mut self, song: Song)
        ensures
            final(self)@ == old(self)@.inserted_next(song),
    {
        let len: usize = self.items.len();
        let place: usize = match self.cursor {
            Some(i) => if i < len {
                i + 1
            } else {
                len
            },
            None => len,
        };
        self.items.insert(place, song);
    }

    /// Takes the song at `index` out.
    pub fn remove(&mut self, index: usize) -> (r: Option<Song>)
        ensures
            final(self)@ == old(self)@.without(index),
            r == (if index < old(self)@.items.len() {
                Some(old(self)@.items[index as int])
            } else {
                None
            }),
    {
        let len: usize = self.items.len();
        if index >= len {
            return None;
        }
        let song = self.items.remove(index);
        self.cursor = match self.cursor {
            Some(i) => if i > index {
                Some(i - 1)
            } else if i == index && i == len - 1 {
                if i == 0 {
                    None
                } else {
                    Some(i - 1)
                }
            } else {
                Some(i)
            },
            None => None,
        };
        Some(song)
    }

    pub fn clear(&mut self)
        ensures
            final(self)@ == old(self)@.emptied(),
    {
        self.items = Vec::new();
        self.cursor = None;
    }

    /// The first place of a song with this hash.
    pub fn position(&self, hash: &str) -> (r: Option<usize>)
        ensures
            r == self@.place_of(hash@, 0),
    {
        let mut i: usize = 0;
        while i < self.items.len()
            invariant
                i <= self.items@.len(),
                self@.place_of(hash@, 0) == self@.place_of(hash@, i as int),
            decreases self.items@.len() - i,
        {
            if crate::text::same(self.items[i].hash.as_str(), hash) {
                return Some(i);
            }
            i = i + 1;
        }
        None
    }
}

/// Whatever is done to a queue, it stands at one of its songs, if at any.
pub proof fn queue_stays_well_formed(
    queue: PlayQueue<Seq<Song>>,
    songs: Seq<Song>,
    song: Song,
    index: usize,
    by_user: bool,
    pick: usize,
)
    requires
        queue.wf(),
    ensures
        queue.replaced(songs, index).wf(),
        queue.jumped(index).wf(),
        queue.at(queue.next_place(by_user, pick)).wf(),
        queue.at(queue.previous_place()).wf(),
        queue.appended(songs).wf(),
        queue.inserted_next(song).wf(),
        queue.without(index).wf(),
        queue.emptied().wf(),
{
    reveal(PlayQueue::next_place);
    reveal(PlayQueue::previous_place);
    if queue.items.len() > 0 {
        let p = pick as int;
        let n = queue.items.len() as int;
        assert(0 <= p % n < n && p % n <= p) by (nonlinear_arith)
            requires
                p >= 0,
                n > 0,
        ;
    }
}

/// A song that is put in to be played next is the next one, whatever is picked at
/// random, unless the queue is shuffled or the song that ends is repeated.
pub proof fn inserted_song_is_next(
    queue: PlayQueue<Seq<Song>>,
    song: Song,
    by_user: bool,
    pick: usize,
)
    requires
        queue.cursor matches Some(i) && i + 1 <= queue.items.len() < usize::MAX,
        queue.mode != PlaybackMode::Shuffle,
        queue.mode == PlaybackMode::RepeatOne ==> by_user,
    ensures
        ({
            let after = queue.inserted_next(song);
            after.at(after.next_place(by_user, pick)).current_song() == Some(song)
        }),
{
    reveal(PlayQueue::next_place);
}

/// Taking another song out of a queue leaves the song that it stands at.
pub proof fn removal_keeps_the_current_song(queue: PlayQueue<Seq<Song>>, index: usize)
    requires
        queue.wf(),
        queue.items.len() <= usize::MAX,
        queue.cursor != Some(index),
    ensures
        queue.without(index).current_song() == queue.current_song(),
{
}

/// A single song that is repeated is played again whenever it ends by itself, whatever
/// is picked at random.
pub proof fn repeated_song_stays(queue: PlayQueue<Seq<Song>>, pick: usize)
    requires
        queue.mode == PlaybackMode::RepeatOne,
        queue.cursor matches Some(i) && i < queue.items.len(),
    ensures
        queue.next_place(false, pick) == queue.cursor,
        queue.at(queue.next_place(false, pick)) == queue,
{
    reveal(PlayQueue::next_place);
}

/// Going on leads to the song behind the current one, whatever is picked at random,
/// unless the queue is shuffled or the song that ends is repeated.
pub proof fn going_on_leads_to_the_following_song(
    queue: PlayQueue<Seq<Song>>,
    by_user: bool,
    pick: usize,
)
    requires
        queue.cursor matches Some(i) && i + 1 < queue.items.len() <= usize::MAX,
        queue.mode != PlaybackMode::Shuffle,
        queue.mode == PlaybackMode::RepeatOne ==> by_user,
    ensures
        queue.next_place(by_user, pick) == Some((queue.cursor->0 + 1) as usize),
        queue.at(queue.next_place(by_user, pick)).current_song() == Some(
            queue.items[queue.cursor->0 + 1],
        ),
{
    reveal(PlayQueue::next_place);
}

/// At its end a queue that is played in order is over; one that is repeated goes on with
/// its first song, and so does a repeated song when the user asks for the next.
pub proof fn ends_of_queues(queue: PlayQueue<Seq<Song>>, by_user: bool, pick: usize)
    requires
        queue.cursor matches Some(i) && i + 1 == queue.items.len(),
    ensures
        queue.mode == PlaybackMode::Sequential ==> queue.next_place(by_user, pick) is None,
        queue.mode == PlaybackMode::RepeatAll ==> queue.next_place(by_user, pick) == Some(0usize),
        queue.mode == PlaybackMode::RepeatOne && by_user ==> queue.next_place(by_user, pick)
            == Some(0usize),
{
    reveal(PlayQueue::next_place);
}

/// A queue that stands nowhere begins with its first song, unless it is shuffled; an
/// empty one leads nowhere.
pub proof fn queues_begin_with_their_first_song(
    queue: PlayQueue<Seq<Song>>,
    by_user: bool,
    pick: usize,
)
    ensures
        queue.items.len() == 0 ==> queue.next_place(by_user, pick) is None
            && queue.previous_place() is None,
        queue.items.len() > 0 && queue.cursor is None && queue.mode != PlaybackMode::Shuffle
            ==> queue.next_place(by_user, pick) == Some(0usize),
{
    reveal(PlayQueue::next_place);
    reveal(PlayQueue::previous_place);
}

/// A shuffled queue can go on to any of its songs, and to nothing else.
pub proof fn shuffled_queues_reach_every_song(
    queue: PlayQueue<Seq<Song>>,
    by_user: bool,
    pick: usize,
)
    requires
        queue.mode == PlaybackMode::Shuffle,
        0 < queue.items.len() <= usize::MAX,
    ensures
        queue.next_place(by_user, pick) matches Some(i) && i < queue.items.len(),
        pick < queue.items.len() ==> queue.next_place(by_user, pick) == Some(pick),
        pick + queue.items.len() <= usize::MAX ==> queue.next_place(
            by_user,
            (pick + queue.items.len()) as usize,
        ) == queue.next_place(by_user, pick),
{
    reveal(PlayQueue::next_place);
    let p = pick as int;
    let n = queue.items.len() as int;
    assert(0 <= p % n < n) by (nonlinear_arith)
        requires
            n > 0,
    ;
    vstd::arithmetic::div_mod::lemma_mod_add_multiples_vanish(p, n);
    if p < n {
        vstd::arithmetic::div_mod::lemma_small_mod(pick as nat, n as nat);
    }
}

/// Going back leads to the song before the current one, in every mode, and from the
/// first to the last. It undoes going on.
pub proof fn going_back_leads_to_the_song_before(queue: PlayQueue<Seq<Song>>, by_user: bool)
    requires
        queue.cursor matches Some(i) && i < queue.items.len() <= usize::MAX,
    ensures
        ({
            let i = queue.cursor->0;
            &&& i > 0 ==> queue.previous_place() == Some((i - 1) as usize)
            &&& i == 0 ==> queue.previous_place() == Some((queue.items.len() - 1) as usize)
            &&& queue.mode == PlaybackMode::RepeatAll ==> {
                let on = queue.at(queue.next_place(by_user, 0));
                on.at(on.previous_place()) == queue
            }
        }),
{
    reveal(PlayQueue::next_place);
    reveal(PlayQueue::previous_place);
}

/// A list that is played from a place on is the queue, which stands at that place and
/// goes on in the mode that was set.
pub proof fn replaced_queues_stand_at_the_chosen_song(
    queue: PlayQueue<Seq<Song>>,
    songs: Seq<Song>,
    index: usize,
)
    requires
        index < songs.len(),
    ensures
        queue.replaced(songs, index).items == songs,
        queue.replaced(songs, index).current_song() == Some(songs[index as int]),
        queue.replaced(songs, index).cursor == Some(index),
        queue.replaced(songs, index).mode == queue.mode,
        index < queue.items.len() ==> queue.jumped(index).current_song() == Some(
            queue.items[index as int],
        ) && queue.jumped(index).items == queue.items && queue.jumped(index).mode == queue.mode,
{
}

/// Songs are added behind all others, in their order. The songs that are there keep
/// their places, and the queue keeps standing at its song.
pub proof fn added_songs_come_last(queue: PlayQueue<Seq<Song>>, songs: Seq<Song>, i: int)
    requires
        0 <= i < queue.items.len() + songs.len(),
    ensures
        queue.appended(songs).items.len() == queue.items.len() + songs.len(),
        queue.appended(songs).items[i] == (if i < queue.items.len() {
            queue.items[i]
        } else {
            songs[i - queue.items.len()]
        }),
        queue.appended(songs).cursor == queue.cursor,
        queue.appended(songs).mode == queue.mode,
{
}

/// A song that is put in to be played next comes right behind the current one. The
/// others keep their order, and the queue keeps standing at its song.
pub proof fn inserted_songs_follow_the_current_one(
    queue: PlayQueue<Seq<Song>>,
    song: Song,
    i: int,
)
    requires
        queue.wf(),
        0 <= i < queue.items.len(),
    ensures
        ({
            let after = queue.inserted_next(song);
            let place: int = match queue.cursor {
                Some(at) => at + 1,
                None => queue.items.len() as int,
            };
            &&& after.items.len() == queue.items.len() + 1
            &&& after.items[place] == song
            &&& after.items[if i < place {
                i
            } else {
                i + 1
            }] == queue.items[i]
            &&& after.current_song() == queue.current_song()
            &&& after.mode == queue.mode
        }),
{
}

/// Taking a song out leaves all others in their order. Where it is the current one, the
/// queue stands at the song that takes its place, or at the last one.
pub proof fn removal_leaves_the_others(queue: PlayQueue<Seq<Song>>, index: usize, i: int)
    requires
        queue.wf(),
        index < queue.items.len() <= usize::MAX,
        0 <= i < queue.items.len() - 1,
    ensures
        ({
            let after = queue.without(index);
            &&& after.items.len() == queue.items.len() - 1
            &&& after.items[i] == queue.items[if i < index {
                i
            } else {
                i + 1
            }]
            &&& queue.cursor == Some(index) && index + 1 < queue.items.len() ==> after.current_song()
                == Some(queue.items[index + 1])
            &&& queue.cursor == Some(index) && index + 1 == queue.items.len()
                ==> after.current_song() == Some(queue.items[index - 1])
            &&& after.mode == queue.mode
        }),
{
}

/// An emptied queue has no songs and stands nowhere; so does one whose only song is taken
/// out. The mode stays.
pub proof fn emptied_queues_hold_nothing(queue: PlayQueue<Seq<Song>>)
    requires
        queue.wf(),
    ensures
        queue.emptied().items.len() == 0,
        queue.emptied().cursor is None,
        queue.emptied().mode == queue.mode,
        queue.items.len() == 1 ==> queue.without(0).items.len() == 0 && queue.without(0).cursor
            is None,
{
}

/// The place of a song in a queue is the first at which one with its hash stands.
pub proof fn songs_are_found_at_their_first_place(
    queue: PlayQueue<Seq<Song>>,
    hash: Seq<char>,
    from: int,
)
    requires
        0 <= from <= queue.items.len() <= usize::MAX,
    ensures
        match queue.place_of(hash, from) {
            Some(i) => from <= i < queue.items.len() && queue.items[i as int].hash@ == hash
                && forall|j: int|
                from <= j < i ==> (#[trigger] queue.items[j]).hash@ != hash,
            None => forall|j: int|
                from <= j < queue.items.len() ==> (#[trigger] queue.items[j]).hash@ != hash,
        },
    decreases queue.items.len() - from,
{
    if from < queue.items.len() && queue.items[from].hash@ != hash {
        songs_are_found_at_their_first_place(queue, hash, from + 1);
    }
}

/// The modes come in this order: in order, the list again and again, the song again and
/// again, shuffled. No two are called the same.
pub proof fn modes_come_in_order(mode: PlaybackMode, other: PlaybackMode)
    ensures
        PlaybackMode::Sequential.following() == PlaybackMode::RepeatAll,
        PlaybackMode::RepeatAll.following() == PlaybackMode::RepeatOne,
        PlaybackMode::RepeatOne.following() == PlaybackMode::Shuffle,
        PlaybackMode::Shuffle.following() == PlaybackMode::Sequential,
        mode.name() == other.name() ==> mode == other,
{
    reveal_strlit("顺序");
    reveal_strlit("列表循环");
    reveal_strlit("单曲循环");
    reveal_strlit("随机");
    assert("顺序"@[0] != "随机"@[0]);
    assert("列表循环"@[0] != "单曲循环"@[0]);
    assert("顺序"@.len() != "列表循环"@.len());
}

/// Four steps through the modes lead back to the first.
pub proof fn modes_come_round(mode: PlaybackMode)
    ensures
        mode.following().following().following().following() == mode,
{
}

/// A place behind the end of a list counts as its last, and a queue is not left for a place
/// that it does not have.
pub proof fn places_behind_the_end(queue: PlayQueue<Seq<Song>>, songs: Seq<Song>, index: usize)
    requires
        songs.len() <= usize::MAX,
    ensures
        0 < songs.len() <= index ==> queue.replaced(songs, index).current_song() == Some(
            songs.last(),
        ),
        songs.len() == 0 ==> queue.replaced(songs, index).cursor is None,
        index >= queue.items.len() ==> queue.jumped(index) == queue,
        index >= queue.items.len() ==> queue.without(index) == queue,
{
}

} // verus!
