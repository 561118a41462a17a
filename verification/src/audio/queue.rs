use vstd::prelude::*;

use crate::audio::player::RepeatMode;
use crate::audio::shuffle::identity_order;
use crate::audio::shuffle::is_permutation;
use crate::audio::shuffle::ShuffleListModel;
use crate::audio::song::is_sentinel;
use crate::audio::song::same_song;
use crate::audio::song::Song;
use crate::audio::song::SongView;

verus! {

/// The cursor after "next" under a repeat mode, on a queue of `n` songs.
/// An unset cursor moves to the first song. At the last song the queue is
/// exhausted (cursor unset) unless it repeats.
pub open spec fn next_cursor(repeat: RepeatMode, n: nat, cursor: Option<u32>) -> Option<u32> {
    if n == 0 {
        None
    } else {
        match cursor {
            None => Some(0u32),
            Some(c) => match repeat {
                RepeatMode::Consecutive => if c + 1 < n {
                    Some((c + 1) as u32)
                } else {
                    None
                },
                RepeatMode::RepeatOne => Some(c),
                RepeatMode::RepeatAll => if c + 1 < n {
                    Some((c + 1) as u32)
                } else {
                    Some(0u32)
                },
            },
        }
    }
}

/// The cursor after "previous": one step back unless it is unset or at the
/// first song, where it stays.
pub open spec fn previous_cursor(cursor: Option<u32>) -> Option<u32> {
    match cursor {
        Some(c) => if c > 0 {
            Some((c - 1) as u32)
        } else {
            cursor
        },
        None => None,
    }
}

/// The cursor after `steps` calls of "next".
pub open spec fn cursor_after(repeat: RepeatMode, n: nat, cursor: Option<u32>, steps: nat) -> Option<
    u32,
>
    decreases steps,
{
    if steps == 0 {
        cursor
    } else {
        next_cursor(repeat, n, cursor_after(repeat, n, cursor, (steps - 1) as nat))
    }
}

/// What a song is while it waits in the queue: not playing.
pub open spec fn at_rest(s: SongView) -> SongView {
    SongView { playing: false, ..s }
}

/// The value of an optional song.
pub open spec fn opt_song(o: Option<Song>) -> Option<SongView> {
    match o {
        Some(s) => Some(s@),
        None => None,
    }
}

/// Backing position of the current song after the entry at backing
/// position `k` has left a collection of `n` entries: the current song
/// stays current; if it was the one removed, the song that followed it in
/// canonical order takes its place, and the cursor is unset when none did.
pub open spec fn backing_after_removal(current: Option<int>, k: int, n: int) -> Option<int> {
    match current {
        Some(b) => if b < k {
            Some(b)
        } else if b > k {
            Some(b - 1)
        } else if k + 1 < n {
            Some(k)
        } else {
            None
        },
        None => None,
    }
}

/// What the removal of the song at canonical position `k` does to a queue:
/// that entry is gone, the others keep their order, repeat mode and shuffle
/// setting stay, and the current song stays current unless it is the one
/// that left.
pub open spec fn song_left(pre: Queue, post: Queue, k: int) -> bool {
    &&& 0 <= k < pre.len()
    &&& post.entries() == pre.entries().remove(k)
    &&& post.repeat() == pre.repeat()
    &&& post.is_shuffled() == pre.is_shuffled()
    &&& post.current_backing() == backing_after_removal(
        pre.current_backing(),
        k,
        pre.len() as int,
    )
    &&& pre.current_backing() != Some(k) ==> post.current() == pre.current()
}

/// Nothing that can be observed of the queue has changed.
pub open spec fn untouched(pre: Queue, post: Queue) -> bool {
    &&& post.entries() == pre.entries()
    &&& post.order() == pre.order()
    &&& post.cursor() == pre.cursor()
    &&& post.repeat() == pre.repeat()
    &&& post.is_shuffled() == pre.is_shuffled()
}

/// Position of the first entry at or after `i` that is the same song as
/// `song`.
pub open spec fn first_match_from(entries: Seq<SongView>, song: SongView, i: int) -> Option<int>
    decreases entries.len() - i,
{
    if i < 0 || i >= entries.len() {
        None
    } else if same_song(entries[i].data, song.data) {
        Some(i)
    } else {
        first_match_from(entries, song, i + 1)
    }
}

/// The songs of a batch that a queue with room for `room` more takes in:
/// every song but the sentinel, in order, as long as there is room.
pub open spec fn admitted(songs: Seq<SongView>, room: nat) -> Seq<SongView>
    decreases songs.len(),
{
    if songs.len() == 0 {
        Seq::<SongView>::empty()
    } else {
        let earlier = admitted(songs.drop_last(), room);
        if !is_sentinel(songs.last().data) && earlier.len() < room {
            earlier.push(at_rest(songs.last()))
        } else {
            earlier
        }
    }
}

/// The song with its selection mark set.
pub open spec fn marked(s: SongView, selected: bool) -> SongView {
    SongView { selected: selected, ..s }
}

/// Seconds of music at the effective positions from `from` up to, not
/// including, `to`.
pub open spec fn duration_between(entries: Seq<SongView>, order: Seq<u32>, from: int, to: int) -> nat
    decreases to - from,
{
    if to <= from {
        0
    } else {
        duration_between(entries, order, from, to - 1)
            + entries[order[to - 1] as int].data.duration as nat
    }
}

/// A number of seconds as far as sixty-four bits can count it.
pub open spec fn saturated(seconds: nat) -> u64 {
    if seconds > u64::MAX {
        u64::MAX
    } else {
        seconds as u64
    }
}

/// How many of the entries are selected.
pub open spec fn count_selected(entries: Seq<SongView>) -> nat
    decreases entries.len(),
{
    if entries.len() == 0 {
        0
    } else {
        count_selected(entries.drop_last()) + if entries.last().selected {
            1nat
        } else {
            0nat
        }
    }
}

/// The ordered collection of songs with its cursor, repeat mode and
/// shuffle projection.
#[derive(Debug)]
pub struct Queue {
    model: ShuffleListModel,
    store: Vec<Song>,
    repeat_mode: RepeatMode,
    current_pos: Option<u32>,
}

impl Queue {
    /// The queue's invariant: the projection covers exactly the stored
    /// songs, the cursor is unset or a valid effective position, and no
    /// stored song is the sentinel.
    pub closed spec fn wf(self) -> bool {
        &&& self.wf_store()
        &&& match self.current_pos {
            Some(c) => c < self.store.len(),
            None => true,
        }
    }

    /// The part of the invariant that does not speak of the cursor.
    spec fn wf_store(self) -> bool {
        &&& self.model.wf()
        &&& self.store.len() == self.model.size()
        &&& forall|i: int| 0 <= i < self.store.len() ==> !is_sentinel((#[trigger] self.store[i])@.data)
    }

    /// The songs in canonical (insertion) order, each at rest.
    pub closed spec fn entries(self) -> Seq<SongView> {
        Seq::new(self.store.len() as nat, |i: int| at_rest(self.store[i]@))
    }

    /// The effective ordering: entry `i` is the canonical position of the
    /// song at effective position `i`.
    pub closed spec fn order(self) -> Seq<u32> {
        self.model.order()
    }

    /// The cursor, an effective position.
    pub closed spec fn cursor(self) -> Option<u32> {
        self.current_pos
    }

    pub closed spec fn repeat(self) -> RepeatMode {
        self.repeat_mode
    }

    pub closed spec fn is_shuffled(self) -> bool {
        self.model.is_shuffled()
    }

    /// Number of songs.
    pub open spec fn len(self) -> nat {
        self.entries().len()
    }

    /// Canonical position of the current song.
    pub open spec fn current_backing(self) -> Option<int> {
        match self.cursor() {
            Some(c) => Some(self.order()[c as int] as int),
            None => None,
        }
    }

    /// The song at canonical position `i`: it is playing exactly when it
    /// is the song at the cursor.
    pub open spec fn song(self, i: int) -> SongView {
        SongView { playing: self.current_backing() == Some(i), ..self.entries()[i] }
    }

    /// The song at effective position `pos`.
    pub open spec fn effective(self, pos: int) -> SongView {
        self.song(self.order()[pos] as int)
    }

    /// The song at the cursor.
    pub open spec fn current(self) -> Option<SongView> {
        match self.cursor() {
            Some(c) => Some(self.effective(c as int)),
            None => None,
        }
    }

    /// What the invariant gives to callers.
    pub proof fn lemma_wf(self)
        requires
            self.wf(),
        ensures
            self.len() <= u32::MAX,
            is_permutation(self.order(), self.len()),
            !self.is_shuffled() ==> self.order() == identity_order(self.len()),
            self.cursor().is_some() ==> self.cursor().unwrap() < self.len(),
            forall|i: int| 0 <= i < self.len() ==> !is_sentinel((#[trigger] self.entries()[i]).data),
            forall|i: int|
                0 <= i < self.len() ==> ((#[trigger] self.song(i)).playing <==> self.current_backing()
                    == Some(i)),
    {
        self.model.lemma_order();
        assert forall|i: int| 0 <= i < self.len() implies !is_sentinel(
            (#[trigger] self.entries()[i]).data,
        ) by {
            assert(!is_sentinel(self.store[i]@.data));
        }
    }

    /// An empty queue: no cursor, consecutive play, no shuffle.
    pub fn new() -> (r: Queue)
        ensures
            r.wf(),
            r.entries() == Seq::<SongView>::empty(),
            r.cursor().is_none(),
            r.repeat() == RepeatMode::Consecutive,
            !r.is_shuffled(),
    {
        let r = Queue {
            model: ShuffleListModel::new(0),
            store: Vec::new(),
            repeat_mode: RepeatMode::Consecutive,
            current_pos: None,
        };
        assert(r.entries() =~= Seq::<SongView>::empty());
        r
    }

    pub fn n_songs(&self) -> (r: u32)
        requires
            self.wf(),
        ensures
            r == self.len(),
    {
        self.model.n_items()
    }

    pub fn is_empty(&self) -> (r: bool)
        requires
            self.wf(),
        ensures
            r == (self.len() == 0),
    {
        self.model.n_items() == 0
    }

    /// The song at effective position `pos`, or nothing past the end.
    pub fn song_at(&self, pos: u32) -> (r: Option<Song>)
        requires
            self.wf(),
        ensures
            opt_song(r) == if pos < self.len() {
                Some(self.effective(pos as int))
            } else {
                None
            },
    {
        match self.model.item(pos) {
            Some(backing) => {
                let mut song = self.store[backing as usize].clone();
                song.set_playing(self.current_pos == Some(pos));
                proof {
                    self.lemma_wf();
                    if self.current_pos.is_some() {
                        let c = self.current_pos.unwrap();
                        assert(self.order()[c as int] == self.order()[pos as int] ==> c == pos);
                    }
                }
                Some(song)
            },
            None => None,
        }
    }

    /// The song at the cursor.
    pub fn current_song(&self) -> (r: Option<Song>)
        requires
            self.wf(),
        ensures
            opt_song(r) == self.current(),
    {
        match self.current_pos {
            Some(pos) => self.song_at(pos),
            None => None,
        }
    }

    pub fn current_song_index(&self) -> (r: Option<u32>)
        ensures
            r == self.cursor(),
    {
        self.current_pos
    }

    pub fn repeat_mode(&self) -> (r: RepeatMode)
        ensures
            r == self.repeat(),
    {
        self.repeat_mode
    }

    pub fn set_repeat_mode(&mut self, repeat_mode: RepeatMode)
        requires
            old(self).wf(),
        ensures
            final(self).wf(),
            final(self).repeat() == repeat_mode,
            final(self).entries() == old(self).entries(),
            final(self).order() == old(self).order(),
            final(self).cursor() == old(self).cursor(),
            final(self).is_shuffled() == old(self).is_shuffled(),
    {
        self.repeat_mode = repeat_mode;
    }

    pub fn is_first_song(&self) -> (r: bool)
        ensures
            r == (self.cursor() == Some(0u32)),
    {
        match self.current_pos {
            Some(pos) => pos == 0,
            None => false,
        }
    }

    pub fn is_last_song(&self) -> (r: bool)
        requires
            self.wf(),
        ensures
            r == (self.cursor().is_some() && self.cursor().unwrap() + 1 == self.len()),
    {
        match self.current_pos {
            Some(pos) => pos == self.model.n_items() - 1,
            None => false,
        }
    }

    pub fn shuffled(&self) -> (r: bool)
        ensures
            r == self.is_shuffled(),
    {
        self.model.shuffled()
    }

    /// The shuffle projection over the stored songs.
    pub fn model(&self) -> (r: &ShuffleListModel)
        ensures
            r.order() == self.order(),
            r.is_shuffled() == self.is_shuffled(),
    {
        &self.model
    }

    /// Canonical position of the song at the cursor.
    fn current_backing_index(&self) -> (r: Option<u32>)
        requires
            self.wf(),
        ensures
            match r {
                Some(b) => self.current_backing() == Some(b as int) && b < self.len(),
                None => self.current_backing().is_none(),
            },
    {
        match self.current_pos {
            Some(c) => self.model.item(c),
            None => None,
        }
    }

    /// Points the cursor at the song at canonical position `backing`.
    fn resolve_cursor(&mut self, backing: Option<u32>)
        requires
            old(self).wf_store(),
            backing.is_some() ==> backing.unwrap() < old(self).store.len(),
        ensures
            final(self).wf(),
            final(self).store == old(self).store,
            final(self).model == old(self).model,
            final(self).repeat_mode == old(self).repeat_mode,
            match backing {
                Some(b) => final(self).current_backing() == Some(b as int),
                None => final(self).current_backing().is_none() && final(self).cursor().is_none(),
            },
    {
        self.current_pos = match backing {
            Some(b) => self.model.position_of(b),
            None => None,
        };
    }

    /// Appends a song. The sentinel song is refused, and so is any song
    /// once the queue holds as many as its positions can count. Returns
    /// whether the queue grew. The current song stays current; a shuffle in
    /// force is regenerated over the longer queue.
    pub fn add_song(&mut self, song: Song) -> (added: bool)
        requires
            old(self).wf(),
        ensures
            final(self).wf(),
            added == (!is_sentinel(song@.data) && old(self).len() < u32::MAX),
            final(self).repeat() == old(self).repeat(),
            final(self).is_shuffled() == old(self).is_shuffled(),
            final(self).current_backing() == old(self).current_backing(),
            final(self).current() == old(self).current(),
            added ==> final(self).entries() == old(self).entries().push(at_rest(song@)),
            !added ==> {
                &&& final(self).entries() == old(self).entries()
                &&& final(self).order() == old(self).order()
                &&& final(self).cursor() == old(self).cursor()
            },
    {
        if song.equals(&Song::default()) || self.store.len() >= 0xffff_ffff {
            return false;
        }
        proof {
            self.lemma_wf();
        }
        let current = self.current_backing_index();
        let was_shuffled = self.model.shuffled();
        self.model.unshuffle();
        self.store.push(song);
        self.model.set_model(self.store.len() as u32);
        if was_shuffled {
            self.model.reshuffle();
        }
        assert(self.wf_store()) by {
            assert forall|i: int| 0 <= i < self.store.len() implies !is_sentinel(
                (#[trigger] self.store[i])@.data,
            ) by {
                if i < old(self).store.len() {
                    assert(self.store[i] == old(self).store[i]);
                }
            }
        }
        self.resolve_cursor(current);
        assert(self.entries() =~= old(self).entries().push(at_rest(song@)));
        true
    }

    /// Appends the songs of a batch in order, each under the rule of
    /// [`Queue::add_song`], with a single regeneration of the shuffle.
    /// Returns how many were added.
    pub fn add_songs(&mut self, songs: &Vec<Song>) -> (n_added: u32)
        requires
            old(self).wf(),
        ensures
            final(self).wf(),
            final(self).entries() == old(self).entries() + admitted(
                songs@.map_values(|s: Song| s@),
                (u32::MAX - old(self).len()) as nat,
            ),
            n_added == final(self).len() - old(self).len(),
            final(self).repeat() == old(self).repeat(),
            final(self).is_shuffled() == old(self).is_shuffled(),
            final(self).current_backing() == old(self).current_backing(),
            final(self).current() == old(self).current(),
    {
        proof {
            self.lemma_wf();
        }
        let current = self.current_backing_index();
        let was_shuffled = self.model.shuffled();
        self.model.unshuffle();
        let ghost views = songs@.map_values(|s: Song| s@);
        let ghost room = (u32::MAX - old(self).len()) as nat;
        let sentinel = Song::default();
        let mut n_added: u32 = 0;
        let mut i: usize = 0;
        assert(self.entries() =~= old(self).entries() + admitted(views.subrange(0, 0), room));
        while i < songs.len()
            invariant
                i <= songs.len(),
                views == songs@.map_values(|s: Song| s@),
                room == (u32::MAX - old(self).len()) as nat,
                is_sentinel(sentinel@.data),
                sentinel@.data == crate::audio::song::sentinel_data(),
                self.model.wf(),
                !self.model.is_shuffled(),
                self.current_pos == old(self).current_pos,
                self.repeat_mode == old(self).repeat_mode,
                old(self).store.len() <= u32::MAX,
                self.store.len() == old(self).store.len() + n_added,
                self.store.len() <= u32::MAX,
                forall|j: int|
                    0 <= j < self.store.len() ==> !is_sentinel((#[trigger] self.store[j])@.data),
                self.entries() == old(self).entries() + admitted(
                    views.subrange(0, i as int),
                    room,
                ),
                old(self).entries().len() == old(self).store.len(),
            decreases songs.len() - i,
        {
            let ghost before = self.store;
            let ghost prefix = views.subrange(0, i as int);
            let ghost taken = admitted(prefix, room);
            let ghost entries_before = self.entries();
            let ghost longer = views.subrange(0, i + 1);
            proof {
                assert(longer.drop_last() =~= prefix);
                assert(longer.last() == songs[i as int]@);
                crate::audio::song::lemma_same_song(songs[i as int]@.data, sentinel@.data);
                assert(self.entries().len() == self.store.len());
                assert(self.store.len() == old(self).entries().len() + taken.len());
            }
            if !songs[i].equals(&sentinel) && self.store.len() < 0xffff_ffff {
                self.store.push(songs[i].clone());
                n_added += 1;
                proof {
                    assert forall|j: int| 0 <= j < self.store.len() implies !is_sentinel(
                        (#[trigger] self.store[j])@.data,
                    ) by {
                        if j < before.len() {
                            assert(self.store[j] == before[j]);
                        }
                    }
                    assert(admitted(longer, room) == taken.push(at_rest(songs[i as int]@)));
                    assert(self.entries() =~= entries_before.push(at_rest(songs[i as int]@)));
                    assert(self.entries() =~= old(self).entries() + taken.push(
                        at_rest(songs[i as int]@),
                    ));
                }
            } else {
                proof {
                    assert(admitted(longer, room) == taken);
                }
            }
            i += 1;
        }
        assert(views.subrange(0, songs.len() as int) =~= views);
        self.model.set_model(self.store.len() as u32);
        if was_shuffled {
            self.model.reshuffle();
        }
        self.resolve_cursor(current);
        n_added
    }

    /// Canonical position of the first song that is the same song as
    /// `song`.
    fn find_first_match(&self, song: &Song) -> (r: Option<usize>)
        ensures
            match r {
                Some(k) => k < self.entries().len() && first_match_from(self.entries(), song@, 0)
                    == Some(k as int),
                None => first_match_from(self.entries(), song@, 0).is_none(),
            },
    {
        let mut k: usize = 0;
        while k < self.store.len()
            invariant
                k <= self.store.len(),
                self.entries().len() == self.store.len(),
                first_match_from(self.entries(), song@, 0) == first_match_from(
                    self.entries(),
                    song@,
                    k as int,
                ),
            decreases self.store.len() - k,
        {
            if self.store[k].equals(song) {
                return Some(k);
            }
            k += 1;
        }
        None
    }

    /// Removes the song at canonical position `k`.
    fn remove_backing(&mut self, k: usize)
        requires
            old(self).wf(),
            k < old(self).len(),
        ensures
            final(self).wf(),
            song_left(*old(self), *final(self), k as int),
    {
        proof {
            self.lemma_wf();
        }
        let current = self.current_backing_index();
        let n = self.store.len();
        let was_shuffled = self.model.shuffled();
        self.model.unshuffle();
        let _ = self.store.remove(k);
        self.model.set_model(self.store.len() as u32);
        if was_shuffled {
            self.model.reshuffle();
        }
        let next: Option<u32> = match current {
            Some(b) => if (b as usize) < k {
                Some(b)
            } else if (b as usize) > k {
                Some(b - 1)
            } else if k + 1 < n {
                Some(b)
            } else {
                None
            },
            None => None,
        };
        assert(self.wf_store()) by {
            assert forall|i: int| 0 <= i < self.store.len() implies !is_sentinel(
                (#[trigger] self.store[i])@.data,
            ) by {
                if i < k {
                    assert(self.store[i] == old(self).store[i]);
                } else {
                    assert(self.store[i] == old(self).store[i + 1]);
                }
            }
        }
        self.resolve_cursor(next);
        assert(self.entries() =~= old(self).entries().remove(k as int));
    }

    /// Removes the first song, in canonical order, that is the same song
    /// as `song`. Returns whether one was found. The current song stays
    /// current; when it is the one removed, the song that followed it in
    /// canonical order becomes current, and the cursor is unset when none
    /// did. A shuffle in force is regenerated over the shorter queue.
    pub fn remove_song(&mut self, song: &Song) -> (removed: bool)
        requires
            old(self).wf(),
        ensures
            final(self).wf(),
            match first_match_from(old(self).entries(), song@, 0) {
                Some(k) => removed && song_left(*old(self), *final(self), k),
                None => !removed && untouched(*old(self), *final(self)),
            },
    {
        match self.find_first_match(song) {
            Some(k) => {
                self.remove_backing(k);
                true
            },
            None => false,
        }
    }

    /// Removes the song at effective position `pos`, under the rule of
    /// [`Queue::remove_song`]. Returns whether there is such a song.
    pub fn remove_song_at(&mut self, pos: u32) -> (removed: bool)
        requires
            old(self).wf(),
        ensures
            final(self).wf(),
            removed == (pos < old(self).len()),
            if removed {
                song_left(*old(self), *final(self), old(self).order()[pos as int] as int)
            } else {
                untouched(*old(self), *final(self))
            },
    {
        proof {
            self.lemma_wf();
        }
        match self.model.item(pos) {
            Some(backing) => {
                self.remove_backing(backing as usize);
                true
            },
            None => false,
        }
    }

    /// Effective position of the first song, in canonical order, that is
    /// the same song as `song`.
    pub fn first_match_position(&self, song: &Song) -> (r: Option<u32>)
        requires
            self.wf(),
        ensures
            match r {
                Some(pos) => pos < self.len() && first_match_from(self.entries(), song@, 0)
                    == Some(self.order()[pos as int] as int),
                None => first_match_from(self.entries(), song@, 0).is_none(),
            },
    {
        proof {
            self.lemma_wf();
        }
        match self.find_first_match(song) {
            Some(k) => self.model.position_of(k as u32),
            None => None,
        }
    }

    /// Whether the song that [`Queue::remove_song`] would remove for
    /// `song` is the current song.
    pub fn is_first_match_current(&self, song: &Song) -> (r: bool)
        requires
            self.wf(),
        ensures
            r == (first_match_from(self.entries(), song@, 0).is_some() && self.current_backing()
                == first_match_from(self.entries(), song@, 0)),
    {
        let current = self.current_backing_index();
        let mut k: usize = 0;
        while k < self.store.len()
            invariant
                k <= self.store.len(),
                self.entries().len() == self.store.len(),
                match current {
                    Some(b) => self.current_backing() == Some(b as int),
                    None => self.current_backing().is_none(),
                },
                first_match_from(self.entries(), song@, 0) == first_match_from(
                    self.entries(),
                    song@,
                    k as int,
                ),
            decreases self.store.len() - k,
        {
            if self.store[k].equals(song) {
                return match current {
                    Some(b) => b as usize == k,
                    None => false,
                };
            }
            k += 1;
        }
        false
    }

    /// Sets the selection mark of the song at effective position `pos`.
    /// Returns whether there is such a song.
    pub fn set_song_selected(&mut self, pos: u32, selected: bool) -> (found: bool)
        requires
            old(self).wf(),
        ensures
            final(self).wf(),
            final(self).order() == old(self).order(),
            final(self).cursor() == old(self).cursor(),
            final(self).repeat() == old(self).repeat(),
            final(self).is_shuffled() == old(self).is_shuffled(),
            found == (pos < old(self).len()),
            final(self).entries() == if found {
                old(self).entries().update(
                    old(self).order()[pos as int] as int,
                    marked(old(self).entries()[old(self).order()[pos as int] as int], selected),
                )
            } else {
                old(self).entries()
            },
    {
        proof {
            self.lemma_wf();
        }
        match self.model.item(pos) {
            Some(backing) => {
                let mut song = self.store[backing as usize].clone();
                song.set_selected(selected);
                self.store.set(backing as usize, song);
                assert(self.wf_store()) by {
                    assert forall|i: int| 0 <= i < self.store.len() implies !is_sentinel(
                        (#[trigger] self.store[i])@.data,
                    ) by {
                        if i != backing {
                            assert(self.store[i] == old(self).store[i]);
                        } else {
                            assert(!is_sentinel(old(self).store[i]@.data));
                        }
                    }
                }
                assert(self.entries() =~= old(self).entries().update(
                    backing as int,
                    marked(old(self).entries()[backing as int], selected),
                ));
                true
            },
            None => false,
        }
    }

    /// Clears the selection mark of every song.
    pub fn unselect_all_songs(&mut self)
        requires
            old(self).wf(),
        ensures
            final(self).wf(),
            final(self).order() == old(self).order(),
            final(self).cursor() == old(self).cursor(),
            final(self).repeat() == old(self).repeat(),
            final(self).is_shuffled() == old(self).is_shuffled(),
            final(self).entries() == old(self).entries().map_values(
                |s: SongView| marked(s, false),
            ),
    {
        let mut i: usize = 0;
        while i < self.store.len()
            invariant
                i <= self.store.len(),
                self.store.len() == old(self).store.len(),
                self.model == old(self).model,
                self.current_pos == old(self).current_pos,
                self.repeat_mode == old(self).repeat_mode,
                old(self).wf(),
                forall|j: int|
                    0 <= j < i ==> (#[trigger] self.store[j])@ == marked(
                        old(self).store[j]@,
                        false,
                    ),
                forall|j: int| i <= j < self.store.len() ==> self.store[j] == old(self).store[j],
            decreases self.store.len() - i,
        {
            let mut song = self.store[i].clone();
            song.set_selected(false);
            self.store.set(i, song);
            i += 1;
        }
        assert(self.wf_store()) by {
            assert forall|j: int| 0 <= j < self.store.len() implies !is_sentinel(
                (#[trigger] self.store[j])@.data,
            ) by {
                assert(!is_sentinel(old(self).store[j]@.data));
            }
        }
        assert(self.entries() =~= old(self).entries().map_values(|s: SongView| marked(s, false)));
    }

    /// How many songs are selected.
    pub fn n_selected_songs(&self) -> (r: u32)
        requires
            self.wf(),
        ensures
            r == count_selected(self.entries()),
    {
        proof {
            self.lemma_wf();
        }
        let mut n: u32 = 0;
        let mut i: usize = 0;
        assert(self.entries().subrange(0, 0) =~= Seq::<SongView>::empty());
        while i < self.store.len()
            invariant
                i <= self.store.len(),
                self.store.len() <= u32::MAX,
                self.entries().len() == self.store.len(),
                n <= i,
                n == count_selected(self.entries().subrange(0, i as int)),
            decreases self.store.len() - i,
        {
            proof {
                let longer = self.entries().subrange(0, i + 1);
                assert(longer.drop_last() =~= self.entries().subrange(0, i as int));
                assert(longer.last().selected == self.store[i as int]@.selected);
            }
            if self.store[i].selected() {
                n += 1;
            }
            i += 1;
        }
        assert(self.entries().subrange(0, self.store.len() as int) =~= self.entries());
        n
    }

    /// Seconds of music from the current song to the end of the queue in
    /// effective order, as far as sixty-four bits can count them, or
    /// nothing while the cursor is unset.
    pub fn remaining_time(&self) -> (r: Option<u64>)
        requires
            self.wf(),
        ensures
            r == match self.cursor() {
                Some(c) => Some(
                    saturated(
                        duration_between(self.entries(), self.order(), c as int, self.len() as int),
                    ),
                ),
                None => None,
            },
    {
        proof {
            self.lemma_wf();
        }
        let current = match self.current_pos {
            Some(c) => c,
            None => {
                return None;
            },
        };
        let n = self.model.n_items();
        let mut total: u64 = 0;
        let mut pos: u32 = current;
        while pos < n
            invariant
                current <= pos <= n,
                n == self.len(),
                self.wf(),
                total == saturated(
                    duration_between(self.entries(), self.order(), current as int, pos as int),
                ),
            decreases n - pos,
        {
            let backing = self.model.item(pos).unwrap();
            let duration = self.store[backing as usize].duration();
            total = total.saturating_add(duration);
            pos += 1;
        }
        Some(total)
    }

    /// Empties the queue and unsets the cursor.
    pub fn clear(&mut self)
        requires
            old(self).wf(),
        ensures
            final(self).wf(),
            final(self).entries() == Seq::<SongView>::empty(),
            final(self).cursor().is_none(),
            final(self).repeat() == old(self).repeat(),
            final(self).is_shuffled() == old(self).is_shuffled(),
    {
        self.store.clear();
        self.model.set_model(0);
        self.current_pos = None;
        assert(self.entries() =~= Seq::<SongView>::empty());
    }

    /// Moves the cursor to effective position `pos` and returns the song
    /// there. A position past the end unsets the cursor and yields nothing.
    pub fn skip_song(&mut self, pos: u32) -> (r: Option<Song>)
        requires
            old(self).wf(),
        ensures
            final(self).wf(),
            final(self).entries() == old(self).entries(),
            final(self).order() == old(self).order(),
            final(self).repeat() == old(self).repeat(),
            final(self).is_shuffled() == old(self).is_shuffled(),
            final(self).cursor() == if pos < old(self).len() {
                Some(pos)
            } else {
                None
            },
            opt_song(r) == final(self).current(),
    {
        if pos < self.model.n_items() {
            self.current_pos = Some(pos);
        } else {
            self.current_pos = None;
        }
        self.current_song()
    }

    /// Steps the cursor back by one and returns the song there. With the
    /// cursor unset or at the first song nothing changes and nothing is
    /// returned.
    pub fn previous_song(&mut self) -> (r: Option<Song>)
        requires
            old(self).wf(),
        ensures
            final(self).wf(),
            final(self).entries() == old(self).entries(),
            final(self).order() == old(self).order(),
            final(self).repeat() == old(self).repeat(),
            final(self).is_shuffled() == old(self).is_shuffled(),
            final(self).cursor() == previous_cursor(old(self).cursor()),
            opt_song(r) == if final(self).cursor() != old(self).cursor() {
                final(self).current()
            } else {
                None
            },
    {
        match self.current_pos {
            Some(current_pos) => {
                if current_pos > 0 {
                    self.current_pos = Some(current_pos - 1);
                    return self.current_song();
                }
                None
            },
            None => None,
        }
    }

    /// Advances the cursor under the repeat mode and returns the song it
    /// lands on, or nothing when the queue is empty or exhausted.
    pub fn next_song(&mut self) -> (r: Option<Song>)
        requires
            old(self).wf(),
        ensures
            final(self).wf(),
            final(self).entries() == old(self).entries(),
            final(self).order() == old(self).order(),
            final(self).repeat() == old(self).repeat(),
            final(self).is_shuffled() == old(self).is_shuffled(),
            final(self).cursor() == next_cursor(
                old(self).repeat(),
                old(self).len(),
                old(self).cursor(),
            ),
            opt_song(r) == final(self).current(),
    {
        let n_songs = self.model.n_items();
        if n_songs == 0 {
            return None;
        }
        let next: Option<u32> = match self.current_pos {
            Some(current) => match self.repeat_mode {
                RepeatMode::Consecutive => if current < n_songs - 1 {
                    Some(current + 1)
                } else {
                    None
                },
                RepeatMode::RepeatOne => Some(current),
                RepeatMode::RepeatAll => if current < n_songs - 1 {
                    Some(current + 1)
                } else {
                    Some(0)
                },
            },
            None => Some(0),
        };
        self.current_pos = next;
        self.current_song()
    }

    /// Turns the shuffle on, with a fresh random permutation, or off. The
    /// current song stays current: the cursor moves to wherever that song
    /// stands in the new ordering.
    pub fn set_shuffle(&mut self, shuffle: bool)
        requires
            old(self).wf(),
        ensures
            final(self).wf(),
            shuffle_switched(*old(self), *final(self), shuffle),
    {
        proof {
            self.lemma_wf();
        }
        let current = self.current_backing_index();
        if shuffle {
            self.model.reshuffle();
        } else {
            self.model.unshuffle();
        }
        self.resolve_cursor(current);
    }
}

impl Default for Queue {
    fn default() -> (r: Queue)
        ensures
            r.wf(),
            r.entries() == Seq::<SongView>::empty(),
            r.cursor().is_none(),
            r.repeat() == RepeatMode::Consecutive,
            !r.is_shuffled(),
    {
        Queue::new()
    }
}

/// At most one song is playing, and it is the song at the cursor: with the
/// cursor set, the song there is playing and no other is; with the cursor
/// unset, none is.
pub proof fn law_only_the_current_song_plays(q: Queue)
    requires
        q.wf(),
    ensures
        forall|i: int, j: int|
            0 <= i < q.len() && 0 <= j < q.len() && (#[trigger] q.song(i)).playing && (
            #[trigger] q.song(j)).playing ==> i == j,
        q.cursor().is_some() ==> q.current().unwrap().playing && 0 <= q.current_backing().unwrap()
            < q.len(),
        q.cursor().is_none() ==> forall|i: int|
            0 <= i < q.len() ==> !(#[trigger] q.song(i)).playing,
{
    q.lemma_wf();
}

/// The effective position that the first "next" lands on from a cursor:
/// the first song from an unset cursor, else the one after the cursor.
pub open spec fn first_step(cursor: Option<u32>) -> nat {
    match cursor {
        Some(c) => (c + 1) as nat,
        None => 0,
    }
}

/// Consecutive play visits the songs in order and then stops: on a
/// non-empty queue in consecutive mode, repeated "next" moves the cursor
/// through the effective positions one by one up to the last, and the call
/// after the last song leaves it unset. From an unset cursor this visits
/// `0, 1, .., n - 1` and then yields nothing.
pub proof fn law_consecutive_visits_in_order(q: Queue, steps: nat)
    requires
        q.wf(),
        q.len() > 0,
        q.repeat() == RepeatMode::Consecutive,
        steps >= 1,
    ensures
        first_step(q.cursor()) + steps <= q.len() ==> cursor_after(
            q.repeat(),
            q.len(),
            q.cursor(),
            steps,
        ) == Some((first_step(q.cursor()) + steps - 1) as u32),
        first_step(q.cursor()) + steps == q.len() + 1 ==> cursor_after(
            q.repeat(),
            q.len(),
            q.cursor(),
            steps,
        ).is_none(),
    decreases steps,
{
    q.lemma_wf();
    if steps > 1 {
        law_consecutive_visits_in_order(q, (steps - 1) as nat);
    }
}

/// Repeat-all play goes round: on a non-empty queue of `n` songs in
/// repeat-all mode, repeated "next" moves the cursor through the effective
/// positions one by one and from the last back to the first. From an unset
/// cursor the first `n` calls visit `0, 1, .., n - 1` and call `n + 1` is
/// at position 0 again.
pub proof fn law_repeat_all_wraps(q: Queue, steps: nat)
    requires
        q.wf(),
        q.len() > 0,
        q.repeat() == RepeatMode::RepeatAll,
        steps >= 1,
    ensures
        cursor_after(q.repeat(), q.len(), q.cursor(), steps) == Some(
            ((first_step(q.cursor()) + steps - 1) % (q.len() as int)) as u32,
        ),
    decreases steps,
{
    q.lemma_wf();
    let n = q.len() as int;
    let start = first_step(q.cursor()) as int;
    if steps > 1 {
        law_repeat_all_wraps(q, (steps - 1) as nat);
        let before = start + steps - 2;
        assert((before % n) + 1 < n ==> (before + 1) % n == (before % n) + 1) by (nonlinear_arith)
            requires
                n > 0,
                before >= 0,
        ;
        assert((before % n) + 1 >= n ==> (before + 1) % n == 0) by (nonlinear_arith)
            requires
                n > 0,
                before >= 0,
        ;
        assert(0 <= before % n < n) by (nonlinear_arith)
            requires
                n > 0,
                before >= 0,
        ;
    } else {
        assert(start % n == if start < n {
            start
        } else {
            0
        }) by (nonlinear_arith)
            requires
                0 <= start <= n,
                n > 0,
        ;
    }
}

/// Repeat-one play stays: on a queue in repeat-one mode whose cursor is
/// set, "next" lands on the cursor's own position however often it is
/// called. (From an unset cursor it moves to the first song, and stays
/// there.)
pub proof fn law_repeat_one_stays(q: Queue, steps: nat)
    requires
        q.wf(),
        q.repeat() == RepeatMode::RepeatOne,
        q.cursor().is_some(),
    ensures
        next_cursor(q.repeat(), q.len(), q.cursor()) == q.cursor(),
        cursor_after(q.repeat(), q.len(), q.cursor(), steps) == q.cursor(),
    decreases steps,
{
    q.lemma_wf();
    if steps > 0 {
        law_repeat_one_stays(q, (steps - 1) as nat);
    }
}

/// Switching the shuffle on and off again changes nothing about which
/// song is current: whatever two queues a shuffle switch relates, the song
/// at the cursor is the same song, with the same flags.
pub proof fn law_shuffle_round_trip_keeps_current(before: Queue, shuffled: Queue, after: Queue)
    requires
        before.wf(),
        shuffled.wf(),
        after.wf(),
        shuffle_switched(before, shuffled, true),
        shuffle_switched(shuffled, after, false),
    ensures
        after.current() == before.current(),
        after.entries() == before.entries(),
        before.is_shuffled() == false ==> after.cursor() == before.cursor(),
{
    before.lemma_wf();
    after.lemma_wf();
}

/// What [`Queue::set_shuffle`] promises of the queue before and after it.
pub open spec fn shuffle_switched(pre: Queue, post: Queue, shuffle: bool) -> bool {
    &&& post.entries() == pre.entries()
    &&& post.repeat() == pre.repeat()
    &&& post.is_shuffled() == shuffle
    &&& post.current_backing() == pre.current_backing()
    &&& post.current() == pre.current()
}

} // verus!
