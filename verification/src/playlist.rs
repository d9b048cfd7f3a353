//! Playlists: named song lists with a shuffle flag, a repeat flag and a
//! cursor that decides which song is handed out next.

use crate::osu::{clone_songs, Song};
use rand::Rng;
use vstd::prelude::*;

verus! {

/// A playlist as it is stored: its name and its songs, nothing of its
/// playback state.
#[derive(Debug, PartialEq, Eq)]
pub struct SerializedPlaylist {
    pub name: String,
    pub songs: Vec<Song>,
}

/// A playlist in memory.
///
/// `cursor` is the slot of the song that was handed out last. While
/// `cursor_pending` is set, the song in that slot has not been handed out
/// yet: the playlist is at the start of a pass, or the song that sounded was
/// removed and its successor moved into the slot.
#[derive(Debug, PartialEq, Eq)]
pub struct Playlist {
    pub name: String,
    pub songs: Vec<Song>,
    pub shuffle_on: bool,
    pub repeat_on: bool,
    pub cursor: usize,
    pub cursor_pending: bool,
}

/// The mathematical content of a [`Playlist`].
pub ghost struct PlaylistView {
    pub name: Seq<char>,
    pub songs: Seq<Song>,
    pub shuffle_on: bool,
    pub repeat_on: bool,
    pub cursor: nat,
    pub pending: bool,
}

impl PlaylistView {
    /// A playlist with the given name and songs, both flags off, at the
    /// start of a pass.
    pub open spec fn fresh(name: Seq<char>, songs: Seq<Song>) -> PlaylistView {
        PlaylistView { name, songs, shuffle_on: false, repeat_on: false, cursor: 0, pending: true }
    }

    /// The cursor lies within the songs; it may stand one past the last
    /// song only while its slot is pending.
    pub open spec fn wf(self) -> bool {
        &&& self.cursor <= self.songs.len()
        &&& (self.cursor == self.songs.len() ==> self.pending)
    }

    /// No song of the current pass has been handed out.
    pub open spec fn at_start(self) -> bool {
        self.cursor == 0 && self.pending
    }

    /// The slot that the next in-order retrieval looks at.
    pub open spec fn candidate(self) -> nat {
        if self.pending {
            self.cursor
        } else {
            self.cursor + 1
        }
    }

    /// The slot whose song the next in-order retrieval hands out: the
    /// candidate while it lies within the songs; past the end, slot 0 with
    /// repeat on and nothing with repeat off.
    pub open spec fn next_index(self) -> Option<nat> {
        if self.candidate() < self.songs.len() {
            Some(self.candidate())
        } else if self.repeat_on {
            Some(0)
        } else {
            None
        }
    }

    /// The playlist after an in-order retrieval. Past the end the cursor
    /// returns to slot 0; with repeat off that slot is pending again, so
    /// the next pass starts with the first song.
    pub open spec fn advanced(self) -> PlaylistView {
        if self.candidate() < self.songs.len() {
            PlaylistView { cursor: self.candidate(), pending: false, ..self }
        } else {
            PlaylistView { cursor: 0, pending: !self.repeat_on, ..self }
        }
    }

    /// What a retrieval hands out when the random draw was `drawn`: with
    /// shuffle on the drawn slot, else the next slot in order.
    pub open spec fn retrieved(self, drawn: nat) -> Option<(Song, nat)> {
        if self.shuffle_on {
            Some((self.songs[drawn as int], drawn))
        } else {
            match self.next_index() {
                Some(i) => Some((self.songs[i as int], i)),
                None => None,
            }
        }
    }

    /// The playlist after a retrieval: shuffling leaves the cursor alone.
    pub open spec fn after_retrieval(self) -> PlaylistView {
        if self.shuffle_on {
            self
        } else {
            self.advanced()
        }
    }

    /// The playlist rewound to the start of a pass.
    pub open spec fn prepared(self) -> PlaylistView {
        PlaylistView { cursor: 0, pending: true, ..self }
    }

    /// The playlist without the song in slot `index`. A cursor behind the
    /// slot moves down with its song; a cursor on the slot stays and
    /// becomes pending, so that the song that moved in is not passed over.
    pub open spec fn without(self, index: nat) -> PlaylistView {
        if index >= self.songs.len() {
            self
        } else {
            PlaylistView {
                songs: self.songs.remove(index as int),
                cursor: if index < self.cursor {
                    (self.cursor - 1) as nat
                } else {
                    self.cursor
                },
                pending: self.pending || index == self.cursor,
                ..self
            }
        }
    }

    /// The record under which the playlist is stored: name and songs.
    pub open spec fn stored(self) -> RecordView {
        RecordView { name: self.name, songs: self.songs }
    }

    /// The playlist with its flags flipped as asked.
    pub open spec fn toggled(self, shuffle: bool, repeat: bool) -> PlaylistView {
        PlaylistView {
            shuffle_on: self.shuffle_on != shuffle,
            repeat_on: self.repeat_on != repeat,
            ..self
        }
    }

    /// The playlist with `song` appended.
    pub open spec fn with_song(self, song: Song) -> PlaylistView {
        PlaylistView { songs: self.songs.push(song), ..self }
    }

    /// The playlist after `calls` in-order retrievals.
    pub open spec fn after_calls(self, calls: nat) -> PlaylistView
        decreases calls,
    {
        if calls == 0 {
            self
        } else {
            self.after_calls((calls - 1) as nat).advanced()
        }
    }
}

/// The mathematical content of a [`SerializedPlaylist`].
pub ghost struct RecordView {
    pub name: Seq<char>,
    pub songs: Seq<Song>,
}

impl View for SerializedPlaylist {
    type V = RecordView;

    open spec fn view(&self) -> RecordView {
        RecordView { name: self.name@, songs: self.songs@ }
    }
}

/// The contents of a list of playlists.
pub open spec fn playlist_views(playlists: Seq<Playlist>) -> Seq<PlaylistView> {
    Seq::new(playlists.len(), |i: int| playlists[i]@)
}

/// The contents of a list of stored records.
pub open spec fn record_views(records: Seq<SerializedPlaylist>) -> Seq<RecordView> {
    Seq::new(records.len(), |i: int| records[i]@)
}

/// The records under which a list of playlists is stored.
pub open spec fn stored_all(playlists: Seq<PlaylistView>) -> Seq<RecordView> {
    Seq::new(playlists.len(), |i: int| playlists[i].stored())
}

/// The playlists that a list of records stands for.
pub open spec fn loaded_all(records: Seq<RecordView>) -> Seq<PlaylistView> {
    Seq::new(records.len(), |i: int| PlaylistView::fresh(records[i].name, records[i].songs))
}

/// What a retrieval handed out, with the slot as a number.
pub open spec fn slot_view(next: Option<(Song, usize)>) -> Option<(Song, nat)> {
    match next {
        Some((song, slot)) => Some((song, slot as nat)),
        None => None,
    }
}

impl View for Playlist {
    type V = PlaylistView;

    open spec fn view(&self) -> PlaylistView {
        PlaylistView {
            name: self.name@,
            songs: self.songs@,
            shuffle_on: self.shuffle_on,
            repeat_on: self.repeat_on,
            cursor: self.cursor as nat,
            pending: self.cursor_pending,
        }
    }
}

/// Draws an index below `len` with `rand::Rng::gen_range` over `0..len` on
/// the generator of `rand::thread_rng`. The contract claims only that the
/// draw lies in the range, which is what `gen_range` documents; the empty
/// range, on which it panics, is excluded.
#[verifier::external_body]
pub(crate) fn random_index(len: usize) -> (drawn: usize)
    requires
        len > 0,
    ensures
        drawn < len,
{
    rand::thread_rng().gen_range(0..len)
}

impl Clone for Playlist {
    fn clone(&self) -> (copy: Self)
        ensures
            copy@ == self@,
    {
        Playlist {
            name: self.name.clone(),
            songs: clone_songs(&self.songs),
            shuffle_on: self.shuffle_on,
            repeat_on: self.repeat_on,
            cursor: self.cursor,
            cursor_pending: self.cursor_pending,
        }
    }
}

impl Playlist {
    /// An empty playlist called `name`.
    pub fn new_empty(name: String) -> (playlist: Playlist)
        ensures
            playlist@ == PlaylistView::fresh(name@, Seq::empty()),
            playlist@.wf(),
    {
        Playlist {
            name,
            songs: Vec::new(),
            shuffle_on: false,
            repeat_on: false,
            cursor: 0,
            cursor_pending: true,
        }
    }

    /// An empty playlist called `name`.
    pub fn new(name: String) -> (playlist: Playlist)
        ensures
            playlist@ == PlaylistView::fresh(name@, Seq::empty()),
            playlist@.wf(),
    {
        Playlist::new_empty(name)
    }

    /// The playlist that a stored record stands for: its name and songs,
    /// shuffle and repeat off, at the start of a pass.
    pub fn new_loaded(serialized: &SerializedPlaylist) -> (playlist: Playlist)
        ensures
            playlist@ == PlaylistView::fresh(serialized.name@, serialized.songs@),
            playlist@.wf(),
    {
        Playlist {
            name: serialized.name.clone(),
            songs: clone_songs(&serialized.songs),
            shuffle_on: false,
            repeat_on: false,
            cursor: 0,
            cursor_pending: true,
        }
    }

    /// The playlists that a list of stored records stands for, in order.
    pub fn from_serialized(records: &Vec<SerializedPlaylist>) -> (playlists: Vec<Playlist>)
        ensures
            playlist_views(playlists@) == loaded_all(record_views(records@)),
            forall|i: int| 0 <= i < playlists.len() ==> (#[trigger] playlists[i])@.wf(),
    {
        let mut playlists: Vec<Playlist> = Vec::new();
        let mut i: usize = 0;
        while i < records.len()
            invariant
                i <= records.len(),
                playlists.len() == i,
                forall|j: int|
                    0 <= j < i ==> (#[trigger] playlists[j])@ == PlaylistView::fresh(
                        records[j].name@,
                        records[j].songs@,
                    ),
            decreases records.len() - i,
        {
            playlists.push(Playlist::new_loaded(&records[i]));
            i += 1;
        }
        assert(playlist_views(playlists@) =~= loaded_all(record_views(records@)));
        playlists
    }

    /// The stored record of this playlist.
    pub fn to_serialized(&self) -> (record: SerializedPlaylist)
        ensures
            record@ == self@.stored(),
    {
        SerializedPlaylist { name: self.name.clone(), songs: clone_songs(&self.songs) }
    }

    /// Rewinds the playlist before it is loaded into the queue.
    pub fn prepare_playlist(&mut self)
        ensures
            final(self)@ == old(self)@.prepared(),
            final(self)@.wf(),
    {
        self.cursor = 0;
        self.cursor_pending = true;
    }

    /// Appends a song.
    pub fn add_song(&mut self, song: Song)
        ensures
            final(self)@ == old(self)@.with_song(song),
            old(self)@.wf() ==> final(self)@.wf(),
    {
        self.songs.push(song);
    }

    /// Removes the song in slot `index`, as the queue does when the user
    /// deletes that song there. An index past the end removes nothing.
    pub fn remove_playbar_song(&mut self, index: usize)
        ensures
            final(self)@ == old(self)@.without(index as nat),
            old(self)@.wf() ==> final(self)@.wf(),
    {
        if index >= self.songs.len() {
            return ;
        }
        self.songs.remove(index);
        if index < self.cursor {
            self.cursor = self.cursor - 1;
        } else if index == self.cursor {
            self.cursor_pending = true;
        }
    }

    /// The retrieval for a given random draw: what `get_next_song` does
    /// once the draw is known. The draw counts only with shuffle on.
    pub fn next_song_with(&mut self, drawn: usize) -> (next: Option<(Song, usize)>)
        requires
            old(self)@.wf(),
            old(self).songs.len() > 0,
            old(self).shuffle_on ==> drawn < old(self).songs.len(),
        ensures
            slot_view(next) == old(self)@.retrieved(drawn as nat),
            final(self)@ == old(self)@.after_retrieval(),
            final(self)@.wf(),
    {
        if self.shuffle_on {
            return Some((self.songs[drawn].clone(), drawn));
        }
        let candidate: usize = if self.cursor_pending {
            self.cursor
        } else {
            self.cursor + 1
        };
        if candidate < self.songs.len() {
            self.cursor = candidate;
            self.cursor_pending = false;
            return Some((self.songs[candidate].clone(), candidate));
        }
        self.cursor = 0;
        if self.repeat_on {
            self.cursor_pending = false;
            return Some((self.songs[0].clone(), 0));
        }
        self.cursor_pending = true;
        None
    }

    /// Hands out the song to play next, with its slot.
    ///
    /// With shuffle on some slot of the playlist is drawn and the cursor
    /// stays. Otherwise the songs come in order; past the last one the
    /// cursor returns to the first, which is handed out with repeat on,
    /// while with repeat off the playlist reports its end.
    pub fn get_next_song(&mut self) -> (next: Option<(Song, usize)>)
        requires
            old(self)@.wf(),
            old(self).songs.len() > 0,
        ensures
            final(self)@ == old(self)@.after_retrieval(),
            final(self)@.wf(),
            exists|drawn: nat|
                drawn < old(self).songs.len() && slot_view(next) == #[trigger] old(self)@.retrieved(
                    drawn,
                ),
            !old(self).shuffle_on ==> slot_view(next) == old(self)@.retrieved(0),
            old(self).shuffle_on ==> next is Some && next.unwrap().1 < old(self).songs.len()
                && next.unwrap().0 == old(self).songs[next.unwrap().1 as int],
    {
        let drawn: usize = if self.shuffle_on {
            random_index(self.songs.len())
        } else {
            0
        };
        self.next_song_with(drawn)
    }

    /// Turns shuffling on or off.
    pub fn toggle_shuffle(&mut self)
        ensures
            final(self)@ == old(self)@.toggled(true, false),
            final(self)@.wf() == old(self)@.wf(),
    {
        self.shuffle_on = !self.shuffle_on;
    }

    /// Turns repeating on or off.
    pub fn toggle_repeat(&mut self)
        ensures
            final(self)@ == old(self)@.toggled(false, true),
            final(self)@.wf() == old(self)@.wf(),
    {
        self.repeat_on = !self.repeat_on;
    }
}

/// The stored records of a list of playlists, in order: names and songs
/// as they are, flags and cursors left out.
pub fn serialize_playlists(playlists: &Vec<Playlist>) -> (records: Vec<SerializedPlaylist>)
    ensures
        record_views(records@) == stored_all(playlist_views(playlists@)),
{
    let mut records: Vec<SerializedPlaylist> = Vec::new();
    let mut i: usize = 0;
    while i < playlists.len()
        invariant
            i <= playlists.len(),
            records.len() == i,
            forall|j: int| 0 <= j < i ==> (#[trigger] records[j])@ == playlists[j]@.stored(),
        decreases playlists.len() - i,
    {
        records.push(playlists[i].to_serialized());
        i += 1;
    }
    assert(record_views(records@) =~= stored_all(playlist_views(playlists@)));
    records
}

/// The playlists of a stored file, given what parsing it produced: `None`
/// where the file could not be parsed, else one playlist per record, with
/// shuffle and repeat off.
pub fn deserialize_playlist(parsed: Option<Vec<SerializedPlaylist>>) -> (loaded: Option<
    Vec<Playlist>,
>)
    ensures
        parsed is None <==> loaded is None,
        parsed is Some ==> playlist_views(loaded.unwrap()@) == loaded_all(
            record_views(parsed.unwrap()@),
        ),
        parsed is Some ==> forall|i: int|
            0 <= i < loaded.unwrap().len() ==> (#[trigger] loaded.unwrap()[i])@.wf(),
{
    match parsed {
        None => None,
        Some(records) => Some(Playlist::from_serialized(&records)),
    }
}

/// The playlists to start with, given what parsing the stored file
/// produced: a file that could not be parsed gives no playlists.
pub fn load_playlists(parsed: Option<Vec<SerializedPlaylist>>) -> (loaded: Vec<Playlist>)
    ensures
        parsed is None ==> loaded@.len() == 0,
        parsed is Some ==> playlist_views(loaded@) == loaded_all(record_views(parsed.unwrap()@)),
        forall|i: int| 0 <= i < loaded.len() ==> (#[trigger] loaded[i])@.wf(),
{
    match deserialize_playlist(parsed) {
        Some(playlists) => playlists,
        None => Vec::new(),
    }
}

/// Storing playlists and loading them again gives the same names and
/// songs in the same order, with shuffle and repeat off and every
/// playlist at its start.
pub proof fn lemma_store_then_load(playlists: Seq<PlaylistView>)
    ensures
        loaded_all(stored_all(playlists)).len() == playlists.len(),
        forall|i: int|
            0 <= i < playlists.len() ==> (#[trigger] loaded_all(stored_all(playlists))[i])
                == PlaylistView::fresh(playlists[i].name, playlists[i].songs),
{
}

/// The remainder of a successor: one more than the remainder of `k`, or 0
/// where that reaches `n`.
proof fn lemma_mod_successor(k: nat, n: nat)
    requires
        n > 0,
    ensures
        (k + 1) % n == if k % n + 1 < n {
            k % n + 1
        } else {
            0
        },
{
    let q = k as int / n as int;
    let r = k as int % n as int;
    vstd::arithmetic::div_mod::lemma_fundamental_div_mod(k as int, n as int);
    vstd::arithmetic::div_mod::lemma_mod_bound(k as int, n as int);
    assert(n * q == q * n) by (nonlinear_arith);
    if r + 1 < n {
        vstd::arithmetic::div_mod::lemma_fundamental_div_mod_converse_mod(
            k as int + 1,
            n as int,
            q,
            r + 1,
        );
    } else {
        assert((q + 1) * n + 0 == q * n + n) by (nonlinear_arith);
        vstd::arithmetic::div_mod::lemma_fundamental_div_mod_converse_mod(
            k as int + 1,
            n as int,
            q + 1,
            0,
        );
    }
}

/// Retrievals change nothing but the cursor and its pending mark.
pub proof fn lemma_after_calls_keeps_songs(p: PlaylistView, calls: nat)
    ensures
        p.after_calls(calls).songs == p.songs,
        p.after_calls(calls).name == p.name,
        p.after_calls(calls).shuffle_on == p.shuffle_on,
        p.after_calls(calls).repeat_on == p.repeat_on,
    decreases calls,
{
    if calls > 0 {
        lemma_after_calls_keeps_songs(p, (calls - 1) as nat);
    }
}

/// During the first pass the cursor stands on the song handed out last.
proof fn lemma_first_pass_cursor(p: PlaylistView, calls: nat)
    requires
        p.at_start(),
        1 <= calls <= p.songs.len(),
    ensures
        p.after_calls(calls).cursor == calls - 1,
        !p.after_calls(calls).pending,
    decreases calls,
{
    lemma_after_calls_keeps_songs(p, (calls - 1) as nat);
    if calls > 1 {
        lemma_first_pass_cursor(p, (calls - 1) as nat);
    }
}

/// With repeat on the cursor walks round the songs for ever.
proof fn lemma_repeat_cursor(p: PlaylistView, calls: nat)
    requires
        p.at_start(),
        p.repeat_on,
        p.songs.len() > 0,
        calls >= 1,
    ensures
        p.after_calls(calls).cursor == (calls - 1) as nat % p.songs.len(),
        !p.after_calls(calls).pending,
    decreases calls,
{
    lemma_after_calls_keeps_songs(p, (calls - 1) as nat);
    if calls > 1 {
        lemma_repeat_cursor(p, (calls - 1) as nat);
        lemma_mod_successor((calls - 2) as nat, p.songs.len());
    } else {
        vstd::arithmetic::div_mod::lemma_small_mod(0, p.songs.len());
    }
}

/// A playlist of N songs at the start of a pass, shuffle and repeat off,
/// hands out its songs in their order on the first N retrievals and
/// reports its end on the next one.
pub proof fn lemma_repeat_off_plays_each_song_once(p: PlaylistView, calls: nat, drawn: nat)
    requires
        p.at_start(),
        !p.shuffle_on,
        !p.repeat_on,
        calls <= p.songs.len(),
    ensures
        calls < p.songs.len() ==> p.after_calls(calls).retrieved(drawn) == Some(
            (p.songs[calls as int], calls),
        ),
        calls == p.songs.len() ==> p.after_calls(calls).retrieved(drawn) is None,
{
    lemma_after_calls_keeps_songs(p, calls);
    if calls >= 1 {
        lemma_first_pass_cursor(p, calls);
    }
}

/// A playlist of N songs at the start of a pass, shuffle off and repeat
/// on, hands out its songs in their order again and again: retrieval
/// number `calls`, counted from 0, hands out the song in slot
/// `calls % N`.
pub proof fn lemma_repeat_on_cycles(p: PlaylistView, calls: nat, drawn: nat)
    requires
        p.at_start(),
        !p.shuffle_on,
        p.repeat_on,
        p.songs.len() > 0,
    ensures
        p.after_calls(calls).retrieved(drawn) == Some(
            (p.songs[(calls % p.songs.len()) as int], calls % p.songs.len()),
        ),
{
    lemma_after_calls_keeps_songs(p, calls);
    if calls >= 1 {
        lemma_repeat_cursor(p, calls);
        lemma_mod_successor((calls - 1) as nat, p.songs.len());
    } else {
        vstd::arithmetic::div_mod::lemma_small_mod(0, p.songs.len());
    }
}

/// With shuffle on every retrieval hands out a song of the playlist, from
/// a slot within it, whatever was drawn and however many retrievals came
/// before; a single song is enough.
pub proof fn lemma_shuffle_stays_in_bounds(p: PlaylistView, drawn: nat)
    requires
        p.shuffle_on,
        drawn < p.songs.len(),
    ensures
        p.after_retrieval() == p,
        p.retrieved(drawn) == Some((p.songs[drawn as int], drawn)),
        p.songs.contains(p.retrieved(drawn).unwrap().0),
{
    assert(p.songs[drawn as int] == p.songs[drawn as int]);
}

/// Removing the song that sounds does not cost its successor its turn:
/// the next in-order retrieval hands out the song that stood behind the
/// removed one, as it would have without the removal.
pub proof fn lemma_removal_keeps_successor(p: PlaylistView)
    requires
        p.wf(),
        !p.pending,
        p.cursor + 1 < p.songs.len(),
    ensures
        p.without(p.cursor).wf(),
        p.without(p.cursor).next_index() == Some(p.cursor),
        p.without(p.cursor).songs[p.cursor as int] == p.songs[p.cursor as int + 1],
        p.next_index() == Some(p.cursor + 1),
{
}

/// Every operation on a well-formed playlist leaves it well formed; a
/// retrieval does so on a playlist that holds a song.
pub proof fn lemma_playlist_stays_well_formed(p: PlaylistView, index: nat, song: Song)
    requires
        p.wf(),
    ensures
        p.songs.len() > 0 ==> p.advanced().wf() && p.after_retrieval().wf(),
        p.prepared().wf(),
        p.without(index).wf(),
        p.with_song(song).wf(),
{
}

} // verus!
