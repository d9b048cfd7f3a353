//! The playback queue: which songs are queued, which one sounds, where the
//! queue gets its songs from, and what the audio sink is to do next.
//!
//! The sink itself lives outside the library. Operations that concern it
//! return what it has to do: a [`Playback`] to start, or a flag to stop.

use crate::osu::{clone_songs, spec_speed_tenths, Song};
use crate::playlist::{
    lemma_after_calls_keeps_songs, lemma_repeat_off_plays_each_song_once, lemma_repeat_on_cycles,
    Playlist, PlaylistView,
};
use vstd::prelude::*;
use vstd::string::StringExecFns;

verus! {

/// Where the queue gets its songs from: nowhere, a loaded playlist, or
/// songs picked one by one from the search results.
#[derive(Copy, Clone, Debug, PartialEq, Eq, Structural)]
pub enum PlaybarSource {
    Unset,
    Playlist,
    Normal,
}

/// Highest volume, in tenths.
pub const MAX_VOLUME: u8 = 20;

/// Volume of a new player, in tenths.
pub const START_VOLUME: u8 = 5;

/// A request to the audio sink: play the file at `path` at the given speed
/// and volume, both in tenths.
#[derive(Debug, PartialEq, Eq)]
pub struct Playback {
    pub path: String,
    pub speed_tenths: u8,
    pub volume_tenths: u8,
}

/// The mathematical content of a [`Playback`].
pub ghost struct PlaybackView {
    pub path: Seq<char>,
    pub speed_tenths: nat,
    pub volume_tenths: nat,
}

impl View for Playback {
    type V = PlaybackView;

    open spec fn view(&self) -> PlaybackView {
        PlaybackView {
            path: self.path@,
            speed_tenths: self.speed_tenths as nat,
            volume_tenths: self.volume_tenths as nat,
        }
    }
}

/// The content of a request that may be absent.
pub open spec fn action_view(action: Option<Playback>) -> Option<PlaybackView> {
    match action {
        Some(playback) => Some(playback@),
        None => None,
    }
}

/// The content of a playlist that may be absent.
pub open spec fn playlist_view(playlist: Option<Playlist>) -> Option<PlaylistView> {
    match playlist {
        Some(p) => Some(p@),
        None => None,
    }
}

/// The player: the queue with its two indices, the playlist that is open,
/// the catalog root, the volume in tenths and whether a song sounds.
#[derive(Debug, PartialEq, Eq)]
pub struct Player {
    pub playbar_source: PlaybarSource,
    pub current_songs: Vec<Song>,
    pub current_playlist: Option<Playlist>,
    pub hovered_index: usize,
    pub parent_path: String,
    pub playing_index: usize,
    pub volume: u8,
    pub is_playing: bool,
}

/// The mathematical content of a [`Player`].
pub ghost struct PlayerView {
    pub source: PlaybarSource,
    pub songs: Seq<Song>,
    pub playlist: Option<PlaylistView>,
    pub hovered: nat,
    pub parent_path: Seq<char>,
    pub playing: nat,
    pub volume: nat,
    pub is_playing: bool,
}

impl View for Player {
    type V = PlayerView;

    open spec fn view(&self) -> PlayerView {
        PlayerView {
            source: self.playbar_source,
            songs: self.current_songs@,
            playlist: playlist_view(self.current_playlist),
            hovered: self.hovered_index as nat,
            parent_path: self.parent_path@,
            playing: self.playing_index as nat,
            volume: self.volume as nat,
            is_playing: self.is_playing,
        }
    }
}

impl PlayerView {
    /// A player with an empty queue over the catalog at `parent_path`.
    pub open spec fn idle(parent_path: Seq<char>) -> PlayerView {
        PlayerView {
            source: PlaybarSource::Unset,
            songs: Seq::empty(),
            playlist: None,
            hovered: 0,
            parent_path,
            playing: 0,
            volume: START_VOLUME as nat,
            is_playing: false,
        }
    }

    /// The invariant of the player.
    ///
    /// The volume is at most 2.0. The hovered slot lies in the queue (slot
    /// 0 of an empty one). While a song sounds, the playing slot lies in
    /// the queue. An open playlist is well formed, and a queue that is fed
    /// by the playlist holds the playlist's songs.
    pub open spec fn wf(self) -> bool {
        &&& self.volume <= MAX_VOLUME
        &&& (self.songs.len() == 0 ==> self.hovered == 0)
        &&& (self.songs.len() > 0 ==> self.hovered < self.songs.len())
        &&& (self.is_playing ==> self.playing < self.songs.len())
        &&& (self.playlist is Some ==> self.playlist.unwrap().wf())
        &&& (self.source == PlaybarSource::Playlist ==> self.playlist is Some
            && self.playlist.unwrap().songs == self.songs)
    }

    /// The request that starts `song`: the catalog root followed by the
    /// song's path, the speed of its modifier, the current volume.
    pub open spec fn playback(self, song: Song) -> PlaybackView {
        PlaybackView {
            path: self.parent_path + song.audio_path@,
            speed_tenths: spec_speed_tenths(song.modifier),
            volume_tenths: self.volume,
        }
    }

    /// The hovered slot moved back into the queue where it lies beyond it.
    pub open spec fn clamped_hover(self, len: nat) -> nat {
        if self.hovered < len {
            self.hovered
        } else if len > 0 {
            (len - 1) as nat
        } else {
            0
        }
    }

    /// Removing the hovered song stops the sink: the queue holds a song
    /// and the hovered one is in the playing slot.
    pub open spec fn removal_stops_sink(self) -> bool {
        self.songs.len() > 0 && self.hovered == self.playing
    }

    /// The player after the hovered song was removed.
    ///
    /// The song leaves the queue and, where the queue is fed by the
    /// playlist, the playlist too. Removed from the playing slot, nothing
    /// sounds any more. Removed from before the playing slot, that slot
    /// moves down with its song. A hovered slot that fell off the end
    /// moves back by one.
    pub open spec fn without_hovered(self) -> PlayerView {
        if self.songs.len() == 0 {
            self
        } else {
            PlayerView {
                songs: self.songs.remove(self.hovered as int),
                playlist: if self.source == PlaybarSource::Playlist && self.playlist is Some {
                    Some(self.playlist.unwrap().without(self.hovered))
                } else {
                    self.playlist
                },
                playing: if self.hovered < self.playing {
                    (self.playing - 1) as nat
                } else {
                    self.playing
                },
                is_playing: self.is_playing && self.hovered != self.playing,
                hovered: if self.hovered + 1 == self.songs.len() && self.hovered > 0 {
                    (self.hovered - 1) as nat
                } else {
                    self.hovered
                },
                ..self
            }
        }
    }

    /// Forcing the hovered song starts it: the queue holds a song and the
    /// hovered one is not in the playing slot.
    pub open spec fn forces(self) -> bool {
        self.songs.len() > 0 && self.hovered != self.playing
    }

    /// The player after the hovered song was forced.
    pub open spec fn forced(self) -> PlayerView {
        if self.forces() {
            PlayerView { playing: self.hovered, is_playing: true, ..self }
        } else {
            self
        }
    }

    /// The request that forcing the hovered song makes.
    pub open spec fn force_action(self) -> Option<PlaybackView> {
        if self.forces() {
            Some(self.playback(self.songs[self.hovered as int]))
        } else {
            None
        }
    }

    /// Loading the open playlist into the queue does something: there is
    /// one and it holds a song.
    pub open spec fn loads(self) -> bool {
        self.playlist is Some && self.playlist.unwrap().songs.len() > 0
    }

    /// The player after the open playlist was loaded into the queue: the
    /// queue holds a copy of its songs, the playlist is rewound and feeds
    /// the queue, the playing slot is 0.
    pub open spec fn loaded(self) -> PlayerView {
        if self.loads() {
            PlayerView {
                source: PlaybarSource::Playlist,
                songs: self.playlist.unwrap().songs,
                playlist: Some(self.playlist.unwrap().prepared()),
                playing: 0,
                hovered: self.clamped_hover(self.playlist.unwrap().songs.len()),
                ..self
            }
        } else {
            self
        }
    }

    /// The player with an empty queue that nothing feeds.
    pub open spec fn unloaded(self) -> PlayerView {
        PlayerView {
            source: PlaybarSource::Unset,
            songs: Seq::empty(),
            playing: 0,
            hovered: 0,
            is_playing: false,
            ..self
        }
    }

    /// The player with `song` appended to a queue of picked songs.
    pub open spec fn with_normal_song(self, song: Song) -> PlayerView {
        PlayerView { source: PlaybarSource::Normal, songs: self.songs.push(song), ..self }
    }

    /// The player with `playlist` opened. A queue that the former playlist
    /// fed keeps its songs and loses its source.
    pub open spec fn with_playlist(self, playlist: PlaylistView) -> PlayerView {
        PlayerView {
            playlist: Some(playlist),
            source: if self.source == PlaybarSource::Playlist {
                PlaybarSource::Unset
            } else {
                self.source
            },
            ..self
        }
    }

    /// The player with the open playlist closed and no source.
    pub open spec fn without_playlist(self) -> PlayerView {
        if self.playlist is Some {
            PlayerView { playlist: None, source: PlaybarSource::Unset, ..self }
        } else {
            self
        }
    }

    /// The hovered slot after a step up, from the first slot round to the last.
    pub open spec fn hovered_up(self) -> PlayerView {
        if self.songs.len() == 0 {
            self
        } else if self.hovered == 0 {
            PlayerView { hovered: (self.songs.len() - 1) as nat, ..self }
        } else {
            PlayerView { hovered: (self.hovered - 1) as nat, ..self }
        }
    }

    /// The hovered slot after a step down, from the last slot round to the first.
    pub open spec fn hovered_down(self) -> PlayerView {
        if self.songs.len() == 0 {
            self
        } else if self.hovered + 1 >= self.songs.len() {
            PlayerView { hovered: 0, ..self }
        } else {
            PlayerView { hovered: self.hovered + 1, ..self }
        }
    }

    /// The player one step louder, at most 2.0.
    pub open spec fn louder(self) -> PlayerView {
        PlayerView {
            volume: if self.volume < MAX_VOLUME {
                self.volume + 1
            } else {
                MAX_VOLUME as nat
            },
            ..self
        }
    }

    /// The player one step quieter, at least 0.0.
    pub open spec fn quieter(self) -> PlayerView {
        PlayerView {
            volume: if self.volume > 0 {
                (self.volume - 1) as nat
            } else {
                0
            },
            ..self
        }
    }

    /// The player after `steps` steps up in volume.
    pub open spec fn louder_by(self, steps: nat) -> PlayerView
        decreases steps,
    {
        if steps == 0 {
            self
        } else {
            self.louder_by((steps - 1) as nat).louder()
        }
    }

    /// The player after `steps` steps down in volume.
    pub open spec fn quieter_by(self, steps: nat) -> PlayerView
        decreases steps,
    {
        if steps == 0 {
            self
        } else {
            self.quieter_by((steps - 1) as nat).quieter()
        }
    }

    /// The player with the flags of the open playlist flipped as asked.
    pub open spec fn with_toggles(self, shuffle: bool, repeat: bool) -> PlayerView {
        PlayerView {
            playlist: match self.playlist {
                Some(playlist) => Some(playlist.toggled(shuffle, repeat)),
                None => None,
            },
            ..self
        }
    }

    /// The player after the sink failed to start a song: nothing sounds
    /// and nothing feeds the queue.
    pub open spec fn failed(self) -> PlayerView {
        PlayerView { source: PlaybarSource::Unset, is_playing: false, ..self }
    }

    /// The next song depends on a random draw: the queue is fed by a
    /// shuffling playlist.
    pub open spec fn draws(self) -> bool {
        self.songs.len() > 0 && self.source == PlaybarSource::Playlist && self.playlist is Some
            && self.playlist.unwrap().shuffle_on
    }

    /// The queue of picked songs once the song that just ended has left it.
    pub open spec fn remaining(self) -> Seq<Song> {
        if self.is_playing {
            self.songs.remove(self.playing as int)
        } else {
            self.songs
        }
    }

    /// The song that starts when the sink has run empty, with its slot in
    /// the queue as it then is; `drawn` is the random draw.
    ///
    /// A queue fed by a playlist asks the playlist. A queue of picked
    /// songs drops the song that ended and plays the one in the playing
    /// slot, or the last one where the slot fell off the end. Nothing
    /// starts on an empty queue, or on one that nothing feeds.
    pub open spec fn next_up(self, drawn: nat) -> Option<(Song, nat)> {
        if self.songs.len() == 0 {
            None
        } else {
            match self.source {
                PlaybarSource::Playlist => self.playlist.unwrap().retrieved(drawn),
                PlaybarSource::Normal => {
                    let rest = self.remaining();
                    if rest.len() == 0 {
                        None
                    } else if self.playing < rest.len() {
                        Some((rest[self.playing as int], self.playing))
                    } else {
                        Some((rest[rest.len() - 1], (rest.len() - 1) as nat))
                    }
                },
                PlaybarSource::Unset => None,
            }
        }
    }

    /// The player after the sink has run empty; `drawn` is the random draw.
    ///
    /// Where a song starts, it sounds from its slot. Where none does,
    /// nothing sounds; a playlist that reported its end leaves the queue
    /// empty and without a source.
    pub open spec fn ticked(self, drawn: nat) -> PlayerView {
        if self.songs.len() == 0 {
            PlayerView { is_playing: false, ..self }
        } else {
            match self.source {
                PlaybarSource::Playlist => {
                    let playlist = Some(self.playlist.unwrap().after_retrieval());
                    match self.next_up(drawn) {
                        Some((_, slot)) => PlayerView {
                            playlist,
                            playing: slot,
                            is_playing: true,
                            ..self
                        },
                        None => PlayerView { playlist, ..self.unloaded() },
                    }
                },
                PlaybarSource::Normal => {
                    let rest = self.remaining();
                    match self.next_up(drawn) {
                        Some((_, slot)) => PlayerView {
                            songs: rest,
                            playing: slot,
                            hovered: self.clamped_hover(rest.len()),
                            is_playing: true,
                            ..self
                        },
                        None => PlayerView {
                            songs: rest,
                            hovered: self.clamped_hover(rest.len()),
                            is_playing: false,
                            ..self
                        },
                    }
                },
                PlaybarSource::Unset => PlayerView { is_playing: false, ..self },
            }
        }
    }

    /// The player after the sink has run empty `ticks` times, without a
    /// random draw in between.
    pub open spec fn after_ticks(self, ticks: nat) -> PlayerView
        decreases ticks,
    {
        if ticks == 0 {
            self
        } else {
            self.after_ticks((ticks - 1) as nat).ticked(0)
        }
    }

    /// The request made when the sink has run empty; `drawn` is the random draw.
    pub open spec fn tick_action(self, drawn: nat) -> Option<PlaybackView> {
        match self.next_up(drawn) {
            Some((song, _)) => Some(self.playback(song)),
            None => None,
        }
    }
}

impl Player {
    /// A player with an empty queue, at volume 0.5, over the catalog at
    /// `parent_path`.
    pub fn new(parent_path: String) -> (player: Player)
        ensures
            player@ == PlayerView::idle(parent_path@),
            player@.wf(),
    {
        Player {
            playbar_source: PlaybarSource::Unset,
            current_songs: Vec::new(),
            current_playlist: None,
            hovered_index: 0,
            parent_path,
            playing_index: 0,
            volume: START_VOLUME,
            is_playing: false,
        }
    }

    /// The request that starts `song` on the sink.
    fn playback_for(&self, song: &Song) -> (playback: Playback)
        ensures
            playback@ == self@.playback(*song),
    {
        let mut path = self.parent_path.clone();
        path.append(song.audio_path.as_str());
        Playback { path, speed_tenths: song.modifier.speed_tenths(), volume_tenths: self.volume }
    }

    /// Moves the hovered slot back into the queue.
    fn clamp_hover(&mut self)
        ensures
            final(self)@ == (PlayerView {
                hovered: old(self)@.clamped_hover(old(self)@.songs.len()),
                ..old(self)@
            }),
    {
        let len: usize = self.current_songs.len();
        if self.hovered_index >= len {
            self.hovered_index = if len > 0 {
                len - 1
            } else {
                0
            };
        }
    }

    /// Removes the hovered song from the queue and says whether the sink
    /// is to be stopped, which it is when the song was in the playing
    /// slot. An empty queue stays as it is.
    pub fn remove_hovered_song(&mut self) -> (stop_sink: bool)
        requires
            old(self)@.wf(),
        ensures
            final(self)@ == old(self)@.without_hovered(),
            stop_sink == old(self)@.removal_stops_sink(),
            final(self)@.wf(),
            old(self)@.songs.len() == 0 ==> final(self)@ == old(self)@ && !stop_sink,
    {
        if self.current_songs.is_empty() {
            return false;
        }
        let hovered = self.hovered_index;
        let stop_sink = hovered == self.playing_index;
        self.current_songs.remove(hovered);
        if let PlaybarSource::Playlist = self.playbar_source {
            match &mut self.current_playlist {
                Some(playlist) => playlist.remove_playbar_song(hovered),
                None => {},
            }
        }
        if stop_sink {
            self.is_playing = false;
        } else if hovered < self.playing_index {
            self.playing_index = self.playing_index - 1;
        }
        if self.hovered_index == self.current_songs.len() && self.hovered_index > 0 {
            self.hovered_index = self.hovered_index - 1;
        }
        stop_sink
    }

    /// Closes the open playlist and hands it back; the queue is left
    /// without a source. Without an open playlist nothing changes.
    pub fn pop_current_playlist(&mut self) -> (playlist: Option<Playlist>)
        requires
            old(self)@.wf(),
        ensures
            final(self)@ == old(self)@.without_playlist(),
            playlist_view(playlist) == old(self)@.playlist,
            final(self)@.wf(),
    {
        if self.current_playlist.is_none() {
            return None;
        }
        self.playbar_source = PlaybarSource::Unset;
        self.current_playlist.take()
    }

    /// Opens `playlist` in the player, without touching the queue's songs.
    pub fn load_playlist(&mut self, playlist: Playlist)
        requires
            old(self)@.wf(),
            playlist@.wf(),
        ensures
            final(self)@ == old(self)@.with_playlist(playlist@),
            final(self)@.wf(),
    {
        if let PlaybarSource::Playlist = self.playbar_source {
            self.playbar_source = PlaybarSource::Unset;
        }
        self.current_playlist = Some(playlist);
    }

    /// Loads the open playlist into the queue. Nothing happens without an
    /// open playlist or with an empty one. The sink is left alone: the
    /// first song starts when the sink is next found empty.
    pub fn load_playbar_playlist(&mut self)
        requires
            old(self)@.wf(),
        ensures
            final(self)@ == old(self)@.loaded(),
            final(self)@.wf(),
    {
        let mut songs: Vec<Song> = Vec::new();
        match &mut self.current_playlist {
            Some(playlist) => {
                if playlist.songs.is_empty() {
                    return ;
                }
                playlist.prepare_playlist();
                songs = clone_songs(&playlist.songs);
            },
            None => {
                return ;
            },
        }
        self.current_songs = songs;
        self.playbar_source = PlaybarSource::Playlist;
        self.playing_index = 0;
        self.clamp_hover();
    }

    /// Empties the queue and leaves it without a source. The result says
    /// whether the sink is to be stopped, which it is in every case.
    pub fn unload_playbar_playlist(&mut self) -> (stop_sink: bool)
        requires
            old(self)@.wf(),
        ensures
            final(self)@ == old(self)@.unloaded(),
            stop_sink,
            final(self)@.wf(),
    {
        self.current_songs = Vec::new();
        self.playbar_source = PlaybarSource::Unset;
        self.playing_index = 0;
        self.hovered_index = 0;
        self.is_playing = false;
        true
    }

    /// Appends a picked song to the queue, which from now on is a queue
    /// of picked songs.
    pub fn add_normal_song(&mut self, song: Song)
        requires
            old(self)@.wf(),
        ensures
            final(self)@ == old(self)@.with_normal_song(song),
            final(self)@.wf(),
    {
        self.current_songs.push(song);
        self.playbar_source = PlaybarSource::Normal;
    }

    /// Starts the hovered song at once and makes its slot the playing
    /// one. Nothing happens on an empty queue or when the hovered slot is
    /// the playing slot already.
    pub fn force_new_song(&mut self) -> (action: Option<Playback>)
        requires
            old(self)@.wf(),
        ensures
            final(self)@ == old(self)@.forced(),
            action_view(action) == old(self)@.force_action(),
            final(self)@.wf(),
            old(self)@.songs.len() == 0 ==> final(self)@ == old(self)@ && action is None,
    {
        if self.current_songs.is_empty() || self.hovered_index == self.playing_index {
            return None;
        }
        self.playing_index = self.hovered_index;
        self.is_playing = true;
        let playback = self.playback_for(&self.current_songs[self.hovered_index]);
        Some(playback)
    }

    /// Moves the hovered slot up by one, from the first slot round to the
    /// last. An empty queue stays as it is.
    pub fn hover_up(&mut self)
        requires
            old(self)@.wf(),
        ensures
            final(self)@ == old(self)@.hovered_up(),
            final(self)@.wf(),
            old(self)@.songs.len() == 0 ==> final(self)@ == old(self)@,
    {
        if self.current_songs.is_empty() {
            return ;
        }
        if self.hovered_index == 0 {
            self.hovered_index = self.current_songs.len() - 1;
        } else {
            self.hovered_index = self.hovered_index - 1;
        }
    }

    /// Moves the hovered slot down by one, from the last slot round to
    /// the first. An empty queue stays as it is.
    pub fn hover_down(&mut self)
        requires
            old(self)@.wf(),
        ensures
            final(self)@ == old(self)@.hovered_down(),
            final(self)@.wf(),
            old(self)@.songs.len() == 0 ==> final(self)@ == old(self)@,
    {
        if self.current_songs.is_empty() {
            return ;
        }
        if self.hovered_index >= self.current_songs.len() - 1 {
            self.hovered_index = 0;
        } else {
            self.hovered_index = self.hovered_index + 1;
        }
    }

    /// Raises the volume by 0.1, not beyond 2.0, and returns the volume
    /// that the sink is to take, in tenths.
    pub fn volume_up(&mut self) -> (volume: u8)
        requires
            old(self)@.wf(),
        ensures
            final(self)@ == old(self)@.louder(),
            volume == final(self)@.volume,
            volume <= MAX_VOLUME,
            final(self)@.wf(),
    {
        if self.volume < MAX_VOLUME {
            self.volume = self.volume + 1;
        }
        self.volume
    }

    /// Lowers the volume by 0.1, not below 0.0, and returns the volume
    /// that the sink is to take, in tenths.
    pub fn volume_down(&mut self) -> (volume: u8)
        requires
            old(self)@.wf(),
        ensures
            final(self)@ == old(self)@.quieter(),
            volume == final(self)@.volume,
            volume <= MAX_VOLUME,
            final(self)@.wf(),
    {
        if self.volume > 0 {
            self.volume = self.volume - 1;
        }
        self.volume
    }

    /// Turns shuffling of the open playlist on or off.
    pub fn toggle_shuffle(&mut self)
        requires
            old(self)@.wf(),
        ensures
            final(self)@ == old(self)@.with_toggles(true, false),
            final(self)@.wf(),
    {
        match &mut self.current_playlist {
            Some(playlist) => playlist.toggle_shuffle(),
            None => {},
        }
    }

    /// Turns repeating of the open playlist on or off.
    pub fn toggle_repeat(&mut self)
        requires
            old(self)@.wf(),
        ensures
            final(self)@ == old(self)@.with_toggles(false, true),
            final(self)@.wf(),
    {
        match &mut self.current_playlist {
            Some(playlist) => playlist.toggle_repeat(),
            None => {},
        }
    }

    /// Records that the sink could not start the song it was asked for:
    /// nothing sounds, and the queue is left without a source, so that
    /// the song is not tried again by itself.
    pub fn playback_failed(&mut self)
        requires
            old(self)@.wf(),
        ensures
            final(self)@ == old(self)@.failed(),
            final(self)@.wf(),
    {
        self.is_playing = false;
        self.playbar_source = PlaybarSource::Unset;
    }

    /// What `try_new_song` does once the random draw is known. The draw
    /// counts only where the queue is fed by a shuffling playlist.
    pub fn try_new_song_with(&mut self, drawn: usize) -> (action: Option<Playback>)
        requires
            old(self)@.wf(),
            old(self)@.draws() ==> drawn < old(self)@.songs.len(),
        ensures
            final(self)@ == old(self)@.ticked(drawn as nat),
            action_view(action) == old(self)@.tick_action(drawn as nat),
            final(self)@.wf(),
    {
        if self.current_songs.is_empty() {
            self.is_playing = false;
            return None;
        }
        match self.playbar_source {
            PlaybarSource::Playlist => {
                let mut next: Option<(Song, usize)> = None;
                match &mut self.current_playlist {
                    Some(playlist) => {
                        next = playlist.next_song_with(drawn);
                    },
                    None => {},
                }
                match next {
                    Some((song, slot)) => {
                        self.playing_index = slot;
                        self.is_playing = true;
                        Some(self.playback_for(&song))
                    },
                    None => {
                        self.current_songs = Vec::new();
                        self.playbar_source = PlaybarSource::Unset;
                        self.playing_index = 0;
                        self.hovered_index = 0;
                        self.is_playing = false;
                        None
                    },
                }
            },
            PlaybarSource::Normal => {
                if self.is_playing {
                    self.current_songs.remove(self.playing_index);
                }
                self.clamp_hover();
                if self.current_songs.is_empty() {
                    self.is_playing = false;
                    return None;
                }
                if self.playing_index >= self.current_songs.len() {
                    self.playing_index = self.current_songs.len() - 1;
                }
                self.is_playing = true;
                Some(self.playback_for(&self.current_songs[self.playing_index]))
            },
            PlaybarSource::Unset => {
                self.is_playing = false;
                None
            },
        }
    }

    /// Resolves the next song once the sink has run empty, and returns
    /// the request that starts it, if a song is to start.
    pub fn try_new_song(&mut self) -> (action: Option<Playback>)
        requires
            old(self)@.wf(),
        ensures
            final(self)@.wf(),
            exists|drawn: nat|
                (old(self)@.draws() ==> drawn < old(self)@.songs.len()) && final(self)@
                    == #[trigger] old(self)@.ticked(drawn) && action_view(action) == old(
                    self,
                )@.tick_action(drawn),
            !old(self)@.draws() ==> final(self)@ == old(self)@.ticked(0) && action_view(action)
                == old(self)@.tick_action(0),
    {
        let drawn: usize = if self.draws_next() {
            crate::playlist::random_index(self.current_songs.len())
        } else {
            0
        };
        self.try_new_song_with(drawn)
    }

    /// Whether the next song depends on a random draw.
    fn draws_next(&self) -> (draws: bool)
        ensures
            draws == self@.draws(),
    {
        if self.current_songs.is_empty() {
            return false;
        }
        match self.playbar_source {
            PlaybarSource::Playlist => match &self.current_playlist {
                Some(playlist) => playlist.shuffle_on,
                None => false,
            },
            _ => false,
        }
    }

    /// One turn of the control loop, before rendering. While the sink
    /// still holds a song nothing happens; once it is empty the next song
    /// is resolved.
    pub fn tick(&mut self, sink_empty: bool) -> (action: Option<Playback>)
        requires
            old(self)@.wf(),
        ensures
            final(self)@.wf(),
            !sink_empty ==> final(self)@ == old(self)@ && action is None,
            sink_empty ==> exists|drawn: nat|
                (old(self)@.draws() ==> drawn < old(self)@.songs.len()) && final(self)@
                    == #[trigger] old(self)@.ticked(drawn) && action_view(action) == old(
                    self,
                )@.tick_action(drawn),
            sink_empty && !old(self)@.draws() ==> final(self)@ == old(self)@.ticked(0)
                && action_view(action) == old(self)@.tick_action(0),
    {
        if !sink_empty {
            return None;
        }
        self.try_new_song()
    }
}

/// Removing the hovered song, forcing it and moving the hover leave a
/// player with an empty queue exactly as it was, and ask nothing of the
/// sink.
pub proof fn lemma_empty_queue_is_left_alone(p: PlayerView)
    requires
        p.songs.len() == 0,
    ensures
        p.without_hovered() == p,
        !p.removal_stops_sink(),
        p.forced() == p,
        p.force_action() is None,
        p.hovered_up() == p,
        p.hovered_down() == p,
{
}

/// Removing the hovered song from the last slot of the queue moves the
/// hover back by one, or leaves it on slot 0 where the queue is then
/// empty; removing it from any other slot leaves the hover where it was.
pub proof fn lemma_removal_clamps_hover(p: PlayerView)
    requires
        p.wf(),
        p.songs.len() > 0,
    ensures
        p.without_hovered().songs == p.songs.remove(p.hovered as int),
        p.hovered + 1 == p.songs.len() && p.hovered > 0 ==> p.without_hovered().hovered
            == p.hovered - 1,
        p.hovered + 1 == p.songs.len() && p.hovered == 0 ==> p.without_hovered().hovered == 0,
        p.hovered + 1 < p.songs.len() ==> p.without_hovered().hovered == p.hovered,
        p.without_hovered().songs.len() > 0 ==> p.without_hovered().hovered
            < p.without_hovered().songs.len(),
{
}

/// Removing the song that sounds from a queue of picked songs stops the
/// sink, and the next turn with the sink empty starts the song that stood
/// behind it: no song is dropped in its place.
pub proof fn lemma_removed_song_is_followed_by_its_successor(p: PlayerView, drawn: nat)
    requires
        p.wf(),
        p.source == PlaybarSource::Normal,
        p.is_playing,
        p.hovered == p.playing,
        p.playing + 1 < p.songs.len(),
    ensures
        p.removal_stops_sink(),
        p.without_hovered().next_up(drawn) == Some((p.songs[p.playing as int + 1], p.playing)),
        p.without_hovered().ticked(drawn).songs == p.songs.remove(p.playing as int),
{
}

/// The same for a queue fed by a playlist that plays in order and whose
/// cursor stands on the song that sounds: the next turn starts the song
/// that stood behind the removed one.
pub proof fn lemma_removed_playlist_song_is_followed_by_its_successor(p: PlayerView, drawn: nat)
    requires
        p.wf(),
        p.source == PlaybarSource::Playlist,
        !p.playlist.unwrap().shuffle_on,
        !p.playlist.unwrap().pending,
        p.playlist.unwrap().cursor == p.playing,
        p.hovered == p.playing,
        p.playing + 1 < p.songs.len(),
    ensures
        p.removal_stops_sink(),
        p.without_hovered().next_up(drawn) == Some((p.songs[p.playing as int + 1], p.playing)),
        p.without_hovered().ticked(drawn).songs == p.songs.remove(p.playing as int),
{
}

/// However often the volume is raised or lowered, it stays between 0.0
/// and 2.0: raising it `steps` times adds `steps` tenths up to 2.0, and
/// lowering it takes them off down to 0.0.
pub proof fn lemma_volume_stays_in_range(p: PlayerView, steps: nat)
    requires
        p.volume <= MAX_VOLUME,
    ensures
        p.louder_by(steps).volume == if p.volume + steps <= MAX_VOLUME {
            p.volume + steps
        } else {
            MAX_VOLUME as nat
        },
        p.quieter_by(steps).volume == if p.volume >= steps {
            (p.volume - steps) as nat
        } else {
            0
        },
    decreases steps,
{
    if steps > 0 {
        lemma_volume_stays_in_range(p, (steps - 1) as nat);
    }
}

/// Every operation on a well-formed player leaves it well formed: the
/// hovered slot stays in the queue, the playing slot does while a song
/// sounds, and a queue fed by the playlist keeps the playlist's songs.
pub proof fn lemma_player_stays_well_formed(
    p: PlayerView,
    drawn: nat,
    song: Song,
    playlist: PlaylistView,
)
    requires
        p.wf(),
        playlist.wf(),
        p.draws() ==> drawn < p.songs.len(),
    ensures
        p.without_hovered().wf(),
        p.forced().wf(),
        p.loaded().wf(),
        p.unloaded().wf(),
        p.with_normal_song(song).wf(),
        p.with_playlist(playlist).wf(),
        p.without_playlist().wf(),
        p.hovered_up().wf(),
        p.hovered_down().wf(),
        p.louder().wf(),
        p.quieter().wf(),
        p.failed().wf(),
        p.with_toggles(true, false).wf(),
        p.with_toggles(false, true).wf(),
        p.ticked(drawn).wf(),
{
}

/// While a queue is fed by a playlist that plays in order, the queue
/// keeps the playlist's songs and the playlist is where its own
/// retrievals have brought it: as long as the playlist has not ended,
/// which with repeat on it never does.
proof fn lemma_fed_queue_follows_playlist(p: PlayerView, ticks: nat)
    requires
        p.wf(),
        p.loads(),
        !p.playlist.unwrap().shuffle_on,
        p.playlist.unwrap().repeat_on || ticks <= p.playlist.unwrap().songs.len(),
    ensures
        p.loaded().after_ticks(ticks).source == PlaybarSource::Playlist,
        p.loaded().after_ticks(ticks).songs == p.playlist.unwrap().songs,
        p.loaded().after_ticks(ticks).playlist == Some(
            p.playlist.unwrap().prepared().after_calls(ticks),
        ),
        p.loaded().after_ticks(ticks).parent_path == p.parent_path,
        p.loaded().after_ticks(ticks).volume == p.volume,
    decreases ticks,
{
    if ticks > 0 {
        let before = (ticks - 1) as nat;
        let start = p.playlist.unwrap().prepared();
        lemma_fed_queue_follows_playlist(p, before);
        lemma_after_calls_keeps_songs(start, before);
        if start.repeat_on {
            lemma_repeat_on_cycles(start, before, 0);
        } else {
            lemma_repeat_off_plays_each_song_once(start, before, 0);
        }
    }
}

/// A playlist of N songs that was loaded into the queue with shuffle and
/// repeat off is played through: each of the first N times that the sink
/// is found empty the next song of the playlist starts, from its own slot
/// and at the player's volume, and the time after that the queue is
/// cleared, loses its source and nothing sounds.
pub proof fn lemma_loaded_playlist_plays_through(p: PlayerView, ticks: nat)
    requires
        p.wf(),
        p.loads(),
        !p.playlist.unwrap().shuffle_on,
        !p.playlist.unwrap().repeat_on,
        ticks <= p.playlist.unwrap().songs.len(),
    ensures
        ticks < p.playlist.unwrap().songs.len() ==> {
            let song = p.playlist.unwrap().songs[ticks as int];
            &&& p.loaded().after_ticks(ticks).tick_action(0) == Some(p.playback(song))
            &&& p.loaded().after_ticks(ticks + 1).is_playing
            &&& p.loaded().after_ticks(ticks + 1).playing == ticks
            &&& p.loaded().after_ticks(ticks + 1).songs == p.playlist.unwrap().songs
        },
        ticks == p.playlist.unwrap().songs.len() ==> {
            &&& p.loaded().after_ticks(ticks).tick_action(0) is None
            &&& p.loaded().after_ticks(ticks + 1).songs.len() == 0
            &&& p.loaded().after_ticks(ticks + 1).source == PlaybarSource::Unset
            &&& !p.loaded().after_ticks(ticks + 1).is_playing
        },
{
    let start = p.playlist.unwrap().prepared();
    lemma_fed_queue_follows_playlist(p, ticks);
    lemma_after_calls_keeps_songs(start, ticks);
    lemma_repeat_off_plays_each_song_once(start, ticks, 0);
}

/// With repeat on, a loaded playlist of N songs is played round and
/// round: the time numbered `ticks`, counted from 0, that the sink is
/// found empty starts the song in slot `ticks % N`.
pub proof fn lemma_loaded_playlist_repeats(p: PlayerView, ticks: nat)
    requires
        p.wf(),
        p.loads(),
        !p.playlist.unwrap().shuffle_on,
        p.playlist.unwrap().repeat_on,
    ensures
        ({
            let slot = ticks % p.playlist.unwrap().songs.len();
            let song = p.playlist.unwrap().songs[slot as int];
            &&& p.loaded().after_ticks(ticks).tick_action(0) == Some(p.playback(song))
            &&& p.loaded().after_ticks(ticks + 1).is_playing
            &&& p.loaded().after_ticks(ticks + 1).playing == slot
            &&& p.loaded().after_ticks(ticks + 1).source == PlaybarSource::Playlist
        }),
{
    let start = p.playlist.unwrap().prepared();
    lemma_fed_queue_follows_playlist(p, ticks);
    lemma_after_calls_keeps_songs(start, ticks);
    lemma_repeat_on_cycles(start, ticks, 0);
}

} // verus!
