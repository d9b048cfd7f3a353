//! Songs of the catalog and their playback modifiers.

use vstd::prelude::*;

verus! {

/// Playback-speed variant of a song.
#[derive(Copy, Clone, Debug, PartialEq, Eq, Structural)]
pub enum Mod {
    NoMod,
    Nightcore,
    DoubleTime,
}

/// Sink speed of a modifier, in tenths: unmodified songs run at 1.0, the
/// two sped-up variants at 1.5.
pub open spec fn spec_speed_tenths(modifier: Mod) -> nat {
    match modifier {
        Mod::NoMod => 10,
        Mod::Nightcore => 15,
        Mod::DoubleTime => 15,
    }
}

/// The modifier that follows `modifier` when the user cycles through them.
pub open spec fn spec_next_mod(modifier: Mod) -> Mod {
    match modifier {
        Mod::NoMod => Mod::DoubleTime,
        Mod::DoubleTime => Mod::Nightcore,
        Mod::Nightcore => Mod::NoMod,
    }
}

impl Mod {
    /// Speed at which the sink plays a song with this modifier, in tenths.
    pub fn speed_tenths(&self) -> (speed: u8)
        ensures
            speed == spec_speed_tenths(*self),
    {
        match self {
            Mod::NoMod => 10,
            _ => 15,
        }
    }

    /// Cycles NoMod, DoubleTime, Nightcore and back to NoMod.
    pub fn next(&self) -> (next: Mod)
        ensures
            next == spec_next_mod(*self),
    {
        match self {
            Mod::NoMod => Mod::DoubleTime,
            Mod::DoubleTime => Mod::Nightcore,
            Mod::Nightcore => Mod::NoMod,
        }
    }
}

/// One song of the catalog. `audio_path` is relative to the catalog root and
/// `length` is the nominal duration in seconds, before any modifier.
#[derive(Debug, PartialEq, Eq)]
pub struct Song {
    pub audio_path: String,
    pub song_name: String,
    pub artist: String,
    pub modifier: Mod,
    pub length: u64,
}

impl Clone for Song {
    fn clone(&self) -> (copy: Self)
        ensures
            copy == *self,
    {
        Song {
            audio_path: self.audio_path.clone(),
            song_name: self.song_name.clone(),
            artist: self.artist.clone(),
            modifier: self.modifier,
            length: self.length,
        }
    }
}

impl Song {
    /// A song as it comes out of a beatmap: title and artist from the map,
    /// no modifier.
    pub fn new(title: String, artist: String, audio_path: String, length: u64) -> (song: Song)
        ensures
            song == (Song { audio_path, song_name: title, artist, modifier: Mod::NoMod, length }),
    {
        Song { audio_path, song_name: title, artist, modifier: Mod::NoMod, length }
    }

    /// The same song under another modifier.
    pub fn with_modifier(&self, modifier: Mod) -> (song: Song)
        ensures
            song == (Song { modifier, ..*self }),
    {
        Song {
            audio_path: self.audio_path.clone(),
            song_name: self.song_name.clone(),
            artist: self.artist.clone(),
            modifier,
            length: self.length,
        }
    }
}

/// Copies a list of songs.
pub fn clone_songs(songs: &Vec<Song>) -> (copy: Vec<Song>)
    ensures
        copy@ == songs@,
{
    let copy = songs.clone();
    assert(copy@ =~= songs@);
    copy
}

} // verus!
