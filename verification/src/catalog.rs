//! Building the catalog while the song folders are scanned: which beatmaps
//! become songs, and when a folder has given all it can.
//!
//! Reading folders, beatmaps and audio files is done outside; the scan
//! is told what was found and decides what to keep.

use crate::osu::Song;
use vstd::prelude::*;

verus! {

/// Two songs are the same piece: same title, same artist.
pub open spec fn same_piece(a: Song, b: Song) -> bool {
    a.song_name@ == b.song_name@ && a.artist@ == b.artist@
}

/// A piece with this title and artist is among `songs`.
pub open spec fn has_piece(songs: Seq<Song>, title: Seq<char>, artist: Seq<char>) -> bool {
    exists|i: int|
        0 <= i < songs.len() && (#[trigger] songs[i]).song_name@ == title && songs[i].artist@
            == artist
}

/// No piece occurs twice in `songs`.
pub open spec fn no_piece_twice(songs: Seq<Song>) -> bool {
    forall|i: int, j: int|
        0 <= i < j < songs.len() ==> !same_piece(#[trigger] songs[i], #[trigger] songs[j])
}

/// What became of a beatmap that was offered to the scan.
#[derive(Copy, Clone, Debug, PartialEq, Eq, Structural)]
pub enum ScanStep {
    /// The piece was in the catalog already; nothing changed.
    Skipped,
    /// The song was added and the folder may hold more.
    Added,
    /// The song was added and the folder has now given one song for each
    /// of its audio files: the rest of it need not be read.
    FolderDone,
}

/// The catalog under construction.
///
/// `folder_mp3s` is the number of audio files in the folder being read
/// and `folder_added` the number of songs it has given so far.
#[derive(Debug, PartialEq, Eq)]
pub struct SongScan {
    pub songs: Vec<Song>,
    pub folder_mp3s: usize,
    pub folder_added: usize,
}

impl SongScan {
    /// The invariant of the scan: no piece twice, and the folder has not
    /// given more songs than the catalog holds.
    pub open spec fn wf(&self) -> bool {
        no_piece_twice(self.songs@) && self.folder_added <= self.songs.len()
    }

    /// A scan that has found nothing yet.
    pub fn new() -> (scan: SongScan)
        ensures
            scan.songs@ == Seq::<Song>::empty(),
            scan.folder_mp3s == 0,
            scan.folder_added == 0,
            scan.wf(),
    {
        SongScan { songs: Vec::new(), folder_mp3s: 0, folder_added: 0 }
    }

    /// Starts on a folder that holds `mp3_files` audio files.
    pub fn begin_folder(&mut self, mp3_files: usize)
        requires
            old(self).wf(),
        ensures
            final(self).songs@ == old(self).songs@,
            final(self).folder_mp3s == mp3_files,
            final(self).folder_added == 0,
            final(self).wf(),
    {
        self.folder_mp3s = mp3_files;
        self.folder_added = 0;
    }

    /// Whether a piece with this title and artist is in the catalog.
    pub fn is_known(&self, title: &String, artist: &String) -> (known: bool)
        ensures
            known == has_piece(self.songs@, title@, artist@),
    {
        let mut i: usize = 0;
        while i < self.songs.len()
            invariant
                i <= self.songs.len(),
                forall|j: int|
                    0 <= j < i ==> !((#[trigger] self.songs[j]).song_name@ == title@
                        && self.songs[j].artist@ == artist@),
            decreases self.songs.len() - i,
        {
            if self.songs[i].song_name == *title && self.songs[i].artist == *artist {
                return true;
            }
            i += 1;
        }
        false
    }

    /// Offers the song of a beatmap to the catalog.
    ///
    /// A piece that the catalog holds already is skipped. Any other song
    /// is appended; the folder is done when it has then given as many
    /// songs as it holds audio files.
    pub fn add(&mut self, song: Song) -> (step: ScanStep)
        requires
            old(self).wf(),
        ensures
            final(self).wf(),
            final(self).folder_mp3s == old(self).folder_mp3s,
            has_piece(old(self).songs@, song.song_name@, song.artist@) ==> step
                == ScanStep::Skipped && final(self).songs@ == old(self).songs@
                && final(self).folder_added == old(self).folder_added,
            !has_piece(old(self).songs@, song.song_name@, song.artist@) ==> final(self).songs@
                == old(self).songs@.push(song) && final(self).folder_added == old(
                self,
            ).folder_added + 1 && step == if final(self).folder_added == final(self).folder_mp3s {
                ScanStep::FolderDone
            } else {
                ScanStep::Added
            },
    {
        if self.is_known(&song.song_name, &song.artist) {
            return ScanStep::Skipped;
        }
        self.songs.push(song);
        assert(self.folder_added < self.songs.len());
        self.folder_added = self.folder_added + 1;
        if self.folder_added == self.folder_mp3s {
            ScanStep::FolderDone
        } else {
            ScanStep::Added
        }
    }
}

} // verus!
