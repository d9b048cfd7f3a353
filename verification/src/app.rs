//! The application state behind the three panes (search, queue, playlists)
//! and what each key does to it.
//!
//! Keys come in as [`Key`] values; what the audio sink or the disk has to
//! do comes out as a [`Command`].

use crate::osu::{clone_songs, spec_next_mod, Song};
use crate::player::{Playback, PlaybackView, PlaybarSource, Player, PlayerView};
use crate::playlist::{
    playlist_views, record_views, serialize_playlists, stored_all, Playlist, PlaylistView,
    RecordView, SerializedPlaylist,
};
use crate::search::{matching, matching_songs};
use vstd::prelude::*;

verus! {

/// `String::push` appends the character to the end of the string.
pub assume_specification[ String::push ](text: &mut String, ch: char)
    ensures
        final(text)@ == old(text)@.push(ch),
;

/// `String::pop` removes the last character and returns it, or returns
/// `None` and changes nothing where the string is empty.
pub assume_specification[ String::pop ](text: &mut String) -> (last: Option<char>)
    ensures
        old(text)@.len() == 0 ==> last is None && final(text)@ == old(text)@,
        old(text)@.len() > 0 ==> last == Some(old(text)@.last()) && final(text)@ == old(
            text,
        )@.drop_last(),
;

/// The pane that has the keyboard.
#[derive(Copy, Clone, Debug, PartialEq, Eq, Structural)]
pub enum UIMode {
    Input,
    PlayBar,
    Playlist,
}

/// Where the catalog and its caches are kept.
#[derive(Debug, PartialEq, Eq)]
pub struct AppData {
    pub song_path: String,
    pub serialized_songs: bool,
    pub serialize_path: String,
    pub playlist_path: String,
}

/// A key press, as far as the application tells keys apart.
#[derive(Copy, Clone, Debug, PartialEq, Eq, Structural)]
pub enum Key {
    Esc,
    Tab,
    Enter,
    Left,
    Right,
    Up,
    Down,
    Backspace,
    Delete,
    Char(char),
    Other,
}

/// What is to be done outside the library after a key was handled.
#[derive(Debug, PartialEq, Eq)]
pub enum Command {
    Nothing,
    StopSink,
    Play(Playback),
    TogglePause,
    SetVolume(u8),
    SavePlaylists(Vec<SerializedPlaylist>),
}

/// The mathematical content of a [`Command`].
pub ghost enum CommandView {
    Nothing,
    StopSink,
    Play(PlaybackView),
    TogglePause,
    SetVolume(nat),
    SavePlaylists(Seq<RecordView>),
}

impl View for Command {
    type V = CommandView;

    open spec fn view(&self) -> CommandView {
        match *self {
            Command::Nothing => CommandView::Nothing,
            Command::StopSink => CommandView::StopSink,
            Command::Play(playback) => CommandView::Play(playback@),
            Command::TogglePause => CommandView::TogglePause,
            Command::SetVolume(volume) => CommandView::SetVolume(volume as nat),
            Command::SavePlaylists(records) => CommandView::SavePlaylists(record_views(records@)),
        }
    }
}

/// The application: the search pane with its query and results, the
/// stored playlists with the selected one, the name of a playlist being
/// created, and the player.
#[derive(Debug, PartialEq, Eq)]
pub struct App {
    pub current_ui: UIMode,
    pub query: String,
    pub queried_songs: Vec<Song>,
    pub playlists: Vec<Playlist>,
    pub playlist_i: usize,
    pub query_i: usize,
    pub new_playlist_name: String,
    pub is_adding_list: bool,
    pub glob_data: AppData,
    pub player: Player,
    pub all_songs: Vec<Song>,
}

/// The mathematical content of an [`App`], without the paths of its data.
pub ghost struct AppView {
    pub current_ui: UIMode,
    pub query: Seq<char>,
    pub queried_songs: Seq<Song>,
    pub playlists: Seq<PlaylistView>,
    pub playlist_i: nat,
    pub query_i: nat,
    pub new_playlist_name: Seq<char>,
    pub is_adding_list: bool,
    pub player: PlayerView,
    pub all_songs: Seq<Song>,
}

impl View for App {
    type V = AppView;

    open spec fn view(&self) -> AppView {
        AppView {
            current_ui: self.current_ui,
            query: self.query@,
            queried_songs: self.queried_songs@,
            playlists: playlist_views(self.playlists@),
            playlist_i: self.playlist_i as nat,
            query_i: self.query_i as nat,
            new_playlist_name: self.new_playlist_name@,
            is_adding_list: self.is_adding_list,
            player: self.player@,
            all_songs: self.all_songs@,
        }
    }
}

/// The pane that Tab moves to.
pub open spec fn spec_next_ui(ui: UIMode) -> UIMode {
    match ui {
        UIMode::Input => UIMode::Playlist,
        UIMode::Playlist => UIMode::PlayBar,
        UIMode::PlayBar => UIMode::Input,
    }
}

/// A selection moved one step up in a list of `len` entries, from the
/// first entry round to the last; nothing moves in an empty list.
pub open spec fn spec_step_up(index: nat, len: nat) -> nat {
    if len == 0 {
        index
    } else if index == 0 {
        (len - 1) as nat
    } else {
        (index - 1) as nat
    }
}

/// A selection moved one step down in a list of `len` entries, from the
/// last entry round to the first; nothing moves in an empty list.
pub open spec fn spec_step_down(index: nat, len: nat) -> nat {
    if len == 0 {
        index
    } else if index + 1 >= len {
        0
    } else {
        index + 1
    }
}

/// A selection inside a list of `len` entries: itself, or the last entry
/// where it lies beyond the list.
pub open spec fn spec_clamped(index: nat, len: nat) -> nat {
    if index < len {
        index
    } else if len > 0 {
        (len - 1) as nat
    } else {
        0
    }
}

impl AppView {
    /// The application as it starts: the queue pane has the keyboard,
    /// the query is empty and every song is a result.
    pub open spec fn start(
        songs: Seq<Song>,
        song_path: Seq<char>,
        playlists: Seq<PlaylistView>,
    ) -> AppView {
        AppView {
            current_ui: UIMode::PlayBar,
            query: Seq::empty(),
            queried_songs: songs,
            playlists,
            playlist_i: 0,
            query_i: 0,
            new_playlist_name: Seq::empty(),
            is_adding_list: false,
            player: PlayerView::idle(song_path),
            all_songs: songs,
        }
    }

    /// The invariant of the application: the player and every stored
    /// playlist are well formed, and both selections lie in their lists
    /// (on entry 0 where the list is empty).
    pub open spec fn wf(self) -> bool {
        &&& self.player.wf()
        &&& forall|i: int| 0 <= i < self.playlists.len() ==> (#[trigger] self.playlists[i]).wf()
        &&& self.playlist_i == spec_clamped(self.playlist_i, self.playlists.len())
        &&& self.query_i == spec_clamped(self.query_i, self.queried_songs.len())
    }

    /// The key ends the program: Esc in the queue pane while no playlist
    /// feeds the queue.
    pub open spec fn quits(self, key: Key) -> bool {
        key == Key::Esc && self.current_ui == UIMode::PlayBar && self.player.source
            != PlaybarSource::Playlist
    }

    /// The application with the results of `query`; the selection stays
    /// where it was if it still lies in the results.
    pub open spec fn requeried(self, query: Seq<char>) -> AppView {
        let found = matching(self.all_songs, query);
        AppView {
            query,
            queried_songs: found,
            query_i: spec_clamped(self.query_i, found.len()),
            ..self
        }
    }

    /// What a key does in the search pane.
    ///
    /// Esc clears the query, or leaves for the queue pane when the query
    /// is empty. Right appends the selected result to the selected
    /// playlist and opens that playlist in the player if one was open.
    /// Left gives the selected result its next modifier. Enter queues the
    /// selected result. A character or Backspace edits the query and
    /// searches again; a character also selects the first result. Up and
    /// Down move the selection round the results.
    pub open spec fn after_search_key(self, key: Key) -> AppView {
        match key {
            Key::Esc => if self.query.len() != 0 {
                self.requeried(Seq::empty())
            } else {
                AppView { current_ui: UIMode::PlayBar, ..self }
            },
            Key::Right => if self.playlists.len() == 0 || self.queried_songs.len() == 0 {
                self
            } else {
                let grown = self.playlists[self.playlist_i as int].with_song(
                    self.queried_songs[self.query_i as int],
                );
                AppView {
                    playlists: self.playlists.update(self.playlist_i as int, grown),
                    player: if self.player.playlist is Some {
                        self.player.with_playlist(grown)
                    } else {
                        self.player
                    },
                    ..self
                }
            },
            Key::Left => if self.queried_songs.len() == 0 {
                self
            } else {
                let song = self.queried_songs[self.query_i as int];
                AppView {
                    queried_songs: self.queried_songs.update(
                        self.query_i as int,
                        Song { modifier: spec_next_mod(song.modifier), ..song },
                    ),
                    ..self
                }
            },
            Key::Enter => if self.queried_songs.len() == 0 {
                self
            } else {
                AppView {
                    player: self.player.with_normal_song(self.queried_songs[self.query_i as int]),
                    ..self
                }
            },
            Key::Char(c) => AppView { query_i: 0, ..self.requeried(self.query.push(c)) },
            Key::Backspace => self.requeried(
                if self.query.len() > 0 {
                    self.query.drop_last()
                } else {
                    self.query
                },
            ),
            Key::Down => AppView {
                query_i: spec_step_down(self.query_i, self.queried_songs.len()),
                ..self
            },
            Key::Up => AppView {
                query_i: spec_step_up(self.query_i, self.queried_songs.len()),
                ..self
            },
            _ => self,
        }
    }

    /// What a key does in the queue pane.
    ///
    /// Esc unloads the queue. Enter forces the hovered song. Delete
    /// removes it. Up and Down move the hover. `+` and `-` change the
    /// volume. The space bar, which pauses, changes nothing here.
    pub open spec fn after_playbar_key(self, key: Key) -> AppView {
        match key {
            Key::Esc => AppView { player: self.player.unloaded(), ..self },
            Key::Enter => AppView { player: self.player.forced(), ..self },
            Key::Delete => AppView { player: self.player.without_hovered(), ..self },
            Key::Up => AppView { player: self.player.hovered_up(), ..self },
            Key::Down => AppView { player: self.player.hovered_down(), ..self },
            Key::Char(c) => if c == '+' {
                AppView { player: self.player.louder(), ..self }
            } else if c == '-' {
                AppView { player: self.player.quieter(), ..self }
            } else {
                self
            },
            _ => self,
        }
    }

    /// What a letter does in the playlist pane: it goes into the name of
    /// the playlist being created, or else `n` starts creating one, `w`
    /// toggles repeat and `e` toggles shuffle of the open playlist.
    pub open spec fn after_playlist_char(self, c: char) -> AppView {
        if self.is_adding_list {
            AppView { new_playlist_name: self.new_playlist_name.push(c), ..self }
        } else if c == 'n' {
            AppView { is_adding_list: true, ..self }
        } else if c == 'w' {
            AppView { player: self.player.with_toggles(false, true), ..self }
        } else if c == 'e' {
            AppView { player: self.player.with_toggles(true, false), ..self }
        } else {
            self
        }
    }

    /// What Enter does in the playlist pane.
    ///
    /// With a playlist open, it is loaded into the queue. Otherwise the
    /// selected playlist is opened unless one is being created, and a
    /// playlist with the typed name, if there is one, is created.
    pub open spec fn after_playlist_enter(self) -> AppView {
        if self.player.playlist is Some {
            AppView { player: self.player.loaded(), ..self }
        } else {
            let opened = if !self.is_adding_list && self.playlists.len() != 0 {
                AppView {
                    player: self.player.with_playlist(self.playlists[self.playlist_i as int]),
                    ..self
                }
            } else {
                self
            };
            if self.new_playlist_name.len() == 0 {
                opened
            } else {
                AppView {
                    playlists: self.playlists.push(
                        PlaylistView::fresh(self.new_playlist_name, Seq::empty()),
                    ),
                    new_playlist_name: Seq::empty(),
                    is_adding_list: false,
                    ..opened
                }
            }
        }
    }

    /// What a key does in the playlist pane.
    ///
    /// Esc unloads the queue if the playlist feeds it, else closes the
    /// open playlist, else leaves for the queue pane. Left closes the
    /// open playlist and stores it in the selected place. Backspace
    /// takes the last character off the name being typed. Up and Down
    /// move the selection round the playlists.
    pub open spec fn after_playlist_key(self, key: Key) -> AppView {
        match key {
            Key::Esc => if self.player.source == PlaybarSource::Playlist {
                AppView { player: self.player.unloaded(), ..self }
            } else if self.player.playlist is Some {
                AppView { player: self.player.without_playlist(), ..self }
            } else {
                AppView { current_ui: UIMode::PlayBar, ..self }
            },
            Key::Left => if self.player.playlist is Some {
                AppView {
                    playlists: if self.playlist_i < self.playlists.len() {
                        self.playlists.update(self.playlist_i as int, self.player.playlist.unwrap())
                    } else {
                        self.playlists
                    },
                    player: self.player.without_playlist(),
                    ..self
                }
            } else {
                self
            },
            Key::Backspace => AppView {
                new_playlist_name: if self.new_playlist_name.len() > 0 {
                    self.new_playlist_name.drop_last()
                } else {
                    self.new_playlist_name
                },
                ..self
            },
            Key::Char(c) => self.after_playlist_char(c),
            Key::Enter => self.after_playlist_enter(),
            Key::Up => AppView {
                playlist_i: spec_step_up(self.playlist_i, self.playlists.len()),
                ..self
            },
            Key::Down => AppView {
                playlist_i: spec_step_down(self.playlist_i, self.playlists.len()),
                ..self
            },
            _ => self,
        }
    }

    /// What a key does: nothing when it ends the program; Tab moves to
    /// the next pane; every other key goes to the pane that has the
    /// keyboard.
    pub open spec fn after_key(self, key: Key) -> AppView {
        if self.quits(key) {
            self
        } else if key == Key::Tab {
            AppView { current_ui: spec_next_ui(self.current_ui), ..self }
        } else {
            match self.current_ui {
                UIMode::Input => self.after_search_key(key),
                UIMode::Playlist => self.after_playlist_key(key),
                UIMode::PlayBar => self.after_playbar_key(key),
            }
        }
    }

    /// What a key in the queue pane asks of the sink.
    pub open spec fn playbar_command(self, key: Key) -> CommandView {
        match key {
            Key::Esc => CommandView::StopSink,
            Key::Enter => match self.player.force_action() {
                Some(playback) => CommandView::Play(playback),
                None => CommandView::Nothing,
            },
            Key::Delete => if self.player.removal_stops_sink() {
                CommandView::StopSink
            } else {
                CommandView::Nothing
            },
            Key::Char(c) => if c == ' ' {
                CommandView::TogglePause
            } else if c == '+' {
                CommandView::SetVolume(self.player.louder().volume)
            } else if c == '-' {
                CommandView::SetVolume(self.player.quieter().volume)
            } else {
                CommandView::Nothing
            },
            _ => CommandView::Nothing,
        }
    }

    /// What a key in the playlist pane asks for: Esc stops the sink when
    /// it unloads the queue, and `q` saves the playlists unless a name is
    /// being typed.
    pub open spec fn playlist_command(self, key: Key) -> CommandView {
        match key {
            Key::Esc => if self.player.source == PlaybarSource::Playlist {
                CommandView::StopSink
            } else {
                CommandView::Nothing
            },
            Key::Char(c) => if c == 'q' && !self.is_adding_list {
                CommandView::SavePlaylists(stored_all(self.playlists))
            } else {
                CommandView::Nothing
            },
            _ => CommandView::Nothing,
        }
    }

    /// What handling a key asks for outside the library.
    pub open spec fn command(self, key: Key) -> CommandView {
        if self.quits(key) || key == Key::Tab {
            CommandView::Nothing
        } else {
            match self.current_ui {
                UIMode::Input => CommandView::Nothing,
                UIMode::Playlist => self.playlist_command(key),
                UIMode::PlayBar => self.playbar_command(key),
            }
        }
    }
}

/// Moves a selection one step up, round an empty-or-not list.
fn step_up(index: usize, len: usize) -> (moved: usize)
    ensures
        moved == spec_step_up(index as nat, len as nat),
{
    if len == 0 {
        index
    } else if index == 0 {
        len - 1
    } else {
        index - 1
    }
}

/// Moves a selection one step down, round an empty-or-not list.
fn step_down(index: usize, len: usize) -> (moved: usize)
    ensures
        moved == spec_step_down(index as nat, len as nat),
{
    if len == 0 {
        index
    } else if index >= len - 1 {
        0
    } else {
        index + 1
    }
}

/// Decides where the songs come from at start-up. `cached` is what the
/// song cache held, if it was read and could be parsed.
///
/// The cached songs are used when the data say that a cache exists and
/// it was read. Otherwise `None` is returned: the catalog has to be
/// scanned and cached, and the data record from now on that it is.
pub fn load_songs(data: &mut AppData, cached: Option<Vec<Song>>) -> (songs: Option<Vec<Song>>)
    ensures
        songs == if old(data).serialized_songs {
            cached
        } else {
            None
        },
        final(data).serialized_songs,
        final(data).song_path == old(data).song_path,
        final(data).serialize_path == old(data).serialize_path,
        final(data).playlist_path == old(data).playlist_path,
{
    if data.serialized_songs {
        if cached.is_some() {
            return cached;
        }
    }
    data.serialized_songs = true;
    None
}

impl App {
    /// The application at start-up, over the catalog `songs` and the
    /// stored `playlists`.
    pub fn new(songs: Vec<Song>, glob_data: AppData, playlists: Vec<Playlist>) -> (app: App)
        requires
            forall|i: int| 0 <= i < playlists.len() ==> (#[trigger] playlists[i])@.wf(),
        ensures
            app@ == AppView::start(songs@, glob_data.song_path@, playlist_views(playlists@)),
            app.glob_data == glob_data,
            app@.wf(),
    {
        let player = Player::new(glob_data.song_path.clone());
        App {
            query: String::new(),
            all_songs: clone_songs(&songs),
            queried_songs: songs,
            query_i: 0,
            current_ui: UIMode::PlayBar,
            playlists,
            playlist_i: 0,
            new_playlist_name: String::new(),
            is_adding_list: false,
            glob_data,
            player,
        }
    }

    /// Searches the catalog for the query again.
    pub fn get_matching_songs(&mut self)
        requires
            old(self)@.wf(),
        ensures
            final(self)@ == old(self)@.requeried(old(self)@.query),
            final(self).glob_data == old(self).glob_data,
            final(self)@.wf(),
    {
        self.queried_songs = matching_songs(&self.all_songs, self.query.as_str());
        let len: usize = self.queried_songs.len();
        if self.query_i >= len {
            self.query_i = if len > 0 {
                len - 1
            } else {
                0
            };
        }
    }

    /// Handles a key in the search pane.
    fn search_mode_handler(&mut self, key: Key)
        requires
            old(self)@.wf(),
        ensures
            final(self)@ == old(self)@.after_search_key(key),
            final(self).glob_data == old(self).glob_data,
            final(self)@.wf(),
    {
        match key {
            Key::Esc => {
                if !self.query.as_str().is_empty() {
                    self.query = String::new();
                    self.get_matching_songs();
                    return ;
                }
                self.current_ui = UIMode::PlayBar;
            },
            Key::Right => {
                if self.playlists.len() == 0 || self.queried_songs.len() == 0 {
                    return ;
                }
                let new_song = self.queried_songs[self.query_i].clone();
                let mut grown = self.playlists[self.playlist_i].clone();
                grown.add_song(new_song);
                if self.player.current_playlist.is_some() {
                    self.player.load_playlist(grown.clone());
                }
                proof {
                    let before = old(self)@.playlists;
                    assert(grown@ == before[self.playlist_i as int].with_song(new_song));
                }
                let ghost grown_view = grown@;
                self.playlists.set(self.playlist_i, grown);
                assert(self@.playlists =~= old(self)@.playlists.update(
                    self.playlist_i as int,
                    grown_view,
                ));
            },
            Key::Left => {
                if self.queried_songs.len() == 0 {
                    return ;
                }
                let song = &self.queried_songs[self.query_i];
                let changed = song.with_modifier(song.modifier.next());
                self.queried_songs.set(self.query_i, changed);
            },
            Key::Enter => {
                if self.queried_songs.len() == 0 {
                    return ;
                }
                let new_song = self.queried_songs[self.query_i].clone();
                self.player.add_normal_song(new_song);
            },
            Key::Char(c) => {
                self.query.push(c);
                self.get_matching_songs();
                self.query_i = 0;
            },
            Key::Backspace => {
                self.query.pop();
                self.get_matching_songs();
            },
            Key::Down => {
                self.query_i = step_down(self.query_i, self.queried_songs.len());
            },
            Key::Up => {
                self.query_i = step_up(self.query_i, self.queried_songs.len());
            },
            _ => {},
        }
    }

    /// Handles a key in the queue pane.
    fn play_bar_handler(&mut self, key: Key) -> (command: Command)
        requires
            old(self)@.wf(),
        ensures
            final(self)@ == old(self)@.after_playbar_key(key),
            command@ == old(self)@.playbar_command(key),
            final(self).glob_data == old(self).glob_data,
            final(self)@.wf(),
    {
        match key {
            Key::Esc => {
                if self.player.unload_playbar_playlist() {
                    Command::StopSink
                } else {
                    Command::Nothing
                }
            },
            Key::Enter => match self.player.force_new_song() {
                Some(playback) => Command::Play(playback),
                None => Command::Nothing,
            },
            Key::Delete => {
                if self.player.remove_hovered_song() {
                    Command::StopSink
                } else {
                    Command::Nothing
                }
            },
            Key::Up => {
                self.player.hover_up();
                Command::Nothing
            },
            Key::Down => {
                self.player.hover_down();
                Command::Nothing
            },
            Key::Char(c) => {
                if c == ' ' {
                    Command::TogglePause
                } else if c == '+' {
                    Command::SetVolume(self.player.volume_up())
                } else if c == '-' {
                    Command::SetVolume(self.player.volume_down())
                } else {
                    Command::Nothing
                }
            },
            _ => Command::Nothing,
        }
    }

    /// Handles a key in the playlist pane.
    fn playlist_handler(&mut self, key: Key) -> (command: Command)
        requires
            old(self)@.wf(),
        ensures
            final(self)@ == old(self)@.after_playlist_key(key),
            command@ == old(self)@.playlist_command(key),
            final(self).glob_data == old(self).glob_data,
            final(self)@.wf(),
    {
        match key {
            Key::Esc => {
                if let PlaybarSource::Playlist = self.player.playbar_source {
                    if self.player.unload_playbar_playlist() {
                        return Command::StopSink;
                    }
                    return Command::Nothing;
                }
                if self.player.current_playlist.is_some() {
                    self.player.pop_current_playlist();
                    return Command::Nothing;
                }
                self.current_ui = UIMode::PlayBar;
            },
            Key::Left => {
                match self.player.pop_current_playlist() {
                    Some(playlist) => {
                        let ghost closed = playlist@;
                        if self.playlist_i < self.playlists.len() {
                            self.playlists.set(self.playlist_i, playlist);
                            assert(self@.playlists =~= old(self)@.playlists.update(
                                self.playlist_i as int,
                                closed,
                            ));
                        }
                    },
                    None => {},
                }
            },
            Key::Backspace => {
                self.new_playlist_name.pop();
            },
            Key::Char(c) => {
                if self.is_adding_list {
                    self.new_playlist_name.push(c);
                } else if c == 'n' {
                    self.is_adding_list = true;
                } else if c == 'q' {
                    return Command::SavePlaylists(serialize_playlists(&self.playlists));
                } else if c == 'w' {
                    self.player.toggle_repeat();
                } else if c == 'e' {
                    self.player.toggle_shuffle();
                }
            },
            Key::Enter => {
                if self.player.current_playlist.is_some() {
                    self.player.load_playbar_playlist();
                    return Command::Nothing;
                }
                if !self.is_adding_list && self.playlists.len() != 0 {
                    self.player.load_playlist(self.playlists[self.playlist_i].clone());
                }
                if self.new_playlist_name.as_str().is_empty() {
                    return Command::Nothing;
                }
                let new_playlist = Playlist::new_empty(self.new_playlist_name.clone());
                let ghost created = new_playlist@;
                self.playlists.push(new_playlist);
                assert(self@.playlists =~= old(self)@.playlists.push(created));
                self.new_playlist_name = String::new();
                self.is_adding_list = false;
            },
            Key::Up => {
                self.playlist_i = step_up(self.playlist_i, self.playlists.len());
            },
            Key::Down => {
                self.playlist_i = step_down(self.playlist_i, self.playlists.len());
            },
            _ => {},
        }
        Command::Nothing
    }

    /// Handles a key press and says what is to be done outside.
    ///
    /// `Err(1)` asks to end the program; the state is then unchanged.
    pub fn event_handler(&mut self, key: Key) -> (outcome: Result<Command, i32>)
        requires
            old(self)@.wf(),
        ensures
            final(self)@ == old(self)@.after_key(key),
            old(self)@.quits(key) ==> outcome == Err::<Command, i32>(1),
            !old(self)@.quits(key) ==> outcome is Ok && outcome.unwrap()@ == old(self)@.command(
                key,
            ),
            final(self).glob_data == old(self).glob_data,
            final(self)@.wf(),
    {
        if let Key::Esc = key {
            if let UIMode::PlayBar = self.current_ui {
                match self.player.playbar_source {
                    PlaybarSource::Playlist => {},
                    _ => {
                        return Err(1);
                    },
                }
            }
        }
        if let Key::Tab = key {
            self.current_ui = match self.current_ui {
                UIMode::Input => UIMode::Playlist,
                UIMode::Playlist => UIMode::PlayBar,
                UIMode::PlayBar => UIMode::Input,
            };
            return Ok(Command::Nothing);
        }
        match self.current_ui {
            UIMode::Input => {
                self.search_mode_handler(key);
                Ok(Command::Nothing)
            },
            UIMode::Playlist => Ok(self.playlist_handler(key)),
            UIMode::PlayBar => Ok(self.play_bar_handler(key)),
        }
    }
}

/// Whatever key is pressed, the application stays well formed: both
/// selections stay in their lists, and the player and the stored
/// playlists keep their invariants.
pub proof fn lemma_app_stays_well_formed(a: AppView, key: Key)
    requires
        a.wf(),
    ensures
        a.after_key(key).wf(),
{
}

/// Tab goes round the three panes: pressed three times, it leaves the
/// application as it was.
pub proof fn lemma_three_tabs_come_back(a: AppView)
    ensures
        a.after_key(Key::Tab).after_key(Key::Tab).after_key(Key::Tab) == a,
{
}

} // verus!
