use osu_player::app::{load_songs, App, AppData, Command, Key, UIMode};
use osu_player::osu::{Mod, Song};
use osu_player::player::{Playback, PlaybarSource};
use osu_player::playlist::{Playlist, SerializedPlaylist};
use osu_player::renderer::song_range;
use osu_player::search::{matches_query, matching_songs};

fn tune(name: &str) -> Song {
    Song {
        audio_path: format!("/{}.mp3", name),
        song_name: name.to_string(),
        artist: "band".to_string(),
        modifier: Mod::NoMod,
        length: 60,
    }
}

fn data() -> AppData {
    AppData {
        song_path: "root".to_string(),
        serialized_songs: false,
        serialize_path: "assets/songs.json".to_string(),
        playlist_path: "assets/playlists.json".to_string(),
    }
}

fn catalog() -> Vec<Song> {
    vec![tune("Alpha"), tune("Beta"), tune("alphabet"), tune("Gamma")]
}

fn app_with(playlists: Vec<Playlist>) -> App {
    App::new(catalog(), data(), playlists)
}

fn list(name: &str, songs: &[&str]) -> Playlist {
    let mut playlist = Playlist::new_empty(name.to_string());
    for s in songs {
        playlist.add_song(tune(s));
    }
    playlist
}

fn press(app: &mut App, keys: &[Key]) -> Command {
    let mut last = Command::Nothing;
    for key in keys {
        last = app.event_handler(*key).expect("the key does not quit");
    }
    last
}

fn result_names(app: &App) -> Vec<String> {
    app.queried_songs.iter().map(|s| s.song_name.clone()).collect()
}

#[test]
fn app_starts_in_the_queue_pane_with_every_song() {
    let app = app_with(vec![]);
    assert_eq!(app.current_ui, UIMode::PlayBar);
    assert_eq!(app.query, "");
    assert_eq!(app.queried_songs, catalog());
    assert_eq!(app.all_songs, catalog());
    assert_eq!(app.query_i, 0);
    assert_eq!(app.playlist_i, 0);
    assert!(!app.is_adding_list);
    assert_eq!(app.player.parent_path, "root");
    assert_eq!(app.glob_data, data());
}

#[test]
fn esc_in_the_queue_pane_quits_unless_a_playlist_feeds_the_queue() {
    let mut app = app_with(vec![list("mix", &["Alpha", "Beta"])]);
    let before = format!("{:?}", app);
    assert_eq!(app.event_handler(Key::Esc), Err(1));
    assert_eq!(format!("{:?}", app), before);

    press(&mut app, &[Key::Tab, Key::Tab, Key::Enter, Key::Enter, Key::Tab]);
    assert_eq!(app.current_ui, UIMode::PlayBar);
    assert_eq!(app.player.playbar_source, PlaybarSource::Playlist);
    assert_eq!(app.event_handler(Key::Esc), Ok(Command::StopSink));
    assert_eq!(app.player.playbar_source, PlaybarSource::Unset);
    assert!(app.player.current_songs.is_empty());
}

#[test]
fn tab_cycles_through_the_panes() {
    let mut app = app_with(vec![]);
    assert_eq!(press(&mut app, &[Key::Tab]), Command::Nothing);
    assert_eq!(app.current_ui, UIMode::Input);
    press(&mut app, &[Key::Tab]);
    assert_eq!(app.current_ui, UIMode::Playlist);
    press(&mut app, &[Key::Tab]);
    assert_eq!(app.current_ui, UIMode::PlayBar);
}

#[test]
fn typing_searches_without_regard_to_case() {
    let mut app = app_with(vec![]);
    press(&mut app, &[Key::Tab, Key::Down, Key::Down]);
    assert_eq!(app.query_i, 2);
    press(&mut app, &[Key::Char('a'), Key::Char('L')]);
    assert_eq!(app.query, "aL");
    assert_eq!(result_names(&app), ["Alpha", "alphabet"]);
    assert_eq!(app.query_i, 0);
    press(&mut app, &[Key::Char('p'), Key::Char('h'), Key::Char('a'), Key::Char('b')]);
    assert_eq!(result_names(&app), ["alphabet"]);
    press(&mut app, &[Key::Char('x')]);
    assert!(app.queried_songs.is_empty());
    press(&mut app, &[Key::Down, Key::Up, Key::Enter, Key::Left, Key::Right]);
    assert_eq!(app.query_i, 0);
    assert!(app.player.current_songs.is_empty());
    press(&mut app, &[Key::Backspace]);
    assert_eq!(app.query, "aLphab");
    assert_eq!(result_names(&app), ["alphabet"]);
    press(&mut app, &[Key::Esc]);
    assert_eq!(app.query, "");
    assert_eq!(app.queried_songs, catalog());
    assert_eq!(app.current_ui, UIMode::Input);
    press(&mut app, &[Key::Backspace]);
    assert_eq!(app.query, "");
    press(&mut app, &[Key::Esc]);
    assert_eq!(app.current_ui, UIMode::PlayBar);
}

#[test]
fn search_selection_wraps() {
    let mut app = app_with(vec![]);
    press(&mut app, &[Key::Tab, Key::Up]);
    assert_eq!(app.query_i, 3);
    press(&mut app, &[Key::Down]);
    assert_eq!(app.query_i, 0);
    press(&mut app, &[Key::Down]);
    assert_eq!(app.query_i, 1);
}

#[test]
fn left_cycles_the_modifier_of_the_selected_result() {
    let mut app = app_with(vec![]);
    press(&mut app, &[Key::Tab, Key::Down, Key::Left]);
    assert_eq!(app.queried_songs[1].modifier, Mod::DoubleTime);
    assert_eq!(app.queried_songs[0].modifier, Mod::NoMod);
    assert_eq!(app.all_songs[1].modifier, Mod::NoMod);
    press(&mut app, &[Key::Left]);
    assert_eq!(app.queried_songs[1].modifier, Mod::Nightcore);
    press(&mut app, &[Key::Left]);
    assert_eq!(app.queried_songs[1], tune("Beta"));
}

#[test]
fn enter_queues_the_selected_result_and_the_queue_pane_plays_it() {
    let mut app = app_with(vec![]);
    press(&mut app, &[Key::Tab, Key::Down, Key::Left, Key::Enter, Key::Up, Key::Enter]);
    assert_eq!(app.player.playbar_source, PlaybarSource::Normal);
    assert_eq!(app.player.current_songs.len(), 2);
    assert_eq!(app.player.current_songs[0].modifier, Mod::DoubleTime);
    let first = app.player.tick(true);
    assert_eq!(
        first,
        Some(Playback { path: "root/Beta.mp3".to_string(), speed_tenths: 15, volume_tenths: 5 })
    );
    press(&mut app, &[Key::Tab, Key::Tab]);
    assert_eq!(app.current_ui, UIMode::PlayBar);
    assert_eq!(press(&mut app, &[Key::Enter]), Command::Nothing);
    assert_eq!(
        press(&mut app, &[Key::Down, Key::Enter]),
        Command::Play(Playback {
            path: "root/Alpha.mp3".to_string(),
            speed_tenths: 10,
            volume_tenths: 5
        })
    );
    assert_eq!(app.player.playing_index, 1);
    assert_eq!(press(&mut app, &[Key::Delete]), Command::StopSink);
    assert_eq!(app.player.current_songs.len(), 1);
    assert_eq!(app.player.hovered_index, 0);
    assert_eq!(press(&mut app, &[Key::Up, Key::Down, Key::Other]), Command::Nothing);
}

#[test]
fn queue_pane_keys_for_pause_and_volume() {
    let mut app = app_with(vec![list("mix", &["Alpha"])]);
    press(&mut app, &[Key::Tab, Key::Tab, Key::Enter, Key::Enter, Key::Tab]);
    assert_eq!(press(&mut app, &[Key::Char(' ')]), Command::TogglePause);
    assert_eq!(press(&mut app, &[Key::Char('+')]), Command::SetVolume(6));
    assert_eq!(press(&mut app, &[Key::Char('-'), Key::Char('-')]), Command::SetVolume(4));
    assert_eq!(app.player.volume, 4);
    assert_eq!(press(&mut app, &[Key::Char('x')]), Command::Nothing);
}

#[test]
fn creating_a_playlist_by_name() {
    let mut app = app_with(vec![]);
    press(&mut app, &[Key::Tab, Key::Tab]);
    assert_eq!(app.current_ui, UIMode::Playlist);
    press(&mut app, &[Key::Up, Key::Down, Key::Enter]);
    assert!(app.playlists.is_empty());
    assert_eq!(app.playlist_i, 0);
    press(&mut app, &[Key::Char('n')]);
    assert!(app.is_adding_list);
    press(&mut app, &[Key::Char('n'), Key::Char('q'), Key::Char('x'), Key::Backspace]);
    assert_eq!(app.new_playlist_name, "nq");
    press(&mut app, &[Key::Enter]);
    assert_eq!(app.playlists, vec![Playlist::new_empty("nq".to_string())]);
    assert_eq!(app.new_playlist_name, "");
    assert!(!app.is_adding_list);
    assert_eq!(app.player.current_playlist, None);
}

#[test]
fn opening_loading_and_closing_a_playlist() {
    let mut app = app_with(vec![list("one", &["Alpha"]), list("two", &["Beta", "Gamma"])]);
    press(&mut app, &[Key::Tab, Key::Tab, Key::Up]);
    assert_eq!(app.playlist_i, 1);
    press(&mut app, &[Key::Down, Key::Down]);
    assert_eq!(app.playlist_i, 1);
    press(&mut app, &[Key::Enter]);
    assert_eq!(app.player.current_playlist, Some(list("two", &["Beta", "Gamma"])));
    assert!(app.player.current_songs.is_empty());
    press(&mut app, &[Key::Char('w'), Key::Char('e')]);
    let open = app.player.current_playlist.as_ref().unwrap();
    assert!(open.repeat_on && open.shuffle_on);
    press(&mut app, &[Key::Char('e'), Key::Enter]);
    assert_eq!(app.player.playbar_source, PlaybarSource::Playlist);
    assert_eq!(app.player.current_songs, vec![tune("Beta"), tune("Gamma")]);
    assert_eq!(press(&mut app, &[Key::Esc]), Command::StopSink);
    assert!(app.player.current_songs.is_empty());
    assert!(app.player.current_playlist.is_some());
    press(&mut app, &[Key::Up, Key::Left]);
    assert_eq!(app.player.current_playlist, None);
    assert_eq!(app.playlists[0].name, "two");
    assert!(app.playlists[0].repeat_on);
    assert_eq!(app.playlists[1].name, "two");
    press(&mut app, &[Key::Left]);
    assert_eq!(app.playlists.len(), 2);
    press(&mut app, &[Key::Enter, Key::Esc]);
    assert_eq!(app.player.current_playlist, None);
    assert_eq!(app.current_ui, UIMode::Playlist);
    assert_eq!(press(&mut app, &[Key::Esc]), Command::Nothing);
    assert_eq!(app.current_ui, UIMode::PlayBar);
}

#[test]
fn saving_hands_out_the_records() {
    let mut app = app_with(vec![list("one", &["Alpha"]), list("two", &[])]);
    let command = press(&mut app, &[Key::Tab, Key::Tab, Key::Char('q')]);
    assert_eq!(
        command,
        Command::SavePlaylists(vec![
            SerializedPlaylist { name: "one".to_string(), songs: vec![tune("Alpha")] },
            SerializedPlaylist { name: "two".to_string(), songs: vec![] },
        ])
    );
}

#[test]
fn right_adds_the_selected_result_to_the_selected_playlist() {
    let mut app = app_with(vec![list("one", &[]), list("two", &["Beta"])]);
    press(&mut app, &[Key::Tab, Key::Tab, Key::Down, Key::Enter, Key::Tab, Key::Tab]);
    assert_eq!(app.current_ui, UIMode::Input);
    press(&mut app, &[Key::Down, Key::Down, Key::Right]);
    assert_eq!(app.playlists[1], list("two", &["Beta", "alphabet"]));
    assert_eq!(app.playlists[0], list("one", &[]));
    assert_eq!(app.player.current_playlist, Some(list("two", &["Beta", "alphabet"])));
}

#[test]
fn right_without_playlists_does_nothing() {
    let mut app = app_with(vec![]);
    press(&mut app, &[Key::Tab]);
    let before = format!("{:?}", app);
    press(&mut app, &[Key::Right]);
    assert_eq!(format!("{:?}", app), before);
}

#[test]
fn matching_is_by_lower_case_substring_of_the_name() {
    assert!(matches_query(&tune("Night of Knights"), "KNIGHT"));
    assert!(matches_query(&tune("Night of Knights"), ""));
    assert!(matches_query(&tune("Night of Knights"), "t of k"));
    assert!(!matches_query(&tune("Night of Knights"), "band"));
    assert!(!matches_query(&tune("abc"), "abcd"));
    assert_eq!(matching_songs(&catalog(), "ALPHA"), vec![tune("Alpha"), tune("alphabet")]);
    assert_eq!(matching_songs(&catalog(), ""), catalog());
    assert_eq!(matching_songs(&catalog(), "zz"), vec![]);
    assert_eq!(matching_songs(&vec![], "a"), vec![]);
}

#[test]
fn song_range_shows_a_window_round_the_selection() {
    assert_eq!(song_range(10, 3, 5), (0, 5));
    assert_eq!(song_range(10, 0, 0), (0, 0));
    assert_eq!(song_range(10, 4, 100), (0, 10));
    assert_eq!(song_range(10, 5, 100), (0, 10));
    assert_eq!(song_range(10, 6, 100), (1, 11));
    assert_eq!(song_range(10, 50, 100), (45, 55));
    assert_eq!(song_range(10, 97, 100), (92, 100));
    assert_eq!(song_range(10, 99, 100), (94, 100));
    assert_eq!(song_range(5, 2, 5), (0, 4));
    assert_eq!(song_range(5, 4, 5), (2, 5));
    assert_eq!(song_range(0, 3, 5), (3, 3));
    assert_eq!(song_range(4, usize::MAX, 10), (usize::MAX - 2, 10));
}

#[test]
fn load_songs_uses_the_cache_only_when_the_data_say_so() {
    let mut fresh = data();
    assert_eq!(load_songs(&mut fresh, Some(catalog())), None);
    assert!(fresh.serialized_songs);
    assert_eq!(fresh.song_path, "root");

    assert_eq!(load_songs(&mut fresh, Some(catalog())), Some(catalog()));
    assert!(fresh.serialized_songs);

    assert_eq!(load_songs(&mut fresh, None), None);
    assert!(fresh.serialized_songs);
}
