use osu_player::osu::{Mod, Song};
use osu_player::player::{Playback, PlaybarSource, Player};
use osu_player::playlist::Playlist;

fn track(name: &str, modifier: Mod) -> Song {
    Song {
        audio_path: format!("/{}/audio.mp3", name),
        song_name: name.to_string(),
        artist: "someone".to_string(),
        modifier,
        length: 200,
    }
}

fn plain(name: &str) -> Song {
    track(name, Mod::NoMod)
}

fn request(name: &str, speed_tenths: u8, volume_tenths: u8) -> Playback {
    Playback { path: format!("songs/{}/audio.mp3", name), speed_tenths, volume_tenths }
}

fn picked(names: &[&str]) -> Player {
    let mut player = Player::new("songs".to_string());
    for name in names {
        player.add_normal_song(plain(name));
    }
    player
}

fn with_playlist(names: &[&str], repeat_on: bool) -> Player {
    let mut playlist = Playlist::new_empty("mix".to_string());
    for name in names {
        playlist.add_song(plain(name));
    }
    if repeat_on {
        playlist.toggle_repeat();
    }
    let mut player = Player::new("songs".to_string());
    player.load_playlist(playlist);
    player.load_playbar_playlist();
    player
}

fn names(player: &Player) -> Vec<String> {
    player.current_songs.iter().map(|s| s.song_name.clone()).collect()
}

#[test]
fn new_player_is_idle_at_half_volume() {
    let player = Player::new("songs".to_string());
    assert_eq!(player.playbar_source, PlaybarSource::Unset);
    assert!(player.current_songs.is_empty());
    assert_eq!(player.current_playlist, None);
    assert_eq!(player.hovered_index, 0);
    assert_eq!(player.playing_index, 0);
    assert_eq!(player.volume, 5);
    assert!(!player.is_playing);
    assert_eq!(player.parent_path, "songs");
}

#[test]
fn end_to_end_playlist_of_two_songs() {
    let mut player = with_playlist(&["s1", "s2"], false);
    assert_eq!(player.playbar_source, PlaybarSource::Playlist);
    assert_eq!(names(&player), ["s1", "s2"]);
    assert!(!player.is_playing);

    assert_eq!(player.tick(true), Some(request("s1", 10, 5)));
    assert!(player.is_playing);
    assert_eq!(player.playing_index, 0);

    assert_eq!(player.tick(false), None);
    assert_eq!(player.playing_index, 0);

    assert_eq!(player.tick(true), Some(request("s2", 10, 5)));
    assert!(player.is_playing);
    assert_eq!(player.playing_index, 1);
    assert_eq!(player.current_songs[player.playing_index], plain("s2"));

    assert_eq!(player.tick(true), None);
    assert_eq!(player.playbar_source, PlaybarSource::Unset);
    assert!(!player.is_playing);
    assert!(player.current_songs.is_empty());
}

#[test]
fn playlist_with_repeat_keeps_playing() {
    let mut player = with_playlist(&["s1", "s2"], true);
    for turn in 0..7 {
        let name = if turn % 2 == 0 { "s1" } else { "s2" };
        assert_eq!(player.tick(true), Some(request(name, 10, 5)));
        assert_eq!(player.playing_index, turn % 2);
        assert_eq!(player.playbar_source, PlaybarSource::Playlist);
    }
}

#[test]
fn shuffling_playlist_plays_songs_of_the_queue() {
    let mut player = with_playlist(&["s1", "s2", "s3"], false);
    player.current_playlist.as_mut().unwrap().toggle_shuffle();
    for _ in 0..1000 {
        let action = player.tick(true).expect("a shuffling playlist never ends");
        assert!(player.playing_index < 3);
        let sounding = &player.current_songs[player.playing_index];
        assert_eq!(action.path, format!("songs{}", sounding.audio_path));
        assert!(player.is_playing);
    }
}

#[test]
fn try_new_song_with_takes_the_drawn_slot_when_shuffling() {
    let mut player = with_playlist(&["s1", "s2", "s3"], false);
    player.current_playlist.as_mut().unwrap().toggle_shuffle();
    assert_eq!(player.try_new_song_with(2), Some(request("s3", 10, 5)));
    assert_eq!(player.playing_index, 2);
    assert_eq!(player.try_new_song_with(0), Some(request("s1", 10, 5)));
    assert_eq!(player.playing_index, 0);
}

#[test]
fn tick_does_nothing_while_the_sink_holds_a_song() {
    let mut player = picked(&["a", "b"]);
    player.tick(true);
    let before = format!("{:?}", player);
    assert_eq!(player.tick(false), None);
    assert_eq!(format!("{:?}", player), before);
}

#[test]
fn tick_on_an_empty_queue_stays_idle() {
    let mut player = Player::new("songs".to_string());
    assert_eq!(player.tick(true), None);
    assert_eq!(player, Player::new("songs".to_string()));
    assert_eq!(player.try_new_song(), None);
    assert!(!player.is_playing);
}

#[test]
fn picked_songs_play_in_order_and_leave_the_queue() {
    let mut player = picked(&["a", "b", "c"]);
    assert_eq!(player.playbar_source, PlaybarSource::Normal);
    assert_eq!(player.tick(true), Some(request("a", 10, 5)));
    assert_eq!(names(&player), ["a", "b", "c"]);
    assert_eq!(player.tick(true), Some(request("b", 10, 5)));
    assert_eq!(names(&player), ["b", "c"]);
    assert_eq!(player.playing_index, 0);
    assert_eq!(player.tick(true), Some(request("c", 10, 5)));
    assert_eq!(names(&player), ["c"]);
    assert_eq!(player.tick(true), None);
    assert!(player.current_songs.is_empty());
    assert!(!player.is_playing);
    assert_eq!(player.playbar_source, PlaybarSource::Normal);
}

#[test]
fn playing_slot_is_clamped_when_the_last_picked_song_ends() {
    let mut player = picked(&["a", "b", "c"]);
    player.tick(true);
    player.hover_up();
    assert_eq!(player.hovered_index, 2);
    assert_eq!(player.force_new_song(), Some(request("c", 10, 5)));
    assert_eq!(player.playing_index, 2);
    assert_eq!(player.tick(true), Some(request("b", 10, 5)));
    assert_eq!(names(&player), ["a", "b"]);
    assert_eq!(player.playing_index, 1);
    assert_eq!(player.hovered_index, 1);
}

#[test]
fn speed_follows_the_modifier_and_volume_the_player() {
    let mut player = Player::new("/music".to_string());
    player.add_normal_song(track("fast", Mod::DoubleTime));
    player.add_normal_song(track("night", Mod::Nightcore));
    player.volume_up();
    player.volume_up();
    assert_eq!(
        player.tick(true),
        Some(Playback { path: "/music/fast/audio.mp3".to_string(), speed_tenths: 15, volume_tenths: 7 })
    );
    assert_eq!(
        player.tick(true),
        Some(Playback { path: "/music/night/audio.mp3".to_string(), speed_tenths: 15, volume_tenths: 7 })
    );
}

#[test]
fn remove_playing_song_from_picked_queue() {
    let mut player = picked(&["a", "b", "c"]);
    player.tick(true);
    player.hover_down();
    player.force_new_song();
    assert_eq!(player.playing_index, 1);
    assert_eq!(player.hovered_index, 1);
    assert!(player.remove_hovered_song());
    assert_eq!(names(&player), ["a", "c"]);
    assert!(!player.is_playing);
    assert_eq!(player.tick(true), Some(request("c", 10, 5)));
    assert_eq!(names(&player), ["a", "c"]);
    assert_eq!(player.playing_index, 1);
}

#[test]
fn remove_playing_song_from_playlist_queue() {
    let mut player = with_playlist(&["a", "b", "c"], false);
    player.tick(true);
    player.tick(true);
    assert_eq!(player.playing_index, 1);
    player.hover_down();
    assert_eq!(player.hovered_index, 1);
    assert!(player.remove_hovered_song());
    assert_eq!(names(&player), ["a", "c"]);
    let playlist = player.current_playlist.as_ref().unwrap();
    assert_eq!(playlist.songs, vec![plain("a"), plain("c")]);
    assert_eq!(player.tick(true), Some(request("c", 10, 5)));
    assert_eq!(player.playing_index, 1);
    assert_eq!(player.tick(true), None);
}

#[test]
fn remove_other_song_leaves_the_sink_alone() {
    let mut player = with_playlist(&["a", "b", "c"], false);
    player.tick(true);
    player.hover_down();
    assert!(!player.remove_hovered_song());
    assert_eq!(names(&player), ["a", "c"]);
    assert_eq!(player.current_playlist.as_ref().unwrap().songs, vec![plain("a"), plain("c")]);
    assert!(player.is_playing);
    assert_eq!(player.playing_index, 0);
    assert_eq!(player.tick(true), Some(request("c", 10, 5)));
}

#[test]
fn removing_before_the_playing_slot_moves_it_down() {
    let mut player = picked(&["a", "b", "c"]);
    player.tick(true);
    player.hover_up();
    player.force_new_song();
    assert_eq!(player.playing_index, 2);
    player.hover_down();
    assert_eq!(player.hovered_index, 0);
    assert!(!player.remove_hovered_song());
    assert_eq!(names(&player), ["b", "c"]);
    assert_eq!(player.playing_index, 1);
    assert!(player.is_playing);
    assert_eq!(player.tick(true), Some(request("b", 10, 5)));
    assert_eq!(names(&player), ["b"]);
}

#[test]
fn hover_clamps_on_trailing_removal() {
    let mut player = picked(&["a", "b", "c"]);
    player.hover_up();
    assert_eq!(player.hovered_index, 2);
    player.remove_hovered_song();
    assert_eq!(names(&player), ["a", "b"]);
    assert_eq!(player.hovered_index, 1);
    player.remove_hovered_song();
    assert_eq!(player.hovered_index, 0);
    player.remove_hovered_song();
    assert!(player.current_songs.is_empty());
    assert_eq!(player.hovered_index, 0);
}

#[test]
fn empty_queue_operations_change_nothing() {
    let mut player = Player::new("songs".to_string());
    player.volume_up();
    let before = format!("{:?}", player);
    assert!(!player.remove_hovered_song());
    assert_eq!(format!("{:?}", player), before);
    assert_eq!(player.force_new_song(), None);
    assert_eq!(format!("{:?}", player), before);
    player.hover_up();
    assert_eq!(format!("{:?}", player), before);
    player.hover_down();
    assert_eq!(format!("{:?}", player), before);
}

#[test]
fn hover_wraps_round_the_queue() {
    let mut player = picked(&["a", "b", "c"]);
    player.hover_down();
    assert_eq!(player.hovered_index, 1);
    player.hover_down();
    assert_eq!(player.hovered_index, 2);
    player.hover_down();
    assert_eq!(player.hovered_index, 0);
    player.hover_up();
    assert_eq!(player.hovered_index, 2);
    player.hover_up();
    assert_eq!(player.hovered_index, 1);
}

#[test]
fn force_new_song_is_a_no_op_on_the_playing_slot() {
    let mut player = picked(&["a", "b"]);
    player.tick(true);
    let before = format!("{:?}", player);
    assert_eq!(player.force_new_song(), None);
    assert_eq!(format!("{:?}", player), before);
    player.hover_down();
    assert_eq!(player.force_new_song(), Some(request("b", 10, 5)));
    assert_eq!(player.playing_index, 1);
    assert!(player.is_playing);
    assert_eq!(names(&player), ["a", "b"]);
}

#[test]
fn volume_stays_between_zero_and_two() {
    let mut player = Player::new("songs".to_string());
    assert_eq!(player.volume_up(), 6);
    for _ in 0..40 {
        player.volume_up();
    }
    assert_eq!(player.volume, 20);
    assert_eq!(player.volume_up(), 20);
    assert_eq!(player.volume_down(), 19);
    for _ in 0..40 {
        player.volume_down();
    }
    assert_eq!(player.volume, 0);
    assert_eq!(player.volume_down(), 0);
    assert_eq!(player.volume_up(), 1);
}

#[test]
fn loading_an_empty_playlist_does_nothing() {
    let mut player = picked(&["a"]);
    player.load_playlist(Playlist::new_empty("mix".to_string()));
    let before = format!("{:?}", player);
    player.load_playbar_playlist();
    assert_eq!(format!("{:?}", player), before);

    let mut bare = Player::new("songs".to_string());
    bare.load_playbar_playlist();
    assert_eq!(bare, Player::new("songs".to_string()));
}

#[test]
fn loading_a_playlist_replaces_the_queue_without_starting() {
    let mut player = picked(&["x", "y", "z", "w"]);
    player.tick(true);
    player.hover_up();
    assert_eq!(player.hovered_index, 3);
    let mut playlist = Playlist::new_empty("mix".to_string());
    playlist.add_song(plain("a"));
    playlist.add_song(plain("b"));
    playlist.get_next_song();
    playlist.get_next_song();
    player.load_playlist(playlist);
    assert_eq!(player.playbar_source, PlaybarSource::Normal);
    player.load_playbar_playlist();
    assert_eq!(player.playbar_source, PlaybarSource::Playlist);
    assert_eq!(names(&player), ["a", "b"]);
    assert_eq!(player.playing_index, 0);
    assert_eq!(player.hovered_index, 1);
    assert!(player.is_playing);
    assert_eq!(player.current_playlist.as_ref().unwrap().cursor, 0);
    assert_eq!(player.tick(true), Some(request("a", 10, 5)));
}

#[test]
fn unloading_clears_the_queue() {
    let mut player = with_playlist(&["a", "b"], false);
    player.tick(true);
    player.hover_down();
    assert!(player.unload_playbar_playlist());
    assert!(player.current_songs.is_empty());
    assert_eq!(player.playbar_source, PlaybarSource::Unset);
    assert!(!player.is_playing);
    assert_eq!(player.hovered_index, 0);
    assert!(player.current_playlist.is_some());
    assert_eq!(player.tick(true), None);
}

#[test]
fn popping_the_playlist_hands_it_back() {
    let mut player = with_playlist(&["a", "b"], false);
    let playlist = player.pop_current_playlist().expect("a playlist was open");
    assert_eq!(playlist.name, "mix");
    assert_eq!(playlist.songs, vec![plain("a"), plain("b")]);
    assert_eq!(player.current_playlist, None);
    assert_eq!(player.playbar_source, PlaybarSource::Unset);
    assert_eq!(player.pop_current_playlist(), None);
}

#[test]
fn adding_a_picked_song_detaches_the_playlist() {
    let mut player = with_playlist(&["a"], false);
    player.add_normal_song(plain("x"));
    assert_eq!(player.playbar_source, PlaybarSource::Normal);
    assert_eq!(names(&player), ["a", "x"]);
    assert!(player.current_playlist.is_some());
}

#[test]
fn failed_playback_leaves_the_player_idle() {
    let mut player = picked(&["a", "b"]);
    assert!(player.tick(true).is_some());
    player.playback_failed();
    assert!(!player.is_playing);
    assert_eq!(player.playbar_source, PlaybarSource::Unset);
    assert_eq!(names(&player), ["a", "b"]);
    assert_eq!(player.tick(true), None);
}

#[test]
fn unloading_an_empty_queue_still_stops_the_sink() {
    let mut player = Player::new("songs".to_string());
    assert!(player.unload_playbar_playlist());
    assert_eq!(player, Player::new("songs".to_string()));
}

#[test]
fn toggles_reach_the_open_playlist() {
    let mut player = with_playlist(&["a", "b"], false);
    player.toggle_repeat();
    assert!(player.current_playlist.as_ref().unwrap().repeat_on);
    player.toggle_shuffle();
    assert!(player.current_playlist.as_ref().unwrap().shuffle_on);
    player.toggle_shuffle();
    player.toggle_repeat();
    assert_eq!(player, with_playlist(&["a", "b"], false));
    let mut bare = Player::new("songs".to_string());
    bare.toggle_repeat();
    bare.toggle_shuffle();
    assert_eq!(bare, Player::new("songs".to_string()));
}

#[test]
fn opening_another_playlist_detaches_the_queue() {
    let mut player = with_playlist(&["a", "b"], false);
    player.tick(true);
    player.load_playlist(Playlist::new_empty("other".to_string()));
    assert_eq!(player.playbar_source, PlaybarSource::Unset);
    assert_eq!(names(&player), ["a", "b"]);
    assert!(player.is_playing);
    assert_eq!(player.tick(true), None);
    assert!(!player.is_playing);
}
