use mpv_presence::presence::{render, Button, Icon, PresencePayload};
use mpv_presence::track::TrackState;
use mpv_presence::MpvStr;

fn text(s: &str) -> Option<MpvStr> {
    Some(MpvStr::new(s.to_string()))
}

#[test]
fn fresh_record_has_the_defaults() {
    let track = TrackState::default();
    assert_eq!(track.title, "Unknown Title");
    assert_eq!(track.artist, None);
    assert_eq!(track.album, None);
    assert_eq!(track.source_path, None);
    assert_eq!(track.end_timestamp, 0);
    assert!(!track.paused);
    assert!(!track.looping_file);
    assert!(!track.looping_playlist);
}

#[test]
fn fresh_record_renders_with_fixed_texts() {
    let payload = render(&TrackState::default());
    assert_eq!(
        payload,
        PresencePayload {
            title: "Unknown Title".to_string(),
            subtitle: "Unknown Artist".to_string(),
            large_image: "mpv".to_string(),
            large_text: "Unknown Album".to_string(),
            small_image: "play".to_string(),
            small_text: "Playing".to_string(),
            end_timestamp: 0,
            button: None,
        }
    );
}

#[test]
fn full_record_renders_every_field() {
    let track = TrackState {
        title: "Song".to_string(),
        artist: text("Band"),
        album: text("Record"),
        source_path: text("https://example.com/watch?v=1"),
        end_timestamp: 1125,
        paused: false,
        looping_file: false,
        looping_playlist: true,
    };
    let payload = render(&track);
    assert_eq!(
        payload,
        PresencePayload {
            title: "Song".to_string(),
            subtitle: "Band".to_string(),
            large_image: "mpv".to_string(),
            large_text: "Record".to_string(),
            small_image: "loop-playlist".to_string(),
            small_text: "Repeat".to_string(),
            end_timestamp: 1125,
            button: Some(Button {
                label: "Watch Together".to_string(),
                url: "https://example.com/watch?v=1".to_string(),
            }),
        }
    );
}

#[test]
fn render_leaves_the_record_alone() {
    let track = TrackState {
        title: "Song".to_string(),
        artist: text("Band"),
        album: None,
        source_path: text("/local/file.mkv"),
        end_timestamp: -7,
        paused: true,
        looping_file: true,
        looping_playlist: false,
    };
    let before = track.clone();
    let first = render(&track);
    let second = render(&track);
    assert_eq!(track, before);
    assert_eq!(first, second);
    assert_eq!(first.end_timestamp, -7);
}

#[test]
fn pause_hides_both_repeat_modes() {
    for looping_file in [false, true] {
        for looping_playlist in [false, true] {
            let track = TrackState {
                paused: true,
                looping_file,
                looping_playlist,
                ..TrackState::default()
            };
            let payload = render(&track);
            assert_eq!(payload.small_image, "pause");
            assert_eq!(payload.small_text, "Paused");
            assert_eq!(Icon::select(true, looping_file, looping_playlist), Icon::Pause);
        }
    }
}

#[test]
fn file_repeat_hides_playlist_repeat() {
    for looping_playlist in [false, true] {
        let track = TrackState {
            paused: false,
            looping_file: true,
            looping_playlist,
            ..TrackState::default()
        };
        let payload = render(&track);
        assert_eq!(payload.small_image, "loop");
        assert_eq!(payload.small_text, "Repeat Song");
    }
}

#[test]
fn playlist_repeat_shows_when_nothing_hides_it() {
    let track = TrackState { looping_playlist: true, ..TrackState::default() };
    let payload = render(&track);
    assert_eq!(payload.small_image, "loop-playlist");
    assert_eq!(payload.small_text, "Repeat");
}

#[test]
fn plain_playback_shows_the_play_icon() {
    let payload = render(&TrackState::default());
    assert_eq!(payload.small_image, "play");
    assert_eq!(payload.small_text, "Playing");
    assert_eq!(Icon::select(false, false, false), Icon::Play);
}

#[test]
fn icons_have_their_keys_and_labels() {
    assert_eq!(Icon::Pause.key(), "pause");
    assert_eq!(Icon::Pause.label(), "Paused");
    assert_eq!(Icon::Loop.key(), "loop");
    assert_eq!(Icon::Loop.label(), "Repeat Song");
    assert_eq!(Icon::LoopPlaylist.key(), "loop-playlist");
    assert_eq!(Icon::LoopPlaylist.label(), "Repeat");
    assert_eq!(Icon::Play.key(), "play");
    assert_eq!(Icon::Play.label(), "Playing");
}

#[test]
fn icon_selection_covers_every_state() {
    assert_eq!(Icon::select(false, false, false), Icon::Play);
    assert_eq!(Icon::select(false, false, true), Icon::LoopPlaylist);
    assert_eq!(Icon::select(false, true, false), Icon::Loop);
    assert_eq!(Icon::select(false, true, true), Icon::Loop);
    assert_eq!(Icon::select(true, false, false), Icon::Pause);
    assert_eq!(Icon::select(true, false, true), Icon::Pause);
    assert_eq!(Icon::select(true, true, false), Icon::Pause);
    assert_eq!(Icon::select(true, true, true), Icon::Pause);
}

#[test]
fn link_gets_a_button_with_its_url() {
    let track = TrackState { source_path: text("http://example.com/x"), ..TrackState::default() };
    let payload = render(&track);
    assert_eq!(
        payload.button,
        Some(Button {
            label: "Watch Together".to_string(),
            url: "http://example.com/x".to_string(),
        })
    );
}

#[test]
fn local_file_gets_no_button() {
    let track = TrackState { source_path: text("/local/file.mkv"), ..TrackState::default() };
    assert_eq!(render(&track).button, None);
}

#[test]
fn absent_path_gets_no_button() {
    let track = TrackState { source_path: None, ..TrackState::default() };
    assert_eq!(render(&track).button, None);
}

#[test]
fn button_goes_by_the_first_four_characters() {
    let with = ["http", "https://a", "httpx", "http://"];
    for path in with {
        let track = TrackState { source_path: text(path), ..TrackState::default() };
        let button = render(&track).button.unwrap();
        assert_eq!(button.url, path);
        assert_eq!(button.label, "Watch Together");
    }
    let without = ["", "h", "htt", "HTTP://a", "ftp://http", " http://a", "file:///http"];
    for path in without {
        let track = TrackState { source_path: text(path), ..TrackState::default() };
        assert_eq!(render(&track).button, None);
    }
}

#[test]
fn unknown_artist_and_album_stand_in_one_by_one() {
    let track = TrackState { artist: text("Band"), ..TrackState::default() };
    let payload = render(&track);
    assert_eq!(payload.subtitle, "Band");
    assert_eq!(payload.large_text, "Unknown Album");
    let track = TrackState { album: text("Record"), ..TrackState::default() };
    let payload = render(&track);
    assert_eq!(payload.subtitle, "Unknown Artist");
    assert_eq!(payload.large_text, "Record");
}
