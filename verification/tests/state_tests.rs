use grooves_player::error::{PlayerError, TickError};
use grooves_player::playlist::{Playlist, PlaylistElement, Song};
use grooves_player::provider::{play_element, PlayingItem, ProviderCall, RemotePlayback};
use grooves_player::state::{PlaybackState, TickResult};

fn song(element: usize, index: usize) -> Song {
    Song {
        name: format!("song {}-{}", element, index),
        image_url: format!("http://img/{}/{}", element, index),
        artists: format!("artist {}", element),
        spotify_id: format!("track{}x{}", element, index),
    }
}

fn element(index: usize, songs: usize) -> PlaylistElement {
    PlaylistElement {
        name: format!("album {}", index),
        image_url: format!("http://img/{}", index),
        artists: format!("artist {}", index),
        songs: (0..songs).map(|s| song(index, s)).collect(),
    }
}

fn playlist(sizes: &[usize]) -> Playlist {
    Playlist {
        id: 7,
        name: "mix".to_string(),
        owner_id: 1,
        elements: sizes.iter().enumerate().map(|(i, &n)| element(i, n)).collect(),
    }
}

fn playing(id: &str) -> Option<RemotePlayback> {
    Some(RemotePlayback {
        is_playing: true,
        progress_ms: Some(1500),
        item: Some(PlayingItem::Track { id: Some(id.to_string()) }),
    })
}

fn ids(element: usize, songs: usize) -> Vec<String> {
    (0..songs).map(|s| format!("track{}x{}", element, s)).collect()
}

#[test]
fn begin_puts_the_chosen_element_first() {
    let state = PlaybackState::begin(playlist(&[2, 3, 1]), Some(1)).unwrap();
    assert_eq!(state.order()[0], 1);
    assert_eq!(state.order().len(), 3);
    let mut sorted = state.order().clone();
    sorted.sort();
    assert_eq!(sorted, vec![0, 1, 2]);
    assert_eq!(state.current_element(), 0);
    assert_eq!(state.current_song(), 0);
    assert_eq!(*state.device_id(), None);
    assert_eq!(state.get_current_element().name, "album 1");
    assert_eq!(state.get_current_song().spotify_id, "track1x0");
    assert_eq!(state.playlist().name, "mix");
}

#[test]
fn begin_without_a_start_covers_every_element() {
    let state = PlaybackState::begin(playlist(&[1, 1, 1, 1, 1]), None).unwrap();
    let mut sorted = state.order().clone();
    sorted.sort();
    assert_eq!(sorted, vec![0, 1, 2, 3, 4]);
    assert_eq!(state.current_element(), 0);
    assert_eq!(state.current_song(), 0);
}

#[test]
fn begin_refuses_an_empty_playlist() {
    assert_eq!(PlaybackState::begin(playlist(&[]), None).err(), Some(PlayerError::CommandError));
    assert_eq!(
        PlaybackState::begin(playlist(&[]), Some(0)).err(),
        Some(PlayerError::CommandError)
    );
}

#[test]
fn begin_refuses_an_element_without_songs() {
    assert_eq!(
        PlaybackState::begin(playlist(&[2, 0, 1]), None).err(),
        Some(PlayerError::CommandError)
    );
    assert_eq!(
        PlaybackState::begin(playlist(&[0]), Some(0)).err(),
        Some(PlayerError::CommandError)
    );
}

#[test]
fn begin_refuses_a_start_beyond_the_playlist() {
    assert_eq!(
        PlaybackState::begin(playlist(&[2, 2]), Some(2)).err(),
        Some(PlayerError::CommandError)
    );
    assert!(PlaybackState::begin(playlist(&[2, 2]), Some(1)).is_ok());
}

#[test]
fn playable_needs_elements_with_songs() {
    assert!(playlist(&[1]).is_playable());
    assert!(playlist(&[3, 1, 2]).is_playable());
    assert!(!playlist(&[]).is_playable());
    assert!(!playlist(&[3, 0]).is_playable());
    assert!(!playlist(&[0, 3]).is_playable());
}

#[test]
fn increment_wraps_around_and_resets_the_song() {
    let mut state = PlaybackState::begin(playlist(&[3, 3, 3]), Some(0)).unwrap();
    state.tick(&playing("track0x2")).unwrap();
    assert_eq!(state.current_song(), 2);
    state.increment_current();
    assert_eq!((state.current_element(), state.current_song()), (1, 0));
    state.increment_current();
    assert_eq!((state.current_element(), state.current_song()), (2, 0));
    state.increment_current();
    assert_eq!((state.current_element(), state.current_song()), (0, 0));
}

#[test]
fn decrement_wraps_around_and_resets_the_song() {
    let mut state = PlaybackState::begin(playlist(&[3, 3, 3]), Some(0)).unwrap();
    state.tick(&playing("track0x1")).unwrap();
    assert_eq!(state.current_song(), 1);
    state.decrement_current();
    assert_eq!((state.current_element(), state.current_song()), (2, 0));
    state.decrement_current();
    assert_eq!((state.current_element(), state.current_song()), (1, 0));
    state.decrement_current();
    assert_eq!((state.current_element(), state.current_song()), (0, 0));
}

#[test]
fn increment_then_decrement_returns() {
    for len in 1..6usize {
        let sizes = vec![1; len];
        let mut state = PlaybackState::begin(playlist(&sizes), None).unwrap();
        for _ in 0..len + 1 {
            let at = state.current_element();
            state.increment_current();
            state.decrement_current();
            assert_eq!(state.current_element(), at);
            state.decrement_current();
            state.increment_current();
            assert_eq!(state.current_element(), at);
            state.increment_current();
        }
    }
}

#[test]
fn single_element_moves_stay_in_place() {
    let mut state = PlaybackState::begin(playlist(&[2]), None).unwrap();
    state.increment_current();
    assert_eq!((state.current_element(), state.current_song()), (0, 0));
    state.decrement_current();
    assert_eq!((state.current_element(), state.current_song()), (0, 0));
}

#[test]
fn playback_info_is_taken_from_the_current_song() {
    let mut state = PlaybackState::begin(playlist(&[2, 3]), Some(1)).unwrap();
    let info = state.get_playback_info();
    assert_eq!(info.image_url, "http://img/1/0");
    assert_eq!(info.song_name, "song 1-0");
    assert_eq!(info.album_name, "album 1");
    assert_eq!(info.artists, "artist 1");
    state.tick(&playing("track1x2")).unwrap();
    let info = state.get_playback_info();
    assert_eq!(info.image_url, "http://img/1/2");
    assert_eq!(info.song_name, "song 1-2");
    assert_eq!(info.album_name, "album 1");
}

#[test]
fn clone_state_copies_the_cursor() {
    let mut state = PlaybackState::begin(playlist(&[2, 3, 1]), Some(2)).unwrap();
    state.increment_current();
    let copy = state.clone_state();
    assert_eq!(copy.order(), state.order());
    assert_eq!(copy.current_element(), state.current_element());
    assert_eq!(copy.current_song(), state.current_song());
    assert_eq!(copy.playlist(), state.playlist());
    assert_eq!(copy.device_id(), state.device_id());
}

#[test]
fn tick_follows_the_remote_song() {
    let mut state = PlaybackState::begin(playlist(&[2, 4, 1]), Some(1)).unwrap();
    let (result, calls) = state.tick(&playing("track1x2")).unwrap();
    assert_eq!(result, TickResult::Changed);
    assert!(calls.is_empty());
    assert_eq!(state.current_song(), 2);
    assert_eq!(state.current_element(), 0);
    let info = state.get_playback_info();
    assert_eq!(info.song_name, "song 1-2");
    assert_eq!(info.artists, "artist 1");
    assert_eq!(info.image_url, "http://img/1/2");
}

#[test]
fn tick_on_the_same_song_changes_nothing() {
    let mut state = PlaybackState::begin(playlist(&[2, 4]), Some(1)).unwrap();
    let (result, calls) = state.tick(&playing("track1x0")).unwrap();
    assert_eq!(result, TickResult::Unchanged);
    assert!(calls.is_empty());
    assert_eq!(state.current_song(), 0);
    state.tick(&playing("track1x3")).unwrap();
    let (result, _) = state.tick(&playing("track1x3")).unwrap();
    assert_eq!(result, TickResult::Unchanged);
    assert_eq!(state.current_song(), 3);
}

#[test]
fn tick_without_a_report_changes_nothing() {
    let mut state = PlaybackState::begin(playlist(&[2, 4]), Some(1)).unwrap();
    let (result, calls) = state.tick(&None).unwrap();
    assert_eq!(result, TickResult::Unchanged);
    assert!(calls.is_empty());
    assert_eq!((state.current_element(), state.current_song()), (0, 0));
}

#[test]
fn tick_advances_when_the_element_has_ended() {
    let mut state = PlaybackState::begin(playlist(&[2, 3]), Some(1)).unwrap();
    state.tick(&playing("track1x2")).unwrap();
    let stopped = Some(RemotePlayback {
        is_playing: false,
        progress_ms: Some(0),
        item: Some(PlayingItem::Track { id: Some("track1x0".to_string()) }),
    });
    let (result, calls) = state.tick(&stopped).unwrap();
    assert_eq!(result, TickResult::Changed);
    assert_eq!((state.current_element(), state.current_song()), (1, 0));
    assert_eq!(state.order()[1], 0);
    assert_eq!(
        calls,
        vec![
            ProviderCall::RepeatOff,
            ProviderCall::ShuffleOff,
            ProviderCall::StartPlayback { track_ids: ids(0, 2), device_id: None },
        ]
    );
}

#[test]
fn tick_on_a_pause_in_the_first_song_does_not_advance() {
    let mut state = PlaybackState::begin(playlist(&[2, 3]), Some(1)).unwrap();
    let paused = Some(RemotePlayback {
        is_playing: false,
        progress_ms: Some(2000),
        item: Some(PlayingItem::Track { id: Some("track1x0".to_string()) }),
    });
    let (result, calls) = state.tick(&paused).unwrap();
    assert_eq!(result, TickResult::Unchanged);
    assert!(calls.is_empty());
    assert_eq!((state.current_element(), state.current_song()), (0, 0));
    let unknown_progress = Some(RemotePlayback {
        is_playing: false,
        progress_ms: None,
        item: Some(PlayingItem::Track { id: Some("track1x0".to_string()) }),
    });
    let (result, _) = state.tick(&unknown_progress).unwrap();
    assert_eq!(result, TickResult::Unchanged);
    let still_playing = Some(RemotePlayback {
        is_playing: true,
        progress_ms: Some(0),
        item: Some(PlayingItem::Track { id: Some("track1x0".to_string()) }),
    });
    let (result, _) = state.tick(&still_playing).unwrap();
    assert_eq!(result, TickResult::Unchanged);
    assert_eq!((state.current_element(), state.current_song()), (0, 0));
}

#[test]
fn tick_stopped_on_a_later_song_follows_it() {
    let mut state = PlaybackState::begin(playlist(&[2, 3]), Some(1)).unwrap();
    let stopped = Some(RemotePlayback {
        is_playing: false,
        progress_ms: Some(0),
        item: Some(PlayingItem::Track { id: Some("track1x1".to_string()) }),
    });
    let (result, calls) = state.tick(&stopped).unwrap();
    assert_eq!(result, TickResult::Changed);
    assert!(calls.is_empty());
    assert_eq!((state.current_element(), state.current_song()), (0, 1));
}

#[test]
fn tick_without_a_track_fails() {
    let mut state = PlaybackState::begin(playlist(&[2, 3]), Some(1)).unwrap();
    let nothing = Some(RemotePlayback { is_playing: true, progress_ms: Some(10), item: None });
    assert_eq!(state.tick(&nothing).err(), Some(TickError::NoTrack));
    let episode = Some(RemotePlayback {
        is_playing: true,
        progress_ms: Some(10),
        item: Some(PlayingItem::Episode),
    });
    assert_eq!(state.tick(&episode).err(), Some(TickError::NoTrack));
    let local_file = Some(RemotePlayback {
        is_playing: true,
        progress_ms: Some(10),
        item: Some(PlayingItem::Track { id: None }),
    });
    assert_eq!(state.tick(&local_file).err(), Some(TickError::NoTrack));
    assert_eq!((state.current_element(), state.current_song()), (0, 0));
}

#[test]
fn tick_on_a_foreign_track_fails() {
    let mut state = PlaybackState::begin(playlist(&[2, 3]), Some(1)).unwrap();
    assert_eq!(state.tick(&playing("track0x1")).err(), Some(TickError::UnexpectedItem));
    assert_eq!(state.tick(&playing("elsewhere")).err(), Some(TickError::UnexpectedItem));
    assert_eq!((state.current_element(), state.current_song()), (0, 0));
}

#[test]
fn tick_finds_the_first_of_equal_tracks() {
    let mut list = playlist(&[1, 3]);
    list.elements[1].songs[2].spotify_id = "track1x1".to_string();
    let mut state = PlaybackState::begin(list, Some(1)).unwrap();
    let (result, _) = state.tick(&playing("track1x1")).unwrap();
    assert_eq!(result, TickResult::Changed);
    assert_eq!(state.current_song(), 1);
}

#[test]
fn position_of_finds_tracks_by_id() {
    let element = element(4, 3);
    assert_eq!(element.position_of(&"track4x0".to_string()), Some(0));
    assert_eq!(element.position_of(&"track4x2".to_string()), Some(2));
    assert_eq!(element.position_of(&"track4x3".to_string()), None);
    assert_eq!(element.position_of(&"".to_string()), None);
}

#[test]
fn play_element_disables_repeat_and_shuffle_first() {
    let calls = play_element(&element(2, 3), &None);
    assert_eq!(
        calls,
        vec![
            ProviderCall::RepeatOff,
            ProviderCall::ShuffleOff,
            ProviderCall::StartPlayback { track_ids: ids(2, 3), device_id: None },
        ]
    );
    let calls = play_element(&element(0, 1), &Some("kitchen".to_string()));
    assert_eq!(
        calls[2],
        ProviderCall::StartPlayback {
            track_ids: vec!["track0x0".to_string()],
            device_id: Some("kitchen".to_string()),
        }
    );
}

#[test]
fn finished_element_needs_stop_start_and_first_song() {
    let state = PlaybackState::begin(playlist(&[2, 3]), Some(0)).unwrap();
    let report = |is_playing: bool, progress_ms: Option<i64>, id: &str| RemotePlayback {
        is_playing,
        progress_ms,
        item: Some(PlayingItem::Track { id: Some(id.to_string()) }),
    };
    assert!(state.finished_element(&report(false, Some(0), "track0x0")));
    assert!(!state.finished_element(&report(true, Some(0), "track0x0")));
    assert!(!state.finished_element(&report(false, Some(1), "track0x0")));
    assert!(!state.finished_element(&report(false, None, "track0x0")));
    assert!(!state.finished_element(&report(false, Some(0), "track0x1")));
    assert!(!state.finished_element(&RemotePlayback {
        is_playing: false,
        progress_ms: Some(0),
        item: Some(PlayingItem::Episode),
    }));
}

#[test]
fn clones_keep_their_values() {
    let list = playlist(&[2, 1]);
    assert_eq!(list.clone(), list);
    assert_eq!(list.elements[0].clone(), list.elements[0]);
    assert_eq!(list.elements[0].songs[1].clone(), list.elements[0].songs[1]);
}
