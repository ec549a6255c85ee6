//! The remote provider as a session sees it: the calls that a session asks
//! for, and what the provider reports of its playback. The session decides;
//! whoever runs it makes the calls.

use crate::playlist::{ElementView, PlaylistElement};
use vstd::prelude::*;

verus! {

/// The mathematical value of a list of strings.
pub open spec fn strings_view(strings: Seq<String>) -> Seq<Seq<char>> {
    strings.map_values(|s: String| s@)
}

/// The mathematical value of a string that may be missing.
pub open spec fn optional_string_view(string: Option<String>) -> Option<Seq<char>> {
    match string {
        Some(s) => Some(s@),
        None => None,
    }
}

/// One call that a session asks the provider for.
#[derive(Debug, PartialEq, Eq)]
pub enum ProviderCall {
    Pause,
    Resume,
    /// Skip to the next track.
    NextTrack,
    /// Skip to the previous track.
    PreviousTrack,
    /// Switch repeating off.
    RepeatOff,
    /// Switch the provider's own shuffling off.
    ShuffleOff,
    /// Start playing the given tracks, in the given order, on the given
    /// device; without a device, on the provider's default.
    StartPlayback { track_ids: Vec<String>, device_id: Option<String> },
}

/// The mathematical value of a [`ProviderCall`].
pub ghost enum ProviderCallView {
    Pause,
    Resume,
    NextTrack,
    PreviousTrack,
    RepeatOff,
    ShuffleOff,
    StartPlayback { track_ids: Seq<Seq<char>>, device_id: Option<Seq<char>> },
}

impl View for ProviderCall {
    type V = ProviderCallView;

    open spec fn view(&self) -> ProviderCallView {
        match *self {
            ProviderCall::Pause => ProviderCallView::Pause,
            ProviderCall::Resume => ProviderCallView::Resume,
            ProviderCall::NextTrack => ProviderCallView::NextTrack,
            ProviderCall::PreviousTrack => ProviderCallView::PreviousTrack,
            ProviderCall::RepeatOff => ProviderCallView::RepeatOff,
            ProviderCall::ShuffleOff => ProviderCallView::ShuffleOff,
            ProviderCall::StartPlayback { track_ids, device_id } => ProviderCallView::StartPlayback {
                track_ids: strings_view(track_ids@),
                device_id: optional_string_view(device_id),
            },
        }
    }
}

/// The mathematical value of a list of calls.
pub open spec fn calls_view(calls: Seq<ProviderCall>) -> Seq<ProviderCallView> {
    calls.map_values(|call: ProviderCall| call@)
}

/// The calls that start an element: repeating off, shuffling off, then the
/// element's tracks in their own order.
pub open spec fn play_calls(element: ElementView, device_id: Option<Seq<char>>) -> Seq<
    ProviderCallView,
> {
    seq![
        ProviderCallView::RepeatOff,
        ProviderCallView::ShuffleOff,
        ProviderCallView::StartPlayback { track_ids: element.track_ids(), device_id },
    ]
}

/// The item that the provider is playing.
#[derive(Debug, PartialEq, Eq)]
pub enum PlayingItem {
    /// A music track, with its id where the provider knows one (a local
    /// file has none).
    Track { id: Option<String> },
    /// Anything else, such as a podcast episode.
    Episode,
}

/// What the provider reports of its playback.
#[derive(Debug, PartialEq, Eq)]
pub struct RemotePlayback {
    pub is_playing: bool,
    /// How far into the item playback is, in milliseconds.
    pub progress_ms: Option<i64>,
    pub item: Option<PlayingItem>,
}

/// The mathematical value of a [`RemotePlayback`].
pub ghost struct RemotePlaybackView {
    pub is_playing: bool,
    pub progress_ms: Option<int>,
    /// Whether an item is reported at all.
    pub has_item: bool,
    /// The id of the reported item, where the item is a track that has one.
    pub track_id: Option<Seq<char>>,
}

impl View for RemotePlayback {
    type V = RemotePlaybackView;

    open spec fn view(&self) -> RemotePlaybackView {
        RemotePlaybackView {
            is_playing: self.is_playing,
            progress_ms: match self.progress_ms {
                Some(ms) => Some(ms as int),
                None => None,
            },
            has_item: self.item is Some,
            track_id: match self.item {
                Some(PlayingItem::Track { id: Some(id) }) => Some(id@),
                _ => None,
            },
        }
    }
}

impl RemotePlayback {
    /// The id of the track that is reported, if the item is a track that
    /// has one.
    pub fn track_id(&self) -> (id: Option<&String>)
        ensures
            match id {
                Some(id) => self@.track_id == Some(id@),
                None => self@.track_id is None,
            },
    {
        match &self.item {
            Some(PlayingItem::Track { id: Some(id) }) => Some(id),
            _ => None,
        }
    }
}

/// Copies a device id.
pub fn clone_device(device_id: &Option<String>) -> (copy: Option<String>)
    ensures
        optional_string_view(copy) == optional_string_view(*device_id),
{
    match device_id {
        Some(id) => Some(id.clone()),
        None => None,
    }
}

/// The calls that start `element` on the given device: repeating off,
/// shuffling off, then all of the element's tracks in their own order.
pub fn play_element(element: &PlaylistElement, device_id: &Option<String>) -> (calls: Vec<
    ProviderCall,
>)
    ensures
        calls_view(calls@) == play_calls(element@, optional_string_view(*device_id)),
{
    let mut track_ids: Vec<String> = Vec::new();
    let mut i: usize = 0;
    while i < element.songs.len()
        invariant
            i <= element.songs.len(),
            track_ids@.len() == i,
            element@.track_ids().len() == element.songs@.len(),
            strings_view(track_ids@) == element@.track_ids().take(i as int),
        decreases element.songs.len() - i,
    {
        let ghost before = track_ids@;
        let id = element.songs[i].spotify_id.clone();
        assert(id@ == element@.track_ids()[i as int]);
        track_ids.push(id);
        i += 1;
        assert forall|j: int| 0 <= j < i implies strings_view(track_ids@)[j]
            == element@.track_ids().take(i as int)[j] by {
            if j < i - 1 {
                assert(strings_view(before)[j] == element@.track_ids().take(i - 1)[j]);
            }
        }
        assert(strings_view(track_ids@) =~= element@.track_ids().take(i as int));
    }
    assert(element@.track_ids().take(i as int) =~= element@.track_ids());
    let mut calls: Vec<ProviderCall> = Vec::new();
    calls.push(ProviderCall::RepeatOff);
    calls.push(ProviderCall::ShuffleOff);
    calls.push(ProviderCall::StartPlayback { track_ids, device_id: clone_device(device_id) });
    assert(calls_view(calls@) =~= play_calls(element@, optional_string_view(*device_id)));
    calls
}

} // verus!
