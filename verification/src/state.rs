//! The cursor of one session: the playlist it plays, the order of the
//! elements, and where in that order playback stands.

use crate::error::{PlayerError, TickError};
use crate::order::{generate_order, is_permutation};
use crate::playlist::{ElementView, Playlist, PlaylistElement, PlaylistView, Song, SongView};
use crate::provider::{
    calls_view, clone_device, optional_string_view, play_calls, play_element, ProviderCall,
    ProviderCallView, RemotePlayback, RemotePlaybackView,
};
use vstd::prelude::*;

verus! {

/// What observers are told of a session: the song that plays and the
/// element it belongs to.
#[derive(Debug, PartialEq, Eq)]
pub struct PlaybackInfo {
    pub image_url: String,
    pub song_name: String,
    pub album_name: String,
    pub artists: String,
}

/// The mathematical value of a [`PlaybackInfo`].
pub ghost struct PlaybackInfoView {
    pub image_url: Seq<char>,
    pub song_name: Seq<char>,
    pub album_name: Seq<char>,
    pub artists: Seq<char>,
}

impl View for PlaybackInfo {
    type V = PlaybackInfoView;

    open spec fn view(&self) -> PlaybackInfoView {
        PlaybackInfoView {
            image_url: self.image_url@,
            song_name: self.song_name@,
            album_name: self.album_name@,
            artists: self.artists@,
        }
    }
}

impl Clone for PlaybackInfo {
    fn clone(&self) -> (copy: Self)
        ensures
            copy@ == self@,
    {
        PlaybackInfo {
            image_url: self.image_url.clone(),
            song_name: self.song_name.clone(),
            album_name: self.album_name.clone(),
            artists: self.artists.clone(),
        }
    }
}

/// Whether a reconciliation tick changed the cursor.
#[derive(Debug, PartialEq, Eq, Clone, Copy)]
pub enum TickResult {
    Changed,
    Unchanged,
}

/// The mathematical value of a [`PlaybackState`].
pub ghost struct PlaybackStateView {
    pub device_id: Option<Seq<char>>,
    pub playlist: PlaylistView,
    /// Indices into the playlist's elements, in playing order.
    pub order: Seq<usize>,
    /// An index into `order`.
    pub current_element: nat,
    /// An index into the songs of the current element.
    pub current_song: nat,
}

/// What a reconciliation tick comes to: its result, the cursor after it,
/// and the calls that the provider is to get.
pub ghost struct TickOutcome {
    pub result: Result<TickResult, TickError>,
    pub state: PlaybackStateView,
    pub calls: Seq<ProviderCallView>,
}

impl PlaybackStateView {
    /// The index, in the playlist, of the element that is playing.
    pub open spec fn element_index(self) -> int {
        self.order[self.current_element as int] as int
    }

    /// The element that is playing.
    pub open spec fn element(self) -> ElementView {
        self.playlist.elements[self.element_index()]
    }

    /// The song that is playing.
    pub open spec fn song(self) -> SongView {
        self.element().songs[self.current_song as int]
    }

    /// Whether the cursor is in order: the playlist can be played, the
    /// order is a permutation of its element indices, and the cursor points
    /// at a song of an element.
    pub open spec fn valid(self) -> bool {
        &&& self.playlist.playable()
        &&& self.playlist.elements.len() <= usize::MAX
        &&& is_permutation(self.order, self.playlist.elements.len())
        &&& self.current_element < self.order.len()
        &&& self.current_song < self.element().songs.len()
    }

    /// The cursor at the start of the next element of the order; after the
    /// last element comes the first.
    pub open spec fn incremented(self) -> PlaybackStateView {
        PlaybackStateView {
            current_element: (self.current_element + 1) % self.order.len(),
            current_song: 0,
            ..self
        }
    }

    /// The cursor at the start of the element before; before the first
    /// element comes the last.
    pub open spec fn decremented(self) -> PlaybackStateView {
        PlaybackStateView {
            current_element: if self.current_element == 0 {
                (self.order.len() - 1) as nat
            } else {
                (self.current_element - 1) as nat
            },
            current_song: 0,
            ..self
        }
    }

    /// The cursor at another song of the same element.
    pub open spec fn at_song(self, song: nat) -> PlaybackStateView {
        PlaybackStateView { current_song: song, ..self }
    }

    /// What observers are told of the cursor.
    pub open spec fn info(self) -> PlaybackInfoView {
        PlaybackInfoView {
            image_url: self.song().image_url,
            song_name: self.song().name,
            album_name: self.element().name,
            artists: self.song().artists,
        }
    }

    /// Whether the report shows that the provider has played the current
    /// element to its end: it has stopped, at no progress, on the
    /// element's first song.
    pub open spec fn element_finished(self, playback: RemotePlaybackView) -> bool {
        &&& !playback.is_playing
        &&& playback.progress_ms == Some(0int)
        &&& playback.track_id == Some(self.element().songs[0].spotify_id)
    }

    /// What a reconciliation tick comes to when the provider reports
    /// `playback`.
    pub open spec fn tick(self, playback: Option<RemotePlaybackView>) -> TickOutcome {
        match playback {
            None => TickOutcome { result: Ok(TickResult::Unchanged), state: self, calls: seq![] },
            Some(playback) => {
                if self.element_finished(playback) {
                    let next = self.incremented();
                    TickOutcome {
                        result: Ok(TickResult::Changed),
                        state: next,
                        calls: play_calls(next.element(), next.device_id),
                    }
                } else {
                    match playback.track_id {
                        None => TickOutcome {
                            result: Err(TickError::NoTrack),
                            state: self,
                            calls: seq![],
                        },
                        Some(track_id) => match self.element().position_of(track_id) {
                            None => TickOutcome {
                                result: Err(TickError::UnexpectedItem),
                                state: self,
                                calls: seq![],
                            },
                            Some(index) => if index != self.current_song {
                                TickOutcome {
                                    result: Ok(TickResult::Changed),
                                    state: self.at_song(index as nat),
                                    calls: seq![],
                                }
                            } else {
                                TickOutcome {
                                    result: Ok(TickResult::Unchanged),
                                    state: self,
                                    calls: seq![],
                                }
                            },
                        },
                    }
                }
            },
        }
    }
}

/// Whether a playlist can be started at the given element: it can be
/// played, and it has the element.
pub open spec fn can_start(playlist: PlaylistView, element_index: Option<usize>) -> bool {
    &&& playlist.playable()
    &&& element_index matches Some(start) ==> start < playlist.elements.len()
}

/// Whether `next` is a cursor that playback of `playlist` may start with:
/// in order, on the given playlist, at the first song of the order's first
/// element, which is the chosen element where one was chosen.
pub open spec fn starts(
    next: PlaybackStateView,
    playlist: PlaylistView,
    element_index: Option<usize>,
) -> bool {
    &&& next.valid()
    &&& next.playlist == playlist
    &&& next.device_id is None
    &&& next.current_element == 0
    &&& next.current_song == 0
    &&& element_index matches Some(start) ==> next.order[0] == start
}

/// The mathematical value of a report that may be missing.
pub open spec fn playback_view(playback: Option<RemotePlayback>) -> Option<RemotePlaybackView> {
    match playback {
        Some(playback) => Some(playback@),
        None => None,
    }
}

/// Going on to the next element and then back, or back and then on,
/// returns to the element that playback stood at.
pub proof fn lemma_increment_decrement_round_trip(state: PlaybackStateView)
    requires
        state.order.len() >= 1,
        state.current_element < state.order.len(),
    ensures
        state.incremented().decremented().current_element == state.current_element,
        state.decremented().incremented().current_element == state.current_element,
        state.incremented().current_element < state.order.len(),
        state.decremented().current_element < state.order.len(),
{
    let len = state.order.len() as int;
    if state.current_element + 1 == len {
        vstd::arithmetic::div_mod::lemma_mod_self_0(len);
    } else {
        vstd::arithmetic::div_mod::lemma_small_mod((state.current_element + 1) as nat, len as nat);
    }
    let back = state.decremented();
    if back.current_element + 1 == len {
        vstd::arithmetic::div_mod::lemma_mod_self_0(len);
    } else {
        vstd::arithmetic::div_mod::lemma_small_mod((back.current_element + 1) as nat, len as nat);
    }
}

/// Whenever a move or a reconciliation tick leaves the cursor at another
/// place in the order, it leaves it at the first song there.
pub proof fn lemma_element_change_resets_song(
    state: PlaybackStateView,
    playback: Option<RemotePlaybackView>,
)
    ensures
        state.incremented().current_song == 0,
        state.decremented().current_song == 0,
        state.tick(playback).state.current_element != state.current_element ==> state.tick(
            playback,
        ).state.current_song == 0,
{
}

/// A move and a reconciliation tick keep a cursor in order, and neither
/// touches the playlist or the order.
pub proof fn lemma_moves_keep_valid(state: PlaybackStateView, playback: Option<RemotePlaybackView>)
    requires
        state.valid(),
    ensures
        state.incremented().valid(),
        state.decremented().valid(),
        state.tick(playback).state.valid(),
        state.tick(playback).state.playlist == state.playlist,
        state.tick(playback).state.order == state.order,
{
    lemma_increment_decrement_round_trip(state);
    let next = state.incremented();
    assert(next.valid()) by {
        assert(next.order[next.current_element as int] < next.playlist.elements.len());
    }
    let previous = state.decremented();
    assert(previous.valid()) by {
        assert(previous.order[previous.current_element as int] < previous.playlist.elements.len());
    }
    match playback {
        Some(playback) => {
            if !state.element_finished(playback) {
                if let Some(track_id) = playback.track_id {
                    state.element().track_ids().index_of_first_ensures(track_id);
                }
            }
        },
        None => {},
    }
}

/// The playback cursor of one session.
pub struct PlaybackState {
    device_id: Option<String>,
    playlist: Playlist,
    order: Vec<usize>,
    current_element: usize,
    current_song: usize,
}

impl View for PlaybackState {
    type V = PlaybackStateView;

    closed spec fn view(&self) -> PlaybackStateView {
        PlaybackStateView {
            device_id: optional_string_view(self.device_id),
            playlist: self.playlist@,
            order: self.order@,
            current_element: self.current_element as nat,
            current_song: self.current_song as nat,
        }
    }
}

impl PlaybackState {
    #[verifier::type_invariant]
    closed spec fn well_formed(&self) -> bool {
        self@.valid()
    }

    /// Starts on a playlist: a fresh random order, with the chosen element
    /// in front if one is given, and the cursor on the first song of the
    /// order's first element. A playlist without elements, an element
    /// without songs and a start that the playlist does not have are
    /// refused.
    pub fn begin(playlist: Playlist, element_index: Option<usize>) -> (started: Result<
        PlaybackState,
        PlayerError,
    >)
        ensures
            started is Ok <==> can_start(playlist@, element_index),
            started matches Ok(state) ==> starts(state@, playlist@, element_index),
            started matches Err(error) ==> error == PlayerError::CommandError,
    {
        if !playlist.is_playable() {
            return Err(PlayerError::CommandError);
        }
        let len = playlist.elements.len();
        if let Some(start) = element_index {
            if start >= len {
                return Err(PlayerError::CommandError);
            }
        }
        let order = generate_order(len, element_index);
        assert(order@.contains(order@[0]));
        Ok(PlaybackState { device_id: None, playlist, order, current_element: 0, current_song: 0 })
    }

    /// Copies the cursor.
    pub fn clone_state(&self) -> (copy: PlaybackState)
        ensures
            copy@ == self@,
    {
        proof {
            use_type_invariant(self);
        }
        let order = self.order.clone();
        assert(order@ =~= self.order@);
        PlaybackState {
            device_id: clone_device(&self.device_id),
            playlist: self.playlist.clone(),
            order,
            current_element: self.current_element,
            current_song: self.current_song,
        }
    }

    /// The playlist that is played.
    pub fn playlist(&self) -> (playlist: &Playlist)
        ensures
            playlist@ == self@.playlist,
    {
        &self.playlist
    }

    /// The order in which the elements are played.
    pub fn order(&self) -> (order: &Vec<usize>)
        ensures
            order@ == self@.order,
    {
        &self.order
    }

    /// The place in the order at which playback stands.
    pub fn current_element(&self) -> (index: usize)
        ensures
            index == self@.current_element,
    {
        self.current_element
    }

    /// The place in the current element at which playback stands.
    pub fn current_song(&self) -> (index: usize)
        ensures
            index == self@.current_song,
    {
        self.current_song
    }

    /// The device that plays; without one, the provider's default.
    pub fn device_id(&self) -> (device_id: &Option<String>)
        ensures
            optional_string_view(*device_id) == self@.device_id,
    {
        &self.device_id
    }

    /// The element that is playing.
    pub fn get_current_element(&self) -> (element: &PlaylistElement)
        ensures
            self@.valid(),
            element@ == self@.element(),
    {
        proof {
            use_type_invariant(self);
        }
        let index = self.order[self.current_element];
        &self.playlist.elements[index]
    }

    /// The song that is playing.
    pub fn get_current_song(&self) -> (song: &Song)
        ensures
            self@.valid(),
            song@ == self@.song(),
    {
        let element = self.get_current_element();
        proof {
            use_type_invariant(self);
        }
        &element.songs[self.current_song]
    }

    /// Moves to the start of the next element of the order; after the last
    /// element comes the first.
    pub fn increment_current(&mut self)
        ensures
            final(self)@ == old(self)@.incremented(),
            final(self)@.valid(),
    {
        proof {
            use_type_invariant(&*self);
        }
        let next = if self.current_element + 1 == self.order.len() {
            0
        } else {
            self.current_element + 1
        };
        proof {
            let len = self.order.len() as int;
            if self.current_element + 1 == len {
                vstd::arithmetic::div_mod::lemma_mod_self_0(len);
            } else {
                vstd::arithmetic::div_mod::lemma_small_mod((self.current_element + 1) as nat, len as nat);
            }
        }
        self.current_song = 0;
        self.current_element = next;
    }

    /// Moves to the start of the element before; before the first element
    /// comes the last.
    pub fn decrement_current(&mut self)
        ensures
            final(self)@ == old(self)@.decremented(),
            final(self)@.valid(),
    {
        proof {
            use_type_invariant(&*self);
        }
        let previous = if self.current_element == 0 {
            self.order.len() - 1
        } else {
            self.current_element - 1
        };
        self.current_song = 0;
        self.current_element = previous;
    }

    /// One reconciliation tick: holds the cursor against what the provider
    /// reports.
    ///
    /// Without a report nothing changes. Where the provider has stopped,
    /// at no progress, on the first song of the current element, it has
    /// played the element to its end: the cursor moves to the next element,
    /// and the calls that start it are returned. Otherwise the reported
    /// track is looked up in the current element, and the cursor follows
    /// it there. A report without a track id, or with a track that the
    /// current element does not hold, is an error that leaves the cursor
    /// as it is.
    pub fn tick(&mut self, playback: &Option<RemotePlayback>) -> (ticked: Result<
        (TickResult, Vec<ProviderCall>),
        TickError,
    >)
        ensures
            final(self)@ == old(self)@.tick(playback_view(*playback)).state,
            final(self)@.valid(),
            match ticked {
                Ok((result, calls)) => {
                    &&& old(self)@.tick(playback_view(*playback)).result == Ok::<
                        TickResult,
                        TickError,
                    >(result)
                    &&& calls_view(calls@) == old(self)@.tick(playback_view(*playback)).calls
                },
                Err(error) => {
                    &&& old(self)@.tick(playback_view(*playback)).result == Err::<
                        TickResult,
                        TickError,
                    >(error)
                    &&& old(self)@.tick(playback_view(*playback)).calls == Seq::<
                        ProviderCallView,
                    >::empty()
                },
            },
            final(self)@.current_element != old(self)@.current_element ==> final(self)@.current_song
                == 0,
    {
        proof {
            use_type_invariant(&*self);
            lemma_moves_keep_valid(self@, playback_view(*playback));
        }
        let playback = match playback {
            Some(playback) => playback,
            None => {
                let calls: Vec<ProviderCall> = Vec::new();
                assert(calls_view(calls@) =~= Seq::<ProviderCallView>::empty());
                return Ok((TickResult::Unchanged, calls));
            },
        };
        let track_id = playback.track_id();
        if self.finished_element(playback) {
            self.increment_current();
            let calls = play_element(self.get_current_element(), &self.device_id);
            return Ok((TickResult::Changed, calls));
        }
        let track_id = match track_id {
            Some(track_id) => track_id,
            None => {
                return Err(TickError::NoTrack);
            },
        };
        match self.get_current_element().position_of(track_id) {
            None => Err(TickError::UnexpectedItem),
            Some(index) => {
                let calls: Vec<ProviderCall> = Vec::new();
                assert(calls_view(calls@) =~= Seq::<ProviderCallView>::empty());
                if index != self.current_song {
                    proof {
                        self@.element().track_ids().index_of_first_ensures(track_id@);
                    }
                    self.current_song = index;
                    Ok((TickResult::Changed, calls))
                } else {
                    Ok((TickResult::Unchanged, calls))
                }
            },
        }
    }

    /// Tells whether the report shows that the provider has played the
    /// current element to its end.
    pub fn finished_element(&self, playback: &RemotePlayback) -> (finished: bool)
        ensures
            finished == self@.element_finished(playback@),
    {
        if playback.is_playing {
            return false;
        }
        let at_start = match playback.progress_ms {
            Some(progress) => progress == 0,
            None => false,
        };
        if !at_start {
            return false;
        }
        match playback.track_id() {
            Some(track_id) => {
                let element = self.get_current_element();
                proof {
                    use_type_invariant(self);
                }
                element.songs[0].spotify_id == *track_id
            },
            None => false,
        }
    }

    /// What observers are told: the current song's artwork, name and
    /// artists, and the name of the element it belongs to.
    pub fn get_playback_info(&self) -> (info: PlaybackInfo)
        ensures
            info@ == self@.info(),
    {
        let element = self.get_current_element();
        let song = self.get_current_song();
        PlaybackInfo {
            image_url: song.image_url.clone(),
            song_name: song.name.clone(),
            album_name: element.name.clone(),
            artists: song.artists.clone(),
        }
    }
}

} // verus!
