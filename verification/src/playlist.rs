//! Playlists as a session sees them: named elements, each an ordered list
//! of songs that the provider knows by a track id.

use vstd::prelude::*;

verus! {

/// One playable track.
#[derive(Debug, PartialEq, Eq)]
pub struct Song {
    pub name: String,
    pub image_url: String,
    pub artists: String,
    /// The provider's id of the track; two songs are the same track when
    /// their ids are equal.
    pub spotify_id: String,
}

/// The mathematical value of a [`Song`].
pub ghost struct SongView {
    pub name: Seq<char>,
    pub image_url: Seq<char>,
    pub artists: Seq<char>,
    pub spotify_id: Seq<char>,
}

impl View for Song {
    type V = SongView;

    open spec fn view(&self) -> SongView {
        SongView {
            name: self.name@,
            image_url: self.image_url@,
            artists: self.artists@,
            spotify_id: self.spotify_id@,
        }
    }
}

impl Clone for Song {
    fn clone(&self) -> (copy: Self)
        ensures
            copy@ == self@,
    {
        Song {
            name: self.name.clone(),
            image_url: self.image_url.clone(),
            artists: self.artists.clone(),
            spotify_id: self.spotify_id.clone(),
        }
    }
}

/// A named group of songs that is played as a unit, such as an album.
#[derive(Debug, PartialEq, Eq)]
pub struct PlaylistElement {
    pub name: String,
    pub image_url: String,
    pub artists: String,
    pub songs: Vec<Song>,
}

/// The mathematical value of a [`PlaylistElement`].
pub ghost struct ElementView {
    pub name: Seq<char>,
    pub image_url: Seq<char>,
    pub artists: Seq<char>,
    pub songs: Seq<SongView>,
}

impl ElementView {
    /// The track ids of the element's songs, in playing order.
    pub open spec fn track_ids(self) -> Seq<Seq<char>> {
        self.songs.map_values(|song: SongView| song.spotify_id)
    }

    /// The position of the first song with the given track id, if the
    /// element holds one.
    pub open spec fn position_of(self, track_id: Seq<char>) -> Option<int> {
        self.track_ids().index_of_first(track_id)
    }
}

impl View for PlaylistElement {
    type V = ElementView;

    open spec fn view(&self) -> ElementView {
        ElementView {
            name: self.name@,
            image_url: self.image_url@,
            artists: self.artists@,
            songs: self.songs@.map_values(|song: Song| song@),
        }
    }
}

impl PlaylistElement {
    /// Finds the first song with the given track id.
    pub fn position_of(&self, track_id: &String) -> (position: Option<usize>)
        ensures
            match position {
                Some(index) => self@.position_of(track_id@) == Some(index as int),
                None => self@.position_of(track_id@) is None,
            },
    {
        let ghost ids = self@.track_ids();
        let mut i: usize = 0;
        while i < self.songs.len()
            invariant
                i <= self.songs.len(),
                ids == self@.track_ids(),
                ids.len() == self.songs.len(),
                forall|j: int| 0 <= j < i ==> ids[j] != track_id@,
            decreases self.songs.len() - i,
        {
            assert(ids[i as int] == self.songs[i as int].spotify_id@);
            if self.songs[i].spotify_id == *track_id {
                proof {
                    ids.index_of_first_ensures(track_id@);
                    assert(ids.contains(track_id@));
                }
                return Some(i);
            }
            i += 1;
        }
        proof {
            ids.index_of_first_ensures(track_id@);
        }
        None
    }
}

impl Clone for PlaylistElement {
    fn clone(&self) -> (copy: Self)
        ensures
            copy@ == self@,
    {
        let songs = self.songs.clone();
        assert(songs@.map_values(|song: Song| song@) =~= self.songs@.map_values(
            |song: Song| song@,
        ));
        PlaylistElement {
            name: self.name.clone(),
            image_url: self.image_url.clone(),
            artists: self.artists.clone(),
            songs,
        }
    }
}

/// An ordered collection of elements that belongs to one user.
#[derive(Debug, PartialEq, Eq)]
pub struct Playlist {
    pub id: i32,
    pub name: String,
    pub owner_id: i32,
    pub elements: Vec<PlaylistElement>,
}

/// The mathematical value of a [`Playlist`].
pub ghost struct PlaylistView {
    pub id: int,
    pub name: Seq<char>,
    pub owner_id: int,
    pub elements: Seq<ElementView>,
}

impl PlaylistView {
    /// Whether a session can play the list: it has an element, and no
    /// element is without songs.
    pub open spec fn playable(self) -> bool {
        &&& self.elements.len() > 0
        &&& forall|i: int| 0 <= i < self.elements.len() ==> (#[trigger] self.elements[i]).songs.len() > 0
    }
}

impl View for Playlist {
    type V = PlaylistView;

    open spec fn view(&self) -> PlaylistView {
        PlaylistView {
            id: self.id as int,
            name: self.name@,
            owner_id: self.owner_id as int,
            elements: self.elements@.map_values(|element: PlaylistElement| element@),
        }
    }
}

impl Clone for Playlist {
    fn clone(&self) -> (copy: Self)
        ensures
            copy@ == self@,
    {
        let elements = self.elements.clone();
        assert(elements@.map_values(|element: PlaylistElement| element@)
            =~= self.elements@.map_values(|element: PlaylistElement| element@));
        Playlist { id: self.id, name: self.name.clone(), owner_id: self.owner_id, elements }
    }
}

impl Playlist {
    /// Tells whether the list can be played: whether it has an element and
    /// every element has a song.
    pub fn is_playable(&self) -> (playable: bool)
        ensures
            playable == self@.playable(),
    {
        if self.elements.len() == 0 {
            return false;
        }
        let mut i: usize = 0;
        while i < self.elements.len()
            invariant
                i <= self.elements.len(),
                forall|j: int| 0 <= j < i ==> (#[trigger] self@.elements[j]).songs.len() > 0,
            decreases self.elements.len() - i,
        {
            if self.elements[i].songs.len() == 0 {
                assert(self@.elements[i as int].songs.len() == 0);
                return false;
            }
            i += 1;
        }
        true
    }
}

} // verus!
