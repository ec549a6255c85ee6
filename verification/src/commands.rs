//! The commands that a session takes, and the requests they are made from.

use crate::playlist::{Playlist, PlaylistView};
use vstd::prelude::*;

verus! {

/// A command to a session.
#[derive(Debug, PartialEq, Eq)]
pub enum Command {
    /// Begin playback of a playlist, at the given element if one is given.
    /// The song index is carried along; playback starts at the element's
    /// first song whatever it says.
    Play { playlist: Playlist, element_index: Option<usize>, song_index: Option<usize> },
    Pause,
    Resume,
    NextSong,
    PrevSong,
    NextElement,
    PrevElement,
    AddToQueue,
    RemoveFromQueue,
    Exit,
}

/// The mathematical value of a [`Command`].
pub ghost enum CommandView {
    Play { playlist: PlaylistView, element_index: Option<usize>, song_index: Option<usize> },
    Pause,
    Resume,
    NextSong,
    PrevSong,
    NextElement,
    PrevElement,
    AddToQueue,
    RemoveFromQueue,
    Exit,
}

impl View for Command {
    type V = CommandView;

    open spec fn view(&self) -> CommandView {
        match *self {
            Command::Play { playlist, element_index, song_index } => CommandView::Play {
                playlist: playlist@,
                element_index,
                song_index,
            },
            Command::Pause => CommandView::Pause,
            Command::Resume => CommandView::Resume,
            Command::NextSong => CommandView::NextSong,
            Command::PrevSong => CommandView::PrevSong,
            Command::NextElement => CommandView::NextElement,
            Command::PrevElement => CommandView::PrevElement,
            Command::AddToQueue => CommandView::AddToQueue,
            Command::RemoveFromQueue => CommandView::RemoveFromQueue,
            Command::Exit => CommandView::Exit,
        }
    }
}

impl Command {
    /// Tells whether the command begins playback, and so may start a
    /// session where there is none.
    pub fn starts_playback(&self) -> (starts: bool)
        ensures
            starts == (self@ is Play),
    {
        match self {
            Command::Play { .. } => true,
            _ => false,
        }
    }
}

/// A command as a client asks for it: a playlist is named by its id.
#[derive(Debug, PartialEq, Eq, Clone, Copy)]
pub enum CommandRequest {
    Play { playlist_id: i32, element_index: Option<usize>, song_index: Option<usize> },
    Pause,
    Resume,
    NextSong,
    PrevSong,
    NextElement,
    PrevElement,
    AddToQueue,
    RemoveFromQueue,
    Exit,
}

impl CommandRequest {
    /// The id of the playlist that has to be fetched before the request
    /// can become a command.
    pub fn playlist_id(&self) -> (id: Option<i32>)
        ensures
            id == match *self {
                CommandRequest::Play { playlist_id, .. } => Some(playlist_id),
                _ => None,
            },
    {
        match self {
            CommandRequest::Play { playlist_id, .. } => Some(*playlist_id),
            _ => None,
        }
    }

    /// What the request becomes once the playlist store has answered.
    pub open spec fn command_for(self, playlist: Option<PlaylistView>) -> Option<CommandView> {
        match self {
            CommandRequest::Play { element_index, song_index, .. } => match playlist {
                Some(playlist) => Some(CommandView::Play { playlist, element_index, song_index }),
                None => None,
            },
            CommandRequest::Pause => Some(CommandView::Pause),
            CommandRequest::Resume => Some(CommandView::Resume),
            CommandRequest::NextSong => Some(CommandView::NextSong),
            CommandRequest::PrevSong => Some(CommandView::PrevSong),
            CommandRequest::NextElement => Some(CommandView::NextElement),
            CommandRequest::PrevElement => Some(CommandView::PrevElement),
            CommandRequest::AddToQueue => Some(CommandView::AddToQueue),
            CommandRequest::RemoveFromQueue => Some(CommandView::RemoveFromQueue),
            CommandRequest::Exit => Some(CommandView::Exit),
        }
    }

    /// Turns the request into a command. `playlist` is what the playlist
    /// store holds under the request's playlist id; a request to play a
    /// playlist that the store does not hold becomes no command.
    pub fn to_player_command(self, playlist: Option<Playlist>) -> (command: Option<Command>)
        ensures
            match command {
                Some(command) => self.command_for(playlist_option_view(playlist)) == Some(command@),
                None => self.command_for(playlist_option_view(playlist)) is None,
            },
    {
        match self {
            CommandRequest::Play { element_index, song_index, .. } => match playlist {
                Some(playlist) => Some(Command::Play { playlist, element_index, song_index }),
                None => None,
            },
            CommandRequest::Pause => Some(Command::Pause),
            CommandRequest::Resume => Some(Command::Resume),
            CommandRequest::NextSong => Some(Command::NextSong),
            CommandRequest::PrevSong => Some(Command::PrevSong),
            CommandRequest::NextElement => Some(Command::NextElement),
            CommandRequest::PrevElement => Some(Command::PrevElement),
            CommandRequest::AddToQueue => Some(Command::AddToQueue),
            CommandRequest::RemoveFromQueue => Some(Command::RemoveFromQueue),
            CommandRequest::Exit => Some(Command::Exit),
        }
    }
}

/// The mathematical value of a playlist that may be missing.
pub open spec fn playlist_option_view(playlist: Option<Playlist>) -> Option<PlaylistView> {
    match playlist {
        Some(playlist) => Some(playlist@),
        None => None,
    }
}

} // verus!
