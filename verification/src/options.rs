//! Options a caller may set before playback starts.

use vstd::prelude::*;

verus! {

/// How the elements of a playlist are to be ordered.
pub struct PlayerOptions {
    /// Whether the elements are played in random order.
    pub shuffle: bool,
    /// The element that is played first, if one was chosen.
    pub start_element: Option<usize>,
}

impl PlayerOptions {
    /// The default options: shuffled, with no chosen start.
    pub fn new() -> (options: Self)
        ensures
            options.shuffle,
            options.start_element is None,
    {
        PlayerOptions { shuffle: true, start_element: None }
    }
}

} // verus!
