//! One playable item: where it comes from, how it is shown, and the runtime
//! state that the controller mirrors for the track at the head of a queue.

use vstd::prelude::*;
use vstd::string::StringExecFns;

verus! {

/// Whether a track restarts when it completes.
#[derive(Clone, Copy, Debug, PartialEq, Eq, Structural)]
pub enum LoopMode {
    Finite,
    Infinite,
}

/// Whether a track is audible.
#[derive(Clone, Copy, Debug, PartialEq, Eq, Structural)]
pub enum PlayState {
    Playing,
    Paused,
}

impl LoopMode {
    /// The other mode.
    pub open spec fn flipped(self) -> LoopMode {
        match self {
            LoopMode::Finite => LoopMode::Infinite,
            LoopMode::Infinite => LoopMode::Finite,
        }
    }

    pub fn toggled(self) -> (r: LoopMode)
        ensures
            r == self.flipped(),
    {
        match self {
            LoopMode::Finite => LoopMode::Infinite,
            LoopMode::Infinite => LoopMode::Finite,
        }
    }
}

/// A playable item and its runtime state.
#[derive(Debug, PartialEq, Eq)]
pub struct Track {
    /// Locator (URL or search query) that the transport resolves to a stream.
    pub reference: String,
    /// Display name, when the source gave one.
    pub title: Option<String>,
    /// Preview image locator, when the source gave one.
    pub thumbnail: Option<String>,
    pub loop_mode: LoopMode,
    pub play_state: PlayState,
}

/// The mathematical value of a [`Track`].
pub struct TrackView {
    pub reference: Seq<char>,
    pub title: Option<Seq<char>>,
    pub thumbnail: Option<Seq<char>>,
    pub loop_mode: LoopMode,
    pub play_state: PlayState,
}

/// The view of an optional string.
pub open spec fn option_text(s: Option<String>) -> Option<Seq<char>> {
    match s {
        Some(t) => Some(t@),
        None => None,
    }
}

impl View for Track {
    type V = TrackView;

    open spec fn view(&self) -> TrackView {
        TrackView {
            reference: self.reference@,
            title: option_text(self.title),
            thumbnail: option_text(self.thumbnail),
            loop_mode: self.loop_mode,
            play_state: self.play_state,
        }
    }
}

/// Shown in place of a title that the source did not give.
pub open spec fn placeholder_title() -> Seq<char> {
    "Mystery song"@
}

impl TrackView {
    /// The title to show for this track.
    pub open spec fn display_title(self) -> Seq<char> {
        match self.title {
            Some(t) => t,
            None => placeholder_title(),
        }
    }

    /// The same track with another loop mode.
    pub open spec fn with_loop_mode(self, loop_mode: LoopMode) -> TrackView {
        TrackView { loop_mode, ..self }
    }

    /// The same track with another play state.
    pub open spec fn with_play_state(self, play_state: PlayState) -> TrackView {
        TrackView { play_state, ..self }
    }
}

/// A copy of an optional string.
pub fn clone_option_text(s: &Option<String>) -> (r: Option<String>)
    ensures
        option_text(r) == option_text(*s),
{
    match s {
        Some(t) => Some(t.clone()),
        None => None,
    }
}

impl Track {
    /// A freshly resolved track: it does not loop, and plays as soon as it is
    /// current.
    pub fn new(reference: String, title: Option<String>, thumbnail: Option<String>) -> (t: Track)
        ensures
            t@ == (TrackView {
                reference: reference@,
                title: option_text(title),
                thumbnail: option_text(thumbnail),
                loop_mode: LoopMode::Finite,
                play_state: PlayState::Playing,
            }),
    {
        Track { reference, title, thumbnail, loop_mode: LoopMode::Finite, play_state: PlayState::Playing }
    }

    /// The title to show: the track's own, or the placeholder.
    pub fn display_title(&self) -> (s: String)
        ensures
            s@ == self@.display_title(),
    {
        match &self.title {
            Some(t) => t.clone(),
            None => String::from_str("Mystery song"),
        }
    }
}

impl Clone for Track {
    fn clone(&self) -> (t: Track)
        ensures
            t@ == self@,
    {
        Track {
            reference: self.reference.clone(),
            title: clone_option_text(&self.title),
            thumbnail: clone_option_text(&self.thumbnail),
            loop_mode: self.loop_mode,
            play_state: self.play_state,
        }
    }
}

} // verus!
