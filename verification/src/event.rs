//! What the playback engine emits, and what the user-interface loop is woken
//! up for.

use vstd::prelude::*;

verus! {

/// Where playback stands.
#[derive(Clone, Copy, Debug, PartialEq, Eq)]
pub enum PlaybackState {
    Stopped,
    Buffering,
    Paused,
    Playing,
}

/// An event of the playback engine. The last two kinds, and any kind added
/// later, are of no concern here and are passed over when dispatched.
#[derive(Clone, Debug, PartialEq, Eq)]
pub enum PlaybackEvent {
    MediaInfoUpdated,
    PositionUpdated,
    VideoDimensionsChanged(i32, i32),
    StateChanged(PlaybackState),
    /// The new volume level, as the 64 bits of its IEEE 754 binary64 form. It
    /// is handed on as it came.
    VolumeChanged(u64),
    Error(String),
    EndOfStream,
    EndOfPlaylist,
}

/// What a [`PlaybackEvent`] holds, as plain values.
pub enum PlaybackEventView {
    MediaInfoUpdated,
    PositionUpdated,
    VideoDimensionsChanged(i32, i32),
    StateChanged(PlaybackState),
    VolumeChanged(u64),
    Error(Seq<char>),
    EndOfStream,
    EndOfPlaylist,
}

impl DeepView for PlaybackEvent {
    type V = PlaybackEventView;

    open spec fn deep_view(&self) -> PlaybackEventView {
        match self {
            PlaybackEvent::MediaInfoUpdated => PlaybackEventView::MediaInfoUpdated,
            PlaybackEvent::PositionUpdated => PlaybackEventView::PositionUpdated,
            PlaybackEvent::VideoDimensionsChanged(width, height) => {
                PlaybackEventView::VideoDimensionsChanged(*width, *height)
            },
            PlaybackEvent::StateChanged(state) => PlaybackEventView::StateChanged(*state),
            PlaybackEvent::VolumeChanged(level) => PlaybackEventView::VolumeChanged(*level),
            PlaybackEvent::Error(message) => PlaybackEventView::Error(message@),
            PlaybackEvent::EndOfStream => PlaybackEventView::EndOfStream,
            PlaybackEvent::EndOfPlaylist => PlaybackEventView::EndOfPlaylist,
        }
    }
}

/// One item of the queue that the user-interface loop drains: an engine event
/// that was forwarded to it, or the request to shut down.
#[derive(Clone, Debug, PartialEq, Eq)]
pub enum UIAction {
    ForwardedEvent(PlaybackEvent),
    Quit,
}

/// What a [`UIAction`] holds, as plain values.
pub enum UIActionView {
    ForwardedEvent(PlaybackEventView),
    Quit,
}

impl DeepView for UIAction {
    type V = UIActionView;

    open spec fn deep_view(&self) -> UIActionView {
        match self {
            UIAction::ForwardedEvent(event) => UIActionView::ForwardedEvent(event.deep_view()),
            UIAction::Quit => UIActionView::Quit,
        }
    }
}

} // verus!
