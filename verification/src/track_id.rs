//! Identifiers of menu choices: how a track selection is written as the
//! target of an action, and how a proposed target is read back.

use crate::decimal::{decimal, format_i32, lemma_i32_round_trip, parse_i32, parse_i32_spec};
use crate::text::{join2, skip_chars, starts_with, str_eq};
use vstd::prelude::*;

verus! {

/// A subtitle source. No subtitles at all is `None` of an `Option` around it.
#[derive(Clone, Debug, PartialEq, Eq)]
pub enum SubtitleTrack {
    /// A subtitle stream of the media itself, by its position.
    Inband(i32),
    /// A subtitle file beside the media, by its URI.
    External(String),
}

/// What a [`SubtitleTrack`] holds, as plain values.
pub enum SubtitleTrackView {
    Inband(i32),
    External(Seq<char>),
}

impl DeepView for SubtitleTrack {
    type V = SubtitleTrackView;

    open spec fn deep_view(&self) -> SubtitleTrackView {
        match self {
            SubtitleTrack::Inband(index) => SubtitleTrackView::Inband(*index),
            SubtitleTrack::External(uri) => SubtitleTrackView::External(uri@),
        }
    }
}

/// The two kinds of track that are selected by position alone.
#[derive(Clone, Copy, Debug, PartialEq, Eq)]
pub enum TrackKind {
    Audio,
    Video,
}

/// Why a proposed identifier was not understood.
#[derive(Clone, Copy, Debug, PartialEq, Eq)]
pub enum DecodeError {
    /// The identifier is shorter than the prefix that every identifier has.
    Truncated,
    /// What follows the prefix is not a decimal number that fits 32 bits.
    NotAnIndex,
    /// The number is below the one that stands for "no track".
    NegativeIndex,
}

/// The index that the "Disable" entry of a track menu carries.
pub const DISABLED_TRACK_INDEX: i32 = -1;

/// How many characters come before the index of an audio or video identifier.
pub const TRACK_PREFIX_LEN: usize = 6;

/// How many characters come before the payload of a subtitle identifier.
pub const SUBTITLE_PREFIX_LEN: usize = 4;

/// The prefix of the identifiers of one kind of track.
pub open spec fn track_prefix(kind: TrackKind) -> Seq<char> {
    match kind {
        TrackKind::Audio => "audio-"@,
        TrackKind::Video => "video-"@,
    }
}

/// The identifier of the track at `index`: the prefix, then the index in decimal.
pub open spec fn track_id(kind: TrackKind, index: int) -> Seq<char> {
    track_prefix(kind) + decimal(index)
}

/// What an audio or video identifier selects. The first six characters are
/// passed over, whatever they are; the rest must read as a number that is a
/// position or the "no track" index.
pub open spec fn decode_track(id: Seq<char>) -> Result<i32, DecodeError> {
    if id.len() < TRACK_PREFIX_LEN {
        Err(DecodeError::Truncated)
    } else {
        match parse_i32_spec(id.skip(TRACK_PREFIX_LEN as int)) {
            None => Err(DecodeError::NotAnIndex),
            Some(index) => if index >= DISABLED_TRACK_INDEX {
                Ok(index)
            } else {
                Err(DecodeError::NegativeIndex)
            },
        }
    }
}

/// The identifier of the subtitle stream at `index`.
pub open spec fn inband_id(index: int) -> Seq<char> {
    "sub-"@ + decimal(index)
}

/// The identifier of a subtitle choice.
pub open spec fn subtitle_id(track: Option<SubtitleTrackView>) -> Seq<char> {
    match track {
        None => "none"@,
        Some(SubtitleTrackView::Inband(index)) => inband_id(index as int),
        Some(SubtitleTrackView::External(uri)) => "ext-"@ + uri,
    }
}

/// What a subtitle identifier selects: `none` switches subtitles off, `ext-`
/// is followed by a URI, and in any other identifier the first four
/// characters are passed over and the rest must read as a number.
pub open spec fn decode_subtitle(id: Seq<char>) -> Result<Option<SubtitleTrackView>, DecodeError> {
    if id == "none"@ {
        Ok(None)
    } else if "ext-"@.is_prefix_of(id) {
        Ok(Some(SubtitleTrackView::External(id.skip(SUBTITLE_PREFIX_LEN as int))))
    } else if id.len() < SUBTITLE_PREFIX_LEN {
        Err(DecodeError::Truncated)
    } else {
        match parse_i32_spec(id.skip(SUBTITLE_PREFIX_LEN as int)) {
            None => Err(DecodeError::NotAnIndex),
            Some(index) => Ok(Some(SubtitleTrackView::Inband(index))),
        }
    }
}

/// The identifier of an audio visualization choice: the effect's own name, or
/// `none` for no effect.
pub open spec fn visualization_id(effect: Option<Seq<char>>) -> Seq<char> {
    match effect {
        None => "none"@,
        Some(name) => name,
    }
}

/// What a visualization identifier selects: `none` is no effect, any other
/// identifier is the name of an effect.
pub open spec fn decode_visualization(id: Seq<char>) -> Option<Seq<char>> {
    if id == "none"@ {
        None
    } else {
        Some(id)
    }
}

/// An audio or video identifier is read back as the index it was written for,
/// for every position and for the "no track" index.
pub proof fn lemma_track_round_trip(kind: TrackKind, index: i32)
    requires
        index >= DISABLED_TRACK_INDEX,
    ensures
        decode_track(track_id(kind, index as int)) == Ok::<i32, DecodeError>(index),
{
    reveal_strlit("audio-");
    reveal_strlit("video-");
    lemma_i32_round_trip(index);
    let id = track_id(kind, index as int);
    assert(id.skip(TRACK_PREFIX_LEN as int) =~= decimal(index as int));
}

/// A subtitle choice is read back from its own identifier, whatever the URI
/// of an external file holds.
pub proof fn lemma_subtitle_round_trip(track: Option<SubtitleTrackView>)
    ensures
        decode_subtitle(subtitle_id(track)) == Ok::<Option<SubtitleTrackView>, DecodeError>(track),
{
    reveal_strlit("none");
    reveal_strlit("sub-");
    reveal_strlit("ext-");
    let id = subtitle_id(track);
    match track {
        None => {},
        Some(SubtitleTrackView::Inband(index)) => {
            lemma_i32_round_trip(index);
            assert(id[0] == 's');
            assert(id.skip(SUBTITLE_PREFIX_LEN as int) =~= decimal(index as int));
            assert(!"ext-"@.is_prefix_of(id)) by {
                assert(id.subrange(0, 4)[0] == 's');
            }
        },
        Some(SubtitleTrackView::External(uri)) => {
            assert(id[0] == 'e');
            assert(id.subrange(0, 4) =~= "ext-"@);
            assert(id.skip(SUBTITLE_PREFIX_LEN as int) =~= uri);
        },
    }
}

/// A visualization choice is read back from its own identifier, unless an
/// effect is itself named `none`.
pub proof fn lemma_visualization_round_trip(effect: Option<Seq<char>>)
    requires
        effect != Some("none"@),
    ensures
        decode_visualization(visualization_id(effect)) == effect,
{
}

/// Writes the identifier of the audio or video track at `index`.
pub fn encode_track_id(kind: TrackKind, index: i32) -> (id: String)
    ensures
        id@ == track_id(kind, index as int),
{
    let digits = format_i32(index);
    match kind {
        TrackKind::Audio => join2("audio-", digits.as_str()),
        TrackKind::Video => join2("video-", digits.as_str()),
    }
}

/// Reads an audio or video identifier.
pub fn decode_track_id(id: &str) -> (r: Result<i32, DecodeError>)
    ensures
        r == decode_track(id@),
{
    match skip_chars(id, TRACK_PREFIX_LEN) {
        None => Err(DecodeError::Truncated),
        Some(rest) => match parse_i32(rest.as_str()) {
            None => Err(DecodeError::NotAnIndex),
            Some(index) => if index >= DISABLED_TRACK_INDEX {
                Ok(index)
            } else {
                Err(DecodeError::NegativeIndex)
            },
        },
    }
}

/// Writes the identifier of a subtitle choice.
pub fn encode_subtitle_id(track: &Option<SubtitleTrack>) -> (id: String)
    ensures
        id@ == subtitle_id(track.deep_view()),
{
    match track {
        None => String::from_str("none"),
        Some(SubtitleTrack::Inband(index)) => {
            let digits = format_i32(*index);
            join2("sub-", digits.as_str())
        },
        Some(SubtitleTrack::External(uri)) => join2("ext-", uri.as_str()),
    }
}

/// Reads a subtitle identifier.
pub fn decode_subtitle_id(id: &str) -> (r: Result<Option<SubtitleTrack>, DecodeError>)
    ensures
        match r {
            Ok(track) => decode_subtitle(id@) == Ok::<Option<SubtitleTrackView>, DecodeError>(
                track.deep_view(),
            ),
            Err(e) => decode_subtitle(id@) == Err::<Option<SubtitleTrackView>, DecodeError>(e),
        },
{
    proof {
        reveal_strlit("ext-");
    }
    if str_eq(id, "none") {
        return Ok(None);
    }
    match skip_chars(id, SUBTITLE_PREFIX_LEN) {
        None => Err(DecodeError::Truncated),
        Some(rest) => if starts_with(id, "ext-") {
            Ok(Some(SubtitleTrack::External(rest)))
        } else {
            match parse_i32(rest.as_str()) {
                None => Err(DecodeError::NotAnIndex),
                Some(index) => Ok(Some(SubtitleTrack::Inband(index))),
            }
        },
    }
}

/// Writes the identifier of an audio visualization choice.
pub fn encode_visualization_id(effect: &Option<String>) -> (id: String)
    ensures
        id@ == visualization_id(effect.deep_view()),
{
    match effect {
        None => String::from_str("none"),
        Some(name) => name.clone(),
    }
}

/// Reads an audio visualization identifier.
pub fn decode_visualization_id(id: &str) -> (effect: Option<String>)
    ensures
        effect.deep_view() == decode_visualization(id@),
{
    if str_eq(id, "none") {
        None
    } else {
        Some(String::from_str(id))
    }
}

} // verus!
