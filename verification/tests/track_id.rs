use video_player::track_id::{
    decode_subtitle_id, decode_track_id, decode_visualization_id, encode_subtitle_id,
    encode_track_id, encode_visualization_id, DecodeError, SubtitleTrack, TrackKind,
    DISABLED_TRACK_INDEX,
};

#[test]
fn encodes_track_identifiers() {
    assert_eq!(encode_track_id(TrackKind::Audio, 0), "audio-0");
    assert_eq!(encode_track_id(TrackKind::Audio, 12), "audio-12");
    assert_eq!(encode_track_id(TrackKind::Video, 3), "video-3");
}

#[test]
fn the_disable_identifier_carries_minus_one() {
    assert_eq!(DISABLED_TRACK_INDEX, -1);
    assert_eq!(encode_track_id(TrackKind::Audio, DISABLED_TRACK_INDEX), "audio--1");
    assert_eq!(encode_track_id(TrackKind::Video, DISABLED_TRACK_INDEX), "video--1");
    assert_eq!(decode_track_id("audio--1"), Ok(-1));
    assert_eq!(decode_track_id("video--1"), Ok(-1));
}

#[test]
fn decodes_track_identifiers() {
    assert_eq!(decode_track_id("audio-0"), Ok(0));
    assert_eq!(decode_track_id("audio-3"), Ok(3));
    assert_eq!(decode_track_id("video-17"), Ok(17));
    assert_eq!(decode_track_id("audio-2147483647"), Ok(i32::MAX));
}

#[test]
fn track_prefix_is_passed_over_whatever_it_holds() {
    assert_eq!(decode_track_id("xxxxxx3"), Ok(3));
    assert_eq!(decode_track_id("äöüäöü4"), Ok(4));
    assert_eq!(decode_track_id("audio-+5"), Ok(5));
}

#[test]
fn malformed_track_identifier_is_not_an_index() {
    assert_eq!(decode_track_id("audio-x"), Err(DecodeError::NotAnIndex));
    assert_eq!(decode_track_id("audio-"), Err(DecodeError::NotAnIndex));
    assert_eq!(decode_track_id("audio-1 "), Err(DecodeError::NotAnIndex));
    assert_eq!(decode_track_id("audio-2147483648"), Err(DecodeError::NotAnIndex));
}

#[test]
fn short_track_identifier_is_truncated() {
    assert_eq!(decode_track_id(""), Err(DecodeError::Truncated));
    assert_eq!(decode_track_id("audio"), Err(DecodeError::Truncated));
    assert_eq!(decode_track_id("none"), Err(DecodeError::Truncated));
}

#[test]
fn track_index_below_disable_is_negative() {
    assert_eq!(decode_track_id("audio--2"), Err(DecodeError::NegativeIndex));
    assert_eq!(decode_track_id("video--2147483648"), Err(DecodeError::NegativeIndex));
}

#[test]
fn track_identifier_round_trip_for_all_stream_indices() {
    let stream_count = 300;
    for index in 0..stream_count {
        assert_eq!(decode_track_id(&encode_track_id(TrackKind::Audio, index)), Ok(index));
        assert_eq!(decode_track_id(&encode_track_id(TrackKind::Video, index)), Ok(index));
    }
    assert_eq!(decode_track_id(&encode_track_id(TrackKind::Audio, i32::MAX)), Ok(i32::MAX));
}

#[test]
fn encodes_subtitle_identifiers() {
    assert_eq!(encode_subtitle_id(&None), "none");
    assert_eq!(encode_subtitle_id(&Some(SubtitleTrack::Inband(3))), "sub-3");
    assert_eq!(
        encode_subtitle_id(&Some(SubtitleTrack::External("file:///a/b.srt".to_string()))),
        "ext-file:///a/b.srt"
    );
}

#[test]
fn decodes_subtitle_identifiers() {
    assert_eq!(decode_subtitle_id("none"), Ok(None));
    assert_eq!(decode_subtitle_id("sub-3"), Ok(Some(SubtitleTrack::Inband(3))));
    assert_eq!(decode_subtitle_id("sub-0"), Ok(Some(SubtitleTrack::Inband(0))));
    assert_eq!(
        decode_subtitle_id("ext-file:///a/b.srt"),
        Ok(Some(SubtitleTrack::External("file:///a/b.srt".to_string())))
    );
}

#[test]
fn external_subtitle_round_trip_for_any_uri() {
    for uri in ["", "none", "ext-", "sub-1", "file:///tmp/a b.srt", "http://h/ä?x=1#y", "-"] {
        let track = Some(SubtitleTrack::External(uri.to_string()));
        let id = encode_subtitle_id(&track);
        assert_eq!(id, format!("ext-{}", uri));
        assert_eq!(decode_subtitle_id(&id), Ok(track));
    }
}

#[test]
fn inband_subtitle_round_trip() {
    for index in [0, 1, 3, 10, 255, i32::MAX, -1, i32::MIN] {
        let track = Some(SubtitleTrack::Inband(index));
        assert_eq!(decode_subtitle_id(&encode_subtitle_id(&track)), Ok(track));
    }
    assert_eq!(decode_subtitle_id(&encode_subtitle_id(&None)), Ok(None));
}

#[test]
fn subtitle_prefix_is_passed_over_unless_external() {
    assert_eq!(decode_subtitle_id("xyz-7"), Ok(Some(SubtitleTrack::Inband(7))));
    assert_eq!(decode_subtitle_id("ext-7"), Ok(Some(SubtitleTrack::External("7".to_string()))));
    assert_eq!(decode_subtitle_id("ext-"), Ok(Some(SubtitleTrack::External(String::new()))));
}

#[test]
fn malformed_subtitle_identifiers() {
    assert_eq!(decode_subtitle_id("sub-x"), Err(DecodeError::NotAnIndex));
    assert_eq!(decode_subtitle_id("sub-"), Err(DecodeError::NotAnIndex));
    assert_eq!(decode_subtitle_id("nonesuch"), Err(DecodeError::NotAnIndex));
    assert_eq!(decode_subtitle_id(""), Err(DecodeError::Truncated));
    assert_eq!(decode_subtitle_id("sub"), Err(DecodeError::Truncated));
    assert_eq!(decode_subtitle_id("ext"), Err(DecodeError::Truncated));
}

#[test]
fn visualization_identifiers_pass_through() {
    assert_eq!(decode_visualization_id("none"), None);
    assert_eq!(decode_visualization_id("goom"), Some("goom".to_string()));
    assert_eq!(decode_visualization_id(""), Some(String::new()));
    assert_eq!(encode_visualization_id(&None), "none");
    assert_eq!(encode_visualization_id(&Some("goom".to_string())), "goom");
    assert_eq!(
        decode_visualization_id(&encode_visualization_id(&Some("wavescope".to_string()))),
        Some("wavescope".to_string())
    );
}
