//! The selectable menus that are rebuilt from the media's metadata: one
//! "Disable" entry, then one entry per stream in the order the engine reports.

use crate::decimal::{decimal, format_i32, format_u64};
use crate::media::{
    AudioStream, AudioStreamView, ExternalSubtitle, ExternalSubtitleView, SubtitleStream,
    SubtitleStreamView, VideoStream, Visualization, VisualizationView,
};
use crate::text::{join2, join3, lemma_push_deep_view, str_eq};
use crate::track_id::{
    decode_subtitle, decode_track, DecodeError, DISABLED_TRACK_INDEX, inband_id,
    lemma_subtitle_round_trip, lemma_track_round_trip, subtitle_id, SubtitleTrack,
    SubtitleTrackView, track_id,
    TrackKind,
};
use vstd::prelude::*;

verus! {

/// One line of a menu: what the user reads, and the identifier that is
/// proposed to the menu's action when the line is chosen.
#[derive(Clone, Debug, PartialEq, Eq)]
pub struct MenuEntry {
    pub label: String,
    pub target: String,
}

/// What a [`MenuEntry`] holds, as plain values.
pub struct MenuEntryView {
    pub label: Seq<char>,
    pub target: Seq<char>,
}

impl DeepView for MenuEntry {
    type V = MenuEntryView;

    open spec fn deep_view(&self) -> MenuEntryView {
        MenuEntryView { label: self.label@, target: self.target@ }
    }
}

/// The entry that every menu begins with.
pub open spec fn disable_entry(target: Seq<char>) -> MenuEntryView {
    MenuEntryView { label: "Disable"@, target }
}

/// The text after a label that names a stream's language.
pub open spec fn language_suffix(language: Seq<char>) -> Seq<char> {
    " - ["@ + language + "]"@
}

/// The label of an audio stream: its channel count, then its language if it has one.
pub open spec fn audio_label(stream: AudioStreamView) -> Seq<char> {
    let channels = decimal(stream.channels as int) + " channels"@;
    match stream.language {
        Some(language) => channels + language_suffix(language),
        None => channels,
    }
}

/// The entry of the audio stream at `index`.
pub open spec fn audio_entry(index: int, stream: AudioStreamView) -> MenuEntryView {
    MenuEntryView { label: audio_label(stream), target: track_id(TrackKind::Audio, index) }
}

/// The audio track menu of a media with these streams.
pub open spec fn audio_menu(streams: Seq<AudioStreamView>) -> Seq<MenuEntryView> {
    seq![disable_entry(track_id(TrackKind::Audio, DISABLED_TRACK_INDEX as int))] + Seq::new(
        streams.len(),
        |i: int| audio_entry(i, streams[i]),
    )
}

/// The label of a video stream: its width and height.
pub open spec fn video_label(stream: VideoStream) -> Seq<char> {
    decimal(stream.width as int) + "x"@ + decimal(stream.height as int)
}

/// The entry of the video stream at `index`.
pub open spec fn video_entry(index: int, stream: VideoStream) -> MenuEntryView {
    MenuEntryView { label: video_label(stream), target: track_id(TrackKind::Video, index) }
}

/// The video track menu of a media with these streams.
pub open spec fn video_menu(streams: Seq<VideoStream>) -> Seq<MenuEntryView> {
    seq![disable_entry(track_id(TrackKind::Video, DISABLED_TRACK_INDEX as int))] + Seq::new(
        streams.len(),
        |i: int| video_entry(i, streams[i]),
    )
}

/// The title of the subtitle stream at `index`: its own, or its number
/// counted from one.
pub open spec fn subtitle_title(index: int, stream: SubtitleStreamView) -> Seq<char> {
    match stream.title {
        Some(title) => title,
        None => "Track "@ + decimal(index + 1),
    }
}

/// The label of the subtitle stream at `index`: its title, then its language
/// unless the title already is the language.
pub open spec fn subtitle_label(index: int, stream: SubtitleStreamView) -> Seq<char> {
    let title = subtitle_title(index, stream);
    match stream.language {
        Some(language) => if language == title {
            title
        } else {
            title + language_suffix(language)
        },
        None => title,
    }
}

/// The entry of the subtitle stream at `index`.
pub open spec fn subtitle_entry(index: int, stream: SubtitleStreamView) -> MenuEntryView {
    MenuEntryView {
        label: subtitle_label(index, stream),
        target: inband_id(index),
    }
}

/// The identifier that stands for the external subtitle file, or for no
/// subtitles where there is none.
pub open spec fn external_selection(external: Option<ExternalSubtitleView>) -> Seq<char> {
    match shown_external(external) {
        Some(entry) => entry.target,
        None => subtitle_id(None),
    }
}

/// The entry that stands for the external subtitle file. There is one where
/// such a file is configured and has a name to show.
pub open spec fn shown_external(external: Option<ExternalSubtitleView>) -> Option<MenuEntryView> {
    match external {
        Some(file) => match file.file_name {
            Some(name) => Some(
                MenuEntryView {
                    label: name,
                    target: subtitle_id(Some(SubtitleTrackView::External(file.uri))),
                },
            ),
            None => None,
        },
        None => None,
    }
}

/// The entries that stand for the external subtitle file: one, or none.
pub open spec fn external_entries(external: Option<ExternalSubtitleView>) -> Seq<MenuEntryView> {
    match shown_external(external) {
        Some(entry) => seq![entry],
        None => Seq::empty(),
    }
}

/// The subtitle menu of a media with these streams, with the external file last.
pub open spec fn subtitle_menu(
    streams: Seq<SubtitleStreamView>,
    external: Option<ExternalSubtitleView>,
) -> Seq<MenuEntryView> {
    seq![disable_entry(subtitle_id(None))] + Seq::new(
        streams.len(),
        |i: int| subtitle_entry(i, streams[i]),
    ) + external_entries(external)
}

/// Whether the subtitle menu of these streams and this external file has an
/// entry for `track`: "Disable" for no subtitles, the entry of a stream for
/// its position, and the last entry for the external file that is shown.
pub open spec fn menu_offers(
    streams: Seq<SubtitleStreamView>,
    external: Option<ExternalSubtitleView>,
    track: Option<SubtitleTrackView>,
) -> bool {
    match track {
        None => true,
        Some(SubtitleTrackView::Inband(index)) => 0 <= index < streams.len(),
        Some(SubtitleTrackView::External(uri)) => match shown_external(external) {
            Some(_) => external->0.uri == uri,
            None => false,
        },
    }
}

/// The entry of one visualization effect.
pub open spec fn visualization_entry(effect: VisualizationView) -> MenuEntryView {
    MenuEntryView { label: effect.description, target: effect.name }
}

/// The audio visualization menu for these effects.
pub open spec fn visualization_menu(effects: Seq<VisualizationView>) -> Seq<MenuEntryView> {
    seq![disable_entry("none"@)] + Seq::new(
        effects.len(),
        |i: int| visualization_entry(effects[i]),
    )
}

/// A menu has its "Disable" entry and one entry per stream or effect, and
/// one more where an external subtitle file is configured.
pub proof fn lemma_menu_lengths(
    audio: Seq<AudioStreamView>,
    video: Seq<VideoStream>,
    subtitles: Seq<SubtitleStreamView>,
    external: Option<ExternalSubtitleView>,
    effects: Seq<VisualizationView>,
)
    ensures
        audio_menu(audio).len() == audio.len() + 1,
        video_menu(video).len() == video.len() + 1,
        subtitle_menu(subtitles, external).len() == subtitles.len() + 1 + (if shown_external(
            external,
        ) is Some {
            1int
        } else {
            0int
        }),
        visualization_menu(effects).len() == effects.len() + 1,
        audio_menu(audio)[0].label == "Disable"@,
        video_menu(video)[0].label == "Disable"@,
        subtitle_menu(subtitles, external)[0].label == "Disable"@,
        visualization_menu(effects)[0].label == "Disable"@,
{
}

/// Every entry of a track menu proposes an identifier that is understood:
/// "Disable" selects no track, and the entry of a stream selects the
/// stream's position.
pub proof fn lemma_track_entries_select_their_streams(
    audio: Seq<AudioStreamView>,
    video: Seq<VideoStream>,
    i: int,
)
    requires
        0 <= i <= i32::MAX,
    ensures
        decode_track(audio_menu(audio)[0].target) == Ok::<i32, DecodeError>(DISABLED_TRACK_INDEX),
        decode_track(video_menu(video)[0].target) == Ok::<i32, DecodeError>(DISABLED_TRACK_INDEX),
        i < audio.len() ==> decode_track(audio_menu(audio)[i + 1].target) == Ok::<i32, DecodeError>(
            i as i32,
        ),
        i < video.len() ==> decode_track(video_menu(video)[i + 1].target) == Ok::<i32, DecodeError>(
            i as i32,
        ),
{
    lemma_track_round_trip(TrackKind::Audio, DISABLED_TRACK_INDEX);
    lemma_track_round_trip(TrackKind::Video, DISABLED_TRACK_INDEX);
    lemma_track_round_trip(TrackKind::Audio, i as i32);
    lemma_track_round_trip(TrackKind::Video, i as i32);
}

/// Every entry of the subtitle menu proposes an identifier that is
/// understood: "Disable" selects no subtitles, the entry of a stream selects
/// the stream's position, and the last entry selects the external file where
/// one is shown.
pub proof fn lemma_subtitle_entries_select_their_streams(
    streams: Seq<SubtitleStreamView>,
    external: Option<ExternalSubtitleView>,
    i: int,
)
    requires
        0 <= i <= i32::MAX,
    ensures
        decode_subtitle(subtitle_menu(streams, external)[0].target) == Ok::<
            Option<SubtitleTrackView>,
            DecodeError,
        >(None),
        i < streams.len() ==> decode_subtitle(subtitle_menu(streams, external)[i + 1].target)
            == Ok::<Option<SubtitleTrackView>, DecodeError>(
            Some(SubtitleTrackView::Inband(i as i32)),
        ),
        shown_external(external) is Some ==> decode_subtitle(
            subtitle_menu(streams, external).last().target,
        ) == Ok::<Option<SubtitleTrackView>, DecodeError>(
            Some(SubtitleTrackView::External(external->0.uri)),
        ),
{
    lemma_subtitle_round_trip(None);
    lemma_subtitle_round_trip(Some(SubtitleTrackView::Inband(i as i32)));
    if shown_external(external) is Some {
        lemma_subtitle_round_trip(Some(SubtitleTrackView::External(external->0.uri)));
    }
}

/// A track that the subtitle menu offers has an entry there, and the
/// identifier of that entry selects the track.
pub proof fn lemma_offered_track_has_an_entry(
    streams: Seq<SubtitleStreamView>,
    external: Option<ExternalSubtitleView>,
    track: Option<SubtitleTrackView>,
)
    requires
        menu_offers(streams, external, track),
    ensures
        exists|k: int|
            0 <= k < subtitle_menu(streams, external).len() && decode_subtitle(
                #[trigger] subtitle_menu(streams, external)[k].target,
            ) == Ok::<Option<SubtitleTrackView>, DecodeError>(track),
{
    let menu = subtitle_menu(streams, external);
    match track {
        None => {
            lemma_subtitle_round_trip(None);
            assert(decode_subtitle(menu[0].target) == Ok::<Option<SubtitleTrackView>, DecodeError>(
                track,
            ));
        },
        Some(SubtitleTrackView::Inband(index)) => {
            lemma_subtitle_entries_select_their_streams(streams, external, index as int);
            assert(decode_subtitle(menu[index + 1].target) == Ok::<
                Option<SubtitleTrackView>,
                DecodeError,
            >(track));
        },
        Some(SubtitleTrackView::External(uri)) => {
            lemma_subtitle_entries_select_their_streams(streams, external, 0);
            assert(decode_subtitle(menu[menu.len() - 1].target) == Ok::<
                Option<SubtitleTrackView>,
                DecodeError,
            >(track));
        },
    }
}

/// Tells whether the subtitle menu of these streams and this external file
/// has an entry for `track`.
pub fn subtitle_menu_offers(
    streams: &Vec<SubtitleStream>,
    external: &Option<ExternalSubtitle>,
    track: &Option<SubtitleTrack>,
) -> (yes: bool)
    ensures
        yes == menu_offers(streams.deep_view(), external.deep_view(), track.deep_view()),
{
    match track {
        None => true,
        Some(SubtitleTrack::Inband(index)) => *index >= 0 && (*index as usize) < streams.len(),
        Some(SubtitleTrack::External(uri)) => match external {
            Some(file) => match &file.file_name {
                Some(_) => str_eq(file.uri.as_str(), uri.as_str()),
                None => false,
            },
            None => false,
        },
    }
}

fn make_disable_entry(target: String) -> (entry: MenuEntry)
    ensures
        entry.deep_view() == disable_entry(target@),
{
    MenuEntry { label: String::from_str("Disable"), target }
}

fn track_position_id(kind: TrackKind, position: usize) -> (id: String)
    ensures
        id@ == track_id(kind, position as int),
{
    let digits = format_u64(position as u64);
    match kind {
        TrackKind::Audio => join2("audio-", digits.as_str()),
        TrackKind::Video => join2("video-", digits.as_str()),
    }
}

fn make_language_suffix(language: &str) -> (suffix: String)
    ensures
        suffix@ == language_suffix(language@),
{
    join3(" - [", language, "]")
}

fn make_audio_label(stream: &AudioStream) -> (label: String)
    ensures
        label@ == audio_label(stream.deep_view()),
{
    let digits = format_i32(stream.channels);
    let channels = join2(digits.as_str(), " channels");
    match &stream.language {
        Some(language) => {
            let suffix = make_language_suffix(language.as_str());
            join2(channels.as_str(), suffix.as_str())
        },
        None => channels,
    }
}

/// Builds the audio track menu.
pub fn build_audio_menu(streams: &Vec<AudioStream>) -> (entries: Vec<MenuEntry>)
    ensures
        entries.deep_view() == audio_menu(streams.deep_view()),
{
    let ghost want = audio_menu(streams.deep_view());
    let mut entries: Vec<MenuEntry> = Vec::new();
    proof {
        reveal_strlit("audio-");
    }
    let disable_id = join2("audio-", format_i32(DISABLED_TRACK_INDEX).as_str());
    entries.push(make_disable_entry(disable_id));
    assert(entries.deep_view() =~= want.take(1));
    let n = streams.len();
    let mut i: usize = 0;
    while i < n
        invariant
            i <= n,
            n == streams.len(),
            want == audio_menu(streams.deep_view()),
            entries.deep_view() == want.take(i + 1),
        decreases n - i,
    {
        let stream = &streams[i];
        let entry = MenuEntry {
            label: make_audio_label(stream),
            target: track_position_id(TrackKind::Audio, i),
        };
        assert(entry.deep_view() == want[i + 1]);
        let ghost before = entries;
        let ghost pushed = entry;
        entries.push(entry);
        proof {
            lemma_push_deep_view(before, entries, pushed);
            assert(entries.deep_view() =~= want.take(i + 2));
        }
        i += 1;
    }
    assert(want.take(n + 1) =~= want);
    entries
}

fn make_video_label(stream: &VideoStream) -> (label: String)
    ensures
        label@ == video_label(*stream),
{
    let width = format_i32(stream.width);
    let height = format_i32(stream.height);
    join3(width.as_str(), "x", height.as_str())
}

/// Builds the video track menu.
pub fn build_video_menu(streams: &Vec<VideoStream>) -> (entries: Vec<MenuEntry>)
    ensures
        entries.deep_view() == video_menu(streams.deep_view()),
{
    let ghost want = video_menu(streams.deep_view());
    let mut entries: Vec<MenuEntry> = Vec::new();
    let disable_id = join2("video-", format_i32(DISABLED_TRACK_INDEX).as_str());
    entries.push(make_disable_entry(disable_id));
    assert(entries.deep_view() =~= want.take(1));
    let n = streams.len();
    let mut i: usize = 0;
    while i < n
        invariant
            i <= n,
            n == streams.len(),
            want == video_menu(streams.deep_view()),
            entries.deep_view() == want.take(i + 1),
        decreases n - i,
    {
        let stream = &streams[i];
        let entry = MenuEntry {
            label: make_video_label(stream),
            target: track_position_id(TrackKind::Video, i),
        };
        assert(entry.deep_view() == want[i + 1]);
        let ghost before = entries;
        let ghost pushed = entry;
        entries.push(entry);
        proof {
            lemma_push_deep_view(before, entries, pushed);
            assert(entries.deep_view() =~= want.take(i + 2));
        }
        i += 1;
    }
    assert(want.take(n + 1) =~= want);
    entries
}

fn make_subtitle_label(index: usize, stream: &SubtitleStream) -> (label: String)
    requires
        index < usize::MAX,
    ensures
        label@ == subtitle_label(index as int, stream.deep_view()),
{
    let title = match &stream.title {
        Some(title) => title.clone(),
        None => {
            let number = format_u64(index as u64 + 1);
            join2("Track ", number.as_str())
        },
    };
    match &stream.language {
        Some(language) => if str_eq(language.as_str(), title.as_str()) {
            title
        } else {
            let suffix = make_language_suffix(language.as_str());
            join2(title.as_str(), suffix.as_str())
        },
        None => title,
    }
}

/// Writes the identifier that stands for the external subtitle file, or for
/// no subtitles where there is none.
pub fn external_selection_id(external: &Option<ExternalSubtitle>) -> (id: String)
    ensures
        id@ == external_selection(external.deep_view()),
{
    match external {
        Some(file) => match &file.file_name {
            Some(_) => join2("ext-", file.uri.as_str()),
            None => String::from_str("none"),
        },
        None => String::from_str("none"),
    }
}

/// Builds the subtitle menu.
pub fn build_subtitle_menu(
    streams: &Vec<SubtitleStream>,
    external: &Option<ExternalSubtitle>,
) -> (entries: Vec<MenuEntry>)
    ensures
        entries.deep_view() == subtitle_menu(streams.deep_view(), external.deep_view()),
{
    let ghost inband = subtitle_menu(streams.deep_view(), None);
    let mut entries: Vec<MenuEntry> = Vec::new();
    entries.push(make_disable_entry(String::from_str("none")));
    assert(entries.deep_view() =~= inband.take(1));
    let n = streams.len();
    let mut i: usize = 0;
    while i < n
        invariant
            i <= n,
            n == streams.len(),
            inband == subtitle_menu(streams.deep_view(), None),
            entries.deep_view() == inband.take(i + 1),
        decreases n - i,
    {
        let stream = &streams[i];
        let digits = format_u64(i as u64);
        let entry = MenuEntry {
            label: make_subtitle_label(i, stream),
            target: join2("sub-", digits.as_str()),
        };
        assert(entry.deep_view() == inband[i + 1]);
        let ghost before = entries;
        let ghost pushed = entry;
        entries.push(entry);
        proof {
            lemma_push_deep_view(before, entries, pushed);
            assert(entries.deep_view() =~= inband.take(i + 2));
        }
        i += 1;
    }
    assert(inband.take(n + 1) =~= inband);
    let name = match external {
        Some(file) => match &file.file_name {
            Some(name) => Some(name.clone()),
            None => None,
        },
        None => None,
    };
    match name {
        Some(label) => {
            let entry = MenuEntry { label, target: external_selection_id(external) };
            let ghost before = entries;
            let ghost pushed = entry;
            entries.push(entry);
            proof {
                lemma_push_deep_view(before, entries, pushed);
                assert(entries.deep_view() =~= subtitle_menu(
                    streams.deep_view(),
                    external.deep_view(),
                ));
            }
        },
        None => {
            assert(inband =~= subtitle_menu(streams.deep_view(), external.deep_view()));
        },
    }
    entries
}

/// Builds the audio visualization menu.
pub fn build_visualization_menu(effects: &Vec<Visualization>) -> (entries: Vec<MenuEntry>)
    ensures
        entries.deep_view() == visualization_menu(effects.deep_view()),
{
    let ghost want = visualization_menu(effects.deep_view());
    let mut entries: Vec<MenuEntry> = Vec::new();
    entries.push(make_disable_entry(String::from_str("none")));
    assert(entries.deep_view() =~= want.take(1));
    let n = effects.len();
    let mut i: usize = 0;
    while i < n
        invariant
            i <= n,
            n == effects.len(),
            want == visualization_menu(effects.deep_view()),
            entries.deep_view() == want.take(i + 1),
        decreases n - i,
    {
        let effect = &effects[i];
        let entry = MenuEntry { label: effect.description.clone(), target: effect.name.clone() };
        assert(entry.deep_view() == want[i + 1]);
        let ghost before = entries;
        let ghost pushed = entry;
        entries.push(entry);
        proof {
            lemma_push_deep_view(before, entries, pushed);
            assert(entries.deep_view() =~= want.take(i + 2));
        }
        i += 1;
    }
    assert(want.take(n + 1) =~= want);
    entries
}

} // verus!
