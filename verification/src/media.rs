//! What the playback engine reports about the media it has loaded.

use vstd::prelude::*;

verus! {

/// One audio stream of the media.
#[derive(Clone, Debug, PartialEq, Eq)]
pub struct AudioStream {
    pub channels: i32,
    pub language: Option<String>,
}

/// What an [`AudioStream`] holds, as plain values.
pub struct AudioStreamView {
    pub channels: i32,
    pub language: Option<Seq<char>>,
}

impl DeepView for AudioStream {
    type V = AudioStreamView;

    open spec fn deep_view(&self) -> AudioStreamView {
        AudioStreamView { channels: self.channels, language: self.language.deep_view() }
    }
}

/// One video stream of the media.
#[derive(Clone, Copy, Debug, PartialEq, Eq)]
pub struct VideoStream {
    pub width: i32,
    pub height: i32,
}

impl DeepView for VideoStream {
    type V = VideoStream;

    open spec fn deep_view(&self) -> VideoStream {
        *self
    }
}

/// One subtitle stream of the media.
#[derive(Clone, Debug, PartialEq, Eq)]
pub struct SubtitleStream {
    pub title: Option<String>,
    pub language: Option<String>,
}

/// What a [`SubtitleStream`] holds, as plain values.
pub struct SubtitleStreamView {
    pub title: Option<Seq<char>>,
    pub language: Option<Seq<char>>,
}

impl DeepView for SubtitleStream {
    type V = SubtitleStreamView;

    open spec fn deep_view(&self) -> SubtitleStreamView {
        SubtitleStreamView { title: self.title.deep_view(), language: self.language.deep_view() }
    }
}

/// The metadata of the loaded media. A stream is addressed by its position in
/// its own list.
#[derive(Clone, Debug, PartialEq, Eq)]
pub struct MediaInfo {
    pub title: Option<String>,
    /// The duration in whole seconds, where the engine knows it.
    pub duration_seconds: Option<u64>,
    pub audio_streams: Vec<AudioStream>,
    pub video_streams: Vec<VideoStream>,
    pub subtitle_streams: Vec<SubtitleStream>,
}

/// What a [`MediaInfo`] holds, as plain values.
pub struct MediaInfoView {
    pub title: Option<Seq<char>>,
    pub duration_seconds: Option<u64>,
    pub audio_streams: Seq<AudioStreamView>,
    pub video_streams: Seq<VideoStream>,
    pub subtitle_streams: Seq<SubtitleStreamView>,
}

impl DeepView for MediaInfo {
    type V = MediaInfoView;

    open spec fn deep_view(&self) -> MediaInfoView {
        MediaInfoView {
            title: self.title.deep_view(),
            duration_seconds: self.duration_seconds,
            audio_streams: self.audio_streams.deep_view(),
            video_streams: self.video_streams.deep_view(),
            subtitle_streams: self.subtitle_streams.deep_view(),
        }
    }
}

/// A subtitle file that was chosen from outside the media.
#[derive(Clone, Debug, PartialEq, Eq)]
pub struct ExternalSubtitle {
    pub uri: String,
    /// The last component of the file's path, where the URI names a local
    /// file whose name can be shown. A menu shows the file under this name.
    pub file_name: Option<String>,
}

/// What an [`ExternalSubtitle`] holds, as plain values.
pub struct ExternalSubtitleView {
    pub uri: Seq<char>,
    pub file_name: Option<Seq<char>>,
}

impl DeepView for ExternalSubtitle {
    type V = ExternalSubtitleView;

    open spec fn deep_view(&self) -> ExternalSubtitleView {
        ExternalSubtitleView { uri: self.uri@, file_name: self.file_name.deep_view() }
    }
}

/// Where the loaded media comes from.
#[derive(Clone, Debug, PartialEq, Eq)]
pub struct MediaSource {
    pub uri: String,
    /// The name of the local file that the URI stands for, if it stands for one.
    pub file_name: Option<String>,
    /// The subtitle file that lies beside the media under the same name, if
    /// there is one.
    pub sidecar: Option<ExternalSubtitle>,
}

/// What a [`MediaSource`] holds, as plain values.
pub struct MediaSourceView {
    pub uri: Seq<char>,
    pub file_name: Option<Seq<char>>,
    pub sidecar: Option<ExternalSubtitleView>,
}

impl DeepView for MediaSource {
    type V = MediaSourceView;

    open spec fn deep_view(&self) -> MediaSourceView {
        MediaSourceView {
            uri: self.uri@,
            file_name: self.file_name.deep_view(),
            sidecar: self.sidecar.deep_view(),
        }
    }
}

/// What the engine answered when it was asked, at the start of a turn of the
/// user-interface loop. A handler reads only what its event calls for.
#[derive(Clone, Debug, PartialEq, Eq)]
pub struct EngineReport {
    pub media_info: Option<MediaInfo>,
    pub source: Option<MediaSource>,
    /// The external subtitle file that the engine is configured with.
    pub subtitle: Option<ExternalSubtitle>,
    /// The audio visualization effects that the engine offers, whatever it plays.
    pub visualizations: Vec<Visualization>,
    /// The playback position in whole seconds, where the engine knows it.
    pub position_seconds: Option<u64>,
}

/// What an [`EngineReport`] holds, as plain values.
pub struct EngineReportView {
    pub media_info: Option<MediaInfoView>,
    pub source: Option<MediaSourceView>,
    pub subtitle: Option<ExternalSubtitleView>,
    pub visualizations: Seq<VisualizationView>,
    pub position_seconds: Option<u64>,
}

impl DeepView for EngineReport {
    type V = EngineReportView;

    open spec fn deep_view(&self) -> EngineReportView {
        EngineReportView {
            media_info: self.media_info.deep_view(),
            source: self.source.deep_view(),
            subtitle: self.subtitle.deep_view(),
            visualizations: self.visualizations.deep_view(),
            position_seconds: self.position_seconds,
        }
    }
}

impl EngineReport {
    /// The report of an engine that was asked nothing.
    pub fn nothing() -> (report: EngineReport)
        ensures
            report.deep_view() == (EngineReportView {
                media_info: None,
                source: None,
                subtitle: None,
                visualizations: Seq::empty(),
                position_seconds: None,
            }),
    {
        let report = EngineReport {
            media_info: None,
            source: None,
            subtitle: None,
            visualizations: Vec::new(),
            position_seconds: None,
        };
        assert(report.visualizations.deep_view() =~= Seq::<VisualizationView>::empty());
        report
    }
}

/// An audio visualization effect that the engine offers.
#[derive(Clone, Debug, PartialEq, Eq)]
pub struct Visualization {
    pub name: String,
    pub description: String,
}

/// What a [`Visualization`] holds, as plain values.
pub struct VisualizationView {
    pub name: Seq<char>,
    pub description: Seq<char>,
}

impl DeepView for Visualization {
    type V = VisualizationView;

    open spec fn deep_view(&self) -> VisualizationView {
        VisualizationView { name: self.name@, description: self.description@ }
    }
}

} // verus!
