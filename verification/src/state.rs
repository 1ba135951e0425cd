//! The player's state as plain values, and the rules by which a request or an
//! event changes it and asks for commands. A rule commits a new value to an
//! action only behind the command that brings the new value about.

use crate::action::{action_default, action_name, ActionId, ActionValueView, all_actions};
use crate::channel::{
    engine_connected, events_found, forwarded, lemma_forwards_each_event_once_in_order, Polled,
    POLL_INTERVAL_MS,
};
use crate::command::{
    CommandView, commit, EngineCommandView, HostCommandView, SEEK_BACKWARD_OFFSET,
    SEEK_FORWARD_OFFSET, SeekDirection,
};
use crate::event::{PlaybackEventView, UIActionView};
use crate::media::{
    EngineReportView, ExternalSubtitleView, MediaInfoView, MediaSourceView, SubtitleStreamView,
    VisualizationView,
};
use crate::menu::{
    audio_menu, external_selection, menu_offers, shown_external, subtitle_menu, video_menu,
    visualization_menu,
};
use crate::track_id::{
    decode_subtitle, decode_track, decode_visualization, lemma_subtitle_round_trip, subtitle_id,
    DecodeError, SubtitleTrackView,
};
use std::path::PathBuf;
use vstd::prelude::*;

verus! {

/// The platform whose start-up order the player follows.
#[derive(Clone, Copy, Debug, PartialEq, Eq)]
pub enum Platform {
    Linux,
    MacOs,
}

/// Everything the player knows, as plain values.
pub struct PlayerState {
    pub platform: Platform,
    /// Whether the program looks for a newer release of itself at start-up.
    pub self_updater: bool,
    pub fullscreen: bool,
    pub pause: bool,
    pub audio_mute: bool,
    pub subtitle: Seq<char>,
    pub audio_visualization: Seq<char>,
    pub audio_track: Seq<char>,
    pub video_track: Seq<char>,
    /// Whether the audio visualization action can be used.
    pub visualization_enabled: bool,
    /// The metadata that came with the last media information event.
    pub media_info: Option<MediaInfoView>,
    /// Whether the host was told that the player is constructed.
    pub initialized: bool,
    pub started: bool,
    /// Whether the quit sequence has run.
    pub stopped: bool,
    /// How long the bridge waits between two looks at the engine's queue,
    /// in milliseconds.
    pub poll_interval_ms: u64,
}

/// The name of the engine's cache file inside the cache directory.
pub open spec fn cache_file_name() -> Seq<char> {
    "media-cache.json"@
}

/// The tag under which the engine dumps its pipeline.
pub open spec fn pipeline_tag() -> Seq<char> {
    "glide"@
}

/// A player that was just constructed.
pub open spec fn initial_state(platform: Platform, self_updater: bool) -> PlayerState {
    PlayerState {
        platform,
        self_updater,
        fullscreen: false,
        pause: false,
        audio_mute: false,
        subtitle: ""@,
        audio_visualization: "none"@,
        audio_track: "audio-0"@,
        video_track: "video-0"@,
        visualization_enabled: true,
        media_info: None,
        initialized: false,
        started: false,
        stopped: false,
        poll_interval_ms: POLL_INTERVAL_MS,
    }
}

/// The value that an action is committed to; none for a plain action. The
/// actions that only trigger a command keep the value they were registered with.
pub open spec fn committed(s: PlayerState, action: ActionId) -> Option<ActionValueView> {
    match action {
        ActionId::Fullscreen => Some(ActionValueView::Bool(s.fullscreen)),
        ActionId::Pause => Some(ActionValueView::Bool(s.pause)),
        ActionId::AudioMute => Some(ActionValueView::Bool(s.audio_mute)),
        ActionId::Subtitle => Some(ActionValueView::Choice(s.subtitle)),
        ActionId::AudioVisualization => Some(ActionValueView::Choice(s.audio_visualization)),
        ActionId::AudioTrack => Some(ActionValueView::Choice(s.audio_track)),
        ActionId::VideoTrack => Some(ActionValueView::Choice(s.video_track)),
        _ => action_default(action),
    }
}

/// Whether an action can be used. Only the audio visualization is ever switched off.
pub open spec fn enabled(s: PlayerState, action: ActionId) -> bool {
    match action {
        ActionId::AudioVisualization => s.visualization_enabled,
        _ => true,
    }
}

/// A command for the engine, as a step.
pub open spec fn engine(command: EngineCommandView) -> CommandView {
    CommandView::Engine(command)
}

/// A command for the host, as a step.
pub open spec fn host(command: HostCommandView) -> CommandView {
    CommandView::Host(command)
}

/// The registration of every action with its first value, in order.
pub open spec fn registration_commands() -> Seq<CommandView> {
    Seq::new(
        all_actions().len(),
        |i: int|
            host(
                HostCommandView::AddAction {
                    action: all_actions()[i],
                    default: action_default(all_actions()[i]),
                },
            ),
    )
}

/// The line that reports a proposal that was not understood.
pub open spec fn rejection_line(action: ActionId, id: Seq<char>) -> Seq<char> {
    "ignoring malformed "@ + action_name(action) + " identifier: "@ + id
}

/// The line that reports an error of the engine.
pub open spec fn engine_error_line(message: Seq<char>) -> Seq<char> {
    "Internal player error: "@ + message
}

// Boolean actions: the engine or the host is told first, the flipped value
// is committed second.

/// Pause: the engine is told the committed value, and the opposite value is
/// committed.
pub open spec fn pause_commands(s: PlayerState) -> Seq<CommandView> {
    seq![
        engine(EngineCommandView::TogglePause(s.pause)),
        commit(ActionId::Pause, ActionValueView::Bool(!s.pause)),
    ]
}

/// The state after the pause action was flipped.
pub open spec fn after_pause(s: PlayerState) -> PlayerState {
    PlayerState { pause: !s.pause, ..s }
}

/// Mute: the engine is told the new value, which is then committed.
pub open spec fn mute_commands(s: PlayerState) -> Seq<CommandView> {
    seq![
        engine(EngineCommandView::ToggleMute(!s.audio_mute)),
        commit(ActionId::AudioMute, ActionValueView::Bool(!s.audio_mute)),
    ]
}

/// The state after the mute action was flipped.
pub open spec fn after_mute(s: PlayerState) -> PlayerState {
    PlayerState { audio_mute: !s.audio_mute, ..s }
}

/// Fullscreen: the host enters or leaves fullscreen, and the new value is
/// committed.
pub open spec fn fullscreen_commands(s: PlayerState) -> Seq<CommandView> {
    seq![
        host(
            if s.fullscreen {
                HostCommandView::LeaveFullscreen
            } else {
                HostCommandView::EnterFullscreen
            },
        ),
        commit(ActionId::Fullscreen, ActionValueView::Bool(!s.fullscreen)),
    ]
}

/// The state after the fullscreen action was flipped.
pub open spec fn after_fullscreen(s: PlayerState) -> PlayerState {
    PlayerState { fullscreen: !s.fullscreen, ..s }
}

/// Leaving fullscreen asks for nothing where the window is not fullscreen.
pub open spec fn leave_fullscreen_commands(s: PlayerState) -> Seq<CommandView> {
    if s.fullscreen {
        seq![
            host(HostCommandView::LeaveFullscreen),
            commit(ActionId::Fullscreen, ActionValueView::Bool(false)),
        ]
    } else {
        Seq::empty()
    }
}

/// The state after fullscreen was left.
pub open spec fn after_leave_fullscreen(s: PlayerState) -> PlayerState {
    PlayerState { fullscreen: false, ..s }
}

// Choice actions: the identifier is read first. Where it is understood, the
// engine is told and the identifier committed; where not, a line is logged
// and nothing else happens.

/// What a proposed subtitle identifier asks for.
pub open spec fn subtitle_commands(id: Seq<char>) -> Seq<CommandView> {
    match decode_subtitle(id) {
        Ok(track) => seq![
            engine(EngineCommandView::ConfigureSubtitleTrack(track)),
            commit(ActionId::Subtitle, ActionValueView::Choice(id)),
        ],
        Err(_) => seq![CommandView::Log(rejection_line(ActionId::Subtitle, id))],
    }
}

/// The state after a proposed subtitle identifier.
pub open spec fn after_subtitle(s: PlayerState, id: Seq<char>) -> PlayerState {
    match decode_subtitle(id) {
        Ok(_) => PlayerState { subtitle: id, ..s },
        Err(_) => s,
    }
}

/// What a proposed audio track identifier asks for.
pub open spec fn audio_track_commands(id: Seq<char>) -> Seq<CommandView> {
    match decode_track(id) {
        Ok(index) => seq![
            engine(EngineCommandView::SetAudioTrackIndex(index)),
            commit(ActionId::AudioTrack, ActionValueView::Choice(id)),
        ],
        Err(_) => seq![CommandView::Log(rejection_line(ActionId::AudioTrack, id))],
    }
}

/// The state after a proposed audio track identifier.
pub open spec fn after_audio_track(s: PlayerState, id: Seq<char>) -> PlayerState {
    match decode_track(id) {
        Ok(_) => PlayerState { audio_track: id, ..s },
        Err(_) => s,
    }
}

/// What a proposed video track identifier asks for.
pub open spec fn video_track_commands(id: Seq<char>) -> Seq<CommandView> {
    match decode_track(id) {
        Ok(index) => seq![
            engine(EngineCommandView::SetVideoTrackIndex(index)),
            commit(ActionId::VideoTrack, ActionValueView::Choice(id)),
        ],
        Err(_) => seq![CommandView::Log(rejection_line(ActionId::VideoTrack, id))],
    }
}

/// The state after a proposed video track identifier.
pub open spec fn after_video_track(s: PlayerState, id: Seq<char>) -> PlayerState {
    match decode_track(id) {
        Ok(_) => PlayerState { video_track: id, ..s },
        Err(_) => s,
    }
}

/// What a proposed audio visualization identifier asks for. Every
/// identifier is understood.
pub open spec fn visualization_commands(id: Seq<char>) -> Seq<CommandView> {
    seq![
        engine(EngineCommandView::SetAudioVisualization(decode_visualization(id))),
        commit(ActionId::AudioVisualization, ActionValueView::Choice(id)),
    ]
}

/// The state after a proposed audio visualization identifier.
pub open spec fn after_visualization(s: PlayerState, id: Seq<char>) -> PlayerState {
    PlayerState { audio_visualization: id, ..s }
}

/// What a proposal for an action asks for. The value of a proposal counts
/// only for the choice actions; a choice proposed without a value, and a
/// proposal for an action that is only activated, asks for nothing.
pub open spec fn proposal_commands(
    s: PlayerState,
    action: ActionId,
    value: Option<Seq<char>>,
) -> Seq<CommandView> {
    match action {
        ActionId::Fullscreen => fullscreen_commands(s),
        ActionId::Restore => leave_fullscreen_commands(s),
        ActionId::Pause => pause_commands(s),
        ActionId::SeekForward => seq![
            engine(EngineCommandView::Seek(SeekDirection::Forward(SEEK_FORWARD_OFFSET))),
        ],
        ActionId::SeekBackward => seq![
            engine(EngineCommandView::Seek(SeekDirection::Backward(SEEK_BACKWARD_OFFSET))),
        ],
        ActionId::AudioMute => mute_commands(s),
        ActionId::VolumeIncrease => seq![engine(EngineCommandView::IncreaseVolume)],
        ActionId::VolumeDecrease => seq![engine(EngineCommandView::DecreaseVolume)],
        ActionId::Subtitle => match value {
            Some(id) => subtitle_commands(id),
            None => Seq::empty(),
        },
        ActionId::AudioVisualization => match value {
            Some(id) => visualization_commands(id),
            None => Seq::empty(),
        },
        ActionId::AudioTrack => match value {
            Some(id) => audio_track_commands(id),
            None => Seq::empty(),
        },
        ActionId::VideoTrack => match value {
            Some(id) => video_track_commands(id),
            None => Seq::empty(),
        },
        _ => Seq::empty(),
    }
}

/// The state after a proposal.
pub open spec fn after_proposal(
    s: PlayerState,
    action: ActionId,
    value: Option<Seq<char>>,
) -> PlayerState {
    match action {
        ActionId::Fullscreen => after_fullscreen(s),
        ActionId::Restore => after_leave_fullscreen(s),
        ActionId::Pause => after_pause(s),
        ActionId::AudioMute => after_mute(s),
        ActionId::Subtitle => match value {
            Some(id) => after_subtitle(s, id),
            None => s,
        },
        ActionId::AudioVisualization => match value {
            Some(id) => after_visualization(s, id),
            None => s,
        },
        ActionId::AudioTrack => match value {
            Some(id) => after_audio_track(s, id),
            None => s,
        },
        ActionId::VideoTrack => match value {
            Some(id) => after_video_track(s, id),
            None => s,
        },
        _ => s,
    }
}

// The life of the player.

/// The host is told that the player is constructed, unless it was told before.
pub open spec fn post_init_commands(s: PlayerState) -> Seq<CommandView> {
    if s.initialized {
        Seq::empty()
    } else {
        seq![host(HostCommandView::PostInit)]
    }
}

/// The state after the host was told.
pub open spec fn after_post_init(s: PlayerState) -> PlayerState {
    PlayerState { initialized: true, ..s }
}

/// Start-up: the engine is registered with the place of its cache file, the
/// bridge begins to poll, a newer release is looked for where that is wanted,
/// and the host is started, except where the platform starts it by itself.
/// A second start asks for nothing.
pub open spec fn start_commands(s: PlayerState, cache_dir: Option<PathBuf>) -> Seq<CommandView> {
    if s.started {
        Seq::empty()
    } else {
        seq![
            engine(EngineCommandView::Register { cache_dir, cache_file: cache_file_name() }),
            CommandView::StartBridge(s.poll_interval_ms),
        ] + (if s.self_updater {
            seq![CommandView::CheckUpdate]
        } else {
            Seq::empty()
        }) + (if s.platform == Platform::MacOs {
            Seq::empty()
        } else {
            seq![host(HostCommandView::Start)]
        })
    }
}

/// The state after start-up.
pub open spec fn after_start(s: PlayerState) -> PlayerState {
    PlayerState { started: true, ..s }
}

/// The quit sequence: the playback position is saved, fullscreen is left, the
/// host is stopped. It runs once; a later request to quit asks for nothing.
pub open spec fn quit_commands(s: PlayerState) -> Seq<CommandView> {
    if s.stopped {
        Seq::empty()
    } else {
        seq![engine(EngineCommandView::WriteLastKnownMediaPosition)] + leave_fullscreen_commands(s)
            + seq![host(HostCommandView::Stop)]
    }
}

/// The state after the quit sequence.
pub open spec fn after_quit(s: PlayerState) -> PlayerState {
    if s.stopped {
        s
    } else {
        PlayerState { fullscreen: false, stopped: true, ..s }
    }
}

/// The line that reports that the host has no window system to run.
pub open spec fn no_ui_line() -> Seq<char> {
    "No UI implementation found"@
}

/// Registration of the player with its host, and the host's run. On the one
/// platform that wants it, the player and the host are started first.
pub open spec fn run_commands(
    s: PlayerState,
    args: Seq<Seq<char>>,
    cache_dir: Option<PathBuf>,
    has_ui: bool,
) -> Seq<CommandView> {
    (if s.platform == Platform::MacOs {
        start_commands(s, cache_dir) + seq![host(HostCommandView::Start)]
    } else {
        Seq::empty()
    }) + seq![host(HostCommandView::SetArgs(args))] + post_init_commands(s) + (if has_ui {
        seq![host(HostCommandView::Run)]
    } else {
        seq![CommandView::Log(no_ui_line())]
    })
}

/// The state after registration with the host.
pub open spec fn after_run(s: PlayerState) -> PlayerState {
    PlayerState {
        started: s.started || s.platform == Platform::MacOs,
        initialized: true,
        ..s
    }
}

// Media information.

/// The subtitle streams of the media that is known, if any is.
pub open spec fn known_subtitle_streams(info: Option<MediaInfoView>) -> Seq<SubtitleStreamView> {
    match info {
        Some(info) => info.subtitle_streams,
        None => Seq::empty(),
    }
}

/// The identifier that the subtitle action is committed to once the menu is
/// rebuilt: the entry that matches the track that is configured.
/// - Where the menu shows an external file, that file's entry: it is the
///   file that the engine is configured with.
/// - Else, where a file was configured on this occasion, `none`: that file
///   has no entry to select.
/// - Else what is committed, where it stands for a track that the rebuilt
///   menu offers.
/// - Else `none`.
pub open spec fn rebuild_selection(
    s: PlayerState,
    external: Option<ExternalSubtitleView>,
    fresh: bool,
) -> Seq<char> {
    if shown_external(external) is Some {
        external_selection(external)
    } else if !fresh && (match decode_subtitle(s.subtitle) {
        Ok(track) => menu_offers(known_subtitle_streams(s.media_info), external, track),
        Err(_) => false,
    }) {
        s.subtitle
    } else {
        subtitle_id(None)
    }
}

/// Whether a rebuild asks for the menu alone: the selection is committed
/// already, and no file without an entry was configured on this occasion.
pub open spec fn rebuild_keeps(
    s: PlayerState,
    external: Option<ExternalSubtitleView>,
    fresh: bool,
) -> bool {
    rebuild_selection(s, external, fresh) == s.subtitle && (shown_external(external) is Some
        || !fresh)
}

/// The subtitle menu is rebuilt, and the subtitle action is brought in line
/// with the entry of the track that is configured: nothing more is asked for
/// where that entry is committed already, else the selected entry is
/// proposed like a choice of the user. `fresh` tells that the external file
/// was configured on this very occasion.
pub open spec fn subtitle_refresh_commands(
    s: PlayerState,
    external: Option<ExternalSubtitleView>,
    fresh: bool,
) -> Seq<CommandView> {
    seq![
        host(
            HostCommandView::UpdateSubtitleTrackMenu(
                subtitle_menu(known_subtitle_streams(s.media_info), external),
            ),
        ),
    ] + (if rebuild_keeps(s, external, fresh) {
        Seq::empty()
    } else {
        subtitle_commands(rebuild_selection(s, external, fresh))
    })
}

/// The state after the subtitle menu was rebuilt.
pub open spec fn after_subtitle_refresh(
    s: PlayerState,
    external: Option<ExternalSubtitleView>,
    fresh: bool,
) -> PlayerState {
    if rebuild_keeps(s, external, fresh) {
        s
    } else {
        after_subtitle(s, rebuild_selection(s, external, fresh))
    }
}

/// The window title: the media's own, else the file's name, else the URI.
pub open spec fn window_title(info: MediaInfoView, source: MediaSourceView) -> Seq<char> {
    match info.title {
        Some(title) => title,
        None => match source.file_name {
            Some(name) => name,
            None => source.uri,
        },
    }
}

/// What is asked for on account of where the media comes from: the window
/// title, the end of the position slider where the duration is known, and
/// the subtitle file beside the media where there is one.
pub open spec fn source_commands(
    info: MediaInfoView,
    source: Option<MediaSourceView>,
) -> Seq<CommandView> {
    match source {
        None => Seq::empty(),
        Some(source) => seq![host(HostCommandView::SetWindowTitle(window_title(info, source)))]
            + (match info.duration_seconds {
            Some(seconds) => seq![host(HostCommandView::SetPositionRangeEnd(seconds))],
            None => Seq::empty(),
        }) + (match source.sidecar {
            Some(file) => seq![
                engine(
                    EngineCommandView::ConfigureSubtitleTrack(
                        Some(SubtitleTrackView::External(file.uri)),
                    ),
                ),
            ],
            None => Seq::empty(),
        }),
    }
}

/// The external subtitle file that the engine has once the commands above
/// are carried out: the file beside the media, else the one it had.
pub open spec fn configured_subtitle(report: EngineReportView) -> Option<ExternalSubtitleView> {
    match report.source {
        Some(source) => match source.sidecar {
            Some(file) => Some(file),
            None => report.subtitle,
        },
        None => report.subtitle,
    }
}

/// Whether the subtitle file beside the media is configured on account of
/// this media information.
pub open spec fn sidecar_configured(report: EngineReportView) -> bool {
    match report.source {
        Some(source) => source.sidecar is Some,
        None => false,
    }
}

/// A media without video offers the audio visualizations; a media with video
/// has its renderer refreshed and offers none.
pub open spec fn visualization_offer_commands(
    info: MediaInfoView,
    effects: Seq<VisualizationView>,
) -> Seq<CommandView> {
    if info.video_streams.len() == 0 {
        seq![
            host(HostCommandView::UpdateAudioVisualizationMenu(visualization_menu(effects))),
            host(HostCommandView::SetActionEnabled(ActionId::AudioVisualization, true)),
        ]
    } else {
        seq![
            engine(EngineCommandView::RefreshVideoRenderer),
            host(HostCommandView::ClearAudioVisualizationMenu),
            host(HostCommandView::SetActionEnabled(ActionId::AudioVisualization, false)),
        ]
    }
}

/// Everything that new media information asks for. Without media information
/// nothing is asked for.
pub open spec fn media_info_commands(s: PlayerState, report: EngineReportView) -> Seq<CommandView> {
    match report.media_info {
        None => Seq::empty(),
        Some(info) => source_commands(info, report.source) + subtitle_refresh_commands(
            PlayerState { media_info: Some(info), ..s },
            configured_subtitle(report),
            sidecar_configured(report),
        ) + seq![
            host(HostCommandView::UpdateAudioTrackMenu(audio_menu(info.audio_streams))),
            host(HostCommandView::UpdateVideoTrackMenu(video_menu(info.video_streams))),
        ] + visualization_offer_commands(info, report.visualizations),
    }
}

/// The state after new media information: the old metadata is gone, whatever
/// the new one holds.
pub open spec fn after_media_info(s: PlayerState, report: EngineReportView) -> PlayerState {
    match report.media_info {
        None => PlayerState { media_info: None, ..s },
        Some(info) => PlayerState {
            visualization_enabled: info.video_streams.len() == 0,
            ..after_subtitle_refresh(
                PlayerState { media_info: Some(info), ..s },
                configured_subtitle(report),
                sidecar_configured(report),
            )
        },
    }
}

// Requests that come with the answer of a file dialog.

/// Opening a media: where the user chose one, playback stops and the chosen
/// media is loaded.
pub open spec fn open_media_commands(chosen: Option<Seq<char>>) -> Seq<CommandView> {
    match chosen {
        Some(uri) => seq![engine(EngineCommandView::Stop), engine(EngineCommandView::LoadUri(uri))],
        None => Seq::empty(),
    }
}

/// The external subtitle file that the engine has after the user was asked
/// for one: the chosen file, else the one it had.
pub open spec fn subtitle_after_dialog(
    chosen: Option<ExternalSubtitleView>,
    configured: Option<ExternalSubtitleView>,
) -> Option<ExternalSubtitleView> {
    match chosen {
        Some(file) => Some(file),
        None => configured,
    }
}

/// Opening a subtitle file: where the user chose one, the engine is
/// configured with it; the subtitle menu is rebuilt either way.
pub open spec fn open_subtitle_commands(
    s: PlayerState,
    chosen: Option<ExternalSubtitleView>,
    configured: Option<ExternalSubtitleView>,
) -> Seq<CommandView> {
    (match chosen {
        Some(file) => seq![
            engine(
                EngineCommandView::ConfigureSubtitleTrack(
                    Some(SubtitleTrackView::External(file.uri)),
                ),
            ),
        ],
        None => Seq::empty(),
    }) + subtitle_refresh_commands(s, subtitle_after_dialog(chosen, configured), chosen is Some)
}

/// What the activation of an action asks for, with the file that the user
/// chose where the action asks for one. An action that works by proposals
/// asks for nothing when it is activated.
pub open spec fn activation_commands(
    s: PlayerState,
    action: ActionId,
    chosen: Option<ExternalSubtitleView>,
    configured: Option<ExternalSubtitleView>,
) -> Seq<CommandView> {
    match action {
        ActionId::About => seq![host(HostCommandView::DisplayAboutDialog)],
        ActionId::Quit => quit_commands(s),
        ActionId::DumpPipeline => seq![engine(EngineCommandView::DumpPipeline(pipeline_tag()))],
        ActionId::OpenMedia => open_media_commands(
            match chosen {
                Some(file) => Some(file.uri),
                None => None,
            },
        ),
        ActionId::OpenSubtitleFile => open_subtitle_commands(s, chosen, configured),
        _ => Seq::empty(),
    }
}

/// The state after the activation of an action.
pub open spec fn after_activation(
    s: PlayerState,
    action: ActionId,
    chosen: Option<ExternalSubtitleView>,
    configured: Option<ExternalSubtitleView>,
) -> PlayerState {
    match action {
        ActionId::Quit => after_quit(s),
        ActionId::OpenSubtitleFile => after_subtitle_refresh(
            s,
            subtitle_after_dialog(chosen, configured),
            chosen is Some,
        ),
        _ => s,
    }
}

/// What the engine is asked before an item of the loop's queue is taken up.
#[derive(Clone, Copy, Debug, PartialEq, Eq)]
pub struct Questions {
    /// The media information, the media's origin, the configured subtitle
    /// file and the visualization effects.
    pub media: bool,
    /// The playback position.
    pub position: bool,
}

/// What the engine is asked on account of an item: about the media for new
/// media information, the position for a new position, else nothing.
pub open spec fn questions(action: Option<UIActionView>) -> Questions {
    match action {
        Some(UIActionView::ForwardedEvent(PlaybackEventView::MediaInfoUpdated)) => Questions {
            media: true,
            position: false,
        },
        Some(UIActionView::ForwardedEvent(PlaybackEventView::PositionUpdated)) => Questions {
            media: false,
            position: true,
        },
        _ => Questions { media: false, position: false },
    }
}

/// A turn reads of the engine's answers only what it asked for: answers to
/// questions that were not asked change nothing.
pub proof fn lemma_turn_reads_what_it_asked(
    s: PlayerState,
    action: Option<UIActionView>,
    a: EngineReportView,
    b: EngineReportView,
)
    requires
        questions(action).media ==> a.media_info == b.media_info && a.source == b.source
            && a.subtitle == b.subtitle && a.visualizations == b.visualizations,
        questions(action).position ==> a.position_seconds == b.position_seconds,
    ensures
        turn_commands(s, action, a) == turn_commands(s, action, b),
        after_turn(s, action, a) == after_turn(s, action, b),
{
}

/// How a search for a newer release ended.
pub enum UpdateOutcomeView {
    UpToDate,
    Updated(Seq<char>),
    Failed(Seq<char>),
}

/// What the end of a search for a newer release is reported with.
pub open spec fn update_commands(outcome: UpdateOutcomeView) -> Seq<CommandView> {
    match outcome {
        UpdateOutcomeView::UpToDate => Seq::empty(),
        UpdateOutcomeView::Updated(status) => seq![
            CommandView::Log("Update succeeded: "@ + status),
        ],
        UpdateOutcomeView::Failed(reason) => seq![CommandView::Log("Update failed: "@ + reason)],
    }
}

// Dispatch.

/// The position slider is moved, where the engine knows the position.
pub open spec fn position_commands(position_seconds: Option<u64>) -> Seq<CommandView> {
    match position_seconds {
        Some(seconds) => seq![host(HostCommandView::SetPositionRangeValue(seconds))],
        None => Seq::empty(),
    }
}

/// An error of the engine is logged, and the player quits.
pub open spec fn error_commands(s: PlayerState, message: Seq<char>) -> Seq<CommandView> {
    seq![CommandView::Log(engine_error_line(message))] + quit_commands(s)
}

/// What an engine event asks for. An event of a kind that is of no concern
/// asks for nothing.
pub open spec fn event_commands(
    s: PlayerState,
    event: PlaybackEventView,
    report: EngineReportView,
) -> Seq<CommandView> {
    match event {
        PlaybackEventView::MediaInfoUpdated => media_info_commands(s, report),
        PlaybackEventView::PositionUpdated => position_commands(report.position_seconds),
        PlaybackEventView::VideoDimensionsChanged(width, height) => seq![
            host(HostCommandView::ResizeWindow(width, height)),
        ],
        PlaybackEventView::StateChanged(state) => seq![
            host(HostCommandView::PlaybackStateChanged(state)),
        ],
        PlaybackEventView::VolumeChanged(level) => seq![host(HostCommandView::VolumeChanged(level))],
        PlaybackEventView::Error(message) => error_commands(s, message),
        _ => Seq::empty(),
    }
}

/// The state after an engine event.
pub open spec fn after_event(
    s: PlayerState,
    event: PlaybackEventView,
    report: EngineReportView,
) -> PlayerState {
    match event {
        PlaybackEventView::MediaInfoUpdated => after_media_info(s, report),
        PlaybackEventView::Error(_) => after_quit(s),
        _ => s,
    }
}

/// What one turn of the user-interface loop asks for: nothing where the queue
/// was empty, the quit sequence for the request to quit, and for an event
/// what the event asks for, unless the player has quit: then it is dropped.
pub open spec fn turn_commands(
    s: PlayerState,
    action: Option<UIActionView>,
    report: EngineReportView,
) -> Seq<CommandView> {
    match action {
        None => Seq::empty(),
        Some(UIActionView::Quit) => quit_commands(s),
        Some(UIActionView::ForwardedEvent(event)) => if s.stopped {
            Seq::empty()
        } else {
            event_commands(s, event, report)
        },
    }
}

/// The state after one turn of the user-interface loop.
pub open spec fn after_turn(
    s: PlayerState,
    action: Option<UIActionView>,
    report: EngineReportView,
) -> PlayerState {
    match action {
        None => s,
        Some(UIActionView::Quit) => after_quit(s),
        Some(UIActionView::ForwardedEvent(event)) => if s.stopped {
            s
        } else {
            after_event(s, event, report)
        },
    }
}

// What holds of the rules.

/// Whether a command commits a value to an action.
pub open spec fn is_commit(command: CommandView) -> bool {
    command matches CommandView::Host(HostCommandView::SetActionState(_, _))
}

/// Whether a command has the engine or the host bring something about.
pub open spec fn is_effect(command: CommandView) -> bool {
    command is Engine || (command is Host && !is_commit(command))
}

/// Toggling the pause action twice brings its value back, and asks the
/// engine twice, first with the value that was committed and then with the
/// opposite one; each time nothing else is asked of the engine.
pub proof fn lemma_pause_twice_restores(s: PlayerState)
    ensures
        after_pause(after_pause(s)) == s,
        pause_commands(s) + pause_commands(after_pause(s)) == seq![
            engine(EngineCommandView::TogglePause(s.pause)),
            commit(ActionId::Pause, ActionValueView::Bool(!s.pause)),
            engine(EngineCommandView::TogglePause(!s.pause)),
            commit(ActionId::Pause, ActionValueView::Bool(s.pause)),
        ],
{
}

/// Leaving fullscreen while the window is not fullscreen changes nothing and
/// asks for nothing, by the action that restores the window as well.
pub proof fn lemma_leave_fullscreen_is_idle(s: PlayerState)
    requires
        !s.fullscreen,
    ensures
        after_leave_fullscreen(s) == s,
        leave_fullscreen_commands(s) == Seq::<CommandView>::empty(),
        after_proposal(s, ActionId::Restore, None) == s,
        proposal_commands(s, ActionId::Restore, None) == Seq::<CommandView>::empty(),
{
}

/// Whether a proposal is one whose identifier is not understood.
pub open spec fn is_malformed(action: ActionId, id: Seq<char>) -> bool {
    match action {
        ActionId::AudioTrack | ActionId::VideoTrack => decode_track(id) is Err,
        ActionId::Subtitle => decode_subtitle(id) is Err,
        _ => false,
    }
}

/// A proposal whose identifier is not understood leaves every committed
/// value as it was. It asks for one line in the log, and for nothing of the
/// engine or the host.
pub proof fn lemma_malformed_proposal_changes_nothing(
    s: PlayerState,
    action: ActionId,
    id: Seq<char>,
)
    requires
        is_malformed(action, id),
    ensures
        after_proposal(s, action, Some(id)) == s,
        proposal_commands(s, action, Some(id)) == seq![
            CommandView::Log(rejection_line(action, id)),
        ],
{
}

/// A value is committed only behind the command that brings it about: in
/// what a proposal asks for, a commit never comes first and never follows
/// another commit or a log line. And where a proposal changes the value of an
/// action, its last command commits that very value.
pub proof fn lemma_commit_follows_effect(
    s: PlayerState,
    action: ActionId,
    value: Option<Seq<char>>,
)
    ensures
        forall|i: int|
            0 <= i < proposal_commands(s, action, value).len() && is_commit(
                #[trigger] proposal_commands(s, action, value)[i],
            ) ==> i > 0 && is_effect(proposal_commands(s, action, value)[i - 1]),
        forall|other: ActionId|
            committed(after_proposal(s, action, value), other) != #[trigger] committed(s, other)
                ==> proposal_commands(s, action, value).len() == 2 && committed(
                after_proposal(s, action, value),
                other,
            ) is Some && proposal_commands(s, action, value).last() == commit(
                other,
                committed(after_proposal(s, action, value), other)->0,
            ),
        forall|other: ActionId|
            #[trigger] enabled(after_proposal(s, action, value), other) == enabled(s, other),
{
}

/// Without video the audio visualizations are offered: the action is enabled
/// and its menu holds "Disable" and one entry per effect. With video the menu
/// is cleared and the action disabled. Either way this is the last thing that
/// new media information asks for.
pub proof fn lemma_visualization_follows_video(s: PlayerState, report: EngineReportView)
    requires
        report.media_info is Some,
    ensures
        ({
            let info = report.media_info->0;
            let commands = media_info_commands(s, report);
            let after = after_media_info(s, report);
            let menu = visualization_menu(report.visualizations);
            if info.video_streams.len() == 0 {
                &&& enabled(after, ActionId::AudioVisualization)
                &&& commands.len() >= 2
                &&& commands[commands.len() - 2] == host(
                    HostCommandView::UpdateAudioVisualizationMenu(menu),
                )
                &&& commands.last() == host(
                    HostCommandView::SetActionEnabled(ActionId::AudioVisualization, true),
                )
                &&& menu.len() == report.visualizations.len() + 1
                &&& menu[0] == crate::menu::disable_entry("none"@)
                &&& forall|i: int|
                    0 <= i < report.visualizations.len() ==> #[trigger] menu[i + 1]
                        == crate::menu::visualization_entry(report.visualizations[i])
            } else {
                &&& !enabled(after, ActionId::AudioVisualization)
                &&& commands.len() >= 2
                &&& commands[commands.len() - 2] == host(
                    HostCommandView::ClearAudioVisualizationMenu,
                )
                &&& commands.last() == host(
                    HostCommandView::SetActionEnabled(ActionId::AudioVisualization, false),
                )
            }
        }),
{
}

/// New media information replaces the old metadata whole.
pub proof fn lemma_media_info_is_replaced(s: PlayerState, report: EngineReportView)
    ensures
        after_media_info(s, report).media_info == report.media_info,
{
}

/// After a rebuild the subtitle action is committed to the selection, in
/// every case; the rest of the state is as it was.
pub proof fn lemma_rebuild_commits_the_selection(
    s: PlayerState,
    external: Option<ExternalSubtitleView>,
    fresh: bool,
)
    ensures
        after_subtitle_refresh(s, external, fresh) == (PlayerState {
            subtitle: rebuild_selection(s, external, fresh),
            ..s
        }),
        decode_subtitle(rebuild_selection(s, external, fresh)) is Ok,
        menu_offers(
            known_subtitle_streams(s.media_info),
            external,
            decode_subtitle(rebuild_selection(s, external, fresh))->Ok_0,
        ),
{
    lemma_subtitle_round_trip(None);
    if shown_external(external) is Some {
        lemma_subtitle_round_trip(Some(SubtitleTrackView::External(external->0.uri)));
    }
}

/// An external file that the rebuilt menu shows is selected, whatever was
/// committed before and whether the file was configured on this occasion or
/// is the one that the engine reports. Where its entry is committed already
/// only the menu is asked for; else the engine is configured with the file
/// and the entry is committed last. Subtitles are never switched off.
pub proof fn lemma_shown_file_is_selected(
    s: PlayerState,
    external: Option<ExternalSubtitleView>,
    fresh: bool,
)
    requires
        shown_external(external) is Some,
    ensures
        after_subtitle_refresh(s, external, fresh).subtitle == external_selection(external),
        external_selection(external) == "ext-"@ + external->0.uri,
        s.subtitle == external_selection(external) ==> subtitle_refresh_commands(
            s,
            external,
            fresh,
        ).len() == 1,
        s.subtitle != external_selection(external) ==> {
            &&& subtitle_refresh_commands(s, external, fresh).len() == 3
            &&& subtitle_refresh_commands(s, external, fresh)[1] == engine(
                EngineCommandView::ConfigureSubtitleTrack(
                    Some(SubtitleTrackView::External(external->0.uri)),
                ),
            )
            &&& subtitle_refresh_commands(s, external, fresh)[2] == commit(
                ActionId::Subtitle,
                ActionValueView::Choice(external_selection(external)),
            )
        },
{
    lemma_subtitle_round_trip(Some(SubtitleTrackView::External(external->0.uri)));
}

/// Where the rebuilt menu shows no external file and none was configured on
/// this occasion, a committed identifier that stands for a track of the menu
/// (no subtitles, a stream that the media has) is kept: nothing changes and
/// only the menu is asked for, so no command touches the engine.
pub proof fn lemma_rebuild_keeps_the_configured_track(
    s: PlayerState,
    external: Option<ExternalSubtitleView>,
    track: Option<SubtitleTrackView>,
)
    requires
        shown_external(external) is None,
        decode_subtitle(s.subtitle) == Ok::<Option<SubtitleTrackView>, DecodeError>(track),
        menu_offers(known_subtitle_streams(s.media_info), external, track),
    ensures
        after_subtitle_refresh(s, external, false) == s,
        subtitle_refresh_commands(s, external, false) == seq![
            host(
                HostCommandView::UpdateSubtitleTrackMenu(
                    subtitle_menu(known_subtitle_streams(s.media_info), external),
                ),
            ),
        ],
{
}

/// The same media information again, with no external file shown and none
/// configured beside it, keeps a stream that the user chose: the subtitle
/// action stays as it is, and the engine is not asked to switch subtitles.
pub proof fn lemma_media_info_keeps_a_chosen_stream(
    s: PlayerState,
    report: EngineReportView,
    index: i32,
)
    requires
        report.media_info is Some,
        !sidecar_configured(report),
        shown_external(configured_subtitle(report)) is None,
        decode_subtitle(s.subtitle) == Ok::<Option<SubtitleTrackView>, DecodeError>(
            Some(SubtitleTrackView::Inband(index)),
        ),
        0 <= index < report.media_info->0.subtitle_streams.len(),
    ensures
        after_media_info(s, report).subtitle == s.subtitle,
        forall|k: int|
            0 <= k < media_info_commands(s, report).len() ==> !(#[trigger] media_info_commands(
                s,
                report,
            )[k] matches CommandView::Engine(EngineCommandView::ConfigureSubtitleTrack(_))),
        forall|k: int|
            0 <= k < media_info_commands(s, report).len() ==> !is_commit(
                #[trigger] media_info_commands(s, report)[k],
            ),
{
    let info = report.media_info->0;
    let known = PlayerState { media_info: Some(info), ..s };
    lemma_rebuild_keeps_the_configured_track(
        known,
        configured_subtitle(report),
        Some(SubtitleTrackView::Inband(index)),
    );
}

/// Where no external file is shown and what is committed stands for no track
/// of the rebuilt menu, or a file without an entry was configured on this
/// occasion, the rebuild switches subtitles off and commits `none`.
pub proof fn lemma_rebuild_defaults_to_none(
    s: PlayerState,
    external: Option<ExternalSubtitleView>,
    fresh: bool,
)
    requires
        shown_external(external) is None,
        fresh || match decode_subtitle(s.subtitle) {
            Ok(track) => !menu_offers(known_subtitle_streams(s.media_info), external, track),
            Err(_) => true,
        },
    ensures
        after_subtitle_refresh(s, external, fresh).subtitle == "none"@,
        subtitle_refresh_commands(s, external, fresh).len() == 3,
        subtitle_refresh_commands(s, external, fresh)[1] == engine(
            EngineCommandView::ConfigureSubtitleTrack(None),
        ),
        subtitle_refresh_commands(s, external, fresh)[2] == commit(
            ActionId::Subtitle,
            ActionValueView::Choice("none"@),
        ),
{
    lemma_subtitle_round_trip(None);
}

/// A rebuild that follows a rebuild of the same menu asks for the menu alone
/// and changes nothing more.
pub proof fn lemma_rebuild_twice_is_rebuild_once(
    s: PlayerState,
    external: Option<ExternalSubtitleView>,
    fresh: bool,
)
    ensures
        after_subtitle_refresh(after_subtitle_refresh(s, external, fresh), external, false)
            == after_subtitle_refresh(s, external, fresh),
        subtitle_refresh_commands(after_subtitle_refresh(s, external, fresh), external, false).len()
            == 1,
{
    lemma_rebuild_commits_the_selection(s, external, fresh);
}

/// The quit sequence runs once: it saves the position first and stops the
/// host last, and after it a request to quit and every forwarded event are
/// dropped without a command or a change.
pub proof fn lemma_quit_runs_once(
    s: PlayerState,
    event: PlaybackEventView,
    report: EngineReportView,
)
    ensures
        after_quit(s).stopped,
        !after_quit(s).fullscreen || s.stopped,
        !s.stopped ==> quit_commands(s).first() == engine(
            EngineCommandView::WriteLastKnownMediaPosition,
        ) && quit_commands(s).last() == host(HostCommandView::Stop),
        quit_commands(after_quit(s)) == Seq::<CommandView>::empty(),
        after_quit(after_quit(s)) == after_quit(s),
        turn_commands(after_quit(s), Some(UIActionView::ForwardedEvent(event)), report) == Seq::<
            CommandView,
        >::empty(),
        after_turn(after_quit(s), Some(UIActionView::ForwardedEvent(event)), report) == after_quit(
            s,
        ),
{
}

/// The host is told once that the player is constructed, and the player is
/// started once.
pub proof fn lemma_starts_once(s: PlayerState, cache_dir: Option<PathBuf>)
    ensures
        post_init_commands(after_post_init(s)) == Seq::<CommandView>::empty(),
        after_post_init(after_post_init(s)) == after_post_init(s),
        start_commands(after_start(s), cache_dir) == Seq::<CommandView>::empty(),
        after_start(after_start(s)) == after_start(s),
{
}

// Runs of turns.

/// What a run of events asks for when one after the other is dispatched,
/// each with the engine's answers for it.
pub open spec fn events_commands(
    s: PlayerState,
    events: Seq<PlaybackEventView>,
    reports: Seq<EngineReportView>,
) -> Seq<CommandView>
    decreases events.len(),
{
    if events.len() == 0 {
        Seq::empty()
    } else {
        event_commands(s, events.first(), reports.first()) + events_commands(
            after_event(s, events.first(), reports.first()),
            events.drop_first(),
            reports.drop_first(),
        )
    }
}

/// The state after a run of events was dispatched.
pub open spec fn after_events(
    s: PlayerState,
    events: Seq<PlaybackEventView>,
    reports: Seq<EngineReportView>,
) -> PlayerState
    decreases events.len(),
{
    if events.len() == 0 {
        s
    } else {
        after_events(
            after_event(s, events.first(), reports.first()),
            events.drop_first(),
            reports.drop_first(),
        )
    }
}

/// What a run of turns of the user-interface loop asks for, one turn per
/// wake-up, each taking up what it found in the queue.
pub open spec fn turns_commands(
    s: PlayerState,
    found: Seq<Option<UIActionView>>,
    reports: Seq<EngineReportView>,
) -> Seq<CommandView>
    decreases found.len(),
{
    if found.len() == 0 {
        Seq::empty()
    } else {
        turn_commands(s, found.first(), reports.first()) + turns_commands(
            after_turn(s, found.first(), reports.first()),
            found.drop_first(),
            reports.drop_first(),
        )
    }
}

/// The state after a run of turns.
pub open spec fn after_turns(
    s: PlayerState,
    found: Seq<Option<UIActionView>>,
    reports: Seq<EngineReportView>,
) -> PlayerState
    decreases found.len(),
{
    if found.len() == 0 {
        s
    } else {
        after_turns(
            after_turn(s, found.first(), reports.first()),
            found.drop_first(),
            reports.drop_first(),
        )
    }
}

/// Whether no event of a run is an error of the engine.
pub open spec fn free_of_errors(events: Seq<PlaybackEventView>) -> bool {
    forall|k: int| 0 <= k < events.len() ==> !(#[trigger] events[k] is Error)
}

/// Whether no error of the engine stands before the last event of a run.
pub open spec fn no_error_before_the_last(events: Seq<PlaybackEventView>) -> bool {
    forall|k: int| 0 <= k < events.len() - 1 ==> !(#[trigger] events[k] is Error)
}

/// The queue's items for a run of events, as the turns find them.
pub open spec fn as_found(events: Seq<PlaybackEventView>) -> Seq<Option<UIActionView>> {
    events.map_values(|event: PlaybackEventView| Some(UIActionView::ForwardedEvent(event)))
}

/// A queue that holds a run of events, with no error before the last of
/// them, is drained by as many turns: every event is dispatched exactly
/// once, in the order of the queue. After a run without any error the player
/// has not quit.
pub proof fn lemma_every_queued_event_is_dispatched_once_in_order(
    s: PlayerState,
    events: Seq<PlaybackEventView>,
    reports: Seq<EngineReportView>,
)
    requires
        !s.stopped,
        no_error_before_the_last(events),
    ensures
        turns_commands(s, as_found(events), reports) == events_commands(s, events, reports),
        after_turns(s, as_found(events), reports) == after_events(s, events, reports),
        free_of_errors(events) ==> !after_events(s, events, reports).stopped,
    decreases events.len(),
{
    if events.len() > 0 {
        let next = after_event(s, events.first(), reports.first());
        let rest = events.drop_first();
        assert(as_found(events).drop_first() =~= as_found(rest));
        assert(as_found(events).first() == Some(UIActionView::ForwardedEvent(events.first())));
        assert(after_turn(s, as_found(events).first(), reports.first()) == next);
        assert(after_events(s, events, reports) == after_events(next, rest, reports.drop_first()));
        assert(after_turns(s, as_found(events), reports) == after_turns(
            next,
            as_found(rest),
            reports.drop_first(),
        ));
        if rest.len() == 0 {
            assert(after_turns(next, as_found(rest), reports.drop_first()) == next);
            assert(after_events(next, rest, reports.drop_first()) == next);
            assert(as_found(rest) =~= Seq::<Option<UIActionView>>::empty());
            assert(turns_commands(next, as_found(rest), reports.drop_first()) =~= Seq::<
                CommandView,
            >::empty());
            assert(events_commands(next, rest, reports.drop_first()) =~= Seq::<
                CommandView,
            >::empty());
            if free_of_errors(events) {
                assert(!(events[0] is Error));
            }
        } else {
            assert(!(events[0] is Error));
            assert(no_error_before_the_last(rest)) by {
                assert forall|k: int| 0 <= k < rest.len() - 1 implies !(#[trigger] rest[k]
                    is Error) by {
                    assert(rest[k] == events[k + 1]);
                }
            }
            if free_of_errors(events) {
                assert(free_of_errors(rest)) by {
                    assert forall|k: int| 0 <= k < rest.len() implies !(#[trigger] rest[k]
                        is Error) by {
                        assert(rest[k] == events[k + 1]);
                    }
                }
            }
            lemma_every_queued_event_is_dispatched_once_in_order(next, rest, reports.drop_first());
        }
    }
}

/// Once the player has quit, a run of turns drops whatever it finds: nothing
/// is asked for and nothing changes.
pub proof fn lemma_turns_after_quit_drop_everything(
    s: PlayerState,
    found: Seq<Option<UIActionView>>,
    reports: Seq<EngineReportView>,
)
    requires
        s.stopped,
    ensures
        turns_commands(s, found, reports) == Seq::<CommandView>::empty(),
        after_turns(s, found, reports) == s,
    decreases found.len(),
{
    if found.len() > 0 {
        lemma_turns_after_quit_drop_everything(s, found.drop_first(), reports.drop_first());
    }
}

/// From the engine to the handlers: while the engine is there, the events
/// that the bridge finds, with no error before the last of them, are
/// dispatched by as many turns as the bridge asked wake-ups for, each
/// exactly once and in the order in which the bridge found them.
pub proof fn lemma_found_events_reach_their_handlers_in_order(
    s: PlayerState,
    polls: Seq<Polled<PlaybackEventView>>,
    reports: Seq<EngineReportView>,
)
    requires
        !s.stopped,
        engine_connected(polls),
        no_error_before_the_last(events_found(polls)),
    ensures
        forwarded(polls).len() == events_found(polls).len(),
        turns_commands(
            s,
            forwarded(polls).map_values(|action: UIActionView| Some(action)),
            reports,
        ) == events_commands(s, events_found(polls), reports),
        after_turns(s, forwarded(polls).map_values(|action: UIActionView| Some(action)), reports)
            == after_events(s, events_found(polls), reports),
{
    lemma_forwards_each_event_once_in_order(polls);
    lemma_every_queued_event_is_dispatched_once_in_order(s, events_found(polls), reports);
    assert(forwarded(polls).map_values(|action: UIActionView| Some(action)) =~= as_found(
        events_found(polls),
    ));
}

} // verus!
