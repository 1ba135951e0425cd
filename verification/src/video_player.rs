//! The player: the single owner of the action values, of the media metadata
//! and of the two queues. Every handler runs to its end on the thread of the
//! user-interface loop and hands back the commands that it asks for.

use crate::action::{action_named, ActionId, ActionValue};
use crate::channel::{
    clone_receiver, clone_sender, EventBridge, open_channel, pending_action, POLL_INTERVAL_MS,
    try_receive,
};
use crate::command::{
    Command, CommandView, EngineCommand, EngineCommandView, HostCommand, HostCommandView,
    no_commands, push_command, push_commands, SEEK_BACKWARD_OFFSET, SEEK_FORWARD_OFFSET,
    SeekDirection,
};
use crate::event::{PlaybackEvent, PlaybackState, UIAction};
use crate::media::{
    EngineReport, ExternalSubtitle, MediaInfo, MediaSource, SubtitleStream, SubtitleStreamView,
    Visualization,
};
use crate::menu::{
    audio_menu, build_audio_menu, build_subtitle_menu, build_video_menu, build_visualization_menu,
    external_selection_id, subtitle_menu_offers, video_menu, visualization_menu,
};
use crate::state::{
    sidecar_configured,
    activation_commands, after_activation, after_event, after_fullscreen, after_leave_fullscreen,
    after_media_info, after_mute, after_pause, after_post_init, after_proposal, after_quit,
    after_run, after_start, after_subtitle_refresh, after_turn, committed, configured_subtitle,
    enabled, engine, error_commands, event_commands, fullscreen_commands, host, initial_state,
    leave_fullscreen_commands, media_info_commands, mute_commands, open_media_commands,
    open_subtitle_commands, pause_commands, pipeline_tag, Platform, PlayerState, position_commands,
    post_init_commands, proposal_commands, Questions, questions, quit_commands,
    registration_commands, rejection_line, run_commands, source_commands, start_commands,
    subtitle_after_dialog, subtitle_refresh_commands, turn_commands, update_commands,
    UpdateOutcomeView, visualization_offer_commands,
};
use crate::text::{join2, str_eq};
use crate::track_id::{decode_subtitle_id, decode_track_id, decode_visualization_id, SubtitleTrack};
use crossbeam_channel::{Receiver, Sender};
use directories::ProjectDirs;
use std::marker::PhantomData;
use std::path::PathBuf;
use std::rc::Rc;
use vstd::prelude::*;

verus! {

/// How a search for a newer release ended, with the words to report it in.
#[derive(Clone, Debug, PartialEq, Eq)]
pub enum UpdateOutcome {
    UpToDate,
    Updated(String),
    Failed(String),
}

impl DeepView for UpdateOutcome {
    type V = UpdateOutcomeView;

    open spec fn deep_view(&self) -> UpdateOutcomeView {
        match self {
            UpdateOutcome::UpToDate => UpdateOutcomeView::UpToDate,
            UpdateOutcome::Updated(status) => UpdateOutcomeView::Updated(status@),
            UpdateOutcome::Failed(reason) => UpdateOutcomeView::Failed(reason@),
        }
    }
}

/// `directories::ProjectDirs::from`, then `cache_dir` of what it returns: the
/// cache directory that the platform gives a program of this name, as the
/// path it is. It depends on the user's environment, so nothing is claimed
/// of it.
#[verifier::external_body]
fn project_cache_dir(qualifier: &str, organization: &str, application: &str) -> (dir: Option<
    PathBuf,
>) {
    match ProjectDirs::from(qualifier, organization, application) {
        Some(dirs) => Some(dirs.cache_dir().to_path_buf()),
        None => None,
    }
}

/// The player. It belongs to the thread of the user-interface loop: its
/// type can be neither sent to another thread nor shared with one. What
/// another thread needs, it gets as a queue end of its own.
pub struct VideoPlayer {
    platform: Platform,
    self_updater: bool,
    fullscreen: bool,
    pause: bool,
    audio_mute: bool,
    subtitle: String,
    audio_visualization: String,
    audio_track: String,
    video_track: String,
    visualization_enabled: bool,
    media_info: Option<MediaInfo>,
    initialized: bool,
    started: bool,
    stopped: bool,
    poll_interval_ms: u64,
    sender: Sender<UIAction>,
    receiver: Receiver<UIAction>,
    event_sender: Option<Sender<PlaybackEvent>>,
    event_receiver: Receiver<PlaybackEvent>,
    confined: PhantomData<Rc<()>>,
}

impl View for VideoPlayer {
    type V = PlayerState;

    closed spec fn view(&self) -> PlayerState {
        PlayerState {
            platform: self.platform,
            self_updater: self.self_updater,
            fullscreen: self.fullscreen,
            pause: self.pause,
            audio_mute: self.audio_mute,
            subtitle: self.subtitle@,
            audio_visualization: self.audio_visualization@,
            audio_track: self.audio_track@,
            video_track: self.video_track@,
            visualization_enabled: self.visualization_enabled,
            media_info: self.media_info.deep_view(),
            initialized: self.initialized,
            started: self.started,
            stopped: self.stopped,
            poll_interval_ms: self.poll_interval_ms,
        }
    }
}

fn engine_command(command: EngineCommand) -> (wrapped: Command)
    ensures
        wrapped.deep_view() == engine(command.deep_view()),
{
    Command::Engine(command)
}

fn host_command(command: HostCommand) -> (wrapped: Command)
    ensures
        wrapped.deep_view() == host(command.deep_view()),
{
    Command::Host(command)
}

fn commit_choice(action: ActionId, id: &str) -> (wrapped: Command)
    ensures
        wrapped.deep_view() == crate::command::commit(
            action,
            crate::action::ActionValueView::Choice(id@),
        ),
{
    Command::Host(HostCommand::SetActionState(action, ActionValue::Choice(String::from_str(id))))
}

fn commit_bool(action: ActionId, on: bool) -> (wrapped: Command)
    ensures
        wrapped.deep_view() == crate::command::commit(
            action,
            crate::action::ActionValueView::Bool(on),
        ),
{
    Command::Host(HostCommand::SetActionState(action, ActionValue::Bool(on)))
}

fn rejection(action: ActionId, id: &str) -> (wrapped: Command)
    ensures
        wrapped.deep_view() == CommandView::Log(rejection_line(action, id@)),
{
    let mut line = String::from_str("ignoring malformed ");
    line.append(action.name());
    line.append(" identifier: ");
    line.append(id);
    Command::Log(line)
}

impl VideoPlayer {
    /// Makes a player with every action at its first value, and asks for the
    /// registration of the actions.
    pub fn new(platform: Platform, self_updater: bool) -> (made: (VideoPlayer, Vec<Command>))
        ensures
            made.0@ == initial_state(platform, self_updater),
            made.0.holds_event_sender(),
            made.1.deep_view() == registration_commands(),
    {
        let mut commands = no_commands();
        let mut position: usize = 0;
        while position < 17
            invariant
                position <= 17,
                crate::action::all_actions().len() == 17,
                commands.deep_view() == registration_commands().take(position as int),
            decreases 17 - position,
        {
            match ActionId::at(position) {
                Some(action) => {
                    let default = action.default_value();
                    push_command(
                        &mut commands,
                        host_command(HostCommand::AddAction { action, default }),
                    );
                },
                None => {},
            }
            assert(commands.deep_view() =~= registration_commands().take(position + 1));
            position += 1;
        }
        assert(registration_commands().take(17) =~= registration_commands());
        let (sender, receiver) = open_channel::<UIAction>();
        let (event_sender, event_receiver) = open_channel::<PlaybackEvent>();
        let player = VideoPlayer {
            platform,
            self_updater,
            fullscreen: false,
            pause: false,
            audio_mute: false,
            subtitle: String::from_str(""),
            audio_visualization: String::from_str("none"),
            audio_track: String::from_str("audio-0"),
            video_track: String::from_str("video-0"),
            visualization_enabled: true,
            media_info: None,
            initialized: false,
            started: false,
            stopped: false,
            poll_interval_ms: POLL_INTERVAL_MS,
            sender,
            receiver,
            event_sender: Some(event_sender),
            event_receiver,
            confined: PhantomData,
        };
        (player, commands)
    }

    /// Sets how long the bridge waits between two looks at the engine's
    /// queue, in milliseconds. A bridge that was started keeps its interval.
    pub fn set_poll_interval(&mut self, interval_ms: u64)
        ensures
            final(self).keeps_queues_of(*old(self)),
            final(self)@ == (PlayerState { poll_interval_ms: interval_ms, ..old(self)@ }),
    {
        self.poll_interval_ms = interval_ms;
    }

    /// The interval that a bridge is started with, in milliseconds.
    pub fn poll_interval(&self) -> (interval_ms: u64)
        ensures
            interval_ms == self@.poll_interval_ms,
    {
        self.poll_interval_ms
    }

    /// Nothing is left to set up once the player is made.
    pub fn setup(&mut self)
        ensures
            final(self).keeps_queues_of(*old(self)),
            final(self)@ == old(self)@,
    {
    }

    /// Tells the host, once, that the player is constructed.
    pub fn post_init(&mut self) -> (commands: Vec<Command>)
        ensures
            final(self).keeps_queues_of(*old(self)),
            final(self)@ == after_post_init(old(self)@),
            commands.deep_view() == post_init_commands(old(self)@),
    {
        let mut commands = no_commands();
        if !self.initialized {
            push_command(&mut commands, host_command(HostCommand::PostInit));
            self.initialized = true;
        }
        commands
    }

    /// Leaves fullscreen, where the window is fullscreen.
    pub fn leave_fullscreen(&mut self) -> (commands: Vec<Command>)
        ensures
            final(self).keeps_queues_of(*old(self)),
            final(self)@ == after_leave_fullscreen(old(self)@),
            commands.deep_view() == leave_fullscreen_commands(old(self)@),
            !old(self)@.fullscreen ==> final(self)@ == old(self)@ && commands.deep_view().len() == 0,
    {
        let mut commands = no_commands();
        if self.fullscreen {
            push_command(&mut commands, host_command(HostCommand::LeaveFullscreen));
            push_command(&mut commands, commit_bool(ActionId::Fullscreen, false));
            self.fullscreen = false;
        }
        commands
    }

    /// Runs the quit sequence, unless it has run before.
    pub fn quit(&mut self) -> (commands: Vec<Command>)
        ensures
            final(self).keeps_queues_of(*old(self)),
            final(self)@ == after_quit(old(self)@),
            commands.deep_view() == quit_commands(old(self)@),
    {
        let mut commands = no_commands();
        if !self.stopped {
            push_command(&mut commands, engine_command(EngineCommand::WriteLastKnownMediaPosition));
            let leave = self.leave_fullscreen();
            push_commands(&mut commands, leave);
            push_command(&mut commands, host_command(HostCommand::Stop));
            self.stopped = true;
        }
        commands
    }

    /// Starts the player with the cache directory `cache_dir`.
    pub fn start_in(&mut self, cache_dir: Option<PathBuf>) -> (commands: Vec<Command>)
        ensures
            final(self).keeps_queues_of(*old(self)),
            final(self)@ == after_start(old(self)@),
            commands.deep_view() == start_commands(old(self)@, cache_dir),
    {
        let mut commands = no_commands();
        if !self.started {
            push_command(
                &mut commands,
                engine_command(
                    EngineCommand::Register {
                        cache_dir,
                        cache_file: String::from_str("media-cache.json"),
                    },
                ),
            );
            push_command(&mut commands, Command::StartBridge(self.poll_interval_ms));
            if self.self_updater {
                push_command(&mut commands, Command::CheckUpdate);
            }
            match self.platform {
                Platform::MacOs => {},
                Platform::Linux => {
                    push_command(&mut commands, host_command(HostCommand::Start));
                },
            }
            self.started = true;
        }
        commands
    }

    /// Starts the player with the cache directory that the platform gives
    /// this program, whichever that is.
    pub fn start(&mut self) -> (commands: Vec<Command>)
        ensures
            final(self).keeps_queues_of(*old(self)),
            final(self)@ == after_start(old(self)@),
            exists|cache_dir: Option<PathBuf>|
                commands.deep_view() == #[trigger] start_commands(old(self)@, cache_dir),
    {
        let cache_dir = project_cache_dir("net", "baseart", "Glide");
        self.start_in(cache_dir)
    }

    /// Flips the pause action.
    pub fn toggle_pause(&mut self) -> (commands: Vec<Command>)
        ensures
            final(self).keeps_queues_of(*old(self)),
            final(self)@ == after_pause(old(self)@),
            commands.deep_view() == pause_commands(old(self)@),
    {
        let mut commands = no_commands();
        push_command(&mut commands, engine_command(EngineCommand::TogglePause(self.pause)));
        push_command(&mut commands, commit_bool(ActionId::Pause, !self.pause));
        self.pause = !self.pause;
        commands
    }

    /// Flips the mute action.
    pub fn toggle_mute(&mut self) -> (commands: Vec<Command>)
        ensures
            final(self).keeps_queues_of(*old(self)),
            final(self)@ == after_mute(old(self)@),
            commands.deep_view() == mute_commands(old(self)@),
    {
        let mut commands = no_commands();
        push_command(&mut commands, engine_command(EngineCommand::ToggleMute(!self.audio_mute)));
        push_command(&mut commands, commit_bool(ActionId::AudioMute, !self.audio_mute));
        self.audio_mute = !self.audio_mute;
        commands
    }

    /// Flips the fullscreen action.
    pub fn toggle_fullscreen(&mut self) -> (commands: Vec<Command>)
        ensures
            final(self).keeps_queues_of(*old(self)),
            final(self)@ == after_fullscreen(old(self)@),
            commands.deep_view() == fullscreen_commands(old(self)@),
    {
        let mut commands = no_commands();
        if self.fullscreen {
            push_command(&mut commands, host_command(HostCommand::LeaveFullscreen));
        } else {
            push_command(&mut commands, host_command(HostCommand::EnterFullscreen));
        }
        push_command(&mut commands, commit_bool(ActionId::Fullscreen, !self.fullscreen));
        self.fullscreen = !self.fullscreen;
        commands
    }

    /// Takes up a proposed subtitle identifier; without a value nothing happens.
    pub fn update_subtitle_track(&mut self, value: Option<&str>) -> (commands: Vec<Command>)
        ensures
            final(self).keeps_queues_of(*old(self)),
            final(self)@ == after_proposal(old(self)@, ActionId::Subtitle, value.deep_view()),
            commands.deep_view() == proposal_commands(
                old(self)@,
                ActionId::Subtitle,
                value.deep_view(),
            ),
    {
        match value {
            None => no_commands(),
            Some(id) => {
                let mut commands = no_commands();
                match decode_subtitle_id(id) {
                    Ok(track) => {
                        push_command(
                            &mut commands,
                            engine_command(EngineCommand::ConfigureSubtitleTrack(track)),
                        );
                        push_command(&mut commands, commit_choice(ActionId::Subtitle, id));
                        self.subtitle = String::from_str(id);
                    },
                    Err(_) => {
                        push_command(&mut commands, rejection(ActionId::Subtitle, id));
                    },
                }
                commands
            },
        }
    }

    /// Takes up a proposed audio track identifier.
    pub fn update_audio_track(&mut self, value: Option<&str>) -> (commands: Vec<Command>)
        ensures
            final(self).keeps_queues_of(*old(self)),
            final(self)@ == after_proposal(old(self)@, ActionId::AudioTrack, value.deep_view()),
            commands.deep_view() == proposal_commands(
                old(self)@,
                ActionId::AudioTrack,
                value.deep_view(),
            ),
    {
        match value {
            None => no_commands(),
            Some(id) => {
                let mut commands = no_commands();
                match decode_track_id(id) {
                    Ok(index) => {
                        push_command(
                            &mut commands,
                            engine_command(EngineCommand::SetAudioTrackIndex(index)),
                        );
                        push_command(&mut commands, commit_choice(ActionId::AudioTrack, id));
                        self.audio_track = String::from_str(id);
                    },
                    Err(_) => {
                        push_command(&mut commands, rejection(ActionId::AudioTrack, id));
                    },
                }
                commands
            },
        }
    }

    /// Takes up a proposed video track identifier.
    pub fn update_video_track(&mut self, value: Option<&str>) -> (commands: Vec<Command>)
        ensures
            final(self).keeps_queues_of(*old(self)),
            final(self)@ == after_proposal(old(self)@, ActionId::VideoTrack, value.deep_view()),
            commands.deep_view() == proposal_commands(
                old(self)@,
                ActionId::VideoTrack,
                value.deep_view(),
            ),
    {
        match value {
            None => no_commands(),
            Some(id) => {
                let mut commands = no_commands();
                match decode_track_id(id) {
                    Ok(index) => {
                        push_command(
                            &mut commands,
                            engine_command(EngineCommand::SetVideoTrackIndex(index)),
                        );
                        push_command(&mut commands, commit_choice(ActionId::VideoTrack, id));
                        self.video_track = String::from_str(id);
                    },
                    Err(_) => {
                        push_command(&mut commands, rejection(ActionId::VideoTrack, id));
                    },
                }
                commands
            },
        }
    }

    /// Takes up a proposed audio visualization identifier.
    pub fn update_audio_visualization(&mut self, value: Option<&str>) -> (commands: Vec<Command>)
        ensures
            final(self).keeps_queues_of(*old(self)),
            final(self)@ == after_proposal(
                old(self)@,
                ActionId::AudioVisualization,
                value.deep_view(),
            ),
            commands.deep_view() == proposal_commands(
                old(self)@,
                ActionId::AudioVisualization,
                value.deep_view(),
            ),
    {
        match value {
            None => no_commands(),
            Some(id) => {
                let mut commands = no_commands();
                let effect = decode_visualization_id(id);
                push_command(
                    &mut commands,
                    engine_command(EngineCommand::SetAudioVisualization(effect)),
                );
                push_command(&mut commands, commit_choice(ActionId::AudioVisualization, id));
                self.audio_visualization = String::from_str(id);
                commands
            },
        }
    }

    /// Takes up a proposal for an action: a request of the user or the host
    /// to change what the action is committed to.
    pub fn propose(&mut self, action: ActionId, value: Option<&str>) -> (commands: Vec<Command>)
        ensures
            final(self).keeps_queues_of(*old(self)),
            final(self)@ == after_proposal(old(self)@, action, value.deep_view()),
            commands.deep_view() == proposal_commands(old(self)@, action, value.deep_view()),
    {
        match action {
            ActionId::Fullscreen => self.toggle_fullscreen(),
            ActionId::Restore => self.leave_fullscreen(),
            ActionId::Pause => self.toggle_pause(),
            ActionId::SeekForward => {
                let mut commands = no_commands();
                push_command(
                    &mut commands,
                    engine_command(
                        EngineCommand::Seek(SeekDirection::Forward(SEEK_FORWARD_OFFSET)),
                    ),
                );
                commands
            },
            ActionId::SeekBackward => {
                let mut commands = no_commands();
                push_command(
                    &mut commands,
                    engine_command(
                        EngineCommand::Seek(SeekDirection::Backward(SEEK_BACKWARD_OFFSET)),
                    ),
                );
                commands
            },
            ActionId::AudioMute => self.toggle_mute(),
            ActionId::VolumeIncrease => {
                let mut commands = no_commands();
                push_command(&mut commands, engine_command(EngineCommand::IncreaseVolume));
                commands
            },
            ActionId::VolumeDecrease => {
                let mut commands = no_commands();
                push_command(&mut commands, engine_command(EngineCommand::DecreaseVolume));
                commands
            },
            ActionId::Subtitle => self.update_subtitle_track(value),
            ActionId::AudioVisualization => self.update_audio_visualization(value),
            ActionId::AudioTrack => self.update_audio_track(value),
            ActionId::VideoTrack => self.update_video_track(value),
            _ => no_commands(),
        }
    }

    /// Takes up a proposal for the action that goes by `name`. A name that no
    /// action has asks for nothing.
    pub fn propose_named(&mut self, name: &str, value: Option<&str>) -> (commands: Vec<Command>)
        ensures
            final(self).keeps_queues_of(*old(self)),
            match action_named(name@) {
                Some(action) => final(self)@ == after_proposal(
                    old(self)@,
                    action,
                    value.deep_view(),
                ) && commands.deep_view() == proposal_commands(
                    old(self)@,
                    action,
                    value.deep_view(),
                ),
                None => final(self)@ == old(self)@ && commands.deep_view() == Seq::<
                    CommandView,
                >::empty(),
            },
    {
        match ActionId::from_name(name) {
            Some(action) => self.propose(action, value),
            None => no_commands(),
        }
    }

    /// Asks for the audio track menu of `info`.
    pub fn fill_audio_track_menu(&self, info: &MediaInfo) -> (commands: Vec<Command>)
        ensures
            commands.deep_view() == seq![
                host(HostCommandView::UpdateAudioTrackMenu(audio_menu(info.deep_view().audio_streams))),
            ],
    {
        let mut commands = no_commands();
        let entries = build_audio_menu(&info.audio_streams);
        push_command(&mut commands, host_command(HostCommand::UpdateAudioTrackMenu(entries)));
        commands
    }

    /// Asks for the video track menu of `info`.
    pub fn fill_video_track_menu(&self, info: &MediaInfo) -> (commands: Vec<Command>)
        ensures
            commands.deep_view() == seq![
                host(HostCommandView::UpdateVideoTrackMenu(video_menu(info.deep_view().video_streams))),
            ],
    {
        let mut commands = no_commands();
        let entries = build_video_menu(&info.video_streams);
        push_command(&mut commands, host_command(HostCommand::UpdateVideoTrackMenu(entries)));
        commands
    }

    /// Asks for the audio visualization menu of the effects that the engine offers.
    pub fn fill_audio_visualization_menu(&self, effects: &Vec<Visualization>) -> (commands: Vec<
        Command,
    >)
        ensures
            commands.deep_view() == seq![
                host(
                    HostCommandView::UpdateAudioVisualizationMenu(
                        visualization_menu(effects.deep_view()),
                    ),
                ),
            ],
    {
        let mut commands = no_commands();
        let entries = build_visualization_menu(effects);
        push_command(
            &mut commands,
            host_command(HostCommand::UpdateAudioVisualizationMenu(entries)),
        );
        commands
    }

    /// Rebuilds the subtitle menu for the media that is known and the
    /// external subtitle file that the engine reports, and brings the
    /// subtitle action in line with the track that is configured: a choice
    /// that the rebuilt menu still offers is kept.
    pub fn refresh_subtitle_track_menu(&mut self, external: &Option<ExternalSubtitle>) -> (commands:
        Vec<Command>)
        ensures
            final(self).keeps_queues_of(*old(self)),
            final(self)@ == after_subtitle_refresh(old(self)@, external.deep_view(), false),
            commands.deep_view() == subtitle_refresh_commands(
                old(self)@,
                external.deep_view(),
                false,
            ),
    {
        self.rebuild_subtitle_menu(external, false)
    }

    /// Rebuilds the subtitle menu; `fresh` tells that the external file was
    /// configured on this very occasion.
    fn rebuild_subtitle_menu(&mut self, external: &Option<ExternalSubtitle>, fresh: bool) -> (commands:
        Vec<Command>)
        ensures
            final(self)@ == after_subtitle_refresh(old(self)@, external.deep_view(), fresh),
            commands.deep_view() == subtitle_refresh_commands(
                old(self)@,
                external.deep_view(),
                fresh,
            ),
            final(self).keeps_queues_of(*old(self)),
    {
        let mut commands = no_commands();
        let none: Vec<SubtitleStream> = Vec::new();
        assert(none.deep_view() =~= Seq::<SubtitleStreamView>::empty());
        let streams = match &self.media_info {
            Some(info) => &info.subtitle_streams,
            None => &none,
        };
        let entries = build_subtitle_menu(streams, external);
        let shown = match external {
            Some(file) => file.file_name.is_some(),
            None => false,
        };
        let offered = match decode_subtitle_id(self.subtitle.as_str()) {
            Ok(track) => subtitle_menu_offers(streams, external, &track),
            Err(_) => false,
        };
        push_command(&mut commands, host_command(HostCommand::UpdateSubtitleTrackMenu(entries)));
        let selection = if shown {
            external_selection_id(external)
        } else if !fresh && offered {
            self.subtitle.clone()
        } else {
            String::from_str("none")
        };
        let committed = str_eq(selection.as_str(), self.subtitle.as_str());
        if !(committed && (shown || !fresh)) {
            let update = self.update_subtitle_track(Some(selection.as_str()));
            push_commands(&mut commands, update);
        }
        commands
    }

    /// Asks for what the media's origin calls for, and tells which external
    /// subtitle file the engine has afterwards.
    fn source_updated(
        info: &MediaInfo,
        source: Option<MediaSource>,
        subtitle: Option<ExternalSubtitle>,
    ) -> (out: (Vec<Command>, Option<ExternalSubtitle>, bool))
        ensures
            out.0.deep_view() == source_commands(info.deep_view(), source.deep_view()),
            out.2 == match source.deep_view() {
                Some(source) => source.sidecar is Some,
                None => false,
            },
            out.1.deep_view() == match source.deep_view() {
                Some(source) => match source.sidecar {
                    Some(file) => Some(file),
                    None => subtitle.deep_view(),
                },
                None => subtitle.deep_view(),
            },
    {
        let mut commands = no_commands();
        match source {
            None => (commands, subtitle, false),
            Some(source) => {
                let title = match &info.title {
                    Some(title) => title.clone(),
                    None => match &source.file_name {
                        Some(name) => name.clone(),
                        None => source.uri.clone(),
                    },
                };
                push_command(&mut commands, host_command(HostCommand::SetWindowTitle(title)));
                match info.duration_seconds {
                    Some(seconds) => {
                        push_command(
                            &mut commands,
                            host_command(HostCommand::SetPositionRangeEnd(seconds)),
                        );
                    },
                    None => {},
                }
                match source.sidecar {
                    Some(file) => {
                        push_command(
                            &mut commands,
                            engine_command(
                                EngineCommand::ConfigureSubtitleTrack(
                                    Some(SubtitleTrack::External(file.uri.clone())),
                                ),
                            ),
                        );
                        (commands, Some(file), true)
                    },
                    None => (commands, subtitle, false),
                }
            },
        }
    }

    /// Offers the audio visualizations for a media without video, and
    /// withdraws them for a media with video.
    fn offer_visualizations(&mut self, info: &MediaInfo, effects: &Vec<Visualization>) -> (commands:
        Vec<Command>)
        ensures
            final(self).keeps_queues_of(*old(self)),
            final(self)@ == (PlayerState {
                visualization_enabled: info.deep_view().video_streams.len() == 0,
                ..old(self)@
            }),
            commands.deep_view() == visualization_offer_commands(
                info.deep_view(),
                effects.deep_view(),
            ),
    {
        let mut commands = no_commands();
        let no_video = info.video_streams.len() == 0;
        if no_video {
            let menu = self.fill_audio_visualization_menu(effects);
            push_commands(&mut commands, menu);
            push_command(
                &mut commands,
                host_command(HostCommand::SetActionEnabled(ActionId::AudioVisualization, true)),
            );
        } else {
            push_command(&mut commands, engine_command(EngineCommand::RefreshVideoRenderer));
            push_command(&mut commands, host_command(HostCommand::ClearAudioVisualizationMenu));
            push_command(
                &mut commands,
                host_command(HostCommand::SetActionEnabled(ActionId::AudioVisualization, false)),
            );
        }
        self.visualization_enabled = no_video;
        commands
    }

    /// Takes up new media information: the metadata is replaced, and the
    /// window and every menu are brought in line with it.
    pub fn media_info_updated(&mut self, report: EngineReport) -> (commands: Vec<Command>)
        ensures
            final(self).keeps_queues_of(*old(self)),
            final(self)@ == after_media_info(old(self)@, report.deep_view()),
            commands.deep_view() == media_info_commands(old(self)@, report.deep_view()),
    {
        let ghost incoming = report.deep_view();
        let EngineReport { media_info, source, subtitle, visualizations, position_seconds: _ } =
            report;
        match media_info {
            None => {
                self.media_info = None;
                no_commands()
            },
            Some(info) => {
                let ghost facts = info.deep_view();
                let (mut commands, configured, fresh) = VideoPlayer::source_updated(
                    &info,
                    source,
                    subtitle,
                );
                let audio = self.fill_audio_track_menu(&info);
                let video = self.fill_video_track_menu(&info);
                let offer = self.offer_visualizations(&info, &visualizations);
                self.media_info = Some(info);
                let ghost known = self@;
                let refresh = self.rebuild_subtitle_menu(&configured, fresh);
                let ghost first = commands.deep_view();
                push_commands(&mut commands, refresh);
                push_commands(&mut commands, audio);
                push_commands(&mut commands, video);
                push_commands(&mut commands, offer);
                proof {
                    let menus = seq![
                        host(HostCommandView::UpdateAudioTrackMenu(audio_menu(facts.audio_streams))),
                        host(HostCommandView::UpdateVideoTrackMenu(video_menu(facts.video_streams))),
                    ];
                    assert(audio.deep_view() + video.deep_view() =~= menus);
                    assert(subtitle_refresh_commands(known, configured.deep_view(), fresh)
                        == subtitle_refresh_commands(
                        PlayerState { media_info: Some(facts), ..old(self)@ },
                        configured_subtitle(incoming),
                        sidecar_configured(incoming),
                    ));
                    assert(commands.deep_view() =~= first + refresh.deep_view() + menus
                        + offer.deep_view());
                }
                commands
            },
        }
    }

    /// Shows the playback position, where the engine knows it.
    pub fn position_updated(&self, position_seconds: Option<u64>) -> (commands: Vec<Command>)
        ensures
            commands.deep_view() == position_commands(position_seconds),
    {
        let mut commands = no_commands();
        match position_seconds {
            Some(seconds) => {
                push_command(
                    &mut commands,
                    host_command(HostCommand::SetPositionRangeValue(seconds)),
                );
            },
            None => {},
        }
        commands
    }

    /// Resizes the window to the video.
    pub fn video_dimensions_changed(&self, width: i32, height: i32) -> (commands: Vec<Command>)
        ensures
            commands.deep_view() == seq![host(HostCommandView::ResizeWindow(width, height))],
    {
        let mut commands = no_commands();
        push_command(&mut commands, host_command(HostCommand::ResizeWindow(width, height)));
        commands
    }

    /// Shows where playback stands.
    pub fn playback_state_changed(&self, playback_state: &PlaybackState) -> (commands: Vec<
        Command,
    >)
        ensures
            commands.deep_view() == seq![
                host(HostCommandView::PlaybackStateChanged(*playback_state)),
            ],
    {
        let mut commands = no_commands();
        push_command(
            &mut commands,
            host_command(HostCommand::PlaybackStateChanged(*playback_state)),
        );
        commands
    }

    /// Shows the volume level.
    pub fn volume_changed(&self, volume: u64) -> (commands: Vec<Command>)
        ensures
            commands.deep_view() == seq![host(HostCommandView::VolumeChanged(volume))],
    {
        let mut commands = no_commands();
        push_command(&mut commands, host_command(HostCommand::VolumeChanged(volume)));
        commands
    }

    /// Takes up an error of the engine: it is logged, and the player quits.
    pub fn player_error(&mut self, msg: String) -> (commands: Vec<Command>)
        ensures
            final(self).keeps_queues_of(*old(self)),
            final(self)@ == after_quit(old(self)@),
            commands.deep_view() == error_commands(old(self)@, msg@),
    {
        let mut commands = no_commands();
        let line = join2("Internal player error: ", msg.as_str());
        push_command(&mut commands, Command::Log(line));
        let quit = self.quit();
        push_commands(&mut commands, quit);
        commands
    }

    /// Asks the engine to play a list of media.
    pub fn load_playlist(&self, playlist: Vec<String>) -> (commands: Vec<Command>)
        ensures
            commands.deep_view() == seq![
                engine(EngineCommandView::LoadPlaylist(playlist.deep_view())),
            ],
    {
        let mut commands = no_commands();
        push_command(&mut commands, engine_command(EngineCommand::LoadPlaylist(playlist)));
        commands
    }

    /// Takes up an event of the engine, with what the engine answered when
    /// it was asked on the event's account.
    pub fn dispatch_event(&mut self, event: PlaybackEvent, report: EngineReport) -> (commands: Vec<
        Command,
    >)
        ensures
            final(self).keeps_queues_of(*old(self)),
            final(self)@ == after_event(old(self)@, event.deep_view(), report.deep_view()),
            commands.deep_view() == event_commands(
                old(self)@,
                event.deep_view(),
                report.deep_view(),
            ),
    {
        match event {
            PlaybackEvent::MediaInfoUpdated => self.media_info_updated(report),
            PlaybackEvent::PositionUpdated => self.position_updated(report.position_seconds),
            PlaybackEvent::VideoDimensionsChanged(width, height) => self.video_dimensions_changed(
                width,
                height,
            ),
            PlaybackEvent::StateChanged(state) => self.playback_state_changed(&state),
            PlaybackEvent::VolumeChanged(volume) => self.volume_changed(volume),
            PlaybackEvent::Error(msg) => self.player_error(msg),
            _ => no_commands(),
        }
    }

    /// Shows the dialog that tells about the program.
    pub fn about(&self) -> (commands: Vec<Command>)
        ensures
            commands.deep_view() == seq![host(HostCommandView::DisplayAboutDialog)],
    {
        let mut commands = no_commands();
        push_command(&mut commands, host_command(HostCommand::DisplayAboutDialog));
        commands
    }

    /// Asks the engine to dump its pipeline.
    pub fn dump_pipeline(&self) -> (commands: Vec<Command>)
        ensures
            commands.deep_view() == seq![engine(EngineCommandView::DumpPipeline(pipeline_tag()))],
    {
        let mut commands = no_commands();
        push_command(
            &mut commands,
            engine_command(EngineCommand::DumpPipeline(String::from_str("glide"))),
        );
        commands
    }

    /// Takes up the answer of the dialog that asks for a media to open.
    pub fn open_media(&self, chosen: Option<String>) -> (commands: Vec<Command>)
        ensures
            commands.deep_view() == open_media_commands(chosen.deep_view()),
    {
        let mut commands = no_commands();
        match chosen {
            Some(uri) => {
                push_command(&mut commands, engine_command(EngineCommand::Stop));
                push_command(&mut commands, engine_command(EngineCommand::LoadUri(uri)));
            },
            None => {},
        }
        commands
    }

    /// Takes up the answer of the dialog that asks for a subtitle file, with
    /// the external subtitle file that the engine had before.
    pub fn open_subtitle_file(
        &mut self,
        chosen: Option<ExternalSubtitle>,
        configured: Option<ExternalSubtitle>,
    ) -> (commands: Vec<Command>)
        ensures
            final(self).keeps_queues_of(*old(self)),
            final(self)@ == after_subtitle_refresh(
                old(self)@,
                subtitle_after_dialog(chosen.deep_view(), configured.deep_view()),
                chosen is Some,
            ),
            commands.deep_view() == open_subtitle_commands(
                old(self)@,
                chosen.deep_view(),
                configured.deep_view(),
            ),
    {
        let mut commands = no_commands();
        let fresh = chosen.is_some();
        let external = match chosen {
            Some(file) => {
                push_command(
                    &mut commands,
                    engine_command(
                        EngineCommand::ConfigureSubtitleTrack(
                            Some(SubtitleTrack::External(file.uri.clone())),
                        ),
                    ),
                );
                Some(file)
            },
            None => configured,
        };
        let refresh = self.rebuild_subtitle_menu(&external, fresh);
        push_commands(&mut commands, refresh);
        commands
    }

    /// Takes up the activation of an action, with the file that the user
    /// chose where the action asks for one, and the external subtitle file
    /// that the engine had before.
    pub fn activate(
        &mut self,
        action: ActionId,
        chosen: Option<ExternalSubtitle>,
        configured: Option<ExternalSubtitle>,
    ) -> (commands: Vec<Command>)
        ensures
            final(self).keeps_queues_of(*old(self)),
            final(self)@ == after_activation(
                old(self)@,
                action,
                chosen.deep_view(),
                configured.deep_view(),
            ),
            commands.deep_view() == activation_commands(
                old(self)@,
                action,
                chosen.deep_view(),
                configured.deep_view(),
            ),
    {
        match action {
            ActionId::About => self.about(),
            ActionId::Quit => self.quit(),
            ActionId::DumpPipeline => self.dump_pipeline(),
            ActionId::OpenMedia => {
                let uri = match chosen {
                    Some(file) => Some(file.uri),
                    None => None,
                };
                self.open_media(uri)
            },
            ActionId::OpenSubtitleFile => self.open_subtitle_file(chosen, configured),
            _ => no_commands(),
        }
    }

    /// Reports how a search for a newer release ended.
    pub fn check_update(&self, outcome: UpdateOutcome) -> (commands: Vec<Command>)
        ensures
            commands.deep_view() == update_commands(outcome.deep_view()),
    {
        let mut commands = no_commands();
        match outcome {
            UpdateOutcome::UpToDate => {},
            UpdateOutcome::Updated(status) => {
                let line = join2("Update succeeded: ", status.as_str());
                push_command(&mut commands, Command::Log(line));
            },
            UpdateOutcome::Failed(reason) => {
                let line = join2("Update failed: ", reason.as_str());
                push_command(&mut commands, Command::Log(line));
            },
        }
        commands
    }

    /// Takes one item from the queue of the user-interface loop, if one is
    /// waiting. Whether one is depends on what the bridge has queued.
    pub fn take_action(&self) -> (action: Option<UIAction>) {
        pending_action(try_receive(&self.receiver))
    }

    /// The end from which the engine's events are taken.
    pub closed spec fn events_end(&self) -> Receiver<PlaybackEvent> {
        self.event_receiver
    }

    /// The end into which items for the user-interface loop are put.
    pub closed spec fn actions_end(&self) -> Sender<UIAction> {
        self.sender
    }

    /// The end from which the user-interface loop takes its items.
    pub closed spec fn loop_end(&self) -> Receiver<UIAction> {
        self.receiver
    }

    /// Whether this player has the queues of `other`: the same three ends.
    pub open spec fn has_queues_of(&self, other: VideoPlayer) -> bool {
        &&& self.events_end() == other.events_end()
        &&& self.actions_end() == other.actions_end()
        &&& self.loop_end() == other.loop_end()
    }

    /// Whether this player has the queues of `other` and holds the engine's
    /// sending end exactly if `other` does.
    pub open spec fn keeps_queues_of(&self, other: VideoPlayer) -> bool {
        &&& self.has_queues_of(other)
        &&& self.holds_event_sender() == other.holds_event_sender()
    }

    /// The background end of the player, for the thread that polls the
    /// engine: a bridge from this player's events to this player's loop.
    pub fn bridge(&self) -> (bridge: EventBridge)
        ensures
            bridge.events_end() == self.events_end(),
            bridge.actions_end() == self.actions_end(),
    {
        EventBridge::new(clone_receiver(&self.event_receiver), clone_sender(&self.sender))
    }

    /// Whether the player still holds the end into which the engine puts its
    /// events.
    pub closed spec fn holds_event_sender(&self) -> bool {
        self.event_sender is Some
    }

    /// Hands over the end into which the engine puts its events. The player
    /// keeps no copy, so that the bridge notices when the engine lets go of
    /// it; a second request gets nothing.
    pub fn take_event_sender(&mut self) -> (sender: Option<Sender<PlaybackEvent>>)
        ensures
            sender is Some <==> old(self).holds_event_sender(),
            !final(self).holds_event_sender(),
            final(self)@ == old(self)@,
            final(self).has_queues_of(*old(self)),
    {
        let mut taken: Option<Sender<PlaybackEvent>> = None;
        std::mem::swap(&mut self.event_sender, &mut taken);
        taken
    }

    /// The end into which a request to quit can be put from any thread: the
    /// sending end of this player's loop.
    pub fn action_sender(&self) -> (sender: Sender<UIAction>)
        ensures
            sender == self.actions_end(),
    {
        clone_sender(&self.sender)
    }

    /// The value that an action is committed to.
    pub fn committed_value(&self, action: ActionId) -> (value: Option<ActionValue>)
        ensures
            value.deep_view() == committed(self@, action),
    {
        match action {
            ActionId::Fullscreen => Some(ActionValue::Bool(self.fullscreen)),
            ActionId::Pause => Some(ActionValue::Bool(self.pause)),
            ActionId::AudioMute => Some(ActionValue::Bool(self.audio_mute)),
            ActionId::Subtitle => Some(ActionValue::Choice(self.subtitle.clone())),
            ActionId::AudioVisualization => Some(
                ActionValue::Choice(self.audio_visualization.clone()),
            ),
            ActionId::AudioTrack => Some(ActionValue::Choice(self.audio_track.clone())),
            ActionId::VideoTrack => Some(ActionValue::Choice(self.video_track.clone())),
            _ => action.default_value(),
        }
    }

    /// Whether an action can be used.
    pub fn is_enabled(&self, action: ActionId) -> (yes: bool)
        ensures
            yes == enabled(self@, action),
    {
        match action {
            ActionId::AudioVisualization => self.visualization_enabled,
            _ => true,
        }
    }

    /// The metadata that came with the last media information event.
    pub fn media_info(&self) -> (info: &Option<MediaInfo>)
        ensures
            info.deep_view() == self@.media_info,
    {
        &self.media_info
    }

    /// The platform whose start-up order the player follows.
    pub fn platform(&self) -> (platform: Platform)
        ensures
            platform == self@.platform,
    {
        self.platform
    }

    /// Whether the host was told that the player is constructed.
    pub fn is_initialized(&self) -> (yes: bool)
        ensures
            yes == self@.initialized,
    {
        self.initialized
    }

    /// Whether the player was started.
    pub fn is_started(&self) -> (yes: bool)
        ensures
            yes == self@.started,
    {
        self.started
    }

    /// Whether the quit sequence has run.
    pub fn is_stopped(&self) -> (yes: bool)
        ensures
            yes == self@.stopped,
    {
        self.stopped
    }
}

/// Tells what the engine is to be asked before `action` is taken up.
pub fn questions_for(action: &Option<UIAction>) -> (asked: Questions)
    ensures
        asked == questions(action.deep_view()),
{
    match action {
        Some(UIAction::ForwardedEvent(PlaybackEvent::MediaInfoUpdated)) => Questions {
            media: true,
            position: false,
        },
        Some(UIAction::ForwardedEvent(PlaybackEvent::PositionUpdated)) => Questions {
            media: false,
            position: true,
        },
        _ => Questions { media: false, position: false },
    }
}

/// One turn of the user-interface loop: takes up what the wake-up found in
/// the queue, which is one item or nothing.
pub fn ui_action_handle(
    player: &mut VideoPlayer,
    action: Option<UIAction>,
    report: EngineReport,
) -> (commands: Vec<Command>)
    ensures
        final(player).keeps_queues_of(*old(player)),
        final(player)@ == after_turn(old(player)@, action.deep_view(), report.deep_view()),
        commands.deep_view() == turn_commands(old(player)@, action.deep_view(), report.deep_view()),
{
    match action {
        None => no_commands(),
        Some(UIAction::Quit) => player.quit(),
        Some(UIAction::ForwardedEvent(event)) => if player.is_stopped() {
            no_commands()
        } else {
            player.dispatch_event(event, report)
        },
    }
}

/// Registers the player with its host and runs the host, with the cache
/// directory `cache_dir` for a start that the platform asks for.
pub fn register_player_and_run_in(
    video_player: &mut VideoPlayer,
    args: Vec<String>,
    cache_dir: Option<PathBuf>,
    has_ui: bool,
) -> (commands: Vec<Command>)
    ensures
        final(video_player).keeps_queues_of(*old(video_player)),
        final(video_player)@ == after_run(old(video_player)@),
        commands.deep_view() == run_commands(
            old(video_player)@,
            args.deep_view(),
            cache_dir,
            has_ui,
        ),
{
    let mut commands = no_commands();
    match video_player.platform() {
        Platform::MacOs => {
            let start = video_player.start_in(cache_dir);
            push_commands(&mut commands, start);
            push_command(&mut commands, host_command(HostCommand::Start));
        },
        Platform::Linux => {},
    }
    push_command(&mut commands, host_command(HostCommand::SetArgs(args)));
    let init = video_player.post_init();
    push_commands(&mut commands, init);
    if has_ui {
        push_command(&mut commands, host_command(HostCommand::Run));
    } else {
        push_command(&mut commands, Command::Log(String::from_str("No UI implementation found")));
    }
    assert(commands.deep_view() =~= run_commands(
        old(video_player)@,
        args.deep_view(),
        cache_dir,
        has_ui,
    ));
    commands
}

/// Registers the player with its host and runs the host, with the cache
/// directory that the platform gives this program, whichever that is.
pub fn register_player_and_run(
    video_player: &mut VideoPlayer,
    args: Vec<String>,
    has_ui: bool,
) -> (commands: Vec<Command>)
    ensures
        final(video_player).keeps_queues_of(*old(video_player)),
        final(video_player)@ == after_run(old(video_player)@),
        exists|cache_dir: Option<PathBuf>|
            commands.deep_view() == #[trigger] run_commands(
                old(video_player)@,
                args.deep_view(),
                cache_dir,
                has_ui,
            ),
{
    let cache_dir = project_cache_dir("net", "baseart", "Glide");
    register_player_and_run_in(video_player, args, cache_dir, has_ui)
}

} // verus!
