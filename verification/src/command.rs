//! What the player asks of the playback engine and of the host window. A
//! handler returns its commands in the order in which they are to be carried
//! out; the caller carries them out, in that order, before it does anything
//! else with the player.

use crate::action::{ActionId, ActionValue, ActionValueView};
use crate::event::PlaybackState;
use crate::menu::{MenuEntry, MenuEntryView};
use crate::text::lemma_push_deep_view;
use crate::track_id::{SubtitleTrack, SubtitleTrackView};
use std::path::PathBuf;
use vstd::prelude::*;

verus! {

/// How far forward a seek goes, in nanoseconds.
pub const SEEK_FORWARD_OFFSET: u64 = 5_000_000_000;

/// How far backward a seek goes, in nanoseconds.
pub const SEEK_BACKWARD_OFFSET: u64 = 2_000_000_000;

/// Which way to seek, and by how many nanoseconds.
#[derive(Clone, Copy, Debug, PartialEq, Eq)]
pub enum SeekDirection {
    Forward(u64),
    Backward(u64),
}

/// A path of `std::path`, carried through as it came.
#[verifier::external_type_specification]
#[verifier::external_body]
pub struct ExPathBuf(PathBuf);

/// A command for the playback engine.
#[derive(Clone, Debug, PartialEq, Eq)]
pub enum EngineCommand {
    /// Make the engine known under the events channel, with the place of its
    /// cache file: the directory, where the platform has one, and the file's name.
    Register { cache_dir: Option<PathBuf>, cache_file: String },
    LoadUri(String),
    LoadPlaylist(Vec<String>),
    Stop,
    Seek(SeekDirection),
    TogglePause(bool),
    ToggleMute(bool),
    IncreaseVolume,
    DecreaseVolume,
    SetAudioTrackIndex(i32),
    SetVideoTrackIndex(i32),
    ConfigureSubtitleTrack(Option<SubtitleTrack>),
    SetAudioVisualization(Option<String>),
    DumpPipeline(String),
    WriteLastKnownMediaPosition,
    RefreshVideoRenderer,
}

/// What an [`EngineCommand`] holds, as plain values.
pub enum EngineCommandView {
    Register { cache_dir: Option<PathBuf>, cache_file: Seq<char> },
    LoadUri(Seq<char>),
    LoadPlaylist(Seq<Seq<char>>),
    Stop,
    Seek(SeekDirection),
    TogglePause(bool),
    ToggleMute(bool),
    IncreaseVolume,
    DecreaseVolume,
    SetAudioTrackIndex(i32),
    SetVideoTrackIndex(i32),
    ConfigureSubtitleTrack(Option<SubtitleTrackView>),
    SetAudioVisualization(Option<Seq<char>>),
    DumpPipeline(Seq<char>),
    WriteLastKnownMediaPosition,
    RefreshVideoRenderer,
}

impl DeepView for EngineCommand {
    type V = EngineCommandView;

    open spec fn deep_view(&self) -> EngineCommandView {
        match self {
            EngineCommand::Register { cache_dir, cache_file } => EngineCommandView::Register {
                cache_dir: *cache_dir,
                cache_file: cache_file@,
            },
            EngineCommand::LoadUri(uri) => EngineCommandView::LoadUri(uri@),
            EngineCommand::LoadPlaylist(uris) => EngineCommandView::LoadPlaylist(uris.deep_view()),
            EngineCommand::Stop => EngineCommandView::Stop,
            EngineCommand::Seek(direction) => EngineCommandView::Seek(*direction),
            EngineCommand::TogglePause(paused) => EngineCommandView::TogglePause(*paused),
            EngineCommand::ToggleMute(muted) => EngineCommandView::ToggleMute(*muted),
            EngineCommand::IncreaseVolume => EngineCommandView::IncreaseVolume,
            EngineCommand::DecreaseVolume => EngineCommandView::DecreaseVolume,
            EngineCommand::SetAudioTrackIndex(index) => EngineCommandView::SetAudioTrackIndex(
                *index,
            ),
            EngineCommand::SetVideoTrackIndex(index) => EngineCommandView::SetVideoTrackIndex(
                *index,
            ),
            EngineCommand::ConfigureSubtitleTrack(track) => {
                EngineCommandView::ConfigureSubtitleTrack(track.deep_view())
            },
            EngineCommand::SetAudioVisualization(effect) => {
                EngineCommandView::SetAudioVisualization(effect.deep_view())
            },
            EngineCommand::DumpPipeline(tag) => EngineCommandView::DumpPipeline(tag@),
            EngineCommand::WriteLastKnownMediaPosition => {
                EngineCommandView::WriteLastKnownMediaPosition
            },
            EngineCommand::RefreshVideoRenderer => EngineCommandView::RefreshVideoRenderer,
        }
    }
}

/// A command for the host: the window, its menus and its actions.
#[derive(Clone, Debug, PartialEq, Eq)]
pub enum HostCommand {
    /// Register an action under its name, with its kind and first value.
    AddAction { action: ActionId, default: Option<ActionValue> },
    /// Show an action as committed to a value.
    SetActionState(ActionId, ActionValue),
    SetActionEnabled(ActionId, bool),
    EnterFullscreen,
    LeaveFullscreen,
    ResizeWindow(i32, i32),
    SetWindowTitle(String),
    /// The end of the position slider, in seconds.
    SetPositionRangeEnd(u64),
    /// The place of the position slider, in seconds.
    SetPositionRangeValue(u64),
    UpdateSubtitleTrackMenu(Vec<MenuEntry>),
    UpdateAudioTrackMenu(Vec<MenuEntry>),
    UpdateVideoTrackMenu(Vec<MenuEntry>),
    UpdateAudioVisualizationMenu(Vec<MenuEntry>),
    ClearAudioVisualizationMenu,
    DisplayAboutDialog,
    /// Show a volume level, given as it came from the engine.
    VolumeChanged(u64),
    PlaybackStateChanged(PlaybackState),
    SetArgs(Vec<String>),
    /// Tell the host that the player is fully constructed.
    PostInit,
    Start,
    /// Run the host's own loop until it is stopped.
    Run,
    Stop,
}

/// What a [`HostCommand`] holds, as plain values.
pub enum HostCommandView {
    AddAction { action: ActionId, default: Option<ActionValueView> },
    SetActionState(ActionId, ActionValueView),
    SetActionEnabled(ActionId, bool),
    EnterFullscreen,
    LeaveFullscreen,
    ResizeWindow(i32, i32),
    SetWindowTitle(Seq<char>),
    SetPositionRangeEnd(u64),
    SetPositionRangeValue(u64),
    UpdateSubtitleTrackMenu(Seq<MenuEntryView>),
    UpdateAudioTrackMenu(Seq<MenuEntryView>),
    UpdateVideoTrackMenu(Seq<MenuEntryView>),
    UpdateAudioVisualizationMenu(Seq<MenuEntryView>),
    ClearAudioVisualizationMenu,
    DisplayAboutDialog,
    VolumeChanged(u64),
    PlaybackStateChanged(PlaybackState),
    SetArgs(Seq<Seq<char>>),
    PostInit,
    Start,
    Run,
    Stop,
}

impl DeepView for HostCommand {
    type V = HostCommandView;

    open spec fn deep_view(&self) -> HostCommandView {
        match self {
            HostCommand::AddAction { action, default } => HostCommandView::AddAction {
                action: *action,
                default: default.deep_view(),
            },
            HostCommand::SetActionState(action, value) => HostCommandView::SetActionState(
                *action,
                value.deep_view(),
            ),
            HostCommand::SetActionEnabled(action, enabled) => HostCommandView::SetActionEnabled(
                *action,
                *enabled,
            ),
            HostCommand::EnterFullscreen => HostCommandView::EnterFullscreen,
            HostCommand::LeaveFullscreen => HostCommandView::LeaveFullscreen,
            HostCommand::ResizeWindow(width, height) => HostCommandView::ResizeWindow(
                *width,
                *height,
            ),
            HostCommand::SetWindowTitle(title) => HostCommandView::SetWindowTitle(title@),
            HostCommand::SetPositionRangeEnd(seconds) => HostCommandView::SetPositionRangeEnd(
                *seconds,
            ),
            HostCommand::SetPositionRangeValue(seconds) => HostCommandView::SetPositionRangeValue(
                *seconds,
            ),
            HostCommand::UpdateSubtitleTrackMenu(entries) => {
                HostCommandView::UpdateSubtitleTrackMenu(entries.deep_view())
            },
            HostCommand::UpdateAudioTrackMenu(entries) => HostCommandView::UpdateAudioTrackMenu(
                entries.deep_view(),
            ),
            HostCommand::UpdateVideoTrackMenu(entries) => HostCommandView::UpdateVideoTrackMenu(
                entries.deep_view(),
            ),
            HostCommand::UpdateAudioVisualizationMenu(entries) => {
                HostCommandView::UpdateAudioVisualizationMenu(entries.deep_view())
            },
            HostCommand::ClearAudioVisualizationMenu => HostCommandView::ClearAudioVisualizationMenu,
            HostCommand::DisplayAboutDialog => HostCommandView::DisplayAboutDialog,
            HostCommand::VolumeChanged(level) => HostCommandView::VolumeChanged(*level),
            HostCommand::PlaybackStateChanged(state) => HostCommandView::PlaybackStateChanged(
                *state,
            ),
            HostCommand::SetArgs(args) => HostCommandView::SetArgs(args.deep_view()),
            HostCommand::PostInit => HostCommandView::PostInit,
            HostCommand::Start => HostCommandView::Start,
            HostCommand::Run => HostCommandView::Run,
            HostCommand::Stop => HostCommandView::Stop,
        }
    }
}

/// One step that a handler asks its caller to carry out.
#[derive(Clone, Debug, PartialEq, Eq)]
pub enum Command {
    Engine(EngineCommand),
    Host(HostCommand),
    /// Write a line to the error log.
    Log(String),
    /// Begin to poll the engine's events in the background, at this interval
    /// in milliseconds.
    StartBridge(u64),
    /// Look for a newer release of the program, install it, and hand the
    /// outcome to the player.
    CheckUpdate,
}

/// What a [`Command`] holds, as plain values.
pub enum CommandView {
    Engine(EngineCommandView),
    Host(HostCommandView),
    Log(Seq<char>),
    StartBridge(u64),
    CheckUpdate,
}

impl DeepView for Command {
    type V = CommandView;

    open spec fn deep_view(&self) -> CommandView {
        match self {
            Command::Engine(command) => CommandView::Engine(command.deep_view()),
            Command::Host(command) => CommandView::Host(command.deep_view()),
            Command::Log(line) => CommandView::Log(line@),
            Command::StartBridge(interval) => CommandView::StartBridge(*interval),
            Command::CheckUpdate => CommandView::CheckUpdate,
        }
    }
}

/// The command that shows `action` as committed to `value`.
pub open spec fn commit(action: ActionId, value: ActionValueView) -> CommandView {
    CommandView::Host(HostCommandView::SetActionState(action, value))
}

/// A list with no command.
pub fn no_commands() -> (commands: Vec<Command>)
    ensures
        commands.deep_view() == Seq::<CommandView>::empty(),
{
    let commands: Vec<Command> = Vec::new();
    assert(commands.deep_view() =~= Seq::<CommandView>::empty());
    commands
}

/// Adds one command at the end of a list.
pub fn push_command(commands: &mut Vec<Command>, command: Command)
    ensures
        final(commands).deep_view() == old(commands).deep_view().push(command.deep_view()),
{
    let ghost before = *commands;
    let ghost pushed = command;
    commands.push(command);
    proof {
        lemma_push_deep_view(before, *commands, pushed);
    }
}

/// Adds the commands of `more`, in their order, at the end of a list.
pub fn push_commands(commands: &mut Vec<Command>, more: Vec<Command>)
    ensures
        final(commands).deep_view() == old(commands).deep_view() + more.deep_view(),
{
    let mut more = more;
    let ghost first = commands.deep_view();
    let ghost second = more.deep_view();
    commands.append(&mut more);
    assert(commands.deep_view() =~= first + second);
}

} // verus!
