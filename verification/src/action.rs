//! The named actions that the host offers to the user, and the value that
//! each one is committed to.

use crate::text::str_eq;
use vstd::prelude::*;

verus! {

/// The actions of the player, in the order in which they are registered.
#[derive(Clone, Copy, Debug, PartialEq, Eq)]
pub enum ActionId {
    Fullscreen,
    Restore,
    Pause,
    SeekForward,
    SeekBackward,
    OpenMedia,
    OpenSubtitleFile,
    AudioMute,
    VolumeIncrease,
    VolumeDecrease,
    DumpPipeline,
    Subtitle,
    AudioVisualization,
    AudioTrack,
    VideoTrack,
    About,
    Quit,
}

/// What kind of value an action is committed to.
#[derive(Clone, Copy, Debug, PartialEq, Eq)]
pub enum ActionKind {
    /// The action has no state: it is only activated.
    Plain,
    Boolean,
    /// The state is the identifier of one of several choices.
    Choice,
}

/// The value of a stateful action.
#[derive(Clone, Debug, PartialEq, Eq)]
pub enum ActionValue {
    Bool(bool),
    Choice(String),
}

/// What an [`ActionValue`] holds, as plain values.
pub enum ActionValueView {
    Bool(bool),
    Choice(Seq<char>),
}

impl DeepView for ActionValue {
    type V = ActionValueView;

    open spec fn deep_view(&self) -> ActionValueView {
        match self {
            ActionValue::Bool(on) => ActionValueView::Bool(*on),
            ActionValue::Choice(id) => ActionValueView::Choice(id@),
        }
    }
}

/// All actions, in registration order.
pub open spec fn all_actions() -> Seq<ActionId> {
    seq![
        ActionId::Fullscreen,
        ActionId::Restore,
        ActionId::Pause,
        ActionId::SeekForward,
        ActionId::SeekBackward,
        ActionId::OpenMedia,
        ActionId::OpenSubtitleFile,
        ActionId::AudioMute,
        ActionId::VolumeIncrease,
        ActionId::VolumeDecrease,
        ActionId::DumpPipeline,
        ActionId::Subtitle,
        ActionId::AudioVisualization,
        ActionId::AudioTrack,
        ActionId::VideoTrack,
        ActionId::About,
        ActionId::Quit,
    ]
}

/// The name under which the host knows an action.
pub open spec fn action_name(id: ActionId) -> Seq<char> {
    match id {
        ActionId::Fullscreen => "fullscreen"@,
        ActionId::Restore => "restore"@,
        ActionId::Pause => "pause"@,
        ActionId::SeekForward => "seek-forward"@,
        ActionId::SeekBackward => "seek-backward"@,
        ActionId::OpenMedia => "open-media"@,
        ActionId::OpenSubtitleFile => "open-subtitle-file"@,
        ActionId::AudioMute => "audio-mute"@,
        ActionId::VolumeIncrease => "audio-volume-increase"@,
        ActionId::VolumeDecrease => "audio-volume-decrease"@,
        ActionId::DumpPipeline => "dump-pipeline"@,
        ActionId::Subtitle => "subtitle"@,
        ActionId::AudioVisualization => "audio-visualization"@,
        ActionId::AudioTrack => "audio-track"@,
        ActionId::VideoTrack => "video-track"@,
        ActionId::About => "about"@,
        ActionId::Quit => "quit"@,
    }
}

/// The action that goes by `name`, if there is one.
pub open spec fn action_named(name: Seq<char>) -> Option<ActionId> {
    if exists|id: ActionId| #[trigger] action_name(id) == name {
        Some(choose|id: ActionId| #[trigger] action_name(id) == name)
    } else {
        None
    }
}

/// The kind of each action.
pub open spec fn action_kind(id: ActionId) -> ActionKind {
    match id {
        ActionId::OpenMedia | ActionId::OpenSubtitleFile | ActionId::About | ActionId::Quit => {
            ActionKind::Plain
        },
        ActionId::Subtitle
        | ActionId::AudioVisualization
        | ActionId::AudioTrack
        | ActionId::VideoTrack => ActionKind::Choice,
        _ => ActionKind::Boolean,
    }
}

/// The value that an action has when it is registered; none for a plain action.
pub open spec fn action_default(id: ActionId) -> Option<ActionValueView> {
    match id {
        ActionId::OpenMedia | ActionId::OpenSubtitleFile | ActionId::About | ActionId::Quit => {
            None
        },
        ActionId::Restore => Some(ActionValueView::Bool(true)),
        ActionId::Subtitle => Some(ActionValueView::Choice(""@)),
        ActionId::AudioVisualization => Some(ActionValueView::Choice("none"@)),
        ActionId::AudioTrack => Some(ActionValueView::Choice("audio-0"@)),
        ActionId::VideoTrack => Some(ActionValueView::Choice("video-0"@)),
        _ => Some(ActionValueView::Bool(false)),
    }
}

/// Whether an action does its work when it is activated, rather than when a
/// new value is proposed for it.
pub open spec fn activated(id: ActionId) -> bool {
    action_kind(id) == ActionKind::Plain || id == ActionId::DumpPipeline
}

/// Whether the user is asked for a file before an action does its work.
pub open spec fn asks_for_file(id: ActionId) -> bool {
    id == ActionId::OpenMedia || id == ActionId::OpenSubtitleFile
}

/// The name by which a menu entry refers to an action and the identifier it
/// proposes: the action's name in the application's scope, two colons, and
/// the identifier.
pub open spec fn detailed_action_name(id: ActionId, target: Seq<char>) -> Seq<char> {
    "app."@ + action_name(id) + "::"@ + target
}

/// No two actions share a name.
pub proof fn lemma_action_names_differ(a: ActionId, b: ActionId)
    requires
        a != b,
    ensures
        action_name(a) != action_name(b),
{
    reveal_strlit("fullscreen");
    reveal_strlit("restore");
    reveal_strlit("pause");
    reveal_strlit("seek-forward");
    reveal_strlit("seek-backward");
    reveal_strlit("open-media");
    reveal_strlit("open-subtitle-file");
    reveal_strlit("audio-mute");
    reveal_strlit("audio-volume-increase");
    reveal_strlit("audio-volume-decrease");
    reveal_strlit("dump-pipeline");
    reveal_strlit("subtitle");
    reveal_strlit("audio-visualization");
    reveal_strlit("audio-track");
    reveal_strlit("video-track");
    reveal_strlit("about");
    reveal_strlit("quit");
    let x = action_name(a);
    let y = action_name(b);
    if x.len() == y.len() {
        assert(x[0] != y[0] || x[6] != y[6] || x[13] != y[13]);
    }
}

/// An action is found again by its own name.
pub proof fn lemma_action_found_by_name(id: ActionId)
    ensures
        action_named(action_name(id)) == Some(id),
{
    let name = action_name(id);
    let found = choose|other: ActionId| #[trigger] action_name(other) == name;
    if found != id {
        lemma_action_names_differ(found, id);
    }
}

impl ActionId {
    /// The name under which the host knows this action.
    pub fn name(&self) -> (name: &'static str)
        ensures
            name@ == action_name(*self),
    {
        match self {
            ActionId::Fullscreen => "fullscreen",
            ActionId::Restore => "restore",
            ActionId::Pause => "pause",
            ActionId::SeekForward => "seek-forward",
            ActionId::SeekBackward => "seek-backward",
            ActionId::OpenMedia => "open-media",
            ActionId::OpenSubtitleFile => "open-subtitle-file",
            ActionId::AudioMute => "audio-mute",
            ActionId::VolumeIncrease => "audio-volume-increase",
            ActionId::VolumeDecrease => "audio-volume-decrease",
            ActionId::DumpPipeline => "dump-pipeline",
            ActionId::Subtitle => "subtitle",
            ActionId::AudioVisualization => "audio-visualization",
            ActionId::AudioTrack => "audio-track",
            ActionId::VideoTrack => "video-track",
            ActionId::About => "about",
            ActionId::Quit => "quit",
        }
    }

    /// The action at `position` of the registration order.
    pub fn at(position: usize) -> (id: Option<ActionId>)
        ensures
            id == if position < all_actions().len() {
                Some(all_actions()[position as int])
            } else {
                None
            },
    {
        match position {
            0 => Some(ActionId::Fullscreen),
            1 => Some(ActionId::Restore),
            2 => Some(ActionId::Pause),
            3 => Some(ActionId::SeekForward),
            4 => Some(ActionId::SeekBackward),
            5 => Some(ActionId::OpenMedia),
            6 => Some(ActionId::OpenSubtitleFile),
            7 => Some(ActionId::AudioMute),
            8 => Some(ActionId::VolumeIncrease),
            9 => Some(ActionId::VolumeDecrease),
            10 => Some(ActionId::DumpPipeline),
            11 => Some(ActionId::Subtitle),
            12 => Some(ActionId::AudioVisualization),
            13 => Some(ActionId::AudioTrack),
            14 => Some(ActionId::VideoTrack),
            15 => Some(ActionId::About),
            16 => Some(ActionId::Quit),
            _ => None,
        }
    }

    /// The action that goes by `name`.
    pub fn from_name(name: &str) -> (found: Option<ActionId>)
        ensures
            found == action_named(name@),
    {
        let mut position: usize = 0;
        while position < 17
            invariant
                position <= 17,
                all_actions().len() == 17,
                forall|k: int| 0 <= k < position ==> action_name(all_actions()[k]) != name@,
            decreases 17 - position,
        {
            match ActionId::at(position) {
                Some(id) => {
                    if str_eq(id.name(), name) {
                        proof {
                            lemma_action_found_by_name(id);
                        }
                        return Some(id);
                    }
                },
                None => {},
            }
            position += 1;
        }
        proof {
            assert forall|id: ActionId| action_name(id) != name@ by {
                assert(exists|k: int| 0 <= k < 17 && all_actions()[k] == id) by {
                    let k = position_of(id);
                    assert(all_actions()[k] == id);
                }
            }
        }
        None
    }

    /// The kind of this action.
    pub fn kind(&self) -> (kind: ActionKind)
        ensures
            kind == action_kind(*self),
    {
        match self {
            ActionId::OpenMedia | ActionId::OpenSubtitleFile | ActionId::About | ActionId::Quit => {
                ActionKind::Plain
            },
            ActionId::Subtitle
            | ActionId::AudioVisualization
            | ActionId::AudioTrack
            | ActionId::VideoTrack => ActionKind::Choice,
            _ => ActionKind::Boolean,
        }
    }

    /// Whether this action does its work when it is activated.
    pub fn is_activated(&self) -> (yes: bool)
        ensures
            yes == activated(*self),
    {
        match self {
            ActionId::OpenMedia
            | ActionId::OpenSubtitleFile
            | ActionId::About
            | ActionId::Quit
            | ActionId::DumpPipeline => true,
            _ => false,
        }
    }

    /// Whether the user is asked for a file before this action does its work.
    pub fn opens_dialog(&self) -> (yes: bool)
        ensures
            yes == asks_for_file(*self),
    {
        match self {
            ActionId::OpenMedia | ActionId::OpenSubtitleFile => true,
            _ => false,
        }
    }

    /// The name by which a menu entry refers to this action and `target`.
    pub fn detailed_action(&self, target: &str) -> (name: String)
        ensures
            name@ == detailed_action_name(*self, target@),
    {
        let mut name = String::from_str("app.");
        name.append(self.name());
        name.append("::");
        name.append(target);
        name
    }

    /// The value that this action has when it is registered.
    pub fn default_value(&self) -> (value: Option<ActionValue>)
        ensures
            value.deep_view() == action_default(*self),
    {
        match self {
            ActionId::OpenMedia | ActionId::OpenSubtitleFile | ActionId::About | ActionId::Quit => {
                None
            },
            ActionId::Restore => Some(ActionValue::Bool(true)),
            ActionId::Subtitle => Some(ActionValue::Choice(String::from_str(""))),
            ActionId::AudioVisualization => Some(ActionValue::Choice(String::from_str("none"))),
            ActionId::AudioTrack => Some(ActionValue::Choice(String::from_str("audio-0"))),
            ActionId::VideoTrack => Some(ActionValue::Choice(String::from_str("video-0"))),
            _ => Some(ActionValue::Bool(false)),
        }
    }
}

/// Where an action stands in the registration order.
pub open spec fn position_of(id: ActionId) -> int {
    match id {
        ActionId::Fullscreen => 0,
        ActionId::Restore => 1,
        ActionId::Pause => 2,
        ActionId::SeekForward => 3,
        ActionId::SeekBackward => 4,
        ActionId::OpenMedia => 5,
        ActionId::OpenSubtitleFile => 6,
        ActionId::AudioMute => 7,
        ActionId::VolumeIncrease => 8,
        ActionId::VolumeDecrease => 9,
        ActionId::DumpPipeline => 10,
        ActionId::Subtitle => 11,
        ActionId::AudioVisualization => 12,
        ActionId::AudioTrack => 13,
        ActionId::VideoTrack => 14,
        ActionId::About => 15,
        ActionId::Quit => 16,
    }
}

} // verus!
