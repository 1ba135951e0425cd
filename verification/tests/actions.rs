use video_player::action::{ActionId, ActionKind, ActionValue};

const NAMES: [&str; 17] = [
    "fullscreen",
    "restore",
    "pause",
    "seek-forward",
    "seek-backward",
    "open-media",
    "open-subtitle-file",
    "audio-mute",
    "audio-volume-increase",
    "audio-volume-decrease",
    "dump-pipeline",
    "subtitle",
    "audio-visualization",
    "audio-track",
    "video-track",
    "about",
    "quit",
];

#[test]
fn actions_are_named_in_registration_order() {
    for (position, name) in NAMES.iter().enumerate() {
        let action = ActionId::at(position).unwrap();
        assert_eq!(action.name(), *name);
    }
    assert_eq!(ActionId::at(17), None);
    assert_eq!(ActionId::at(usize::MAX), None);
}

#[test]
fn every_action_is_found_by_its_name() {
    for position in 0..17 {
        let action = ActionId::at(position).unwrap();
        assert_eq!(ActionId::from_name(action.name()), Some(action));
    }
}

#[test]
fn unknown_names_find_no_action() {
    assert_eq!(ActionId::from_name(""), None);
    assert_eq!(ActionId::from_name("Pause"), None);
    assert_eq!(ActionId::from_name("pause "), None);
    assert_eq!(ActionId::from_name("app.pause"), None);
}

#[test]
fn action_kinds() {
    assert_eq!(ActionId::Pause.kind(), ActionKind::Boolean);
    assert_eq!(ActionId::Restore.kind(), ActionKind::Boolean);
    assert_eq!(ActionId::DumpPipeline.kind(), ActionKind::Boolean);
    assert_eq!(ActionId::Subtitle.kind(), ActionKind::Choice);
    assert_eq!(ActionId::AudioVisualization.kind(), ActionKind::Choice);
    assert_eq!(ActionId::AudioTrack.kind(), ActionKind::Choice);
    assert_eq!(ActionId::VideoTrack.kind(), ActionKind::Choice);
    assert_eq!(ActionId::OpenMedia.kind(), ActionKind::Plain);
    assert_eq!(ActionId::OpenSubtitleFile.kind(), ActionKind::Plain);
    assert_eq!(ActionId::About.kind(), ActionKind::Plain);
    assert_eq!(ActionId::Quit.kind(), ActionKind::Plain);
}

#[test]
fn action_defaults() {
    assert_eq!(ActionId::Fullscreen.default_value(), Some(ActionValue::Bool(false)));
    assert_eq!(ActionId::Restore.default_value(), Some(ActionValue::Bool(true)));
    assert_eq!(ActionId::Pause.default_value(), Some(ActionValue::Bool(false)));
    assert_eq!(ActionId::AudioMute.default_value(), Some(ActionValue::Bool(false)));
    assert_eq!(ActionId::Subtitle.default_value(), Some(ActionValue::Choice(String::new())));
    assert_eq!(
        ActionId::AudioVisualization.default_value(),
        Some(ActionValue::Choice("none".to_string()))
    );
    assert_eq!(
        ActionId::AudioTrack.default_value(),
        Some(ActionValue::Choice("audio-0".to_string()))
    );
    assert_eq!(
        ActionId::VideoTrack.default_value(),
        Some(ActionValue::Choice("video-0".to_string()))
    );
    assert_eq!(ActionId::Quit.default_value(), None);
    assert_eq!(ActionId::OpenMedia.default_value(), None);
}

#[test]
fn actions_that_work_by_activation() {
    let activated: Vec<ActionId> =
        (0..17).map(|i| ActionId::at(i).unwrap()).filter(|action| action.is_activated()).collect();
    assert_eq!(
        activated,
        vec![
            ActionId::OpenMedia,
            ActionId::OpenSubtitleFile,
            ActionId::DumpPipeline,
            ActionId::About,
            ActionId::Quit,
        ]
    );
    let asking: Vec<ActionId> =
        (0..17).map(|i| ActionId::at(i).unwrap()).filter(|action| action.opens_dialog()).collect();
    assert_eq!(asking, vec![ActionId::OpenMedia, ActionId::OpenSubtitleFile]);
}

#[test]
fn detailed_action_names() {
    assert_eq!(ActionId::Subtitle.detailed_action("none"), "app.subtitle::none");
    assert_eq!(ActionId::Subtitle.detailed_action("sub-0"), "app.subtitle::sub-0");
    assert_eq!(ActionId::AudioTrack.detailed_action("audio--1"), "app.audio-track::audio--1");
    assert_eq!(ActionId::VideoTrack.detailed_action("video-2"), "app.video-track::video-2");
    assert_eq!(
        ActionId::AudioVisualization.detailed_action("goom"),
        "app.audio-visualization::goom"
    );
}
