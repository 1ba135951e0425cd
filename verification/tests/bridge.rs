use video_player::channel::{
    bridge_step, classify, conclude_turn, pending_action, BridgeStep, BridgeTurn, EventBridge,
    Found, Polled, POLL_INTERVAL_MS,
};
use video_player::event::{PlaybackEvent, PlaybackState, UIAction};
use video_player::state::Platform;
use video_player::video_player::VideoPlayer;

fn sample_events() -> Vec<PlaybackEvent> {
    vec![
        PlaybackEvent::MediaInfoUpdated,
        PlaybackEvent::PositionUpdated,
        PlaybackEvent::VideoDimensionsChanged(640, 480),
        PlaybackEvent::StateChanged(PlaybackState::Playing),
        PlaybackEvent::VolumeChanged(0x3FE0_0000_0000_0000),
        PlaybackEvent::PositionUpdated,
        PlaybackEvent::EndOfStream,
        PlaybackEvent::Error("decoder gave up".to_string()),
    ]
}

#[test]
fn poll_interval_is_fifty_milliseconds() {
    assert_eq!(POLL_INTERVAL_MS, 50);
}

#[test]
fn an_event_is_forwarded_as_it_is() {
    let event = PlaybackEvent::VideoDimensionsChanged(800, 600);
    assert_eq!(
        bridge_step(Polled::Item(event.clone())),
        BridgeStep { message: Some(UIAction::ForwardedEvent(event)), proceed: true }
    );
}

#[test]
fn an_empty_queue_asks_for_nothing() {
    assert_eq!(bridge_step(Polled::Empty), BridgeStep { message: None, proceed: true });
}

#[test]
fn a_lost_engine_is_turned_into_quit() {
    assert_eq!(
        bridge_step(Polled::Disconnected),
        BridgeStep { message: Some(UIAction::Quit), proceed: false }
    );
}

#[test]
fn a_turn_on_an_empty_queue_waits() {
    let (player, _) = VideoPlayer::new(Platform::Linux, false);
    let bridge = player.bridge();
    assert_eq!(
        bridge.turn(),
        BridgeTurn { found: Found::Nothing, delivered: false, wake: false, proceed: true }
    );
    assert_eq!(player.take_action(), None);
}

#[test]
fn every_event_is_forwarded_once_and_in_order() {
    let (mut player, _) = VideoPlayer::new(Platform::Linux, false);
    let bridge = player.bridge();
    let engine = player.take_event_sender().unwrap();
    let events = sample_events();
    for event in events.iter() {
        engine.send(event.clone()).unwrap();
    }
    let mut wakes = 0;
    for _ in 0..events.len() {
        let turn = bridge.turn();
        assert_eq!(
            turn,
            BridgeTurn { found: Found::Event, delivered: true, wake: true, proceed: true }
        );
        wakes += 1;
    }
    assert_eq!(bridge.turn().found, Found::Nothing);
    assert_eq!(wakes, events.len());
    for event in events {
        assert_eq!(player.take_action(), Some(UIAction::ForwardedEvent(event)));
    }
    assert_eq!(player.take_action(), None);
}

#[test]
fn interleaved_turns_and_wakes_keep_the_order() {
    let (mut player, _) = VideoPlayer::new(Platform::Linux, false);
    let bridge = player.bridge();
    let engine = player.take_event_sender().unwrap();
    let mut delivered = Vec::new();
    for (round, event) in sample_events().into_iter().enumerate() {
        engine.send(event).unwrap();
        if round % 3 == 2 {
            // The bridge was slow: three events wait for it.
            while bridge.turn().wake {
                delivered.push(player.take_action().unwrap());
            }
        }
    }
    let mut wakes = 0;
    while bridge.turn().wake {
        wakes += 1;
    }
    for _ in 0..wakes {
        delivered.push(player.take_action().unwrap());
    }
    assert_eq!(player.take_action(), None);
    let expected: Vec<UIAction> =
        sample_events().into_iter().map(UIAction::ForwardedEvent).collect();
    assert_eq!(delivered, expected);
}

#[test]
fn a_quit_request_can_be_queued_from_outside() {
    let (player, _) = VideoPlayer::new(Platform::Linux, false);
    player.action_sender().send(UIAction::Quit).unwrap();
    assert_eq!(player.take_action(), Some(UIAction::Quit));
    assert_eq!(player.take_action(), None);
}

#[test]
fn a_turn_without_a_loop_to_deliver_to_ends_the_bridge() {
    let (mut player, _) = VideoPlayer::new(Platform::Linux, false);
    let bridge = player.bridge();
    let engine = player.take_event_sender().unwrap();
    engine.send(PlaybackEvent::PositionUpdated).unwrap();
    drop(player);
    assert_eq!(
        bridge.turn(),
        BridgeTurn { found: Found::Event, delivered: false, wake: false, proceed: false }
    );
}

#[test]
fn a_lost_engine_queues_quit_after_the_last_event() {
    let (mut player, _) = VideoPlayer::new(Platform::Linux, false);
    let bridge = player.bridge();
    let engine = player.take_event_sender().unwrap();
    engine.send(PlaybackEvent::PositionUpdated).unwrap();
    drop(engine);
    assert_eq!(
        bridge.turn(),
        BridgeTurn { found: Found::Event, delivered: true, wake: true, proceed: true }
    );
    assert_eq!(
        bridge.turn(),
        BridgeTurn { found: Found::Disconnection, delivered: true, wake: true, proceed: false }
    );
    assert_eq!(player.take_action(), Some(UIAction::ForwardedEvent(PlaybackEvent::PositionUpdated)));
    assert_eq!(player.take_action(), Some(UIAction::Quit));
    assert_eq!(player.take_action(), None);
}

#[test]
fn the_event_sender_is_handed_over_once() {
    let (mut player, _) = VideoPlayer::new(Platform::Linux, false);
    assert!(player.take_event_sender().is_some());
    assert!(player.take_event_sender().is_none());
}

#[test]
fn a_turn_ends_as_the_rule_says() {
    assert_eq!(classify(&Polled::Item(PlaybackEvent::EndOfStream)), Found::Event);
    assert_eq!(classify(&Polled::Empty), Found::Nothing);
    assert_eq!(classify(&Polled::Disconnected), Found::Disconnection);
    assert_eq!(
        conclude_turn(Found::Event, true),
        BridgeTurn { found: Found::Event, delivered: true, wake: true, proceed: true }
    );
    assert_eq!(
        conclude_turn(Found::Event, false),
        BridgeTurn { found: Found::Event, delivered: false, wake: false, proceed: false }
    );
    assert_eq!(
        conclude_turn(Found::Nothing, false),
        BridgeTurn { found: Found::Nothing, delivered: false, wake: false, proceed: true }
    );
    assert_eq!(
        conclude_turn(Found::Disconnection, true),
        BridgeTurn { found: Found::Disconnection, delivered: true, wake: true, proceed: false }
    );
    assert_eq!(
        conclude_turn(Found::Disconnection, false),
        BridgeTurn { found: Found::Disconnection, delivered: false, wake: false, proceed: false }
    );
    assert_eq!(pending_action(Polled::Item(UIAction::Quit)), Some(UIAction::Quit));
    assert_eq!(pending_action(Polled::Empty), None);
    assert_eq!(pending_action(Polled::Disconnected), None);
}

#[test]
fn a_bridge_moves_events_between_the_ends_it_was_given() {
    let (engine, events) = crossbeam_channel::unbounded();
    let (actions, queue) = crossbeam_channel::unbounded();
    let bridge = EventBridge::new(events, actions);
    engine.send(PlaybackEvent::PositionUpdated).unwrap();
    engine.send(PlaybackEvent::EndOfStream).unwrap();
    assert!(bridge.turn().wake);
    assert!(bridge.turn().wake);
    assert_eq!(queue.try_recv(), Ok(UIAction::ForwardedEvent(PlaybackEvent::PositionUpdated)));
    assert_eq!(queue.try_recv(), Ok(UIAction::ForwardedEvent(PlaybackEvent::EndOfStream)));
    assert!(queue.try_recv().is_err());
}

#[test]
fn the_bridge_and_the_sender_of_a_player_feed_that_player_alone() {
    let (mut first, _) = VideoPlayer::new(Platform::Linux, false);
    let (second, _) = VideoPlayer::new(Platform::Linux, false);
    let bridge = first.bridge();
    let engine = first.take_event_sender().unwrap();
    engine.send(PlaybackEvent::PositionUpdated).unwrap();
    assert!(bridge.turn().wake);
    first.action_sender().send(UIAction::Quit).unwrap();
    assert_eq!(second.take_action(), None);
    assert_eq!(first.take_action(), Some(UIAction::ForwardedEvent(PlaybackEvent::PositionUpdated)));
    assert_eq!(first.take_action(), Some(UIAction::Quit));
    assert_eq!(first.take_action(), None);
}

#[test]
fn a_turn_does_not_wait_for_room_in_a_full_queue() {
    let (engine, events) = crossbeam_channel::unbounded();
    let (actions, queue) = crossbeam_channel::bounded(1);
    let bridge = EventBridge::new(events, actions);
    engine.send(PlaybackEvent::PositionUpdated).unwrap();
    engine.send(PlaybackEvent::EndOfStream).unwrap();
    assert_eq!(
        bridge.turn(),
        BridgeTurn { found: Found::Event, delivered: true, wake: true, proceed: true }
    );
    assert_eq!(
        bridge.turn(),
        BridgeTurn { found: Found::Event, delivered: false, wake: false, proceed: false }
    );
    assert_eq!(queue.try_recv(), Ok(UIAction::ForwardedEvent(PlaybackEvent::PositionUpdated)));
    assert!(queue.try_recv().is_err());
}
