use service_tray::feed::{Feed, FeedAction, FeedEvent, FeedMessage, FeedPhase};
use service_tray::feed::{BACKOFF_MS, CONNECT_TIMEOUT_MS, HEARTBEAT_COUNT, HEARTBEAT_MS};

const CONNECT: FeedAction = FeedAction::Connect { timeout_ms: 1000 };
const BACKOFF: FeedAction = FeedAction::Backoff { sleep_ms: 1000 };
const LISTEN: FeedAction = FeedAction::Listen { heartbeat_ms: 1000 };

fn count(n: usize) -> FeedEvent {
    FeedEvent::Received(FeedMessage::SessionCount(n))
}

fn connected() -> Feed {
    let (mut feed, _) = Feed::start();
    assert_eq!(feed.step(FeedEvent::Connected), LISTEN);
    feed
}

fn run(feed: &mut Feed, events: &[FeedEvent]) -> Vec<FeedAction> {
    events.iter().map(|e| feed.step(*e)).collect()
}

#[test]
fn intervals_are_one_second() {
    assert_eq!(CONNECT_TIMEOUT_MS, 1000);
    assert_eq!(BACKOFF_MS, 1000);
    assert_eq!(HEARTBEAT_MS, 1000);
    assert_eq!(HEARTBEAT_COUNT, 0);
}

#[test]
fn a_feed_starts_by_connecting() {
    let (feed, action) = Feed::start();
    assert_eq!(action, CONNECT);
    assert_eq!(feed, Feed { phase: FeedPhase::Connecting, last_count: 0 });
}

#[test]
fn an_unreachable_endpoint_is_retried_after_each_backoff() {
    let (mut feed, first) = Feed::start();
    let mut actions = vec![first];
    for _ in 0..5 {
        actions.push(feed.step(FeedEvent::ConnectFailed));
        actions.push(feed.step(FeedEvent::BackoffElapsed));
    }
    for pair in actions.windows(2) {
        if pair[1] == CONNECT {
            assert_eq!(pair[0], BACKOFF);
        }
    }
    assert_eq!(actions.iter().filter(|a| **a == CONNECT).count(), 6);
    assert_eq!(actions.iter().filter(|a| **a == BACKOFF).count(), 5);
    assert!(!actions.iter().any(|a| matches!(a, FeedAction::Forward(_))));
}

#[test]
fn nothing_is_forwarded_while_disconnected() {
    let (mut feed, _) = Feed::start();
    assert_eq!(feed.step(count(4)), FeedAction::Continue);
    assert_eq!(feed.step(FeedEvent::ConnectFailed), BACKOFF);
    assert_eq!(feed.step(count(4)), FeedAction::Continue);
    assert_eq!(feed.step(FeedEvent::HeartbeatDue), FeedAction::Continue);
    assert_eq!(feed, Feed { phase: FeedPhase::BackingOff, last_count: 0 });
}

#[test]
fn no_connect_before_the_backoff_is_over() {
    let (mut feed, _) = Feed::start();
    assert_eq!(feed.step(FeedEvent::ConnectFailed), BACKOFF);
    let actions = run(
        &mut feed,
        &[FeedEvent::ConnectFailed, FeedEvent::Connected, FeedEvent::ReadFailed, count(1)],
    );
    assert_eq!(actions, vec![FeedAction::Continue; 4]);
    assert_eq!(feed.phase, FeedPhase::BackingOff);
    assert_eq!(feed.step(FeedEvent::BackoffElapsed), CONNECT);
    assert_eq!(feed.step(FeedEvent::BackoffElapsed), FeedAction::Continue);
}

#[test]
fn a_changed_count_is_forwarded() {
    let mut feed = connected();
    assert_eq!(feed.step(count(2)), FeedAction::Forward(2));
    assert_eq!(feed.last_count, 2);
    assert_eq!(feed.step(count(5)), FeedAction::Forward(5));
    assert_eq!(feed.step(count(0)), FeedAction::Forward(0));
}

#[test]
fn a_repeated_count_is_not_forwarded() {
    let mut feed = connected();
    let actions = run(&mut feed, &[count(2), count(2), count(2), count(3), count(3), count(2)]);
    assert_eq!(
        actions,
        vec![
            FeedAction::Forward(2),
            FeedAction::Continue,
            FeedAction::Continue,
            FeedAction::Forward(3),
            FeedAction::Continue,
            FeedAction::Forward(2),
        ]
    );
}

#[test]
fn a_first_count_of_zero_is_not_forwarded() {
    let mut feed = connected();
    assert_eq!(feed.step(count(0)), FeedAction::Continue);
}

#[test]
fn other_messages_are_dropped() {
    let mut feed = connected();
    assert_eq!(feed.step(FeedEvent::Received(FeedMessage::Other)), FeedAction::Continue);
    assert_eq!(feed, Feed { phase: FeedPhase::Connected, last_count: 0 });
}

#[test]
fn the_timer_sends_a_zero_heartbeat() {
    let mut feed = connected();
    feed.step(count(7));
    assert_eq!(feed.step(FeedEvent::HeartbeatDue), FeedAction::SendHeartbeat(0));
    assert_eq!(feed, Feed { phase: FeedPhase::Connected, last_count: 7 });
}

#[test]
fn a_read_error_leads_to_backoff_and_reconnect() {
    let mut feed = connected();
    assert_eq!(feed.step(FeedEvent::ReadFailed), BACKOFF);
    assert_eq!(feed.phase, FeedPhase::BackingOff);
    assert_eq!(feed.step(FeedEvent::BackoffElapsed), CONNECT);
    assert_eq!(feed.step(FeedEvent::Connected), LISTEN);
    assert_eq!(feed.phase, FeedPhase::Connected);
}

#[test]
fn the_last_count_survives_a_reconnect() {
    let mut feed = connected();
    assert_eq!(feed.step(count(3)), FeedAction::Forward(3));
    run(&mut feed, &[FeedEvent::ReadFailed, FeedEvent::BackoffElapsed, FeedEvent::Connected]);
    assert_eq!(feed.step(count(3)), FeedAction::Continue);
    assert_eq!(feed.step(count(4)), FeedAction::Forward(4));
}

#[test]
fn attempts_and_backoffs_keep_pace_over_a_long_run() {
    let (mut feed, _) = Feed::start();
    let events = [
        FeedEvent::ConnectFailed,
        FeedEvent::BackoffElapsed,
        FeedEvent::Connected,
        count(1),
        FeedEvent::HeartbeatDue,
        FeedEvent::ReadFailed,
        FeedEvent::ReadFailed,
        FeedEvent::BackoffElapsed,
        FeedEvent::ConnectFailed,
        FeedEvent::BackoffElapsed,
        FeedEvent::Connected,
        count(1),
        count(2),
    ];
    let actions = run(&mut feed, &events);
    let connects = actions.iter().filter(|a| **a == CONNECT).count();
    let backoffs = actions.iter().filter(|a| **a == BACKOFF).count();
    assert_eq!(connects, 3);
    assert_eq!(backoffs, 3);
    let forwarded: Vec<FeedAction> =
        actions.into_iter().filter(|a| matches!(a, FeedAction::Forward(_))).collect();
    assert_eq!(forwarded, vec![FeedAction::Forward(1), FeedAction::Forward(2)]);
}
