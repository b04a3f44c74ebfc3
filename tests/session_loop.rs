use ultrasonic::bridge::{sample_bridge, Offered};
use ultrasonic::session::{
    Action, Outcome, Phase, Session, GRACE_MS, PLACEHOLDER_PAYLOAD, PUBLISH_PERIOD_MS,
    SUBSCRIBE_RETRY_MS,
};

fn subscribe(topic: &str) -> Action {
    Action::Subscribe { topic: topic.to_string() }
}

fn sleep(millis: u64) -> Action {
    Action::Sleep { millis }
}

fn publish(topic: &str, payload: &str) -> Action {
    Action::Publish { topic: topic.to_string(), payload: payload.to_string() }
}

#[test]
fn starts_by_subscribing() {
    let s = Session::new("out", "in");
    assert_eq!(s.phase(), Phase::Subscribing);
    assert_eq!(s.action(), subscribe("in"));
    assert_eq!(s.pub_topic(), "out");
    assert_eq!(s.sub_topic(), "in");
    assert_eq!(s.payload(), PLACEHOLDER_PAYLOAD);
}

#[test]
fn intervals_are_fixed() {
    assert_eq!(SUBSCRIBE_RETRY_MS, 500);
    assert_eq!(GRACE_MS, 500);
    assert_eq!(PUBLISH_PERIOD_MS, 2000);
    assert_eq!(PLACEHOLDER_PAYLOAD, "Hello from esp-mqtt-demo!");
}

#[test]
fn happy_path_publishes_every_period() {
    let mut s = Session::new("out", "in");
    assert_eq!(s.step(Outcome::SubscribeSucceeded), sleep(500));
    assert_eq!(s.phase(), Phase::Grace);
    assert_eq!(s.step(Outcome::Slept), publish("out", PLACEHOLDER_PAYLOAD));
    for _ in 0..5 {
        assert_eq!(s.step(Outcome::Published), sleep(2000));
        assert_eq!(s.phase(), Phase::Cadence);
        assert_eq!(s.step(Outcome::Slept), publish("out", PLACEHOLDER_PAYLOAD));
    }
}

#[test]
fn happy_path_publishes_latest_bridged_sample() {
    let (tx, rx) = sample_bridge();
    let mut s = Session::new("out", "in");
    s.step(Outcome::SubscribeSucceeded);
    assert!(!s.poll_bridge(&rx));
    assert_eq!(s.step(Outcome::Slept), publish("out", PLACEHOLDER_PAYLOAD));
    assert_eq!(tx.offer("12 cm".to_string()), Offered::Accepted);
    assert!(s.poll_bridge(&rx));
    assert_eq!(s.step(Outcome::Published), sleep(2000));
    assert_eq!(s.step(Outcome::Slept), publish("out", "12 cm"));
    // With nothing new in the bridge the last sample is published again.
    assert!(!s.poll_bridge(&rx));
    assert_eq!(s.step(Outcome::Published), sleep(2000));
    assert_eq!(s.step(Outcome::Slept), publish("out", "12 cm"));
    assert_eq!(tx.offer("13 cm".to_string()), Offered::Accepted);
    assert!(s.poll_bridge(&rx));
    assert_eq!(s.action(), publish("out", "13 cm"));
}

#[test]
fn subscribe_flapping_retries_three_times() {
    let mut s = Session::new("out", "in");
    let mut action = s.action();
    let mut failures: usize = 0;
    let mut slept_after_failure: Vec<u64> = Vec::new();
    let mut attempts: usize = 0;
    let mut trace: Vec<Action> = vec![action.clone()];
    while !matches!(action, Action::Publish { .. }) {
        let outcome = match &action {
            Action::Subscribe { topic } => {
                assert_eq!(topic, "in");
                attempts += 1;
                if attempts <= 3 {
                    failures += 1;
                    Outcome::SubscribeFailed
                } else {
                    Outcome::SubscribeSucceeded
                }
            }
            Action::Sleep { millis } => {
                if s.phase() == Phase::RetryBackoff {
                    slept_after_failure.push(*millis);
                }
                Outcome::Slept
            }
            Action::Publish { .. } => unreachable!(),
        };
        action = s.step(outcome);
        trace.push(action.clone());
    }
    assert_eq!(failures, 3);
    assert_eq!(slept_after_failure, vec![500, 500, 500]);
    assert_eq!(
        trace,
        vec![
            subscribe("in"),
            sleep(500),
            subscribe("in"),
            sleep(500),
            subscribe("in"),
            sleep(500),
            subscribe("in"),
            sleep(500),
            publish("out", PLACEHOLDER_PAYLOAD),
        ]
    );
}

#[test]
fn many_failures_leave_state_unchanged() {
    let mut s = Session::new("out", "in");
    for _ in 0..1000 {
        assert_eq!(s.step(Outcome::SubscribeFailed), sleep(500));
        assert_eq!(s.phase(), Phase::RetryBackoff);
        assert_eq!(s.step(Outcome::Slept), subscribe("in"));
        assert_eq!(s.phase(), Phase::Subscribing);
    }
    assert_eq!(s.pub_topic(), "out");
    assert_eq!(s.sub_topic(), "in");
    assert_eq!(s.payload(), PLACEHOLDER_PAYLOAD);
}

#[test]
fn no_publish_during_grace() {
    for o in [
        Outcome::SubscribeSucceeded,
        Outcome::SubscribeFailed,
        Outcome::Published,
        Outcome::PublishFailed,
    ] {
        let mut s = Session::new("out", "in");
        s.step(Outcome::SubscribeSucceeded);
        let a = s.step(o);
        assert!(!matches!(a, Action::Publish { .. }));
        assert_eq!(s.phase(), Phase::Grace);
    }
    let mut s = Session::new("out", "in");
    s.step(Outcome::SubscribeSucceeded);
    assert_eq!(s.step(Outcome::ConnectionClosed), subscribe("in"));
}

#[test]
fn disconnect_mid_session_resubscribes() {
    let mut s = Session::new("out", "in");
    s.step(Outcome::SubscribeSucceeded);
    s.step(Outcome::Slept);
    s.step(Outcome::Published);
    assert_eq!(s.phase(), Phase::Cadence);
    assert_eq!(s.step(Outcome::ConnectionClosed), subscribe("in"));
    assert_eq!(s.phase(), Phase::Subscribing);
    let mut t = Session::new("out", "in");
    t.step(Outcome::SubscribeSucceeded);
    t.step(Outcome::Slept);
    assert_eq!(t.phase(), Phase::Publishing);
    assert_eq!(t.step(Outcome::ConnectionClosed), subscribe("in"));
}

#[test]
fn publish_failure_resubscribes() {
    let mut s = Session::new("out", "in");
    s.step(Outcome::SubscribeSucceeded);
    s.step(Outcome::Slept);
    assert_eq!(s.step(Outcome::PublishFailed), subscribe("in"));
    assert_eq!(s.phase(), Phase::Subscribing);
}
