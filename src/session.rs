//! The session loop's decisions, as a function from the current phase and the
//! outcome of the last action to the next phase and the next action.
//!
//! The surrounding program performs each action (a subscribe, a sleep, a
//! publish) against the real transport and clock, and reports its outcome back
//! through `Session::step`.
use vstd::prelude::*;
use crate::bridge::{Received, SampleReceiver};

verus! {

/// Pause before a failed subscribe is tried again, in milliseconds.
pub const SUBSCRIBE_RETRY_MS: u64 = 500;

/// Pause after a successful subscribe before publishing starts, in milliseconds.
pub const GRACE_MS: u64 = 500;

/// Pause between two publishes, in milliseconds.
pub const PUBLISH_PERIOD_MS: u64 = 2000;

/// Payload published while no sensor sample has arrived.
pub const PLACEHOLDER_PAYLOAD: &'static str = "Hello from esp-mqtt-demo!";

/// Where the session loop stands.
#[derive(PartialEq, Eq, Structural, Clone, Copy, Debug)]
pub enum Phase {
    /// A subscribe to the subscribe topic is to be attempted.
    Subscribing,
    /// The last subscribe failed; waiting before the next attempt.
    RetryBackoff,
    /// Subscribed; waiting out the grace period before the first publish.
    Grace,
    /// A publish to the publish topic is to be attempted.
    Publishing,
    /// The last publish succeeded; waiting for the next publish period.
    Cadence,
}

/// What came of the last action, or a signal from the event pump.
#[derive(PartialEq, Eq, Structural, Clone, Copy, Debug)]
pub enum Outcome {
    SubscribeSucceeded,
    SubscribeFailed,
    Slept,
    Published,
    PublishFailed,
    /// The connection handle's event sequence has ended.
    ConnectionClosed,
}

/// What the surrounding program is asked to do next.
#[derive(PartialEq, Eq, Clone, Debug)]
pub enum Action {
    /// Subscribe to `topic` at quality "at most once".
    Subscribe { topic: String },
    /// Sleep for `millis` milliseconds.
    Sleep { millis: u64 },
    /// Enqueue `payload` on `topic` at quality "at most once", not retained.
    Publish { topic: String, payload: String },
}

/// The mathematical value of an `Action`.
pub ghost enum Step {
    Subscribe(Seq<char>),
    Sleep(u64),
    Publish(Seq<char>, Seq<char>),
}

impl View for Action {
    type V = Step;

    open spec fn view(&self) -> Step {
        match self {
            Action::Subscribe { topic } => Step::Subscribe(topic@),
            Action::Sleep { millis } => Step::Sleep(*millis),
            Action::Publish { topic, payload } => Step::Publish(topic@, payload@),
        }
    }
}

/// The mathematical value of a `Session`.
pub ghost struct SessionView {
    pub phase: Phase,
    pub pub_topic: Seq<char>,
    pub sub_topic: Seq<char>,
    pub sample: Option<Seq<char>>,
}

/// The phase that follows `p` once `o` has been reported. An outcome that does
/// not belong to the phase leaves it unchanged, so the same action is asked again.
pub open spec fn next_phase(p: Phase, o: Outcome) -> Phase {
    match (p, o) {
        (_, Outcome::ConnectionClosed) => Phase::Subscribing,
        (Phase::Subscribing, Outcome::SubscribeFailed) => Phase::RetryBackoff,
        (Phase::Subscribing, Outcome::SubscribeSucceeded) => Phase::Grace,
        (Phase::RetryBackoff, Outcome::Slept) => Phase::Subscribing,
        (Phase::Grace, Outcome::Slept) => Phase::Publishing,
        (Phase::Publishing, Outcome::Published) => Phase::Cadence,
        (Phase::Publishing, Outcome::PublishFailed) => Phase::Subscribing,
        (Phase::Cadence, Outcome::Slept) => Phase::Publishing,
        _ => p,
    }
}

/// The payload of a publish: the latest sample, or the placeholder when none came.
pub open spec fn payload_of(sample: Option<Seq<char>>) -> Seq<char> {
    match sample {
        Some(s) => s,
        None => PLACEHOLDER_PAYLOAD@,
    }
}

/// The action that a session in state `v` asks for.
pub open spec fn step_of(v: SessionView) -> Step {
    match v.phase {
        Phase::Subscribing => Step::Subscribe(v.sub_topic),
        Phase::RetryBackoff => Step::Sleep(SUBSCRIBE_RETRY_MS),
        Phase::Grace => Step::Sleep(GRACE_MS),
        Phase::Publishing => Step::Publish(v.pub_topic, payload_of(v.sample)),
        Phase::Cadence => Step::Sleep(PUBLISH_PERIOD_MS),
    }
}

/// The state that follows `v` once `o` has been reported.
pub open spec fn after(v: SessionView, o: Outcome) -> SessionView {
    SessionView { phase: next_phase(v.phase, o), ..v }
}

/// The state that follows `v` once the bridge has been looked into: a sample
/// taken out replaces the one kept before.
pub open spec fn absorbed(v: SessionView, received: Received) -> SessionView {
    match received {
        Received::Sample(s) => SessionView { sample: Some(s@), ..v },
        _ => v,
    }
}

/// The orchestrator's state: its phase, the two topics fixed at construction,
/// and the latest sample taken from the sensor bridge.
pub struct Session {
    phase: Phase,
    pub_topic: String,
    sub_topic: String,
    sample: Option<String>,
}

impl View for Session {
    type V = SessionView;

    closed spec fn view(&self) -> SessionView {
        SessionView {
            phase: self.phase,
            pub_topic: self.pub_topic@,
            sub_topic: self.sub_topic@,
            sample: match self.sample {
                Some(s) => Some(s@),
                None => None,
            },
        }
    }
}

impl Session {
    /// A session that has yet to subscribe, with no sample.
    pub fn new(pub_topic: &str, sub_topic: &str) -> (r: Session)
        ensures
            r@ == (SessionView {
                phase: Phase::Subscribing,
                pub_topic: pub_topic@,
                sub_topic: sub_topic@,
                sample: None,
            }),
    {
        Session {
            phase: Phase::Subscribing,
            pub_topic: pub_topic.to_string(),
            sub_topic: sub_topic.to_string(),
            sample: None,
        }
    }

    pub fn phase(&self) -> (r: Phase)
        ensures
            r == self@.phase,
    {
        self.phase
    }

    pub fn pub_topic(&self) -> (r: &str)
        ensures
            r@ == self@.pub_topic,
    {
        self.pub_topic.as_str()
    }

    pub fn sub_topic(&self) -> (r: &str)
        ensures
            r@ == self@.sub_topic,
    {
        self.sub_topic.as_str()
    }

    /// The payload that the next publish carries.
    pub fn payload(&self) -> (r: String)
        ensures
            r@ == payload_of(self@.sample),
    {
        match &self.sample {
            Some(s) => s.clone(),
            None => PLACEHOLDER_PAYLOAD.to_string(),
        }
    }

    /// The action that the session asks for in its present state.
    pub fn action(&self) -> (r: Action)
        ensures
            r@ == step_of(self@),
    {
        match self.phase {
            Phase::Subscribing => Action::Subscribe { topic: self.sub_topic.clone() },
            Phase::RetryBackoff => Action::Sleep { millis: SUBSCRIBE_RETRY_MS },
            Phase::Grace => Action::Sleep { millis: GRACE_MS },
            Phase::Publishing => Action::Publish {
                topic: self.pub_topic.clone(),
                payload: self.payload(),
            },
            Phase::Cadence => Action::Sleep { millis: PUBLISH_PERIOD_MS },
        }
    }

    /// Keeps the sample taken out of the bridge, if any, as the payload of
    /// the next publishes.
    pub fn absorb(&mut self, received: Received)
        ensures
            final(self)@ == absorbed(old(self)@, received),
    {
        match received {
            Received::Sample(s) => {
                self.sample = Some(s);
            },
            _ => {},
        }
    }

    /// Looks into the bridge without blocking and keeps what it held; returns
    /// whether a sample was taken out. The phase and the topics stay as they
    /// were whatever the bridge held.
    pub fn poll_bridge(&mut self, rx: &SampleReceiver) -> (r: bool)
        ensures
            final(self)@.phase == old(self)@.phase,
            final(self)@.pub_topic == old(self)@.pub_topic,
            final(self)@.sub_topic == old(self)@.sub_topic,
            r ==> final(self)@.sample is Some,
            !r ==> final(self)@ == old(self)@,
    {
        let received = rx.receive();
        let took = matches!(received, Received::Sample(_));
        self.absorb(received);
        took
    }

    /// Takes in the outcome of the last action and returns the next action.
    pub fn step(&mut self, outcome: Outcome) -> (r: Action)
        ensures
            final(self)@ == after(old(self)@, outcome),
            r@ == step_of(final(self)@),
    {
        let next = match (self.phase, outcome) {
            (_, Outcome::ConnectionClosed) => Phase::Subscribing,
            (Phase::Subscribing, Outcome::SubscribeFailed) => Phase::RetryBackoff,
            (Phase::Subscribing, Outcome::SubscribeSucceeded) => Phase::Grace,
            (Phase::RetryBackoff, Outcome::Slept) => Phase::Subscribing,
            (Phase::Grace, Outcome::Slept) => Phase::Publishing,
            (Phase::Publishing, Outcome::Published) => Phase::Cadence,
            (Phase::Publishing, Outcome::PublishFailed) => Phase::Subscribing,
            (Phase::Cadence, Outcome::Slept) => Phase::Publishing,
            (p, _) => p,
        };
        self.phase = next;
        self.action()
    }
}

/// The state reached from `v` once each outcome of `outcomes` has been reported in turn.
pub open spec fn run(v: SessionView, outcomes: Seq<Outcome>) -> SessionView
    decreases outcomes.len(),
{
    if outcomes.len() == 0 {
        v
    } else {
        run(after(v, outcomes[0]), outcomes.drop_first())
    }
}

/// The actions asked for from `v` after each outcome of `outcomes` in turn.
pub open spec fn steps(v: SessionView, outcomes: Seq<Outcome>) -> Seq<Step>
    decreases outcomes.len(),
{
    if outcomes.len() == 0 {
        Seq::empty()
    } else {
        let w = after(v, outcomes[0]);
        seq![step_of(w)].add(steps(w, outcomes.drop_first()))
    }
}

/// `a` then `b`, `n` times over.
pub open spec fn repeat_pair<T>(a: T, b: T, n: nat) -> Seq<T>
    decreases n,
{
    if n == 0 {
        Seq::empty()
    } else {
        seq![a, b].add(repeat_pair(a, b, (n - 1) as nat))
    }
}

/// `n` failed subscribe attempts, each followed by its back-off sleep.
pub open spec fn failed_attempts(n: nat) -> Seq<Outcome> {
    repeat_pair(Outcome::SubscribeFailed, Outcome::Slept, n)
}

proof fn lemma_cycle(v: SessionView, a: Outcome, b: Outcome, n: nat)
    requires
        after(after(v, a), b) == v,
    ensures
        run(v, repeat_pair(a, b, n)) == v,
        steps(v, repeat_pair(a, b, n)) == repeat_pair(step_of(after(v, a)), step_of(v), n),
    decreases n,
{
    if n > 0 {
        let rest = repeat_pair(a, b, (n - 1) as nat);
        let all = repeat_pair(a, b, n);
        let w = after(v, a);
        lemma_cycle(v, a, b, (n - 1) as nat);
        assert(all[0] == a);
        assert(all.drop_first() =~= seq![b].add(rest));
        assert(all.drop_first()[0] == b);
        assert(all.drop_first().drop_first() =~= rest);
        assert(run(v, all) == run(w, all.drop_first()));
        assert(run(w, all.drop_first()) == run(v, rest));
        assert(steps(w, all.drop_first()) == seq![step_of(v)].add(steps(v, rest)));
        assert(steps(v, all) =~= seq![step_of(w), step_of(v)].add(steps(v, rest)));
    }
}

/// However many subscribe attempts fail in a row, each failure is followed by
/// one sleep of exactly the retry interval and then by a subscribe to the same
/// topic, with no other action between; and the session comes back to exactly
/// the state it had, so nothing is kept from a failed attempt.
pub proof fn lemma_retry_after_failure(v: SessionView, n: nat)
    requires
        v.phase == Phase::Subscribing,
    ensures
        steps(v, failed_attempts(n)) == repeat_pair(
            Step::Sleep(SUBSCRIBE_RETRY_MS),
            Step::Subscribe(v.sub_topic),
            n,
        ),
        run(v, failed_attempts(n)) == v,
{
    lemma_cycle(v, Outcome::SubscribeFailed, Outcome::Slept, n);
}

proof fn lemma_run_push(v: SessionView, outcomes: Seq<Outcome>, o: Outcome)
    ensures
        run(v, outcomes.push(o)) == after(run(v, outcomes), o),
    decreases outcomes.len(),
{
    if outcomes.len() > 0 {
        assert(outcomes.push(o)[0] == outcomes[0]);
        assert(outcomes.push(o).drop_first() =~= outcomes.drop_first().push(o));
        lemma_run_push(after(v, outcomes[0]), outcomes.drop_first(), o);
    } else {
        assert(outcomes.push(o)[0] == o);
        assert(outcomes.push(o).drop_first() =~= Seq::<Outcome>::empty());
        assert(run(after(v, o), Seq::<Outcome>::empty()) == after(v, o));
    }
}

/// However many subscribe attempts fail first, a subscribe that then succeeds
/// leads to the grace sleep, from exactly the state that the first attempt had.
pub proof fn lemma_subscribe_after_failures(v: SessionView, n: nat)
    requires
        v.phase == Phase::Subscribing,
    ensures
        run(v, failed_attempts(n).push(Outcome::SubscribeSucceeded)) == after(
            v,
            Outcome::SubscribeSucceeded,
        ),
        step_of(run(v, failed_attempts(n).push(Outcome::SubscribeSucceeded))) == Step::Sleep(
            GRACE_MS,
        ),
{
    lemma_retry_after_failure(v, n);
    lemma_run_push(v, failed_attempts(n), Outcome::SubscribeSucceeded);
}

/// A successful subscribe is followed by the grace sleep, and while the
/// grace period lasts no outcome but the end of that sleep leads to a publish.
pub proof fn lemma_grace_before_publish(v: SessionView, o: Outcome)
    requires
        v.phase == Phase::Subscribing,
    ensures
        after(v, Outcome::SubscribeSucceeded).phase == Phase::Grace,
        step_of(after(v, Outcome::SubscribeSucceeded)) == Step::Sleep(GRACE_MS),
        step_of(after(after(v, Outcome::SubscribeSucceeded), o)) is Publish ==> o
            == Outcome::Slept,
{
}

/// Once the connection's event sequence has ended, the next step is a fresh
/// subscribe, from any state.
pub proof fn lemma_disconnect_resubscribes(v: SessionView)
    ensures
        after(v, Outcome::ConnectionClosed).phase == Phase::Subscribing,
        step_of(after(v, Outcome::ConnectionClosed)) == Step::Subscribe(v.sub_topic),
{
}

/// While publishes succeed, each is followed by one sleep of the publish
/// period and then by the next publish, on the same topic with the latest
/// sample or the placeholder, for any number of periods; a failed publish
/// leads back to a subscribe.
pub proof fn lemma_publish_cadence(v: SessionView, k: nat)
    requires
        v.phase == Phase::Publishing,
    ensures
        steps(v, repeat_pair(Outcome::Published, Outcome::Slept, k)) == repeat_pair(
            Step::Sleep(PUBLISH_PERIOD_MS),
            Step::Publish(v.pub_topic, payload_of(v.sample)),
            k,
        ),
        run(v, repeat_pair(Outcome::Published, Outcome::Slept, k)) == v,
        step_of(after(v, Outcome::PublishFailed)) == Step::Subscribe(v.sub_topic),
{
    lemma_cycle(v, Outcome::Published, Outcome::Slept, k);
}

} // verus!
