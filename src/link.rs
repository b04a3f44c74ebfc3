//! The connectivity bring-up's decisions: configure the station, start the
//! radio, connect, then poll until the link is up, waiting between polls. Any
//! error of the radio is fatal and never retried.
//!
//! The surrounding program performs each action against the radio driver and
//! reports its outcome back through `Link::step`.
use vstd::prelude::*;
use crate::startup::Config;

verus! {

/// Pause between two polls of the link state, in milliseconds.
pub const LINK_POLL_MS: u64 = 100;

/// Where the bring-up stands.
#[derive(PartialEq, Eq, Structural, Clone, Copy, Debug)]
pub enum LinkPhase {
    /// The station settings are to be applied.
    Configuring,
    /// The radio is to be started.
    Starting,
    /// The connect request is to be issued.
    Connecting,
    /// The link state is to be polled.
    Polling,
    /// The last poll found no link; waiting before the next poll.
    Waiting,
    /// The link is up with an address; its details are to be reported.
    Up,
    /// A radio call failed; the bring-up is abandoned.
    Failed,
}

/// What came of the last radio action.
#[derive(PartialEq, Eq, Structural, Clone, Copy, Debug)]
pub enum LinkOutcome {
    /// The action completed.
    Done,
    /// The radio call returned an error.
    Failed,
    /// A poll completed, telling whether the link is up.
    Connected(bool),
}

/// What the surrounding program is asked to do next with the radio.
#[derive(PartialEq, Eq, Clone, Debug)]
pub enum LinkAction {
    /// Apply station mode with these credentials.
    Configure { ssid: String, password: String },
    /// Start the radio.
    Start,
    /// Issue the connect request.
    Connect,
    /// Ask whether the link is up.
    PollConnected,
    /// Sleep for `millis` milliseconds.
    Sleep { millis: u64 },
    /// Report the address information; the link is ready for the session.
    ReportIp,
    /// Give up: the error that ended the bring-up is fatal.
    Abort,
}

/// The mathematical value of a `LinkAction`.
pub ghost enum LinkStep {
    Configure(Seq<char>, Seq<char>),
    Start,
    Connect,
    PollConnected,
    Sleep(u64),
    ReportIp,
    Abort,
}

impl View for LinkAction {
    type V = LinkStep;

    open spec fn view(&self) -> LinkStep {
        match self {
            LinkAction::Configure { ssid, password } => LinkStep::Configure(ssid@, password@),
            LinkAction::Start => LinkStep::Start,
            LinkAction::Connect => LinkStep::Connect,
            LinkAction::PollConnected => LinkStep::PollConnected,
            LinkAction::Sleep { millis } => LinkStep::Sleep(*millis),
            LinkAction::ReportIp => LinkStep::ReportIp,
            LinkAction::Abort => LinkStep::Abort,
        }
    }
}

/// The mathematical value of a `Link`.
pub ghost struct LinkView {
    pub phase: LinkPhase,
    pub ssid: Seq<char>,
    pub password: Seq<char>,
}

/// The phase that follows `p` once `o` has been reported. A failure ends the
/// bring-up for good; an outcome that does not belong to the phase leaves it
/// unchanged, so the same action is asked again.
pub open spec fn link_next_phase(p: LinkPhase, o: LinkOutcome) -> LinkPhase {
    match (p, o) {
        (LinkPhase::Failed, _) => LinkPhase::Failed,
        (_, LinkOutcome::Failed) => LinkPhase::Failed,
        (LinkPhase::Configuring, LinkOutcome::Done) => LinkPhase::Starting,
        (LinkPhase::Starting, LinkOutcome::Done) => LinkPhase::Connecting,
        (LinkPhase::Connecting, LinkOutcome::Done) => LinkPhase::Polling,
        (LinkPhase::Polling, LinkOutcome::Connected(up)) => if up {
            LinkPhase::Up
        } else {
            LinkPhase::Waiting
        },
        (LinkPhase::Waiting, LinkOutcome::Done) => LinkPhase::Polling,
        _ => p,
    }
}

/// The state that follows `v` once `o` has been reported.
pub open spec fn link_after(v: LinkView, o: LinkOutcome) -> LinkView {
    LinkView { phase: link_next_phase(v.phase, o), ..v }
}

/// The action that a bring-up in state `v` asks for.
pub open spec fn link_step_of(v: LinkView) -> LinkStep {
    match v.phase {
        LinkPhase::Configuring => LinkStep::Configure(v.ssid, v.password),
        LinkPhase::Starting => LinkStep::Start,
        LinkPhase::Connecting => LinkStep::Connect,
        LinkPhase::Polling => LinkStep::PollConnected,
        LinkPhase::Waiting => LinkStep::Sleep(LINK_POLL_MS),
        LinkPhase::Up => LinkStep::ReportIp,
        LinkPhase::Failed => LinkStep::Abort,
    }
}

/// The state reached from `v` once each outcome of `outcomes` has been reported in turn.
pub open spec fn link_run(v: LinkView, outcomes: Seq<LinkOutcome>) -> LinkView
    decreases outcomes.len(),
{
    if outcomes.len() == 0 {
        v
    } else {
        link_run(link_after(v, outcomes[0]), outcomes.drop_first())
    }
}

/// The bring-up of the wireless station link: its phase and the station
/// credentials taken from the boot configuration.
pub struct Link {
    phase: LinkPhase,
    ssid: String,
    password: String,
}

impl View for Link {
    type V = LinkView;

    closed spec fn view(&self) -> LinkView {
        LinkView { phase: self.phase, ssid: self.ssid@, password: self.password@ }
    }
}

impl Link {
    /// A bring-up that has yet to configure the station with the credentials of `config`.
    pub fn new(config: &Config) -> (r: Link)
        ensures
            r@.phase == LinkPhase::Configuring,
            r@.ssid == config.wifi_ssid@,
            r@.password == config.wifi_pass@,
    {
        Link {
            phase: LinkPhase::Configuring,
            ssid: config.wifi_ssid.clone(),
            password: config.wifi_pass.clone(),
        }
    }

    pub fn phase(&self) -> (r: LinkPhase)
        ensures
            r == self@.phase,
    {
        self.phase
    }

    /// The action that the bring-up asks for in its present state.
    pub fn action(&self) -> (r: LinkAction)
        ensures
            r@ == link_step_of(self@),
    {
        match self.phase {
            LinkPhase::Configuring => LinkAction::Configure {
                ssid: self.ssid.clone(),
                password: self.password.clone(),
            },
            LinkPhase::Starting => LinkAction::Start,
            LinkPhase::Connecting => LinkAction::Connect,
            LinkPhase::Polling => LinkAction::PollConnected,
            LinkPhase::Waiting => LinkAction::Sleep { millis: LINK_POLL_MS },
            LinkPhase::Up => LinkAction::ReportIp,
            LinkPhase::Failed => LinkAction::Abort,
        }
    }

    /// Takes in the outcome of the last radio action and returns the next action.
    pub fn step(&mut self, outcome: LinkOutcome) -> (r: LinkAction)
        ensures
            final(self)@ == link_after(old(self)@, outcome),
            r@ == link_step_of(final(self)@),
    {
        let next = match (self.phase, outcome) {
            (LinkPhase::Failed, _) => LinkPhase::Failed,
            (_, LinkOutcome::Failed) => LinkPhase::Failed,
            (LinkPhase::Configuring, LinkOutcome::Done) => LinkPhase::Starting,
            (LinkPhase::Starting, LinkOutcome::Done) => LinkPhase::Connecting,
            (LinkPhase::Connecting, LinkOutcome::Done) => LinkPhase::Polling,
            (LinkPhase::Polling, LinkOutcome::Connected(up)) => if up {
                LinkPhase::Up
            } else {
                LinkPhase::Waiting
            },
            (LinkPhase::Waiting, LinkOutcome::Done) => LinkPhase::Polling,
            (p, _) => p,
        };
        self.phase = next;
        self.action()
    }
}

/// A failed radio call ends the bring-up from any phase, and no later outcome
/// brings it back: the bring-up then only asks to abort.
pub proof fn lemma_link_failure_is_final(v: LinkView, outcomes: Seq<LinkOutcome>)
    ensures
        link_after(v, LinkOutcome::Failed).phase == LinkPhase::Failed,
        link_step_of(link_after(v, LinkOutcome::Failed)) == LinkStep::Abort,
        v.phase == LinkPhase::Failed ==> link_run(v, outcomes).phase == LinkPhase::Failed,
    decreases outcomes.len(),
{
    if outcomes.len() > 0 {
        lemma_link_failure_is_final(link_after(v, outcomes[0]), outcomes.drop_first());
    }
}

/// Configure, start and connect come in that order, each only once the one
/// before it completed, and are followed by the first poll.
pub proof fn lemma_link_bring_up_order(v: LinkView)
    requires
        v.phase == LinkPhase::Configuring,
    ensures
        link_step_of(v) == LinkStep::Configure(v.ssid, v.password),
        link_step_of(link_after(v, LinkOutcome::Done)) == LinkStep::Start,
        link_step_of(link_after(link_after(v, LinkOutcome::Done), LinkOutcome::Done))
            == LinkStep::Connect,
        link_step_of(
            link_after(
                link_after(link_after(v, LinkOutcome::Done), LinkOutcome::Done),
                LinkOutcome::Done,
            ),
        ) == LinkStep::PollConnected,
{
}

/// A poll that finds no link is followed by one poll-interval sleep and then
/// by the next poll; a poll that finds the link up leads to the report of the
/// address, and the bring-up stays up.
pub proof fn lemma_link_polls_until_up(v: LinkView, o: LinkOutcome)
    requires
        v.phase == LinkPhase::Polling,
    ensures
        link_step_of(link_after(v, LinkOutcome::Connected(false))) == LinkStep::Sleep(
            LINK_POLL_MS,
        ),
        link_after(link_after(v, LinkOutcome::Connected(false)), LinkOutcome::Done) == v,
        link_step_of(link_after(v, LinkOutcome::Connected(true))) == LinkStep::ReportIp,
        o != LinkOutcome::Failed ==> link_after(link_after(v, LinkOutcome::Connected(true)), o)
            == link_after(v, LinkOutcome::Connected(true)),
{
}

} // verus!
