//! The course of one scan, from the choice of an interface to the result.

use vstd::prelude::*;
use crate::addr::Ipv4;
use crate::config::ScanConfig;
use crate::error::ScanError;
use crate::ports::OpenPortSet;
use crate::session::{random_source_port, ScanSession};
use crate::sort::is_ascending;

verus! {

/// How long the receiver stays on after the last probe, in milliseconds.
pub const GRACE_PERIOD_MS: u64 = 2000;

/// The size in bytes of the receive buffer of the raw channel.
pub const CHANNEL_BUFFER_SIZE: usize = 4096;

/// Where a scan stands.
#[derive(Clone, Copy, Debug, PartialEq, Eq, Structural)]
pub enum ScanState {
    /// Nothing has happened yet.
    Idle,
    /// The interface is chosen; `source` is its IPv4 address.
    InterfaceResolved { source: Ipv4 },
    /// The raw channel is open and the session is fixed.
    ChannelOpen { session: ScanSession },
    /// The receiver runs and the probes go out.
    Scanning { session: ScanSession },
    /// All probes are out; late replies are still taken.
    Draining { session: ScanSession },
    /// The scan is over and its result can be read.
    Stopped,
    /// The scan was given up.
    Failed { error: ScanError },
}

/// What the host reports back to the coordinator.
#[derive(Clone, Copy, Debug, PartialEq, Eq, Structural)]
pub enum ScanEvent {
    /// The interfaces were looked through; `source` is the address of the
    /// one to use, if there is one.
    InterfaceLookup { source: Option<Ipv4> },
    /// The raw channel is open.
    ChannelOpened,
    /// The raw channel could not be opened.
    ChannelRefused,
    /// The receiver runs.
    ReceiverStarted,
    /// The last probe is out.
    TransmitFinished,
    /// The grace period is over.
    GraceElapsed,
}

/// What the host is to do next.
#[derive(Clone, Copy, Debug, PartialEq, Eq, Structural)]
pub enum ScanAction {
    /// List the interfaces, pick one, and report `InterfaceLookup`.
    ResolveInterface,
    /// Open one raw TCP channel over IPv4 with a receive buffer of
    /// `buffer_size` bytes, and report how that went.
    OpenChannel { buffer_size: usize },
    /// Start the receiver for `session`, and report `ReceiverStarted`.
    StartReceiver { session: ScanSession },
    /// Send the probes of `session`, and report `TransmitFinished`.
    Transmit { session: ScanSession },
    /// Wait for `millis` milliseconds, and report `GraceElapsed`.
    Wait { millis: u64 },
    /// Tell the receiver to stop, and hand out the ports found.
    Finish,
    /// Give up with `error`.
    Abort { error: ScanError },
}

/// The state that follows `state` on `event`, where `source_port` is the
/// source port chosen if this is the step that fixes the session. An event
/// that `state` does not wait for changes nothing.
pub open spec fn next_state(
    config: ScanConfig,
    state: ScanState,
    event: ScanEvent,
    source_port: u16,
) -> ScanState {
    match (state, event) {
        (ScanState::Idle, ScanEvent::InterfaceLookup { source: Some(source) }) => {
            ScanState::InterfaceResolved { source }
        },
        (ScanState::Idle, ScanEvent::InterfaceLookup { source: None }) => ScanState::Failed {
            error: ScanError::NoInterfaceAvailable,
        },
        (ScanState::InterfaceResolved { source }, ScanEvent::ChannelOpened) => {
            ScanState::ChannelOpen {
                session: ScanSession {
                    target: config.target_ip,
                    source,
                    source_port,
                    start_port: config.start_port,
                    end_port: config.end_port,
                },
            }
        },
        (ScanState::InterfaceResolved { source }, ScanEvent::ChannelRefused) => ScanState::Failed {
            error: ScanError::SocketError,
        },
        (ScanState::ChannelOpen { session }, ScanEvent::ReceiverStarted) => ScanState::Scanning {
            session,
        },
        (ScanState::Scanning { session }, ScanEvent::TransmitFinished) => ScanState::Draining {
            session,
        },
        (ScanState::Draining { session }, ScanEvent::GraceElapsed) => ScanState::Stopped,
        _ => state,
    }
}

/// What the host is to do while the scan is in `state`.
pub open spec fn action_in(state: ScanState) -> ScanAction {
    match state {
        ScanState::Idle => ScanAction::ResolveInterface,
        ScanState::InterfaceResolved { source } => ScanAction::OpenChannel {
            buffer_size: CHANNEL_BUFFER_SIZE,
        },
        ScanState::ChannelOpen { session } => ScanAction::StartReceiver { session },
        ScanState::Scanning { session } => ScanAction::Transmit { session },
        ScanState::Draining { session } => ScanAction::Wait { millis: GRACE_PERIOD_MS },
        ScanState::Stopped => ScanAction::Finish,
        ScanState::Failed { error } => ScanAction::Abort { error },
    }
}

/// The state reached from `state` after `events`, one after the other.
pub open spec fn state_after(
    config: ScanConfig,
    state: ScanState,
    events: Seq<ScanEvent>,
    source_port: u16,
) -> ScanState
    decreases events.len(),
{
    if events.len() == 0 {
        state
    } else {
        next_state(
            config,
            state_after(config, state, events.drop_last(), source_port),
            events.last(),
            source_port,
        )
    }
}

/// A scan that has failed or stopped stays as it is, whatever is reported.
pub proof fn lemma_terminal_stays(
    config: ScanConfig,
    state: ScanState,
    events: Seq<ScanEvent>,
    source_port: u16,
)
    requires
        state is Failed || state is Stopped,
    ensures
        state_after(config, state, events, source_port) == state,
    decreases events.len(),
{
    if events.len() > 0 {
        lemma_terminal_stays(config, state, events.drop_last(), source_port);
    }
}

/// A scan that finds no interface fails with `NoInterfaceAvailable` and
/// stays failed: whatever is reported afterwards, the host is never told to
/// send probes, nor to do anything but give up.
pub proof fn lemma_no_interface_no_probe(
    config: ScanConfig,
    later: Seq<ScanEvent>,
    source_port: u16,
)
    ensures
        state_after(
            config,
            ScanState::Idle,
            seq![ScanEvent::InterfaceLookup { source: None }] + later,
            source_port,
        ) == (ScanState::Failed { error: ScanError::NoInterfaceAvailable }),
        action_in(
            state_after(
                config,
                ScanState::Idle,
                seq![ScanEvent::InterfaceLookup { source: None }] + later,
                source_port,
            ),
        ) == (ScanAction::Abort { error: ScanError::NoInterfaceAvailable }),
    decreases later.len(),
{
    let first = seq![ScanEvent::InterfaceLookup { source: None }];
    if later.len() == 0 {
        assert(first + later =~= first);
        assert(first.drop_last() =~= Seq::<ScanEvent>::empty());
        assert(state_after(config, ScanState::Idle, first.drop_last(), source_port)
            == ScanState::Idle);
    } else {
        lemma_no_interface_no_probe(config, later.drop_last(), source_port);
        assert((first + later).drop_last() =~= first + later.drop_last());
    }
}

/// Whether `event` reports that an interface was found.
pub open spec fn reports_interface(event: ScanEvent) -> bool {
    event matches ScanEvent::InterfaceLookup { source: Some(_) }
}

/// Whether, somewhere among `events`, an interface is reported found and,
/// later, the channel is reported open.
pub open spec fn reports_interface_and_channel(events: Seq<ScanEvent>) -> bool {
    exists|i: int, j: int|
        0 <= i < j < events.len() && reports_interface(#[trigger] events[i]) && #[trigger] events[j]
            == ScanEvent::ChannelOpened
}

/// The host is told to send probes only in a scan whose interface was found
/// and whose channel was opened: in every run from `Idle` that leads to
/// `Transmit`, both were reported, in this order.
pub proof fn lemma_transmit_needs_channel(
    config: ScanConfig,
    events: Seq<ScanEvent>,
    source_port: u16,
)
    requires
        action_in(state_after(config, ScanState::Idle, events, source_port)) is Transmit,
    ensures
        reports_interface_and_channel(events),
{
    lemma_progress(config, events, source_port);
}

/// How far a run from `Idle` has come shows in what was reported on the way.
proof fn lemma_progress(config: ScanConfig, events: Seq<ScanEvent>, source_port: u16)
    ensures
        state_after(config, ScanState::Idle, events, source_port) is InterfaceResolved
            ==> exists|i: int| 0 <= i < events.len() && reports_interface(#[trigger] events[i]),
        ({
            let state = state_after(config, ScanState::Idle, events, source_port);
            state is ChannelOpen || state is Scanning || state is Draining || state is Stopped
        }) ==> reports_interface_and_channel(events),
    decreases events.len(),
{
    if events.len() > 0 {
        let earlier = events.drop_last();
        let before = state_after(config, ScanState::Idle, earlier, source_port);
        let state = state_after(config, ScanState::Idle, events, source_port);
        let last = events.len() - 1;
        lemma_progress(config, earlier, source_port);
        assert(events[last] == events.last());
        if before is InterfaceResolved {
            let i = choose|i: int|
                0 <= i < earlier.len() && reports_interface(#[trigger] earlier[i]);
            assert(events[i] == earlier[i]);
            if state is ChannelOpen {
                assert(events[last] == ScanEvent::ChannelOpened);
            }
        } else if state is InterfaceResolved {
            assert(reports_interface(events[last]));
        } else if state is ChannelOpen || state is Scanning || state is Draining || state
            is Stopped {
            let (i, j) = choose|i: int, j: int|
                0 <= i < j < earlier.len() && reports_interface(#[trigger] earlier[i])
                    && #[trigger] earlier[j] == ScanEvent::ChannelOpened;
            assert(events[i] == earlier[i]);
            assert(events[j] == earlier[j]);
        }
    }
}

/// The coordinator of one scan: what was asked for, and where the scan
/// stands.
#[derive(Clone, Copy, Debug)]
pub struct Coordinator {
    pub config: ScanConfig,
    pub state: ScanState,
}

impl Coordinator {
    /// The coordinator of a scan that has not begun.
    pub fn new(config: ScanConfig) -> (coordinator: Coordinator)
        ensures
            coordinator == (Coordinator { config, state: ScanState::Idle }),
    {
        Coordinator { config, state: ScanState::Idle }
    }

    /// What the host is to do next.
    pub fn action(&self) -> (action: ScanAction)
        ensures
            action == action_in(self.state),
    {
        match self.state {
            ScanState::Idle => ScanAction::ResolveInterface,
            ScanState::InterfaceResolved { source } => ScanAction::OpenChannel {
                buffer_size: CHANNEL_BUFFER_SIZE,
            },
            ScanState::ChannelOpen { session } => ScanAction::StartReceiver { session },
            ScanState::Scanning { session } => ScanAction::Transmit { session },
            ScanState::Draining { session } => ScanAction::Wait { millis: GRACE_PERIOD_MS },
            ScanState::Stopped => ScanAction::Finish,
            ScanState::Failed { error } => ScanAction::Abort { error },
        }
    }

    /// Takes in what the host reports, with `source_port` as the source
    /// port of the session if this is the step that fixes the session, and
    /// returns what the host is to do next.
    pub fn step_with_port(&mut self, event: ScanEvent, source_port: u16) -> (action: ScanAction)
        ensures
            final(self).config == old(self).config,
            final(self).state == next_state(
                old(self).config,
                old(self).state,
                event,
                source_port,
            ),
            action == action_in(final(self).state),
    {
        let state = match (self.state, event) {
            (ScanState::Idle, ScanEvent::InterfaceLookup { source: Some(source) }) => {
                ScanState::InterfaceResolved { source }
            },
            (ScanState::Idle, ScanEvent::InterfaceLookup { source: None }) => ScanState::Failed {
                error: ScanError::NoInterfaceAvailable,
            },
            (ScanState::InterfaceResolved { source }, ScanEvent::ChannelOpened) => {
                ScanState::ChannelOpen {
                    session: ScanSession::with_source_port(
                        self.config.target_ip,
                        source,
                        source_port,
                        self.config.start_port,
                        self.config.end_port,
                    ),
                }
            },
            (ScanState::InterfaceResolved { source }, ScanEvent::ChannelRefused) => {
                ScanState::Failed { error: ScanError::SocketError }
            },
            (ScanState::ChannelOpen { session }, ScanEvent::ReceiverStarted) => {
                ScanState::Scanning { session }
            },
            (ScanState::Scanning { session }, ScanEvent::TransmitFinished) => {
                ScanState::Draining { session }
            },
            (ScanState::Draining { session }, ScanEvent::GraceElapsed) => ScanState::Stopped,
            (state, _) => state,
        };
        self.state = state;
        self.action()
    }

    /// Takes in what the host reports and returns what the host is to do
    /// next. Where this step fixes the session, its source port is drawn at
    /// random from the ephemeral range.
    pub fn step(&mut self, event: ScanEvent) -> (action: ScanAction)
        ensures
            final(self).config == old(self).config,
            exists|source_port: u16|
                {
                    &&& ScanSession::is_ephemeral(source_port)
                    &&& final(self).state == #[trigger] next_state(
                        old(self).config,
                        old(self).state,
                        event,
                        source_port,
                    )
                },
            action == action_in(final(self).state),
    {
        let source_port: u16 = random_source_port();
        self.step_with_port(event, source_port)
    }

    /// The result of the scan, once it is over: the ports of `found` in
    /// ascending order where the scan has stopped, the error where it has
    /// failed. While the scan is under way there is none.
    pub fn outcome(&self, found: &OpenPortSet) -> (outcome: Option<Result<Vec<u16>, ScanError>>)
        ensures
            match self.state {
                ScanState::Stopped => outcome matches Some(Ok(ports)) && is_ascending(ports@)
                    && ports@.to_set() == found@,
                ScanState::Failed { error } => outcome == Some(
                    Err::<Vec<u16>, ScanError>(error),
                ),
                _ => outcome is None,
            },
    {
        match self.state {
            ScanState::Stopped => Some(Ok(found.sorted())),
            ScanState::Failed { error } => Some(Err(error)),
            _ => None,
        }
    }
}

} // verus!
