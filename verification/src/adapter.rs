//! The core of the SOME/IP adapter: the liveness handshake with the stack,
//! the registry of ingress bridges by service, the routing of received
//! frames to them, and the frames that the adapter sends.

use vstd::prelude::*;
use crate::buffer::WriteBuf;
use crate::ingress::{SomeIPConsumerHostHalf, StateChange};
use crate::service::{EventId, OfferedServiceDesc, ServiceDescription, ServiceDescriptionView};
use crate::tunnel::{demux, event_frame, find_service_frame, offer_service_frame};
use crate::tunnel::{spec_demux, spec_event_frame, spec_payload_data, spec_service_frame};
use crate::tunnel::{DemuxAction, TunnelFrame, TunnelMsgType};

verus! {

/// Pause before the opening of a lifetime channel is tried again, in
/// milliseconds.
pub const HANDSHAKE_BACKOFF_MS: u64 = 20;

/// Pause after a poll of the tunnel that found nothing, in milliseconds.
pub const RECEIVE_POLL_INTERVAL_MS: u64 = 50;

/// Pause after each `FindService` frame, in milliseconds. The tunnel cannot
/// take the frames faster.
pub const FIND_SERVICE_THROTTLE_MS: u64 = 500;

/// Largest event id of the lifetime channels.
pub const LIFETIME_EVENT_ID_MAX: u64 = 0xFFFF_FFFF_FFFF;

/// Buffer size of a subscriber of a tunnel channel.
pub const TUNNEL_SUBSCRIBER_MAX_BUFFER_SIZE: usize = 20;

/// History size of a tunnel channel.
pub const TUNNEL_HISTORY_SIZE: usize = 20;

/// Name of the channel on which the gateway notifies the stack that it
/// lives.
pub fn lifetime_from_gateway_channel() -> (r: &'static str)
    ensures
        r@ == "LifetimeFromGateway"@,
{
    "LifetimeFromGateway"
}

/// Name of the channel on which the gateway listens for the stack.
pub fn lifetime_to_gateway_channel() -> (r: &'static str)
    ensures
        r@ == "LifetimeToGateway"@,
{
    "LifetimeToGateway"
}

/// Name of the tunnel channel that carries frames out of the gateway.
pub fn tunnel_egress_channel() -> (r: &'static str)
    ensures
        r@ == "TunnelToRust"@,
{
    "TunnelToRust"
}

/// Name of the tunnel channel that carries frames into the gateway.
pub fn tunnel_ingress_channel() -> (r: &'static str)
    ensures
        r@ == "TunnelFromRust"@,
{
    "TunnelFromRust"
}

/// Where the liveness handshake stands.
#[derive(Clone, Copy, Debug, PartialEq, Eq, Structural)]
pub enum HandshakePhase {
    /// The channel to the stack is being opened.
    OpeningNotifier,
    /// The channel from the stack is being opened.
    OpeningListener,
    /// The stack is being told the identifier of this process.
    Notifying,
    /// The one wake from the stack is awaited.
    AwaitingWake,
    /// The two tunnel channels are being opened.
    OpeningTunnels,
    /// The handshake is done.
    Ready,
    /// The handshake broke down.
    Failed,
}

/// What the adapter has to do in a phase of the handshake.
#[derive(Clone, Copy, Debug, PartialEq, Eq, Structural)]
pub enum HandshakeCommand {
    OpenNotifier,
    OpenListener,
    NotifyProcessId,
    WaitForOneWake,
    OpenTunnels,
    Finish,
    Abort,
}

/// How an attempt at the work of a phase ended.
#[derive(Clone, Copy, Debug, PartialEq, Eq, Structural)]
pub enum HandshakeOutcome {
    /// The work is done.
    Done,
    /// The channel could not be opened: the peer is not there yet.
    PeerAbsent,
    /// Anything else went wrong.
    Fatal,
}

/// The phase that follows and the pause before its work, in milliseconds.
#[derive(Clone, Copy, Debug, PartialEq, Eq, Structural)]
pub struct HandshakeStep {
    pub next: HandshakePhase,
    pub pause_ms: u64,
}

/// The work of a phase.
pub open spec fn spec_handshake_command(phase: HandshakePhase) -> HandshakeCommand {
    match phase {
        HandshakePhase::OpeningNotifier => HandshakeCommand::OpenNotifier,
        HandshakePhase::OpeningListener => HandshakeCommand::OpenListener,
        HandshakePhase::Notifying => HandshakeCommand::NotifyProcessId,
        HandshakePhase::AwaitingWake => HandshakeCommand::WaitForOneWake,
        HandshakePhase::OpeningTunnels => HandshakeCommand::OpenTunnels,
        HandshakePhase::Ready => HandshakeCommand::Finish,
        HandshakePhase::Failed => HandshakeCommand::Abort,
    }
}

/// The phase that follows `phase`. The phases follow each other in their
/// order as their work is done. The opening of a lifetime channel is tried
/// again after a pause while the peer is absent. Every other failure ends
/// the handshake, and the two last phases stay what they are.
pub open spec fn spec_handshake_step(phase: HandshakePhase, outcome: HandshakeOutcome) -> HandshakeStep {
    match phase {
        HandshakePhase::OpeningNotifier => match outcome {
            HandshakeOutcome::Done => HandshakeStep { next: HandshakePhase::OpeningListener, pause_ms: 0 },
            HandshakeOutcome::PeerAbsent => HandshakeStep { next: HandshakePhase::OpeningNotifier, pause_ms: 20 },
            HandshakeOutcome::Fatal => HandshakeStep { next: HandshakePhase::Failed, pause_ms: 0 },
        },
        HandshakePhase::OpeningListener => match outcome {
            HandshakeOutcome::Done => HandshakeStep { next: HandshakePhase::Notifying, pause_ms: 0 },
            HandshakeOutcome::PeerAbsent => HandshakeStep { next: HandshakePhase::OpeningListener, pause_ms: 20 },
            HandshakeOutcome::Fatal => HandshakeStep { next: HandshakePhase::Failed, pause_ms: 0 },
        },
        HandshakePhase::Notifying => match outcome {
            HandshakeOutcome::Done => HandshakeStep { next: HandshakePhase::AwaitingWake, pause_ms: 0 },
            _ => HandshakeStep { next: HandshakePhase::Failed, pause_ms: 0 },
        },
        HandshakePhase::AwaitingWake => match outcome {
            HandshakeOutcome::Done => HandshakeStep { next: HandshakePhase::OpeningTunnels, pause_ms: 0 },
            _ => HandshakeStep { next: HandshakePhase::Failed, pause_ms: 0 },
        },
        HandshakePhase::OpeningTunnels => match outcome {
            HandshakeOutcome::Done => HandshakeStep { next: HandshakePhase::Ready, pause_ms: 0 },
            _ => HandshakeStep { next: HandshakePhase::Failed, pause_ms: 0 },
        },
        HandshakePhase::Ready => HandshakeStep { next: HandshakePhase::Ready, pause_ms: 0 },
        HandshakePhase::Failed => HandshakeStep { next: HandshakePhase::Failed, pause_ms: 0 },
    }
}

/// The place of a phase in the order of the handshake.
pub open spec fn spec_handshake_rank(phase: HandshakePhase) -> int {
    match phase {
        HandshakePhase::OpeningNotifier => 0,
        HandshakePhase::OpeningListener => 1,
        HandshakePhase::Notifying => 2,
        HandshakePhase::AwaitingWake => 3,
        HandshakePhase::OpeningTunnels => 4,
        HandshakePhase::Ready => 5,
        HandshakePhase::Failed => 6,
    }
}

/// The handshake skips nothing and never goes back: a step leads to the
/// same phase, to the next one, or to failure. The tunnels are opened only
/// after the wake arrived, and the handshake is done only after the tunnels
/// were opened. A pause is made only before a lifetime channel is tried
/// again.
pub proof fn lemma_handshake_order(phase: HandshakePhase, outcome: HandshakeOutcome)
    ensures
        ({
            let step = spec_handshake_step(phase, outcome);
            &&& step.next == phase || step.next is Failed || spec_handshake_rank(step.next)
                == spec_handshake_rank(phase) + 1
            &&& step.next is OpeningTunnels ==> phase is AwaitingWake || phase is OpeningTunnels
            &&& step.next is Ready ==> phase is OpeningTunnels || phase is Ready
            &&& step.pause_ms != 0 ==> step.pause_ms == 20 && step.next == phase && outcome is PeerAbsent && (phase
                is OpeningNotifier || phase is OpeningListener)
        }),
{
}

/// The phase in which the handshake starts.
pub fn handshake_start() -> (r: HandshakePhase)
    ensures
        r == HandshakePhase::OpeningNotifier,
{
    HandshakePhase::OpeningNotifier
}

/// The work of a phase.
pub fn handshake_command(phase: HandshakePhase) -> (r: HandshakeCommand)
    ensures
        r == spec_handshake_command(phase),
{
    match phase {
        HandshakePhase::OpeningNotifier => HandshakeCommand::OpenNotifier,
        HandshakePhase::OpeningListener => HandshakeCommand::OpenListener,
        HandshakePhase::Notifying => HandshakeCommand::NotifyProcessId,
        HandshakePhase::AwaitingWake => HandshakeCommand::WaitForOneWake,
        HandshakePhase::OpeningTunnels => HandshakeCommand::OpenTunnels,
        HandshakePhase::Ready => HandshakeCommand::Finish,
        HandshakePhase::Failed => HandshakeCommand::Abort,
    }
}

/// The phase that follows `phase` once its work ended with `outcome`, and
/// the pause to make first.
pub fn handshake_step(phase: HandshakePhase, outcome: HandshakeOutcome) -> (r: HandshakeStep)
    ensures
        r == spec_handshake_step(phase, outcome),
{
    let failed = HandshakeStep { next: HandshakePhase::Failed, pause_ms: 0 };
    match phase {
        HandshakePhase::OpeningNotifier => match outcome {
            HandshakeOutcome::Done => HandshakeStep { next: HandshakePhase::OpeningListener, pause_ms: 0 },
            HandshakeOutcome::PeerAbsent => HandshakeStep {
                next: HandshakePhase::OpeningNotifier,
                pause_ms: HANDSHAKE_BACKOFF_MS,
            },
            HandshakeOutcome::Fatal => failed,
        },
        HandshakePhase::OpeningListener => match outcome {
            HandshakeOutcome::Done => HandshakeStep { next: HandshakePhase::Notifying, pause_ms: 0 },
            HandshakeOutcome::PeerAbsent => HandshakeStep {
                next: HandshakePhase::OpeningListener,
                pause_ms: HANDSHAKE_BACKOFF_MS,
            },
            HandshakeOutcome::Fatal => failed,
        },
        HandshakePhase::Notifying => match outcome {
            HandshakeOutcome::Done => HandshakeStep { next: HandshakePhase::AwaitingWake, pause_ms: 0 },
            _ => failed,
        },
        HandshakePhase::AwaitingWake => match outcome {
            HandshakeOutcome::Done => HandshakeStep { next: HandshakePhase::OpeningTunnels, pause_ms: 0 },
            _ => failed,
        },
        HandshakePhase::OpeningTunnels => match outcome {
            HandshakeOutcome::Done => HandshakeStep { next: HandshakePhase::Ready, pause_ms: 0 },
            _ => failed,
        },
        HandshakePhase::Ready => HandshakeStep { next: HandshakePhase::Ready, pause_ms: 0 },
        HandshakePhase::Failed => failed,
    }
}

/// What a poll of the tunnel found.
#[derive(Clone, Copy, Debug, PartialEq, Eq, Structural)]
pub enum PollOutcome {
    /// A frame was there.
    Frame,
    /// Nothing was there.
    Empty,
    /// The poll failed.
    Failed,
}

/// What follows a poll of the tunnel.
#[derive(Clone, Copy, Debug, PartialEq, Eq, Structural)]
pub enum PollDecision {
    /// Hand the frame on.
    Deliver,
    /// Poll again after this many milliseconds.
    RetryAfter(u64),
    /// Poll again at once.
    RetryNow,
}

/// What follows a poll: a frame is handed on, an empty tunnel is polled
/// again after 50 ms, and a failed poll is tried again at once.
pub open spec fn spec_receive_decision(outcome: PollOutcome) -> PollDecision {
    match outcome {
        PollOutcome::Frame => PollDecision::Deliver,
        PollOutcome::Empty => PollDecision::RetryAfter(50),
        PollOutcome::Failed => PollDecision::RetryNow,
    }
}

/// Decides what follows a poll of the tunnel.
pub fn receive_decision(outcome: PollOutcome) -> (r: PollDecision)
    ensures
        r == spec_receive_decision(outcome),
{
    match outcome {
        PollOutcome::Frame => PollDecision::Deliver,
        PollOutcome::Empty => PollDecision::RetryAfter(RECEIVE_POLL_INTERVAL_MS),
        PollOutcome::Failed => PollDecision::RetryNow,
    }
}

/// A `FindService` frame with the pause that has to follow it.
#[derive(Clone, Copy, Debug)]
pub struct FindServiceRequest {
    pub frame: TunnelFrame,
    pub pause_after_ms: u64,
}

/// Why a service client was not registered.
#[derive(Clone, Copy, Debug, PartialEq, Eq, Structural)]
pub enum RegistrationError {
    /// The client wants more events than a frame can describe.
    TooManyEvents,
}

/// What became of a received frame.
#[derive(Debug)]
pub enum FrameOutcome<D> {
    /// The bridge of the service was told about the availability.
    StateChanged(StateChange),
    /// The bridge of the service received the event.
    Delivered(D),
    /// Dropped: no bridge is registered for the service.
    NoClient { service_id: u16, instance_id: u16 },
    /// Dropped: the payload length exceeds the payload region.
    Malformed,
    /// Dropped: a method call.
    IgnoredMethod,
    /// Dropped: a frame kind that is not expected.
    Unsupported,
}

/// Whether the client at `at` is the one registered for the service
/// `service_id`/`instance_id`.
pub open spec fn spec_registered_at<C: SomeIPConsumerHostHalf>(
    clients: Seq<C>,
    service_id: u16,
    instance_id: u16,
    at: int,
) -> bool {
    &&& 0 <= at < clients.len()
    &&& clients[at].spec_service_id() == service_id
    &&& clients[at].spec_instance_id() == instance_id
}

/// Whether a client is registered for the service
/// `service_id`/`instance_id`.
pub open spec fn spec_registered<C: SomeIPConsumerHostHalf>(clients: Seq<C>, service_id: u16, instance_id: u16) -> bool {
    exists|at: int| spec_registered_at(clients, service_id, instance_id, at)
}

/// The registry `clients` after the registration of `client`: a client
/// that is registered for the same service is replaced where it stands, and
/// a client for a new service goes to the end.
pub open spec fn spec_register<C: SomeIPConsumerHostHalf>(clients: Seq<C>, client: C) -> Seq<C> {
    if spec_registered(clients, client.spec_service_id(), client.spec_instance_id()) {
        clients.update(
            choose|at: int| spec_registered_at(clients, client.spec_service_id(), client.spec_instance_id(), at),
            client,
        )
    } else {
        clients.push(client)
    }
}

/// Whether a registry keeps its invariant: every client is well formed
/// and wants at most ten events, and no two clients serve one service.
pub open spec fn spec_clients_wf<C: SomeIPConsumerHostHalf>(clients: Seq<C>) -> bool {
    &&& forall|i: int|
        0 <= i < clients.len() ==> (#[trigger] clients[i]).wf() && clients[i].spec_event_interests().len()
            <= 10
    &&& forall|i: int, j: int|
        0 <= i < j < clients.len() ==> !((#[trigger] clients[i]).spec_service_id() == (
        #[trigger] clients[j]).spec_service_id() && clients[i].spec_instance_id()
            == clients[j].spec_instance_id())
}

/// Whether `after` is `before` with nothing changed but the client at
/// `at`.
pub open spec fn spec_only_changed_at<C>(before: Seq<C>, after: Seq<C>, at: int) -> bool {
    &&& after.len() == before.len()
    &&& forall|j: int| 0 <= j < before.len() && j != at ==> #[trigger] after[j] == before[j]
}

/// The adapter between the bridges and the tunnel. It keeps the ingress
/// bridges by service, in the order of their registration, and the
/// services of the egress bridges that registered for calls from the
/// network.
pub struct RemoteCovesaAdapter<C: SomeIPConsumerHostHalf> {
    service_clients: Vec<C>,
    host_producers: Vec<(u16, u16)>,
}

/// The sending side of the adapter for one service.
#[derive(Debug)]
pub struct RemoteCovesaAdapterHandle {
    desc: ServiceDescription,
}

/// A writer for the payload of one event.
#[derive(Debug)]
pub struct EventWriterImpl {
    pub event_id: EventId,
    pub buffer: WriteBuf,
}

impl<C: SomeIPConsumerHostHalf> View for RemoteCovesaAdapter<C> {
    type V = Seq<C>;

    /// The registered ingress bridges in the order of their registration.
    closed spec fn view(&self) -> Seq<C> {
        self.service_clients@
    }
}

impl<C: SomeIPConsumerHostHalf> RemoteCovesaAdapter<C> {
    /// Whether the adapter keeps its invariant.
    pub open spec fn wf(&self) -> bool {
        spec_clients_wf(self@)
    }

    /// The services of the egress bridges that registered.
    pub closed spec fn spec_host_producers(&self) -> Seq<(u16, u16)> {
        self.host_producers@
    }

    /// An adapter without bridges.
    pub fn new() -> (r: Self)
        ensures
            r.wf(),
            r@ == Seq::<C>::empty(),
            r.spec_host_producers() == Seq::<(u16, u16)>::empty(),
    {
        RemoteCovesaAdapter { service_clients: Vec::new(), host_producers: Vec::new() }
    }

    /// The number of registered ingress bridges.
    pub fn client_count(&self) -> (r: usize)
        ensures
            r == self@.len(),
    {
        self.service_clients.len()
    }

    /// The ingress bridge at `at` in the order of registration.
    pub fn client(&self, at: usize) -> (r: Option<&C>)
        ensures
            r is Some <==> at < self@.len(),
            r matches Some(c) ==> *c == self@[at as int],
    {
        if at < self.service_clients.len() {
            Some(&self.service_clients[at])
        } else {
            None
        }
    }

    /// The place of the bridge that is registered for the service
    /// `service_id`/`instance_id`, if there is one.
    pub fn position(&self, service_id: u16, instance_id: u16) -> (r: Option<usize>)
        ensures
            r is Some <==> spec_registered(self@, service_id, instance_id),
            r matches Some(at) ==> spec_registered_at(self@, service_id, instance_id, at as int),
    {
        let mut i: usize = 0;
        while i < self.service_clients.len()
            invariant
                i <= self.service_clients@.len(),
                forall|k: int| 0 <= k < i ==> !spec_registered_at(self@, service_id, instance_id, k),
            decreases self.service_clients@.len() - i,
        {
            let desc = self.service_clients[i].get_service_description();
            if desc.service_id == service_id && desc.instance_id == instance_id {
                assert(spec_registered_at(self@, service_id, instance_id, i as int));
                return Some(i);
            }
            i = i + 1;
        }
        None
    }

    /// Registers the ingress bridge `client` for its service. A bridge
    /// that was registered for the same service is replaced where it
    /// stands; a new service goes to the end. A bridge that wants more than
    /// ten events is refused and the registry stays as it was.
    pub fn register_service_client(&mut self, client: C) -> (r: Result<(), RegistrationError>)
        requires
            old(self).wf(),
            client.wf(),
        ensures
            final(self).wf(),
            final(self).spec_host_producers() == old(self).spec_host_producers(),
            r is Ok <==> client.spec_event_interests().len() <= 10,
            r is Err ==> final(self)@ == old(self)@,
            r is Ok ==> final(self)@ == spec_register(old(self)@, client),
            r is Ok ==> (forall|at: int|
                spec_registered_at(old(self)@, client.spec_service_id(), client.spec_instance_id(), at)
                    ==> final(self)@ == old(self)@.update(at, client)),
            r is Ok && !spec_registered(old(self)@, client.spec_service_id(), client.spec_instance_id())
                ==> final(self)@ == old(self)@.push(client),
    {
        if client.get_event_interests().len() > 10 {
            return Err(RegistrationError::TooManyEvents);
        }
        let service_id = client.get_service_description().service_id;
        let instance_id = client.get_service_description().instance_id;
        match self.position(service_id, instance_id) {
            Some(at) => {
                self.service_clients.set(at, client);
                assert forall|other: int|
                    spec_registered_at(old(self)@, service_id, instance_id, other) implies other == at by {
                    if other < at {
                        assert(old(self)@[other].spec_service_id() == old(self)@[at as int].spec_service_id());
                    } else if at < other {
                        assert(old(self)@[other].spec_service_id() == old(self)@[at as int].spec_service_id());
                    }
                }
            },
            None => {
                self.service_clients.push(client);
                assert forall|i: int, j: int| 0 <= i < j < self@.len() implies !((#[trigger] self@[i]).spec_service_id()
                    == (#[trigger] self@[j]).spec_service_id() && self@[i].spec_instance_id()
                    == self@[j].spec_instance_id()) by {
                    if j == self@.len() - 1 {
                        assert(!spec_registered_at(old(self)@, service_id, instance_id, i));
                    }
                }
            },
        }
        Ok(())
    }

    /// The sending side for the service `desc`.
    pub fn obtain_producer_handle(&self, desc: ServiceDescription) -> (r: RemoteCovesaAdapterHandle)
        ensures
            r@ == desc@,
    {
        RemoteCovesaAdapterHandle::new(desc)
    }

    /// Registers the egress bridge of the service
    /// `service_id`/`instance_id` for calls from the network. A service is
    /// kept once.
    pub fn register_host_half(&mut self, service_id: u16, instance_id: u16)
        ensures
            final(self)@ == old(self)@,
            final(self).spec_host_producers() == if old(self).spec_host_producers().contains(
                (service_id, instance_id),
            ) {
                old(self).spec_host_producers()
            } else {
                old(self).spec_host_producers().push((service_id, instance_id))
            },
    {
        let mut i: usize = 0;
        while i < self.host_producers.len()
            invariant
                i <= self.host_producers@.len(),
                self.host_producers@ == old(self).host_producers@,
                self.service_clients@ == old(self).service_clients@,
                forall|k: int| 0 <= k < i ==> self.host_producers@[k] != (service_id, instance_id),
            decreases self.host_producers@.len() - i,
        {
            let known: (u16, u16) = self.host_producers[i];
            if known.0 == service_id && known.1 == instance_id {
                assert(self.host_producers@[i as int] == (service_id, instance_id));
                return ;
            }
            i = i + 1;
        }
        self.host_producers.push((service_id, instance_id));
    }

    /// The `FindService` frames that ask for the services of all
    /// registered bridges: one frame per bridge, in the order of
    /// registration, each followed by a pause of 500 ms.
    pub fn request_find_services(&self) -> (r: Vec<FindServiceRequest>)
        requires
            self.wf(),
        ensures
            r@.len() == self@.len(),
            forall|i: int|
                0 <= i < r@.len() ==> (#[trigger] r@[i]).frame@ == spec_service_frame(
                    TunnelMsgType::FindService,
                    self@[i].spec_service_id(),
                    self@[i].spec_instance_id(),
                    self@[i].spec_event_interests(),
                ) && r@[i].pause_after_ms == 500,
    {
        let mut requests: Vec<FindServiceRequest> = Vec::new();
        let mut i: usize = 0;
        while i < self.service_clients.len()
            invariant
                self.wf(),
                i <= self.service_clients@.len(),
                requests@.len() == i,
                forall|k: int|
                    0 <= k < i ==> (#[trigger] requests@[k]).frame@ == spec_service_frame(
                        TunnelMsgType::FindService,
                        self@[k].spec_service_id(),
                        self@[k].spec_instance_id(),
                        self@[k].spec_event_interests(),
                    ) && requests@[k].pause_after_ms == 500,
            decreases self.service_clients@.len() - i,
        {
            let service = &self.service_clients[i];
            assert(self@[i as int].wf());
            let framed = find_service_frame(service.get_service_description(), service.get_event_interests());
            match framed {
                Some(frame) => {
                    requests.push(FindServiceRequest { frame, pause_after_ms: FIND_SERVICE_THROTTLE_MS });
                },
                None => {
                    assert(false);
                },
            }
            i = i + 1;
        }
        requests
    }

    /// Tells the bridge of the service `service_id`/`instance_id` whether
    /// the service is available. Without such a bridge nothing happens.
    pub fn service_state_changed(&mut self, service_id: u16, instance_id: u16, available: bool) -> (r: Option<
        StateChange,
    >)
        requires
            old(self).wf(),
        ensures
            final(self).wf(),
            final(self).spec_host_producers() == old(self).spec_host_producers(),
            r is Some <==> spec_registered(old(self)@, service_id, instance_id),
            r is None ==> final(self)@ == old(self)@,
            r matches Some(change) ==> (forall|at: int|
                spec_registered_at(old(self)@, service_id, instance_id, at) ==> spec_only_changed_at(
                    old(self)@,
                    final(self)@,
                    at,
                ) && old(self)@[at].spec_state_changed(available, &final(self)@[at], change)),
    {
        match self.position(service_id, instance_id) {
            Some(at) => {
                proof {
                    lemma_registered_once(old(self)@, service_id, instance_id, at as int);
                }
                let client = &mut self.service_clients[at];
                let change = client.service_state_changed(available);
                proof {
                    lemma_keys_kept(old(self)@, self@, at as int);
                }
                Some(change)
            },
            None => None,
        }
    }

    /// Hands the event `event_id` with the payload `data` to the bridge of
    /// the service `service_id`/`instance_id`. Without such a bridge
    /// nothing happens.
    pub fn receive_event(&mut self, service_id: u16, instance_id: u16, event_id: EventId, data: &[u8]) -> (r: Option<
        C::Delivery,
    >)
        requires
            old(self).wf(),
        ensures
            final(self).wf(),
            final(self).spec_host_producers() == old(self).spec_host_producers(),
            r is Some <==> spec_registered(old(self)@, service_id, instance_id),
            r is None ==> final(self)@ == old(self)@,
            r matches Some(delivery) ==> (forall|at: int|
                spec_registered_at(old(self)@, service_id, instance_id, at) ==> spec_only_changed_at(
                    old(self)@,
                    final(self)@,
                    at,
                ) && old(self)@[at].spec_received(event_id, data@, &final(self)@[at], delivery)),
    {
        match self.position(service_id, instance_id) {
            Some(at) => {
                proof {
                    lemma_registered_once(old(self)@, service_id, instance_id, at as int);
                }
                let client = &mut self.service_clients[at];
                let delivery = client.receive_event(event_id, data);
                proof {
                    lemma_keys_kept(old(self)@, self@, at as int);
                }
                Some(delivery)
            },
            None => None,
        }
    }

    /// Routes a received frame. The acknowledgement of a service search
    /// goes to the bridge of the service as news about its availability. A
    /// message with an event id goes to the bridge of the service as that
    /// event, with the meaningful bytes of the payload. Everything else is
    /// dropped, and so is what no bridge is registered for.
    pub fn handle_frame(&mut self, frame: &TunnelFrame) -> (r: FrameOutcome<C::Delivery>)
        requires
            old(self).wf(),
        ensures
            final(self).wf(),
            final(self).spec_host_producers() == old(self).spec_host_producers(),
            match spec_demux(frame@.header) {
                DemuxAction::ServiceStateChanged { service_id, instance_id, available } => if spec_registered(
                    old(self)@,
                    service_id,
                    instance_id,
                ) {
                    &&& r matches FrameOutcome::StateChanged(change)
                    &&& forall|at: int|
                        spec_registered_at(old(self)@, service_id, instance_id, at) ==> spec_only_changed_at(
                            old(self)@,
                            final(self)@,
                            at,
                        ) && old(self)@[at].spec_state_changed(available, &final(self)@[at], change)
                } else {
                    &&& r matches FrameOutcome::NoClient { service_id: s, instance_id: i }
                    &&& s == service_id
                    &&& i == instance_id
                    &&& final(self)@ == old(self)@
                },
                DemuxAction::ReceiveEvent { service_id, instance_id, event_id } => if !spec_registered(
                    old(self)@,
                    service_id,
                    instance_id,
                ) {
                    &&& r matches FrameOutcome::NoClient { service_id: s, instance_id: i }
                    &&& s == service_id
                    &&& i == instance_id
                    &&& final(self)@ == old(self)@
                } else if spec_payload_data(frame@.payload) is None {
                    &&& r is Malformed
                    &&& final(self)@ == old(self)@
                } else {
                    &&& r matches FrameOutcome::Delivered(delivery)
                    &&& forall|at: int|
                        spec_registered_at(old(self)@, service_id, instance_id, at) ==> spec_only_changed_at(
                            old(self)@,
                            final(self)@,
                            at,
                        ) && old(self)@[at].spec_received(
                            event_id,
                            spec_payload_data(frame@.payload)->0,
                            &final(self)@[at],
                            delivery,
                        )
                },
                DemuxAction::IgnoredMethod => r is IgnoredMethod && final(self)@ == old(self)@,
                DemuxAction::Unsupported => r is Unsupported && final(self)@ == old(self)@,
            },
    {
        match demux(&frame.header) {
            DemuxAction::ServiceStateChanged { service_id, instance_id, available } => {
                match self.service_state_changed(service_id, instance_id, available) {
                    Some(change) => FrameOutcome::StateChanged(change),
                    None => FrameOutcome::NoClient { service_id, instance_id },
                }
            },
            DemuxAction::ReceiveEvent { service_id, instance_id, event_id } => {
                if self.position(service_id, instance_id).is_none() {
                    return FrameOutcome::NoClient { service_id, instance_id };
                }
                let data = match frame.payload.data() {
                    Some(data) => data,
                    None => {
                        return FrameOutcome::Malformed;
                    },
                };
                match self.receive_event(service_id, instance_id, event_id, data) {
                    Some(delivery) => FrameOutcome::Delivered(delivery),
                    None => FrameOutcome::NoClient { service_id, instance_id },
                }
            },
            DemuxAction::IgnoredMethod => FrameOutcome::IgnoredMethod,
            DemuxAction::Unsupported => FrameOutcome::Unsupported,
        }
    }
}

/// In a well-formed registry a service is registered at one place only.
pub proof fn lemma_registered_once<C: SomeIPConsumerHostHalf>(
    clients: Seq<C>,
    service_id: u16,
    instance_id: u16,
    at: int,
)
    requires
        spec_clients_wf(clients),
        spec_registered_at(clients, service_id, instance_id, at),
    ensures
        forall|other: int| spec_registered_at(clients, service_id, instance_id, other) ==> other == at,
{
    assert forall|other: int| spec_registered_at(clients, service_id, instance_id, other) implies other
        == at by {
        if other < at {
            assert(clients[other].spec_service_id() == clients[at].spec_service_id());
        } else if at < other {
            assert(clients[at].spec_service_id() == clients[other].spec_service_id());
        }
    }
}

/// A registry stays well formed when one client changes but keeps its
/// service, its events and its invariant.
pub proof fn lemma_keys_kept<C: SomeIPConsumerHostHalf>(before: Seq<C>, after: Seq<C>, at: int)
    requires
        spec_clients_wf(before),
        0 <= at < before.len(),
        spec_only_changed_at(before, after, at),
        after[at].wf(),
        after[at].spec_service_id() == before[at].spec_service_id(),
        after[at].spec_instance_id() == before[at].spec_instance_id(),
        after[at].spec_event_interests() == before[at].spec_event_interests(),
    ensures
        spec_clients_wf(after),
{
    assert forall|i: int| 0 <= i < after.len() implies (#[trigger] after[i]).wf() && after[i].spec_event_interests().len()
        <= 10 by {
        if i != at {
            assert(after[i] == before[i]);
        }
        assert(before[i].wf());
    }
    assert forall|i: int, j: int| 0 <= i < j < after.len() implies !((#[trigger] after[i]).spec_service_id() == (
    #[trigger] after[j]).spec_service_id() && after[i].spec_instance_id() == after[j].spec_instance_id()) by {
        if i != at {
            assert(after[i] == before[i]);
        }
        if j != at {
            assert(after[j] == before[j]);
        }
        assert(!(before[i].spec_service_id() == before[j].spec_service_id() && before[i].spec_instance_id()
            == before[j].spec_instance_id()));
    }
}

impl View for RemoteCovesaAdapterHandle {
    type V = ServiceDescriptionView;

    closed spec fn view(&self) -> ServiceDescriptionView {
        self.desc@
    }
}

impl RemoteCovesaAdapterHandle {
    /// The sending side for the service `desc`.
    pub fn new(desc: ServiceDescription) -> (r: Self)
        ensures
            r@ == desc@,
    {
        RemoteCovesaAdapterHandle { desc }
    }

    pub fn get_service_description(&self) -> (r: &ServiceDescription)
        ensures
            r@ == self@,
    {
        &self.desc
    }

    /// A copy of the handle for the same service.
    pub fn duplicate(&self) -> (r: Self)
        ensures
            r@ == self@,
    {
        RemoteCovesaAdapterHandle { desc: self.desc.duplicate() }
    }

    /// A fresh writer for the payload of the event `event_id`: nothing is
    /// filled and 1500 bytes can be.
    pub fn get_event_writer(&self, event_id: EventId) -> (r: EventWriterImpl)
        ensures
            r.event_id == event_id,
            r.buffer@ == Seq::<u8>::empty(),
            r.buffer.spec_capacity() == 1500,
    {
        EventWriterImpl { event_id, buffer: WriteBuf::new(crate::buffer::PAYLOAD_CAPACITY) }
    }

    /// The `OfferService` frame that offers the service of this handle
    /// with the events of `offer_desc` to the SOME/IP network; none where
    /// there are more than ten events.
    pub fn offer_service(&self, offer_desc: &OfferedServiceDesc) -> (r: Option<TunnelFrame>)
        ensures
            r is Some <==> offer_desc.events@.len() <= 10,
            r matches Some(frame) ==> frame@ == spec_service_frame(
                TunnelMsgType::OfferService,
                self@.service_id,
                self@.instance_id,
                offer_desc.events@,
            ),
    {
        offer_service_frame(&self.desc, offer_desc.events.as_slice())
    }

    /// The `Event` frame that publishes what `data` was filled with to
    /// the SOME/IP network; none where more than 1500 bytes were filled.
    pub fn notify_event(&self, data: &EventWriterImpl) -> (r: Option<TunnelFrame>)
        ensures
            r is Some <==> data.buffer@.len() <= 1500,
            r matches Some(frame) ==> frame@ == spec_event_frame(
                self@.service_id,
                self@.instance_id,
                data.event_id,
                data.buffer@,
            ),
    {
        event_frame(&self.desc, data.event_id, &data.buffer)
    }
}

} // verus!
