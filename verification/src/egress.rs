//! The egress bridge: the sender of one service that finds the local
//! service, offers it on the SOME/IP side, and forwards every local sample
//! as an event frame.

use vstd::prelude::*;
use crate::adapter::RemoteCovesaAdapterHandle;
use crate::codec::ToSomeIP;
use crate::ingress::{spec_all_known, spec_first_unknown, BridgeConfigError, EventConfig};
use crate::mapping::{EventMapping, SomeIPMappingTrait, Subscriber};
use crate::profile::E2EGatewayProfile;
use crate::service::{OfferedServiceDesc, SomeIPEventDesc, SomeIPProducerHostHalf, TransportError};
use crate::tunnel::{spec_event_frame, spec_service_frame, TunnelFrame, TunnelMsgType};

verus! {

/// The instance id under which the local service is looked for.
pub const LOCAL_INSTANCE_ID: u16 = 42;

/// Pause between two searches for the local service, in milliseconds.
pub const DISCOVERY_INTERVAL_MS: u64 = 300;

/// Pause after a receive that timed out, in milliseconds.
pub const RECEIVE_RETRY_MS: u64 = 20;

/// The number of samples that a proxy takes per receive.
pub const PROXY_SAMPLE_DEPTH: usize = 1;

/// One entry of the event table of an egress bridge.
pub type EventInfo = (EventMapping, SomeIPEventDesc);

/// The place of `mapping` in `table`: the first entry with that token, or
/// the length of the table where there is none.
pub open spec fn spec_table_position(table: Seq<EventInfo>, mapping: EventMapping) -> int
    decreases table.len(),
{
    if table.len() == 0 {
        0
    } else if table.first().0 == mapping {
        0
    } else {
        1 + spec_table_position(table.drop_first(), mapping)
    }
}

/// The SOME/IP identity that `table` holds for `mapping`, if any.
pub open spec fn spec_table_lookup(table: Seq<EventInfo>, mapping: EventMapping) -> Option<SomeIPEventDesc> {
    let at = spec_table_position(table, mapping);
    if at < table.len() {
        Some(table[at].1)
    } else {
        None
    }
}

/// `table` with `desc` as the SOME/IP identity of `mapping`: an entry for
/// `mapping` is overwritten where it stands, a new one goes to the end.
pub open spec fn spec_table_insert(table: Seq<EventInfo>, mapping: EventMapping, desc: SomeIPEventDesc) -> Seq<
    EventInfo,
> {
    let at = spec_table_position(table, mapping);
    if at < table.len() {
        table.update(at, (mapping, desc))
    } else {
        table.push((mapping, desc))
    }
}

/// The event table that the configuration `events` gives for the record
/// `R`: for each event its token and its SOME/IP identity. Where several
/// events name one event field, the last one counts.
pub open spec fn spec_event_info<R: SomeIPMappingTrait>(events: Seq<EventConfig>) -> Seq<EventInfo>
    decreases events.len(),
{
    if events.len() == 0 {
        Seq::empty()
    } else {
        spec_table_insert(
            spec_event_info::<R>(events.drop_last()),
            R::spec_event_mapping(events.last().1@)->0,
            events.last().0,
        )
    }
}

/// The SOME/IP identities in `table`, in its order.
pub open spec fn spec_table_descs(table: Seq<EventInfo>) -> Seq<SomeIPEventDesc> {
    Seq::new(table.len(), |i: int| table[i].1)
}

/// The events of an egress bridge: the SOME/IP identity of each event
/// field, by its token, in the order of configuration.
#[derive(Debug)]
pub struct EventTable {
    entries: Vec<EventInfo>,
}

impl View for EventTable {
    type V = Seq<EventInfo>;

    closed spec fn view(&self) -> Seq<EventInfo> {
        self.entries@
    }
}

impl EventTable {
    /// An empty table.
    pub fn new() -> (r: Self)
        ensures
            r@ == Seq::<EventInfo>::empty(),
    {
        EventTable { entries: Vec::new() }
    }

    /// The number of entries.
    pub fn len(&self) -> (r: usize)
        ensures
            r == self@.len(),
    {
        self.entries.len()
    }

    /// The place of the entry for `mapping`, or the number of entries
    /// where there is none.
    fn position(&self, mapping: EventMapping) -> (r: usize)
        ensures
            r == spec_table_position(self@, mapping),
            r <= self@.len(),
    {
        let mut i: usize = 0;
        proof {
            assert(self@.skip(0) =~= self@);
        }
        while i < self.entries.len()
            invariant
                i <= self.entries@.len(),
                spec_table_position(self@, mapping) == i + spec_table_position(self@.skip(i as int), mapping),
            decreases self.entries@.len() - i,
        {
            let entry: EventInfo = self.entries[i];
            proof {
                assert(self@.skip(i as int).first() == self@[i as int]);
                assert(self@.skip(i as int).drop_first() =~= self@.skip(i + 1));
            }
            if entry.0.token() == mapping.token() {
                proof {
                    EventMapping::lemma_token_determines(entry.0, mapping);
                }
                return i;
            }
            proof {
                EventMapping::lemma_token_determines(entry.0, mapping);
            }
            i = i + 1;
        }
        proof {
            assert(self@.skip(i as int).len() == 0);
        }
        i
    }

    /// The SOME/IP identity of the event field `mapping`, if the table
    /// has one.
    pub fn get(&self, mapping: EventMapping) -> (r: Option<SomeIPEventDesc>)
        ensures
            r == spec_table_lookup(self@, mapping),
    {
        let at = self.position(mapping);
        if at < self.entries.len() {
            Some(self.entries[at].1)
        } else {
            None
        }
    }

    /// Sets the SOME/IP identity of the event field `mapping`.
    pub fn insert(&mut self, mapping: EventMapping, desc: SomeIPEventDesc)
        ensures
            final(self)@ == spec_table_insert(old(self)@, mapping, desc),
    {
        let at = self.position(mapping);
        if at < self.entries.len() {
            self.entries.set(at, (mapping, desc));
        } else {
            self.entries.push((mapping, desc));
        }
    }

    /// The SOME/IP identities of all entries, in the order of the table.
    pub fn descs(&self) -> (r: Vec<SomeIPEventDesc>)
        ensures
            r@ == spec_table_descs(self@),
    {
        let mut out: Vec<SomeIPEventDesc> = Vec::new();
        let mut i: usize = 0;
        while i < self.entries.len()
            invariant
                i <= self.entries@.len(),
                out@.len() == i,
                forall|k: int| 0 <= k < i ==> out@[k] == self.entries@[k].1,
            decreases self.entries@.len() - i,
        {
            out.push(self.entries[i].1);
            i = i + 1;
        }
        assert(out@ =~= spec_table_descs(self@));
        out
    }
}

/// What the reception of samples yields.
pub type ReceiveResult = Result<usize, TransportError>;

/// What the pump of a proxy does next.
#[derive(Clone, Copy, Debug, PartialEq, Eq, Structural)]
pub enum PumpCommand {
    /// Forward the samples that were received, then receive again.
    Forward,
    /// Receive again after this many milliseconds.
    RetryAfter(u64),
    /// Drop the sample buffer, unsubscribe, and end with this error.
    Stop(TransportError),
}

/// What the pump does after a receive: samples are forwarded, a timeout
/// is followed by a pause of 20 ms and another receive, and any other
/// failure ends the pump.
pub open spec fn spec_pump_command(received: ReceiveResult) -> PumpCommand {
    match received {
        Ok(_) => PumpCommand::Forward,
        Err(TransportError::Timeout) => PumpCommand::RetryAfter(20),
        Err(e) => PumpCommand::Stop(e),
    }
}

/// Why a sample was not turned into a frame. The pump skips the sample and
/// goes on.
#[derive(Clone, Copy, Debug, PartialEq, Eq, Structural)]
pub enum ForwardError {
    /// The sample has no wire payload, or the payload does not fit into
    /// the writer.
    Serialization,
}

/// Holds what one event of an egress bridge needs to turn local samples
/// into event frames: the profile instance and the SOME/IP identity of
/// the event.
pub struct SubscriberProxy<T: ToSomeIP> {
    pub e2e_instance: T::E2EGatewayProfile,
    pub samples: usize,
    pub desc: SomeIPEventDesc,
}

impl<T: ToSomeIP> SubscriberProxy<T> {
    /// A proxy for the event `desc` that takes `samples` samples per
    /// receive, with a new profile instance.
    pub fn new(samples: usize, desc: SomeIPEventDesc) -> (r: Self)
        ensures
            r == (SubscriberProxy::<T> {
                e2e_instance: T::E2EGatewayProfile::spec_new(),
                samples,
                desc,
            }),
    {
        SubscriberProxy { e2e_instance: T::E2EGatewayProfile::new(), samples, desc }
    }

    /// Decides what the pump does after a receive.
    pub fn pump_command(&self, received: ReceiveResult) -> (r: PumpCommand)
        ensures
            r == spec_pump_command(received),
    {
        match received {
            Ok(_) => PumpCommand::Forward,
            Err(TransportError::Timeout) => PumpCommand::RetryAfter(RECEIVE_RETRY_MS),
            Err(e) => PumpCommand::Stop(e),
        }
    }

    /// Turns the sample `sample` into the event frame that goes out for
    /// the service of `someip_handle`: a fresh writer is filled with the
    /// wire payload of the sample under the profile of the proxy. It
    /// fails where the sample has no wire payload or the payload has more
    /// than 1500 bytes.
    pub fn forward(&mut self, someip_handle: &RemoteCovesaAdapterHandle, sample: &T) -> (r: Result<
        TunnelFrame,
        ForwardError,
    >)
        ensures
            *final(self) == *old(self),
            r is Ok <==> (sample.spec_to_someip(Some(old(self).e2e_instance)) matches Some(wire)
                && wire.len() <= 1500),
            r matches Ok(frame) ==> frame@ == spec_event_frame(
                someip_handle@.service_id,
                someip_handle@.instance_id,
                old(self).desc.event_id,
                sample.spec_to_someip(Some(old(self).e2e_instance))->0,
            ),
    {
        let mut e_writer = someip_handle.get_event_writer(self.desc.event_id);
        if sample.to_someip(&mut e_writer.buffer, Some(&mut self.e2e_instance)).is_err() {
            return Err(ForwardError::Serialization);
        }
        assert(e_writer.buffer@ =~= sample.spec_to_someip(Some(old(self).e2e_instance))->0);
        match someip_handle.notify_event(&e_writer) {
            Some(frame) => Ok(frame),
            None => Err(ForwardError::Serialization),
        }
    }
}

/// A subscription that is bridged: the subscribing end of the local
/// channel and the proxy that forwards its samples.
pub struct BridgedSubscription<T: ToSomeIP> {
    pub subscriber: Subscriber<T>,
    pub proxy: SubscriberProxy<T>,
}

/// A consumer record that can set up the forwarding of its subscriptions
/// to SOME/IP.
pub trait LocalBridgeableSubscriptionTrait: SomeIPMappingTrait + Sized {
    /// The forwarders of the record: one per subscription that is bridged.
    type Proxies;

    /// The forwarders that the record makes with the event table
    /// `events_info`; none where the table lacks an event that the record
    /// bridges.
    spec fn spec_bridge(self, events_info: Seq<EventInfo>) -> Option<Self::Proxies>;

    /// Sets up the forwarding of the subscriptions of the record.
    fn bridge(self, events_info: &EventTable) -> (r: Option<Self::Proxies>)
        ensures
            r == self.spec_bridge(events_info@),
    ;
}

/// Whether `at` is the position of the first instance with the id 42
/// among `instances`.
pub open spec fn spec_first_instance(instances: Seq<u16>, at: int) -> bool {
    &&& 0 <= at < instances.len()
    &&& instances[at] == 42u16
    &&& forall|i: int| 0 <= i < at ==> instances[i] != 42u16
}

/// The position of the first instance with the id 42 among `instances`,
/// if there is one.
pub open spec fn spec_select_instance(instances: Seq<u16>) -> Option<int> {
    if exists|at: int| spec_first_instance(instances, at) {
        Some(choose|at: int| spec_first_instance(instances, at))
    } else {
        None
    }
}

/// There is one first instance at most.
pub proof fn lemma_first_instance_unique(instances: Seq<u16>, at: int)
    requires
        spec_first_instance(instances, at),
    ensures
        spec_select_instance(instances) == Some(at),
{
    let chosen = choose|other: int| spec_first_instance(instances, other);
    if chosen < at {
        assert(instances[chosen] != 42u16);
    } else if at < chosen {
        assert(instances[at] != 42u16);
    }
}

/// Where the start of an egress bridge stands.
#[derive(Clone, Copy, Debug, PartialEq, Eq, Structural)]
pub enum EgressPhase {
    /// Nothing was done yet.
    Idle,
    /// The bridge is being registered with the adapter.
    Registering,
    /// The local service is being looked for.
    FindingService,
    /// The local consumer is being built.
    BuildingConsumer,
    /// The service is being offered on the SOME/IP side.
    OfferingService,
    /// The samples are being forwarded.
    Bridging,
    /// The bridge ended.
    Finished,
    /// The bridge broke down.
    Failed,
}

/// What happened since the last command.
#[derive(Clone, Copy, Debug)]
pub enum EgressEvent<'a> {
    /// The bridge is started.
    Start,
    /// The work of the last command is done.
    Done,
    /// The search found these instance ids.
    Instances(&'a [u16]),
    /// The work of the last command failed.
    Failed(TransportError),
}

/// What the bridge has to do next.
#[derive(Clone, Copy, Debug, PartialEq, Eq, Structural)]
pub enum EgressCommand {
    /// Register the bridge with the adapter.
    RegisterHostHalf,
    /// Search the local service, after a pause of this many milliseconds.
    FindService { pause_ms: u64 },
    /// Build the consumer from the instance at this position of the search
    /// result.
    BuildConsumer { instance: usize },
    /// Send the `OfferService` frame.
    OfferService,
    /// Forward the samples of all subscriptions until one of them fails.
    Bridge,
    /// End without an error.
    Finish,
    /// End with this error.
    FinishWithError(TransportError),
    /// Give up.
    Abort,
}

/// Mathematical model of an [`EgressEvent`].
pub enum EgressEventView {
    Start,
    Done,
    Instances(Seq<u16>),
    Failed(TransportError),
}

impl<'a> View for EgressEvent<'a> {
    type V = EgressEventView;

    open spec fn view(&self) -> EgressEventView {
        match self {
            EgressEvent::Start => EgressEventView::Start,
            EgressEvent::Done => EgressEventView::Done,
            EgressEvent::Instances(ids) => EgressEventView::Instances(ids@),
            EgressEvent::Failed(e) => EgressEventView::Failed(*e),
        }
    }
}

/// The start of an egress bridge, step by step: register with the adapter,
/// search the local service until an instance with the id 42 is there,
/// build the consumer, offer the service, forward. A failed search or a
/// consumer that cannot be built ends the bridge with the error, and so
/// does a forwarder that fails. An offer that fails, and an event that
/// does not fit the phase, make the bridge give up.
pub open spec fn spec_egress_step(phase: EgressPhase, event: EgressEventView) -> (EgressPhase, EgressCommand) {
    match (phase, event) {
        (EgressPhase::Idle, EgressEventView::Start) => (EgressPhase::Registering, EgressCommand::RegisterHostHalf),
        (EgressPhase::Registering, EgressEventView::Done) => (
            EgressPhase::FindingService,
            EgressCommand::FindService { pause_ms: 0 },
        ),
        (EgressPhase::FindingService, EgressEventView::Instances(ids)) => match spec_select_instance(ids) {
            Some(at) => (EgressPhase::BuildingConsumer, EgressCommand::BuildConsumer { instance: at as usize }),
            None => (EgressPhase::FindingService, EgressCommand::FindService { pause_ms: 300 }),
        },
        (EgressPhase::FindingService, EgressEventView::Failed(e)) => (
            EgressPhase::Finished,
            EgressCommand::FinishWithError(e),
        ),
        (EgressPhase::BuildingConsumer, EgressEventView::Done) => (
            EgressPhase::OfferingService,
            EgressCommand::OfferService,
        ),
        (EgressPhase::BuildingConsumer, EgressEventView::Failed(e)) => (
            EgressPhase::Finished,
            EgressCommand::FinishWithError(e),
        ),
        (EgressPhase::OfferingService, EgressEventView::Done) => (EgressPhase::Bridging, EgressCommand::Bridge),
        (EgressPhase::Bridging, EgressEventView::Done) => (EgressPhase::Finished, EgressCommand::Finish),
        (EgressPhase::Bridging, EgressEventView::Failed(e)) => (
            EgressPhase::Finished,
            EgressCommand::FinishWithError(e),
        ),
        _ => (EgressPhase::Failed, EgressCommand::Abort),
    }
}

/// The service is offered on the SOME/IP side only after the local
/// consumer was built, and the forwarding starts only after the service
/// was offered.
pub proof fn lemma_egress_order(phase: EgressPhase, event: EgressEventView)
    ensures
        spec_egress_step(phase, event).1 is OfferService ==> phase is BuildingConsumer && event is Done,
        spec_egress_step(phase, event).1 is Bridge ==> phase is OfferingService && event is Done,
        spec_egress_step(phase, event).1 is BuildConsumer ==> phase is FindingService && event is Instances,
        spec_egress_step(phase, event).0 is Bridging <==> spec_egress_step(phase, event).1 is Bridge,
{
}

/// The position of the first instance with the id 42 among `instances`.
pub fn select_instance(instances: &[u16]) -> (r: Option<usize>)
    ensures
        r is Some <==> instances@.contains(42u16),
        r matches Some(at) ==> spec_first_instance(instances@, at as int),
        r == match spec_select_instance(instances@) {
            Some(at) => Some(at as usize),
            None => None,
        },
{
    let mut i: usize = 0;
    while i < instances.len()
        invariant
            i <= instances@.len(),
            forall|k: int| 0 <= k < i ==> instances@[k] != 42u16,
        decreases instances@.len() - i,
    {
        if instances[i] == LOCAL_INSTANCE_ID {
            proof {
                lemma_first_instance_unique(instances@, i as int);
            }
            return Some(i);
        }
        i = i + 1;
    }
    proof {
        assert forall|at: int| !spec_first_instance(instances@, at) by {
            if 0 <= at < instances@.len() {
                assert(instances@[at] != 42u16);
            }
        }
    }
    None
}

/// Bridge for the traffic from a local consumer to SOME/IP.
pub struct LocalToSomeIPBridge<ConsumerType: LocalBridgeableSubscriptionTrait> {
    someip_handle: RemoteCovesaAdapterHandle,
    events: EventTable,
    marker: core::marker::PhantomData<ConsumerType>,
}

/// The adapter may call an egress bridge back.
impl<ConsumerType: LocalBridgeableSubscriptionTrait> SomeIPProducerHostHalf for LocalToSomeIPBridge<ConsumerType> {
}

impl<ConsumerType: LocalBridgeableSubscriptionTrait> LocalToSomeIPBridge<ConsumerType> {
    /// The sending side of the adapter that the bridge uses.
    pub closed spec fn spec_handle(&self) -> RemoteCovesaAdapterHandle {
        self.someip_handle
    }

    /// The event table of the bridge.
    pub closed spec fn spec_events(&self) -> Seq<EventInfo> {
        self.events@
    }

    /// A bridge with the configured `events` that sends through
    /// `someip_handle`. It fails where a configured event names no event
    /// field of the consumer record.
    pub fn new(events: Vec<EventConfig>, someip_handle: RemoteCovesaAdapterHandle) -> (r: Result<
        Self,
        BridgeConfigError,
    >)
        ensures
            r is Ok <==> spec_all_known::<ConsumerType>(events@),
            r matches Ok(bridge) ==> bridge.spec_handle() == someip_handle && bridge.spec_events()
                == spec_event_info::<ConsumerType>(events@),
            r matches Err(BridgeConfigError::UnknownEvent(at)) ==> spec_first_unknown::<ConsumerType>(
                events@,
                at as int,
            ),
    {
        let mut event_mapping = EventTable::new();
        let mut i: usize = 0;
        assert(events@.take(0) =~= Seq::<EventConfig>::empty());
        while i < events.len()
            invariant
                i <= events@.len(),
                spec_all_known::<ConsumerType>(events@.take(i as int)),
                event_mapping@ == spec_event_info::<ConsumerType>(events@.take(i as int)),
            decreases events@.len() - i,
        {
            let ghost prefix = events@.take(i as int);
            let ghost next = events@.take(i + 1);
            assert(next.drop_last() =~= prefix);
            assert(next.last() == events@[i as int]);
            let mapping = match ConsumerType::get_event_mapping(events[i].1) {
                Some(mapping) => mapping,
                None => {
                    assert forall|k: int| 0 <= k < i implies ConsumerType::spec_event_mapping(
                        (#[trigger] events@[k]).1@,
                    ) is Some by {
                        assert(prefix[k] == events@[k]);
                    }
                    return Err(BridgeConfigError::UnknownEvent(i));
                },
            };
            event_mapping.insert(mapping, events[i].0);
            i = i + 1;
            assert forall|k: int| 0 <= k < next.len() implies ConsumerType::spec_event_mapping(
                (#[trigger] next[k]).1@,
            ) is Some by {
                if k < prefix.len() {
                    assert(prefix[k] == next[k]);
                }
            }
        }
        assert(events@.take(events@.len() as int) =~= events@);
        Ok(LocalToSomeIPBridge { someip_handle, events: event_mapping, marker: core::marker::PhantomData })
    }

    /// The sending side of the adapter that the bridge uses.
    pub fn someip_handle(&self) -> (r: &RemoteCovesaAdapterHandle)
        ensures
            *r == self.spec_handle(),
    {
        &self.someip_handle
    }

    /// The event table of the bridge.
    pub fn events(&self) -> (r: &EventTable)
        ensures
            r@ == self.spec_events(),
    {
        &self.events
    }

    /// The `OfferService` frame that offers the service of the bridge
    /// with all its events, in the order of the event table; none where
    /// the bridge has more than ten events.
    pub fn offer_service(&self) -> (r: Option<TunnelFrame>)
        ensures
            r is Some <==> self.spec_events().len() <= 10,
            r matches Some(frame) ==> frame@ == spec_service_frame(
                TunnelMsgType::OfferService,
                self.spec_handle()@.service_id,
                self.spec_handle()@.instance_id,
                spec_table_descs(self.spec_events()),
            ),
    {
        let desc = OfferedServiceDesc { events: self.events.descs() };
        self.someip_handle.offer_service(&desc)
    }

    /// Picks the local service instance among the ids that a search
    /// found: the first with the id 42.
    pub fn find_service(&self, instances: &[u16]) -> (r: Option<usize>)
        ensures
            r is Some <==> instances@.contains(42u16),
            r matches Some(at) ==> spec_first_instance(instances@, at as int),
            r == match spec_select_instance(instances@) {
                Some(at) => Some(at as usize),
                None => None,
            },
    {
        select_instance(instances)
    }

    /// Sets up the forwarders of the consumer `consumer` with the event
    /// table of the bridge.
    pub fn bridge(&self, consumer: ConsumerType) -> (r: Option<ConsumerType::Proxies>)
        ensures
            r == consumer.spec_bridge(self.spec_events()),
    {
        consumer.bridge(&self.events)
    }

    /// One step of the start of the bridge: the phase that follows
    /// `phase` after `event`, and what to do in it.
    pub fn start(phase: EgressPhase, event: EgressEvent) -> (r: (EgressPhase, EgressCommand))
        ensures
            r == spec_egress_step(phase, event@),
    {
        match (phase, event) {
            (EgressPhase::Idle, EgressEvent::Start) => (EgressPhase::Registering, EgressCommand::RegisterHostHalf),
            (EgressPhase::Registering, EgressEvent::Done) => (
                EgressPhase::FindingService,
                EgressCommand::FindService { pause_ms: 0 },
            ),
            (EgressPhase::FindingService, EgressEvent::Instances(ids)) => match select_instance(ids) {
                Some(at) => (EgressPhase::BuildingConsumer, EgressCommand::BuildConsumer { instance: at }),
                None => (
                    EgressPhase::FindingService,
                    EgressCommand::FindService { pause_ms: DISCOVERY_INTERVAL_MS },
                ),
            },
            (EgressPhase::FindingService, EgressEvent::Failed(e)) => (
                EgressPhase::Finished,
                EgressCommand::FinishWithError(e),
            ),
            (EgressPhase::BuildingConsumer, EgressEvent::Done) => (
                EgressPhase::OfferingService,
                EgressCommand::OfferService,
            ),
            (EgressPhase::BuildingConsumer, EgressEvent::Failed(e)) => (
                EgressPhase::Finished,
                EgressCommand::FinishWithError(e),
            ),
            (EgressPhase::OfferingService, EgressEvent::Done) => (EgressPhase::Bridging, EgressCommand::Bridge),
            (EgressPhase::Bridging, EgressEvent::Done) => (
                EgressPhase::Finished,
                EgressCommand::Finish,
            ),
            (EgressPhase::Bridging, EgressEvent::Failed(e)) => (
                EgressPhase::Finished,
                EgressCommand::FinishWithError(e),
            ),
            _ => (EgressPhase::Failed, EgressCommand::Abort),
        }
    }
}

} // verus!
