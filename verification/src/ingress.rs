//! The ingress bridge: the receiver of one service that owns a local
//! producer, offers and withdraws it as the remote service comes and goes,
//! and converts incoming event payloads for the publishers of the producer.

use std::collections::HashMap;
use vstd::prelude::*;
use crate::mapping::{EventMapping, OfferedProducer, Producer};
use crate::mapping::{PublisherSomeIPMappingTrait, SomeIPMappingTrait};
use crate::service::{EventId, ServiceDescription, ServiceDescriptionView, SomeIPEventDesc, TransportError};

verus! {

broadcast use vstd::std_specs::hash::group_hash_axioms;

/// The profile type of the events of the producer `P`.
pub type ProfileOf<P> = <<P as Producer>::OfferedProducer as SomeIPMappingTrait>::Profile;

/// The sample type of the publishers of the producer `P`.
pub type SampleOf<P> = <<P as Producer>::OfferedProducer as PublisherSomeIPMappingTrait>::Sample;

/// One configured event of a bridge: its SOME/IP identity and the name of
/// the event field that carries it locally.
pub type EventConfig<'a> = (SomeIPEventDesc, &'a str);

/// The local producer of an ingress bridge, in exactly one of its states.
/// `InTransition` stands only while a transition is under way, and for
/// good after an offer that failed.
pub enum LocalProducerState<T: Producer> {
    /// The remote service is not available.
    Unoffered(T),
    /// The remote service is available.
    Offered(T::OfferedProducer),
    /// The producer is on its way from one state to the other.
    InTransition,
}

impl<T: Producer> LocalProducerState<T> {
    /// The name of the state.
    pub fn name(&self) -> (r: &'static str)
        ensures
            r@ == match self {
                LocalProducerState::Unoffered(_) => "LocalProducerState::Unoffered"@,
                LocalProducerState::Offered(_) => "LocalProducerState::Offered"@,
                LocalProducerState::InTransition => "LocalProducerState::InTransition"@,
            },
    {
        match self {
            LocalProducerState::Unoffered(_) => "LocalProducerState::Unoffered",
            LocalProducerState::Offered(_) => "LocalProducerState::Offered",
            LocalProducerState::InTransition => "LocalProducerState::InTransition",
        }
    }
}

/// What a change of availability did to a bridge.
#[derive(Clone, Copy, Debug, PartialEq, Eq, Structural)]
pub enum StateChange {
    /// The producer was unoffered and is now offered.
    Offered,
    /// The producer was offered and is now unoffered.
    Unoffered,
    /// The availability did not fit the state; the state was kept.
    Ignored,
    /// The offer failed; the bridge has no producer any more.
    OfferFailed(TransportError),
}

/// What became of an incoming event.
#[derive(Debug)]
pub enum IngressOutcome<S> {
    /// The payload was converted; the sample is for the publisher of the
    /// event field that the token names.
    Published(EventMapping, S),
    /// Dropped: the producer is unoffered.
    Unoffered,
    /// Dropped: the bridge has no producer.
    NoProducer,
    /// Dropped: no event of the bridge has this id.
    NoMapping,
    /// Dropped: the payload could not be converted.
    BridgeFailed,
}

/// The state that follows `state` when the remote service turns out to be
/// available or not: an unoffered producer is offered once the service is
/// available, an offered one is withdrawn once it is not, and everything
/// else stays as it is. An offer that fails leaves no producer.
pub open spec fn spec_next_state<T: Producer>(state: LocalProducerState<T>, available: bool) -> LocalProducerState<T> {
    match state {
        LocalProducerState::Unoffered(unoffered) => if available {
            match unoffered.spec_offer() {
                Ok(offered) => LocalProducerState::Offered(offered),
                Err(_) => LocalProducerState::InTransition,
            }
        } else {
            state
        },
        LocalProducerState::Offered(offered) => if !available {
            LocalProducerState::Unoffered(offered.spec_unoffer())
        } else {
            state
        },
        LocalProducerState::InTransition => state,
    }
}

/// What the step from `state` under `available` reports.
pub open spec fn spec_state_change<T: Producer>(state: LocalProducerState<T>, available: bool) -> StateChange {
    match state {
        LocalProducerState::Unoffered(unoffered) => if available {
            match unoffered.spec_offer() {
                Ok(_) => StateChange::Offered,
                Err(e) => StateChange::OfferFailed(e),
            }
        } else {
            StateChange::Ignored
        },
        LocalProducerState::Offered(_) => if !available {
            StateChange::Unoffered
        } else {
            StateChange::Ignored
        },
        LocalProducerState::InTransition => StateChange::Ignored,
    }
}

/// A step of the state machine never ends in a state between the two: the
/// producer is unoffered, or offered, or gone. It is gone only where it was
/// gone before or its offer failed.
pub proof fn lemma_state_exclusive<T: Producer>(state: LocalProducerState<T>, available: bool)
    ensures
        spec_next_state(state, available) is InTransition <==> (state is InTransition || spec_state_change(state, available)
            is OfferFailed),
        spec_state_change(state, available) is Offered ==> state is Unoffered && spec_next_state(
            state,
            available,
        ) is Offered,
        spec_state_change(state, available) is Unoffered ==> state is Offered && spec_next_state(
            state,
            available,
        ) is Unoffered,
        spec_state_change(state, available) is Ignored ==> spec_next_state(state, available) == state,
{
}

/// Whether every configured event names an event field of the record `R`.
pub open spec fn spec_all_known<R: SomeIPMappingTrait>(events: Seq<EventConfig>) -> bool {
    forall|i: int| 0 <= i < events.len() ==> R::spec_event_mapping((#[trigger] events[i]).1@) is Some
}

/// The token of each configured event id. Where an id is configured more
/// than once, the last configuration counts.
pub open spec fn spec_event_table<R: SomeIPMappingTrait>(events: Seq<EventConfig>) -> Map<EventId, EventMapping>
    decreases events.len(),
{
    if events.len() == 0 {
        Map::empty()
    } else {
        spec_event_table::<R>(events.drop_last()).insert(
            events.last().0.event_id,
            R::spec_event_mapping(events.last().1@)->0,
        )
    }
}

/// The profile instance of each configured event field, by the number of
/// its token.
pub open spec fn spec_profile_table<R: SomeIPMappingTrait>(events: Seq<EventConfig>) -> Map<u64, R::Profile>
    decreases events.len(),
{
    if events.len() == 0 {
        Map::empty()
    } else {
        spec_profile_table::<R>(events.drop_last()).insert(
            R::spec_event_mapping(events.last().1@)->0.spec_token(),
            R::spec_e2e_instance(R::spec_event_mapping(events.last().1@)->0),
        )
    }
}

/// The SOME/IP identities of the configured events, in their order.
pub open spec fn spec_event_descs(events: Seq<EventConfig>) -> Seq<SomeIPEventDesc> {
    Seq::new(events.len(), |i: int| events[i].0)
}

/// Mathematical model of an ingress bridge.
pub struct BridgeView<T: Producer> where T::OfferedProducer: PublisherSomeIPMappingTrait {
    pub desc: ServiceDescriptionView,
    pub producer: LocalProducerState<T>,
    pub e2e_instances: Map<u64, ProfileOf<T>>,
    pub event_mapping: Map<EventId, EventMapping>,
    pub events: Seq<SomeIPEventDesc>,
}

/// Whether every event of the bridge has a token of its record and a
/// profile instance.
pub open spec fn spec_bridge_wf<T: Producer>(v: BridgeView<T>) -> bool where
    T::OfferedProducer: PublisherSomeIPMappingTrait,
 {
    forall|id: EventId| #[trigger]
        v.event_mapping.contains_key(id) ==> <T::OfferedProducer as SomeIPMappingTrait>::spec_is_mapped(
            v.event_mapping[id],
        ) && v.e2e_instances.contains_key(v.event_mapping[id].spec_token())
}

/// What becomes of the event `event_id` with the payload `data` at a bridge
/// in the state `v`. Only an offered producer converts, and only an event
/// that the bridge was configured with.
pub open spec fn spec_receive_outcome<T: Producer>(v: BridgeView<T>, event_id: EventId, data: Seq<u8>) -> IngressOutcome<
    SampleOf<T>,
> where T::OfferedProducer: PublisherSomeIPMappingTrait {
    match v.producer {
        LocalProducerState::Unoffered(_) => IngressOutcome::Unoffered,
        LocalProducerState::InTransition => IngressOutcome::NoProducer,
        LocalProducerState::Offered(_) => if v.event_mapping.contains_key(event_id) {
            let mapping = v.event_mapping[event_id];
            match <T::OfferedProducer as PublisherSomeIPMappingTrait>::spec_bridge_event(
                mapping,
                data,
                v.e2e_instances[mapping.spec_token()],
            ) {
                Ok(sample) => IngressOutcome::Published(mapping, sample),
                Err(_) => IngressOutcome::BridgeFailed,
            }
        } else {
            IngressOutcome::NoMapping
        },
    }
}

/// The profile instances of a bridge after the event `event_id` with the
/// payload `data`: the instance of a converted event has seen the payload,
/// all others are untouched.
pub open spec fn spec_receive_profiles<T: Producer>(v: BridgeView<T>, event_id: EventId, data: Seq<u8>) -> Map<
    u64,
    ProfileOf<T>,
> where T::OfferedProducer: PublisherSomeIPMappingTrait {
    if v.producer is Offered && v.event_mapping.contains_key(event_id) {
        let mapping = v.event_mapping[event_id];
        v.e2e_instances.insert(
            mapping.spec_token(),
            <T::OfferedProducer as PublisherSomeIPMappingTrait>::spec_bridge_profile(
                mapping,
                data,
                v.e2e_instances[mapping.spec_token()],
            ),
        )
    } else {
        v.e2e_instances
    }
}

/// Why a bridge could not be made from its configuration.
#[derive(Clone, Copy, Debug, PartialEq, Eq, Structural)]
pub enum BridgeConfigError {
    /// The configured event at this position names no event field of the
    /// record.
    UnknownEvent(usize),
}

/// The position of the first configured event that names no event field
/// of the record `R`, if there is one.
pub open spec fn spec_first_unknown<R: SomeIPMappingTrait>(events: Seq<EventConfig>, at: int) -> bool {
    &&& 0 <= at < events.len()
    &&& R::spec_event_mapping(events[at].1@) is None
    &&& forall|i: int| 0 <= i < at ==> R::spec_event_mapping((#[trigger] events[i]).1@) is Some
}

/// The side of an ingress bridge that the SOME/IP adapter calls.
pub trait SomeIPConsumerHostHalf: Sized {
    /// What an incoming event hands to the local side.
    type Delivery;

    /// Whether the value keeps its invariant.
    spec fn wf(&self) -> bool;

    /// The SOME/IP service that this side belongs to.
    spec fn spec_service_id(&self) -> u16;

    /// The SOME/IP instance that this side belongs to.
    spec fn spec_instance_id(&self) -> u16;

    /// The events that this side wants to receive.
    spec fn spec_event_interests(&self) -> Seq<SomeIPEventDesc>;

    /// Whether `after` and `delivery` are what the event `event_id` with
    /// the payload `data` makes of this value.
    spec fn spec_received(&self, event_id: EventId, data: Seq<u8>, after: &Self, delivery: Self::Delivery) -> bool;

    /// Whether `after` and `change` are what the news `available` makes of
    /// this value.
    spec fn spec_state_changed(&self, available: bool, after: &Self, change: StateChange) -> bool;

    /// Called when an event was received for `event_id`.
    fn receive_event(&mut self, event_id: EventId, data: &[u8]) -> (r: Self::Delivery)
        requires
            old(self).wf(),
        ensures
            final(self).wf(),
            final(self).spec_service_id() == old(self).spec_service_id(),
            final(self).spec_instance_id() == old(self).spec_instance_id(),
            final(self).spec_event_interests() == old(self).spec_event_interests(),
            old(self).spec_received(event_id, data@, final(self), r),
    ;

    /// Called when the requested service became available or unavailable.
    fn service_state_changed(&mut self, available: bool) -> (r: StateChange)
        requires
            old(self).wf(),
        ensures
            final(self).wf(),
            final(self).spec_service_id() == old(self).spec_service_id(),
            final(self).spec_instance_id() == old(self).spec_instance_id(),
            final(self).spec_event_interests() == old(self).spec_event_interests(),
            old(self).spec_state_changed(available, final(self), r),
    ;

    fn get_service_description(&self) -> (r: &ServiceDescription)
        ensures
            r.service_id == self.spec_service_id(),
            r.instance_id == self.spec_instance_id(),
    ;

    fn get_event_interests(&self) -> (r: &[SomeIPEventDesc])
        ensures
            r@ == self.spec_event_interests(),
    ;
}

/// Bridge for the traffic from SOME/IP to a local producer.
pub struct SomeIPToLocalBridge<ProducerType: Producer> where
    ProducerType::OfferedProducer: PublisherSomeIPMappingTrait,
 {
    desc: ServiceDescription,
    producer: LocalProducerState<ProducerType>,
    e2e_instances: HashMap<u64, ProfileOf<ProducerType>>,
    event_mapping: HashMap<EventId, EventMapping>,
    events: Vec<SomeIPEventDesc>,
}

impl<ProducerType: Producer> View for SomeIPToLocalBridge<ProducerType> where
    ProducerType::OfferedProducer: PublisherSomeIPMappingTrait,
 {
    type V = BridgeView<ProducerType>;

    closed spec fn view(&self) -> BridgeView<ProducerType> {
        BridgeView {
            desc: self.desc@,
            producer: self.producer,
            e2e_instances: self.e2e_instances@,
            event_mapping: self.event_mapping@,
            events: self.events@,
        }
    }
}

impl<ProducerType: Producer> SomeIPToLocalBridge<ProducerType> where
    ProducerType::OfferedProducer: PublisherSomeIPMappingTrait,
 {
    /// A bridge for the service `desc` with the configured `events` that
    /// starts with the producer `unoffered`, not offered. It fails where a
    /// configured event names no event field of the record.
    pub fn new(desc: ServiceDescription, events: Vec<EventConfig>, unoffered: ProducerType) -> (r: Result<
        Self,
        BridgeConfigError,
    >)
        ensures
            r is Ok <==> spec_all_known::<ProducerType::OfferedProducer>(events@),
            r matches Ok(bridge) ==> {
                &&& spec_bridge_wf(bridge@)
                &&& bridge@.desc == desc@
                &&& bridge@.producer == LocalProducerState::Unoffered(unoffered)
                &&& bridge@.event_mapping == spec_event_table::<ProducerType::OfferedProducer>(events@)
                &&& bridge@.e2e_instances == spec_profile_table::<ProducerType::OfferedProducer>(events@)
                &&& bridge@.events == spec_event_descs(events@)
            },
            r matches Err(BridgeConfigError::UnknownEvent(at)) ==> spec_first_unknown::<
                ProducerType::OfferedProducer,
            >(events@, at as int),
    {
        let mut event_mapping: HashMap<EventId, EventMapping> = HashMap::new();
        let mut e2e_instances: HashMap<u64, ProfileOf<ProducerType>> = HashMap::new();
        let mut events_only: Vec<SomeIPEventDesc> = Vec::new();
        let mut i: usize = 0;
        assert(events@.take(0) =~= Seq::<EventConfig>::empty());
        while i < events.len()
            invariant
                i <= events@.len(),
                spec_all_known::<ProducerType::OfferedProducer>(events@.take(i as int)),
                event_mapping@ == spec_event_table::<ProducerType::OfferedProducer>(events@.take(i as int)),
                e2e_instances@ == spec_profile_table::<ProducerType::OfferedProducer>(
                    events@.take(i as int),
                ),
                events_only@ == spec_event_descs(events@.take(i as int)),
                forall|id: EventId| #[trigger]
                    event_mapping@.contains_key(id) ==> <ProducerType::OfferedProducer as SomeIPMappingTrait>::spec_is_mapped(
                        event_mapping@[id],
                    ) && e2e_instances@.contains_key(event_mapping@[id].spec_token()),
            decreases events@.len() - i,
        {
            let event_desc: SomeIPEventDesc = events[i].0;
            let name: &str = events[i].1;
            let ghost prefix = events@.take(i as int);
            let ghost next = events@.take(i + 1);
            assert(next.drop_last() =~= prefix);
            assert(next.last() == events@[i as int]);
            let mapping = match <ProducerType::OfferedProducer as SomeIPMappingTrait>::get_event_mapping(name) {
                Some(mapping) => mapping,
                None => {
                    assert forall|k: int| 0 <= k < i implies <ProducerType::OfferedProducer as SomeIPMappingTrait>::spec_event_mapping(
                        (#[trigger] events@[k]).1@,
                    ) is Some by {
                        assert(prefix[k] == events@[k]);
                    }
                    return Err(BridgeConfigError::UnknownEvent(i));
                },
            };
            proof {
                <ProducerType::OfferedProducer as SomeIPMappingTrait>::lemma_mapping_is_mapped(name@);
            }
            event_mapping.insert(event_desc.event_id, mapping);
            events_only.push(event_desc);
            let e2e = <ProducerType::OfferedProducer as SomeIPMappingTrait>::create_e2e_instance(mapping);
            e2e_instances.insert(mapping.token(), e2e);
            i = i + 1;
            assert(events_only@ =~= spec_event_descs(next));
            assert forall|k: int| 0 <= k < next.len() implies <ProducerType::OfferedProducer as SomeIPMappingTrait>::spec_event_mapping(
                (#[trigger] next[k]).1@,
            ) is Some by {
                if k < prefix.len() {
                    assert(prefix[k] == next[k]);
                }
            }
        }
        assert(events@.take(events@.len() as int) =~= events@);
        Ok(
            SomeIPToLocalBridge {
                desc,
                producer: LocalProducerState::Unoffered(unoffered),
                event_mapping,
                events: events_only,
                e2e_instances,
            },
        )
    }

    /// The state of the local producer.
    pub fn producer_state(&self) -> (r: &LocalProducerState<ProducerType>)
        ensures
            *r == self@.producer,
    {
        &self.producer
    }
}

impl<ProducerType: Producer> SomeIPConsumerHostHalf for SomeIPToLocalBridge<ProducerType> where
    ProducerType::OfferedProducer: PublisherSomeIPMappingTrait,
 {
    type Delivery = IngressOutcome<SampleOf<ProducerType>>;

    open spec fn wf(&self) -> bool {
        spec_bridge_wf(self@)
    }

    open spec fn spec_service_id(&self) -> u16 {
        self@.desc.service_id
    }

    open spec fn spec_instance_id(&self) -> u16 {
        self@.desc.instance_id
    }

    open spec fn spec_event_interests(&self) -> Seq<SomeIPEventDesc> {
        self@.events
    }

    /// The event is converted or dropped as the state and the
    /// configuration say; nothing but the profile instance of a converted
    /// event changes.
    open spec fn spec_received(
        &self,
        event_id: EventId,
        data: Seq<u8>,
        after: &Self,
        delivery: IngressOutcome<SampleOf<ProducerType>>,
    ) -> bool {
        &&& delivery == spec_receive_outcome(self@, event_id, data)
        &&& after@ == (BridgeView {
            e2e_instances: spec_receive_profiles(self@, event_id, data),
            ..self@
        })
    }

    /// The producer takes its next state; nothing else changes.
    open spec fn spec_state_changed(&self, available: bool, after: &Self, change: StateChange) -> bool {
        &&& change == spec_state_change(self@.producer, available)
        &&& after@ == (BridgeView { producer: spec_next_state(self@.producer, available), ..self@ })
    }

    fn receive_event(&mut self, event_id: EventId, data: &[u8]) -> (r: IngressOutcome<SampleOf<ProducerType>>) {
        match &self.producer {
            LocalProducerState::Unoffered(_) => IngressOutcome::Unoffered,
            LocalProducerState::InTransition => IngressOutcome::NoProducer,
            LocalProducerState::Offered(offered) => {
                let mapping: EventMapping = match self.event_mapping.get(&event_id) {
                    Some(mapping) => *mapping,
                    None => {
                        return IngressOutcome::NoMapping;
                    },
                };
                assert(self@.event_mapping.contains_key(event_id));
                let token: u64 = mapping.token();
                match self.e2e_instances.remove(&token) {
                    Some(profile) => {
                        let mut profile = profile;
                        let bridged = offered.bridge_event(mapping, data, &mut profile);
                        self.e2e_instances.insert(token, profile);
                        assert(self.e2e_instances@ =~= spec_receive_profiles(old(self)@, event_id, data@));
                        match bridged {
                            Ok(sample) => IngressOutcome::Published(mapping, sample),
                            Err(_) => IngressOutcome::BridgeFailed,
                        }
                    },
                    None => {
                        assert(false);
                        IngressOutcome::NoMapping
                    },
                }
            },
        }
    }

    fn service_state_changed(&mut self, available: bool) -> (r: StateChange) {
        let mut prev: LocalProducerState<ProducerType> = LocalProducerState::InTransition;
        core::mem::swap(&mut self.producer, &mut prev);
        let change = match prev {
            LocalProducerState::Unoffered(unoffered) => {
                if available {
                    match unoffered.offer() {
                        Ok(offered) => {
                            self.producer = LocalProducerState::Offered(offered);
                            StateChange::Offered
                        },
                        Err(e) => StateChange::OfferFailed(e),
                    }
                } else {
                    self.producer = LocalProducerState::Unoffered(unoffered);
                    StateChange::Ignored
                }
            },
            LocalProducerState::Offered(offered) => {
                if !available {
                    self.producer = LocalProducerState::Unoffered(offered.unoffer());
                    StateChange::Unoffered
                } else {
                    self.producer = LocalProducerState::Offered(offered);
                    StateChange::Ignored
                }
            },
            LocalProducerState::InTransition => StateChange::Ignored,
        };
        proof {
            assert(self@.event_mapping == old(self)@.event_mapping);
            assert(self@.e2e_instances == old(self)@.e2e_instances);
            assert forall|id: EventId| #[trigger] self@.event_mapping.contains_key(id) implies <ProducerType::OfferedProducer as SomeIPMappingTrait>::spec_is_mapped(
                self@.event_mapping[id],
            ) && self@.e2e_instances.contains_key(self@.event_mapping[id].spec_token()) by {
                assert(old(self)@.event_mapping.contains_key(id));
            }
        }
        change
    }

    fn get_service_description(&self) -> (r: &ServiceDescription)
        ensures
            r@ == self@.desc,
    {
        &self.desc
    }

    fn get_event_interests(&self) -> (r: &[SomeIPEventDesc]) {
        self.events.as_slice()
    }
}

} // verus!
