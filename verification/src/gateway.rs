//! The orchestration of the gateway: the making of bridges, the clients of
//! the adapter, and the services that the gateway is set up with.

use vstd::prelude::*;
use crate::adapter::{spec_register, spec_registered, RegistrationError, RemoteCovesaAdapter};
use crate::adapter::RemoteCovesaAdapterHandle;
use crate::egress::{spec_event_info, LocalBridgeableSubscriptionTrait, LocalToSomeIPBridge};
use crate::ingress::{spec_all_known, spec_bridge_wf, spec_event_descs, spec_event_table};
use crate::ingress::{spec_first_unknown, spec_profile_table};
use crate::ingress::{BridgeConfigError, EventConfig, IngressOutcome, LocalProducerState};
use crate::ingress::{SomeIPConsumerHostHalf, SomeIPToLocalBridge, StateChange};
use crate::mapping::{Builder, EventMapping, Producer, PublisherSomeIPMappingTrait};
use crate::profile::{E2EGatewayProfile, E2EShowcaseProfile, NoE2EProtection};
use crate::rain::{RainProducer, RainSample};
use crate::service::{EventId, EventType, ServiceDescription, ServiceDescriptionView, SomeIPEventDesc};
use crate::windows::{WindowsConsumer, WindowsProducer, WindowsSample};

verus! {

/// Size of the task queue of the runtime.
pub const TASK_QUEUE_SIZE: usize = 256;

/// Number of worker threads of the runtime.
pub const WORKER_THREADS: usize = 3;

/// SOME/IP service of the window position.
pub const WINDOWS_SERVICE_ID: u16 = 0x1000;

/// SOME/IP service of the rain sensor.
pub const RAIN_SERVICE_ID: u16 = 0x1001;

/// SOME/IP service of the close command.
pub const CLOSE_WINDOWS_SERVICE_ID: u16 = 0x1010;

/// SOME/IP instance of every service.
pub const SERVICE_INSTANCE_ID: u16 = 1;

/// Makes bridges from their configuration.
pub struct BridgingServiceBuilder {}

impl BridgingServiceBuilder {
    /// Makes the bridge from SOME/IP to the local side for the service
    /// `description` with the configured `events`. The gateway is a local
    /// producer and a client on the SOME/IP side. The producer is built
    /// for the service instance of `description` and starts unoffered. It
    /// fails where a configured event names no event field of the
    /// producer.
    pub fn create_someip_to_local_bridge<ProducerType: Producer + Builder>(
        description: ServiceDescription,
        events: Vec<EventConfig>,
    ) -> (r: Result<SomeIPToLocalBridge<ProducerType>, BridgeConfigError>) where
        ProducerType::OfferedProducer: PublisherSomeIPMappingTrait,

        ensures
            r is Ok <==> spec_all_known::<ProducerType::OfferedProducer>(events@),
            r matches Ok(bridge) ==> {
                &&& spec_bridge_wf(bridge@)
                &&& bridge@.desc == description@
                &&& bridge@.producer matches LocalProducerState::Unoffered(producer)
                &&& producer.spec_built_for(description@.specifier)
                &&& bridge@.event_mapping == spec_event_table::<ProducerType::OfferedProducer>(events@)
                &&& bridge@.e2e_instances == spec_profile_table::<ProducerType::OfferedProducer>(events@)
                &&& bridge@.events == spec_event_descs(events@)
            },
            r matches Err(BridgeConfigError::UnknownEvent(at)) ==> spec_first_unknown::<
                ProducerType::OfferedProducer,
            >(events@, at as int),
    {
        let unoffered = ProducerType::build(&description.specifier);
        SomeIPToLocalBridge::new(description, events, unoffered)
    }

    /// Makes the bridge from the local side to SOME/IP with the
    /// configured `events` that sends through `someip_handle`. The gateway
    /// is a local consumer and a server on the SOME/IP side. It fails
    /// where a configured event names no event field of the consumer.
    pub fn create_local_to_someip_bridge<ConsumerType: LocalBridgeableSubscriptionTrait>(
        events: Vec<EventConfig>,
        someip_handle: RemoteCovesaAdapterHandle,
    ) -> (r: Result<LocalToSomeIPBridge<ConsumerType>, BridgeConfigError>)
        ensures
            r is Ok <==> spec_all_known::<ConsumerType>(events@),
            r matches Ok(bridge) ==> bridge.spec_handle() == someip_handle && bridge.spec_events()
                == spec_event_info::<ConsumerType>(events@),
            r matches Err(BridgeConfigError::UnknownEvent(at)) ==> spec_first_unknown::<ConsumerType>(
                events@,
                at as int,
            ),
    {
        LocalToSomeIPBridge::new(events, someip_handle)
    }
}

/// An ingress bridge of the gateway, whatever its interface.
pub enum GatewayClient {
    Windows(SomeIPToLocalBridge<WindowsProducer>),
    Rain(SomeIPToLocalBridge<RainProducer>),
}

/// What an incoming event hands to the local side, whatever the
/// interface.
#[derive(Debug)]
pub enum GatewayDelivery {
    Windows(IngressOutcome<WindowsSample>),
    Rain(IngressOutcome<RainSample>),
}

impl SomeIPConsumerHostHalf for GatewayClient {
    type Delivery = GatewayDelivery;

    open spec fn wf(&self) -> bool {
        match self {
            GatewayClient::Windows(bridge) => bridge.wf(),
            GatewayClient::Rain(bridge) => bridge.wf(),
        }
    }

    open spec fn spec_service_id(&self) -> u16 {
        match self {
            GatewayClient::Windows(bridge) => bridge.spec_service_id(),
            GatewayClient::Rain(bridge) => bridge.spec_service_id(),
        }
    }

    open spec fn spec_instance_id(&self) -> u16 {
        match self {
            GatewayClient::Windows(bridge) => bridge.spec_instance_id(),
            GatewayClient::Rain(bridge) => bridge.spec_instance_id(),
        }
    }

    open spec fn spec_event_interests(&self) -> Seq<SomeIPEventDesc> {
        match self {
            GatewayClient::Windows(bridge) => bridge.spec_event_interests(),
            GatewayClient::Rain(bridge) => bridge.spec_event_interests(),
        }
    }

    /// The bridge inside receives the event; the interface stays.
    open spec fn spec_received(&self, event_id: EventId, data: Seq<u8>, after: &Self, delivery: GatewayDelivery) -> bool {
        match (self, after, delivery) {
            (
                GatewayClient::Windows(bridge),
                GatewayClient::Windows(bridge_after),
                GatewayDelivery::Windows(outcome),
            ) => bridge.spec_received(event_id, data, bridge_after, outcome),
            (GatewayClient::Rain(bridge), GatewayClient::Rain(bridge_after), GatewayDelivery::Rain(outcome)) => bridge.spec_received(
                event_id,
                data,
                bridge_after,
                outcome,
            ),
            _ => false,
        }
    }

    /// The bridge inside takes the news; the interface stays.
    open spec fn spec_state_changed(&self, available: bool, after: &Self, change: StateChange) -> bool {
        match (self, after) {
            (GatewayClient::Windows(bridge), GatewayClient::Windows(bridge_after)) => bridge.spec_state_changed(
                available,
                bridge_after,
                change,
            ),
            (GatewayClient::Rain(bridge), GatewayClient::Rain(bridge_after)) => bridge.spec_state_changed(
                available,
                bridge_after,
                change,
            ),
            _ => false,
        }
    }

    fn receive_event(&mut self, event_id: EventId, data: &[u8]) -> (r: GatewayDelivery) {
        match self {
            GatewayClient::Windows(bridge) => GatewayDelivery::Windows(bridge.receive_event(event_id, data)),
            GatewayClient::Rain(bridge) => GatewayDelivery::Rain(bridge.receive_event(event_id, data)),
        }
    }

    fn service_state_changed(&mut self, available: bool) -> (r: StateChange) {
        match self {
            GatewayClient::Windows(bridge) => bridge.service_state_changed(available),
            GatewayClient::Rain(bridge) => bridge.service_state_changed(available),
        }
    }

    fn get_service_description(&self) -> (r: &ServiceDescription) {
        match self {
            GatewayClient::Windows(bridge) => bridge.get_service_description(),
            GatewayClient::Rain(bridge) => bridge.get_service_description(),
        }
    }

    fn get_event_interests(&self) -> (r: &[SomeIPEventDesc]) {
        match self {
            GatewayClient::Windows(bridge) => bridge.get_event_interests(),
            GatewayClient::Rain(bridge) => bridge.get_event_interests(),
        }
    }
}

/// The event of the window position on the SOME/IP side.
pub open spec fn spec_windows_position_event() -> SomeIPEventDesc {
    SomeIPEventDesc { event_id: 0x8003, event_group_id: 3, typ: EventType::Field }
}

/// The event of the rain sensor on the SOME/IP side.
pub open spec fn spec_rain_sensor_event() -> SomeIPEventDesc {
    SomeIPEventDesc { event_id: 0x8004, event_group_id: 4, typ: EventType::Field }
}

/// The event of the close command on the SOME/IP side.
pub open spec fn spec_close_windows_event() -> SomeIPEventDesc {
    SomeIPEventDesc { event_id: 0x8015, event_group_id: 15, typ: EventType::Field }
}

/// Whether `client` is the ingress bridge of the window position as the
/// gateway sets it up: service 0x1000, instance 1, local instance
/// `WindowsPosition`, with the event 0x8003 for the event field
/// `windows_position`, unprotected, and not offered.
pub open spec fn spec_is_windows_ingress(client: GatewayClient) -> bool {
    &&& client matches GatewayClient::Windows(bridge)
    &&& spec_bridge_wf(bridge@)
    &&& bridge@.desc == (ServiceDescriptionView {
        service_id: 0x1000,
        instance_id: 1,
        specifier: "WindowsPosition"@,
    })
    &&& bridge@.producer matches LocalProducerState::Unoffered(producer)
    &&& producer.spec_built_for("WindowsPosition"@)
    &&& bridge@.event_mapping == Map::<EventId, EventMapping>::empty().insert(
        0x8003,
        EventMapping::spec_new(0),
    )
    &&& bridge@.e2e_instances == Map::<u64, NoE2EProtection>::empty().insert(0, NoE2EProtection::spec_new())
    &&& bridge@.events == seq![spec_windows_position_event()]
}

/// Whether `client` is the ingress bridge of the rain sensor as the
/// gateway sets it up: service 0x1001, instance 1, local instance
/// `RainSensor`, with the event 0x8004 for the event field `rain_sensor`
/// under the showcase profile, and not offered.
pub open spec fn spec_is_rain_ingress(client: GatewayClient) -> bool {
    &&& client matches GatewayClient::Rain(bridge)
    &&& spec_bridge_wf(bridge@)
    &&& bridge@.desc == (ServiceDescriptionView { service_id: 0x1001, instance_id: 1, specifier: "RainSensor"@ })
    &&& bridge@.producer matches LocalProducerState::Unoffered(producer)
    &&& producer.spec_built_for("RainSensor"@)
    &&& bridge@.event_mapping == Map::<EventId, EventMapping>::empty().insert(
        0x8004,
        EventMapping::spec_new(0),
    )
    &&& bridge@.e2e_instances == Map::<u64, E2EShowcaseProfile>::empty().insert(
        0,
        E2EShowcaseProfile::spec_new(),
    )
    &&& bridge@.events == seq![spec_rain_sensor_event()]
}

/// Why the gateway could not be set up.
#[derive(Clone, Copy, Debug, PartialEq, Eq, Structural)]
pub enum ConfigureError {
    Bridge(BridgeConfigError),
    Registration(RegistrationError),
}

/// The ingress bridge of the window position.
pub fn windows_ingress_bridge() -> (r: Result<GatewayClient, BridgeConfigError>)
    ensures
        r is Ok,
        spec_is_windows_ingress(r->Ok_0),
{
    let mut events_windows: Vec<EventConfig> = Vec::new();
    events_windows.push(
        (SomeIPEventDesc { event_id: 0x8003, event_group_id: 3, typ: EventType::Field }, "windows_position"),
    );
    proof {
        let events = events_windows@;
        assert(events.drop_last() =~= Seq::<EventConfig>::empty());
        reveal_with_fuel(spec_event_table, 2);
        reveal_with_fuel(spec_profile_table, 2);
        broadcast use EventMapping::lemma_token_of_new;

        assert(spec_event_descs(events) =~= seq![spec_windows_position_event()]);
    }
    let created = BridgingServiceBuilder::create_someip_to_local_bridge::<WindowsProducer>(
        ServiceDescription::new(WINDOWS_SERVICE_ID, SERVICE_INSTANCE_ID, "WindowsPosition"),
        events_windows,
    );
    match created {
        Ok(bridge) => Ok(GatewayClient::Windows(bridge)),
        Err(e) => Err(e),
    }
}

/// The ingress bridge of the rain sensor.
pub fn rain_ingress_bridge() -> (r: Result<GatewayClient, BridgeConfigError>)
    ensures
        r is Ok,
        spec_is_rain_ingress(r->Ok_0),
{
    let mut events_rain: Vec<EventConfig> = Vec::new();
    events_rain.push(
        (SomeIPEventDesc { event_id: 0x8004, event_group_id: 4, typ: EventType::Field }, "rain_sensor"),
    );
    proof {
        let events = events_rain@;
        assert(events.drop_last() =~= Seq::<EventConfig>::empty());
        reveal_with_fuel(spec_event_table, 2);
        reveal_with_fuel(spec_profile_table, 2);
        broadcast use EventMapping::lemma_token_of_new;

        assert(spec_event_descs(events) =~= seq![spec_rain_sensor_event()]);
    }
    let created = BridgingServiceBuilder::create_someip_to_local_bridge::<RainProducer>(
        ServiceDescription::new(RAIN_SERVICE_ID, SERVICE_INSTANCE_ID, "RainSensor"),
        events_rain,
    );
    match created {
        Ok(bridge) => Ok(GatewayClient::Rain(bridge)),
        Err(e) => Err(e),
    }
}

/// Sets up the services that come from SOME/IP: the window position and
/// the rain sensor, registered with the adapter in this order.
pub fn configure_incoming_services(adapter: &mut RemoteCovesaAdapter<GatewayClient>) -> (r: Result<
    (),
    ConfigureError,
>)
    requires
        old(adapter).wf(),
    ensures
        r is Ok,
        final(adapter).wf(),
        final(adapter).spec_host_producers() == old(adapter).spec_host_producers(),
        exists|windows: GatewayClient, rain: GatewayClient|
            #![trigger spec_is_windows_ingress(windows), spec_is_rain_ingress(rain)]
            spec_is_windows_ingress(windows) && spec_is_rain_ingress(rain) && final(adapter)@ == spec_register(
                spec_register(old(adapter)@, windows),
                rain,
            ),
        !spec_registered(old(adapter)@, 0x1000, 1) && !spec_registered(old(adapter)@, 0x1001, 1) ==> {
            &&& final(adapter)@.len() == old(adapter)@.len() + 2
            &&& final(adapter)@.subrange(0, old(adapter)@.len() as int) == old(adapter)@
            &&& spec_is_windows_ingress(final(adapter)@[old(adapter)@.len() as int])
            &&& spec_is_rain_ingress(final(adapter)@[old(adapter)@.len() as int + 1])
        },
{
    let windows_bridge = match windows_ingress_bridge() {
        Ok(bridge) => bridge,
        Err(e) => {
            return Err(ConfigureError::Bridge(e));
        },
    };
    match adapter.register_service_client(windows_bridge) {
        Ok(()) => {},
        Err(e) => {
            return Err(ConfigureError::Registration(e));
        },
    }
    let ghost with_windows = adapter@;
    let rain_bridge = match rain_ingress_bridge() {
        Ok(bridge) => bridge,
        Err(e) => {
            return Err(ConfigureError::Bridge(e));
        },
    };
    match adapter.register_service_client(rain_bridge) {
        Ok(()) => {},
        Err(e) => {
            return Err(ConfigureError::Registration(e));
        },
    }
    proof {
        assert(adapter@ == spec_register(spec_register(old(adapter)@, windows_bridge), rain_bridge));
        if !spec_registered(old(adapter)@, 0x1000, 1) && !spec_registered(old(adapter)@, 0x1001, 1) {
            assert(with_windows == old(adapter)@.push(windows_bridge));
            assert forall|at: int| !crate::adapter::spec_registered_at(with_windows, 0x1001, 1, at) by {
                if 0 <= at < old(adapter)@.len() {
                    assert(with_windows[at] == old(adapter)@[at]);
                    assert(!crate::adapter::spec_registered_at(old(adapter)@, 0x1001, 1, at));
                }
            }
            assert(adapter@ == with_windows.push(rain_bridge));
            assert(adapter@.subrange(0, old(adapter)@.len() as int) =~= old(adapter)@);
        }
    }
    Ok(())
}

/// The egress bridges of the gateway.
pub struct OutgoingServices {
    pub close_windows: LocalToSomeIPBridge<WindowsConsumer>,
}

/// Sets up the services that go to SOME/IP: the close command, as service
/// 0x1010, instance 1, local instance `CloseWindows`, with the event
/// 0x8015 for the event field `close_windows`.
pub fn configure_outgoing_services<C: SomeIPConsumerHostHalf>(adapter: &RemoteCovesaAdapter<C>) -> (r: Result<
    OutgoingServices,
    ConfigureError,
>)
    ensures
        r is Ok,
        r->Ok_0.close_windows.spec_handle()@ == (ServiceDescriptionView {
            service_id: 0x1010,
            instance_id: 1,
            specifier: "CloseWindows"@,
        }),
        r->Ok_0.close_windows.spec_events() == seq![(EventMapping::spec_new(1), spec_close_windows_event())],
{
    let mut events: Vec<EventConfig> = Vec::new();
    events.push(
        (SomeIPEventDesc { event_id: 0x8015, event_group_id: 15, typ: EventType::Field }, "close_windows"),
    );
    proof {
        reveal_strlit("close_windows");
        reveal_strlit("windows_position");
        assert("close_windows"@.len() != "windows_position"@.len());
        let configured = events@;
        assert(configured.drop_last() =~= Seq::<EventConfig>::empty());
        reveal_with_fuel(spec_event_info, 2);
        reveal_with_fuel(crate::egress::spec_table_position, 2);
        assert(spec_event_info::<WindowsConsumer>(configured) =~= seq![
            (EventMapping::spec_new(1), spec_close_windows_event()),
        ]);
    }
    let handle = adapter.obtain_producer_handle(
        ServiceDescription::new(CLOSE_WINDOWS_SERVICE_ID, SERVICE_INSTANCE_ID, "CloseWindows"),
    );
    let created = BridgingServiceBuilder::create_local_to_someip_bridge::<WindowsConsumer>(events, handle);
    match created {
        Ok(bridge) => Ok(OutgoingServices { close_windows: bridge }),
        Err(e) => Err(ConfigureError::Bridge(e)),
    }
}

} // verus!
