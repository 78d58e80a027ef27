use someip_gateway::adapter::RemoteCovesaAdapterHandle;
use someip_gateway::e2e::E2EProtectedType;
use someip_gateway::egress::{
    select_instance, EgressCommand, EgressEvent, EgressPhase, EventTable, ForwardError, LocalToSomeIPBridge,
    PumpCommand, SubscriberProxy, DISCOVERY_INTERVAL_MS, LOCAL_INSTANCE_ID, PROXY_SAMPLE_DEPTH, RECEIVE_RETRY_MS,
};
use someip_gateway::gateway::BridgingServiceBuilder;
use someip_gateway::ingress::{
    BridgeConfigError, IngressOutcome, LocalProducerState, SomeIPConsumerHostHalf, SomeIPToLocalBridge, StateChange,
};
use someip_gateway::interface::{CloseWindows, RainSensor, WindowsPosition};
use someip_gateway::mapping::{
    channel_name, same_text, Builder, EventMapping, OfferedProducer, Producer, SomeIPMappingTrait,
};
use someip_gateway::profile::E2EGatewayProfile;
use someip_gateway::rain::{RainConsumer, RainOfferedProducer, RainProducer};
use someip_gateway::service::{EventType, InstanceSpecifier, ServiceDescription, SomeIPEventDesc, TransportError};
use someip_gateway::tunnel::TunnelMsgType;
use someip_gateway::windows::{WindowsConsumer, WindowsOfferedProducer, WindowsProducer, WindowsSample};

fn field(event_id: u16, event_group_id: u16) -> SomeIPEventDesc {
    SomeIPEventDesc { event_id, event_group_id, typ: EventType::Field }
}

fn windows_bridge() -> SomeIPToLocalBridge<WindowsProducer> {
    BridgingServiceBuilder::create_someip_to_local_bridge::<WindowsProducer>(
        ServiceDescription::new(0x1000, 1, "WindowsPosition"),
        vec![(field(0x8003, 3), "windows_position"), (field(0x8009, 3), "close_windows")],
    )
    .expect("both event fields are known")
}

#[test]
fn event_names_map_to_distinct_tokens() {
    let position = WindowsOfferedProducer::get_event_mapping("windows_position").expect("a known name");
    let close = WindowsOfferedProducer::get_event_mapping("close_windows").expect("a known name");
    assert_ne!(position, close);
    assert_eq!(position.token(), 0);
    assert_eq!(close.token(), 1);
    assert_eq!(WindowsOfferedProducer::get_event_mapping("rain_sensor"), None);
    assert_eq!(WindowsOfferedProducer::get_event_mapping(""), None);
    assert_eq!(WindowsConsumer::get_event_mapping("windows_position"), Some(position));
    assert_eq!(WindowsConsumer::get_event_mapping("close_windows"), Some(close));
    let rain = RainOfferedProducer::get_event_mapping("rain_sensor").expect("a known name");
    assert_eq!(rain, EventMapping::new(0));
    assert_eq!(RainConsumer::get_event_mapping("rain_sensor"), Some(rain));
    assert_eq!(RainOfferedProducer::get_event_mapping("windows_position"), None);
    assert_eq!(RainOfferedProducer::get_event_mapping("rain_sensor "), None);
}

#[test]
fn profiles_of_the_events_have_the_ids_of_their_types() {
    let position = WindowsOfferedProducer::get_event_mapping("windows_position").expect("a known name");
    assert_eq!(WindowsOfferedProducer::create_e2e_instance(position).profile_id(), 0);
    assert_eq!(WindowsConsumer::create_e2e_instance(position).profile_id(), 0);
    let rain = RainOfferedProducer::get_event_mapping("rain_sensor").expect("a known name");
    assert_eq!(RainOfferedProducer::create_e2e_instance(rain).profile_id(), 0x0A);
    assert_eq!(RainConsumer::create_e2e_instance(rain).profile_id(), 0x0A);
}

#[test]
fn channel_names_join_instance_and_event() {
    assert_eq!(channel_name("RainSensor", "rain_sensor"), "RainSensor/rain_sensor");
    assert_eq!(channel_name("", ""), "/");
    assert!(same_text("abc", "abc"));
    assert!(!same_text("abc", "abd"));
    assert!(!same_text("abc", "ab"));
    let specifier = InstanceSpecifier::new("Car");
    let producer = WindowsProducer::build(&specifier);
    assert_eq!(producer.windows_position.channel(), "Car/windows_position");
    assert_eq!(producer.close_windows.channel(), "Car/close_windows");
    let consumer = RainConsumer::build(&specifier.duplicate());
    assert_eq!(consumer.rain_sensor.channel(), "Car/rain_sensor");
    let consumer = WindowsConsumer::build(&specifier);
    assert_eq!(consumer.close_windows.channel(), "Car/close_windows");
}

#[test]
fn offer_and_unoffer_keep_the_channels() {
    let producer = RainProducer::build(&InstanceSpecifier::new("RainSensor"));
    let offered = producer.offer().expect("offering does not fail");
    assert_eq!(offered.rain_sensor.channel(), "RainSensor/rain_sensor");
    let unoffered = offered.unoffer();
    assert_eq!(unoffered.rain_sensor.channel(), "RainSensor/rain_sensor");
}

#[test]
fn a_bridge_with_an_unknown_event_is_not_made() {
    let made = BridgingServiceBuilder::create_someip_to_local_bridge::<WindowsProducer>(
        ServiceDescription::new(0x1000, 1, "WindowsPosition"),
        vec![(field(0x8003, 3), "windows_position"), (field(0x8004, 4), "rain_sensor"), (field(0x8005, 5), "nothing")],
    );
    assert!(matches!(made, Err(BridgeConfigError::UnknownEvent(1))));
    let handle = RemoteCovesaAdapterHandle::new(ServiceDescription::new(0x1010, 1, "CloseWindows"));
    let made = BridgingServiceBuilder::create_local_to_someip_bridge::<WindowsConsumer>(
        vec![(field(0x8015, 15), "close")],
        handle,
    );
    assert!(matches!(made, Err(BridgeConfigError::UnknownEvent(0))));
}

#[test]
fn producer_state_follows_the_availability() {
    let mut bridge = windows_bridge();
    assert_eq!(bridge.producer_state().name(), "LocalProducerState::Unoffered");
    assert_eq!(bridge.service_state_changed(false), StateChange::Ignored);
    assert!(matches!(bridge.producer_state(), LocalProducerState::Unoffered(_)));
    assert_eq!(bridge.service_state_changed(true), StateChange::Offered);
    assert_eq!(bridge.producer_state().name(), "LocalProducerState::Offered");
    assert_eq!(bridge.service_state_changed(true), StateChange::Ignored);
    assert!(matches!(bridge.producer_state(), LocalProducerState::Offered(_)));
    assert_eq!(bridge.service_state_changed(false), StateChange::Unoffered);
    assert!(matches!(bridge.producer_state(), LocalProducerState::Unoffered(_)));
    assert_eq!(LocalProducerState::<WindowsProducer>::InTransition.name(), "LocalProducerState::InTransition");
}

#[test]
fn events_are_converted_only_while_offered() {
    let mut bridge = windows_bridge();
    assert!(matches!(bridge.receive_event(0x8003, &[1, 2, 3, 4]), IngressOutcome::Unoffered));
    assert_eq!(bridge.service_state_changed(true), StateChange::Offered);
    match bridge.receive_event(0x8003, &[1, 2, 3, 4]) {
        IngressOutcome::Published(mapping, sample) => {
            assert_eq!(mapping.token(), 0);
            assert_eq!(sample, WindowsSample::WindowsPosition(WindowsPosition { fl: 1, fr: 2, rl: 3, rr: 4 }));
        },
        _ => panic!("the position is published"),
    }
    match bridge.receive_event(0x8009, &[1]) {
        IngressOutcome::Published(mapping, sample) => {
            assert_eq!(mapping.token(), 1);
            assert_eq!(sample, WindowsSample::CloseWindows(CloseWindows { close: true }));
        },
        _ => panic!("the command is published"),
    }
    assert!(matches!(bridge.receive_event(0x8009, &[3]), IngressOutcome::BridgeFailed));
    assert!(matches!(bridge.receive_event(0x8003, &[]), IngressOutcome::BridgeFailed));
    assert!(matches!(bridge.receive_event(0x8010, &[1, 2, 3, 4]), IngressOutcome::NoMapping));
    assert_eq!(bridge.get_event_interests().len(), 2);
    assert_eq!(bridge.get_event_interests()[1], field(0x8009, 3));
    assert_eq!(bridge.get_service_description().service_id, 0x1000);
}

#[test]
fn the_last_configuration_of_an_event_id_counts() {
    let mut bridge = BridgingServiceBuilder::create_someip_to_local_bridge::<WindowsProducer>(
        ServiceDescription::new(0x1000, 1, "WindowsPosition"),
        vec![(field(0x8003, 3), "windows_position"), (field(0x8003, 3), "close_windows")],
    )
    .expect("both event fields are known");
    assert_eq!(bridge.service_state_changed(true), StateChange::Offered);
    assert!(matches!(
        bridge.receive_event(0x8003, &[1]),
        IngressOutcome::Published(_, WindowsSample::CloseWindows(CloseWindows { close: true }))
    ));
    assert_eq!(bridge.get_event_interests().len(), 2);
}

#[test]
fn the_first_instance_with_id_42_is_selected() {
    assert_eq!(LOCAL_INSTANCE_ID, 42);
    assert_eq!(select_instance(&[]), None);
    assert_eq!(select_instance(&[1, 2, 3]), None);
    assert_eq!(select_instance(&[42]), Some(0));
    assert_eq!(select_instance(&[7, 42, 9, 42]), Some(1));
}

#[test]
fn egress_start_goes_step_by_step() {
    type Bridge = LocalToSomeIPBridge<WindowsConsumer>;
    assert_eq!(
        Bridge::start(EgressPhase::Idle, EgressEvent::Start),
        (EgressPhase::Registering, EgressCommand::RegisterHostHalf)
    );
    assert_eq!(
        Bridge::start(EgressPhase::Registering, EgressEvent::Done),
        (EgressPhase::FindingService, EgressCommand::FindService { pause_ms: 0 })
    );
    assert_eq!(
        Bridge::start(EgressPhase::FindingService, EgressEvent::Instances(&[1, 2])),
        (EgressPhase::FindingService, EgressCommand::FindService { pause_ms: 300 })
    );
    assert_eq!(DISCOVERY_INTERVAL_MS, 300);
    assert_eq!(
        Bridge::start(EgressPhase::FindingService, EgressEvent::Instances(&[1, 42])),
        (EgressPhase::BuildingConsumer, EgressCommand::BuildConsumer { instance: 1 })
    );
    assert_eq!(
        Bridge::start(EgressPhase::BuildingConsumer, EgressEvent::Done),
        (EgressPhase::OfferingService, EgressCommand::OfferService)
    );
    assert_eq!(
        Bridge::start(EgressPhase::OfferingService, EgressEvent::Done),
        (EgressPhase::Bridging, EgressCommand::Bridge)
    );
    assert_eq!(
        Bridge::start(EgressPhase::Bridging, EgressEvent::Failed(TransportError::Fail)),
        (EgressPhase::Finished, EgressCommand::FinishWithError(TransportError::Fail))
    );
    assert_eq!(Bridge::start(EgressPhase::Bridging, EgressEvent::Done), (EgressPhase::Finished, EgressCommand::Finish));
}

#[test]
fn egress_start_ends_or_gives_up_on_failures() {
    type Bridge = LocalToSomeIPBridge<WindowsConsumer>;
    assert_eq!(
        Bridge::start(EgressPhase::FindingService, EgressEvent::Failed(TransportError::Fail)),
        (EgressPhase::Finished, EgressCommand::FinishWithError(TransportError::Fail))
    );
    assert_eq!(
        Bridge::start(EgressPhase::BuildingConsumer, EgressEvent::Failed(TransportError::Timeout)),
        (EgressPhase::Finished, EgressCommand::FinishWithError(TransportError::Timeout))
    );
    assert_eq!(
        Bridge::start(EgressPhase::OfferingService, EgressEvent::Failed(TransportError::Fail)),
        (EgressPhase::Failed, EgressCommand::Abort)
    );
    assert_eq!(
        Bridge::start(EgressPhase::Registering, EgressEvent::Failed(TransportError::Fail)),
        (EgressPhase::Failed, EgressCommand::Abort)
    );
    assert_eq!(Bridge::start(EgressPhase::Idle, EgressEvent::Done), (EgressPhase::Failed, EgressCommand::Abort));
    assert_eq!(Bridge::start(EgressPhase::Finished, EgressEvent::Start), (EgressPhase::Failed, EgressCommand::Abort));
    assert_eq!(Bridge::start(EgressPhase::Failed, EgressEvent::Done), (EgressPhase::Failed, EgressCommand::Abort));
}

#[test]
fn pump_retries_a_timeout_and_stops_on_failure() {
    let proxy: SubscriberProxy<CloseWindows> = SubscriberProxy::new(PROXY_SAMPLE_DEPTH, field(0x8015, 15));
    assert_eq!(proxy.samples, 1);
    assert_eq!(proxy.desc, field(0x8015, 15));
    assert_eq!(proxy.pump_command(Ok(1)), PumpCommand::Forward);
    assert_eq!(proxy.pump_command(Ok(0)), PumpCommand::Forward);
    assert_eq!(proxy.pump_command(Err(TransportError::Timeout)), PumpCommand::RetryAfter(20));
    assert_eq!(RECEIVE_RETRY_MS, 20);
    assert_eq!(proxy.pump_command(Err(TransportError::Fail)), PumpCommand::Stop(TransportError::Fail));
}

#[test]
fn proxy_forwards_a_protected_sample_with_its_integrity_byte() {
    let handle = RemoteCovesaAdapterHandle::new(ServiceDescription::new(0x1001, 1, "RainSensor"));
    let mut proxy: SubscriberProxy<E2EProtectedType<RainSensor>> = SubscriberProxy::new(1, field(0x8004, 4));
    let sample = E2EProtectedType::from_local(RainSensor { is_wet: true });
    let frame = proxy.forward(&handle, &sample).expect("two bytes fit");
    assert_eq!(frame.header.typ, TunnelMsgType::Event);
    assert_eq!(frame.header.service_id, 0x1001);
    assert_eq!(frame.header.method_id, 0x8004);
    assert_eq!(frame.payload.length, 2);
    assert_eq!(&frame.payload.payload[..2], &[1u8, 1][..]);
    let broken: E2EProtectedType<RainSensor> =
        E2EProtectedType::from_gateway(None, 1, someip_gateway::e2e::E2EError::CrcError);
    assert_eq!(proxy.forward(&handle, &broken).err(), Some(ForwardError::Serialization));
    let again = proxy.forward(&handle, &E2EProtectedType::from_local(RainSensor { is_wet: false }));
    assert_eq!(again.expect("the pump goes on").payload.length, 2);
}

#[test]
fn event_table_keeps_one_entry_per_event_field() {
    let mut table = EventTable::new();
    assert_eq!(table.len(), 0);
    assert_eq!(table.get(EventMapping::new(1)), None);
    table.insert(EventMapping::new(1), field(0x8015, 15));
    table.insert(EventMapping::new(0), field(0x8003, 3));
    table.insert(EventMapping::new(1), field(0x8016, 16));
    assert_eq!(table.len(), 2);
    assert_eq!(table.get(EventMapping::new(1)), Some(field(0x8016, 16)));
    assert_eq!(table.get(EventMapping::new(0)), Some(field(0x8003, 3)));
    assert_eq!(table.get(EventMapping::new(2)), None);
    assert_eq!(table.descs(), vec![field(0x8016, 16), field(0x8003, 3)]);
}

#[test]
fn egress_bridge_offers_its_events_in_the_order_of_configuration() {
    let handle = RemoteCovesaAdapterHandle::new(ServiceDescription::new(0x1010, 1, "CloseWindows"));
    let bridge = BridgingServiceBuilder::create_local_to_someip_bridge::<WindowsConsumer>(
        vec![(field(0x8015, 15), "close_windows"), (field(0x8003, 3), "windows_position"), (field(0x8016, 16), "close_windows")],
        handle,
    )
    .expect("both event fields are known");
    assert_eq!(bridge.events().len(), 2);
    assert_eq!(bridge.find_service(&[3, 42]), Some(1));
    assert_eq!(bridge.find_service(&[3]), None);
    let frame = bridge.offer_service().expect("two events fit");
    assert_eq!(frame.header.service_metadata.len, 2);
    assert_eq!(frame.header.service_metadata.event_infos[0].event_id, 0x8016);
    assert_eq!(frame.header.service_metadata.event_infos[1].event_id, 0x8003);
    let proxies = bridge.bridge(WindowsConsumer::build(&InstanceSpecifier::new("CloseWindows")));
    assert_eq!(proxies.expect("the close command is configured").close_windows.proxy.desc, field(0x8016, 16));
}

#[test]
fn consumer_is_not_bridged_without_its_event() {
    let handle = RemoteCovesaAdapterHandle::new(ServiceDescription::new(0x1010, 1, "CloseWindows"));
    let bridge = BridgingServiceBuilder::create_local_to_someip_bridge::<WindowsConsumer>(
        vec![(field(0x8003, 3), "windows_position")],
        handle,
    )
    .expect("the event field is known");
    assert!(bridge.bridge(WindowsConsumer::build(&InstanceSpecifier::new("CloseWindows"))).is_none());
    let handle = RemoteCovesaAdapterHandle::new(ServiceDescription::new(0x1001, 1, "RainSensor"));
    let rain = BridgingServiceBuilder::create_local_to_someip_bridge::<RainConsumer>(
        vec![(field(0x8004, 4), "rain_sensor")],
        handle,
    )
    .expect("the event field is known");
    let proxies = rain.bridge(RainConsumer::build(&InstanceSpecifier::new("RainSensor")));
    let proxies = proxies.expect("the rain sensor is configured");
    assert_eq!(proxies.rain_sensor.proxy.desc, field(0x8004, 4));
    assert_eq!(proxies.rain_sensor.subscriber.channel(), "RainSensor/rain_sensor");
}
