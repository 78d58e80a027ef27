use someip_gateway::adapter::{FrameOutcome, RemoteCovesaAdapter};
use someip_gateway::e2e::{E2EError, E2EErrorLocal};
use someip_gateway::gateway::{
    configure_incoming_services, configure_outgoing_services, GatewayClient, GatewayDelivery, TASK_QUEUE_SIZE,
    WORKER_THREADS,
};
use someip_gateway::ingress::{IngressOutcome, LocalProducerState, SomeIPConsumerHostHalf, StateChange};
use someip_gateway::interface::{CloseWindows, RainSensor, WindowsPosition};
use someip_gateway::rain::RainSample;
use someip_gateway::service::EventType;
use someip_gateway::tunnel::{
    correlation_id, ServiceDescEntry, SomeipTunnelHeader, SomeipTunnelPayload, TunnelFrame, TunnelMsgType,
};
use someip_gateway::windows::WindowsSample;

fn frame(typ: TunnelMsgType, service_id: u16, instance_id: u16, method_id: u16, is_active: bool, data: &[u8]) -> TunnelFrame {
    TunnelFrame {
        header: SomeipTunnelHeader {
            typ,
            service_id,
            instance_id,
            method_id,
            service_metadata: ServiceDescEntry::default(),
            is_active,
            id: correlation_id(service_id, instance_id),
        },
        payload: SomeipTunnelPayload::from_data(data).expect("the payload fits"),
    }
}

fn configured() -> RemoteCovesaAdapter<GatewayClient> {
    let mut adapter = RemoteCovesaAdapter::new();
    assert_eq!(configure_incoming_services(&mut adapter), Ok(()));
    adapter
}

fn offered() -> RemoteCovesaAdapter<GatewayClient> {
    let mut adapter = configured();
    for service_id in [0x1000u16, 0x1001] {
        let ack = frame(TunnelMsgType::FindServiceAck, service_id, 1, 0, true, &[]);
        assert!(matches!(adapter.handle_frame(&ack), FrameOutcome::StateChanged(StateChange::Offered)));
    }
    adapter
}

fn is_offered(adapter: &RemoteCovesaAdapter<GatewayClient>, at: usize) -> bool {
    match adapter.client(at).expect("the client is registered") {
        GatewayClient::Windows(bridge) => matches!(bridge.producer_state(), LocalProducerState::Offered(_)),
        GatewayClient::Rain(bridge) => matches!(bridge.producer_state(), LocalProducerState::Offered(_)),
    }
}

fn is_unoffered(adapter: &RemoteCovesaAdapter<GatewayClient>, at: usize) -> bool {
    match adapter.client(at).expect("the client is registered") {
        GatewayClient::Windows(bridge) => matches!(bridge.producer_state(), LocalProducerState::Unoffered(_)),
        GatewayClient::Rain(bridge) => matches!(bridge.producer_state(), LocalProducerState::Unoffered(_)),
    }
}

#[test]
fn rain_ingress_with_good_crc_publishes_the_reading() {
    let mut adapter = offered();
    let message = frame(TunnelMsgType::Message, 0x1001, 1, 0x8004, false, &[0x00, 0x00]);
    match adapter.handle_frame(&message) {
        FrameOutcome::Delivered(GatewayDelivery::Rain(IngressOutcome::Published(_, RainSample::RainSensor(envelope)))) => {
            assert_eq!(envelope.gateway_check(), E2EError::NoError);
            assert_eq!(envelope.raw_e2e(), 0);
            match envelope.checked_with(|_| true) {
                Ok(value) => assert_eq!(*value, RainSensor { is_wet: false }),
                Err(_) => panic!("the reading is there"),
            };
        },
        _ => panic!("the reading is published"),
    }
    match adapter.client(1) {
        Some(GatewayClient::Rain(bridge)) => match bridge.producer_state() {
            LocalProducerState::Offered(producer) => assert_eq!(producer.rain_sensor.channel(), "RainSensor/rain_sensor"),
            _ => panic!("the producer is offered"),
        },
        _ => panic!("the rain bridge is the second client"),
    }
}

#[test]
fn rain_ingress_with_bad_crc_publishes_an_envelope_without_value() {
    let mut adapter = offered();
    let message = frame(TunnelMsgType::Message, 0x1001, 1, 0x8004, false, &[0x05, 0x00]);
    match adapter.handle_frame(&message) {
        FrameOutcome::Delivered(GatewayDelivery::Rain(IngressOutcome::Published(_, RainSample::RainSensor(envelope)))) => {
            assert_eq!(envelope.gateway_check(), E2EError::CrcError);
            assert_eq!(envelope.raw_e2e(), 5);
            assert!(matches!(envelope.checked_with(|_| true), Err(E2EErrorLocal::CrcError)));
        },
        _ => panic!("the failure is published"),
    }
    let next = frame(TunnelMsgType::Message, 0x1001, 1, 0x8004, false, &[0x01, 0x01]);
    match adapter.handle_frame(&next) {
        FrameOutcome::Delivered(GatewayDelivery::Rain(IngressOutcome::Published(_, RainSample::RainSensor(envelope)))) => {
            match envelope.checked_with(|_| true) {
                Ok(value) => assert_eq!(*value, RainSensor { is_wet: true }),
                Err(_) => panic!("the reading is there"),
            };
        },
        _ => panic!("the receive loop goes on"),
    }
}

#[test]
fn windows_position_ingress_publishes_the_position() {
    let mut adapter = offered();
    let message = frame(TunnelMsgType::Message, 0x1000, 1, 0x8003, false, &[10, 20, 30, 40]);
    match adapter.handle_frame(&message) {
        FrameOutcome::Delivered(GatewayDelivery::Windows(IngressOutcome::Published(mapping, sample))) => {
            assert_eq!(sample, WindowsSample::WindowsPosition(WindowsPosition { fl: 10, fr: 20, rl: 30, rr: 40 }));
            assert_eq!(mapping.token(), 0);
        },
        _ => panic!("the position is published"),
    }
}

#[test]
fn payload_is_cut_to_the_length_of_the_frame() {
    let mut adapter = offered();
    let mut message = frame(TunnelMsgType::Message, 0x1000, 1, 0x8003, false, &[10, 20, 30, 40, 50]);
    message.payload.length = 3;
    assert!(matches!(
        adapter.handle_frame(&message),
        FrameOutcome::Delivered(GatewayDelivery::Windows(IngressOutcome::BridgeFailed))
    ));
    message.payload.length = 1501;
    assert!(matches!(adapter.handle_frame(&message), FrameOutcome::Malformed));
}

#[test]
fn service_unavailability_unoffers_and_drops_what_follows() {
    let mut adapter = offered();
    assert!(is_offered(&adapter, 0));
    let gone = frame(TunnelMsgType::FindServiceAck, 0x1000, 1, 0, false, &[]);
    assert!(matches!(adapter.handle_frame(&gone), FrameOutcome::StateChanged(StateChange::Unoffered)));
    assert!(is_unoffered(&adapter, 0));
    assert!(is_offered(&adapter, 1));
    let message = frame(TunnelMsgType::Message, 0x1000, 1, 0x8003, false, &[10, 20, 30, 40]);
    assert!(matches!(
        adapter.handle_frame(&message),
        FrameOutcome::Delivered(GatewayDelivery::Windows(IngressOutcome::Unoffered))
    ));
    assert!(is_unoffered(&adapter, 0));
}

#[test]
fn availability_that_does_not_fit_the_state_is_ignored() {
    let mut adapter = configured();
    assert!(is_unoffered(&adapter, 0));
    let gone = frame(TunnelMsgType::FindServiceAck, 0x1000, 1, 0, false, &[]);
    assert!(matches!(adapter.handle_frame(&gone), FrameOutcome::StateChanged(StateChange::Ignored)));
    assert!(is_unoffered(&adapter, 0));
    let there = frame(TunnelMsgType::FindServiceAck, 0x1000, 1, 0, true, &[]);
    assert!(matches!(adapter.handle_frame(&there), FrameOutcome::StateChanged(StateChange::Offered)));
    assert!(matches!(adapter.handle_frame(&there), FrameOutcome::StateChanged(StateChange::Ignored)));
    assert!(is_offered(&adapter, 0));
}

#[test]
fn frames_without_a_bridge_or_an_event_are_dropped() {
    let mut adapter = offered();
    let stranger = frame(TunnelMsgType::Message, 0x2000, 1, 0x8003, false, &[1]);
    assert!(matches!(adapter.handle_frame(&stranger), FrameOutcome::NoClient { service_id: 0x2000, instance_id: 1 }));
    let other_instance = frame(TunnelMsgType::FindServiceAck, 0x1000, 2, 0, true, &[]);
    assert!(matches!(
        adapter.handle_frame(&other_instance),
        FrameOutcome::NoClient { service_id: 0x1000, instance_id: 2 }
    ));
    let unknown_event = frame(TunnelMsgType::Message, 0x1000, 1, 0x8004, false, &[10, 20, 30, 40]);
    assert!(matches!(
        adapter.handle_frame(&unknown_event),
        FrameOutcome::Delivered(GatewayDelivery::Windows(IngressOutcome::NoMapping))
    ));
    let method = frame(TunnelMsgType::Message, 0x1000, 1, 0x0003, false, &[10, 20, 30, 40]);
    assert!(matches!(adapter.handle_frame(&method), FrameOutcome::IgnoredMethod));
    let event = frame(TunnelMsgType::Event, 0x1000, 1, 0x8003, true, &[10, 20, 30, 40]);
    assert!(matches!(adapter.handle_frame(&event), FrameOutcome::Unsupported));
    let bad_bool = frame(TunnelMsgType::Message, 0x1001, 1, 0x8004, false, &[0x02, 0x02]);
    assert!(matches!(
        adapter.handle_frame(&bad_bool),
        FrameOutcome::Delivered(GatewayDelivery::Rain(IngressOutcome::BridgeFailed))
    ));
}

#[test]
fn discovery_asks_for_both_services_in_registration_order() {
    let adapter = configured();
    assert_eq!(adapter.client_count(), 2);
    let requests = adapter.request_find_services();
    assert_eq!(requests.len(), 2);
    assert_eq!(requests[0].frame.header.typ, TunnelMsgType::FindService);
    assert_eq!(requests[0].frame.header.service_id, 0x1000);
    assert_eq!(requests[0].frame.header.instance_id, 1);
    assert_eq!(requests[0].frame.header.id, 0x1000_0001);
    assert_eq!(requests[0].frame.header.service_metadata.len, 1);
    assert_eq!(requests[0].frame.header.service_metadata.event_infos[0].event_id, 0x8003);
    assert_eq!(requests[0].frame.header.service_metadata.event_infos[0].event_groups, [3, 0, 0, 0]);
    assert_eq!(requests[0].frame.header.service_metadata.event_infos[0].typ, EventType::Field);
    assert_eq!(requests[1].frame.header.typ, TunnelMsgType::FindService);
    assert_eq!(requests[1].frame.header.service_id, 0x1001);
    assert_eq!(requests[1].frame.header.instance_id, 1);
    assert_eq!(requests[1].frame.header.service_metadata.event_infos[0].event_id, 0x8004);
    assert_eq!(requests[1].frame.header.service_metadata.event_infos[0].event_groups, [4, 0, 0, 0]);
    for request in requests.iter() {
        assert!(request.pause_after_ms >= 500);
        assert_eq!(request.pause_after_ms, 500);
        assert_eq!(request.frame.payload.length, 0);
    }
}

#[test]
fn incoming_services_start_unoffered_with_their_channels() {
    let adapter = configured();
    match adapter.client(0) {
        Some(GatewayClient::Windows(bridge)) => {
            assert_eq!(bridge.get_service_description().service_id, 0x1000);
            assert_eq!(bridge.get_service_description().specifier.specifier, "WindowsPosition");
            assert_eq!(bridge.get_event_interests().len(), 1);
            match bridge.producer_state() {
                LocalProducerState::Unoffered(producer) => {
                    assert_eq!(producer.windows_position.channel(), "WindowsPosition/windows_position");
                    assert_eq!(producer.close_windows.channel(), "WindowsPosition/close_windows");
                },
                _ => panic!("the producer starts unoffered"),
            }
        },
        _ => panic!("the window bridge is the first client"),
    }
    match adapter.client(1) {
        Some(GatewayClient::Rain(bridge)) => {
            assert_eq!(bridge.get_service_description().service_id, 0x1001);
            assert_eq!(bridge.get_service_description().instance_id, 1);
            assert_eq!(bridge.get_event_interests()[0].event_id, 0x8004);
            assert_eq!(bridge.producer_state().name(), "LocalProducerState::Unoffered");
        },
        _ => panic!("the rain bridge is the second client"),
    }
    assert!(adapter.client(2).is_none());
}

#[test]
fn egress_send_publishes_the_close_command() {
    let adapter: RemoteCovesaAdapter<GatewayClient> = RemoteCovesaAdapter::new();
    let outgoing = configure_outgoing_services(&adapter).expect("the close command is known");
    let bridge = outgoing.close_windows;
    assert_eq!(bridge.someip_handle().get_service_description().specifier.specifier, "CloseWindows");
    let consumer = someip_gateway::mapping::Builder::build(&bridge.someip_handle().get_service_description().specifier);
    let proxies = bridge.bridge(consumer).expect("the close command is in the event table");
    let mut close_windows = proxies.close_windows;
    assert_eq!(close_windows.subscriber.channel(), "CloseWindows/close_windows");
    assert_eq!(close_windows.proxy.samples, 1);
    let frame = close_windows
        .proxy
        .forward(bridge.someip_handle(), &CloseWindows { close: true })
        .expect("one byte fits");
    assert_eq!(frame.header.typ, TunnelMsgType::Event);
    assert_eq!(frame.header.service_id, 0x1010);
    assert_eq!(frame.header.instance_id, 1);
    assert_eq!(frame.header.method_id, 0x8015);
    assert_eq!(frame.payload.length, 1);
    assert_eq!(frame.payload.payload[0], 0x01);
}

#[test]
fn egress_offer_announces_the_close_command() {
    let adapter: RemoteCovesaAdapter<GatewayClient> = RemoteCovesaAdapter::new();
    let outgoing = configure_outgoing_services(&adapter).expect("the close command is known");
    let frame = outgoing.close_windows.offer_service().expect("one event fits");
    assert_eq!(frame.header.typ, TunnelMsgType::OfferService);
    assert_eq!(frame.header.service_id, 0x1010);
    assert_eq!(frame.header.instance_id, 1);
    assert_eq!(frame.header.id, 0x1010_0001);
    assert_eq!(frame.header.service_metadata.len, 1);
    assert_eq!(frame.header.service_metadata.event_infos[0].event_id, 0x8015);
    assert_eq!(frame.header.service_metadata.event_infos[0].event_groups, [15, 0, 0, 0]);
    assert_eq!(frame.header.service_metadata.event_infos[0].typ, EventType::Field);
}

#[test]
fn runtime_has_its_reference_size() {
    assert_eq!(TASK_QUEUE_SIZE, 256);
    assert_eq!(WORKER_THREADS, 3);
}
