use someip_gateway::buffer::WriteBuf;
use someip_gateway::service::{EventType, ServiceDescription, SomeIPEventDesc};
use someip_gateway::tunnel::{
    correlation_id, demux, event_frame, find_service_frame, offer_service_frame, DemuxAction, ServiceDescEntry,
    SomeipTunnelHeader, SomeipTunnelPayload, TunnelEventDesc, TunnelMsgType,
};

fn header(typ: TunnelMsgType, service_id: u16, instance_id: u16, method_id: u16, is_active: bool) -> SomeipTunnelHeader {
    SomeipTunnelHeader {
        typ,
        service_id,
        instance_id,
        method_id,
        service_metadata: ServiceDescEntry::default(),
        is_active,
        id: correlation_id(service_id, instance_id),
    }
}

#[test]
fn message_kinds_have_their_wire_codes() {
    assert_eq!(TunnelMsgType::OfferService.code(), 0);
    assert_eq!(TunnelMsgType::FindService.code(), 1);
    assert_eq!(TunnelMsgType::OfferServiceAck.code(), 2);
    assert_eq!(TunnelMsgType::FindServiceAck.code(), 3);
    assert_eq!(TunnelMsgType::Message.code(), 4);
    assert_eq!(TunnelMsgType::Event.code(), 5);
    for code in 0u8..=5 {
        assert_eq!(TunnelMsgType::from_code(code).map(|typ| typ.code()), Some(code));
    }
    assert_eq!(TunnelMsgType::from_code(6), None);
    assert_eq!(TunnelMsgType::from_code(255), None);
}

#[test]
fn correlation_id_puts_the_service_above_the_instance() {
    assert_eq!(correlation_id(0x1000, 1), 0x1000_0001);
    assert_eq!(correlation_id(0, 0), 0);
    assert_eq!(correlation_id(0xFFFF, 0xFFFF), 0xFFFF_FFFF);
    assert_eq!(correlation_id(0x1010, 1), 269_484_033);
}

#[test]
fn default_entries_are_blank() {
    let blank = TunnelEventDesc::default();
    assert_eq!(blank.event_id, 0);
    assert_eq!(blank.event_groups, [0u16; 4]);
    assert_eq!(blank.len, 0);
    assert_eq!(blank.typ, EventType::Event);
    let entry = ServiceDescEntry::default();
    assert_eq!(entry.len, 0);
    for info in entry.event_infos.iter() {
        assert_eq!(info.event_id, 0);
        assert_eq!(info.len, 0);
    }
}

#[test]
fn find_service_frame_describes_the_events() {
    let desc = ServiceDescription::new(0x1000, 1, "WindowsPosition");
    let events = [
        SomeIPEventDesc { event_id: 0x8003, event_group_id: 3, typ: EventType::Field },
        SomeIPEventDesc { event_id: 0x8007, event_group_id: 9, typ: EventType::Event },
    ];
    let frame = find_service_frame(&desc, &events).expect("two events fit");
    assert_eq!(frame.header.typ, TunnelMsgType::FindService);
    assert_eq!(frame.header.service_id, 0x1000);
    assert_eq!(frame.header.instance_id, 1);
    assert_eq!(frame.header.method_id, 0);
    assert!(!frame.header.is_active);
    assert_eq!(frame.header.id, 0x1000_0001);
    assert_eq!(frame.header.service_metadata.len, 2);
    let first = frame.header.service_metadata.event_infos[0];
    assert_eq!(first.event_id, 0x8003);
    assert_eq!(first.event_groups, [3, 0, 0, 0]);
    assert_eq!(first.len, 1);
    assert_eq!(first.typ, EventType::Field);
    let second = frame.header.service_metadata.event_infos[1];
    assert_eq!(second.event_id, 0x8007);
    assert_eq!(second.event_groups, [9, 0, 0, 0]);
    assert_eq!(second.typ, EventType::Event);
    let third = frame.header.service_metadata.event_infos[2];
    assert_eq!(third.event_id, 0);
    assert_eq!(third.len, 0);
    assert_eq!(frame.payload.length, 0);
    assert!(frame.payload.payload.iter().all(|b| *b == 0));
}

#[test]
fn offer_service_frame_has_its_kind() {
    let desc = ServiceDescription::new(0x1010, 1, "CloseWindows");
    let events = [SomeIPEventDesc { event_id: 0x8015, event_group_id: 15, typ: EventType::Field }];
    let frame = offer_service_frame(&desc, &events).expect("one event fits");
    assert_eq!(frame.header.typ, TunnelMsgType::OfferService);
    assert_eq!(frame.header.service_id, 0x1010);
    assert_eq!(frame.header.id, 0x1010_0001);
    assert_eq!(frame.header.service_metadata.len, 1);
    assert_eq!(frame.header.service_metadata.event_infos[0].event_groups, [15, 0, 0, 0]);
    assert!(!frame.header.is_active);
}

#[test]
fn a_service_description_holds_ten_events_at_most() {
    let desc = ServiceDescription::new(1, 1, "Many");
    let mut events = Vec::new();
    for i in 0..10u16 {
        events.push(SomeIPEventDesc { event_id: 0x8000 + i, event_group_id: i, typ: EventType::Event });
    }
    let frame = find_service_frame(&desc, &events).expect("ten events fit");
    assert_eq!(frame.header.service_metadata.len, 10);
    assert_eq!(frame.header.service_metadata.event_infos[9].event_id, 0x8009);
    events.push(SomeIPEventDesc { event_id: 0x800A, event_group_id: 10, typ: EventType::Event });
    assert!(find_service_frame(&desc, &events).is_none());
    assert!(offer_service_frame(&desc, &events).is_none());
    assert!(ServiceDescEntry::describe(&events).is_none());
}

#[test]
fn event_frame_carries_what_the_writer_holds() {
    let desc = ServiceDescription::new(0x1010, 1, "CloseWindows");
    let mut writer = WriteBuf::new(1500);
    assert!(writer.put_u8(0x01).is_ok());
    let frame = event_frame(&desc, 0x8015, &writer).expect("one byte fits");
    assert_eq!(frame.header.typ, TunnelMsgType::Event);
    assert_eq!(frame.header.service_id, 0x1010);
    assert_eq!(frame.header.instance_id, 1);
    assert_eq!(frame.header.method_id, 0x8015);
    assert!(frame.header.is_active);
    assert_eq!(frame.header.service_metadata.len, 0);
    assert_eq!(frame.payload.length, 1);
    assert_eq!(frame.payload.payload[0], 0x01);
    assert!(frame.payload.payload[1..].iter().all(|b| *b == 0));
    let mut large = WriteBuf::new(1501);
    assert!(large.advance_filled(1501).is_ok());
    assert!(event_frame(&desc, 0x8015, &large).is_none());
}

#[test]
fn payload_data_is_cut_to_its_length() {
    let payload = SomeipTunnelPayload::from_data(&[10, 20, 30, 40]).expect("four bytes fit");
    assert_eq!(payload.length, 4);
    assert_eq!(payload.data(), Some(&[10u8, 20, 30, 40][..]));
    let mut shorter = payload;
    shorter.length = 2;
    assert_eq!(shorter.data(), Some(&[10u8, 20][..]));
    let mut wrong = payload;
    wrong.length = 1501;
    assert_eq!(wrong.data(), None);
    let mut whole = payload;
    whole.length = 1500;
    assert_eq!(whole.data().map(|d| d.len()), Some(1500));
    assert_eq!(SomeipTunnelPayload::empty().data(), Some(&[][..]));
    assert!(SomeipTunnelPayload::from_data(&[0u8; 1501]).is_none());
    assert!(SomeipTunnelPayload::from_data(&[0u8; 1500]).is_some());
}

#[test]
fn demux_reads_the_header() {
    assert_eq!(
        demux(&header(TunnelMsgType::FindServiceAck, 0x1000, 1, 0, false)),
        DemuxAction::ServiceStateChanged { service_id: 0x1000, instance_id: 1, available: false }
    );
    assert_eq!(
        demux(&header(TunnelMsgType::FindServiceAck, 0x1001, 2, 0, true)),
        DemuxAction::ServiceStateChanged { service_id: 0x1001, instance_id: 2, available: true }
    );
    assert_eq!(
        demux(&header(TunnelMsgType::Message, 0x1001, 1, 0x8004, false)),
        DemuxAction::ReceiveEvent { service_id: 0x1001, instance_id: 1, event_id: 0x8004 }
    );
    assert_eq!(
        demux(&header(TunnelMsgType::Message, 0x1001, 1, 0x8000, false)),
        DemuxAction::ReceiveEvent { service_id: 0x1001, instance_id: 1, event_id: 0x8000 }
    );
    assert_eq!(
        demux(&header(TunnelMsgType::Message, 0x1001, 1, 0xFFFF, false)),
        DemuxAction::ReceiveEvent { service_id: 0x1001, instance_id: 1, event_id: 0xFFFF }
    );
    assert_eq!(demux(&header(TunnelMsgType::Message, 0x1001, 1, 0x7FFF, false)), DemuxAction::IgnoredMethod);
    assert_eq!(demux(&header(TunnelMsgType::Message, 0x1001, 1, 0, false)), DemuxAction::IgnoredMethod);
    assert_eq!(demux(&header(TunnelMsgType::Event, 0x1001, 1, 0x8004, true)), DemuxAction::Unsupported);
    assert_eq!(demux(&header(TunnelMsgType::OfferService, 1, 1, 0, false)), DemuxAction::Unsupported);
    assert_eq!(demux(&header(TunnelMsgType::FindService, 1, 1, 0, false)), DemuxAction::Unsupported);
    assert_eq!(demux(&header(TunnelMsgType::OfferServiceAck, 1, 1, 0, true)), DemuxAction::Unsupported);
}
