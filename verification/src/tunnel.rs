//! The tunnel protocol between the gateway and the SOME/IP stack: the
//! fixed-size frames, the frames that the gateway emits, and the reading
//! of the frames that it receives.

use vstd::prelude::*;
use crate::buffer::WriteBuf;
use crate::service::{EventId, EventType, ServiceDescription, SomeIPEventDesc};

verus! {

/// The most events that the description of one service can carry.
pub const MAX_SERVICE_EVENTS: usize = 10;

/// The number of bytes in the payload region of a frame.
pub const TUNNEL_PAYLOAD_SIZE: usize = 1500;

/// Lowest method id that denotes an event; the ids below are methods.
pub const EVENT_ID_BASE: u16 = 0x8000;

/// Kind of a tunnel frame.
#[derive(Clone, Copy, Debug, PartialEq, Eq, Structural)]
pub enum TunnelMsgType {
    OfferService,
    FindService,
    OfferServiceAck,
    FindServiceAck,
    Message,
    Event,
}

/// The number that stands for a frame kind on the wire.
pub open spec fn spec_msg_code(typ: TunnelMsgType) -> u8 {
    match typ {
        TunnelMsgType::OfferService => 0,
        TunnelMsgType::FindService => 1,
        TunnelMsgType::OfferServiceAck => 2,
        TunnelMsgType::FindServiceAck => 3,
        TunnelMsgType::Message => 4,
        TunnelMsgType::Event => 5,
    }
}

impl TunnelMsgType {
    /// The number that stands for this kind on the wire.
    pub fn code(&self) -> (r: u8)
        ensures
            r == spec_msg_code(*self),
    {
        match self {
            TunnelMsgType::OfferService => 0,
            TunnelMsgType::FindService => 1,
            TunnelMsgType::OfferServiceAck => 2,
            TunnelMsgType::FindServiceAck => 3,
            TunnelMsgType::Message => 4,
            TunnelMsgType::Event => 5,
        }
    }

    /// The kind that `code` stands for; none for an unknown number.
    pub fn from_code(code: u8) -> (r: Option<TunnelMsgType>)
        ensures
            code <= 5 <==> r is Some,
            r matches Some(typ) ==> spec_msg_code(typ) == code,
    {
        if code == 0 {
            Some(TunnelMsgType::OfferService)
        } else if code == 1 {
            Some(TunnelMsgType::FindService)
        } else if code == 2 {
            Some(TunnelMsgType::OfferServiceAck)
        } else if code == 3 {
            Some(TunnelMsgType::FindServiceAck)
        } else if code == 4 {
            Some(TunnelMsgType::Message)
        } else if code == 5 {
            Some(TunnelMsgType::Event)
        } else {
            None
        }
    }
}

/// One event in the description of a service on the tunnel.
#[derive(Clone, Copy, Debug)]
pub struct TunnelEventDesc {
    pub event_id: u16,
    pub event_groups: [u16; 4],
    pub len: u8,
    pub typ: EventType,
}

/// Mathematical model of a [`TunnelEventDesc`].
pub struct TunnelEventDescView {
    pub event_id: u16,
    pub event_groups: Seq<u16>,
    pub len: u8,
    pub typ: EventType,
}

impl View for TunnelEventDesc {
    type V = TunnelEventDescView;

    open spec fn view(&self) -> TunnelEventDescView {
        TunnelEventDescView {
            event_id: self.event_id,
            event_groups: self.event_groups@,
            len: self.len,
            typ: self.typ,
        }
    }
}

/// The entry that stands where no event is described: all zero, of type
/// `Event`.
pub open spec fn spec_blank_event() -> TunnelEventDescView {
    TunnelEventDescView { event_id: 0, event_groups: seq![0u16, 0u16, 0u16, 0u16], len: 0, typ: EventType::Event }
}

/// The entry that describes `event`: its id and type, and its one event
/// group in the first of the four places.
pub open spec fn spec_tunnel_event(event: SomeIPEventDesc) -> TunnelEventDescView {
    TunnelEventDescView {
        event_id: event.event_id,
        event_groups: seq![event.event_group_id, 0u16, 0u16, 0u16],
        len: 1,
        typ: event.typ,
    }
}

impl Default for TunnelEventDesc {
    fn default() -> (r: Self)
        ensures
            r@ == spec_blank_event(),
    {
        let r = TunnelEventDesc { event_id: 0, event_groups: [0u16; 4], len: 0, typ: EventType::Event };
        assert(r.event_groups@ =~= seq![0u16, 0u16, 0u16, 0u16]);
        r
    }
}

impl TunnelEventDesc {
    /// The entry that describes `event`.
    pub fn describe(event: &SomeIPEventDesc) -> (r: Self)
        ensures
            r@ == spec_tunnel_event(*event),
    {
        let mut groups: [u16; 4] = [0u16; 4];
        groups[0] = event.event_group_id;
        assert(groups@ =~= seq![event.event_group_id, 0u16, 0u16, 0u16]);
        TunnelEventDesc { event_id: event.event_id, event_groups: groups, len: 1, typ: event.typ }
    }
}

/// The events of a service as a frame carries them: ten entries of which
/// the first `len` are meaningful.
#[derive(Clone, Copy, Debug)]
pub struct ServiceDescEntry {
    pub event_infos: [TunnelEventDesc; 10],
    pub len: u8,
}

/// Mathematical model of a [`ServiceDescEntry`].
pub struct ServiceDescEntryView {
    pub event_infos: Seq<TunnelEventDescView>,
    pub len: u8,
}

impl View for ServiceDescEntry {
    type V = ServiceDescEntryView;

    open spec fn view(&self) -> ServiceDescEntryView {
        ServiceDescEntryView {
            event_infos: Seq::new(10, |i: int| self.event_infos@[i]@),
            len: self.len,
        }
    }
}

/// The description of the events `events`: an entry for each in its
/// order, and blank entries behind them.
pub open spec fn spec_service_desc_entry(events: Seq<SomeIPEventDesc>) -> ServiceDescEntryView
    recommends
        events.len() <= 10,
{
    ServiceDescEntryView {
        event_infos: Seq::new(
            10,
            |i: int|
                if i < events.len() {
                    spec_tunnel_event(events[i])
                } else {
                    spec_blank_event()
                },
        ),
        len: events.len() as u8,
    }
}

impl Default for ServiceDescEntry {
    fn default() -> (r: Self)
        ensures
            r@ == spec_service_desc_entry(Seq::empty()),
    {
        let blank = TunnelEventDesc::default();
        let r = ServiceDescEntry { event_infos: [blank; 10], len: 0 };
        assert(r@.event_infos =~= spec_service_desc_entry(Seq::empty()).event_infos);
        r
    }
}

impl ServiceDescEntry {
    /// The description of `events`; none where there are more than ten.
    pub fn describe(events: &[SomeIPEventDesc]) -> (r: Option<Self>)
        ensures
            r is Some <==> events@.len() <= 10,
            r matches Some(entry) ==> entry@ == spec_service_desc_entry(events@),
    {
        if events.len() > MAX_SERVICE_EVENTS {
            return None;
        }
        let blank = TunnelEventDesc::default();
        let mut infos: [TunnelEventDesc; 10] = [blank; 10];
        let mut cnt: usize = 0;
        while cnt < events.len()
            invariant
                cnt <= events@.len() <= 10,
                forall|i: int| 0 <= i < cnt ==> (#[trigger] infos@[i])@ == spec_tunnel_event(events@[i]),
                forall|i: int| cnt <= i < 10 ==> (#[trigger] infos@[i])@ == spec_blank_event(),
            decreases events@.len() - cnt,
        {
            infos[cnt] = TunnelEventDesc::describe(&events[cnt]);
            cnt = cnt + 1;
        }
        let r = ServiceDescEntry { event_infos: infos, len: cnt as u8 };
        assert(r@.event_infos =~= spec_service_desc_entry(events@).event_infos);
        Some(r)
    }
}

/// The number that ties a frame to its service: the service id in the
/// bits above the sixteen bits of the instance id.
pub open spec fn spec_correlation_id(service_id: u16, instance_id: u16) -> u64 {
    (service_id as u64 * 65536 + instance_id as u64) as u64
}

/// Computes the correlation id of a service.
pub fn correlation_id(service_id: u16, instance_id: u16) -> (r: u64)
    ensures
        r == spec_correlation_id(service_id, instance_id),
{
    let high: u64 = service_id as u64;
    let low: u64 = instance_id as u64;
    assert((high << 16) | low == high * 65536 + low) by (bit_vector)
        requires
            high < 65536,
            low < 65536,
    ;
    (high << 16) | low
}

/// Header of a tunnel frame.
#[derive(Clone, Copy, Debug)]
pub struct SomeipTunnelHeader {
    pub typ: TunnelMsgType,
    pub service_id: u16,
    pub instance_id: u16,
    /// For `Event` and `Message` frames the event id.
    pub method_id: u16,
    /// Meaningful only for `OfferService` and `FindService` frames.
    pub service_metadata: ServiceDescEntry,
    /// Meaningful only for the acknowledgements and for `Event` frames.
    pub is_active: bool,
    pub id: u64,
}

/// Mathematical model of a [`SomeipTunnelHeader`].
pub struct TunnelHeaderView {
    pub typ: TunnelMsgType,
    pub service_id: u16,
    pub instance_id: u16,
    pub method_id: u16,
    pub service_metadata: ServiceDescEntryView,
    pub is_active: bool,
    pub id: u64,
}

impl View for SomeipTunnelHeader {
    type V = TunnelHeaderView;

    open spec fn view(&self) -> TunnelHeaderView {
        TunnelHeaderView {
            typ: self.typ,
            service_id: self.service_id,
            instance_id: self.instance_id,
            method_id: self.method_id,
            service_metadata: self.service_metadata@,
            is_active: self.is_active,
            id: self.id,
        }
    }
}

/// Payload of a tunnel frame: a region of 1500 bytes of which the first
/// `length` are meaningful.
#[derive(Clone, Copy, Debug)]
pub struct SomeipTunnelPayload {
    pub length: u16,
    pub payload: [u8; 1500],
}

/// Mathematical model of a [`SomeipTunnelPayload`].
pub struct TunnelPayloadView {
    pub length: u16,
    pub payload: Seq<u8>,
}

impl View for SomeipTunnelPayload {
    type V = TunnelPayloadView;

    open spec fn view(&self) -> TunnelPayloadView {
        TunnelPayloadView { length: self.length, payload: self.payload@ }
    }
}

/// The payload region that holds `data` in front and zero bytes behind.
pub open spec fn spec_payload_of(data: Seq<u8>) -> TunnelPayloadView
    recommends
        data.len() <= 1500,
{
    TunnelPayloadView {
        length: data.len() as u16,
        payload: Seq::new(
            1500,
            |i: int|
                if i < data.len() {
                    data[i]
                } else {
                    0u8
                },
        ),
    }
}

/// The meaningful bytes of a payload region; none where `length` claims
/// more bytes than the region has.
pub open spec fn spec_payload_data(p: TunnelPayloadView) -> Option<Seq<u8>> {
    if p.length <= 1500 {
        Some(p.payload.subrange(0, p.length as int))
    } else {
        None
    }
}

/// What is cut out of a region that was filled from `data` is `data`.
pub proof fn lemma_payload_data_of(data: Seq<u8>)
    requires
        data.len() <= 1500,
    ensures
        spec_payload_data(spec_payload_of(data)) == Some(data),
{
    assert(spec_payload_of(data).payload.subrange(0, data.len() as int) =~= data);
}

impl SomeipTunnelPayload {
    /// The empty payload: length 0 and all bytes zero.
    pub fn empty() -> (r: Self)
        ensures
            r@ == spec_payload_of(Seq::empty()),
    {
        let r = SomeipTunnelPayload { length: 0, payload: [0u8; 1500] };
        assert(r@.payload =~= spec_payload_of(Seq::empty()).payload);
        r
    }

    /// The payload that holds `data`; none where `data` has more than 1500
    /// bytes.
    pub fn from_data(data: &[u8]) -> (r: Option<Self>)
        ensures
            r is Some <==> data@.len() <= 1500,
            r matches Some(p) ==> p@ == spec_payload_of(data@),
    {
        if data.len() > TUNNEL_PAYLOAD_SIZE {
            return None;
        }
        let mut payload: [u8; 1500] = [0u8; 1500];
        let mut i: usize = 0;
        while i < data.len()
            invariant
                i <= data@.len() <= 1500,
                forall|j: int| 0 <= j < i ==> payload@[j] == data@[j],
                forall|j: int| i <= j < 1500 ==> payload@[j] == 0u8,
            decreases data@.len() - i,
        {
            payload[i] = data[i];
            i = i + 1;
        }
        let r = SomeipTunnelPayload { length: data.len() as u16, payload };
        assert(r@.payload =~= spec_payload_of(data@).payload);
        Some(r)
    }

    /// The meaningful bytes: the first `length` bytes of the region. There
    /// are none where `length` claims more bytes than the region has.
    pub fn data(&self) -> (r: Option<&[u8]>)
        ensures
            r is Some <==> spec_payload_data(self@) is Some,
            r matches Some(d) ==> d@ == spec_payload_data(self@)->0,
    {
        if self.length as usize > TUNNEL_PAYLOAD_SIZE {
            return None;
        }
        Some(vstd::slice::slice_subrange(vstd::array::array_as_slice(&self.payload), 0, self.length as usize))
    }
}

/// A frame as it travels through the tunnel.
#[derive(Clone, Copy, Debug)]
pub struct TunnelFrame {
    pub header: SomeipTunnelHeader,
    pub payload: SomeipTunnelPayload,
}

/// Mathematical model of a [`TunnelFrame`].
pub struct TunnelFrameView {
    pub header: TunnelHeaderView,
    pub payload: TunnelPayloadView,
}

impl View for TunnelFrame {
    type V = TunnelFrameView;

    open spec fn view(&self) -> TunnelFrameView {
        TunnelFrameView { header: self.header@, payload: self.payload@ }
    }
}

/// The frame of kind `typ` that announces or requests the service
/// `service_id`/`instance_id` with the events `events`: no method, not
/// active, no payload.
pub open spec fn spec_service_frame(
    typ: TunnelMsgType,
    service_id: u16,
    instance_id: u16,
    events: Seq<SomeIPEventDesc>,
) -> TunnelFrameView {
    TunnelFrameView {
        header: TunnelHeaderView {
            typ,
            service_id,
            instance_id,
            method_id: 0,
            service_metadata: spec_service_desc_entry(events),
            is_active: false,
            id: spec_correlation_id(service_id, instance_id),
        },
        payload: spec_payload_of(Seq::empty()),
    }
}

/// The frame that notifies the event `event_id` of the service
/// `service_id`/`instance_id` with the payload `data`.
pub open spec fn spec_event_frame(service_id: u16, instance_id: u16, event_id: EventId, data: Seq<u8>) -> TunnelFrameView {
    TunnelFrameView {
        header: TunnelHeaderView {
            typ: TunnelMsgType::Event,
            service_id,
            instance_id,
            method_id: event_id,
            service_metadata: spec_service_desc_entry(Seq::empty()),
            is_active: true,
            id: spec_correlation_id(service_id, instance_id),
        },
        payload: spec_payload_of(data),
    }
}

/// Builds the frame of kind `typ` for the service `desc` with the events
/// `events`; none where there are more than ten events.
pub fn service_frame(typ: TunnelMsgType, desc: &ServiceDescription, events: &[SomeIPEventDesc]) -> (r: Option<
    TunnelFrame,
>)
    ensures
        r is Some <==> events@.len() <= 10,
        r matches Some(frame) ==> frame@ == spec_service_frame(
            typ,
            desc.service_id,
            desc.instance_id,
            events@,
        ),
{
    let event_desc = match ServiceDescEntry::describe(events) {
        Some(entry) => entry,
        None => {
            return None;
        },
    };
    let header = SomeipTunnelHeader {
        typ,
        service_id: desc.service_id,
        instance_id: desc.instance_id,
        method_id: 0,
        is_active: false,
        service_metadata: event_desc,
        id: correlation_id(desc.service_id, desc.instance_id),
    };
    Some(TunnelFrame { header, payload: SomeipTunnelPayload::empty() })
}

/// Builds the `FindService` frame that asks for the service `desc` with
/// the events `interests`; none where there are more than ten events.
pub fn find_service_frame(desc: &ServiceDescription, interests: &[SomeIPEventDesc]) -> (r: Option<TunnelFrame>)
    ensures
        r is Some <==> interests@.len() <= 10,
        r matches Some(frame) ==> frame@ == spec_service_frame(
            TunnelMsgType::FindService,
            desc.service_id,
            desc.instance_id,
            interests@,
        ),
{
    service_frame(TunnelMsgType::FindService, desc, interests)
}

/// Builds the `OfferService` frame that announces the service `desc` with
/// the events `events`; none where there are more than ten events.
pub fn offer_service_frame(desc: &ServiceDescription, events: &[SomeIPEventDesc]) -> (r: Option<TunnelFrame>)
    ensures
        r is Some <==> events@.len() <= 10,
        r matches Some(frame) ==> frame@ == spec_service_frame(
            TunnelMsgType::OfferService,
            desc.service_id,
            desc.instance_id,
            events@,
        ),
{
    service_frame(TunnelMsgType::OfferService, desc, events)
}

/// Builds the `Event` frame that carries what `writer` was filled with as
/// the event `event_id` of the service `desc`; none where more than 1500
/// bytes were filled.
pub fn event_frame(desc: &ServiceDescription, event_id: EventId, writer: &WriteBuf) -> (r: Option<TunnelFrame>)
    ensures
        r is Some <==> writer@.len() <= 1500,
        r matches Some(frame) ==> frame@ == spec_event_frame(
            desc.service_id,
            desc.instance_id,
            event_id,
            writer@,
        ),
{
    let payload = match SomeipTunnelPayload::from_data(writer.filled()) {
        Some(payload) => payload,
        None => {
            return None;
        },
    };
    let header = SomeipTunnelHeader {
        typ: TunnelMsgType::Event,
        service_id: desc.service_id,
        instance_id: desc.instance_id,
        method_id: event_id,
        is_active: true,
        service_metadata: ServiceDescEntry::default(),
        id: correlation_id(desc.service_id, desc.instance_id),
    };
    Some(TunnelFrame { header, payload })
}

/// What a received frame asks the gateway to do.
#[derive(Clone, Copy, Debug, PartialEq, Eq, Structural)]
pub enum DemuxAction {
    /// Tell the bridge of the service whether the service is available.
    ServiceStateChanged { service_id: u16, instance_id: u16, available: bool },
    /// Hand the payload to the bridge of the service as the event
    /// `event_id`.
    ReceiveEvent { service_id: u16, instance_id: u16, event_id: EventId },
    /// A method call: not processed.
    IgnoredMethod,
    /// A frame kind that the gateway does not expect to receive.
    Unsupported,
}

/// The reading of a received header: an acknowledged service search
/// carries the availability of the service, a message with a method id
/// from 0x8000 carries an event, a message below that is a method, and
/// nothing else is expected.
pub open spec fn spec_demux(header: TunnelHeaderView) -> DemuxAction {
    match header.typ {
        TunnelMsgType::FindServiceAck => DemuxAction::ServiceStateChanged {
            service_id: header.service_id,
            instance_id: header.instance_id,
            available: header.is_active,
        },
        TunnelMsgType::Message => if header.method_id >= 0x8000 {
            DemuxAction::ReceiveEvent {
                service_id: header.service_id,
                instance_id: header.instance_id,
                event_id: header.method_id,
            }
        } else {
            DemuxAction::IgnoredMethod
        },
        _ => DemuxAction::Unsupported,
    }
}

/// Reads a received header.
pub fn demux(header: &SomeipTunnelHeader) -> (r: DemuxAction)
    ensures
        r == spec_demux(header@),
{
    match header.typ {
        TunnelMsgType::FindServiceAck => DemuxAction::ServiceStateChanged {
            service_id: header.service_id,
            instance_id: header.instance_id,
            available: header.is_active,
        },
        TunnelMsgType::Message => {
            if header.method_id >= EVENT_ID_BASE {
                DemuxAction::ReceiveEvent {
                    service_id: header.service_id,
                    instance_id: header.instance_id,
                    event_id: header.method_id,
                }
            } else {
                DemuxAction::IgnoredMethod
            }
        },
        _ => DemuxAction::Unsupported,
    }
}

} // verus!
