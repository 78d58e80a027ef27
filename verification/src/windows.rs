//! The window interface: its producer and consumer records and their
//! event mapping.

use vstd::prelude::*;
use crate::codec::FromSomeIP;
use crate::egress::{spec_table_lookup, BridgedSubscription, EventInfo, EventTable};
use crate::egress::{LocalBridgeableSubscriptionTrait, SubscriberProxy, PROXY_SAMPLE_DEPTH};
use crate::interface::{CloseWindows, WindowsPosition};
use crate::mapping::{channel_name, same_text, spec_channel_name};
use crate::mapping::{Builder, EventMapping, OfferedProducer, Producer, Publisher, Subscriber};
use crate::mapping::{PublisherSomeIPMappingTrait, SomeIPMappingTrait};
use crate::profile::{E2EGatewayProfile, NoE2EProtection};
use crate::service::{InstanceSpecifier, TransportError};

verus! {

/// Marker of the window interface.
#[derive(Debug)]
pub struct WindowsInterface {}

/// Token of the event field `windows_position`.
pub const WINDOWS_POSITION_TOKEN: u64 = 0;

/// Token of the event field `close_windows`.
pub const CLOSE_WINDOWS_TOKEN: u64 = 1;

/// The token of the event field of the window interface named `name`.
pub open spec fn spec_windows_event_mapping(name: Seq<char>) -> Option<EventMapping> {
    if name == "windows_position"@ {
        Some(EventMapping::spec_new(0))
    } else if name == "close_windows"@ {
        Some(EventMapping::spec_new(1))
    } else {
        None
    }
}

/// Whether `mapping` names an event field of the window interface.
pub open spec fn spec_windows_is_mapped(mapping: EventMapping) -> bool {
    mapping.spec_token() == 0 || mapping.spec_token() == 1
}

/// Maps an event name of the window interface to its token.
pub fn windows_event_mapping(name: &str) -> (r: Option<EventMapping>)
    ensures
        r == spec_windows_event_mapping(name@),
{
    if same_text(name, "windows_position") {
        Some(EventMapping::new(WINDOWS_POSITION_TOKEN))
    } else if same_text(name, "close_windows") {
        Some(EventMapping::new(CLOSE_WINDOWS_TOKEN))
    } else {
        None
    }
}

/// No two event names of the window interface share a token.
pub proof fn lemma_windows_mapping_unique(first: Seq<char>, second: Seq<char>)
    requires
        spec_windows_event_mapping(first) is Some,
        spec_windows_event_mapping(first) == spec_windows_event_mapping(second),
    ensures
        first == second,
{
    broadcast use EventMapping::lemma_token_of_new;

    assert(EventMapping::spec_new(0).spec_token() != EventMapping::spec_new(1).spec_token());
}

/// The unoffered producer of the window interface.
#[derive(Debug)]
pub struct WindowsProducer {
    pub windows_position: Publisher<WindowsPosition>,
    pub close_windows: Publisher<CloseWindows>,
}

/// The offered producer of the window interface.
#[derive(Debug)]
pub struct WindowsOfferedProducer {
    pub windows_position: Publisher<WindowsPosition>,
    pub close_windows: Publisher<CloseWindows>,
}

/// The consumer of the window interface.
#[derive(Debug)]
pub struct WindowsConsumer {
    pub windows_position: Subscriber<WindowsPosition>,
    pub close_windows: Subscriber<CloseWindows>,
}

/// What a publisher of the window interface sends.
#[derive(Clone, Copy, Debug, PartialEq, Eq, Structural)]
pub enum WindowsSample {
    WindowsPosition(WindowsPosition),
    CloseWindows(CloseWindows),
}

impl Builder for WindowsProducer {
    /// The producer of a service instance has one channel per event, named by
    /// the instance and the event.
    open spec fn spec_built_for(&self, specifier: Seq<char>) -> bool {
        &&& self.windows_position@ == spec_channel_name(specifier, "windows_position"@)
        &&& self.close_windows@ == spec_channel_name(specifier, "close_windows"@)
    }

    fn build(specifier: &InstanceSpecifier) -> (r: Self) {
        WindowsProducer {
            windows_position: Publisher::new(channel_name(specifier.specifier.as_str(), "windows_position")),
            close_windows: Publisher::new(channel_name(specifier.specifier.as_str(), "close_windows")),
        }
    }
}

impl Builder for WindowsConsumer {
    /// The consumer of a service instance has one channel per event, named by
    /// the instance and the event.
    open spec fn spec_built_for(&self, specifier: Seq<char>) -> bool {
        &&& self.windows_position@ == spec_channel_name(specifier, "windows_position"@)
        &&& self.close_windows@ == spec_channel_name(specifier, "close_windows"@)
    }

    fn build(specifier: &InstanceSpecifier) -> (r: Self) {
        WindowsConsumer {
            windows_position: Subscriber::new(channel_name(specifier.specifier.as_str(), "windows_position")),
            close_windows: Subscriber::new(channel_name(specifier.specifier.as_str(), "close_windows")),
        }
    }
}

impl Producer for WindowsProducer {
    type OfferedProducer = WindowsOfferedProducer;

    /// Offering keeps the channels and never fails.
    open spec fn spec_offer(self) -> Result<WindowsOfferedProducer, TransportError> {
        Ok(
            WindowsOfferedProducer {
                windows_position: self.windows_position,
                close_windows: self.close_windows,
            },
        )
    }

    fn offer(self) -> (r: Result<WindowsOfferedProducer, TransportError>) {
        Ok(
            WindowsOfferedProducer {
                windows_position: self.windows_position,
                close_windows: self.close_windows,
            },
        )
    }
}

impl OfferedProducer for WindowsOfferedProducer {
    type Producer = WindowsProducer;

    /// Withdrawing keeps the channels.
    open spec fn spec_unoffer(self) -> WindowsProducer {
        WindowsProducer { windows_position: self.windows_position, close_windows: self.close_windows }
    }

    fn unoffer(self) -> (r: WindowsProducer) {
        WindowsProducer { windows_position: self.windows_position, close_windows: self.close_windows }
    }
}

impl SomeIPMappingTrait for WindowsOfferedProducer {
    type Profile = NoE2EProtection;

    open spec fn spec_event_mapping(name: Seq<char>) -> Option<EventMapping> {
        spec_windows_event_mapping(name)
    }

    open spec fn spec_is_mapped(mapping: EventMapping) -> bool {
        spec_windows_is_mapped(mapping)
    }

    open spec fn spec_e2e_instance(mapping: EventMapping) -> NoE2EProtection {
        NoE2EProtection::spec_new()
    }

    proof fn lemma_mapping_is_mapped(name: Seq<char>) {
        broadcast use EventMapping::lemma_token_of_new;

    }

    proof fn lemma_mapping_unique(first: Seq<char>, second: Seq<char>) {
        lemma_windows_mapping_unique(first, second);
    }

    fn get_event_mapping(name: &str) -> (r: Option<EventMapping>) {
        windows_event_mapping(name)
    }

    fn create_e2e_instance(mapping: EventMapping) -> (r: NoE2EProtection) {
        NoE2EProtection::new()
    }
}

impl SomeIPMappingTrait for WindowsConsumer {
    type Profile = NoE2EProtection;

    open spec fn spec_event_mapping(name: Seq<char>) -> Option<EventMapping> {
        spec_windows_event_mapping(name)
    }

    open spec fn spec_is_mapped(mapping: EventMapping) -> bool {
        spec_windows_is_mapped(mapping)
    }

    open spec fn spec_e2e_instance(mapping: EventMapping) -> NoE2EProtection {
        NoE2EProtection::spec_new()
    }

    proof fn lemma_mapping_is_mapped(name: Seq<char>) {
        broadcast use EventMapping::lemma_token_of_new;

    }

    proof fn lemma_mapping_unique(first: Seq<char>, second: Seq<char>) {
        lemma_windows_mapping_unique(first, second);
    }

    fn get_event_mapping(name: &str) -> (r: Option<EventMapping>) {
        windows_event_mapping(name)
    }

    fn create_e2e_instance(mapping: EventMapping) -> (r: NoE2EProtection) {
        NoE2EProtection::new()
    }
}

impl PublisherSomeIPMappingTrait for WindowsOfferedProducer {
    type Sample = WindowsSample;

    /// The field `windows_position` carries a window position, the field
    /// `close_windows` a close command; neither is protected.
    open spec fn spec_bridge_event(mapping: EventMapping, data: Seq<u8>, e2e: NoE2EProtection) -> Result<
        WindowsSample,
        (),
    > {
        if mapping.spec_token() == 0 {
            match WindowsPosition::spec_from_someip(data, Some(e2e)) {
                Ok(position) => Ok(WindowsSample::WindowsPosition(position)),
                Err(_) => Err(()),
            }
        } else {
            match CloseWindows::spec_from_someip(data, Some(e2e)) {
                Ok(command) => Ok(WindowsSample::CloseWindows(command)),
                Err(_) => Err(()),
            }
        }
    }

    open spec fn spec_bridge_profile(mapping: EventMapping, data: Seq<u8>, e2e: NoE2EProtection) -> NoE2EProtection {
        e2e
    }

    fn bridge_event(&self, mapping: EventMapping, data: &[u8], e2e: &mut NoE2EProtection) -> (r: Result<
        WindowsSample,
        (),
    >) {
        if mapping.token() == WINDOWS_POSITION_TOKEN {
            match WindowsPosition::from_someip(data, Some(e2e)) {
                Ok(position) => Ok(WindowsSample::WindowsPosition(position)),
                Err(_) => Err(()),
            }
        } else {
            match CloseWindows::from_someip(data, Some(e2e)) {
                Ok(command) => Ok(WindowsSample::CloseWindows(command)),
                Err(_) => Err(()),
            }
        }
    }
}

/// The forwarders of the window consumer. Only the close command travels
/// from the local side to SOME/IP.
pub struct WindowsProxies {
    pub close_windows: BridgedSubscription<CloseWindows>,
}

impl LocalBridgeableSubscriptionTrait for WindowsConsumer {
    type Proxies = WindowsProxies;

    /// The subscription of the close command is bridged with a proxy that
    /// takes one sample per receive; the event table has to hold the
    /// event field `close_windows`.
    open spec fn spec_bridge(self, events_info: Seq<EventInfo>) -> Option<WindowsProxies> {
        match spec_table_lookup(events_info, EventMapping::spec_new(1)) {
            Some(desc) => Some(
                WindowsProxies {
                    close_windows: BridgedSubscription {
                        subscriber: self.close_windows,
                        proxy: SubscriberProxy {
                            e2e_instance: NoE2EProtection::spec_new(),
                            samples: 1,
                            desc,
                        },
                    },
                },
            ),
            None => None,
        }
    }

    fn bridge(self, events_info: &EventTable) -> (r: Option<WindowsProxies>) {
        let close_windows_someip_desc = match events_info.get(EventMapping::new(CLOSE_WINDOWS_TOKEN)) {
            Some(desc) => desc,
            None => {
                return None;
            },
        };
        let close_windows_proxy = SubscriberProxy::new(PROXY_SAMPLE_DEPTH, close_windows_someip_desc);
        Some(
            WindowsProxies {
                close_windows: BridgedSubscription { subscriber: self.close_windows, proxy: close_windows_proxy },
            },
        )
    }
}

} // verus!
