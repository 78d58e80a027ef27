//! The rain interface: its producer and consumer records and their event
//! mapping.

use vstd::prelude::*;
use crate::codec::FromSomeIP;
use crate::egress::{spec_table_lookup, BridgedSubscription, EventInfo, EventTable};
use crate::egress::{LocalBridgeableSubscriptionTrait, SubscriberProxy, PROXY_SAMPLE_DEPTH};
use crate::e2e::E2EProtectedType;
use crate::interface::RainSensor;
use crate::mapping::{channel_name, same_text, spec_channel_name};
use crate::mapping::{Builder, EventMapping, OfferedProducer, Producer, Publisher, Subscriber};
use crate::mapping::{PublisherSomeIPMappingTrait, SomeIPMappingTrait};
use crate::profile::{E2EGatewayProfile, E2EShowcaseProfile};
use crate::service::{InstanceSpecifier, TransportError};

verus! {

/// Marker of the rain interface.
#[derive(Debug)]
pub struct RainInterface {}

/// Token of the event field `rain_sensor`.
pub const RAIN_SENSOR_TOKEN: u64 = 0;

/// The token of the event field of the rain interface named `name`.
pub open spec fn spec_rain_event_mapping(name: Seq<char>) -> Option<EventMapping> {
    if name == "rain_sensor"@ {
        Some(EventMapping::spec_new(0))
    } else {
        None
    }
}

/// Whether `mapping` names an event field of the rain interface.
pub open spec fn spec_rain_is_mapped(mapping: EventMapping) -> bool {
    mapping.spec_token() == 0
}

/// Maps an event name of the rain interface to its token.
pub fn rain_event_mapping(name: &str) -> (r: Option<EventMapping>)
    ensures
        r == spec_rain_event_mapping(name@),
{
    if same_text(name, "rain_sensor") {
        Some(EventMapping::new(RAIN_SENSOR_TOKEN))
    } else {
        None
    }
}

/// The unoffered producer of the rain interface.
#[derive(Debug)]
pub struct RainProducer {
    pub rain_sensor: Publisher<E2EProtectedType<RainSensor>>,
}

/// The offered producer of the rain interface.
#[derive(Debug)]
pub struct RainOfferedProducer {
    pub rain_sensor: Publisher<E2EProtectedType<RainSensor>>,
}

/// The consumer of the rain interface.
#[derive(Debug)]
pub struct RainConsumer {
    pub rain_sensor: Subscriber<E2EProtectedType<RainSensor>>,
}

/// What a publisher of the rain interface sends.
#[derive(Debug)]
pub enum RainSample {
    RainSensor(E2EProtectedType<RainSensor>),
}

impl Builder for RainProducer {
    /// The producer of a service instance has one channel per event, named by
    /// the instance and the event.
    open spec fn spec_built_for(&self, specifier: Seq<char>) -> bool {
        &&& self.rain_sensor@ == spec_channel_name(specifier, "rain_sensor"@)
    }

    fn build(specifier: &InstanceSpecifier) -> (r: Self) {
        RainProducer {
            rain_sensor: Publisher::new(channel_name(specifier.specifier.as_str(), "rain_sensor")),
        }
    }
}

impl Builder for RainConsumer {
    /// The consumer of a service instance has one channel per event, named by
    /// the instance and the event.
    open spec fn spec_built_for(&self, specifier: Seq<char>) -> bool {
        &&& self.rain_sensor@ == spec_channel_name(specifier, "rain_sensor"@)
    }

    fn build(specifier: &InstanceSpecifier) -> (r: Self) {
        RainConsumer {
            rain_sensor: Subscriber::new(channel_name(specifier.specifier.as_str(), "rain_sensor")),
        }
    }
}

impl Producer for RainProducer {
    type OfferedProducer = RainOfferedProducer;

    /// Offering keeps the channel and never fails.
    open spec fn spec_offer(self) -> Result<RainOfferedProducer, TransportError> {
        Ok(RainOfferedProducer { rain_sensor: self.rain_sensor })
    }

    fn offer(self) -> (r: Result<RainOfferedProducer, TransportError>) {
        Ok(RainOfferedProducer { rain_sensor: self.rain_sensor })
    }
}

impl OfferedProducer for RainOfferedProducer {
    type Producer = RainProducer;

    /// Withdrawing keeps the channel.
    open spec fn spec_unoffer(self) -> RainProducer {
        RainProducer { rain_sensor: self.rain_sensor }
    }

    fn unoffer(self) -> (r: RainProducer) {
        RainProducer { rain_sensor: self.rain_sensor }
    }
}

impl SomeIPMappingTrait for RainOfferedProducer {
    type Profile = E2EShowcaseProfile;

    open spec fn spec_event_mapping(name: Seq<char>) -> Option<EventMapping> {
        spec_rain_event_mapping(name)
    }

    open spec fn spec_is_mapped(mapping: EventMapping) -> bool {
        spec_rain_is_mapped(mapping)
    }

    open spec fn spec_e2e_instance(mapping: EventMapping) -> E2EShowcaseProfile {
        E2EShowcaseProfile::spec_new()
    }

    proof fn lemma_mapping_is_mapped(name: Seq<char>) {
        broadcast use EventMapping::lemma_token_of_new;

    }

    proof fn lemma_mapping_unique(first: Seq<char>, second: Seq<char>) {
    }

    fn get_event_mapping(name: &str) -> (r: Option<EventMapping>) {
        rain_event_mapping(name)
    }

    fn create_e2e_instance(mapping: EventMapping) -> (r: E2EShowcaseProfile) {
        E2EShowcaseProfile::new()
    }
}

impl SomeIPMappingTrait for RainConsumer {
    type Profile = E2EShowcaseProfile;

    open spec fn spec_event_mapping(name: Seq<char>) -> Option<EventMapping> {
        spec_rain_event_mapping(name)
    }

    open spec fn spec_is_mapped(mapping: EventMapping) -> bool {
        spec_rain_is_mapped(mapping)
    }

    open spec fn spec_e2e_instance(mapping: EventMapping) -> E2EShowcaseProfile {
        E2EShowcaseProfile::spec_new()
    }

    proof fn lemma_mapping_is_mapped(name: Seq<char>) {
        broadcast use EventMapping::lemma_token_of_new;

    }

    proof fn lemma_mapping_unique(first: Seq<char>, second: Seq<char>) {
    }

    fn get_event_mapping(name: &str) -> (r: Option<EventMapping>) {
        rain_event_mapping(name)
    }

    fn create_e2e_instance(mapping: EventMapping) -> (r: E2EShowcaseProfile) {
        E2EShowcaseProfile::new()
    }
}

impl PublisherSomeIPMappingTrait for RainOfferedProducer {
    type Sample = RainSample;

    /// The field `rain_sensor` carries a protected rain sensor reading.
    open spec fn spec_bridge_event(mapping: EventMapping, data: Seq<u8>, e2e: E2EShowcaseProfile) -> Result<
        RainSample,
        (),
    > {
        match E2EProtectedType::<RainSensor>::spec_from_someip(data, Some(e2e)) {
            Ok(reading) => Ok(RainSample::RainSensor(reading)),
            Err(_) => Err(()),
        }
    }

    open spec fn spec_bridge_profile(
        mapping: EventMapping,
        data: Seq<u8>,
        e2e: E2EShowcaseProfile,
    ) -> E2EShowcaseProfile {
        E2EProtectedType::<RainSensor>::spec_profile_after(data, e2e)
    }

    fn bridge_event(&self, mapping: EventMapping, data: &[u8], e2e: &mut E2EShowcaseProfile) -> (r: Result<
        RainSample,
        (),
    >) {
        match E2EProtectedType::<RainSensor>::from_someip(data, Some(e2e)) {
            Ok(reading) => Ok(RainSample::RainSensor(reading)),
            Err(_) => Err(()),
        }
    }
}

/// The forwarders of the rain consumer.
pub struct RainProxies {
    pub rain_sensor: BridgedSubscription<E2EProtectedType<RainSensor>>,
}

impl LocalBridgeableSubscriptionTrait for RainConsumer {
    type Proxies = RainProxies;

    /// The subscription of the rain sensor is bridged with a proxy that
    /// takes one sample per receive; the event table has to hold the
    /// event field `rain_sensor`.
    open spec fn spec_bridge(self, events_info: Seq<EventInfo>) -> Option<RainProxies> {
        match spec_table_lookup(events_info, EventMapping::spec_new(0)) {
            Some(desc) => Some(
                RainProxies {
                    rain_sensor: BridgedSubscription {
                        subscriber: self.rain_sensor,
                        proxy: SubscriberProxy {
                            e2e_instance: E2EShowcaseProfile::spec_new(),
                            samples: 1,
                            desc,
                        },
                    },
                },
            ),
            None => None,
        }
    }

    fn bridge(self, events_info: &EventTable) -> (r: Option<RainProxies>) {
        let rain_sensor_someip_desc = match events_info.get(EventMapping::new(RAIN_SENSOR_TOKEN)) {
            Some(desc) => desc,
            None => {
                return None;
            },
        };
        let rain_sensor_proxy = SubscriberProxy::new(PROXY_SAMPLE_DEPTH, rain_sensor_someip_desc);
        Some(
            RainProxies {
                rain_sensor: BridgedSubscription { subscriber: self.rain_sensor, proxy: rain_sensor_proxy },
            },
        )
    }
}

} // verus!
