//! Service description model: the identity of a logical service on both
//! sides of the gateway and of the events it carries.

use vstd::prelude::*;

verus! {

/// Identifier of an event on the SOME/IP side.
pub type EventId = u16;

/// Textual identifier of a local service instance.
#[derive(Debug)]
pub struct InstanceSpecifier {
    pub specifier: String,
}

impl InstanceSpecifier {
    /// An identifier made from the given text.
    pub fn new(specifier: &str) -> (r: Self)
        ensures
            r.specifier@ == specifier@,
    {
        InstanceSpecifier { specifier: specifier.to_owned() }
    }

    /// A copy with the same text.
    pub fn duplicate(&self) -> (r: Self)
        ensures
            r.specifier@ == self.specifier@,
    {
        InstanceSpecifier { specifier: self.specifier.clone() }
    }
}

/// Stable identity of a logical service: `service_id` and `instance_id`
/// name the SOME/IP endpoint, `specifier` names the local endpoint.
#[derive(Debug)]
pub struct ServiceDescription {
    pub service_id: u16,
    pub instance_id: u16,
    pub specifier: InstanceSpecifier,
}

/// Mathematical model of a [`ServiceDescription`].
pub struct ServiceDescriptionView {
    pub service_id: u16,
    pub instance_id: u16,
    pub specifier: Seq<char>,
}

impl View for ServiceDescription {
    type V = ServiceDescriptionView;

    open spec fn view(&self) -> ServiceDescriptionView {
        ServiceDescriptionView {
            service_id: self.service_id,
            instance_id: self.instance_id,
            specifier: self.specifier.specifier@,
        }
    }
}

impl ServiceDescription {
    /// A description of the service `service_id`/`instance_id` that is
    /// found locally under `specifier`.
    pub fn new(service_id: u16, instance_id: u16, specifier: &str) -> (r: Self)
        ensures
            r@ == (ServiceDescriptionView { service_id, instance_id, specifier: specifier@ }),
    {
        ServiceDescription { service_id, instance_id, specifier: InstanceSpecifier::new(specifier) }
    }

    /// A copy that describes the same service.
    pub fn duplicate(&self) -> (r: Self)
        ensures
            r@ == self@,
    {
        ServiceDescription {
            service_id: self.service_id,
            instance_id: self.instance_id,
            specifier: self.specifier.duplicate(),
        }
    }
}

/// A field latches its last value for late subscribers, an event does not.
#[derive(Clone, Copy, Debug, PartialEq, Eq, Hash, Structural)]
pub enum EventType {
    Field,
    Event,
}

/// SOME/IP-side identity of one event.
#[derive(Clone, Copy, Debug, PartialEq, Eq, Hash, Structural)]
pub struct SomeIPEventDesc {
    pub event_id: EventId,
    pub event_group_id: u16,
    pub typ: EventType,
}

/// What a local-to-remote bridge announces on the tunnel once it can serve.
#[derive(Debug)]
pub struct OfferedServiceDesc {
    pub events: Vec<SomeIPEventDesc>,
}

/// Failure of the local transport, as the bridges see it.
#[derive(Clone, Copy, Debug, PartialEq, Eq, Structural)]
pub enum TransportError {
    /// Nothing arrived within the polling budget; the caller retries.
    Timeout,
    /// Any other failure; it is not retried.
    Fail,
}

/// Marker of the side of a local-to-remote bridge that the SOME/IP adapter
/// may call back. It carries no operation yet.
pub trait SomeIPProducerHostHalf {
}

} // verus!
