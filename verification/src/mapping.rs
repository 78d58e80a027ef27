//! The event mapping registry: for each record that aggregates the
//! publishers or subscribers of an interface, the tokens that identify its
//! event fields, the protection profile of each, and the conversion of an
//! incoming payload for the field that a token names.

use vstd::prelude::*;
use crate::profile::E2EGatewayProfile;
use crate::service::{InstanceSpecifier, TransportError};

verus! {

/// Token that identifies one event field of a record. It is stable within
/// a run of the process and is not meant to be stored.
#[derive(Debug, Clone, Copy, PartialEq, Eq, Hash, Structural)]
pub struct EventMapping {
    mapping: u64,
}

impl EventMapping {
    /// The number that this token wraps.
    pub closed spec fn spec_token(&self) -> u64 {
        self.mapping
    }

    /// The token that wraps `token`.
    pub closed spec fn spec_new(token: u64) -> EventMapping {
        EventMapping { mapping: token }
    }

    /// The token that wraps `token`.
    pub fn new(token: u64) -> (r: Self)
        ensures
            r == Self::spec_new(token),
            r.spec_token() == token,
    {
        EventMapping { mapping: token }
    }

    /// The number that this token wraps.
    pub fn token(&self) -> (r: u64)
        ensures
            r == self.spec_token(),
    {
        self.mapping
    }

    /// Tokens are equal exactly when the numbers they wrap are.
    pub proof fn lemma_token_determines(a: EventMapping, b: EventMapping)
        ensures
            a == b <==> a.spec_token() == b.spec_token(),
    {
    }

    /// A token wraps the number it was made from.
    pub broadcast proof fn lemma_token_of_new(token: u64)
        ensures
            #[trigger] Self::spec_new(token).spec_token() == token,
    {
    }
}

/// std's `String::push_str` appends the characters of `other` to `s`.
pub assume_specification[ String::push_str ](s: &mut String, other: &str)
    ensures
        final(s)@ == old(s)@ + other@,
;

/// The separator between a service instance and an event in the name of
/// a local channel.
pub open spec fn spec_channel_separator() -> Seq<char> {
    "/"@
}

/// The name of the local channel of the event `event` of the service
/// instance `specifier`.
pub open spec fn spec_channel_name(specifier: Seq<char>, event: Seq<char>) -> Seq<char> {
    specifier + spec_channel_separator() + event
}

/// Builds the name of the local channel of an event of a service instance.
pub fn channel_name(specifier: &str, event: &str) -> (r: String)
    ensures
        r@ == spec_channel_name(specifier@, event@),
{
    let mut name = specifier.to_owned();
    name.push_str("/");
    name.push_str(event);
    name
}

/// Whether two strings hold the same text.
pub fn same_text(a: &str, b: &str) -> (r: bool)
    ensures
        r == (a@ == b@),
{
    let left = a.to_owned();
    let right = b.to_owned();
    left == right
}

/// Dispatch data of a record that aggregates the event fields of an
/// interface. It holds no state.
pub trait SomeIPMappingTrait {
    /// The profile instances that the events of the record use.
    type Profile: E2EGatewayProfile;

    /// The token of the event field named `name`, if the record has one.
    spec fn spec_event_mapping(name: Seq<char>) -> Option<EventMapping>;

    /// Whether `mapping` is the token of an event field of the record.
    spec fn spec_is_mapped(mapping: EventMapping) -> bool;

    /// The profile instance that is created for the event field `mapping`.
    spec fn spec_e2e_instance(mapping: EventMapping) -> Self::Profile;

    /// What a name maps to is the token of an event field.
    proof fn lemma_mapping_is_mapped(name: Seq<char>)
        requires
            Self::spec_event_mapping(name) is Some,
        ensures
            Self::spec_is_mapped(Self::spec_event_mapping(name)->0),
    ;

    /// No two event names share a token: two names that map to the same
    /// token are the same name.
    proof fn lemma_mapping_unique(first: Seq<char>, second: Seq<char>)
        requires
            Self::spec_event_mapping(first) is Some,
            Self::spec_event_mapping(first) == Self::spec_event_mapping(second),
        ensures
            first == second,
    ;

    /// Maps an event name to its token. The token can be fetched at start
    /// and used for every later dispatch.
    fn get_event_mapping(name: &str) -> (r: Option<EventMapping>)
        ensures
            r == Self::spec_event_mapping(name@),
    ;

    /// Creates the profile instance for the event field `mapping`.
    fn create_e2e_instance(mapping: EventMapping) -> (r: Self::Profile)
        requires
            Self::spec_is_mapped(mapping),
        ensures
            r == Self::spec_e2e_instance(mapping),
    ;
}

/// A record of publishers that can convert an incoming payload for any of
/// its event fields.
pub trait PublisherSomeIPMappingTrait: SomeIPMappingTrait {
    /// What the publishers of the record carry: one case per event field.
    type Sample;

    /// The sample that the payload `data` stands for, for the event field
    /// `mapping` with its profile instance `e2e`.
    spec fn spec_bridge_event(mapping: EventMapping, data: Seq<u8>, e2e: Self::Profile) -> Result<
        Self::Sample,
        (),
    >;

    /// The profile instance after the conversion.
    spec fn spec_bridge_profile(mapping: EventMapping, data: Seq<u8>, e2e: Self::Profile) -> Self::Profile;

    /// Converts the payload `data` for the event field `mapping`. The
    /// sample that comes back is what the publisher of that field sends.
    fn bridge_event(&self, mapping: EventMapping, data: &[u8], e2e: &mut Self::Profile) -> (r: Result<
        Self::Sample,
        (),
    >)
        requires
            Self::spec_is_mapped(mapping),
        ensures
            r == Self::spec_bridge_event(mapping, data@, *old(e2e)),
            *final(e2e) == Self::spec_bridge_profile(mapping, data@, *old(e2e)),
    ;
}

/// A record of channel ends that is built for a service instance.
pub trait Builder: Sized {
    /// Whether this record is the one that is built for the service
    /// instance `specifier`.
    spec fn spec_built_for(&self, specifier: Seq<char>) -> bool;

    /// Builds the record for the service instance `specifier`.
    fn build(specifier: &InstanceSpecifier) -> (r: Self)
        ensures
            r.spec_built_for(specifier.specifier@),
    ;
}

/// A local producer that is not yet visible to consumers.
pub trait Producer: Sized {
    type OfferedProducer: OfferedProducer<Producer = Self>;

    /// What offering this producer yields.
    spec fn spec_offer(self) -> Result<Self::OfferedProducer, TransportError>;

    /// Makes the producer visible to consumers.
    fn offer(self) -> (r: Result<Self::OfferedProducer, TransportError>)
        ensures
            r == self.spec_offer(),
    ;
}

/// A local producer that consumers can find.
pub trait OfferedProducer: Sized {
    type Producer;

    /// What withdrawing this producer yields.
    spec fn spec_unoffer(self) -> Self::Producer;

    /// Withdraws the producer from the view of consumers.
    fn unoffer(self) -> (r: Self::Producer)
        ensures
            r == self.spec_unoffer(),
    ;
}

/// The publishing end of one local channel, for samples of type `T`.
#[derive(Debug)]
pub struct Publisher<T> {
    channel: String,
    marker: core::marker::PhantomData<T>,
}

/// The model of a channel end is the name of its channel.
impl<T> View for Publisher<T> {
    type V = Seq<char>;

    closed spec fn view(&self) -> Seq<char> {
        self.channel@
    }
}

impl<T> Publisher<T> {
    /// The publishing end of the channel named `channel`.
    pub fn new(channel: String) -> (r: Self)
        ensures
            r@ == channel@,
    {
        Publisher { channel, marker: core::marker::PhantomData }
    }

    /// The name of the channel.
    pub fn channel(&self) -> (r: &str)
        ensures
            r@ == self@,
    {
        self.channel.as_str()
    }
}

/// The subscribing end of one local channel, for samples of type `T`.
#[derive(Debug)]
pub struct Subscriber<T> {
    channel: String,
    marker: core::marker::PhantomData<T>,
}

/// The model of a channel end is the name of its channel.
impl<T> View for Subscriber<T> {
    type V = Seq<char>;

    closed spec fn view(&self) -> Seq<char> {
        self.channel@
    }
}

impl<T> Subscriber<T> {
    /// The subscribing end of the channel named `channel`.
    pub fn new(channel: String) -> (r: Self)
        ensures
            r@ == channel@,
    {
        Subscriber { channel, marker: core::marker::PhantomData }
    }

    /// The name of the channel.
    pub fn channel(&self) -> (r: &str)
        ensures
            r@ == self@,
    {
        self.channel.as_str()
    }
}

} // verus!
