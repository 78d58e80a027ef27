//! The envelope that carries a user value together with the gateway's
//! integrity verdict, and the guarded access to the value.

use vstd::prelude::*;

verus! {

/// The gateway's verdict on an ingress payload.
#[derive(Clone, Copy, Debug, PartialEq, Eq, Structural)]
pub enum E2EError {
    NoError,
    CrcError,
    SequenceError,
}

/// Wraps a user value `T` with what the gateway found out about its
/// integrity. The value is reached only through `checked` and
/// `checked_with`.
///
/// A value is present whenever the verdict is `NoError`, and an envelope
/// that was produced locally has the verdict `NoError`.
#[derive(Debug)]
pub struct E2EProtectedType<T> {
    data: Option<T>,
    raw_e2e: u32,
    gateway_check: E2EError,
    locally_produced: bool,
}

/// Mathematical model of an envelope.
pub struct EnvelopeView<T> {
    pub data: Option<T>,
    pub raw_e2e: u32,
    pub status: E2EError,
    pub locally_produced: bool,
}

/// What guarded access to an envelope yields, as a plain value.
pub enum Guarded<T> {
    /// The checks passed; the user value is handed out.
    Value(T),
    /// The application-level check rejected the raw integrity value.
    LocalError,
    /// The gateway had found a CRC failure.
    CrcError,
    /// The gateway had found a sequence failure; the raw integrity value
    /// and whatever data there is remain readable for diagnostics.
    SequenceError(u32, Option<T>),
}

/// The envelope of a locally produced value.
pub open spec fn spec_from_local<T>(data: T) -> EnvelopeView<T> {
    EnvelopeView { data: Some(data), raw_e2e: 0, status: E2EError::NoError, locally_produced: true }
}

/// The envelope of what the gateway received.
pub open spec fn spec_from_gateway<T>(data: Option<T>, raw_e2e: u32, status: E2EError) -> EnvelopeView<T> {
    EnvelopeView { data, raw_e2e, status, locally_produced: false }
}

/// Whether an envelope keeps what every envelope keeps: a value under the
/// verdict `NoError`, and the verdict `NoError` where produced locally.
pub open spec fn spec_envelope_wf<T>(e: EnvelopeView<T>) -> bool {
    &&& e.status == E2EError::NoError ==> e.data is Some
    &&& e.locally_produced ==> e.status == E2EError::NoError
}

/// Whether guarded access has to ask the application-level check: only for
/// what came through the gateway without a failure.
pub open spec fn spec_needs_local_check<T>(e: EnvelopeView<T>) -> bool {
    e.status == E2EError::NoError && !e.locally_produced
}

/// Guarded access to `e`, where `accepted` is the answer of the
/// application-level check to the raw integrity value.
pub open spec fn spec_guard<T>(e: EnvelopeView<T>, accepted: bool) -> Guarded<T>
    recommends
        spec_envelope_wf(e),
{
    match e.status {
        E2EError::NoError => if e.locally_produced || accepted {
            Guarded::Value(e.data->0)
        } else {
            Guarded::LocalError
        },
        E2EError::CrcError => Guarded::CrcError,
        E2EError::SequenceError => Guarded::SequenceError(e.raw_e2e, e.data),
    }
}

/// A locally produced value passes guarded access whatever the
/// application-level check would answer, and comes out unchanged.
pub proof fn lemma_local_value_passes_guard<T>(data: T, accepted: bool)
    ensures
        spec_envelope_wf(spec_from_local(data)),
        !spec_needs_local_check(spec_from_local(data)),
        spec_guard(spec_from_local(data), accepted) == Guarded::Value(data),
{
}

/// An application-side protection profile: the check that user code runs on
/// the raw integrity value that the gateway extracted.
pub trait E2EApplicationProfile: Sized {
    /// The one-byte identity of the profile.
    spec fn spec_profile_id() -> u8;

    /// Whether this instance accepts `raw_e2e`.
    spec fn spec_check(&self, raw_e2e: u32) -> bool;

    /// This instance after it has checked `raw_e2e`.
    spec fn spec_after_check(&self, raw_e2e: u32) -> Self;

    /// Checks the raw integrity value for errors.
    fn check(&mut self, raw_e2e: u32) -> (r: bool)
        ensures
            r == old(self).spec_check(raw_e2e),
            *final(self) == old(self).spec_after_check(raw_e2e),
    ;

    fn profile_id(&self) -> (r: u8)
        ensures
            r == Self::spec_profile_id(),
    ;
}

/// Connects a data type to its application-side profile, so that the choice
/// is made once for the whole code base.
pub trait E2ETypeConnector {
    type ConnectedE2EProfile: E2EApplicationProfile;
}

impl<T: E2ETypeConnector> E2ETypeConnector for E2EProtectedType<T> {
    type ConnectedE2EProfile = T::ConnectedE2EProfile;
}

impl<T> View for E2EProtectedType<T> {
    type V = EnvelopeView<T>;

    closed spec fn view(&self) -> EnvelopeView<T> {
        EnvelopeView {
            data: self.data,
            raw_e2e: self.raw_e2e,
            status: self.gateway_check,
            locally_produced: self.locally_produced,
        }
    }
}

/// The envelope whose model is `v`.
pub closed spec fn spec_envelope<T>(v: EnvelopeView<T>) -> E2EProtectedType<T> {
    E2EProtectedType {
        data: v.data,
        raw_e2e: v.raw_e2e,
        gateway_check: v.status,
        locally_produced: v.locally_produced,
    }
}

/// An envelope is determined by its model.
pub broadcast proof fn lemma_envelope_view<T>(v: EnvelopeView<T>)
    ensures
        #[trigger] spec_envelope(v)@ == v,
{
}

impl<T> E2EProtectedType<T> {
    #[verifier::type_invariant]
    spec fn inv(self) -> bool {
        spec_envelope_wf(self@)
    }

    /// The verdict that the gateway stored. Every envelope that exists at
    /// run time is well formed.
    pub fn gateway_check(&self) -> (r: E2EError)
        ensures
            r == self@.status,
            spec_envelope_wf(self@),
    {
        proof {
            use_type_invariant(self);
        }
        self.gateway_check
    }

    /// The raw integrity value that the gateway extracted.
    pub fn raw_e2e(&self) -> (r: u32)
        ensures
            r == self@.raw_e2e,
    {
        self.raw_e2e
    }

    /// Takes the envelope apart for the transport that carries it: the
    /// value if there is one, the raw integrity value, the verdict, and
    /// whether the envelope was produced locally.
    pub fn into_parts(self) -> (r: (Option<T>, u32, E2EError, bool))
        ensures
            r.0 == self@.data,
            r.1 == self@.raw_e2e,
            r.2 == self@.status,
            r.3 == self@.locally_produced,
            spec_envelope_wf(self@),
    {
        proof {
            use_type_invariant(&self);
        }
        (self.data, self.raw_e2e, self.gateway_check, self.locally_produced)
    }

    /// Whether the envelope was made by `from_local`.
    pub fn is_locally_produced(&self) -> (r: bool)
        ensures
            r == self@.locally_produced,
    {
        self.locally_produced
    }
}

impl<T: E2ETypeConnector> E2EProtectedType<T> {
    /// Wraps local data that is to be sent over the gateway.
    pub fn from_local(data: T) -> (r: Self)
        ensures
            r@ == spec_from_local(data),
            r == spec_envelope(spec_from_local(data)),
    {
        Self { data: Some(data), raw_e2e: 0, gateway_check: E2EError::NoError, locally_produced: true }
    }

    /// Wraps what was received through the gateway. A verdict of `NoError`
    /// comes with a value.
    pub fn from_gateway(data: Option<T>, raw_e2e: u32, gateway_check: E2EError) -> (r: Self)
        requires
            gateway_check == E2EError::NoError ==> data is Some,
        ensures
            r@ == spec_from_gateway(data, raw_e2e, gateway_check),
            r == spec_envelope(spec_from_gateway(data, raw_e2e, gateway_check)),
    {
        Self { data, raw_e2e, gateway_check, locally_produced: false }
    }

    /// Guarded access with the connected application profile. The profile
    /// is asked only about what came through the gateway without failure.
    pub fn checked(&self, e2e_instance: &mut T::ConnectedE2EProfile) -> (r: Result<
        E2ECheckedType<'_, T>,
        E2EErrorLocal<'_, T>,
    >)
        ensures
            guarded_view(r) == spec_guard(self@, old(e2e_instance).spec_check(self@.raw_e2e)),
            *final(e2e_instance) == if spec_needs_local_check(self@) {
                old(e2e_instance).spec_after_check(self@.raw_e2e)
            } else {
                *old(e2e_instance)
            },
    {
        proof {
            use_type_invariant(self);
        }
        match self.gateway_check {
            E2EError::NoError => {
                if self.locally_produced {
                    Ok(E2ECheckedType { data: self })
                } else if e2e_instance.check(self.raw_e2e) {
                    Ok(E2ECheckedType { data: self })
                } else {
                    Err(E2EErrorLocal::LocalError)
                }
            },
            E2EError::CrcError => Err(E2EErrorLocal::CrcError),
            E2EError::SequenceError => Err(
                E2EErrorLocal::SequenceError(self.raw_e2e, E2EUncheckedType { data: self }),
            ),
        }
    }

    /// Guarded access with a check given as a closure. The closure is
    /// called only for what came through the gateway without failure, with
    /// the raw integrity value.
    pub fn checked_with<F: FnOnce(u32) -> bool>(&self, checker: F) -> (r: Result<
        E2ECheckedType<'_, T>,
        E2EErrorLocal<'_, T>,
    >)
        requires
            spec_needs_local_check(self@) ==> call_requires(checker, (self@.raw_e2e,)),
        ensures
            !spec_needs_local_check(self@) ==> guarded_view(r) == spec_guard(self@, true),
            spec_needs_local_check(self@) ==> exists|accepted: bool|
                #[trigger] call_ensures(checker, (self@.raw_e2e,), accepted) && guarded_view(r)
                    == spec_guard(self@, accepted),
    {
        proof {
            use_type_invariant(self);
        }
        match self.gateway_check {
            E2EError::NoError => {
                if self.locally_produced {
                    Ok(E2ECheckedType { data: self })
                } else {
                    let accepted = checker(self.raw_e2e);
                    if accepted {
                        Ok(E2ECheckedType { data: self })
                    } else {
                        Err(E2EErrorLocal::LocalError)
                    }
                }
            },
            E2EError::CrcError => Err(E2EErrorLocal::CrcError),
            E2EError::SequenceError => Err(
                E2EErrorLocal::SequenceError(self.raw_e2e, E2EUncheckedType { data: self }),
            ),
        }
    }
}

/// Access to the user value of an envelope that passed the checks.
pub struct E2ECheckedType<'a, T> {
    data: &'a E2EProtectedType<T>,
}

impl<'a, T> E2ECheckedType<'a, T> {
    #[verifier::type_invariant]
    spec fn inv(self) -> bool {
        self.data@.data is Some
    }

    /// The user value that this accessor hands out.
    pub closed spec fn value(&self) -> T {
        self.data@.data->0
    }

    /// The envelope that this accessor reads.
    pub closed spec fn envelope(&self) -> EnvelopeView<T> {
        self.data@
    }

    /// The user value.
    pub fn get(&self) -> (r: &T)
        ensures
            *r == self.value(),
    {
        proof {
            use_type_invariant(self);
        }
        match &self.data.data {
            Some(v) => v,
            None => vstd::pervasive::unreached(),
        }
    }
}

impl<'a, T> core::ops::Deref for E2ECheckedType<'a, T> {
    type Target = T;

    fn deref(&self) -> (r: &T)
        ensures
            *r == self.value(),
    {
        self.get()
    }
}

/// Best-effort read access to an envelope whose check failed.
#[derive(Debug)]
pub struct E2EUncheckedType<'a, T> {
    data: &'a E2EProtectedType<T>,
}

impl<'a, T> E2EUncheckedType<'a, T> {
    /// The data that the envelope holds, if any.
    pub closed spec fn value(&self) -> Option<T> {
        self.data@.data
    }

    /// The data of the envelope for diagnostics, where there is any.
    pub fn peek(&self) -> (r: Option<&T>)
        ensures
            r is Some == self.value() is Some,
            r is Some ==> *r->0 == self.value()->0,
    {
        match &self.data.data {
            Some(v) => Some(v),
            None => None,
        }
    }
}

/// Failure of guarded access on the application side.
#[derive(Debug)]
pub enum E2EErrorLocal<'a, T> {
    /// The local, user-provided check failed.
    LocalError,
    /// The gateway detected a CRC error.
    CrcError,
    /// The gateway detected a sequence error; carries the raw integrity
    /// value and read access to the data.
    SequenceError(u32, E2EUncheckedType<'a, T>),
}

/// The result of guarded access as a plain value.
pub open spec fn guarded_view<'a, T>(r: Result<E2ECheckedType<'a, T>, E2EErrorLocal<'a, T>>) -> Guarded<T> {
    match r {
        Ok(checked) => Guarded::Value(checked.value()),
        Err(E2EErrorLocal::LocalError) => Guarded::LocalError,
        Err(E2EErrorLocal::CrcError) => Guarded::CrcError,
        Err(E2EErrorLocal::SequenceError(raw_e2e, unchecked)) => Guarded::SequenceError(
            raw_e2e,
            unchecked.value(),
        ),
    }
}

/// An application profile with identity 0 that accepts every value.
#[derive(Debug)]
pub struct E2ESomeUserProfile {}

impl E2EApplicationProfile for E2ESomeUserProfile {
    open spec fn spec_profile_id() -> u8 {
        0
    }

    open spec fn spec_check(&self, raw_e2e: u32) -> bool {
        true
    }

    open spec fn spec_after_check(&self, raw_e2e: u32) -> Self {
        *self
    }

    fn check(&mut self, raw_e2e: u32) -> (r: bool) {
        true
    }

    fn profile_id(&self) -> (r: u8) {
        0
    }
}

/// An application profile with identity 10 that accepts every value.
#[derive(Debug)]
pub struct E2ESomeUserProfile2 {}

impl E2EApplicationProfile for E2ESomeUserProfile2 {
    open spec fn spec_profile_id() -> u8 {
        10
    }

    open spec fn spec_check(&self, raw_e2e: u32) -> bool {
        true
    }

    open spec fn spec_after_check(&self, raw_e2e: u32) -> Self {
        *self
    }

    fn check(&mut self, raw_e2e: u32) -> (r: bool) {
        true
    }

    fn profile_id(&self) -> (r: u8) {
        10
    }
}

} // verus!
