//! Conversion between in-memory records and SOME/IP wire payloads, and the
//! adapter that adds end-to-end protection around the conversion of a type.

use vstd::prelude::*;
use crate::buffer::WriteBuf;
use crate::e2e::{E2EApplicationProfile, E2EError, E2EProtectedType, E2ETypeConnector};
use crate::e2e::{spec_envelope, spec_from_gateway, spec_from_local, spec_guard, Guarded};
use crate::profile::{E2EGatewayError, E2EGatewayProfile};
use crate::profile::{e2e_byte, spec_placeable, spec_protect, spec_protects};

verus! {

/// The profile behind an optional mutable reference, as a plain value.
pub open spec fn spec_profile_value<P>(e2e: Option<&mut P>) -> Option<P> {
    match e2e {
        Some(p) => Some(*p),
        None => None,
    }
}

/// Conversion from a SOME/IP payload to a record.
pub trait FromSomeIP: Sized + E2ETypeConnector {
    type E2EGatewayProfile: E2EGatewayProfile;

    /// The record that `data` stands for, given the profile instance that
    /// was handed over; an error where `data` stands for none.
    spec fn spec_from_someip(data: Seq<u8>, e2e: Option<Self::E2EGatewayProfile>) -> Result<Self, ()>;

    /// The profile instance after the conversion of `data`.
    spec fn spec_profile_after(data: Seq<u8>, e2e: Self::E2EGatewayProfile) -> Self::E2EGatewayProfile;

    /// The profile that the gateway applies to the type has the identity of
    /// the profile that the application connected to it.
    proof fn lemma_profile_id_agreement(e2e: Self::E2EGatewayProfile)
        ensures
            e2e.spec_profile_id() == <Self::ConnectedE2EProfile as E2EApplicationProfile>::spec_profile_id(),
    ;

    fn from_someip(data: &[u8], e2e: Option<&mut Self::E2EGatewayProfile>) -> (r: Result<Self, ()>)
        ensures
            r == Self::spec_from_someip(data@, spec_profile_value(e2e)),
            match e2e {
                Some(p) => *final(p) == Self::spec_profile_after(data@, *p),
                None => true,
            },
    ;
}

/// Conversion from a record to a SOME/IP payload.
pub trait ToSomeIP: Sized + E2ETypeConnector {
    type E2EGatewayProfile: E2EGatewayProfile;

    /// The wire payload of this record, given the profile instance that was
    /// handed over; `None` where the record has no wire payload.
    spec fn spec_to_someip(&self, e2e: Option<Self::E2EGatewayProfile>) -> Option<Seq<u8>>;

    /// The profile that the gateway applies to the type has the identity of
    /// the profile that the application connected to it.
    proof fn lemma_profile_id_agreement(e2e: Self::E2EGatewayProfile)
        ensures
            e2e.spec_profile_id() == <Self::ConnectedE2EProfile as E2EApplicationProfile>::spec_profile_id(),
    ;

    /// Appends the wire payload of this record to `output`. It fails, and
    /// leaves `output` as it was, where the record has no wire payload or
    /// the payload does not fit.
    fn to_someip(&self, output: &mut WriteBuf, e2e: Option<&mut Self::E2EGatewayProfile>) -> (r: Result<(), ()>)
        ensures
            final(output).spec_capacity() == old(output).spec_capacity(),
            r is Ok <==> (self.spec_to_someip(spec_profile_value(e2e)) matches Some(wire)
                && old(output)@.len() + wire.len() <= old(output).spec_capacity()),
            r is Ok ==> final(output)@ == old(output)@ + self.spec_to_someip(spec_profile_value(e2e))->0,
            r is Err ==> final(output)@ == old(output)@,
            match e2e {
                Some(p) => *final(p) == *p,
                None => true,
            },
    ;
}

/// What the protecting adapter reads from `data` with the profile `p`: the
/// profile checks first; data that passed is converted and wrapped with the
/// verdict `NoError`; a CRC or sequence failure is wrapped without a value.
pub open spec fn spec_protected_from_someip<T: FromSomeIP>(data: Seq<u8>, p: T::E2EGatewayProfile) -> Result<
    E2EProtectedType<T>,
    (),
> {
    match p.spec_check(data) {
        Ok((naked, raw_e2e)) => match T::spec_from_someip(naked, None) {
            Ok(value) => Ok(spec_envelope(spec_from_gateway(Some(value), raw_e2e, E2EError::NoError))),
            Err(_) => Err(()),
        },
        Err((E2EGatewayError::CrcError, raw_e2e)) => Ok(
            spec_envelope(spec_from_gateway(None, raw_e2e, E2EError::CrcError)),
        ),
        Err((E2EGatewayError::SequenceError, raw_e2e)) => Ok(
            spec_envelope(spec_from_gateway(None, raw_e2e, E2EError::SequenceError)),
        ),
    }
}

/// An envelope is read from a protected payload: the profile's check runs
/// before the conversion of the inner type. Without a profile nothing is
/// read.
impl<T: FromSomeIP> FromSomeIP for E2EProtectedType<T> {
    type E2EGatewayProfile = T::E2EGatewayProfile;

    open spec fn spec_from_someip(data: Seq<u8>, e2e: Option<T::E2EGatewayProfile>) -> Result<Self, ()> {
        match e2e {
            Some(p) => spec_protected_from_someip::<T>(data, p),
            None => Err(()),
        }
    }

    open spec fn spec_profile_after(data: Seq<u8>, e2e: T::E2EGatewayProfile) -> T::E2EGatewayProfile {
        e2e.spec_after_check(data)
    }

    proof fn lemma_profile_id_agreement(e2e: T::E2EGatewayProfile) {
        T::lemma_profile_id_agreement(e2e);
    }

    fn from_someip(data: &[u8], e2e: Option<&mut T::E2EGatewayProfile>) -> (r: Result<Self, ()>) {
        let checker = match e2e {
            Some(p) => p,
            None => {
                return Err(());
            },
        };
        match checker.check(data) {
            Ok((naked, raw_e2e)) => match T::from_someip(naked, None) {
                Ok(value) => Ok(E2EProtectedType::from_gateway(Some(value), raw_e2e, E2EError::NoError)),
                Err(_) => Err(()),
            },
            Err((E2EGatewayError::CrcError, raw_e2e)) => Ok(
                E2EProtectedType::from_gateway(None, raw_e2e, E2EError::CrcError),
            ),
            Err((E2EGatewayError::SequenceError, raw_e2e)) => Ok(
                E2EProtectedType::from_gateway(None, raw_e2e, E2EError::SequenceError),
            ),
        }
    }
}

/// The wire payload of the envelope `e` under the profile `p`: the wire
/// payload of its value with the integrity bytes placed by `p`. There is
/// none where the envelope does not give out its value, where the value
/// has no wire payload, or where `p` cannot place its bytes.
pub open spec fn spec_protected_to_someip<T: ToSomeIP>(e: E2EProtectedType<T>, p: T::E2EGatewayProfile) -> Option<
    Seq<u8>,
> {
    match spec_guard(e@, true) {
        Guarded::Value(value) => match value.spec_to_someip(None) {
            Some(data) => if spec_placeable(p, data) {
                Some(spec_protect(p, data))
            } else {
                None
            },
            None => None,
        },
        _ => None,
    }
}

/// An envelope is written as a protected payload: room for integrity
/// bytes in front is kept free before the value is written, the integrity
/// value is computed over the bytes of the value, and its bytes are put in
/// their place. Without a profile nothing is written.
impl<T: ToSomeIP> ToSomeIP for E2EProtectedType<T> {
    type E2EGatewayProfile = T::E2EGatewayProfile;

    open spec fn spec_to_someip(&self, e2e: Option<T::E2EGatewayProfile>) -> Option<Seq<u8>> {
        match e2e {
            Some(p) => spec_protected_to_someip::<T>(*self, p),
            None => None,
        }
    }

    proof fn lemma_profile_id_agreement(e2e: T::E2EGatewayProfile) {
        T::lemma_profile_id_agreement(e2e);
    }

    fn to_someip(&self, output: &mut WriteBuf, e2e: Option<&mut T::E2EGatewayProfile>) -> (r: Result<(), ()>) {
        let e2e_instance = match e2e {
            Some(p) => p,
            None => {
                return Err(());
            },
        };
        let offset: u32 = e2e_instance.e2e_offset();
        let size: usize = e2e_instance.e2e_size() as usize;
        let base: usize = output.filled_len();

        // What was produced locally needs no check.
        let accept_all = |raw_e2e: u32| -> (accepted: bool)
            ensures
                accepted,
            { true };
        let data = match self.checked_with(accept_all) {
            Ok(data) => data,
            Err(_) => {
                return Err(());
            },
        };

        // Keep room for integrity bytes that stand in front of the data.
        let mut filling_offset: usize = 0;
        if offset == 0 {
            if output.advance_filled(size).is_err() {
                return Err(());
            }
            filling_offset = size;
        }
        let ghost reserved = output@;

        // Serialise the data part.
        if data.get().to_someip(output, None).is_err() {
            output.truncate(base);
            assert(reserved.subrange(0, base as int) =~= old(output)@);
            return Err(());
        }
        let ghost wire_data = data.value().spec_to_someip(None)->0;
        let end: usize = output.filled_len();
        let data_start: usize = base + filling_offset;
        let data_len: usize = end - data_start;
        assert(output@.subrange(data_start as int, end as int) =~= wire_data);

        let computed = e2e_instance.calculate_e2e(
            vstd::slice::slice_subrange(output.filled(), data_start, end),
        );
        match computed {
            None => {
                proof {
                    if offset != 0 {
                        assert(output@ =~= old(output)@ + wire_data);
                    }
                }
                Ok(())
            },
            Some(e2e_value) => {
                if offset == 0 {
                    let mut i: usize = 0;
                    while i < size
                        invariant
                            i <= size <= 4,
                            base == old(output)@.len(),
                            end == output@.len(),
                            base + size <= end,
                            output.spec_capacity() == old(output).spec_capacity(),
                            output@ == old(output)@ + Seq::new(
                                size as nat,
                                |j: int|
                                    if j < i {
                                        crate::profile::spec_e2e_byte(e2e_value, j)
                                    } else {
                                        0u8
                                    },
                            ) + wire_data,
                        decreases size - i,
                    {
                        let _ = output.set_byte(base + i, e2e_byte(e2e_value, i));
                        assert(output@ =~= old(output)@ + Seq::new(
                            size as nat,
                            |j: int|
                                if j < i + 1 {
                                    crate::profile::spec_e2e_byte(e2e_value, j)
                                } else {
                                    0u8
                                },
                        ) + wire_data);
                        i = i + 1;
                    }
                    assert(output@ =~= old(output)@ + spec_protect(*e2e_instance, wire_data));
                    Ok(())
                } else {
                    if offset as usize > data_len {
                        output.truncate(base);
                        assert(output@ =~= old(output)@);
                        return Err(());
                    }
                    if size > output.remaining() {
                        output.truncate(base);
                        assert(output@ =~= old(output)@);
                        return Err(());
                    }
                    let at: usize = base + offset as usize;
                    let capacity: usize = output.capacity();
                    let mut i: usize = 0;
                    while i < size
                        invariant
                            i <= size <= 4,
                            at == base + offset,
                            capacity == output.spec_capacity(),
                            offset <= wire_data.len(),
                            base == old(output)@.len(),
                            output.spec_capacity() == old(output).spec_capacity(),
                            old(output)@.len() + wire_data.len() + size <= output.spec_capacity(),
                            output@ == old(output)@ + wire_data.subrange(0, offset as int)
                                + crate::profile::spec_e2e_bytes(e2e_value, i as int)
                                + wire_data.subrange(offset as int, wire_data.len() as int),
                        decreases size - i,
                    {
                        let _ = output.insert_byte(at + i, e2e_byte(e2e_value, i));
                        assert(output@ =~= old(output)@ + wire_data.subrange(0, offset as int)
                            + crate::profile::spec_e2e_bytes(e2e_value, i + 1)
                            + wire_data.subrange(offset as int, wire_data.len() as int));
                        i = i + 1;
                    }
                    assert(output@ =~= old(output)@ + spec_protect(*e2e_instance, wire_data));
                    Ok(())
                }
            },
        }
    }
}

/// A type that travels in both directions and whose reading undoes its
/// writing. The gateway applies one profile to both directions.
pub trait SomeIPCodec: FromSomeIP + ToSomeIP<E2EGatewayProfile = <Self as FromSomeIP>::E2EGatewayProfile> {
    /// The wire payload of a record is read back as that record.
    proof fn lemma_from_undoes_to(&self)
        ensures
            self.spec_to_someip(None) matches Some(wire) ==> Self::spec_from_someip(wire, None) == Ok::<
                Self,
                (),
            >(*self),
    ;
}

/// Reading a protected payload undoes writing it. A locally produced
/// `value`, written under the profile `p`, is read back under `p` as an
/// envelope with the verdict `NoError` that holds `value` and the
/// integrity value that `p` computed; guarded access to it gives `value`
/// once the application accepts.
pub proof fn lemma_protected_roundtrip<T: SomeIPCodec>(value: T, p: <T as FromSomeIP>::E2EGatewayProfile)
    requires
        value.spec_to_someip(None) is Some,
        spec_protects(p, value.spec_to_someip(None)->0),
    ensures
        spec_protected_to_someip::<T>(spec_envelope(spec_from_local(value)), p) is Some,
        ({
            let wire = spec_protected_to_someip::<T>(spec_envelope(spec_from_local(value)), p)->0;
            let read = spec_protected_from_someip::<T>(wire, p);
            &&& read is Ok
            &&& read->Ok_0@.data == Some(value)
            &&& read->Ok_0@.status == E2EError::NoError
            &&& !read->Ok_0@.locally_produced
            &&& p.spec_calculate_e2e(value.spec_to_someip(None)->0) matches Some(e2e) ==> read->Ok_0@.raw_e2e
                == e2e
            &&& spec_guard(read->Ok_0@, true) == Guarded::Value(value)
        }),
{
    broadcast use crate::e2e::lemma_envelope_view;

    let data = value.spec_to_someip(None)->0;
    let local = spec_envelope(spec_from_local(value));
    assert(spec_guard(local@, true) == Guarded::Value(value));
    let wire = spec_protect(p, data);
    assert(spec_protected_to_someip::<T>(local, p) == Some(wire));
    value.lemma_from_undoes_to();
    p.lemma_check_accepts_protected(data);
}

} // verus!
