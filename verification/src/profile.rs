//! End-to-end protection profiles as the gateway applies them to wire
//! payloads: the integrity check on ingress and the integrity value on
//! egress, with the place of the integrity bytes inside the payload.

use vstd::prelude::*;

verus! {

/// Verdict of a profile on a wire payload that it does not accept.
#[derive(Clone, Copy, Debug, PartialEq, Eq, Structural)]
pub enum E2EGatewayError {
    CrcError,
    SequenceError,
}

/// What a check yields, in contracts: the naked data and the raw
/// integrity value, or the verdict and the raw integrity value.
pub type CheckOutcome = Result<(Seq<u8>, u32), (E2EGatewayError, u32)>;

/// The outcome of an executable check, with the data slice as a sequence.
pub open spec fn check_outcome_view(r: Result<(&[u8], u32), (E2EGatewayError, u32)>) -> CheckOutcome {
    match r {
        Ok((data, raw_e2e)) => Ok((data@, raw_e2e)),
        Err(e) => Err(e),
    }
}

/// Byte `i` of an integrity value in little-endian order.
pub open spec fn spec_e2e_byte(e2e: u32, i: int) -> u8 {
    if i == 0 {
        (e2e & 0xff) as u8
    } else if i == 1 {
        ((e2e >> 8) & 0xff) as u8
    } else if i == 2 {
        ((e2e >> 16) & 0xff) as u8
    } else if i == 3 {
        ((e2e >> 24) & 0xff) as u8
    } else {
        0
    }
}

/// The `size` integrity bytes of `e2e` as they stand on the wire: the value
/// in little-endian order, cut or zero-extended to `size` bytes.
pub open spec fn spec_e2e_bytes(e2e: u32, size: int) -> Seq<u8> {
    Seq::new(size as nat, |i: int| spec_e2e_byte(e2e, i))
}

/// The integrity bytes that stand for "no value": `size` zero bytes.
pub open spec fn spec_e2e_blank(size: int) -> Seq<u8> {
    Seq::new(size as nat, |i: int| 0u8)
}

/// The wire payload that carries `data` with integrity bytes `e2e_bytes`
/// at `offset`: in front of the data when `offset` is 0, else after the
/// first `offset` data bytes.
pub open spec fn spec_embed(data: Seq<u8>, offset: int, e2e_bytes: Seq<u8>) -> Seq<u8>
    recommends
        0 <= offset <= data.len(),
{
    data.subrange(0, offset) + e2e_bytes + data.subrange(offset, data.len() as int)
}

/// Whether integrity bytes can be placed at `offset` into the payload of
/// `data`: where there is a value to place, the offset lies within the
/// data.
pub open spec fn spec_placeable_at(data: Seq<u8>, e2e: Option<u32>, offset: int) -> bool {
    e2e is Some ==> offset <= data.len()
}

/// Whether a check can undo the protection of `data` with the computed
/// value `e2e` at `offset` in `size` bytes: the bytes can be placed, and
/// there is a value or no integrity byte at all.
pub open spec fn spec_protects_at(data: Seq<u8>, e2e: Option<u32>, offset: int, size: int) -> bool {
    &&& spec_placeable_at(data, e2e, offset)
    &&& e2e is Some || size == 0
}

/// The wire payload of `data` with the computed value `e2e` at `offset`
/// in `size` bytes. Where there is a value, its bytes stand at the offset.
/// Where there is none, integrity bytes that belong in front are left
/// blank, and otherwise the data is left as it is.
pub open spec fn spec_protect_at(data: Seq<u8>, e2e: Option<u32>, offset: int, size: int) -> Seq<u8>
    recommends
        spec_placeable_at(data, e2e, offset),
{
    match e2e {
        Some(value) => spec_embed(data, offset, spec_e2e_bytes(value, size)),
        None => if offset == 0 {
            spec_e2e_blank(size) + data
        } else {
            data
        },
    }
}

/// Whether `p` can place its integrity bytes into the payload of `data`.
pub open spec fn spec_placeable<P: E2EGatewayProfile>(p: P, data: Seq<u8>) -> bool {
    spec_placeable_at(data, p.spec_calculate_e2e(data), p.spec_e2e_offset() as int)
}

/// Whether the profile `p` protects `data` in a way that its own check can
/// undo.
pub open spec fn spec_protects<P: E2EGatewayProfile>(p: P, data: Seq<u8>) -> bool {
    spec_protects_at(data, p.spec_calculate_e2e(data), p.spec_e2e_offset() as int, p.spec_e2e_size() as int)
}

/// The wire payload of `data` under the profile `p`.
pub open spec fn spec_protect<P: E2EGatewayProfile>(p: P, data: Seq<u8>) -> Seq<u8>
    recommends
        spec_placeable(p, data),
{
    spec_protect_at(data, p.spec_calculate_e2e(data), p.spec_e2e_offset() as int, p.spec_e2e_size() as int)
}

/// Byte `i` of an integrity value in little-endian order.
pub fn e2e_byte(e2e: u32, i: usize) -> (r: u8)
    ensures
        r == spec_e2e_byte(e2e, i as int),
{
    if i == 0 {
        (e2e & 0xff) as u8
    } else if i == 1 {
        ((e2e >> 8) & 0xff) as u8
    } else if i == 2 {
        ((e2e >> 16) & 0xff) as u8
    } else if i == 3 {
        ((e2e >> 24) & 0xff) as u8
    } else {
        0
    }
}

/// A protection profile of the gateway. An instance belongs to one event of
/// one bridge and is never shared.
pub trait E2EGatewayProfile: Sized {
    /// The instance that `new` creates.
    spec fn spec_new() -> Self;

    /// The verdict of this instance on the wire payload `payload`.
    spec fn spec_check(&self, payload: Seq<u8>) -> CheckOutcome;

    /// This instance after it has checked `payload`.
    spec fn spec_after_check(&self, payload: Seq<u8>) -> Self;

    /// The integrity value of `data`; `None` where the profile produces no
    /// integrity bytes for it.
    spec fn spec_calculate_e2e(&self, data: Seq<u8>) -> Option<u32>;

    /// Position of the integrity bytes within a wire payload.
    spec fn spec_e2e_offset(&self) -> u32;

    /// Number of integrity bytes within a wire payload.
    spec fn spec_e2e_size(&self) -> u8;

    /// The one-byte identity of the profile.
    spec fn spec_profile_id(&self) -> u8;

    /// A check accepts what the profile itself protected: the wire payload
    /// of `data` under the profile passes the check, which hands back
    /// `data` and, where the profile computed a value, that value.
    proof fn lemma_check_accepts_protected(&self, data: Seq<u8>)
        requires
            spec_protects_at(
                data,
                self.spec_calculate_e2e(data),
                self.spec_e2e_offset() as int,
                self.spec_e2e_size() as int,
            ),
        ensures
            ({
                let wire = spec_protect_at(
                    data,
                    self.spec_calculate_e2e(data),
                    self.spec_e2e_offset() as int,
                    self.spec_e2e_size() as int,
                );
                &&& self.spec_check(wire) is Ok
                &&& self.spec_check(wire)->Ok_0.0 == data
                &&& self.spec_calculate_e2e(data) matches Some(e2e) ==> self.spec_check(wire)->Ok_0.1 == e2e
            }),
    ;

    /// Creates a new profile instance.
    fn new() -> (r: Self)
        ensures
            r == Self::spec_new(),
    ;

    /// Checks the integrity bytes in `payload`. On success the naked data
    /// and the raw integrity value are returned, else the verdict and the
    /// raw integrity value.
    fn check<'a>(&mut self, payload: &'a [u8]) -> (r: Result<(&'a [u8], u32), (E2EGatewayError, u32)>)
        ensures
            check_outcome_view(r) == old(self).spec_check(payload@),
            *final(self) == old(self).spec_after_check(payload@),
    ;

    /// Computes the integrity value of `data` that goes out on the wire.
    fn calculate_e2e(&self, data: &[u8]) -> (r: Option<u32>)
        ensures
            r == self.spec_calculate_e2e(data@),
    ;

    /// Position of the integrity bytes within the wire payload: 0 means in
    /// front of the data, a larger offset means after that many data bytes.
    fn e2e_offset(&self) -> (r: u32)
        ensures
            r == self.spec_e2e_offset(),
    ;

    /// Number of integrity bytes within the wire payload.
    fn e2e_size(&self) -> (r: u8)
        ensures
            r == self.spec_e2e_size(),
            r <= 4,
    ;

    fn profile_id(&self) -> (r: u8)
        ensures
            r == self.spec_profile_id(),
    ;
}

/// The profile of types that travel without protection: every payload is
/// its own data and no integrity bytes are produced.
#[derive(Debug)]
pub struct NoE2EProtection {}

impl E2EGatewayProfile for NoE2EProtection {
    open spec fn spec_new() -> Self {
        NoE2EProtection {  }
    }

    open spec fn spec_check(&self, payload: Seq<u8>) -> CheckOutcome {
        Ok((payload, 0u32))
    }

    open spec fn spec_after_check(&self, payload: Seq<u8>) -> Self {
        *self
    }

    open spec fn spec_calculate_e2e(&self, data: Seq<u8>) -> Option<u32> {
        None
    }

    open spec fn spec_e2e_offset(&self) -> u32 {
        0
    }

    open spec fn spec_e2e_size(&self) -> u8 {
        0
    }

    open spec fn spec_profile_id(&self) -> u8 {
        0
    }

    proof fn lemma_check_accepts_protected(&self, data: Seq<u8>) {
        assert(spec_protect_at(data, None, 0, 0) =~= data);
    }

    fn new() -> (r: Self) {
        NoE2EProtection {  }
    }

    fn check<'a>(&mut self, payload: &'a [u8]) -> (r: Result<(&'a [u8], u32), (E2EGatewayError, u32)>) {
        Ok((payload, 0))
    }

    fn calculate_e2e(&self, data: &[u8]) -> (r: Option<u32>) {
        None
    }

    fn e2e_offset(&self) -> (r: u32) {
        0
    }

    fn e2e_size(&self) -> (r: u8) {
        0
    }

    fn profile_id(&self) -> (r: u8) {
        0
    }
}

/// Modulus of the showcase profile's integrity value.
pub const SHOWCASE_MODULUS: u8 = 45;

/// Identity of the showcase profile.
pub const SHOWCASE_PROFILE_ID: u8 = 0x0A;

/// A reference profile with one integrity byte in front of the data: the
/// first data byte modulo 45.
#[derive(Debug)]
pub struct E2EShowcaseProfile {}

impl E2EGatewayProfile for E2EShowcaseProfile {
    open spec fn spec_new() -> Self {
        E2EShowcaseProfile {  }
    }

    /// A payload of two bytes or more passes when its first byte equals its
    /// second modulo 45. A shorter payload fails; the raw value is its
    /// first byte, or 0 where it has none.
    open spec fn spec_check(&self, payload: Seq<u8>) -> CheckOutcome {
        if payload.len() == 0 {
            Err((E2EGatewayError::CrcError, 0u32))
        } else if payload.len() < 2 || payload[0] != payload[1] % 45 {
            Err((E2EGatewayError::CrcError, payload[0] as u32))
        } else {
            Ok((payload.subrange(1, payload.len() as int), payload[0] as u32))
        }
    }

    open spec fn spec_after_check(&self, payload: Seq<u8>) -> Self {
        *self
    }

    /// The first data byte modulo 45; nothing where there is no data byte.
    open spec fn spec_calculate_e2e(&self, data: Seq<u8>) -> Option<u32> {
        if data.len() == 0 {
            None
        } else {
            Some((data[0] % 45) as u32)
        }
    }

    open spec fn spec_e2e_offset(&self) -> u32 {
        0
    }

    open spec fn spec_e2e_size(&self) -> u8 {
        1
    }

    open spec fn spec_profile_id(&self) -> u8 {
        0x0A
    }

    proof fn lemma_check_accepts_protected(&self, data: Seq<u8>) {
        let e2e = (data[0] % 45) as u32;
        let bytes = spec_e2e_bytes(e2e, 1);
        let wire = spec_embed(data, 0, bytes);
        assert(e2e & 0xff == e2e) by (bit_vector)
            requires
                e2e < 45,
        ;
        assert(bytes[0] == data[0] % 45);
        assert(wire.len() == data.len() + 1);
        assert(wire[0] == bytes[0]);
        assert(wire[1] == data[0]);
        assert(wire.subrange(1, wire.len() as int) =~= data);
        assert(spec_protect_at(data, Some(e2e), 0, 1) == wire);
    }

    fn new() -> (r: Self) {
        E2EShowcaseProfile {  }
    }

    fn check<'a>(&mut self, payload: &'a [u8]) -> (r: Result<(&'a [u8], u32), (E2EGatewayError, u32)>) {
        if payload.len() == 0 {
            return Err((E2EGatewayError::CrcError, 0));
        }
        let raw_e2e: u8 = payload[0];
        if payload.len() < 2 {
            return Err((E2EGatewayError::CrcError, raw_e2e as u32));
        }
        let expected: u8 = payload[1] % SHOWCASE_MODULUS;
        if raw_e2e != expected {
            return Err((E2EGatewayError::CrcError, raw_e2e as u32));
        }
        Ok((vstd::slice::slice_subrange(payload, 1, payload.len()), raw_e2e as u32))
    }

    fn calculate_e2e(&self, data: &[u8]) -> (r: Option<u32>) {
        if data.len() == 0 {
            None
        } else {
            Some((data[0] % SHOWCASE_MODULUS) as u32)
        }
    }

    fn e2e_offset(&self) -> (r: u32) {
        0
    }

    fn e2e_size(&self) -> (r: u8) {
        1
    }

    fn profile_id(&self) -> (r: u8) {
        SHOWCASE_PROFILE_ID
    }
}

} // verus!
