//! The records of the window and rain interfaces and their wire forms.

use vstd::prelude::*;
use crate::buffer::WriteBuf;
use crate::codec::{lemma_protected_roundtrip, spec_protected_from_someip, spec_protected_to_someip};
use crate::codec::{FromSomeIP, SomeIPCodec, ToSomeIP};
use crate::e2e::{spec_envelope, spec_from_local};
use crate::e2e::{E2ESomeUserProfile, E2ESomeUserProfile2, E2ETypeConnector};
use crate::profile::{E2EShowcaseProfile, NoE2EProtection};

verus! {

/// Opening of the four windows: front left, front right, rear left, rear
/// right.
#[derive(Clone, Copy, Debug, PartialEq, Eq, Structural)]
pub struct WindowsPosition {
    pub fl: u8,
    pub fr: u8,
    pub rl: u8,
    pub rr: u8,
}

/// Reading of the rain sensor.
#[derive(Clone, Copy, Debug, PartialEq, Eq, Structural)]
pub struct RainSensor {
    pub is_wet: bool,
}

/// Command to close the windows.
#[derive(Clone, Copy, Debug, PartialEq, Eq, Structural)]
pub struct CloseWindows {
    pub close: bool,
}

impl E2ETypeConnector for WindowsPosition {
    type ConnectedE2EProfile = E2ESomeUserProfile;
}

impl E2ETypeConnector for RainSensor {
    type ConnectedE2EProfile = E2ESomeUserProfile2;
}

impl E2ETypeConnector for CloseWindows {
    type ConnectedE2EProfile = E2ESomeUserProfile;
}

/// The wire byte of a boolean: 1 for true, 0 for false.
pub open spec fn spec_bool_byte(b: bool) -> u8 {
    if b {
        1
    } else {
        0
    }
}

/// The boolean that the first byte of `data` stands for: 0 is false, 1 is
/// true; anything else, or no byte at all, stands for none.
pub open spec fn spec_bool_from_wire(data: Seq<u8>) -> Option<bool> {
    if data.len() >= 1 && data[0] == 0 {
        Some(false)
    } else if data.len() >= 1 && data[0] == 1 {
        Some(true)
    } else {
        None
    }
}

/// Reads a boolean from the first byte of `data`.
pub fn bool_from_wire(data: &[u8]) -> (r: Option<bool>)
    ensures
        r == spec_bool_from_wire(data@),
{
    if data.len() < 1 {
        return None;
    }
    let b: u8 = data[0];
    if b == 0 {
        Some(false)
    } else if b == 1 {
        Some(true)
    } else {
        None
    }
}

/// The wire byte of a boolean.
pub fn bool_byte(b: bool) -> (r: u8)
    ensures
        r == spec_bool_byte(b),
{
    if b {
        1
    } else {
        0
    }
}

impl FromSomeIP for WindowsPosition {
    type E2EGatewayProfile = NoE2EProtection;

    /// The first four bytes are the four openings; what follows is not
    /// read. Fewer than four bytes stand for no record.
    open spec fn spec_from_someip(data: Seq<u8>, e2e: Option<NoE2EProtection>) -> Result<Self, ()> {
        if data.len() >= 4 {
            Ok(WindowsPosition { fl: data[0], fr: data[1], rl: data[2], rr: data[3] })
        } else {
            Err(())
        }
    }

    open spec fn spec_profile_after(data: Seq<u8>, e2e: NoE2EProtection) -> NoE2EProtection {
        e2e
    }

    proof fn lemma_profile_id_agreement(e2e: NoE2EProtection) {
    }

    fn from_someip(data: &[u8], e2e: Option<&mut NoE2EProtection>) -> (r: Result<Self, ()>) {
        if data.len() < 4 {
            return Err(());
        }
        Ok(WindowsPosition { fl: data[0], fr: data[1], rl: data[2], rr: data[3] })
    }
}

impl FromSomeIP for CloseWindows {
    type E2EGatewayProfile = NoE2EProtection;

    open spec fn spec_from_someip(data: Seq<u8>, e2e: Option<NoE2EProtection>) -> Result<Self, ()> {
        match spec_bool_from_wire(data) {
            Some(close) => Ok(CloseWindows { close }),
            None => Err(()),
        }
    }

    open spec fn spec_profile_after(data: Seq<u8>, e2e: NoE2EProtection) -> NoE2EProtection {
        e2e
    }

    proof fn lemma_profile_id_agreement(e2e: NoE2EProtection) {
    }

    fn from_someip(data: &[u8], e2e: Option<&mut NoE2EProtection>) -> (r: Result<Self, ()>) {
        match bool_from_wire(data) {
            Some(close) => Ok(CloseWindows { close }),
            None => Err(()),
        }
    }
}

impl FromSomeIP for RainSensor {
    type E2EGatewayProfile = E2EShowcaseProfile;

    open spec fn spec_from_someip(data: Seq<u8>, e2e: Option<E2EShowcaseProfile>) -> Result<Self, ()> {
        match spec_bool_from_wire(data) {
            Some(is_wet) => Ok(RainSensor { is_wet }),
            None => Err(()),
        }
    }

    open spec fn spec_profile_after(data: Seq<u8>, e2e: E2EShowcaseProfile) -> E2EShowcaseProfile {
        e2e
    }

    proof fn lemma_profile_id_agreement(e2e: E2EShowcaseProfile) {
    }

    fn from_someip(data: &[u8], e2e: Option<&mut E2EShowcaseProfile>) -> (r: Result<Self, ()>) {
        match bool_from_wire(data) {
            Some(is_wet) => Ok(RainSensor { is_wet }),
            None => Err(()),
        }
    }
}

impl ToSomeIP for WindowsPosition {
    type E2EGatewayProfile = NoE2EProtection;

    open spec fn spec_to_someip(&self, e2e: Option<NoE2EProtection>) -> Option<Seq<u8>> {
        Some(seq![self.fl, self.fr, self.rl, self.rr])
    }

    proof fn lemma_profile_id_agreement(e2e: NoE2EProtection) {
    }

    fn to_someip(&self, output: &mut WriteBuf, e2e: Option<&mut NoE2EProtection>) -> (r: Result<(), ()>) {
        let bytes: [u8; 4] = [self.fl, self.fr, self.rl, self.rr];
        assert(bytes@ =~= seq![self.fl, self.fr, self.rl, self.rr]);
        output.put_slice(vstd::array::array_as_slice(&bytes))
    }
}

impl ToSomeIP for CloseWindows {
    type E2EGatewayProfile = NoE2EProtection;

    open spec fn spec_to_someip(&self, e2e: Option<NoE2EProtection>) -> Option<Seq<u8>> {
        Some(seq![spec_bool_byte(self.close)])
    }

    proof fn lemma_profile_id_agreement(e2e: NoE2EProtection) {
    }

    fn to_someip(&self, output: &mut WriteBuf, e2e: Option<&mut NoE2EProtection>) -> (r: Result<(), ()>) {
        let ghost before = output@;
        let r = output.put_u8(bool_byte(self.close));
        proof {
            if r is Ok {
                assert(output@ =~= before + seq![spec_bool_byte(self.close)]);
            }
        }
        r
    }
}

impl ToSomeIP for RainSensor {
    type E2EGatewayProfile = E2EShowcaseProfile;

    open spec fn spec_to_someip(&self, e2e: Option<E2EShowcaseProfile>) -> Option<Seq<u8>> {
        Some(seq![spec_bool_byte(self.is_wet)])
    }

    proof fn lemma_profile_id_agreement(e2e: E2EShowcaseProfile) {
    }

    fn to_someip(&self, output: &mut WriteBuf, e2e: Option<&mut E2EShowcaseProfile>) -> (r: Result<(), ()>) {
        let ghost before = output@;
        let r = output.put_u8(bool_byte(self.is_wet));
        proof {
            if r is Ok {
                assert(output@ =~= before + seq![spec_bool_byte(self.is_wet)]);
            }
        }
        r
    }
}

impl SomeIPCodec for WindowsPosition {
    proof fn lemma_from_undoes_to(&self) {
    }
}

impl SomeIPCodec for CloseWindows {
    proof fn lemma_from_undoes_to(&self) {
    }
}

impl SomeIPCodec for RainSensor {
    proof fn lemma_from_undoes_to(&self) {
    }
}

/// A rain sensor reading that is written under the showcase profile is
/// read back under it as the same reading.
pub proof fn lemma_rain_sensor_roundtrip(value: RainSensor, p: E2EShowcaseProfile)
    ensures
        spec_protected_to_someip::<RainSensor>(spec_envelope(spec_from_local(value)), p) == Some(
            seq![spec_bool_byte(value.is_wet), spec_bool_byte(value.is_wet)],
        ),
        spec_protected_from_someip::<RainSensor>(
            seq![spec_bool_byte(value.is_wet), spec_bool_byte(value.is_wet)],
            p,
        ) is Ok,
        spec_protected_from_someip::<RainSensor>(
            seq![spec_bool_byte(value.is_wet), spec_bool_byte(value.is_wet)],
            p,
        )->Ok_0@.data == Some(value),
{
    broadcast use crate::e2e::lemma_envelope_view;

    lemma_protected_roundtrip::<RainSensor>(value, p);
    let data = seq![spec_bool_byte(value.is_wet)];
    let e2e = (data[0] % 45) as u32;
    assert(e2e & 0xff == e2e) by (bit_vector)
        requires
            e2e < 45,
    ;
    assert(crate::profile::spec_protect(p, data) =~= seq![
        spec_bool_byte(value.is_wet),
        spec_bool_byte(value.is_wet),
    ]);
}

/// A window position that is written without protection is read back as
/// the same position.
pub proof fn lemma_windows_position_roundtrip(value: WindowsPosition, p: NoE2EProtection)
    ensures
        spec_protected_to_someip::<WindowsPosition>(spec_envelope(spec_from_local(value)), p) == Some(
            seq![value.fl, value.fr, value.rl, value.rr],
        ),
        spec_protected_from_someip::<WindowsPosition>(seq![value.fl, value.fr, value.rl, value.rr], p) is Ok,
        spec_protected_from_someip::<WindowsPosition>(
            seq![value.fl, value.fr, value.rl, value.rr],
            p,
        )->Ok_0@.data == Some(value),
{
    broadcast use crate::e2e::lemma_envelope_view;

    lemma_protected_roundtrip::<WindowsPosition>(value, p);
    let data = seq![value.fl, value.fr, value.rl, value.rr];
    assert(crate::profile::spec_protect(p, data) =~= data);
}

/// A close command that is written without protection is read back as the
/// same command.
pub proof fn lemma_close_windows_roundtrip(value: CloseWindows, p: NoE2EProtection)
    ensures
        spec_protected_to_someip::<CloseWindows>(spec_envelope(spec_from_local(value)), p) == Some(
            seq![spec_bool_byte(value.close)],
        ),
        spec_protected_from_someip::<CloseWindows>(seq![spec_bool_byte(value.close)], p) is Ok,
        spec_protected_from_someip::<CloseWindows>(seq![spec_bool_byte(value.close)], p)->Ok_0@.data == Some(
            value,
        ),
{
    broadcast use crate::e2e::lemma_envelope_view;

    lemma_protected_roundtrip::<CloseWindows>(value, p);
    let data = seq![spec_bool_byte(value.close)];
    assert(crate::profile::spec_protect(p, data) =~= data);
}

} // verus!
