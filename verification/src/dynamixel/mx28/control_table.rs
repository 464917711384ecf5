//! The control table of the MX-28.
use vstd::prelude::*;
use crate::codec::{
    bool_from_bytes,
    bool_to_bytes,
    deserialize_bool,
    deserialize_u16,
    lemma_bool_round_trip,
    lemma_u16_round_trip,
    serialize_bool,
    serialize_u16,
    u16_from_bytes,
    u16_to_bytes,
};

verus! {

/// An entry of this control table.
pub trait Register: crate::protocol1::Register {
}

/// An entry of this control table that can be read.
pub trait ReadRegister: crate::protocol1::ReadRegister {
}

/// An entry of this control table that can be written.
pub trait WriteRegister: crate::protocol1::WriteRegister {
}

/// Whether the motor holds its position.
#[derive(Debug, PartialEq, Eq, Clone, Copy, Structural)]
pub struct TorqueEnable(pub bool);

impl TorqueEnable {
    /// The register holding `v`.
    pub fn new(v: bool) -> (r: Self)
        ensures
            r.0 == v,
    {
        TorqueEnable(v)
    }
}

impl From<TorqueEnable> for bool {
    fn from(v: TorqueEnable) -> (r: bool) {
        v.0
    }
}

impl vstd::std_specs::convert::FromSpecImpl<TorqueEnable> for bool {
    open spec fn obeys_from_spec() -> bool {
        true
    }

    open spec fn from_spec(v: TorqueEnable) -> bool {
        v.0
    }
}

impl crate::protocol1::Register for TorqueEnable {
    const SIZE: u8 = 1;

    const ADDRESS: u8 = 24;

    open spec fn size() -> u8 {
        1
    }

    open spec fn address() -> u8 {
        24
    }

    proof fn lemma_register() {
    }
}

impl ReadRegister for TorqueEnable {
}

impl crate::protocol1::ReadRegister for TorqueEnable {
    open spec fn decoded(data: Seq<u8>) -> Self {
        TorqueEnable(bool_from_bytes(data))
    }

    fn deserialize(data: &[u8]) -> (r: Self) {
        TorqueEnable(deserialize_bool(data))
    }
}

impl WriteRegister for TorqueEnable {
}

impl crate::protocol1::WriteRegister for TorqueEnable {
    open spec fn encoded(&self) -> Seq<u8> {
        bool_to_bytes(self.0)
    }

    proof fn lemma_encoded(&self) {
    }

    fn serialize(&self) -> (r: [u8; 4]) {
        serialize_bool(self.0)
    }
}

impl crate::protocol1::ReadWriteRegister for TorqueEnable {
    proof fn lemma_round_trip(&self) {
        lemma_bool_round_trip(self.0);
    }
}

/// Whether the light is on.
#[derive(Debug, PartialEq, Eq, Clone, Copy, Structural)]
pub struct Led(pub bool);

impl Led {
    /// The register holding `v`.
    pub fn new(v: bool) -> (r: Self)
        ensures
            r.0 == v,
    {
        Led(v)
    }
}

impl From<Led> for bool {
    fn from(v: Led) -> (r: bool) {
        v.0
    }
}

impl vstd::std_specs::convert::FromSpecImpl<Led> for bool {
    open spec fn obeys_from_spec() -> bool {
        true
    }

    open spec fn from_spec(v: Led) -> bool {
        v.0
    }
}

impl crate::protocol1::Register for Led {
    const SIZE: u8 = 1;

    const ADDRESS: u8 = 25;

    open spec fn size() -> u8 {
        1
    }

    open spec fn address() -> u8 {
        25
    }

    proof fn lemma_register() {
    }
}

impl ReadRegister for Led {
}

impl crate::protocol1::ReadRegister for Led {
    open spec fn decoded(data: Seq<u8>) -> Self {
        Led(bool_from_bytes(data))
    }

    fn deserialize(data: &[u8]) -> (r: Self) {
        Led(deserialize_bool(data))
    }
}

impl WriteRegister for Led {
}

impl crate::protocol1::WriteRegister for Led {
    open spec fn encoded(&self) -> Seq<u8> {
        bool_to_bytes(self.0)
    }

    proof fn lemma_encoded(&self) {
    }

    fn serialize(&self) -> (r: [u8; 4]) {
        serialize_bool(self.0)
    }
}

impl crate::protocol1::ReadWriteRegister for Led {
    proof fn lemma_round_trip(&self) {
        lemma_bool_round_trip(self.0);
    }
}

/// The position to move to, in ticks.
#[derive(Debug, PartialEq, Eq, Clone, Copy, Structural)]
pub struct GoalPosition(pub u16);

impl GoalPosition {
    /// The register holding `v`.
    pub fn new(v: u16) -> (r: Self)
        ensures
            r.0 == v,
    {
        GoalPosition(v)
    }
}

impl From<GoalPosition> for u16 {
    fn from(v: GoalPosition) -> (r: u16) {
        v.0
    }
}

impl vstd::std_specs::convert::FromSpecImpl<GoalPosition> for u16 {
    open spec fn obeys_from_spec() -> bool {
        true
    }

    open spec fn from_spec(v: GoalPosition) -> u16 {
        v.0
    }
}

impl crate::protocol1::Register for GoalPosition {
    const SIZE: u8 = 2;

    const ADDRESS: u8 = 30;

    open spec fn size() -> u8 {
        2
    }

    open spec fn address() -> u8 {
        30
    }

    proof fn lemma_register() {
    }
}

impl ReadRegister for GoalPosition {
}

impl crate::protocol1::ReadRegister for GoalPosition {
    open spec fn decoded(data: Seq<u8>) -> Self {
        GoalPosition(u16_from_bytes(data))
    }

    fn deserialize(data: &[u8]) -> (r: Self) {
        GoalPosition(deserialize_u16(data))
    }
}

impl WriteRegister for GoalPosition {
}

impl crate::protocol1::WriteRegister for GoalPosition {
    open spec fn encoded(&self) -> Seq<u8> {
        u16_to_bytes(self.0)
    }

    proof fn lemma_encoded(&self) {
    }

    fn serialize(&self) -> (r: [u8; 4]) {
        serialize_u16(self.0)
    }
}

impl crate::protocol1::ReadWriteRegister for GoalPosition {
    proof fn lemma_round_trip(&self) {
        lemma_u16_round_trip(self.0);
    }
}

/// The position the servo is at, in ticks.
#[derive(Debug, PartialEq, Eq, Clone, Copy, Structural)]
pub struct PresentPosition(pub u16);

impl From<PresentPosition> for u16 {
    fn from(v: PresentPosition) -> (r: u16) {
        v.0
    }
}

impl vstd::std_specs::convert::FromSpecImpl<PresentPosition> for u16 {
    open spec fn obeys_from_spec() -> bool {
        true
    }

    open spec fn from_spec(v: PresentPosition) -> u16 {
        v.0
    }
}

impl crate::protocol1::Register for PresentPosition {
    const SIZE: u8 = 2;

    const ADDRESS: u8 = 36;

    open spec fn size() -> u8 {
        2
    }

    open spec fn address() -> u8 {
        36
    }

    proof fn lemma_register() {
    }
}

impl ReadRegister for PresentPosition {
}

impl crate::protocol1::ReadRegister for PresentPosition {
    open spec fn decoded(data: Seq<u8>) -> Self {
        PresentPosition(u16_from_bytes(data))
    }

    fn deserialize(data: &[u8]) -> (r: Self) {
        PresentPosition(deserialize_u16(data))
    }
}

} // verus!
