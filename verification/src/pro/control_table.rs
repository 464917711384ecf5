//! The control table of the M42-10-S260-R.
use vstd::prelude::*;
use crate::codec::{
    bool_from_bytes,
    bool_to_bytes,
    deserialize_bool,
    deserialize_i32,
    i32_from_bytes,
    i32_to_bytes,
    lemma_bool_round_trip,
    lemma_i32_round_trip,
    serialize_bool,
    serialize_i32,
};

verus! {

/// An entry of this control table.
pub trait Register: crate::protocol2::Register {
}

/// An entry of this control table that can be read.
pub trait ReadRegister: crate::protocol2::ReadRegister {
}

/// An entry of this control table that can be written.
pub trait WriteRegister: crate::protocol2::WriteRegister {
}

/// Whether the motor holds its position.
#[derive(Debug, PartialEq, Eq, Clone, Copy, Structural)]
pub struct TorqueEnable(pub bool);

impl TorqueEnable {
    /// The register holding `v`.
    pub fn new(v: bool) -> (r: Self)
        ensures
            r.0 == v,
    {
        TorqueEnable(v)
    }
}

impl From<TorqueEnable> for bool {
    fn from(v: TorqueEnable) -> (r: bool) {
        v.0
    }
}

impl vstd::std_specs::convert::FromSpecImpl<TorqueEnable> for bool {
    open spec fn obeys_from_spec() -> bool {
        true
    }

    open spec fn from_spec(v: TorqueEnable) -> bool {
        v.0
    }
}

impl crate::protocol2::Register for TorqueEnable {
    const SIZE: u16 = 1;

    const ADDRESS: u16 = 562;

    open spec fn size() -> u16 {
        1
    }

    open spec fn address() -> u16 {
        562
    }

    proof fn lemma_register() {
    }
}

impl ReadRegister for TorqueEnable {
}

impl crate::protocol2::ReadRegister for TorqueEnable {
    open spec fn decoded(data: Seq<u8>) -> Self {
        TorqueEnable(bool_from_bytes(data))
    }

    fn deserialize(data: &[u8]) -> (r: Self) {
        TorqueEnable(deserialize_bool(data))
    }
}

impl WriteRegister for TorqueEnable {
}

impl crate::protocol2::WriteRegister for TorqueEnable {
    open spec fn encoded(&self) -> Seq<u8> {
        bool_to_bytes(self.0)
    }

    proof fn lemma_encoded(&self) {
    }

    fn serialize(&self) -> (r: [u8; 4]) {
        serialize_bool(self.0)
    }
}

impl crate::protocol2::ReadWriteRegister for TorqueEnable {
    proof fn lemma_round_trip(&self) {
        lemma_bool_round_trip(self.0);
    }
}

/// The position to move to, in ticks.
#[derive(Debug, PartialEq, Eq, Clone, Copy, Structural)]
pub struct GoalPosition(pub i32);

impl GoalPosition {
    /// The register holding `v`.
    pub fn new(v: i32) -> (r: Self)
        ensures
            r.0 == v,
    {
        GoalPosition(v)
    }
}

impl From<GoalPosition> for i32 {
    fn from(v: GoalPosition) -> (r: i32) {
        v.0
    }
}

impl vstd::std_specs::convert::FromSpecImpl<GoalPosition> for i32 {
    open spec fn obeys_from_spec() -> bool {
        true
    }

    open spec fn from_spec(v: GoalPosition) -> i32 {
        v.0
    }
}

impl crate::protocol2::Register for GoalPosition {
    const SIZE: u16 = 4;

    const ADDRESS: u16 = 596;

    open spec fn size() -> u16 {
        4
    }

    open spec fn address() -> u16 {
        596
    }

    proof fn lemma_register() {
    }
}

impl ReadRegister for GoalPosition {
}

impl crate::protocol2::ReadRegister for GoalPosition {
    open spec fn decoded(data: Seq<u8>) -> Self {
        GoalPosition(i32_from_bytes(data))
    }

    fn deserialize(data: &[u8]) -> (r: Self) {
        GoalPosition(deserialize_i32(data))
    }
}

impl WriteRegister for GoalPosition {
}

impl crate::protocol2::WriteRegister for GoalPosition {
    open spec fn encoded(&self) -> Seq<u8> {
        i32_to_bytes(self.0)
    }

    proof fn lemma_encoded(&self) {
    }

    fn serialize(&self) -> (r: [u8; 4]) {
        serialize_i32(self.0)
    }
}

impl crate::protocol2::ReadWriteRegister for GoalPosition {
    proof fn lemma_round_trip(&self) {
        lemma_i32_round_trip(self.0);
    }
}

/// The position the servo is at, in ticks.
#[derive(Debug, PartialEq, Eq, Clone, Copy, Structural)]
pub struct PresentPosition(pub i32);

impl From<PresentPosition> for i32 {
    fn from(v: PresentPosition) -> (r: i32) {
        v.0
    }
}

impl vstd::std_specs::convert::FromSpecImpl<PresentPosition> for i32 {
    open spec fn obeys_from_spec() -> bool {
        true
    }

    open spec fn from_spec(v: PresentPosition) -> i32 {
        v.0
    }
}

impl crate::protocol2::Register for PresentPosition {
    const SIZE: u16 = 4;

    const ADDRESS: u16 = 611;

    open spec fn size() -> u16 {
        4
    }

    open spec fn address() -> u16 {
        611
    }

    proof fn lemma_register() {
    }
}

impl ReadRegister for PresentPosition {
}

impl crate::protocol2::ReadRegister for PresentPosition {
    open spec fn decoded(data: Seq<u8>) -> Self {
        PresentPosition(i32_from_bytes(data))
    }

    fn deserialize(data: &[u8]) -> (r: Self) {
        PresentPosition(deserialize_i32(data))
    }
}

} // verus!
