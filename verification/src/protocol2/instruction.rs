//! The instructions of protocol 2 and the statuses that answer them.
use vstd::prelude::*;
use super::{
    Instruction,
    PacketID,
    ReadRegister,
    Serializer,
    ServoID,
    Status,
    WriteRegister,
};
use crate::codec::{deserialize_u16, serialize_u16, u16_from_bytes, u16_to_bytes};

verus! {

/// Asks a servo whether it is there.
#[derive(Debug, PartialEq, Eq, Clone, Copy)]
pub struct Ping {
    pub id: PacketID,
}

impl Ping {
    /// A ping for `id`.
    pub fn new(id: PacketID) -> (r: Self)
        ensures
            r.id == id,
    {
        Ping { id: id }
    }

    /// A serializer at the start of the frame of this instruction.
    pub fn serialize<'a>(&'a self) -> (r: Serializer<'a, Self>)
        ensures
            r.instruction() == self,
            r.position() == 0,
    {
        Serializer::new(self)
    }
}

impl Instruction for Ping {
    const PARAMETERS: u16 = 0;

    const INSTRUCTION_VALUE: u8 = 0x01;

    open spec fn parameter_count() -> u16 {
        0
    }

    open spec fn opcode() -> u8 {
        0x01
    }

    open spec fn target(&self) -> PacketID {
        self.id
    }

    open spec fn parameters(&self) -> Seq<u8> {
        Seq::empty()
    }

    proof fn lemma_instruction(&self) {
    }

    fn id(&self) -> (r: PacketID) {
        self.id
    }

    /// A ping has no parameters: there is no index to ask for.
    fn parameter(&self, _index: usize) -> (r: u8) {
        0
    }
}

/// The answer to a [`Ping`]: what the servo is.
#[derive(Debug, PartialEq, Eq, Clone, Copy, Structural)]
pub struct Pong {
    pub id: ServoID,
    pub model_number: u16,
    pub fw_version: u8,
}

impl Status for Pong {
    const PARAMETERS: u16 = 3;

    open spec fn parameter_count() -> u16 {
        3
    }

    open spec fn decoded(id: ServoID, parameters: Seq<u8>) -> Self {
        Pong {
            id: id,
            model_number: u16_from_bytes(parameters.take(2)),
            fw_version: parameters[2],
        }
    }

    open spec fn source(&self) -> ServoID {
        self.id
    }

    proof fn lemma_status(id: ServoID, parameters: Seq<u8>) {
        let status = Pong {
            id: id,
            model_number: u16_from_bytes(parameters.take(2)),
            fw_version: parameters[2],
        };
        assert(Self::decoded(id, parameters) == status);
        assert(status.source() == id);
    }

    fn deserialize(id: ServoID, parameters: &[u8]) -> (r: Self) {
        assert(parameters@.subrange(0, 2) =~= parameters@.take(2));
        Pong {
            id: id,
            model_number: deserialize_u16(&parameters[0..2]),
            fw_version: parameters[2],
        }
    }
}

/// Asks for the value of a register.
#[derive(Debug, PartialEq, Eq)]
pub struct Read<T: ReadRegister> {
    pub id: PacketID,
    pub phantom: core::marker::PhantomData<T>,
}

impl<T: ReadRegister> Read<T> {
    /// An instruction that reads the register `T` of `id`.
    pub fn new(id: PacketID) -> (r: Self)
        ensures
            r.id == id,
    {
        Read { id: id, phantom: core::marker::PhantomData }
    }

    /// A serializer at the start of the frame of this instruction.
    pub fn serialize<'a>(&'a self) -> (r: Serializer<'a, Self>)
        ensures
            r.instruction() == self,
            r.position() == 0,
    {
        Serializer::new(self)
    }
}

impl<T: ReadRegister> Instruction for Read<T> {
    const PARAMETERS: u16 = 4;

    const INSTRUCTION_VALUE: u8 = 0x02;

    open spec fn parameter_count() -> u16 {
        4
    }

    open spec fn opcode() -> u8 {
        0x02
    }

    open spec fn target(&self) -> PacketID {
        self.id
    }

    open spec fn parameters(&self) -> Seq<u8> {
        u16_to_bytes(T::address()).take(2) + u16_to_bytes(T::size()).take(2)
    }

    proof fn lemma_instruction(&self) {
    }

    fn id(&self) -> (r: PacketID) {
        self.id
    }

    fn parameter(&self, index: usize) -> (r: u8) {
        proof {
            T::lemma_register();
        }
        if index < 2 {
            serialize_u16(T::ADDRESS)[index]
        } else {
            serialize_u16(T::SIZE)[index - 2]
        }
    }
}

/// The answer to a [`Read`]: the value of the register.
#[derive(Debug, PartialEq, Eq)]
pub struct ReadResponse<T: ReadRegister> {
    pub id: ServoID,
    pub value: T,
}

impl<T: ReadRegister> Status for ReadResponse<T> {
    const PARAMETERS: u16 = T::SIZE;

    open spec fn parameter_count() -> u16 {
        T::size()
    }

    open spec fn decoded(id: ServoID, parameters: Seq<u8>) -> Self {
        ReadResponse { id: id, value: T::decoded(parameters) }
    }

    open spec fn source(&self) -> ServoID {
        self.id
    }

    proof fn lemma_status(id: ServoID, parameters: Seq<u8>) {
        T::lemma_register();
        let status = ReadResponse::<T> { id: id, value: T::decoded(parameters) };
        assert(Self::decoded(id, parameters) == status);
        assert(status.source() == id);
    }

    fn deserialize(id: ServoID, parameters: &[u8]) -> (r: Self) {
        ReadResponse { id: id, value: T::deserialize(parameters) }
    }
}

/// Writes a value to a register.
#[derive(Debug, PartialEq, Eq)]
pub struct Write<T: WriteRegister> {
    pub id: PacketID,
    pub data: T,
}

impl<T: WriteRegister> Write<T> {
    /// An instruction that writes `data` to its register on `id`.
    pub fn new(id: PacketID, data: T) -> (r: Self)
        ensures
            r.id == id,
            r.data == data,
    {
        Write { id: id, data: data }
    }

    /// A serializer at the start of the frame of this instruction.
    pub fn serialize<'a>(&'a self) -> (r: Serializer<'a, Self>)
        ensures
            r.instruction() == self,
            r.position() == 0,
    {
        Serializer::new(self)
    }
}

impl<T: WriteRegister> Instruction for Write<T> {
    const PARAMETERS: u16 = 2 + T::SIZE;

    const INSTRUCTION_VALUE: u8 = 0x03;

    open spec fn parameter_count() -> u16 {
        (2 + T::size()) as u16
    }

    open spec fn opcode() -> u8 {
        0x03
    }

    open spec fn target(&self) -> PacketID {
        self.id
    }

    open spec fn parameters(&self) -> Seq<u8> {
        u16_to_bytes(T::address()).take(2) + self.data.encoded().take(T::size() as int)
    }

    proof fn lemma_instruction(&self) {
        T::lemma_register();
        self.data.lemma_encoded();
    }

    fn id(&self) -> (r: PacketID) {
        self.id
    }

    fn parameter(&self, index: usize) -> (r: u8) {
        proof {
            T::lemma_register();
            self.data.lemma_encoded();
        }
        if index < 2 {
            serialize_u16(T::ADDRESS)[index]
        } else {
            self.data.serialize()[index - 2]
        }
    }
}

/// The answer to a [`Write`].
#[derive(Debug, PartialEq, Eq, Clone, Copy, Structural)]
pub struct WriteResponse {
    pub id: ServoID,
}

impl Status for WriteResponse {
    const PARAMETERS: u16 = 0;

    open spec fn parameter_count() -> u16 {
        0
    }

    open spec fn decoded(id: ServoID, parameters: Seq<u8>) -> Self {
        WriteResponse { id: id }
    }

    open spec fn source(&self) -> ServoID {
        self.id
    }

    proof fn lemma_status(id: ServoID, parameters: Seq<u8>) {
        let status = WriteResponse { id: id };
        assert(Self::decoded(id, parameters) == status);
        assert(status.source() == id);
    }

    fn deserialize(id: ServoID, parameters: &[u8]) -> (r: Self) {
        WriteResponse { id: id }
    }
}

} // verus!
