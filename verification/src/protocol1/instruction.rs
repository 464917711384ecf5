//! The instructions of protocol 1 and the statuses that answer them.
use vstd::prelude::*;
use super::checksum::Checksum;
use super::{frame, Instruction, PacketID, ReadRegister, ServoID, Status, WriteRegister};

verus! {

/// Asks a servo whether it is there.
pub struct Ping {
    pub id: PacketID,
}

impl Ping {
    /// A ping for `id`.
    pub fn new(id: PacketID) -> (r: Self)
        ensures
            r.id == id,
    {
        Ping { id: id }
    }
}

impl Instruction for Ping {
    type Array = [u8; 6];

    const LENGTH: u8 = 2;

    const INSTRUCTION_VALUE: u8 = 0x01;

    open spec fn length() -> u8 {
        2
    }

    open spec fn opcode() -> u8 {
        0x01
    }

    open spec fn target(&self) -> PacketID {
        self.id
    }

    open spec fn parameters(&self) -> Seq<u8> {
        Seq::empty()
    }

    proof fn lemma_instruction(&self) {
    }

    fn serialize(&self) -> (r: [u8; 6]) {
        let mut array: [u8; 6] = [
            0xff,
            0xff,
            u8::from(self.id),
            Self::LENGTH,
            Self::INSTRUCTION_VALUE,
            0x00,
        ];
        let sum = u8::from(Checksum::calc(&array[2..5]));
        assert(array@.subrange(2, 5) =~= seq![self.id.byte(), 2u8, 0x01u8] + Seq::<u8>::empty());
        array[5] = sum;
        assert(array@ =~= frame(self.id.byte(), 0x01, Seq::empty()));
        assert(array@.subrange(0, 6) =~= array@);
        array
    }
}

/// The answer to a [`Ping`].
#[derive(Debug, PartialEq, Eq, Clone, Copy, Structural)]
pub struct Pong {
    pub id: ServoID,
}

impl Status for Pong {
    const LENGTH: u8 = 2;

    open spec fn length() -> u8 {
        2
    }

    open spec fn decoded(id: ServoID, parameters: Seq<u8>) -> Self {
        Pong { id: id }
    }

    open spec fn source(&self) -> ServoID {
        self.id
    }

    proof fn lemma_status(id: ServoID, parameters: Seq<u8>) {
        assert(Self::decoded(id, parameters) == Pong { id: id });
        assert(Pong { id: id }.source() == id);
        assert(Self::LENGTH == 2);
    }

    fn deserialize_parameters(id: ServoID, parameters: &[u8]) -> (r: Self) {
        Pong { id: id }
    }
}

/// Writes a value to a register.
pub struct WriteData<T: WriteRegister> {
    pub id: PacketID,
    pub data: T,
}

impl<T: WriteRegister> WriteData<T> {
    /// An instruction that writes `data` to its register on `id`.
    pub fn new(id: PacketID, data: T) -> (r: Self)
        ensures
            r.id == id,
            r.data == data,
    {
        WriteData { id: id, data: data }
    }
}

impl<T: WriteRegister> Instruction for WriteData<T> {
    type Array = [u8; 11];

    const LENGTH: u8 = 3 + T::SIZE;

    const INSTRUCTION_VALUE: u8 = 0x03;

    open spec fn length() -> u8 {
        (3 + T::size()) as u8
    }

    open spec fn opcode() -> u8 {
        0x03
    }

    open spec fn target(&self) -> PacketID {
        self.id
    }

    open spec fn parameters(&self) -> Seq<u8> {
        seq![T::address()] + self.data.encoded().subrange(0, T::size() as int)
    }

    proof fn lemma_instruction(&self) {
        T::lemma_register();
        self.data.lemma_encoded();
    }

    fn serialize(&self) -> (r: [u8; 11]) {
        proof {
            T::lemma_register();
            self.data.lemma_encoded();
        }
        let size: usize = T::SIZE as usize;
        let mut array: [u8; 11] = [
            0xff,
            0xff,
            u8::from(self.id),
            Self::LENGTH,
            Self::INSTRUCTION_VALUE,
            T::ADDRESS,
            0x00,
            0x00,
            0x00,
            0x00,
            0x00,
        ];
        let data = self.data.serialize();
        let ghost head = seq![
            0xffu8,
            0xffu8,
            self.id.byte(),
            (3 + T::size()) as u8,
            0x03u8,
            T::address(),
        ];
        assert(array@.subrange(0, 6) =~= head);
        let mut i: usize = 0;
        while i < size
            invariant
                size == T::size(),
                1 <= size <= 4,
                i <= size,
                data@ == self.data.encoded(),
                array@.subrange(0, 6) == head,
                forall|k: int| 0 <= k < i ==> array@[6 + k] == data@[k],
                forall|k: int| 6 + i <= k < 11 ==> array@[k] == 0,
            decreases size - i,
        {
            array[6 + i] = data[i];
            assert(array@.subrange(0, 6) =~= head);
            i += 1;
        }
        let ghost body = head.subrange(2, 6) + data@.subrange(0, size as int);
        assert(body =~= seq![self.id.byte(), (self.parameters().len() + 2) as u8, 0x03u8]
            + self.parameters());
        assert(array@.subrange(2, 6 + size) =~= body) by {
            assert forall|k: int| 0 <= k < 4 + size implies array@.subrange(2, 6 + size)[k]
                == body[k] by {
                if k < 4 {
                    assert(array@.subrange(0, 6)[k + 2] == head[k + 2]);
                } else {
                    assert(array@[6 + (k - 4)] == data@[k - 4]);
                }
            }
        }
        let sum = u8::from(Checksum::calc(&array[2..6 + size]));
        array[6 + size] = sum;
        assert(array@.subrange(0, Self::length() + 4) =~= frame(
            self.id.byte(),
            0x03,
            self.parameters(),
        )) by {
            let f = frame(self.id.byte(), 0x03, self.parameters());
            assert(f =~= seq![0xffu8, 0xffu8] + body + seq![sum]);
            assert forall|k: int| 0 <= k < 7 + size implies array@.subrange(0, 7 + size)[k]
                == f[k] by {
                if k < 2 {
                } else if k < 6 + size {
                    assert(array@.subrange(2, 6 + size)[k - 2] == body[k - 2]);
                }
            }
        }
        array
    }
}

/// The answer to a [`WriteData`].
#[derive(Debug, PartialEq, Eq, Clone, Copy, Structural)]
pub struct WriteDataResponse {
    pub id: ServoID,
}

impl Status for WriteDataResponse {
    const LENGTH: u8 = 2;

    open spec fn length() -> u8 {
        2
    }

    open spec fn decoded(id: ServoID, parameters: Seq<u8>) -> Self {
        WriteDataResponse { id: id }
    }

    open spec fn source(&self) -> ServoID {
        self.id
    }

    proof fn lemma_status(id: ServoID, parameters: Seq<u8>) {
        assert(Self::decoded(id, parameters) == WriteDataResponse { id: id });
        assert(WriteDataResponse { id: id }.source() == id);
        assert(Self::LENGTH == 2);
    }

    fn deserialize_parameters(id: ServoID, parameters: &[u8]) -> (r: Self) {
        WriteDataResponse { id: id }
    }
}

/// Asks for the value of a register.
pub struct ReadData<T: ReadRegister> {
    pub id: PacketID,
    pub reg: core::marker::PhantomData<T>,
}

impl<T: ReadRegister> ReadData<T> {
    /// An instruction that reads the register `T` of `id`.
    pub fn new(id: PacketID) -> (r: Self)
        ensures
            r.id == id,
    {
        ReadData { id: id, reg: core::marker::PhantomData }
    }
}

impl<T: ReadRegister> Instruction for ReadData<T> {
    type Array = [u8; 8];

    const LENGTH: u8 = 4;

    const INSTRUCTION_VALUE: u8 = 0x02;

    open spec fn length() -> u8 {
        4
    }

    open spec fn opcode() -> u8 {
        0x02
    }

    open spec fn target(&self) -> PacketID {
        self.id
    }

    open spec fn parameters(&self) -> Seq<u8> {
        seq![T::address(), T::size()]
    }

    proof fn lemma_instruction(&self) {
    }

    fn serialize(&self) -> (r: [u8; 8]) {
        proof {
            T::lemma_register();
        }
        let mut array: [u8; 8] = [
            0xff,
            0xff,
            u8::from(self.id),
            Self::LENGTH,
            Self::INSTRUCTION_VALUE,
            T::ADDRESS,
            T::SIZE,
            0x00,
        ];
        let sum = u8::from(Checksum::calc(&array[2..7]));
        assert(array@.subrange(2, 7) =~= seq![self.id.byte(), 4u8, 0x02u8] + self.parameters());
        array[7] = sum;
        assert(array@ =~= frame(self.id.byte(), 0x02, self.parameters()));
        assert(array@.subrange(0, 8) =~= array@);
        array
    }
}

/// The answer to a [`ReadData`]: the value of the register.
#[derive(Debug, PartialEq, Eq)]
pub struct ReadDataResponse<T: ReadRegister> {
    pub id: ServoID,
    pub data: T,
}

impl<T: ReadRegister> Status for ReadDataResponse<T> {
    const LENGTH: u8 = 2 + T::SIZE;

    open spec fn length() -> u8 {
        (2 + T::size()) as u8
    }

    open spec fn decoded(id: ServoID, parameters: Seq<u8>) -> Self {
        ReadDataResponse { id: id, data: T::decoded(parameters) }
    }

    open spec fn source(&self) -> ServoID {
        self.id
    }

    proof fn lemma_status(id: ServoID, parameters: Seq<u8>) {
        T::lemma_register();
        let status = ReadDataResponse::<T> { id: id, data: T::decoded(parameters) };
        assert(Self::decoded(id, parameters) == status);
        assert(status.source() == id);
        assert(Self::LENGTH == 2 + T::SIZE);
    }

    fn deserialize_parameters(id: ServoID, parameters: &[u8]) -> (r: Self) {
        proof {
            T::lemma_register();
        }
        ReadDataResponse { id: id, data: T::deserialize(parameters) }
    }
}

} // verus!
