//! Dynamixel protocol 2: 16-bit register addresses, a CRC-16 and byte
//! stuffing.
//!
//! A frame is `FF FF FD 00 | ID | LEN_L LEN_H | INSTR | PARAM.. | CRC_L
//! CRC_H`. `LEN` counts everything behind itself. So that the marker
//! `FF FF FD` stands at the start of a frame only, the parameters are
//! stuffed: see [`bit_stuffer`]. `LEN` and the CRC are those of the stuffed
//! frame. No instruction byte is `FF`, and no identity is, so stuffing the
//! parameters alone keeps the marker out of all that follows the header.
use vstd::prelude::*;
use self::bit_stuffer::{destuff, lemma_push, lemma_stuff_end, stuff};
use self::crc::crc16;
use self::instruction::{Ping, Pong, Read, ReadResponse, Write, WriteResponse};
use crate::codec::{deserialize_u16, u16_from_bytes};
use crate::pro::M4210S260R;
use crate::protocol1::zeroed;
use crate::{BaudRate, CommunicationError, Interface};

pub use self::deserializer::{
    chunk_fault, header_fault, joined, status_fields, status_of, DeserializationStatus,
    Deserializer, DeserializerState,
};
pub use self::serializer::{to_bytes, Serializer};
pub use crate::protocol1::{
    extends_by_sweep, Error, FormatError, PacketID, ProbeStep, ProcessingError, ServoID,
    ServoInfo, SweepStep, SWEEP_LIMIT,
};

pub mod bit_stuffer;
pub mod crc;
pub mod deserializer;
pub mod instruction;
pub mod serializer;

verus! {

/// One entry of a servo's control table.
pub trait Register {
    /// How many bytes the entry holds.
    const SIZE: u16;

    /// Where the entry starts.
    const ADDRESS: u16;

    /// The value of `SIZE`, for contracts.
    spec fn size() -> u16;

    /// The value of `ADDRESS`, for contracts.
    spec fn address() -> u16;

    /// The constants are what the contracts take them for, and an entry
    /// holds one to four bytes.
    proof fn lemma_register()
        ensures
            Self::SIZE == Self::size(),
            Self::ADDRESS == Self::address(),
            1 <= Self::size() <= 4,
    ;
}

/// A register whose value can be read from the servo.
pub trait ReadRegister: Register + Sized {
    /// The value that the bytes of the register stand for.
    spec fn decoded(data: Seq<u8>) -> Self;

    /// Reads the value from the bytes of the register.
    fn deserialize(data: &[u8]) -> (r: Self)
        requires
            data@.len() == Self::size(),
        ensures
            r == Self::decoded(data@),
    ;
}

/// A register whose value can be written to the servo.
pub trait WriteRegister: Register {
    /// The value as four bytes, of which the first `SIZE` go on the wire.
    spec fn encoded(&self) -> Seq<u8>;

    /// An encoded value has four bytes.
    proof fn lemma_encoded(&self)
        ensures
            self.encoded().len() == 4,
    ;

    /// Writes the value as four bytes.
    fn serialize(&self) -> (r: [u8; 4])
        ensures
            r@ == self.encoded(),
    ;
}

/// A register that can be written and read back.
pub trait ReadWriteRegister: ReadRegister + WriteRegister {
    /// What was written is what is read.
    proof fn lemma_round_trip(&self)
        ensures
            Self::decoded(self.encoded().subrange(0, Self::size() as int)) == *self,
    ;
}

/// Decoding the bytes that a register value is sent as gives the value back.
pub proof fn lemma_register_round_trip<R: ReadWriteRegister>(value: R)
    ensures
        R::decoded(value.encoded().subrange(0, R::size() as int)) == value,
{
    value.lemma_round_trip();
}

/// The most parameters an instruction can carry, so that the length of its
/// frame can be declared in sixteen bits even where every third byte
/// is stuffed.
pub const MAX_PARAMETERS: u16 = 0x7000;

/// The length that the header of a frame declares: how many bytes follow
/// the length itself.
pub open spec fn declared_length(header: Seq<u8>) -> nat {
    (header[5] + 256 * header[6]) as nat
}

/// A frame without its CRC.
pub open spec fn frame_head(id: u8, instruction: u8, parameters: Seq<u8>) -> Seq<u8> {
    let stuffed = stuff(parameters);
    let length = stuffed.len() + 3;
    seq![
        0xffu8,
        0xffu8,
        0xfdu8,
        0x00u8,
        id,
        (length % 256) as u8,
        (length / 256 % 256) as u8,
        instruction,
    ] + stuffed
}

/// The frame that carries `instruction` with `parameters` to the addressee
/// `id`.
pub open spec fn frame(id: u8, instruction: u8, parameters: Seq<u8>) -> Seq<u8> {
    let head = frame_head(id, instruction, parameters);
    head.push((crc16(head) % 256) as u8).push((crc16(head) / 256) as u8)
}

/// Every frame ends in the CRC-16 of all that stands before it, low byte
/// first, and declares the length of what follows the declaration.
pub proof fn lemma_frame_crc(id: u8, instruction: u8, parameters: Seq<u8>)
    requires
        parameters.len() <= MAX_PARAMETERS,
    ensures
        frame(id, instruction, parameters).len() == stuff(parameters).len() + 10,
        declared_length(frame(id, instruction, parameters)) + 7 == frame(
            id,
            instruction,
            parameters,
        ).len(),
        crc16(
            frame(id, instruction, parameters).take(frame(id, instruction, parameters).len() - 2),
        ) == frame(id, instruction, parameters)[frame(id, instruction, parameters).len() - 2]
            + 256 * frame(id, instruction, parameters)[frame(id, instruction, parameters).len()
            - 1],
{
    let head = frame_head(id, instruction, parameters);
    let f = frame(id, instruction, parameters);
    assert(f.take(f.len() - 2) =~= head);
    lemma_stuff_end(parameters);
}

/// All of a frame behind its first four bytes and before its CRC is
/// stuffed: with an instruction byte that is neither `FF` nor `FD` and an
/// addressee that is not `FF`, stuffing that stretch as a whole changes the
/// parameters alone.
pub proof fn lemma_frame_is_stuffed(id: u8, instruction: u8, parameters: Seq<u8>)
    requires
        id != 0xff,
        instruction != 0xff,
        instruction != 0xfd,
    ensures
        frame_head(id, instruction, parameters).skip(4) == stuff(
            frame_head(id, instruction, parameters).subrange(4, 8) + parameters,
        ),
{
    let head = frame_head(id, instruction, parameters);
    let front = head.subrange(4, 8);
    bit_stuffer::lemma_stuff_behind(front, parameters);
    assert(stuff(front) =~= front) by {
        let none = Seq::<u8>::empty();
        let one = none.push(front[0]);
        let two = one.push(front[1]);
        let three = two.push(front[2]);
        assert(stuff(none) =~= none);
        lemma_push(none, front[0]);
        lemma_push(one, front[1]);
        lemma_push(two, front[2]);
        lemma_push(three, front[3]);
        assert(three.push(front[3]) =~= front);
    }
    assert(head.skip(4) =~= front + stuff(parameters));
}

/// Behind the first four bytes of a frame and before its CRC, the marker
/// stands in front of a stuffing byte only, and what is left of the bytes
/// behind the instruction byte when the stuffing is taken out are the
/// parameters.
pub proof fn lemma_frame_hides_marker(id: u8, instruction: u8, parameters: Seq<u8>, i: int)
    requires
        id != 0xff,
        instruction != 0xff,
        instruction != 0xfd,
    ensures
        destuff(
            frame(id, instruction, parameters).subrange(
                8,
                frame(id, instruction, parameters).len() - 2,
            ),
        ) == parameters,
        4 <= i && i + 3 <= frame(id, instruction, parameters).len() - 2 && frame(
            id,
            instruction,
            parameters,
        )[i] == 0xff && frame(id, instruction, parameters)[i + 1] == 0xff && frame(
            id,
            instruction,
            parameters,
        )[i + 2] == 0xfd ==> i + 3 < frame(id, instruction, parameters).len() - 2 && frame(
            id,
            instruction,
            parameters,
        )[i + 3] == 0xfd,
{
    let head = frame_head(id, instruction, parameters);
    let f = frame(id, instruction, parameters);
    let front = head.subrange(4, 8);
    assert(f.subrange(8, f.len() - 2) =~= stuff(parameters));
    bit_stuffer::lemma_destuff_stuff(parameters);
    lemma_frame_is_stuffed(id, instruction, parameters);
    if 4 <= i && i + 3 <= f.len() - 2 && f[i] == 0xff && f[i + 1] == 0xff && f[i + 2] == 0xfd {
        let whole = stuff(front + parameters);
        assert(whole == head.skip(4));
        assert(whole[i - 4] == f[i] && whole[i - 3] == f[i + 1] && whole[i - 2] == f[i + 2]);
        bit_stuffer::lemma_marker_only_before_stuffing(front + parameters, i - 4);
        assert(whole[i - 1] == f[i + 3]);
    }
}

/// An instruction that can be sent to a servo.
pub trait Instruction {
    /// How many parameters the instruction carries.
    const PARAMETERS: u16;

    /// The byte that names the instruction.
    const INSTRUCTION_VALUE: u8;

    /// The value of `PARAMETERS`, for contracts.
    spec fn parameter_count() -> u16;

    /// The value of `INSTRUCTION_VALUE`, for contracts.
    spec fn opcode() -> u8;

    /// Whom the instruction addresses.
    spec fn target(&self) -> PacketID;

    /// The parameters that the instruction carries.
    spec fn parameters(&self) -> Seq<u8>;

    /// The constants are what the contracts take them for, and the
    /// instruction carries as many parameters as it says, and no more than
    /// a frame can hold.
    proof fn lemma_instruction(&self)
        ensures
            Self::PARAMETERS == Self::parameter_count(),
            Self::INSTRUCTION_VALUE == Self::opcode(),
            self.parameters().len() == Self::parameter_count(),
            Self::parameter_count() <= MAX_PARAMETERS,
    ;

    /// Whom the instruction addresses.
    fn id(&self) -> (r: PacketID)
        ensures
            r == self.target(),
    ;

    /// The parameter at `index`.
    fn parameter(&self, index: usize) -> (r: u8)
        requires
            index < Self::parameter_count(),
        ensures
            r == self.parameters()[index as int],
    ;
}

/// The frame of `instruction`.
pub open spec fn frame_of<T: Instruction>(instruction: &T) -> Seq<u8> {
    frame(instruction.target().byte(), T::opcode(), instruction.parameters())
}

/// A status that a servo answers an instruction with.
pub trait Status: Sized {
    /// How many parameters the status carries.
    const PARAMETERS: u16;

    /// The value of `PARAMETERS`, for contracts.
    spec fn parameter_count() -> u16;

    /// The status sent by `id` with `parameters`.
    spec fn decoded(id: ServoID, parameters: Seq<u8>) -> Self;

    /// The servo that sent the status.
    spec fn source(&self) -> ServoID;

    /// The constant is what the contracts take it for, and a status names
    /// the servo it was decoded for.
    proof fn lemma_status(id: ServoID, parameters: Seq<u8>)
        ensures
            Self::PARAMETERS == Self::parameter_count(),
            Self::decoded(id, parameters).source() == id,
    ;

    /// Reads the status sent by `id` from its parameters.
    fn deserialize(id: ServoID, parameters: &[u8]) -> (r: Self)
        requires
            parameters@.len() == Self::parameter_count(),
        ensures
            r == Self::decoded(id, parameters@),
    ;
}

/// Two values of a register that can be read back are written to a servo
/// in two different frames.
pub proof fn lemma_write_frames_differ<T: ReadWriteRegister>(id: PacketID, a: T, b: T)
    requires
        a != b,
    ensures
        frame_of(&Write { id: id, data: a }) != frame_of(&Write { id: id, data: b }),
{
    let first = Write { id: id, data: a };
    let second = Write { id: id, data: b };
    let fa = frame_of(&first);
    let fb = frame_of(&second);
    if fa == fb {
        let ha = frame_head(id.byte(), 0x03, first.parameters());
        let hb = frame_head(id.byte(), 0x03, second.parameters());
        assert(fa.take(fa.len() - 2) =~= ha);
        assert(fb.take(fb.len() - 2) =~= hb);
        assert(ha.subrange(8, ha.len() as int) =~= stuff(first.parameters()));
        assert(hb.subrange(8, hb.len() as int) =~= stuff(second.parameters()));
        bit_stuffer::lemma_stuff_injective(first.parameters(), second.parameters());
        T::lemma_register();
        a.lemma_encoded();
        b.lemma_encoded();
        let size = T::size() as int;
        assert(first.parameters().skip(2) =~= a.encoded().take(size));
        assert(second.parameters().skip(2) =~= b.encoded().take(size));
        assert(a.encoded().subrange(0, size) =~= a.encoded().take(size));
        assert(b.encoded().subrange(0, size) =~= b.encoded().take(size));
        a.lemma_round_trip();
        b.lemma_round_trip();
    }
}

/// What the frame `data` says as the answer of kind `S` that the servo
/// `expected` owes: a status as in [`status_of`], whose sender is then
/// held against `expected`.
pub open spec fn answer_of<S: Status>(expected: ServoID, data: Seq<u8>) -> Result<S, Error> {
    match status_of::<S>(data) {
        Err(e) => Err(e),
        Ok(status) => if data[4] != expected@ {
            Err(Error::Format(FormatError::ID))
        } else {
            Ok(status)
        },
    }
}

/// A status that is accepted as the answer of a servo names that servo as
/// its sender.
pub proof fn lemma_answer_names_target<S: Status>(expected: ServoID, data: Seq<u8>)
    requires
        answer_of::<S>(expected, data) is Ok,
    ensures
        answer_of::<S>(expected, data)->Ok_0.source() == expected,
{
    ServoID::lemma_of_view(data[4], expected);
    S::lemma_status(expected, destuff(data.subrange(9, data.len() - 2)));
}

/// The frame of a status without error that the servo `id` sends with
/// `parameters`: a frame whose instruction byte is `55` and whose first
/// parameter is the error byte.
pub open spec fn status_frame(id: u8, parameters: Seq<u8>) -> Seq<u8> {
    frame(id, 0x55, seq![0u8] + parameters)
}

/// A status without error that a servo frames as the protocol has it is
/// accepted as that servo's answer, and read as it was sent: stuffing, the
/// declared length and the CRC leave no trace.
pub proof fn lemma_status_is_read_back<S: Status>(id: ServoID, parameters: Seq<u8>)
    requires
        id.is_valid(),
        parameters.len() == S::parameter_count(),
        parameters.len() < MAX_PARAMETERS,
    ensures
        answer_of::<S>(id, status_frame(id@, parameters)) == Ok::<S, Error>(
            S::decoded(id, parameters),
        ),
{
    let carried = seq![0u8] + parameters;
    let data = status_frame(id@, parameters);
    lemma_frame_crc(id@, 0x55, carried);
    bit_stuffer::lemma_stuff_behind(seq![0u8], parameters);
    assert(stuff(seq![0u8]) =~= seq![0u8]) by {
        lemma_push(Seq::<u8>::empty(), 0u8);
        assert(Seq::<u8>::empty().push(0u8) =~= seq![0u8]);
        assert(stuff(Seq::<u8>::empty()) =~= Seq::<u8>::empty());
    }
    lemma_stuff_end(parameters);
    bit_stuffer::lemma_destuff_stuff(parameters);
    ServoID::lemma_of_view(0, id);
    assert(data.subrange(9, data.len() - 2) =~= stuff(parameters));
    assert(data.take(9)[8] == 0);
}

/// Reads a status of kind `S` from a whole frame, whoever sent it.
pub fn receive<S: Status>(data: &[u8]) -> (r: Result<S, Error>)
    ensures
        r == status_of::<S>(data@),
        r matches Ok(status) ==> status.source()@ == data@[4],
{
    if data.len() < 9 {
        return Err(Error::Format(FormatError::Length));
    }
    let header: [u8; 9] = [
        data[0],
        data[1],
        data[2],
        data[3],
        data[4],
        data[5],
        data[6],
        data[7],
        data[8],
    ];
    assert(header@ =~= data@.take(9));
    let mut deserializer = Deserializer::<S>::new().deserialize_header(header)?;
    if data.len() - 9 != deserializer.remaining_bytes() {
        return Err(Error::Format(FormatError::Length));
    }
    assert(data@.take(9) + data@.subrange(9, data@.len() as int) =~= data@);
    let _ = deserializer.deserialize(&data[9..data.len()]);
    let r = deserializer.build();
    proof {
        if r is Ok {
            ServoID::lemma_of_view(data@[4], ServoID::of(0));
            S::lemma_status(
                ServoID::of(data@[4]),
                destuff(data@.subrange(9, data@.len() - 2)),
            );
        }
    }
    r
}

/// A status without error that a servo frames as the protocol has it is
/// read as it was sent from its first nine bytes and the rest in chunks,
/// however the rest is cut.
pub proof fn lemma_chunked_status_is_read_back<S: Status>(
    id: ServoID,
    parameters: Seq<u8>,
    chunks: Seq<&[u8]>,
)
    requires
        id.is_valid(),
        parameters.len() == S::parameter_count(),
        parameters.len() < MAX_PARAMETERS,
        joined(chunks) == status_frame(id@, parameters).skip(9),
    ensures
        status_of::<S>(status_frame(id@, parameters).take(9) + joined(chunks)) == Ok::<S, Error>(
            S::decoded(id, parameters),
        ),
{
    let data = status_frame(id@, parameters);
    lemma_status_is_read_back::<S>(id, parameters);
    lemma_frame_crc(id@, 0x55, seq![0u8] + parameters);
    assert(data.take(9) + data.skip(9) =~= data);
}

/// Reads a status of kind `S` from the nine bytes of its header and the
/// chunks of its body. The result is that of [`receive`] on the same
/// bytes in one piece, however the body is cut.
pub fn receive_chunks<S: Status>(header: [u8; 9], chunks: &[&[u8]]) -> (r: Result<S, Error>)
    ensures
        r == status_of::<S>(header@ + joined(chunks@)),
{
    let ghost data = header@ + joined(chunks@);
    assert(data.take(9) =~= header@);
    let mut deserializer = Deserializer::<S>::new().deserialize_header(header)?;
    let _ = deserializer.deserialize_all(chunks);
    deserializer.build()
}

/// Reads the answer of kind `S` that the servo `expected` owes from a
/// whole frame. An answer that is accepted names `expected` as its sender.
pub fn accept<S: Status>(expected: ServoID, data: &[u8]) -> (r: Result<S, Error>)
    ensures
        r == answer_of::<S>(expected, data@),
        r matches Ok(status) ==> status.source() == expected,
{
    match receive::<S>(data) {
        Err(e) => Err(e),
        Ok(status) => {
            if data[4] != expected.number() {
                Err(Error::Format(FormatError::ID))
            } else {
                proof {
                    ServoID::lemma_of_view(0, expected);
                    ServoID::lemma_of_view(0, status.source());
                }
                Ok(status)
            }
        },
    }
}

/// Reads one status of kind `S` from the bus: the nine bytes of the
/// header, and then, where the header is taken, the bytes it declares and
/// no more. What comes back is what [`status_of`] says of the bytes that
/// the bus delivered, together with the sender that they name.
pub fn read_status<I: Interface, S: Status>(interface: &mut I) -> (r: Result<
    (ServoID, S),
    Error,
>)
    ensures
        r matches Ok(answer) ==> answer.1.source() == answer.0,
{
    let mut header: [u8; 9] = [0, 0, 0, 0, 0, 0, 0, 0, 0];
    match interface.read(&mut header) {
        Err(e) => {
            return Err(Error::Communication(e));
        },
        Ok(_) => {},
    }
    let mut deserializer = Deserializer::<S>::new().deserialize_header(header)?;
    let mut body = zeroed(deserializer.remaining_bytes());
    match interface.read(body.as_mut_slice()) {
        Err(e) => {
            return Err(Error::Communication(e));
        },
        Ok(_) => {},
    }
    let _ = deserializer.deserialize(body.as_slice());
    let ghost data = deserializer.received();
    match deserializer.build() {
        Err(e) => Err(e),
        Ok(status) => {
            proof {
                assert(data.take(9) =~= header@);
                assert(data[4] == header@[4]);
                ServoID::lemma_of_view(data[4], ServoID::of(0));
                S::lemma_status(ServoID::of(data[4]), destuff(data.subrange(9, data.len() - 2)));
            }
            match ServoID::checked(header[4]) {
                Some(id) => Ok((id, status)),
                None => Err(Error::Format(FormatError::ID)),
            }
        },
    }
}

/// Sends `instruction` to the servo `id` at the rate `baud` and reads the
/// one status of kind `S` that answers it: sets the rate, drops stale
/// input, writes the frame and reads a status, whose sender must be `id`.
fn exchange<I: Interface, T: Instruction, S: Status>(
    interface: &mut I,
    id: ServoID,
    baud: BaudRate,
    instruction: &T,
) -> (r: Result<S, Error>)
    ensures
        r matches Ok(status) ==> status.source() == id,
{
    match interface.set_baud_rate(baud) {
        Err(e) => {
            return Err(Error::Communication(e));
        },
        Ok(_) => {},
    }
    interface.flush();
    let frame = to_bytes(instruction);
    match interface.write(frame.as_slice()) {
        Err(e) => {
            return Err(Error::Communication(e));
        },
        Ok(_) => {},
    }
    let (sender, status) = read_status::<I, S>(interface)?;
    if sender.number() != id.number() {
        return Err(Error::Format(FormatError::ID));
    }
    proof {
        ServoID::lemma_of_view(0, sender);
        ServoID::lemma_of_view(0, id);
    }
    Ok(status)
}

/// Pings the servo `id` at the rate `baud`; what it answers is returned.
pub fn ping<I: Interface>(interface: &mut I, id: ServoID, baud: BaudRate) -> (r: Result<
    Pong,
    Error,
>)
    ensures
        r matches Ok(pong) ==> pong.id == id,
{
    let ping = Ping::new(PacketID::from(id));
    exchange::<I, Ping, Pong>(interface, id, baud, &ping)
}

/// Writes `register` to the servo `id` at the rate `baud`.
pub fn write<I: Interface, W: WriteRegister>(
    interface: &mut I,
    id: ServoID,
    baud: BaudRate,
    register: W,
) -> (r: Result<(), Error>) {
    let write = Write::new(PacketID::from(id), register);
    match exchange::<I, Write<W>, WriteResponse>(interface, id, baud, &write) {
        Ok(_) => Ok(()),
        Err(e) => Err(e),
    }
}

/// Reads the register `R` of the servo `id` at the rate `baud`.
pub fn read<I: Interface, R: ReadRegister>(interface: &mut I, id: ServoID, baud: BaudRate) -> (r:
    Result<R, Error>) {
    let read = Read::<R>::new(PacketID::from(id));
    match exchange::<I, Read<R>, ReadResponse<R>>(interface, id, baud, &read) {
        Ok(response) => Ok(response.value),
        Err(e) => Err(e),
    }
}

/// The model number register, which every protocol 2 servo has at
/// address 0.
#[derive(Debug, PartialEq, Eq, Clone, Copy, Structural)]
pub struct GenericModelNumber(pub u16);

impl GenericModelNumber {
    /// The model number.
    pub fn value(&self) -> (r: u16)
        ensures
            r == self.0,
    {
        self.0
    }
}

impl Register for GenericModelNumber {
    const SIZE: u16 = 2;

    const ADDRESS: u16 = 0x0000;

    open spec fn size() -> u16 {
        2
    }

    open spec fn address() -> u16 {
        0x0000
    }

    proof fn lemma_register() {
    }
}

impl ReadRegister for GenericModelNumber {
    open spec fn decoded(data: Seq<u8>) -> Self {
        GenericModelNumber(u16_from_bytes(data))
    }

    fn deserialize(data: &[u8]) -> (r: Self) {
        GenericModelNumber(deserialize_u16(data))
    }
}

/// What a sweep does when reading a pong from the bus ended in
/// `outcome`: silence ends the sweep, any other failure of the bus ends it
/// in that failure, a pong has its sender asked for its model number, and
/// anything else is passed over.
pub open spec fn step_after_status(outcome: Result<(ServoID, Pong), Error>) -> SweepStep {
    match outcome {
        Ok((sender, _)) => SweepStep::Probe(sender),
        Err(Error::Communication(CommunicationError::TimedOut)) => SweepStep::Finish,
        Err(Error::Communication(e)) => SweepStep::Fail(e),
        Err(_) => SweepStep::Skip,
    }
}

/// Decides what a sweep does next, as [`step_after_status`] has it.
pub fn after_status(outcome: Result<(ServoID, Pong), Error>) -> (r: SweepStep)
    ensures
        r == step_after_status(outcome),
{
    match outcome {
        Ok((sender, _)) => SweepStep::Probe(sender),
        Err(Error::Communication(CommunicationError::TimedOut)) => SweepStep::Finish,
        Err(Error::Communication(e)) => SweepStep::Fail(e),
        Err(_) => SweepStep::Skip,
    }
}

/// What a sweep makes of the answer of the servo `id`, found at `baud`, to
/// the question for its model number, when reading that answer from the
/// bus ended in `outcome`: silence ends the sweep, any other failure of the
/// bus ends it in that failure, an answer of that servo gives its record,
/// and anything else has the servo passed over.
pub open spec fn step_after_model(
    id: ServoID,
    baud: BaudRate,
    outcome: Result<(ServoID, ReadResponse<GenericModelNumber>), Error>,
) -> ProbeStep {
    match outcome {
        Ok((sender, response)) => if sender@ == id@ {
            ProbeStep::Record(
                ServoInfo { baud_rate: baud, model_number: response.value.0, id: id },
            )
        } else {
            ProbeStep::Skip
        },
        Err(Error::Communication(CommunicationError::TimedOut)) => ProbeStep::Finish,
        Err(Error::Communication(e)) => ProbeStep::Fail(e),
        Err(_) => ProbeStep::Skip,
    }
}

/// Decides what a sweep makes of the answer of a servo, as
/// [`step_after_model`] has it.
pub fn after_model(
    id: ServoID,
    baud: BaudRate,
    outcome: Result<(ServoID, ReadResponse<GenericModelNumber>), Error>,
) -> (r: ProbeStep)
    ensures
        r == step_after_model(id, baud, outcome),
{
    match outcome {
        Ok((sender, response)) => {
            if sender.number() == id.number() {
                ProbeStep::Record(
                    ServoInfo { baud_rate: baud, model_number: response.value.value(), id: id },
                )
            } else {
                ProbeStep::Skip
            }
        },
        Err(Error::Communication(CommunicationError::TimedOut)) => ProbeStep::Finish,
        Err(Error::Communication(e)) => ProbeStep::Fail(e),
        Err(_) => ProbeStep::Skip,
    }
}

/// The pong of a servo, framed as the protocol has it, is read as that
/// servo's and has it asked for its model number; and its answer, framed as
/// the protocol has it, is read as carrying that model number and puts the
/// servo on record. Silence ends the sweep at either point.
pub proof fn lemma_sweep_steps(
    id: ServoID,
    baud: BaudRate,
    model_number: u16,
    fw_version: u8,
)
    requires
        id.is_valid(),
    ensures
        status_of::<Pong>(
            status_frame(id@, crate::codec::u16_to_bytes(model_number).take(2).push(fw_version)),
        ) == Ok::<Pong, Error>(
            Pong { id: id, model_number: model_number, fw_version: fw_version },
        ),
        step_after_status(
            Ok((id, Pong { id: id, model_number: model_number, fw_version: fw_version })),
        ) == SweepStep::Probe(id),
        status_of::<ReadResponse<GenericModelNumber>>(
            status_frame(id@, crate::codec::u16_to_bytes(model_number).take(2)),
        ) == Ok::<ReadResponse<GenericModelNumber>, Error>(
            ReadResponse { id: id, value: GenericModelNumber(model_number) },
        ),
        step_after_model(
            id,
            baud,
            Ok((id, ReadResponse { id: id, value: GenericModelNumber(model_number) })),
        ) == ProbeStep::Record(
            ServoInfo { baud_rate: baud, model_number: model_number, id: id },
        ),
        step_after_status(Err(Error::Communication(CommunicationError::TimedOut)))
            == SweepStep::Finish,
        step_after_model(id, baud, Err(Error::Communication(CommunicationError::TimedOut)))
            == ProbeStep::Finish,
{
    let two = crate::codec::u16_to_bytes(model_number).take(2);
    let three = two.push(fw_version);
    crate::codec::lemma_u16_round_trip(model_number);
    assert(two =~= crate::codec::u16_to_bytes(model_number).subrange(0, 2));
    assert(three.take(2) =~= two);
    lemma_status_is_read_back::<Pong>(id, three);
    lemma_status_is_read_back::<ReadResponse<GenericModelNumber>>(id, two);
    assert(Pong::decoded(id, three) == Pong {
        id: id,
        model_number: model_number,
        fw_version: fw_version,
    });
    assert(ReadResponse::<GenericModelNumber>::decoded(id, two) == ReadResponse::<
        GenericModelNumber,
    > { id: id, value: GenericModelNumber(model_number) });
}

/// Asks the servo `id`, which has just answered a ping at `baud`, for its
/// model number: drops stale input, sends a [`Read`] for the
/// [`GenericModelNumber`] and hands the status read to [`after_model`].
/// Where the question cannot be sent, the sweep is given up in that
/// failure, whatever it is.
fn probe_model<I: Interface>(interface: &mut I, id: ServoID, baud: BaudRate) -> (r: ProbeStep)
    ensures
        r matches ProbeStep::Record(info) ==> info.id == id && info.baud_rate == baud,
{
    interface.flush();
    let read_model = Read::<GenericModelNumber>::new(PacketID::from(id));
    let frame = to_bytes(&read_model);
    match interface.write(frame.as_slice()) {
        Ok(_) => {},
        Err(e) => {
            return ProbeStep::Fail(e);
        },
    }
    let outcome = read_status::<I, ReadResponse<GenericModelNumber>>(interface);
    after_model(id, baud, outcome)
}

/// Sweeps the bus at one rate: pings every servo at once, then reads
/// statuses, each of which [`after_status`] judges, and asks each servo
/// that answered for its model number, which [`after_model`] judges. The
/// servos found are appended to `servos` in the order of their answers.
/// Silence where the sweep reads ends it well; any other failure of a read,
/// and any failure of a write, is its result. That the rate cannot be set
/// does not stop the sweep. No more than [`SWEEP_LIMIT`] pongs are taken,
/// and no more statuses are passed over than the machine can count.
pub fn sweep<I: Interface>(interface: &mut I, baud: BaudRate, servos: &mut Vec<ServoInfo>) -> (r:
    Result<(), CommunicationError>)
    ensures
        extends_by_sweep(final(servos)@, old(servos)@, baud),
{
    let ghost before = servos@;
    assert(before.subrange(0, before.len() as int) =~= before);
    let _ = interface.set_baud_rate(baud);
    interface.flush();
    let ping = Ping::new(PacketID::broadcast());
    let frame = to_bytes(&ping);
    interface.write(frame.as_slice())?;
    let mut probed: usize = 0;
    let mut skipped: usize = 0;
    while probed < SWEEP_LIMIT && skipped < usize::MAX
        invariant
            probed <= SWEEP_LIMIT,
            before == old(servos)@,
            before.len() <= servos@.len() <= before.len() + probed,
            servos@.subrange(0, before.len() as int) == before,
            forall|i: int| before.len() <= i < servos@.len() ==> (#[trigger] servos@[i]).baud_rate
                == baud,
        decreases (SWEEP_LIMIT - probed) + (usize::MAX - skipped),
    {
        let outcome = read_status::<I, Pong>(interface);
        match after_status(outcome) {
            SweepStep::Finish => {
                return Ok(());
            },
            SweepStep::Fail(e) => {
                return Err(e);
            },
            SweepStep::Skip => {
                skipped += 1;
            },
            SweepStep::Probe(id) => {
                probed += 1;
                match probe_model(interface, id, baud) {
                    ProbeStep::Record(info) => {
                        let ghost earlier = servos@;
                        servos.push(info);
                        assert(servos@.subrange(0, before.len() as int) =~= earlier.subrange(
                            0,
                            before.len() as int,
                        ));
                    },
                    ProbeStep::Skip => {},
                    ProbeStep::Finish => {
                        return Ok(());
                    },
                    ProbeStep::Fail(e) => {
                        return Err(e);
                    },
                }
            },
        }
    }
    Ok(())
}

/// Finds the protocol 2 servos on the bus, by a [`sweep`] at one million
/// baud. All servos returned answer at that rate.
pub fn enumerate<I: Interface>(interface: &mut I) -> (r: Result<
    Vec<ServoInfo>,
    CommunicationError,
>)
    ensures
        r matches Ok(servos) ==> extends_by_sweep(servos@, Seq::empty(), BaudRate::Baud1000000),
{
    let mut servos: Vec<ServoInfo> = Vec::new();
    sweep(interface, BaudRate::Baud1000000, &mut servos)?;
    Ok(servos)
}

/// Whether `model_number` is that of a protocol 2 servo that [`connect`]
/// knows.
pub open spec fn is_known_model(model_number: u16) -> bool {
    model_number == 0xA918
}

/// Tells whether [`connect`] knows the model.
pub fn knows_model(model_number: u16) -> (r: bool)
    ensures
        r == is_known_model(model_number),
{
    model_number == 0xA918
}

/// Opens a session with the servo that `info` describes, which must be of
/// a known model: an M42-10-S260-R, model number `A918`. Nothing is sent.
pub fn connect<I: Interface>(_interface: &mut I, info: ServoInfo) -> (r: Result<
    M4210S260R<I>,
    CommunicationError,
>)
    requires
        is_known_model(info.model_number),
    ensures
        *final(_interface) == *old(_interface),
        r matches Ok(servo) && servo.id() == info.id && servo.baud_rate() == info.baud_rate,
{
    Ok(M4210S260R::new(info.id, info.baud_rate))
}

} // verus!
