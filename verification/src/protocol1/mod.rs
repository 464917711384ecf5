//! Dynamixel protocol 1: 8-bit register addresses and an additive checksum.
//!
//! A frame is `FF FF | ID | LEN | INSTR or ERR | PARAM.. | CHK`, where `LEN`
//! counts everything behind itself and `CHK` is the [`checksum`] of the bytes
//! from `ID` up to the last parameter.
use vstd::prelude::*;
use crate::bit::{bit_is_set, get_bit};
use crate::codec::{deserialize_u16, lemma_u16_round_trip, u16_from_bytes, u16_to_bytes};
use crate::dynamixel::ax12::AX12;
use crate::dynamixel::mx28::MX28;
use crate::{BaudRate, CommunicationError, Interface};
use self::checksum::{checksum, Checksum};
use self::instruction::{Ping, Pong, ReadData, ReadDataResponse, WriteData, WriteDataResponse};

pub mod checksum;
pub mod instruction;

verus! {

/// The identity of one servo on the bus: a number from 0 to 253.
#[derive(Debug, PartialEq, Eq, Copy, Clone, Structural)]
pub struct ServoID(u8);

impl ServoID {
    #[verifier::type_invariant]
    spec fn in_range(self) -> bool {
        self.0 <= 253
    }

    /// The number of the servo.
    pub closed spec fn view(self) -> u8 {
        self.0
    }

    /// The identity with number `id`.
    pub closed spec fn of(id: u8) -> ServoID {
        ServoID(id)
    }

    /// Whether the number is one a servo can have.
    pub open spec fn is_valid(self) -> bool {
        self@ <= 253
    }

    /// The identity with number `id`, which must not exceed 253.
    pub fn new(id: u8) -> (r: ServoID)
        requires
            id <= 253,
        ensures
            r == ServoID::of(id),
            r@ == id,
    {
        ServoID(id)
    }

    /// The identity with number `id`, if that number is one a servo can have.
    pub fn checked(id: u8) -> (r: Option<ServoID>)
        ensures
            id <= 253 ==> r == Some(ServoID::of(id)),
            id > 253 ==> r is None,
    {
        if id <= 253 {
            Some(ServoID(id))
        } else {
            None
        }
    }

    /// The number of the servo, which never exceeds 253.
    pub fn number(&self) -> (r: u8)
        ensures
            r == self@,
            self.is_valid(),
    {
        proof {
            use_type_invariant(self);
        }
        self.0
    }

    /// An identity is determined by its number.
    pub proof fn lemma_of_view(id: u8, other: ServoID)
        ensures
            ServoID::of(id)@ == id,
            ServoID::of(other@) == other,
    {
    }
}

impl From<ServoID> for u8 {
    fn from(id: ServoID) -> (r: u8) {
        id.0
    }
}

impl vstd::std_specs::convert::FromSpecImpl<ServoID> for u8 {
    open spec fn obeys_from_spec() -> bool {
        true
    }

    open spec fn from_spec(id: ServoID) -> u8 {
        id@
    }
}

/// The addressee of an instruction: one servo, or all of them.
#[derive(Debug, PartialEq, Eq, Copy, Clone, Structural)]
pub enum PacketID {
    Unicast(ServoID),
    Broadcast,
}

impl PacketID {
    /// The byte that stands for the addressee on the wire; 254 addresses
    /// every servo.
    pub open spec fn byte(self) -> u8 {
        match self {
            PacketID::Unicast(id) => id@,
            PacketID::Broadcast => 254,
        }
    }

    /// Addresses the servo with number `id`, which must not exceed 253.
    pub fn unicast(id: u8) -> (r: PacketID)
        requires
            id <= 253,
        ensures
            r == PacketID::Unicast(ServoID::of(id)),
    {
        PacketID::Unicast(ServoID::new(id))
    }

    /// Addresses every servo.
    pub fn broadcast() -> (r: PacketID)
        ensures
            r == PacketID::Broadcast,
    {
        PacketID::Broadcast
    }
}

impl From<ServoID> for PacketID {
    fn from(id: ServoID) -> (r: PacketID) {
        PacketID::Unicast(id)
    }
}

impl vstd::std_specs::convert::FromSpecImpl<ServoID> for PacketID {
    open spec fn obeys_from_spec() -> bool {
        true
    }

    open spec fn from_spec(id: ServoID) -> PacketID {
        PacketID::Unicast(id)
    }
}

impl From<PacketID> for u8 {
    fn from(id: PacketID) -> (r: u8) {
        match id {
            PacketID::Unicast(x) => u8::from(x),
            PacketID::Broadcast => 254,
        }
    }
}

impl vstd::std_specs::convert::FromSpecImpl<PacketID> for u8 {
    open spec fn obeys_from_spec() -> bool {
        true
    }

    open spec fn from_spec(id: PacketID) -> u8 {
        id.byte()
    }
}

/// Why an answer could not be parsed.
#[derive(Debug, PartialEq, Eq, Clone, Copy, Structural)]
pub enum FormatError {
    /// The answer names a sender other than the servo addressed, or none
    /// at all.
    ID,
    /// The answer does not start with the frame marker.
    Header,
    /// The checksum does not match the bytes received.
    CRC,
    /// The declared length does not fit the answer expected.
    Length,
    /// The error byte has its top bit set.
    InvalidError,
}

/// The error flags a servo reports in its status: a byte that is not zero
/// and has its top bit clear.
#[derive(Debug, PartialEq, Eq, Clone, Copy, Structural)]
pub struct ProcessingError(u8);

impl ProcessingError {
    #[verifier::type_invariant]
    spec fn is_error(self) -> bool {
        0 < self.0 < 128
    }

    /// The flags as the servo sent them.
    pub closed spec fn view(self) -> u8 {
        self.0
    }

    /// The report made of the flags `v`.
    pub closed spec fn of(v: u8) -> ProcessingError {
        ProcessingError(v)
    }

    /// A report is determined by its flags.
    pub proof fn lemma_of_view(v: u8, other: ProcessingError)
        ensures
            ProcessingError::of(v)@ == v,
            ProcessingError::of(other@) == other,
    {
    }

    /// Reads the error byte of a status: no error for zero, a format fault
    /// for a byte with its top bit set, the flags otherwise.
    pub fn decode(v: u8) -> (r: Result<Option<Self>, ()>)
        ensures
            v == 0 ==> r == Ok::<Option<Self>, ()>(None),
            v >= 128 ==> r is Err,
            0 < v < 128 ==> r == Ok::<Option<Self>, ()>(Some(ProcessingError::of(v))),
    {
        if v == 0 {
            Ok(None)
        } else if get_bit(v, 7) {
            assert(bit_is_set(v, 7) == (v >= 128)) by (bit_vector);
            Err(())
        } else {
            assert(bit_is_set(v, 7) == (v >= 128)) by (bit_vector);
            Ok(Some(ProcessingError(v)))
        }
    }

    /// Whether the servo did not understand the instruction (bit 6).
    pub fn instruction_error(&self) -> (r: bool)
        ensures
            r == bit_is_set(self@, 6),
    {
        get_bit(self.0, 6)
    }

    /// Whether the load exceeds what the servo can hold (bit 5).
    pub fn overload_error(&self) -> (r: bool)
        ensures
            r == bit_is_set(self@, 5),
    {
        get_bit(self.0, 5)
    }

    /// Whether the servo found the checksum of the instruction wrong (bit 4).
    pub fn checksum_error(&self) -> (r: bool)
        ensures
            r == bit_is_set(self@, 4),
    {
        get_bit(self.0, 4)
    }

    /// Whether a parameter was out of range (bit 3).
    pub fn range_error(&self) -> (r: bool)
        ensures
            r == bit_is_set(self@, 3),
    {
        get_bit(self.0, 3)
    }

    /// Whether the servo is too hot. This reads bit 3, the bit of
    /// [`range_error`](Self::range_error), and not bit 2.
    pub fn overheating_error(&self) -> (r: bool)
        ensures
            r == bit_is_set(self@, 3),
    {
        get_bit(self.0, 3)
    }

    /// Whether the goal lies outside the angle limits (bit 1).
    pub fn angle_limit_error(&self) -> (r: bool)
        ensures
            r == bit_is_set(self@, 1),
    {
        get_bit(self.0, 1)
    }

    /// Whether the supply voltage is out of range (bit 0).
    pub fn input_voltage_error(&self) -> (r: bool)
        ensures
            r == bit_is_set(self@, 0),
    {
        get_bit(self.0, 0)
    }
}

/// The names of the flags set in `v`, in the order of their bits from the
/// top. Bit 3 goes by two names.
pub open spec fn flag_names(v: u8) -> Seq<&'static str> {
    (if bit_is_set(v, 6) {
        seq!["instruction_error"]
    } else {
        seq![]
    }) + (if bit_is_set(v, 5) {
        seq!["overload_error"]
    } else {
        seq![]
    }) + (if bit_is_set(v, 4) {
        seq!["checksum_error"]
    } else {
        seq![]
    }) + (if bit_is_set(v, 3) {
        seq!["range_error", "overheating_error"]
    } else {
        seq![]
    }) + (if bit_is_set(v, 1) {
        seq!["angle_limit_error"]
    } else {
        seq![]
    }) + (if bit_is_set(v, 0) {
        seq!["input_voltage_error"]
    } else {
        seq![]
    })
}

impl ProcessingError {
    /// The names of the errors reported, as [`flag_names`] lists them.
    pub fn flags(&self) -> (r: Vec<&'static str>)
        ensures
            r@ == flag_names(self@),
    {
        let mut names: Vec<&'static str> = Vec::new();
        if self.instruction_error() {
            names.push("instruction_error");
        }
        if self.overload_error() {
            names.push("overload_error");
        }
        if self.checksum_error() {
            names.push("checksum_error");
        }
        if self.range_error() {
            names.push("range_error");
        }
        if self.overheating_error() {
            names.push("overheating_error");
        }
        if self.angle_limit_error() {
            names.push("angle_limit_error");
        }
        if self.input_voltage_error() {
            names.push("input_voltage_error");
        }
        assert(names@ =~= flag_names(self@));
        names
    }
}

impl From<ProcessingError> for u8 {
    fn from(e: ProcessingError) -> (r: u8) {
        e.0
    }
}

impl vstd::std_specs::convert::FromSpecImpl<ProcessingError> for u8 {
    open spec fn obeys_from_spec() -> bool {
        true
    }

    open spec fn from_spec(e: ProcessingError) -> u8 {
        e@
    }
}

/// Whether any of the flags that [`ProcessingError`] can be asked for is set
/// in `v`: bits 6, 5, 4, 3, 1 and 0.
pub open spec fn any_flag(v: u8) -> bool {
    bit_is_set(v, 6) || bit_is_set(v, 5) || bit_is_set(v, 4) || bit_is_set(v, 3) || bit_is_set(
        v,
        1,
    ) || bit_is_set(v, 0)
}

/// Of an error byte with its top bit clear, no flag that can be asked for is
/// set exactly when the byte is zero. The byte 4 is left out: it has bit 2
/// alone, which no question reads.
pub proof fn lemma_no_flag_iff_zero(v: u8)
    requires
        v < 128,
        v != 4,
    ensures
        !any_flag(v) <==> v == 0,
{
    assert(v < 128 && v != 4 ==> (!(bit_is_set(v, 6) || bit_is_set(v, 5) || bit_is_set(v, 4)
        || bit_is_set(v, 3) || bit_is_set(v, 1) || bit_is_set(v, 0)) <==> v == 0))
        by (bit_vector);
}

/// Why a servo operation failed.
#[derive(Debug, PartialEq, Eq, Clone, Copy, Structural)]
pub enum Error {
    /// The bus failed.
    Communication(CommunicationError),
    /// The answer could not be parsed.
    Format(FormatError),
    /// The servo reported an error.
    Processing(ProcessingError),
}

impl From<Error> for crate::Error {
    fn from(e: Error) -> (r: crate::Error) {
        match e {
            Error::Communication(ce) => crate::Error::Communication(ce),
            Error::Format(_) => crate::Error::Format,
            Error::Processing(_) => crate::Error::Processing,
        }
    }
}

impl vstd::std_specs::convert::FromSpecImpl<Error> for crate::Error {
    open spec fn obeys_from_spec() -> bool {
        true
    }

    open spec fn from_spec(e: Error) -> crate::Error {
        match e {
            Error::Communication(ce) => crate::Error::Communication(ce),
            Error::Format(_) => crate::Error::Format,
            Error::Processing(_) => crate::Error::Processing,
        }
    }
}

impl From<CommunicationError> for Error {
    fn from(e: CommunicationError) -> (r: Error) {
        Error::Communication(e)
    }
}

impl vstd::std_specs::convert::FromSpecImpl<CommunicationError> for Error {
    open spec fn obeys_from_spec() -> bool {
        true
    }

    open spec fn from_spec(e: CommunicationError) -> Error {
        Error::Communication(e)
    }
}

/// One entry of a servo's control table.
pub trait Register {
    /// How many bytes the entry holds.
    const SIZE: u8;

    /// Where the entry starts.
    const ADDRESS: u8;

    /// The value of `SIZE`, for contracts.
    spec fn size() -> u8;

    /// The value of `ADDRESS`, for contracts.
    spec fn address() -> u8;

    /// The constants are what the contracts take them for, and an entry
    /// holds one to four bytes.
    proof fn lemma_register()
        ensures
            Self::SIZE == Self::size(),
            Self::ADDRESS == Self::address(),
            1 <= Self::size() <= 4,
    ;
}

/// A register whose value can be read from the servo.
pub trait ReadRegister: Register + Sized {
    /// The value that the bytes of the register stand for.
    spec fn decoded(data: Seq<u8>) -> Self;

    /// Reads the value from the bytes of the register.
    fn deserialize(data: &[u8]) -> (r: Self)
        requires
            data@.len() == Self::size(),
        ensures
            r == Self::decoded(data@),
    ;
}

/// A register whose value can be written to the servo.
pub trait WriteRegister: Register {
    /// The value as four bytes, of which the first `SIZE` go on the wire.
    spec fn encoded(&self) -> Seq<u8>;

    /// An encoded value has four bytes.
    proof fn lemma_encoded(&self)
        ensures
            self.encoded().len() == 4,
    ;

    /// Writes the value as four bytes.
    fn serialize(&self) -> (r: [u8; 4])
        ensures
            r@ == self.encoded(),
    ;
}

/// A register that can be written and read back.
pub trait ReadWriteRegister: ReadRegister + WriteRegister {
    /// What was written is what is read.
    proof fn lemma_round_trip(&self)
        ensures
            Self::decoded(self.encoded().subrange(0, Self::size() as int)) == *self,
    ;
}

/// Decoding the bytes that a register value is sent as gives the value back.
pub proof fn lemma_register_round_trip<R: ReadWriteRegister>(value: R)
    ensures
        R::decoded(value.encoded().subrange(0, R::size() as int)) == value,
{
    value.lemma_round_trip();
}

/// The frame that carries `instruction` with `parameters` to the addressee
/// `id`, or a status from the servo `id` with error byte `instruction`.
pub open spec fn frame(id: u8, instruction: u8, parameters: Seq<u8>) -> Seq<u8> {
    let body = seq![id, (parameters.len() + 2) as u8, instruction] + parameters;
    seq![0xffu8, 0xffu8] + body + seq![checksum(body)]
}

/// What is wrong with the framing of `data`, if anything: the marker, then
/// the declared length against the bytes at hand, then the checksum.
pub open spec fn frame_fault(data: Seq<u8>) -> Option<FormatError> {
    if data.len() < 4 {
        Some(FormatError::Length)
    } else if data[0] != 0xff || data[1] != 0xff {
        Some(FormatError::Header)
    } else if data[3] < 2 || data.len() != data[3] + 4 {
        Some(FormatError::Length)
    } else if data.last() != checksum(data.subrange(2, data.len() - 1)) {
        Some(FormatError::CRC)
    } else {
        None
    }
}

/// Every frame ends in the checksum of its bytes from the third up to the
/// last but one, and so passes the framing check.
pub proof fn lemma_frame_checksum(id: u8, instruction: u8, parameters: Seq<u8>)
    requires
        parameters.len() <= 253,
    ensures
        frame(id, instruction, parameters).len() == parameters.len() + 6,
        frame(id, instruction, parameters).last() == checksum(
            frame(id, instruction, parameters).subrange(
                2,
                frame(id, instruction, parameters).len() - 1,
            ),
        ),
        frame_fault(frame(id, instruction, parameters)) is None,
{
    let body = seq![id, (parameters.len() + 2) as u8, instruction] + parameters;
    let f = frame(id, instruction, parameters);
    assert(f.subrange(2, f.len() - 1) =~= body);
}

/// Checks the framing of a received status.
pub fn validate_frame(data: &[u8]) -> (r: Result<(), FormatError>)
    ensures
        match frame_fault(data@) {
            Some(fault) => r == Err::<(), FormatError>(fault),
            None => r is Ok,
        },
{
    let n = data.len();
    if n < 4 {
        return Err(FormatError::Length);
    }
    if data[0] != 0xff || data[1] != 0xff {
        return Err(FormatError::Header);
    }
    let length = data[3] as usize;
    if length < 2 || n - 4 != length {
        return Err(FormatError::Length);
    }
    let sum = Checksum::calc(&data[2..n - 1]);
    if data[n - 1] != sum.value() {
        return Err(FormatError::CRC);
    }
    Ok(())
}

/// An instruction that can be sent to a servo.
pub trait Instruction {
    /// The buffer that holds the frame.
    type Array: View<V = Seq<u8>>;

    /// The length that the frame declares: its parameters and two more.
    const LENGTH: u8;

    /// The byte that names the instruction.
    const INSTRUCTION_VALUE: u8;

    /// The value of `LENGTH`, for contracts.
    spec fn length() -> u8;

    /// The value of `INSTRUCTION_VALUE`, for contracts.
    spec fn opcode() -> u8;

    /// Whom the instruction addresses.
    spec fn target(&self) -> PacketID;

    /// The parameters that the instruction carries.
    spec fn parameters(&self) -> Seq<u8>;

    /// The constants are what the contracts take them for, and the
    /// declared length counts the parameters and two more bytes.
    proof fn lemma_instruction(&self)
        ensures
            Self::LENGTH == Self::length(),
            Self::INSTRUCTION_VALUE == Self::opcode(),
            self.parameters().len() + 2 == Self::length(),
    ;

    /// Builds the frame. It fills the front of the buffer; what is behind
    /// it is zero.
    fn serialize(&self) -> (r: Self::Array)
        ensures
            r@.len() >= Self::length() + 4,
            r@.subrange(0, Self::length() + 4) == frame(
                self.target().byte(),
                Self::opcode(),
                self.parameters(),
            ),
            forall|i: int| Self::length() + 4 <= i < r@.len() ==> r@[i] == 0,
    ;
}

/// The sender and the parameters of the status in `data`, which is to
/// declare the length `length`. The framing is judged first, as
/// [`frame_fault`] has it; then the error byte, then the declared length,
/// then the sender.
pub open spec fn status_fields(data: Seq<u8>, length: u8) -> Result<(ServoID, Seq<u8>), Error> {
    match frame_fault(data) {
        Some(fault) => Err(Error::Format(fault)),
        None => if data[4] >= 128 {
            Err(Error::Format(FormatError::InvalidError))
        } else if data[4] != 0 {
            Err(Error::Processing(ProcessingError::of(data[4])))
        } else if data[3] != length {
            Err(Error::Format(FormatError::Length))
        } else if data[2] > 253 {
            Err(Error::Format(FormatError::ID))
        } else {
            Ok((ServoID::of(data[2]), data.subrange(5, data.len() - 1)))
        },
    }
}

/// A status that a servo answers an instruction with.
pub trait Status: Sized {
    /// The length that the frame declares: its parameters and two more.
    const LENGTH: u8;

    /// The value of `LENGTH`, for contracts.
    spec fn length() -> u8;

    /// The status sent by `id` with `parameters`.
    spec fn decoded(id: ServoID, parameters: Seq<u8>) -> Self;

    /// The servo that sent the status.
    spec fn source(&self) -> ServoID;

    /// The constant is what the contracts take it for; the declared length
    /// counts the error byte and the checksum; and a status names the servo
    /// it was decoded for.
    proof fn lemma_status(id: ServoID, parameters: Seq<u8>)
        ensures
            Self::LENGTH == Self::length(),
            Self::length() >= 2,
            Self::decoded(id, parameters).source() == id,
    ;

    /// Reads the parameters of a status sent by `id`.
    fn deserialize_parameters(id: ServoID, parameters: &[u8]) -> (r: Self)
        requires
            parameters@.len() == Self::length() - 2,
        ensures
            r == Self::decoded(id, parameters@),
    ;

    /// Reads a status from the bytes of its frame, as [`status_fields`]
    /// judges them: a frame with a wrong marker, length or checksum is
    /// turned down before anything in it is read.
    fn deserialize(data: &[u8]) -> (r: Result<Self, Error>)
        ensures
            r == match status_fields(data@, Self::length()) {
                Ok((id, parameters)) => Ok::<Self, Error>(Self::decoded(id, parameters)),
                Err(e) => Err(e),
            },
    {
        match validate_frame(data) {
            Err(fault) => {
                return Err(Error::Format(fault));
            },
            Ok(_) => {},
        }
        match ProcessingError::decode(data[4]) {
            Err(_) => {
                return Err(Error::Format(FormatError::InvalidError));
            },
            Ok(Some(error)) => {
                return Err(Error::Processing(error));
            },
            Ok(None) => {},
        }
        proof {
            Self::lemma_status(ServoID::of(0), Seq::empty());
        }
        let length = data[3];
        if length != Self::LENGTH {
            return Err(Error::Format(FormatError::Length));
        }
        match ServoID::checked(data[2]) {
            None => Err(Error::Format(FormatError::ID)),
            Some(id) => Ok(Self::deserialize_parameters(id, &data[5..data.len() - 1])),
        }
    }
}

/// What the bytes `data` say as a status of kind `S`.
pub open spec fn status_of<S: Status>(data: Seq<u8>) -> Result<S, Error> {
    match status_fields(data, S::length()) {
        Ok((id, parameters)) => Ok(S::decoded(id, parameters)),
        Err(e) => Err(e),
    }
}

/// What the bytes `data` say as the answer of kind `S` that the servo
/// `expected` owes: a status as in [`status_of`], whose sender is then
/// held against `expected`.
pub open spec fn answer_of<S: Status>(expected: ServoID, data: Seq<u8>) -> Result<S, Error> {
    match status_of::<S>(data) {
        Err(e) => Err(e),
        Ok(status) => if data[2] != expected@ {
            Err(Error::Format(FormatError::ID))
        } else {
            Ok(status)
        },
    }
}

/// A status that is accepted as the answer of a servo names that servo as
/// its sender.
pub proof fn lemma_answer_names_target<S: Status>(expected: ServoID, data: Seq<u8>)
    requires
        answer_of::<S>(expected, data) is Ok,
    ensures
        answer_of::<S>(expected, data)->Ok_0.source() == expected,
{
    ServoID::lemma_of_view(data[2], expected);
    S::lemma_status(expected, data.subrange(5, data.len() - 1));
}

/// A status without error that a servo frames as the protocol has it is
/// accepted as that servo's answer, and read as it was sent.
pub proof fn lemma_status_is_read_back<S: Status>(id: ServoID, parameters: Seq<u8>)
    requires
        id.is_valid(),
        parameters.len() + 2 == S::length(),
    ensures
        answer_of::<S>(id, frame(id@, 0, parameters)) == Ok::<S, Error>(
            S::decoded(id, parameters),
        ),
{
    let data = frame(id@, 0, parameters);
    lemma_frame_checksum(id@, 0, parameters);
    ServoID::lemma_of_view(0, id);
    assert(data.subrange(5, data.len() - 1) =~= parameters);
}

/// Reads a status of kind `S` from the bytes received, whoever sent it.
pub fn receive<S: Status>(data: &[u8]) -> (r: Result<S, Error>)
    ensures
        r == status_of::<S>(data@),
        r matches Ok(status) ==> status.source()@ == data@[2],
{
    let r = S::deserialize(data);
    proof {
        if r is Ok {
            ServoID::lemma_of_view(data@[2], ServoID::of(0));
            S::lemma_status(ServoID::of(data@[2]), data@.subrange(5, data@.len() - 1));
        }
    }
    r
}

/// Reads the answer of kind `S` that the servo `expected` owes from the
/// bytes received. An answer that is accepted names `expected` as its
/// sender.
pub fn accept<S: Status>(expected: ServoID, data: &[u8]) -> (r: Result<S, Error>)
    ensures
        r == answer_of::<S>(expected, data@),
        r matches Ok(status) ==> status.source() == expected,
{
    match receive::<S>(data) {
        Err(e) => Err(e),
        Ok(status) => {
            if data[2] != expected.number() {
                Err(Error::Format(FormatError::ID))
            } else {
                proof {
                    ServoID::lemma_of_view(0, expected);
                    ServoID::lemma_of_view(0, status.source());
                }
                Ok(status)
            }
        },
    }
}

/// The model number register, which every protocol 1 servo has at
/// address 0.
#[derive(Debug, PartialEq, Eq, Clone, Copy, Structural)]
pub struct GenericModelNumber(pub u16);

impl GenericModelNumber {
    /// The model number.
    pub fn value(&self) -> (r: u16)
        ensures
            r == self.0,
    {
        self.0
    }
}

impl Register for GenericModelNumber {
    const SIZE: u8 = 2;

    const ADDRESS: u8 = 0x00;

    open spec fn size() -> u8 {
        2
    }

    open spec fn address() -> u8 {
        0x00
    }

    proof fn lemma_register() {
    }
}

impl ReadRegister for GenericModelNumber {
    open spec fn decoded(data: Seq<u8>) -> Self {
        GenericModelNumber(u16_from_bytes(data))
    }

    fn deserialize(data: &[u8]) -> (r: Self) {
        GenericModelNumber(deserialize_u16(data))
    }
}

/// All that is needed to connect to a servo found on the bus.
#[derive(Debug, PartialEq, Eq, Clone, Copy, Structural)]
pub struct ServoInfo {
    pub baud_rate: BaudRate,
    pub model_number: u16,
    pub id: ServoID,
}

/// A buffer of `n` zero bytes.
pub(crate) fn zeroed(n: usize) -> (r: Vec<u8>)
    ensures
        r@.len() == n,
{
    let mut buffer: Vec<u8> = Vec::new();
    let mut i: usize = 0;
    while i < n
        invariant
            i <= n,
            buffer@.len() == i,
        decreases n - i,
    {
        buffer.push(0);
        i += 1;
    }
    buffer
}

/// How many bytes follow the first four bytes of a status, which must
/// start with the frame marker: as many as the fourth of them declares.
pub fn body_length(header: &[u8; 4]) -> (r: Result<usize, FormatError>)
    ensures
        r == if header@[0] != 0xff || header@[1] != 0xff {
            Err::<usize, FormatError>(FormatError::Header)
        } else {
            Ok::<usize, FormatError>(header@[3] as usize)
        },
{
    if header[0] != 0xff || header[1] != 0xff {
        Err(FormatError::Header)
    } else {
        Ok(header[3] as usize)
    }
}

/// Reads one status from the bus: four bytes, and then as many as
/// [`body_length`] finds declared in them.
///
/// What comes back is what the bus delivered; it starts with the marker and
/// is as long as it declares.
pub fn read_response<I: Interface>(interface: &mut I) -> (r: Result<Vec<u8>, Error>)
    ensures
        r matches Ok(data) ==> {
            &&& data@.len() >= 4
            &&& data@[0] == 0xff
            &&& data@[1] == 0xff
            &&& data@.len() == data@[3] + 4
        },
        r matches Err(e) ==> e is Communication || e == Error::Format(FormatError::Header),
{
    let mut header: [u8; 4] = [0, 0, 0, 0];
    match interface.read(&mut header) {
        Err(e) => {
            return Err(Error::Communication(e));
        },
        Ok(_) => {},
    }
    let length = match body_length(&header) {
        Ok(length) => length,
        Err(fault) => {
            return Err(Error::Format(fault));
        },
    };
    let mut body = zeroed(length);
    match interface.read(body.as_mut_slice()) {
        Err(e) => {
            return Err(Error::Communication(e));
        },
        Ok(_) => {},
    }
    let mut data: Vec<u8> = Vec::new();
    data.push(header[0]);
    data.push(header[1]);
    data.push(header[2]);
    data.push(header[3]);
    let mut i: usize = 0;
    while i < length
        invariant
            i <= length,
            body@.len() == length,
            data@.len() == 4 + i,
            data@[0] == 0xff,
            data@[1] == 0xff,
            data@[3] == length,
        decreases length - i,
    {
        data.push(body[i]);
        i += 1;
    }
    Ok(data)
}

/// Pings the servo `id` at the rate `baud`: sets the rate, drops stale
/// input, sends a [`Ping`] and reads one status, which [`accept`] judges.
pub fn ping<I: Interface>(interface: &mut I, id: ServoID, baud: BaudRate) -> (r: Result<
    (),
    Error,
>) {
    match interface.set_baud_rate(baud) {
        Err(e) => {
            return Err(Error::Communication(e));
        },
        Ok(_) => {},
    }
    interface.flush();
    let ping = Ping::new(PacketID::from(id));
    let frame = ping.serialize();
    match interface.write(&frame) {
        Err(e) => {
            return Err(Error::Communication(e));
        },
        Ok(_) => {},
    }
    let data = read_response(interface)?;
    match accept::<Pong>(id, data.as_slice()) {
        Err(e) => Err(e),
        Ok(_) => Ok(()),
    }
}

/// Writes `register` to the servo `id` at the rate `baud`: sets the rate,
/// drops stale input, sends a [`WriteData`] and reads one status, which
/// [`accept`] judges.
pub fn write_data<I: Interface, W: WriteRegister>(
    interface: &mut I,
    id: ServoID,
    baud: BaudRate,
    register: W,
) -> (r: Result<(), Error>) {
    match interface.set_baud_rate(baud) {
        Err(e) => {
            return Err(Error::Communication(e));
        },
        Ok(_) => {},
    }
    interface.flush();
    let write = WriteData::new(PacketID::from(id), register);
    let frame = write.serialize();
    proof {
        W::lemma_register();
        write.lemma_instruction();
    }
    let used: usize = W::SIZE as usize + 7;
    match interface.write(&frame[0..used]) {
        Err(e) => {
            return Err(Error::Communication(e));
        },
        Ok(_) => {},
    }
    let data = read_response(interface)?;
    match accept::<WriteDataResponse>(id, data.as_slice()) {
        Err(e) => Err(e),
        Ok(_) => Ok(()),
    }
}

/// Reads the register `R` of the servo `id` at the rate `baud`: sets the
/// rate, drops stale input, sends a [`ReadData`] and reads one status, which
/// [`accept`] judges.
pub fn read_data<I: Interface, R: ReadRegister>(
    interface: &mut I,
    id: ServoID,
    baud: BaudRate,
) -> (r: Result<R, Error>) {
    match interface.set_baud_rate(baud) {
        Err(e) => {
            return Err(Error::Communication(e));
        },
        Ok(_) => {},
    }
    interface.flush();
    let read = ReadData::<R>::new(PacketID::from(id));
    let frame = read.serialize();
    match interface.write(&frame) {
        Err(e) => {
            return Err(Error::Communication(e));
        },
        Ok(_) => {},
    }
    let data = read_response(interface)?;
    match accept::<ReadDataResponse<R>>(id, data.as_slice()) {
        Err(e) => Err(e),
        Ok(response) => Ok(response.data),
    }
}

/// How many pongs one sweep takes at most, in either protocol: one for
/// each number a servo can have. Statuses that are passed over are not
/// counted.
pub const SWEEP_LIMIT: usize = 254;

/// Whether `found` is `before` with servos appended that all answer at
/// `baud`, at most as many as one sweep waits for.
pub open spec fn extends_by_sweep(found: Seq<ServoInfo>, before: Seq<ServoInfo>, baud: BaudRate) -> bool {
    &&& before.len() <= found.len() <= before.len() + SWEEP_LIMIT
    &&& found.subrange(0, before.len() as int) == before
    &&& forall|i: int| before.len() <= i < found.len() ==> (#[trigger] found[i]).baud_rate == baud
}

/// What a sweep does once it has asked the bus for a status.
#[derive(Debug, PartialEq, Eq, Clone, Copy, Structural)]
pub enum SweepStep {
    /// A servo has answered: it is asked for its model number.
    Probe(ServoID),
    /// What came is no valid pong: it is passed over.
    Skip,
    /// The bus is silent: the sweep is over.
    Finish,
    /// The bus failed: the sweep is given up.
    Fail(CommunicationError),
}

/// What a sweep does when reading six bytes from the bus ended in
/// `outcome` and left `received`: silence ends the sweep, any other failure
/// of the bus ends it in that failure, and what was read is a pong or is
/// passed over.
pub open spec fn step_after_status(
    outcome: Result<(), CommunicationError>,
    received: Seq<u8>,
) -> SweepStep {
    match outcome {
        Err(CommunicationError::TimedOut) => SweepStep::Finish,
        Err(e) => SweepStep::Fail(e),
        Ok(_) => match status_of::<Pong>(received) {
            Ok(pong) => SweepStep::Probe(pong.id),
            Err(_) => SweepStep::Skip,
        },
    }
}

/// Decides what a sweep does next, as [`step_after_status`] has it.
pub fn after_status(outcome: Result<(), CommunicationError>, received: &[u8; 6]) -> (r: SweepStep)
    ensures
        r == step_after_status(outcome, received@),
{
    match outcome {
        Err(CommunicationError::TimedOut) => SweepStep::Finish,
        Err(e) => SweepStep::Fail(e),
        Ok(_) => match receive::<Pong>(received) {
            Ok(pong) => SweepStep::Probe(pong.id),
            Err(_) => SweepStep::Skip,
        },
    }
}

/// What a sweep does once it has asked a servo for its model number.
#[derive(Debug, PartialEq, Eq, Clone, Copy, Structural)]
pub enum ProbeStep {
    /// The servo has told its model: it is put on record.
    Record(ServoInfo),
    /// What came is no valid answer of that servo: the servo is passed
    /// over.
    Skip,
    /// The bus stayed silent when the answer was read: the sweep is over,
    /// and the servo is not put on record.
    Finish,
    /// The bus failed: the sweep is given up.
    Fail(CommunicationError),
}

/// What a sweep makes of the answer of the servo `id`, found at `baud`, to
/// the question for its model number, when reading eight bytes from the
/// bus ended in `outcome` and left `received`: silence ends the sweep, any
/// other failure of the bus ends it in that failure, a valid answer of that
/// servo gives its record, and anything else has the servo passed over.
pub open spec fn step_after_model(
    id: ServoID,
    baud: BaudRate,
    outcome: Result<(), CommunicationError>,
    received: Seq<u8>,
) -> ProbeStep {
    match outcome {
        Err(CommunicationError::TimedOut) => ProbeStep::Finish,
        Err(e) => ProbeStep::Fail(e),
        Ok(_) => match answer_of::<ReadDataResponse<GenericModelNumber>>(id, received) {
            Ok(response) => ProbeStep::Record(
                ServoInfo { baud_rate: baud, model_number: response.data.0, id: id },
            ),
            Err(_) => ProbeStep::Skip,
        },
    }
}

/// Decides what a sweep makes of the answer of a servo, as
/// [`step_after_model`] has it.
pub fn after_model(
    id: ServoID,
    baud: BaudRate,
    outcome: Result<(), CommunicationError>,
    received: &[u8; 8],
) -> (r: ProbeStep)
    ensures
        r == step_after_model(id, baud, outcome, received@),
{
    match outcome {
        Err(CommunicationError::TimedOut) => ProbeStep::Finish,
        Err(e) => ProbeStep::Fail(e),
        Ok(_) => match accept::<ReadDataResponse<GenericModelNumber>>(id, received) {
            Ok(response) => ProbeStep::Record(
                ServoInfo { baud_rate: baud, model_number: response.data.value(), id: id },
            ),
            Err(_) => ProbeStep::Skip,
        },
    }
}

/// The pong of a servo, framed as the protocol has it, has that servo asked
/// for its model number; and its answer, framed as the protocol has it,
/// puts the servo on record with the model number it carries. Silence ends
/// the sweep at either point.
pub proof fn lemma_sweep_steps(id: ServoID, baud: BaudRate, model_number: u16, stale: Seq<u8>)
    requires
        id.is_valid(),
    ensures
        step_after_status(Ok(()), frame(id@, 0, Seq::empty())) == SweepStep::Probe(id),
        step_after_model(
            id,
            baud,
            Ok(()),
            frame(id@, 0, u16_to_bytes(model_number).take(2)),
        ) == ProbeStep::Record(
            ServoInfo { baud_rate: baud, model_number: model_number, id: id },
        ),
        step_after_status(Err(CommunicationError::TimedOut), stale) == SweepStep::Finish,
        step_after_model(id, baud, Err(CommunicationError::TimedOut), stale)
            == ProbeStep::Finish,
{
    lemma_status_is_read_back::<Pong>(id, Seq::empty());
    let carried = u16_to_bytes(model_number).take(2);
    lemma_status_is_read_back::<ReadDataResponse<GenericModelNumber>>(id, carried);
    lemma_u16_round_trip(model_number);
    assert(carried =~= u16_to_bytes(model_number).subrange(0, 2));
    assert(Pong::decoded(id, Seq::empty()).id == id);
    assert(ReadDataResponse::<GenericModelNumber>::decoded(id, carried).data.0 == model_number);
}

/// Asks the servo `id`, which has just answered a ping at `baud`, for its
/// model number: drops stale input, sends a [`ReadData`] for the
/// [`GenericModelNumber`] and hands the eight bytes read to
/// [`after_model`]. Where the question cannot be sent, the sweep is given
/// up in that failure, whatever it is.
fn probe_model<I: Interface>(interface: &mut I, id: ServoID, baud: BaudRate) -> (r: ProbeStep)
    ensures
        r matches ProbeStep::Record(info) ==> info.id == id && info.baud_rate == baud,
{
    interface.flush();
    let read_model = ReadData::<GenericModelNumber>::new(PacketID::from(id));
    let frame = read_model.serialize();
    match interface.write(&frame) {
        Ok(_) => {},
        Err(e) => {
            return ProbeStep::Fail(e);
        },
    }
    let mut received: [u8; 8] = [0, 0, 0, 0, 0, 0, 0, 0];
    let outcome = interface.read(&mut received);
    after_model(id, baud, outcome, &received)
}

/// Sweeps the bus at one rate: pings every servo at once, then reads
/// six-byte statuses, each of which [`after_status`] judges, and asks each
/// servo that answered for its model number, which [`after_model`] judges.
/// The servos found are appended to `servos` in the order of their answers.
/// Silence where the sweep reads ends it well; any other failure of a read,
/// and any failure of a write, is its result. That the rate cannot be set
/// does not stop the sweep. No more than [`SWEEP_LIMIT`] pongs are taken,
/// and no more statuses are passed over than the machine can count.
pub fn sweep<I: Interface>(interface: &mut I, baud: BaudRate, servos: &mut Vec<ServoInfo>) -> (r:
    Result<(), CommunicationError>)
    ensures
        extends_by_sweep(final(servos)@, old(servos)@, baud),
{
    let ghost before = servos@;
    assert(before.subrange(0, before.len() as int) =~= before);
    let _ = interface.set_baud_rate(baud);
    interface.flush();
    let ping = Ping::new(PacketID::broadcast());
    let frame = ping.serialize();
    interface.write(&frame)?;
    let mut probed: usize = 0;
    let mut skipped: usize = 0;
    while probed < SWEEP_LIMIT && skipped < usize::MAX
        invariant
            probed <= SWEEP_LIMIT,
            before == old(servos)@,
            before.len() <= servos@.len() <= before.len() + probed,
            servos@.subrange(0, before.len() as int) == before,
            forall|i: int| before.len() <= i < servos@.len() ==> (#[trigger] servos@[i]).baud_rate
                == baud,
        decreases (SWEEP_LIMIT - probed) + (usize::MAX - skipped),
    {
        let mut received: [u8; 6] = [0, 0, 0, 0, 0, 0];
        let outcome = interface.read(&mut received);
        match after_status(outcome, &received) {
            SweepStep::Finish => {
                return Ok(());
            },
            SweepStep::Fail(e) => {
                return Err(e);
            },
            SweepStep::Skip => {
                skipped += 1;
            },
            SweepStep::Probe(id) => {
                probed += 1;
                match probe_model(interface, id, baud) {
                    ProbeStep::Record(info) => {
                        let ghost earlier = servos@;
                        servos.push(info);
                        assert(servos@.subrange(0, before.len() as int) =~= earlier.subrange(
                            0,
                            before.len() as int,
                        ));
                    },
                    ProbeStep::Skip => {},
                    ProbeStep::Finish => {
                        return Ok(());
                    },
                    ProbeStep::Fail(e) => {
                        return Err(e);
                    },
                }
            },
        }
    }
    Ok(())
}

/// Finds the protocol 1 servos on the bus, by a [`sweep`] at one million
/// baud. All servos returned answer at that rate.
pub fn enumerate<I: Interface>(interface: &mut I) -> (r: Result<
    Vec<ServoInfo>,
    CommunicationError,
>)
    ensures
        r matches Ok(servos) ==> extends_by_sweep(servos@, Seq::empty(), BaudRate::Baud1000000),
{
    let mut servos: Vec<ServoInfo> = Vec::new();
    sweep(interface, BaudRate::Baud1000000, &mut servos)?;
    Ok(servos)
}

/// A session with a protocol 1 servo of a known model.
pub enum Connection<I: Interface> {
    MX28(MX28<I>),
    AX12(AX12<I>),
}

impl<I: Interface> Connection<I> {
    /// The servo that the session talks to.
    pub open spec fn id(&self) -> ServoID {
        match self {
            Connection::MX28(servo) => servo.id(),
            Connection::AX12(servo) => servo.id(),
        }
    }

    /// The rate that the session talks at.
    pub open spec fn baud_rate(&self) -> BaudRate {
        match self {
            Connection::MX28(servo) => servo.baud_rate(),
            Connection::AX12(servo) => servo.baud_rate(),
        }
    }
}

/// Whether `model_number` is that of a protocol 1 servo that [`connect`]
/// knows.
pub open spec fn is_known_model(model_number: u16) -> bool {
    model_number == 0x001D || model_number == 12
}

/// Tells whether [`connect`] knows the model.
pub fn knows_model(model_number: u16) -> (r: bool)
    ensures
        r == is_known_model(model_number),
{
    model_number == 0x001D || model_number == 12
}

/// Opens a session with the servo that `info` describes, which must be of
/// a known model: an MX-28 for model number 29, an AX-12 for 12. Nothing is
/// sent.
pub fn connect<I: Interface>(_interface: &mut I, info: ServoInfo) -> (r: Result<
    Connection<I>,
    CommunicationError,
>)
    requires
        is_known_model(info.model_number),
    ensures
        *final(_interface) == *old(_interface),
        r matches Ok(connection) && connection.id() == info.id && connection.baud_rate()
            == info.baud_rate && (connection is MX28 <==> info.model_number == 0x001D),
{
    if info.model_number == 0x001D {
        Ok(Connection::MX28(MX28::new(info.id, info.baud_rate)))
    } else {
        Ok(Connection::AX12(AX12::new(info.id, info.baud_rate)))
    }
}

} // verus!
