//! The status in a frame that arrives in pieces.
use vstd::prelude::*;
use super::bit_stuffer::{destuff, lemma_push, lemma_scan_push, next_state, scan_state, BitStuffer};
use super::crc::{crc16, crc_update, lemma_crc16_push, CRC};
use super::{declared_length, Error, FormatError, ProcessingError, ServoID, Status};
use crate::codec::deserialize_u16;

verus! {

/// Why the first nine bytes of a status are turned down, if they are: the
/// marker is judged first, then the error byte, then the sender, then the
/// declared length, which must leave room for the CRC.
pub open spec fn header_fault(header: Seq<u8>) -> Option<Error> {
    if header[0] != 0xff || header[1] != 0xff || header[2] != 0xfd || header[3] != 0x00 {
        Some(Error::Format(FormatError::Header))
    } else if header[8] >= 128 {
        Some(Error::Format(FormatError::InvalidError))
    } else if header[8] != 0 {
        Some(Error::Processing(ProcessingError::of(header[8])))
    } else if header[4] > 253 {
        Some(Error::Format(FormatError::ID))
    } else if declared_length(header) < 4 {
        Some(Error::Format(FormatError::Length))
    } else {
        None
    }
}

/// The sender and the parameters of the status that the frame `data`
/// holds, which is to carry `parameters` parameters. The header is judged
/// as in [`header_fault`], then the declared length against the bytes at
/// hand, then the CRC, then the number of parameters that are left when
/// the stuffing is taken out.
pub open spec fn status_fields(data: Seq<u8>, parameters: u16) -> Result<
    (ServoID, Seq<u8>),
    Error,
> {
    if data.len() < 9 {
        Err(Error::Format(FormatError::Length))
    } else {
        match header_fault(data.take(9)) {
            Some(fault) => Err(fault),
            None => if data.len() != declared_length(data) + 7 {
                Err(Error::Format(FormatError::Length))
            } else if crc16(data.take(data.len() - 2)) != data[data.len() - 2] + 256
                * data[data.len() - 1] {
                Err(Error::Format(FormatError::CRC))
            } else if destuff(data.subrange(9, data.len() - 2)).len() != parameters {
                Err(Error::Format(FormatError::Length))
            } else {
                Ok((ServoID::of(data[4]), destuff(data.subrange(9, data.len() - 2))))
            },
        }
    }
}

/// What the frame `data` says as a status of kind `S`.
pub open spec fn status_of<S: Status>(data: Seq<u8>) -> Result<S, Error> {
    match status_fields(data, S::parameter_count()) {
        Ok((id, parameters)) => Ok(S::decoded(id, parameters)),
        Err(e) => Err(e),
    }
}

/// Whether a deserializer wants more bytes.
#[derive(Debug, PartialEq, Eq, Clone, Copy, Structural)]
pub enum DeserializationStatus {
    /// More bytes are owed.
    Unfinished,
    /// The frame is complete.
    Finished,
}

/// Where a deserializer stands.
#[derive(Debug, PartialEq, Eq, Clone, Copy, Structural)]
pub enum DeserializerState {
    /// Nothing has been taken in.
    AwaitHeader,
    /// The header has been taken in, and bytes are owed.
    AwaitBody,
    /// The frame is complete.
    Finished,
    /// The deserializer was handed what it could not take.
    Failed,
}

/// Why a chunk of `len` bytes is turned down, if it is, by a deserializer
/// in `state` that is owed `remaining` bytes.
pub open spec fn chunk_fault(state: DeserializerState, remaining: nat, len: nat) -> Option<
    FormatError,
> {
    match state {
        DeserializerState::AwaitHeader => Some(FormatError::Header),
        DeserializerState::Failed => Some(FormatError::Length),
        _ => if len > remaining {
            Some(FormatError::Length)
        } else {
            None
        },
    }
}

/// What ties the running values of a deserializer to the bytes `received`
/// once the header is in.
spec fn is_tracking(
    received: Seq<u8>,
    remaining: nat,
    id: ServoID,
    crc: u16,
    state: nat,
    parameters: Seq<u8>,
    crc_low: u8,
    crc_high: u8,
) -> bool {
    let total = declared_length(received) + 7;
    let stuffed_end = if received.len() <= total - 2 {
        received.len() as int
    } else {
        total - 2
    };
    &&& received.len() >= 9
    &&& header_fault(received.take(9)) is None
    &&& received.len() + remaining == total
    &&& id == ServoID::of(received[4])
    &&& parameters == destuff(received.subrange(9, stuffed_end))
    &&& state == scan_state(received.subrange(9, stuffed_end))
    &&& crc == crc16(received.take(stuffed_end))
    &&& received.len() > total - 2 ==> crc_low == received[total - 2]
    &&& received.len() == total ==> crc_high == received[total - 1]
}

/// Taking in one stuffed byte.
proof fn lemma_track_stuffed(
    received: Seq<u8>,
    remaining: nat,
    id: ServoID,
    crc: u16,
    state: nat,
    parameters: Seq<u8>,
    low: u8,
    high: u8,
    byte: u8,
)
    requires
        is_tracking(received, remaining, id, crc, state, parameters, low, high),
        remaining > 2,
    ensures
        is_tracking(
            received.push(byte),
            (remaining - 1) as nat,
            id,
            crc_update(crc, byte),
            next_state(state, byte),
            if state == 3 && byte == 0xfd {
                parameters
            } else {
                parameters.push(byte)
            },
            low,
            high,
        ),
{
    let more = received.push(byte);
    let stuffed = received.subrange(9, received.len() as int);
    assert(more.take(9) =~= received.take(9));
    assert(more.subrange(9, more.len() as int) =~= stuffed.push(byte));
    lemma_push(stuffed, byte);
    lemma_scan_push(stuffed, byte);
    assert(received.take(received.len() as int) =~= received);
    assert(more.take(more.len() as int) =~= more);
    lemma_crc16_push(received, byte);
}

/// Taking in one byte of the CRC.
proof fn lemma_track_crc(
    received: Seq<u8>,
    remaining: nat,
    id: ServoID,
    crc: u16,
    state: nat,
    parameters: Seq<u8>,
    low: u8,
    high: u8,
    byte: u8,
)
    requires
        is_tracking(received, remaining, id, crc, state, parameters, low, high),
        1 <= remaining <= 2,
    ensures
        is_tracking(
            received.push(byte),
            (remaining - 1) as nat,
            id,
            crc,
            state,
            parameters,
            if remaining == 2 {
                byte
            } else {
                low
            },
            if remaining == 2 {
                high
            } else {
                byte
            },
        ),
{
    let more = received.push(byte);
    let total = declared_length(received) + 7;
    assert(more.take(9) =~= received.take(9));
    assert(more.subrange(9, total - 2) =~= received.subrange(9, total - 2));
    assert(more.take(total - 2) =~= received.take(total - 2));
    if remaining == 2 {
        assert(received.subrange(9, received.len() as int) =~= received.subrange(9, total - 2));
        assert(received.take(received.len() as int) =~= received.take(total - 2));
    }
}

/// Reads a status of kind `T` from its frame, which may come in pieces of
/// any size: first the nine bytes of the header, then the rest in as many
/// chunks as it takes.
pub struct Deserializer<T: Status> {
    state: DeserializerState,
    remaining: usize,
    id: ServoID,
    crc: CRC,
    bit_stuffer: BitStuffer,
    parameters: Vec<u8>,
    crc_low: u8,
    crc_high: u8,
    received: Ghost<Seq<u8>>,
    phantom: core::marker::PhantomData<T>,
}

impl<T: Status> Deserializer<T> {
    /// Where the deserializer stands.
    pub closed spec fn state(&self) -> DeserializerState {
        self.state
    }

    /// All bytes taken in so far, the header first.
    pub closed spec fn received(&self) -> Seq<u8> {
        self.received@
    }

    /// How many bytes are owed.
    pub closed spec fn remaining(&self) -> nat {
        self.remaining as nat
    }

    /// Whether the deserializer is in order. A new one is, and every
    /// operation keeps it so.
    pub closed spec fn wf(&self) -> bool {
        match self.state {
            DeserializerState::AwaitHeader => self.received@.len() == 0 && self.remaining == 0,
            DeserializerState::Failed => true,
            _ => {
                &&& (self.state is AwaitBody <==> self.remaining > 0)
                &&& is_tracking(
                    self.received@,
                    self.remaining as nat,
                    self.id,
                    self.crc@,
                    self.bit_stuffer@,
                    self.parameters@,
                    self.crc_low,
                    self.crc_high,
                )
            },
        }
    }

    /// A deserializer that has taken in nothing.
    pub fn new() -> (r: Self)
        ensures
            r.wf(),
            r.state() is AwaitHeader,
            r.received() == Seq::<u8>::empty(),
            r.remaining() == 0,
    {
        Deserializer {
            state: DeserializerState::AwaitHeader,
            remaining: 0,
            id: ServoID::new(0),
            crc: CRC::new(),
            bit_stuffer: BitStuffer::new(),
            parameters: Vec::new(),
            crc_low: 0,
            crc_high: 0,
            received: Ghost(Seq::empty()),
            phantom: core::marker::PhantomData,
        }
    }

    /// How many bytes are owed.
    pub fn remaining_bytes(&self) -> (r: usize)
        ensures
            r == self.remaining(),
    {
        self.remaining
    }

    /// Whether the frame is complete.
    pub fn is_finished(&self) -> (r: bool)
        ensures
            r == (self.state() is Finished),
    {
        match self.state {
            DeserializerState::Finished => true,
            _ => false,
        }
    }
}

impl<T: Status> Deserializer<T> {
    /// Takes in the nine bytes of the header: the marker, the sender, the
    /// declared length, the instruction byte and the error byte. A
    /// deserializer that has taken in anything before turns them down as
    /// no header; otherwise [`header_fault`] judges them, and where it
    /// finds nothing the deserializer is owed all that the header
    /// declares, less the two bytes it has seen.
    pub fn deserialize_header(self, header: [u8; 9]) -> (r: Result<Self, Error>)
        requires
            self.wf(),
        ensures
            !(self.state() is AwaitHeader) ==> r == Err::<Self, Error>(
                Error::Format(FormatError::Header),
            ),
            self.state() is AwaitHeader ==> match header_fault(header@) {
                Some(fault) => r == Err::<Self, Error>(fault),
                None => r matches Ok(next) && next.wf() && next.state() is AwaitBody
                    && next.received() == header@ && next.remaining() == declared_length(
                    header@,
                ) - 2,
            },
    {
        match self.state {
            DeserializerState::AwaitHeader => {},
            _ => {
                return Err(Error::Format(FormatError::Header));
            },
        }
        if header[0] != 0xff || header[1] != 0xff || header[2] != 0xfd || header[3] != 0x00 {
            return Err(Error::Format(FormatError::Header));
        }
        match ProcessingError::decode(header[8]) {
            Err(_) => {
                return Err(Error::Format(FormatError::InvalidError));
            },
            Ok(Some(error)) => {
                return Err(Error::Processing(error));
            },
            Ok(None) => {},
        }
        let id = match ServoID::checked(header[4]) {
            None => {
                return Err(Error::Format(FormatError::ID));
            },
            Some(id) => id,
        };
        assert(header@.subrange(5, 7) =~= seq![header@[5], header@[6]]);
        let length: usize = deserialize_u16(&header[5..7]) as usize;
        if length < 4 {
            return Err(Error::Format(FormatError::Length));
        }
        let mut crc = CRC::new();
        crc.add_all(&header);
        proof {
            assert(header@.take(9) =~= header@);
            assert(header@.subrange(9, 9) =~= Seq::<u8>::empty());
        }
        Ok(
            Deserializer {
                state: DeserializerState::AwaitBody,
                remaining: length - 2,
                id: id,
                crc: crc,
                bit_stuffer: BitStuffer::new(),
                parameters: Vec::new(),
                crc_low: 0,
                crc_high: 0,
                received: Ghost(header@),
                phantom: core::marker::PhantomData,
            },
        )
    }

    /// Takes in one byte of the body.
    fn accept_byte(&mut self, byte: u8)
        requires
            old(self).wf(),
            old(self).state() is AwaitBody,
        ensures
            final(self).wf(),
            final(self).received() == old(self).received().push(byte),
            final(self).remaining() == old(self).remaining() - 1,
            final(self).state() == if final(self).remaining() == 0 {
                DeserializerState::Finished
            } else {
                DeserializerState::AwaitBody
            },
    {
        if self.remaining > 2 {
            proof {
                lemma_track_stuffed(
                    self.received@,
                    self.remaining as nat,
                    self.id,
                    self.crc@,
                    self.bit_stuffer@,
                    self.parameters@,
                    self.crc_low,
                    self.crc_high,
                    byte,
                );
            }
            self.crc.add(byte);
            if !(self.bit_stuffer.stuffing_required() && byte == 0xfd) {
                self.parameters.push(byte);
            }
            self.bit_stuffer = self.bit_stuffer.add_byte(byte);
        } else {
            proof {
                lemma_track_crc(
                    self.received@,
                    self.remaining as nat,
                    self.id,
                    self.crc@,
                    self.bit_stuffer@,
                    self.parameters@,
                    self.crc_low,
                    self.crc_high,
                    byte,
                );
            }
            if self.remaining == 2 {
                self.crc_low = byte;
            } else {
                self.crc_high = byte;
            }
        }
        self.remaining = self.remaining - 1;
        self.received = Ghost(self.received@.push(byte));
        if self.remaining == 0 {
            self.state = DeserializerState::Finished;
        }
    }

    /// Takes in the next bytes of the body. A chunk is turned down as a
    /// whole, and the deserializer has then failed, where [`chunk_fault`]
    /// says so: before the header, after a failure, or when the chunk is
    /// longer than what is owed. Otherwise all of it is taken in, and the
    /// result tells whether the frame is now complete.
    pub fn deserialize(&mut self, data: &[u8]) -> (r: Result<DeserializationStatus, Error>)
        requires
            old(self).wf(),
        ensures
            final(self).wf(),
            match chunk_fault(old(self).state(), old(self).remaining(), data@.len()) {
                Some(fault) => r == Err::<DeserializationStatus, Error>(Error::Format(fault))
                    && final(self).state() is Failed,
                None => {
                    &&& final(self).received() == old(self).received() + data@
                    &&& final(self).remaining() == old(self).remaining() - data@.len()
                    &&& final(self).state() == if final(self).remaining() == 0 {
                        DeserializerState::Finished
                    } else {
                        DeserializerState::AwaitBody
                    }
                    &&& r == Ok::<DeserializationStatus, Error>(
                        if final(self).remaining() == 0 {
                            DeserializationStatus::Finished
                        } else {
                            DeserializationStatus::Unfinished
                        },
                    )
                },
            },
    {
        match self.state {
            DeserializerState::AwaitHeader => {
                self.state = DeserializerState::Failed;
                return Err(Error::Format(FormatError::Header));
            },
            DeserializerState::Failed => {
                return Err(Error::Format(FormatError::Length));
            },
            _ => {},
        }
        if data.len() > self.remaining {
            self.state = DeserializerState::Failed;
            return Err(Error::Format(FormatError::Length));
        }
        let mut i: usize = 0;
        assert(self.received() + data@.take(0) =~= self.received());
        while i < data.len()
            invariant
                i <= data@.len(),
                self.wf(),
                self.received() == old(self).received() + data@.take(i as int),
                self.remaining() == old(self).remaining() - i,
                data@.len() <= old(self).remaining(),
                self.state() == if self.remaining() == 0 {
                    DeserializerState::Finished
                } else {
                    DeserializerState::AwaitBody
                },
            decreases data@.len() - i,
        {
            assert((old(self).received() + data@.take(i as int)).push(data@[i as int]) =~= old(
                self,
            ).received() + data@.take(i + 1));
            self.accept_byte(data[i]);
            i += 1;
        }
        assert(data@.take(i as int) =~= data@);
        if self.remaining == 0 {
            Ok(DeserializationStatus::Finished)
        } else {
            Ok(DeserializationStatus::Unfinished)
        }
    }

    /// Reads the status from the frame taken in, as [`status_of`] has it.
    /// A frame that is not complete is turned down for its length.
    pub fn build(self) -> (r: Result<T, Error>)
        requires
            self.wf(),
        ensures
            self.state() is Finished ==> r == status_of::<T>(self.received()),
            !(self.state() is Finished) ==> r == Err::<T, Error>(
                Error::Format(FormatError::Length),
            ),
    {
        match self.state {
            DeserializerState::Finished => {},
            _ => {
                return Err(Error::Format(FormatError::Length));
            },
        }
        let trailer: [u8; 2] = [self.crc_low, self.crc_high];
        proof {
            let received = self.received@;
            assert(received.take(received.len() as int) =~= received);
        }
        if self.crc.value() != deserialize_u16(&trailer) {
            return Err(Error::Format(FormatError::CRC));
        }
        proof {
            T::lemma_status(self.id, self.parameters@);
        }
        if self.parameters.len() != T::PARAMETERS as usize {
            return Err(Error::Format(FormatError::Length));
        }
        Ok(T::deserialize(self.id, self.parameters.as_slice()))
    }
}

/// The bytes of `chunks`, one chunk behind the other.
pub open spec fn joined(chunks: Seq<&[u8]>) -> Seq<u8>
    decreases chunks.len(),
{
    if chunks.len() == 0 {
        Seq::empty()
    } else {
        joined(chunks.drop_last()) + chunks.last()@
    }
}

/// The first chunks of a list hold no more bytes than the whole list.
pub proof fn lemma_joined_grows(chunks: Seq<&[u8]>, n: int)
    requires
        0 <= n <= chunks.len(),
    ensures
        joined(chunks.take(n)).len() <= joined(chunks).len(),
    decreases chunks.len(),
{
    if n == chunks.len() {
        assert(chunks.take(n) =~= chunks);
    } else {
        lemma_joined_grows(chunks.drop_last(), n);
        assert(chunks.drop_last().take(n) =~= chunks.take(n));
    }
}

impl<T: Status> Deserializer<T> {
    /// Takes in the next bytes of the body, which come in chunks of any
    /// number and size. What the deserializer makes of them is what
    /// [`deserialize`](Self::deserialize) makes of the same bytes in one
    /// chunk: how the bytes are cut does not show.
    pub fn deserialize_all(&mut self, chunks: &[&[u8]]) -> (r: Result<DeserializationStatus, Error>)
        requires
            old(self).wf(),
        ensures
            final(self).wf(),
            match chunk_fault(old(self).state(), old(self).remaining(), joined(chunks@).len()) {
                Some(fault) => r == Err::<DeserializationStatus, Error>(Error::Format(fault))
                    && final(self).state() is Failed,
                None => {
                    &&& final(self).received() == old(self).received() + joined(chunks@)
                    &&& final(self).remaining() == old(self).remaining() - joined(chunks@).len()
                    &&& final(self).state() == if final(self).remaining() == 0 {
                        DeserializerState::Finished
                    } else {
                        DeserializerState::AwaitBody
                    }
                    &&& r == Ok::<DeserializationStatus, Error>(
                        if final(self).remaining() == 0 {
                            DeserializationStatus::Finished
                        } else {
                            DeserializationStatus::Unfinished
                        },
                    )
                },
            },
    {
        let nothing: [u8; 0] = [];
        let mut status = match self.deserialize(&nothing) {
            Ok(status) => status,
            Err(e) => {
                return Err(e);
            },
        };
        assert(chunks@.take(0) =~= Seq::<&[u8]>::empty());
        assert(self.received() =~= old(self).received() + joined(chunks@.take(0)));
        let mut i: usize = 0;
        while i < chunks.len()
            invariant
                i <= chunks@.len(),
                self.wf(),
                old(self).state() is AwaitBody || old(self).state() is Finished,
                joined(chunks@.take(i as int)).len() <= old(self).remaining(),
                self.received() == old(self).received() + joined(chunks@.take(i as int)),
                self.remaining() == old(self).remaining() - joined(chunks@.take(i as int)).len(),
                self.state() == if self.remaining() == 0 {
                    DeserializerState::Finished
                } else {
                    DeserializerState::AwaitBody
                },
                status == if self.remaining() == 0 {
                    DeserializationStatus::Finished
                } else {
                    DeserializationStatus::Unfinished
                },
            decreases chunks@.len() - i,
        {
            proof {
                assert(chunks@.take(i + 1).drop_last() =~= chunks@.take(i as int));
                lemma_joined_grows(chunks@, i + 1);
                assert((old(self).received() + joined(chunks@.take(i as int))) + chunks@[i as int]@
                    =~= old(self).received() + joined(chunks@.take(i + 1)));
            }
            status = match self.deserialize(chunks[i]) {
                Ok(status) => status,
                Err(e) => {
                    return Err(e);
                },
            };
            i += 1;
        }
        assert(chunks@.take(i as int) =~= chunks@);
        Ok(status)
    }
}

} // verus!
