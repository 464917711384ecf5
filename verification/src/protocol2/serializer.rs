//! The frame of an instruction, byte by byte.
use vstd::prelude::*;
use super::bit_stuffer::{
    ends_with_marker,
    lemma_push,
    lemma_scan_push,
    lemma_stuff_end,
    lemma_stuff_prefix,
    next_state,
    scan_state,
    stuff,
    BitStuffer,
};
use super::crc::{crc16, crc_update, lemma_crc16_push, CRC};
use super::{frame_head, frame_of, Instruction, MAX_PARAMETERS};
use crate::codec::serialize_u16;

verus! {

/// How many bytes of a frame have gone out when the serializer stands at
/// `pos` and owes a stuffing byte or not.
spec fn emitted(pos: int, pending: bool, parameters: Seq<u8>) -> int {
    if pos <= 8 {
        pos
    } else if pos <= 8 + parameters.len() {
        8 + stuff(parameters.take(pos - 8)).len() - if pending {
            1int
        } else {
            0int
        }
    } else {
        stuff(parameters).len() + pos - parameters.len()
    }
}

/// How many parameters have been taken up when the serializer stands at
/// `pos`.
spec fn taken(pos: int, parameters: Seq<u8>) -> int {
    if pos <= 8 {
        0
    } else if pos <= 8 + parameters.len() {
        pos - 8
    } else {
        parameters.len() as int
    }
}

/// What holds of a serializer between two bytes.
spec fn is_consistent(
    pos: int,
    pending: bool,
    length: u16,
    crc: u16,
    state: nat,
    head: Seq<u8>,
    parameters: Seq<u8>,
) -> bool {
    let at = emitted(pos, pending, parameters);
    &&& parameters.len() <= MAX_PARAMETERS
    &&& head.len() == stuff(parameters).len() + 8
    &&& head.subrange(8, head.len() as int) == stuff(parameters)
    &&& 0 <= pos <= parameters.len() + 10
    &&& length == stuff(parameters).len() + 3
    &&& pending ==> 8 < pos <= 8 + parameters.len() && ends_with_marker(
        parameters.take(taken(pos, parameters)),
    )
    &&& state == if pending {
        3
    } else {
        scan_state(stuff(parameters.take(taken(pos, parameters))))
    }
    &&& 0 <= at <= head.len() + 2
    &&& crc == crc16(
        head.take(
            if at <= head.len() {
                at
            } else {
                head.len() as int
            },
        ),
    )
}

/// The step that pays a stuffing byte.
proof fn lemma_step_stuffing(
    pos: int,
    length: u16,
    crc: u16,
    state: nat,
    head: Seq<u8>,
    parameters: Seq<u8>,
)
    requires
        is_consistent(pos, true, length, crc, state, head, parameters),
    ensures
        emitted(pos, true, parameters) < head.len(),
        head[emitted(pos, true, parameters)] == 0xfd,
        emitted(pos, false, parameters) == emitted(pos, true, parameters) + 1,
        is_consistent(
            pos,
            false,
            length,
            crc_update(crc, 0xfd),
            next_state(state, 0xfd),
            head,
            parameters,
        ),
{
    let at = emitted(pos, true, parameters);
    let seen = parameters.take(pos - 8);
    lemma_stuff_prefix(parameters, pos - 8);
    lemma_stuff_end(seen);
    lemma_stuff_end(parameters);
    assert(seen.drop_last().push(seen.last()) =~= seen);
    lemma_push(seen.drop_last(), seen.last());
    assert(stuff(seen).last() == 0xfd);
    assert(head.subrange(8, head.len() as int)[at - 8] == head[at]);
    assert(stuff(parameters).take(stuff(seen).len() as int)[at - 8] == stuff(seen)[at - 8]);
    lemma_crc16_push(head.take(at), 0xfd);
    assert(head.take(at).push(0xfd) =~= head.take(at + 1));
}

/// The step that yields a byte of the header.
proof fn lemma_step_header(
    pos: int,
    length: u16,
    crc: u16,
    state: nat,
    head: Seq<u8>,
    parameters: Seq<u8>,
)
    requires
        pos < 8,
        is_consistent(pos, false, length, crc, state, head, parameters),
    ensures
        emitted(pos, false, parameters) == pos,
        emitted(pos + 1, false, parameters) == pos + 1,
        is_consistent(
            pos + 1,
            false,
            length,
            crc_update(crc, head[pos]),
            state,
            head,
            parameters,
        ),
{
    lemma_crc16_push(head.take(pos), head[pos]);
    assert(head.take(pos).push(head[pos]) =~= head.take(pos + 1));
    assert(parameters.take(0) =~= Seq::<u8>::empty());
}

/// The step that yields a parameter.
proof fn lemma_step_parameter(
    pos: int,
    length: u16,
    crc: u16,
    state: nat,
    head: Seq<u8>,
    parameters: Seq<u8>,
)
    requires
        8 <= pos < 8 + parameters.len(),
        is_consistent(pos, false, length, crc, state, head, parameters),
    ensures
        emitted(pos, false, parameters) < head.len(),
        head[emitted(pos, false, parameters)] == parameters[pos - 8],
        emitted(
            pos + 1,
            next_state(state, parameters[pos - 8]) == 3,
            parameters,
        ) == emitted(pos, false, parameters) + 1,
        is_consistent(
            pos + 1,
            next_state(state, parameters[pos - 8]) == 3,
            length,
            crc_update(crc, parameters[pos - 8]),
            next_state(state, parameters[pos - 8]),
            head,
            parameters,
        ),
{
    let at = emitted(pos, false, parameters);
    let byte = parameters[pos - 8];
    let seen = parameters.take(pos - 8);
    let more = parameters.take(pos - 7);
    assert(parameters.take(0) =~= Seq::<u8>::empty());
    assert(seen.push(byte) =~= more);
    lemma_push(seen, byte);
    lemma_scan_push(seen, byte);
    lemma_stuff_end(seen);
    lemma_stuff_end(more);
    lemma_stuff_end(parameters);
    lemma_scan_push(stuff(seen), byte);
    assert(ends_with_marker(seen) ==> seen.last() == 0xfd);
    lemma_stuff_prefix(parameters, pos - 7);
    assert(stuff(more)[at - 8] == byte);
    assert(stuff(parameters).take(stuff(more).len() as int)[at - 8] == stuff(more)[at - 8]);
    assert(head.subrange(8, head.len() as int)[at - 8] == head[at]);
    lemma_crc16_push(head.take(at), byte);
    assert(head.take(at).push(byte) =~= head.take(at + 1));
}

/// The steps that yield the CRC.
proof fn lemma_step_crc(
    pos: int,
    length: u16,
    crc: u16,
    state: nat,
    head: Seq<u8>,
    parameters: Seq<u8>,
)
    requires
        8 + parameters.len() <= pos < 10 + parameters.len(),
        is_consistent(pos, false, length, crc, state, head, parameters),
    ensures
        crc == crc16(head),
        emitted(pos, false, parameters) == head.len() + pos - 8 - parameters.len(),
        emitted(pos + 1, false, parameters) == emitted(pos, false, parameters) + 1,
        is_consistent(pos + 1, false, length, crc, state, head, parameters),
{
    assert(parameters.take(parameters.len() as int) =~= parameters);
    assert(head.take(head.len() as int) =~= head);
}

/// Yields the frame of an instruction byte by byte, so that it can be
/// streamed into a buffer of any size.
pub struct Serializer<'a, T: Instruction> {
    pos: usize,
    length: u16,
    crc: CRC,
    bit_stuffer: BitStuffer,
    pending: bool,
    instruction: &'a T,
}

impl<'a, T: Instruction> Serializer<'a, T> {
    /// The instruction that is serialized.
    pub closed spec fn instruction(&self) -> &T {
        self.instruction
    }

    /// The frame that is yielded.
    pub open spec fn frame(&self) -> Seq<u8> {
        frame_of(self.instruction())
    }

    /// How many bytes of the frame have been yielded.
    pub closed spec fn position(&self) -> nat {
        emitted(self.pos as int, self.pending, self.instruction.parameters()) as nat
    }

    #[verifier::type_invariant]
    closed spec fn inv(&self) -> bool {
        &&& self.instruction.parameters().len() == T::parameter_count()
        &&& is_consistent(
            self.pos as int,
            self.pending,
            self.length,
            self.crc@,
            self.bit_stuffer@,
            frame_head(
                self.instruction.target().byte(),
                T::opcode(),
                self.instruction.parameters(),
            ),
            self.instruction.parameters(),
        )
    }

    /// A serializer at the start of the frame of `instruction`.
    pub fn new(instruction: &'a T) -> (r: Self)
        ensures
            r.instruction() == instruction,
            r.position() == 0,
    {
        proof {
            instruction.lemma_instruction();
        }
        let count: usize = T::PARAMETERS as usize;
        let mut stuffed: usize = 0;
        let mut bit_stuffer = BitStuffer::new();
        let mut i: usize = 0;
        while i < count
            invariant
                count == T::parameter_count(),
                count == instruction.parameters().len(),
                i <= count,
                stuffed == stuff(instruction.parameters().take(i as int)).len(),
                stuffed <= 2 * i,
                bit_stuffer@ == scan_state(stuff(instruction.parameters().take(i as int))),
            decreases count - i,
        {
            let byte = instruction.parameter(i);
            proof {
                let seen = instruction.parameters().take(i as int);
                assert(seen.push(byte) =~= instruction.parameters().take(i + 1));
                lemma_push(seen, byte);
                lemma_scan_push(seen, byte);
                lemma_stuff_end(seen);
                lemma_stuff_end(seen.push(byte));
                lemma_scan_push(stuff(seen), byte);
                lemma_scan_push(stuff(seen).push(byte), 0xfd);
                assert(ends_with_marker(seen) ==> seen.last() == 0xfd);
            }
            bit_stuffer = bit_stuffer.add_byte(byte);
            stuffed += 1;
            if bit_stuffer.stuffing_required() {
                bit_stuffer = bit_stuffer.add_byte(0xfd);
                stuffed += 1;
            }
            i += 1;
        }
        proof {
            let parameters = instruction.parameters();
            assert(parameters.take(count as int) =~= parameters);
            assert(parameters.take(0) =~= Seq::<u8>::empty());
            let head = frame_head(instruction.target().byte(), T::opcode(), parameters);
            assert(head.take(0) =~= Seq::<u8>::empty());
            assert(head.subrange(8, head.len() as int) =~= stuff(parameters));
        }
        Serializer {
            pos: 0,
            length: (stuffed + 3) as u16,
            crc: CRC::new(),
            bit_stuffer: BitStuffer::new(),
            pending: false,
            instruction: instruction,
        }
    }

    /// The next byte of the frame, or `None` when the frame is complete.
    pub fn next(&mut self) -> (r: Option<u8>)
        ensures
            final(self).instruction() == old(self).instruction(),
            old(self).position() <= old(self).frame().len(),
            old(self).position() < old(self).frame().len() ==> r == Some(
                old(self).frame()[old(self).position() as int],
            ) && final(self).position() == old(self).position() + 1,
            old(self).position() == old(self).frame().len() ==> r is None
                && final(self).position() == old(self).position(),
    {
        proof {
            use_type_invariant(&*self);
            self.instruction.lemma_instruction();
        }
        let count: usize = T::PARAMETERS as usize;
        let ghost parameters = self.instruction.parameters();
        let ghost head = frame_head(self.instruction.target().byte(), T::opcode(), parameters);
        let ghost pos = self.pos as int;
        if self.pending {
            proof {
                lemma_step_stuffing(pos, self.length, self.crc@, self.bit_stuffer@, head, parameters);
            }
            let mut crc = self.crc;
            crc.add(0xfd);
            let bit_stuffer = self.bit_stuffer.add_byte(0xfd);
            *self = Serializer {
                pos: self.pos,
                length: self.length,
                crc: crc,
                bit_stuffer: bit_stuffer,
                pending: false,
                instruction: self.instruction,
            };
            return Some(0xfd);
        }
        if self.pos < 8 {
            let length = serialize_u16(self.length);
            let byte: u8 = if self.pos == 0 || self.pos == 1 {
                0xff
            } else if self.pos == 2 {
                0xfd
            } else if self.pos == 3 {
                0x00
            } else if self.pos == 4 {
                u8::from(self.instruction.id())
            } else if self.pos == 5 {
                length[0]
            } else if self.pos == 6 {
                length[1]
            } else {
                T::INSTRUCTION_VALUE
            };
            proof {
                lemma_step_header(pos, self.length, self.crc@, self.bit_stuffer@, head, parameters);
                assert(head[pos] == byte);
            }
            let mut crc = self.crc;
            crc.add(byte);
            *self = Serializer {
                pos: self.pos + 1,
                length: self.length,
                crc: crc,
                bit_stuffer: self.bit_stuffer,
                pending: false,
                instruction: self.instruction,
            };
            Some(byte)
        } else if self.pos < 8 + count {
            let byte = self.instruction.parameter(self.pos - 8);
            proof {
                lemma_step_parameter(
                    pos,
                    self.length,
                    self.crc@,
                    self.bit_stuffer@,
                    head,
                    parameters,
                );
            }
            let mut crc = self.crc;
            crc.add(byte);
            let bit_stuffer = self.bit_stuffer.add_byte(byte);
            let pending = bit_stuffer.stuffing_required();
            *self = Serializer {
                pos: self.pos + 1,
                length: self.length,
                crc: crc,
                bit_stuffer: bit_stuffer,
                pending: pending,
                instruction: self.instruction,
            };
            Some(byte)
        } else if self.pos < 10 + count {
            let sum = serialize_u16(self.crc.value());
            let byte = if self.pos == 8 + count {
                sum[0]
            } else {
                sum[1]
            };
            proof {
                lemma_step_crc(pos, self.length, self.crc@, self.bit_stuffer@, head, parameters);
            }
            *self = Serializer {
                pos: self.pos + 1,
                length: self.length,
                crc: self.crc,
                bit_stuffer: self.bit_stuffer,
                pending: false,
                instruction: self.instruction,
            };
            Some(byte)
        } else {
            proof {
                assert(parameters.take(parameters.len() as int) =~= parameters);
            }
            None
        }
    }
}

/// The whole frame of `instruction`.
pub fn to_bytes<T: Instruction>(instruction: &T) -> (r: Vec<u8>)
    ensures
        r@ == frame_of(instruction),
{
    let mut serializer = Serializer::new(instruction);
    let mut bytes: Vec<u8> = Vec::new();
    loop
        invariant
            serializer.instruction() == instruction,
            serializer.position() == bytes@.len(),
            bytes@.len() <= frame_of(instruction).len(),
            bytes@ == frame_of(instruction).take(bytes@.len() as int),
        ensures
            bytes@ == frame_of(instruction),
        decreases frame_of(instruction).len() - bytes@.len(),
    {
        match serializer.next() {
            Some(byte) => {
                assert(frame_of(instruction).take(bytes@.len() as int).push(byte)
                    =~= frame_of(instruction).take(bytes@.len() as int + 1));
                bytes.push(byte);
            },
            None => {
                assert(frame_of(instruction).take(bytes@.len() as int) =~= frame_of(
                    instruction,
                ));
                break ;
            },
        }
    }
    bytes
}

} // verus!
