//! Byte stuffing.
//!
//! The three bytes `FF FF FD` open every frame. Where they occur among the
//! parameters, the sender puts one more `FD` behind them, so that a receiver
//! never takes them for the start of a frame; the receiver drops that byte
//! again.
use vstd::prelude::*;

verus! {

/// Whether `bytes` ends in the marker `FF FF FD`.
pub open spec fn ends_with_marker(bytes: Seq<u8>) -> bool {
    &&& bytes.len() >= 3
    &&& bytes[bytes.len() - 3] == 0xff
    &&& bytes[bytes.len() - 2] == 0xff
    &&& bytes[bytes.len() - 1] == 0xfd
}

/// Whether the last byte of `bytes` is a stuffing byte: an `FD` right
/// behind the marker.
pub open spec fn ends_with_stuffing(bytes: Seq<u8>) -> bool {
    bytes.len() >= 4 && bytes.last() == 0xfd && ends_with_marker(bytes.drop_last())
}

/// `bytes` with an `FD` put behind every marker.
pub open spec fn stuff(bytes: Seq<u8>) -> Seq<u8>
    decreases bytes.len(),
{
    if bytes.len() == 0 {
        Seq::empty()
    } else if ends_with_marker(bytes) {
        stuff(bytes.drop_last()).push(0xfd).push(0xfd)
    } else {
        stuff(bytes.drop_last()).push(bytes.last())
    }
}

/// `bytes` without its stuffing bytes.
pub open spec fn destuff(bytes: Seq<u8>) -> Seq<u8>
    decreases bytes.len(),
{
    if bytes.len() == 0 {
        Seq::empty()
    } else if ends_with_stuffing(bytes) {
        destuff(bytes.drop_last())
    } else {
        destuff(bytes.drop_last()).push(bytes.last())
    }
}

/// How far `bytes` has come towards a marker at its end: 3 where it ends
/// in the marker, else the number of `FF` at its end, counted up to 2.
pub open spec fn scan_state(bytes: Seq<u8>) -> nat {
    if ends_with_marker(bytes) {
        3
    } else if bytes.len() >= 2 && bytes[bytes.len() - 1] == 0xff && bytes[bytes.len() - 2]
        == 0xff {
        2
    } else if bytes.len() >= 1 && bytes[bytes.len() - 1] == 0xff {
        1
    } else {
        0
    }
}

/// The state after one more byte.
pub open spec fn next_state(state: nat, byte: u8) -> nat {
    if byte == 0xff {
        if state == 1 || state == 2 {
            2
        } else {
            1
        }
    } else if byte == 0xfd && state == 2 {
        3
    } else {
        0
    }
}

/// The state can be kept up byte by byte.
pub proof fn lemma_scan_push(bytes: Seq<u8>, byte: u8)
    ensures
        scan_state(bytes.push(byte)) == next_state(scan_state(bytes), byte),
        ends_with_marker(bytes.push(byte)) <==> scan_state(bytes) == 2 && byte == 0xfd,
        ends_with_stuffing(bytes.push(byte)) <==> scan_state(bytes) == 3 && byte == 0xfd,
{
    assert(bytes.push(byte).drop_last() =~= bytes);
}

/// What one more byte adds to the stuffed and to the destuffed bytes.
pub proof fn lemma_push(bytes: Seq<u8>, byte: u8)
    ensures
        stuff(bytes.push(byte)) == if ends_with_marker(bytes.push(byte)) {
            stuff(bytes).push(0xfd).push(0xfd)
        } else {
            stuff(bytes).push(byte)
        },
        destuff(bytes.push(byte)) == if ends_with_stuffing(bytes.push(byte)) {
            destuff(bytes)
        } else {
            destuff(bytes).push(byte)
        },
{
    assert(bytes.push(byte).drop_last() =~= bytes);
}

/// Stuffed bytes never end in a bare marker, and they end in as many `FF`
/// as the bytes they were made from. Stuffing at most doubles the length.
pub proof fn lemma_stuff_end(bytes: Seq<u8>)
    ensures
        scan_state(stuff(bytes)) == if ends_with_marker(bytes) {
            0
        } else {
            scan_state(bytes)
        },
        bytes.len() <= stuff(bytes).len() <= 2 * bytes.len(),
    decreases bytes.len(),
{
    if bytes.len() > 0 {
        let init = bytes.drop_last();
        lemma_stuff_end(init);
        if ends_with_marker(bytes) {
            let s = stuff(init).push(0xfd).push(0xfd);
            assert(s[s.len() - 1] == 0xfd);
            assert(s[s.len() - 2] == 0xfd);
        } else {
            lemma_scan_push(stuff(init), bytes.last());
            lemma_scan_push(init, bytes.last());
            assert(init.push(bytes.last()) =~= bytes);
            if ends_with_marker(init) {
                assert(init.last() == 0xfd);
            }
        }
    }
}

/// Taking the stuffing out of stuffed bytes gives the bytes back.
pub proof fn lemma_destuff_stuff(bytes: Seq<u8>)
    ensures
        destuff(stuff(bytes)) == bytes,
    decreases bytes.len(),
{
    if bytes.len() > 0 {
        let init = bytes.drop_last();
        let last = bytes.last();
        lemma_destuff_stuff(init);
        lemma_stuff_end(init);
        assert(init.push(last) =~= bytes);
        lemma_scan_push(init, last);
        if ends_with_marker(bytes) {
            let once = stuff(init).push(0xfd);
            lemma_scan_push(stuff(init), 0xfd);
            lemma_push(stuff(init), 0xfd);
            lemma_scan_push(once, 0xfd);
            lemma_push(once, 0xfd);
            assert(ends_with_marker(init) ==> init.last() == 0xfd);
        } else {
            lemma_scan_push(stuff(init), last);
            lemma_push(stuff(init), last);
        }
    }
}

/// Different bytes are stuffed to different bytes.
pub proof fn lemma_stuff_injective(a: Seq<u8>, b: Seq<u8>)
    requires
        stuff(a) == stuff(b),
    ensures
        a == b,
{
    lemma_destuff_stuff(a);
    lemma_destuff_stuff(b);
}

/// Bytes that follow a byte other than `FF` are stuffed as they would be
/// alone.
pub proof fn lemma_stuff_behind(front: Seq<u8>, bytes: Seq<u8>)
    requires
        front.len() > 0,
        front.last() != 0xff,
    ensures
        stuff(front + bytes) == stuff(front) + stuff(bytes),
    decreases bytes.len(),
{
    if bytes.len() == 0 {
        assert(front + bytes =~= front);
        assert(stuff(front) + stuff(bytes) =~= stuff(front));
    } else {
        let init = bytes.drop_last();
        lemma_stuff_behind(front, init);
        assert((front + bytes).drop_last() =~= front + init);
        assert(ends_with_marker(front + bytes) <==> ends_with_marker(bytes));
        if ends_with_marker(bytes) {
            assert((stuff(front) + stuff(init)).push(0xfd).push(0xfd) =~= stuff(front)
                + stuff(init).push(0xfd).push(0xfd));
        } else {
            assert((stuff(front) + stuff(init)).push(bytes.last()) =~= stuff(front) + stuff(
                init,
            ).push(bytes.last()));
        }
    }
}

/// In stuffed bytes the marker stands in front of a stuffing byte only:
/// wherever `FF FF FD` occurs, an `FD` follows.
pub proof fn lemma_marker_only_before_stuffing(bytes: Seq<u8>, i: int)
    requires
        0 <= i,
        i + 3 <= stuff(bytes).len(),
        stuff(bytes)[i] == 0xff,
        stuff(bytes)[i + 1] == 0xff,
        stuff(bytes)[i + 2] == 0xfd,
    ensures
        i + 3 < stuff(bytes).len(),
        stuff(bytes)[i + 3] == 0xfd,
    decreases bytes.len(),
{
    if bytes.len() > 0 {
        let init = bytes.drop_last();
        lemma_stuff_end(init);
        lemma_stuff_end(bytes);
        if i + 3 <= stuff(init).len() {
            lemma_marker_only_before_stuffing(init, i);
        }
    }
}

/// The stuffing of a front part of `bytes` is a front part of the stuffing
/// of `bytes`.
pub proof fn lemma_stuff_prefix(bytes: Seq<u8>, n: int)
    requires
        0 <= n <= bytes.len(),
    ensures
        stuff(bytes.take(n)).len() <= stuff(bytes).len(),
        stuff(bytes.take(n)) == stuff(bytes).take(stuff(bytes.take(n)).len() as int),
    decreases bytes.len(),
{
    if n == bytes.len() {
        assert(bytes.take(n) =~= bytes);
        assert(stuff(bytes).take(stuff(bytes).len() as int) =~= stuff(bytes));
    } else {
        let init = bytes.drop_last();
        lemma_stuff_prefix(init, n);
        assert(init.take(n) =~= bytes.take(n));
        let part = stuff(bytes.take(n));
        assert(stuff(init).take(part.len() as int) =~= stuff(bytes).take(part.len() as int));
    }
}

/// Follows a stream of stuffed bytes and tells where stuffing bytes
/// belong.
#[derive(Debug, PartialEq, Eq, Clone, Copy, Structural)]
pub struct BitStuffer {
    state: u8,
}

impl BitStuffer {
    #[verifier::type_invariant]
    spec fn is_state(self) -> bool {
        self.state <= 3
    }

    /// The [`scan_state`] of the bytes followed so far.
    pub closed spec fn view(self) -> nat {
        self.state as nat
    }

    /// A stuffer that has followed nothing yet.
    pub fn new() -> (r: BitStuffer)
        ensures
            r@ == 0,
    {
        BitStuffer { state: 0 }
    }

    /// The stuffer after `byte`.
    pub fn add_byte(self, byte: u8) -> (r: BitStuffer)
        ensures
            r@ == next_state(self@, byte),
    {
        proof {
            use_type_invariant(self);
        }
        if byte == 0xff {
            if self.state == 1 || self.state == 2 {
                BitStuffer { state: 2 }
            } else {
                BitStuffer { state: 1 }
            }
        } else if byte == 0xfd && self.state == 2 {
            BitStuffer { state: 3 }
        } else {
            BitStuffer { state: 0 }
        }
    }

    /// Whether the marker has just gone by: a sender then owes a stuffing
    /// byte, and a receiver drops the next byte if it is `FD`.
    pub fn stuffing_required(&self) -> (r: bool)
        ensures
            r == (self@ == 3),
    {
        self.state == 3
    }
}

/// Stuffs `data`.
pub fn stuff_bytes(data: &[u8]) -> (r: Vec<u8>)
    ensures
        r@ == stuff(data@),
{
    let mut out: Vec<u8> = Vec::new();
    let mut stuffer = BitStuffer::new();
    let mut i: usize = 0;
    while i < data.len()
        invariant
            i <= data@.len(),
            out@ == stuff(data@.take(i as int)),
            stuffer@ == scan_state(out@),
        decreases data@.len() - i,
    {
        let byte = data[i];
        proof {
            let seen = data@.take(i as int);
            assert(seen.push(byte) =~= data@.take(i + 1));
            lemma_push(seen, byte);
            lemma_scan_push(seen, byte);
            lemma_stuff_end(seen);
            lemma_scan_push(out@, byte);
            lemma_scan_push(out@.push(byte), 0xfd);
            assert(ends_with_marker(seen) ==> seen.last() == 0xfd);
        }
        out.push(byte);
        stuffer = stuffer.add_byte(byte);
        if stuffer.stuffing_required() {
            out.push(0xfd);
            stuffer = stuffer.add_byte(0xfd);
        }
        i += 1;
    }
    assert(data@.take(i as int) =~= data@);
    out
}

/// Takes the stuffing out of `data`.
pub fn destuff_bytes(data: &[u8]) -> (r: Vec<u8>)
    ensures
        r@ == destuff(data@),
{
    let mut out: Vec<u8> = Vec::new();
    let mut stuffer = BitStuffer::new();
    let mut i: usize = 0;
    while i < data.len()
        invariant
            i <= data@.len(),
            out@ == destuff(data@.take(i as int)),
            stuffer@ == scan_state(data@.take(i as int)),
        decreases data@.len() - i,
    {
        let byte = data[i];
        proof {
            let seen = data@.take(i as int);
            assert(seen.push(byte) =~= data@.take(i + 1));
            lemma_push(seen, byte);
            lemma_scan_push(seen, byte);
        }
        if !(stuffer.stuffing_required() && byte == 0xfd) {
            out.push(byte);
        }
        stuffer = stuffer.add_byte(byte);
        i += 1;
    }
    assert(data@.take(i as int) =~= data@);
    out
}

} // verus!
