//! The CRC-16 that closes every protocol 2 frame: polynomial `0x8005`,
//! starting from zero, most significant bit first, nothing reflected.
use vstd::prelude::*;

verus! {

/// One step of the shift register: the top bit leaves, and where it was set
/// the polynomial is folded in.
pub open spec fn crc_shift(crc: u16) -> u16 {
    if crc & 0x8000 != 0 {
        (crc << 1) ^ 0x8005
    } else {
        crc << 1
    }
}

/// `n` steps of the shift register.
pub open spec fn crc_shifts(crc: u16, n: nat) -> u16
    decreases n,
{
    if n == 0 {
        crc
    } else {
        crc_shifts(crc_shift(crc), (n - 1) as nat)
    }
}

/// The register after one more byte: the byte enters at the top, then the
/// register is stepped eight times.
pub open spec fn crc_update(crc: u16, byte: u8) -> u16 {
    crc_shifts(crc ^ ((byte as u16) << 8), 8)
}

/// The CRC-16 of `bytes`.
pub open spec fn crc16(bytes: Seq<u8>) -> u16
    decreases bytes.len(),
{
    if bytes.len() == 0 {
        0
    } else {
        crc_update(crc16(bytes.drop_last()), bytes.last())
    }
}

/// Appending one byte updates the CRC by that byte.
pub proof fn lemma_crc16_push(bytes: Seq<u8>, byte: u8)
    ensures
        crc16(bytes.push(byte)) == crc_update(crc16(bytes), byte),
{
    assert(bytes.push(byte).drop_last() =~= bytes);
}

/// A CRC-16 that is fed byte by byte.
#[derive(Debug, PartialEq, Eq, Clone, Copy, Structural)]
pub struct CRC(u16);

impl CRC {
    /// The state of the shift register.
    pub closed spec fn view(self) -> u16 {
        self.0
    }

    /// The CRC of nothing.
    pub fn new() -> (r: CRC)
        ensures
            r@ == 0,
    {
        CRC(0)
    }

    /// Feeds one byte.
    pub fn add(&mut self, byte: u8)
        ensures
            final(self)@ == crc_update(old(self)@, byte),
    {
        let mut crc: u16 = self.0 ^ ((byte as u16) << 8);
        let ghost start = crc;
        let mut i: u8 = 0;
        while i < 8
            invariant
                i <= 8,
                crc_shifts(crc, (8 - i) as nat) == crc_shifts(start, 8),
            decreases 8 - i,
        {
            assert(crc_shifts(crc, (8 - i) as nat) == crc_shifts(
                crc_shift(crc),
                (8 - i - 1) as nat,
            ));
            if crc & 0x8000 != 0 {
                crc = (crc << 1) ^ 0x8005;
            } else {
                crc = crc << 1;
            }
            i += 1;
        }
        self.0 = crc;
    }

    /// Feeds all of `data`, in order.
    pub fn add_all(&mut self, data: &[u8])
        ensures
            old(self)@ == 0 ==> final(self)@ == crc16(data@),
            forall|before: Seq<u8>|
                old(self)@ == crc16(before) ==> final(self)@ == crc16(#[trigger] (before + data@)),
    {
        let ghost begin = self@;
        let mut i: usize = 0;
        while i < data.len()
            invariant
                i <= data@.len(),
                forall|before: Seq<u8>|
                    begin == crc16(before) ==> self@ == crc16(
                        #[trigger] (before + data@.take(i as int)),
                    ),
            decreases data@.len() - i,
        {
            let ghost earlier = self@;
            self.add(data[i]);
            assert forall|before: Seq<u8>| begin == crc16(before) implies self@ == crc16(
                #[trigger] (before + data@.take(i + 1)),
            ) by {
                let so_far = before + data@.take(i as int);
                assert(earlier == crc16(so_far));
                lemma_crc16_push(so_far, data@[i as int]);
                assert(so_far.push(data@[i as int]) =~= before + data@.take(i + 1));
            }
            i += 1;
        }
        assert(data@.take(i as int) =~= data@);
        assert(Seq::<u8>::empty() + data@ =~= data@);
        assert(crc16(Seq::<u8>::empty()) == 0);
    }

    /// The CRC of what was fed.
    pub fn value(&self) -> (r: u16)
        ensures
            r == self@,
    {
        self.0
    }

    /// The CRC-16 of `data`.
    pub fn calc(data: &[u8]) -> (r: u16)
        ensures
            r == crc16(data@),
    {
        let mut crc = CRC::new();
        crc.add_all(data);
        crc.value()
    }
}

impl From<CRC> for u16 {
    fn from(crc: CRC) -> (r: u16) {
        crc.0
    }
}

impl vstd::std_specs::convert::FromSpecImpl<CRC> for u16 {
    open spec fn obeys_from_spec() -> bool {
        true
    }

    open spec fn from_spec(crc: CRC) -> u16 {
        crc@
    }
}

} // verus!
