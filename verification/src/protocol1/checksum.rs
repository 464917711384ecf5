//! The additive checksum that closes every protocol 1 frame.
use vstd::prelude::*;

verus! {

/// The sum of all bytes of `bytes`, as a natural number.
pub open spec fn byte_sum(bytes: Seq<u8>) -> nat
    decreases bytes.len(),
{
    if bytes.len() == 0 {
        0
    } else {
        byte_sum(bytes.drop_last()) + bytes.last() as nat
    }
}

/// The checksum of `bytes`: the complement of the low eight bits of their sum.
pub open spec fn checksum(bytes: Seq<u8>) -> u8 {
    (255 - byte_sum(bytes) % 256) as u8
}

/// Appending one byte adds it to the sum.
pub proof fn lemma_byte_sum_push(bytes: Seq<u8>, b: u8)
    ensures
        byte_sum(bytes.push(b)) == byte_sum(bytes) + b as nat,
{
    assert(bytes.push(b).drop_last() =~= bytes);
}

/// A computed checksum.
#[derive(Debug, PartialEq, Eq, Clone, Copy, Structural)]
pub struct Checksum(u8);

impl Checksum {
    /// The checksum as a byte.
    pub closed spec fn view(self) -> u8 {
        self.0
    }

    /// Computes the checksum of `data`.
    pub fn calc(data: &[u8]) -> (r: Checksum)
        ensures
            r@ == checksum(data@),
    {
        let mut sum: u8 = 0;
        let mut i: usize = 0;
        while i < data.len()
            invariant
                i <= data@.len(),
                sum as nat == byte_sum(data@.take(i as int)) % 256,
            decreases data@.len() - i,
        {
            proof {
                lemma_byte_sum_push(data@.take(i as int), data@[i as int]);
                assert(data@.take(i as int).push(data@[i as int]) =~= data@.take(i + 1));
            }
            sum = sum.wrapping_add(data[i]);
            i += 1;
        }
        assert(data@.take(i as int) =~= data@);
        assert(!sum == 255 - sum) by (bit_vector);
        Checksum(!sum)
    }
}

impl Checksum {
    /// The checksum as a byte.
    pub fn value(&self) -> (r: u8)
        ensures
            r == self@,
    {
        self.0
    }
}

impl From<Checksum> for u8 {
    fn from(c: Checksum) -> (r: u8) {
        c.0
    }
}

impl vstd::std_specs::convert::FromSpecImpl<Checksum> for u8 {
    open spec fn obeys_from_spec() -> bool {
        true
    }

    open spec fn from_spec(c: Checksum) -> u8 {
        c@
    }
}

} // verus!
