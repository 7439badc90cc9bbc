//! The CRC32 stamp of a finished file: the checksum of its bytes, fed chunk
//! by chunk, written as eight upper-case hexadecimal digits.

use crate::text::digit_char;
use vstd::prelude::*;

verus! {

/// The hasher of `crc32fast`, carried through as an opaque value.
#[verifier::external_type_specification]
#[verifier::external_body]
pub struct ExHasher(crc32fast::Hasher);

/// The CRC32 (IEEE) checksum of a run of bytes, as `crc32fast` computes it.
pub uninterp spec fn crc32(data: Seq<u8>) -> u32;

/// The bytes that a hasher has been fed so far, in order.
pub uninterp spec fn hashed(hasher: crc32fast::Hasher) -> Seq<u8>;

/// `crc32fast::Hasher::new`: a hasher that has been fed nothing.
#[verifier::external_body]
fn hasher_new() -> (hasher: crc32fast::Hasher)
    ensures
        hashed(hasher) == Seq::<u8>::empty(),
{
    crc32fast::Hasher::new()
}

/// `crc32fast::Hasher::update`: feeds the bytes of `chunk` after those
/// already fed. The hasher counts its input in a `u64`, so the total must
/// fit in one.
#[verifier::external_body]
fn hasher_update(hasher: &mut crc32fast::Hasher, chunk: &[u8])
    requires
        hashed(*old(hasher)).len() + chunk@.len() <= u64::MAX,
    ensures
        hashed(*final(hasher)) == hashed(*old(hasher)) + chunk@,
{
    hasher.update(chunk)
}

/// `crc32fast::Hasher::finalize`: the checksum of all that was fed.
#[verifier::external_body]
fn hasher_finalize(hasher: crc32fast::Hasher) -> (value: u32)
    ensures
        value == crc32(hashed(hasher)),
{
    hasher.finalize()
}

/// The `k`-th power of sixteen.
pub open spec fn pow16(k: nat) -> nat
    decreases k,
{
    if k == 0 {
        1
    } else {
        16 * pow16((k - 1) as nat)
    }
}

proof fn lemma_pow16_positive(k: nat)
    ensures
        pow16(k) > 0,
    decreases k,
{
    if k > 0 {
        lemma_pow16_positive((k - 1) as nat);
    }
}

/// The character for a hexadecimal digit, in upper case.
pub open spec fn hex_digit(d: nat) -> char {
    if d < 10 {
        digit_char(d)
    } else {
        ((d + 55) as u8) as char
    }
}

/// `value` as eight hexadecimal digits, most significant first, in upper
/// case.
pub open spec fn hex8(value: u32) -> Seq<char> {
    Seq::new(8, |i: int| hex_digit(((value as nat) / pow16((7 - i) as nat)) % 16))
}

/// `value` as eight hexadecimal digits in upper case.
pub fn format_crc(value: u32) -> (out: String)
    ensures
        out@ == hex8(value),
        out@.len() == 8,
{
    let mut out = String::new();
    let mut divisor: u32 = 0x1000_0000;
    let mut i: usize = 0;
    proof {
        reveal_with_fuel(pow16, 9);
        assert(pow16(7) == 0x1000_0000);
    }
    while i < 8
        invariant
            i <= 8,
            i < 8 ==> divisor == pow16((7 - i) as nat),
            out@ == hex8(value).take(i as int),
        decreases 8 - i,
    {
        proof {
            lemma_pow16_positive((7 - i) as nat);
        }
        let d: u8 = ((value / divisor) % 16) as u8;
        let c: char = if d < 10 {
            (48u8 + d) as char
        } else {
            (55u8 + d) as char
        };
        assert(c == hex8(value)[i as int]);
        out.push(c);
        assert(hex8(value).take(i + 1) == hex8(value).take(i as int).push(hex8(value)[i as int]));
        proof {
            if i < 7 {
                assert(pow16((7 - i) as nat) == 16 * pow16((6 - i) as nat));
            }
        }
        divisor = divisor / 16;
        i += 1;
    }
    assert(hex8(value).take(8) == hex8(value));
    out
}

/// A checksum in progress.
pub struct Checksum {
    hasher: crc32fast::Hasher,
    count: u64,
}

impl Checksum {
    /// A checksum is well formed when it has counted what it was fed.
    pub closed spec fn wf(self) -> bool {
        self.count == hashed(self.hasher).len()
    }

    /// The bytes fed so far.
    pub closed spec fn data(self) -> Seq<u8> {
        hashed(self.hasher)
    }

    /// A checksum that has been fed nothing.
    pub fn new() -> (c: Checksum)
        ensures
            c.wf(),
            c.data() == Seq::<u8>::empty(),
    {
        Checksum { hasher: hasher_new(), count: 0 }
    }

    /// Feeds the bytes of `chunk`. Refuses, and changes nothing, where the
    /// number of bytes fed would no longer fit in a `u64`.
    pub fn update(&mut self, chunk: &[u8]) -> (accepted: bool)
        requires
            old(self).wf(),
        ensures
            final(self).wf(),
            accepted == (old(self).data().len() + chunk@.len() <= u64::MAX),
            final(self).data() == (if accepted {
                old(self).data() + chunk@
            } else {
                old(self).data()
            }),
    {
        let len = chunk.len() as u64;
        if len > u64::MAX - self.count {
            return false;
        }
        hasher_update(&mut self.hasher, chunk);
        self.count = self.count + len;
        true
    }

    /// The checksum of the bytes fed.
    pub fn value(self) -> (v: u32)
        ensures
            v == crc32(self.data()),
    {
        hasher_finalize(self.hasher)
    }

    /// The checksum of the bytes fed, as it is written into a file name.
    pub fn token(self) -> (out: String)
        ensures
            out@ == hex8(crc32(self.data())),
    {
        format_crc(self.value())
    }
}

} // verus!
