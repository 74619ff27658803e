//! Big-endian `u16` fields, read and written through `byteorder`.

use byteorder::{BigEndian, ByteOrder};
use vstd::prelude::*;

verus! {

/// The `u16` whose big-endian encoding is `hi` followed by `lo`.
pub open spec fn be_u16(hi: u8, lo: u8) -> u16 {
    (hi as int * 256 + lo as int) as u16
}

/// The two bytes of `n` in big-endian order.
pub open spec fn u16_be_bytes(n: u16) -> Seq<u8> {
    seq![(n / 256) as u8, (n % 256) as u8]
}

/// Decoding the big-endian bytes of `n` gives `n` back.
pub proof fn lemma_be_u16_roundtrip(n: u16)
    ensures
        be_u16(u16_be_bytes(n)[0], u16_be_bytes(n)[1]) == n,
{
}

/// `BigEndian::read_u16`: the first two bytes of `buf`, most significant
/// first. The crate panics on a buffer shorter than two bytes, which
/// `requires` leaves out.
#[verifier::external_body]
pub(crate) fn be_read_u16(buf: &[u8]) -> (n: u16)
    requires
        buf@.len() >= 2,
    ensures
        n == be_u16(buf@[0], buf@[1]),
{
    BigEndian::read_u16(buf)
}

/// `BigEndian::write_u16` on the tail of `buf` that starts at `at`: the two
/// bytes there become `n`'s big-endian bytes and nothing else changes. The
/// crate panics when fewer than two bytes follow `at`, which `requires`
/// leaves out.
#[verifier::external_body]
pub(crate) fn be_write_u16_at(buf: &mut [u8], at: usize, n: u16)
    requires
        at + 2 <= old(buf)@.len(),
    ensures
        final(buf)@ == old(buf)@.update(at as int, u16_be_bytes(n)[0]).update(
            at + 1,
            u16_be_bytes(n)[1],
        ),
{
    BigEndian::write_u16(&mut buf[at..], n)
}

} // verus!
