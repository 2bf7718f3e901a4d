//! The transfer CRC: CRC-16/CCITT-FALSE, with the polynomial `0x1021`, fed
//! the highest bit first and computed one bit at a time.

use crate::error::CyphalError;
use vstd::prelude::*;

verus! {

/// One step of the CRC-16/CCITT-FALSE shift register: the state moves one bit
/// to the left, and the polynomial `0x1021` is folded in when the bit that
/// left the register was set.
pub open spec fn crc_shift(crc: u16) -> u16 {
    if crc & 0x8000 != 0 {
        (crc << 1) ^ 0x1021
    } else {
        crc << 1
    }
}

/// The register after one input byte: the byte enters the high half of the
/// state, then eight single-bit steps follow.
pub open spec fn crc_byte(crc: u16, byte: u8) -> u16 {
    crc_shift(
        crc_shift(
            crc_shift(
                crc_shift(
                    crc_shift(crc_shift(crc_shift(crc_shift(crc ^ ((byte as u16) << 8))))),
                ),
            ),
        ),
    )
}

/// The register after a whole byte sequence, folded from the left.
pub open spec fn crc_bytes(crc: u16, data: Seq<u8>) -> u16
    decreases data.len(),
{
    if data.len() == 0 {
        crc
    } else {
        crc_byte(crc_bytes(crc, data.drop_last()), data.last())
    }
}

/// The two bytes that carry a CRC behind the data it protects, high byte
/// first.
pub open spec fn crc_trailer(crc: u16) -> Seq<u8> {
    seq![(crc >> 8) as u8, (crc & 0xff) as u8]
}

/// Advances the register by one bit.
fn crc_step(crc: u16) -> (out: u16)
    ensures
        out == crc_shift(crc),
{
    if (crc & 0x8000) != 0 {
        (crc << 1) ^ 0x1021
    } else {
        crc << 1
    }
}

/// Folds one byte into a running CRC.
pub fn crc_add_byte(crc: u16, byte: u8) -> (out: u16)
    ensures
        out == crc_byte(crc, byte),
{
    // Eight explicit steps rather than a loop: a compiler that optimises for
    // size would not unroll one.
    let mut out: u16 = crc ^ ((byte as u16) << 8);
    out = crc_step(out);
    out = crc_step(out);
    out = crc_step(out);
    out = crc_step(out);
    out = crc_step(out);
    out = crc_step(out);
    out = crc_step(out);
    out = crc_step(out);
    out
}

/// Folds `data` into a running CRC. `size` is the length that the caller
/// believes `data` to have; the call fails where the two differ.
pub fn crc_add(crc: u16, size: usize, data: &[u8]) -> (r: Result<u16, CyphalError>)
    ensures
        match r {
            Ok(out) => size == data@.len() && out == crc_bytes(crc, data@),
            Err(e) => size != data@.len() && e == CyphalError::LengthMismatch,
        },
{
    if data.len() != size {
        return Err(CyphalError::LengthMismatch);
    }
    let mut out: u16 = crc;
    let mut i: usize = 0;
    while i < data.len()
        invariant
            i <= data@.len(),
            out == crc_bytes(crc, data@.take(i as int)),
        decreases data@.len() - i,
    {
        proof {
            lemma_crc_push(crc, data@.take(i as int), data@[i as int]);
            assert(data@.take(i as int).push(data@[i as int]) =~= data@.take(i + 1));
        }
        out = crc_add_byte(out, data[i]);
        i += 1;
    }
    proof {
        assert(data@.take(data@.len() as int) =~= data@);
    }
    Ok(out)
}

/// The CRC of no bytes is the state the register started in.
pub proof fn lemma_crc_empty(crc: u16)
    ensures
        crc_bytes(crc, Seq::<u8>::empty()) == crc,
{
}

/// One more byte at the end of the data is one more fold of the register.
pub proof fn lemma_crc_push(crc: u16, data: Seq<u8>, byte: u8)
    ensures
        crc_bytes(crc, data.push(byte)) == crc_byte(crc_bytes(crc, data), byte),
{
    assert(data.push(byte).drop_last() =~= data);
}

/// The CRC can be computed piecewise: the register after `front` is where
/// the fold over `back` starts.
pub proof fn lemma_crc_concat(crc: u16, front: Seq<u8>, back: Seq<u8>)
    ensures
        crc_bytes(crc, front + back) == crc_bytes(crc_bytes(crc, front), back),
    decreases back.len(),
{
    if back.len() == 0 {
        assert(front + back =~= front);
    } else {
        lemma_crc_concat(crc, front, back.drop_last());
        assert((front + back).drop_last() =~= front + back.drop_last());
    }
}

/// Emitting a CRC after the data it protects, high byte first, brings the
/// register to zero: the residue of CRC-16/CCITT-FALSE.
pub proof fn lemma_crc_residue(crc: u16)
    ensures
        crc_byte(crc_byte(crc, (crc >> 8) as u8), (crc & 0xff) as u8) == 0,
{
    let hi = (crc >> 8) as u8;
    let lo = (crc & 0xff) as u8;
    // The high byte cancels the high half of the register; what is left
    // shifts up by eight bits without ever meeting the polynomial.
    let x0 = crc ^ ((hi as u16) << 8);
    let x1 = x0 << 1;
    let x2 = x1 << 1;
    let x3 = x2 << 1;
    let x4 = x3 << 1;
    let x5 = x4 << 1;
    let x6 = x5 << 1;
    let x7 = x6 << 1;
    let x8 = x7 << 1;
    assert({
        &&& x0 & 0x8000 == 0
        &&& x1 & 0x8000 == 0
        &&& x2 & 0x8000 == 0
        &&& x3 & 0x8000 == 0
        &&& x4 & 0x8000 == 0
        &&& x5 & 0x8000 == 0
        &&& x6 & 0x8000 == 0
        &&& x7 & 0x8000 == 0
        &&& x8 ^ ((lo as u16) << 8) == 0
    }) by (bit_vector)
        requires
            hi == (crc >> 8) as u8,
            lo == (crc & 0xff) as u8,
            x0 == crc ^ ((hi as u16) << 8),
            x1 == x0 << 1,
            x2 == x1 << 1,
            x3 == x2 << 1,
            x4 == x3 << 1,
            x5 == x4 << 1,
            x6 == x5 << 1,
            x7 == x6 << 1,
            x8 == x7 << 1,
    ;
    assert(crc_byte(crc, hi) == x8);
    // The low byte cancels the rest, and an empty register stays empty.
    assert(0u16 & 0x8000 == 0 && 0u16 << 1 == 0) by (bit_vector);
    assert(crc_shift(0) == 0);
}

/// The CRC over data and the trailer that carries the CRC of the data is
/// zero.
pub proof fn lemma_crc_of_data_and_trailer(crc: u16, data: Seq<u8>)
    ensures
        crc_bytes(crc, data + crc_trailer(crc_bytes(crc, data))) == 0,
{
    let sum = crc_bytes(crc, data);
    let hi = (sum >> 8) as u8;
    let lo = (sum & 0xff) as u8;
    assert(data + crc_trailer(sum) =~= data.push(hi).push(lo));
    lemma_crc_push(crc, data, hi);
    lemma_crc_push(crc, data.push(hi), lo);
    lemma_crc_residue(sum);
}

} // verus!
