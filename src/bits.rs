use bit_field::BitField;
use vstd::prelude::*;

verus! {

/// Relies on `BitField::set_bit` of bit_field for `u16`: sets bit `bit` when
/// `flag` holds and clears it otherwise; it panics for `bit >= 16`.
#[verifier::external_body]
pub(crate) fn with_bit_u16(value: u16, bit: usize, flag: bool) -> (r: u16)
    requires
        bit < 16,
    ensures
        r == (if flag { value | (1u16 << bit as u16) } else { value & !(1u16 << bit as u16) }),
{
    let mut v = value;
    v.set_bit(bit, flag);
    v
}

/// Relies on `BitField::set_bits` of bit_field for `u16`: replaces bits
/// `start..end` by `field`; it panics unless `start < end <= 16` and `field`
/// fits in `end - start` bits.
#[verifier::external_body]
pub(crate) fn with_bits_u16(value: u16, start: usize, end: usize, field: u16) -> (r: u16)
    requires
        start < end <= 16,
        field <= 0xffffu16 >> (16 - (end - start)) as u16,
    ensures
        r == ((value & !(field_mask(start as u16, end as u16))) | (field << start as u16)),
{
    let mut v = value;
    v.set_bits(start..end, field);
    v
}

/// The bits `start..end` of a `u16`, set.
pub open spec fn field_mask(start: u16, end: u16) -> u16 {
    ((0xffffu16 >> (16 - (end - start)) as u16) << start) as u16
}

} // verus!
