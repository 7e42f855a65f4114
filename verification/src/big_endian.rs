//! Big-endian numbers as sequences of bytes.

use vstd::prelude::*;

verus! {

/// The number that `bytes` spells, most significant byte first.
pub open spec fn be_value(bytes: Seq<u8>) -> nat
    decreases bytes.len(),
{
    if bytes.len() == 0 {
        0
    } else {
        256 * be_value(bytes.drop_last()) + bytes.last() as nat
    }
}

/// The lowest `width` base-256 digits of `value`, most significant byte first.
pub open spec fn be_bytes(value: nat, width: nat) -> Seq<u8>
    decreases width,
{
    if width == 0 {
        Seq::empty()
    } else {
        be_bytes(value / 256, (width - 1) as nat).push((value % 256) as u8)
    }
}

/// Whether `value` has at most `width` base-256 digits.
pub open spec fn fits(value: nat, width: nat) -> bool
    decreases width,
{
    if width == 0 {
        value == 0
    } else {
        fits(value / 256, (width - 1) as nat)
    }
}

/// A number written with `width` digits takes exactly `width` bytes.
pub proof fn lemma_be_bytes_len(value: nat, width: nat)
    ensures
        be_bytes(value, width).len() == width,
    decreases width,
{
    if width > 0 {
        lemma_be_bytes_len(value / 256, (width - 1) as nat);
    }
}

/// Reading back what was written gives the number, provided that it fits.
pub proof fn lemma_value_of_bytes(value: nat, width: nat)
    requires
        fits(value, width),
    ensures
        be_value(be_bytes(value, width)) == value,
    decreases width,
{
    if width > 0 {
        let high = be_bytes(value / 256, (width - 1) as nat);
        lemma_value_of_bytes(value / 256, (width - 1) as nat);
        assert(be_bytes(value, width).drop_last() =~= high);
    }
}

/// Writing back what was read gives the same bytes.
pub proof fn lemma_bytes_of_value(bytes: Seq<u8>)
    ensures
        be_bytes(be_value(bytes), bytes.len()) =~= bytes,
        fits(be_value(bytes), bytes.len()),
    decreases bytes.len(),
{
    if bytes.len() > 0 {
        let high = bytes.drop_last();
        lemma_bytes_of_value(high);
        assert(be_value(bytes) / 256 == be_value(high));
        assert(be_value(bytes) % 256 == bytes.last());
        assert(bytes =~= high.push(bytes.last()));
    }
}

/// Every `u16` fits in two bytes.
pub proof fn lemma_u16_fits(value: u16)
    ensures
        fits(value as nat, 2),
{
    reveal_with_fuel(fits, 3);
}

/// Every `u128` fits in sixteen bytes.
pub proof fn lemma_u128_fits(value: u128)
    ensures
        fits(value as nat, 16),
{
    reveal_with_fuel(fits, 17);
}

} // verus!
