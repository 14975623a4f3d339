//! The identity transform, recognised bit for bit.
//!
//! Parameters are compared as the IEEE 754 binary64 bit patterns of their
//! values, so that "is the identity" means exactly the literal
//! `[1, 0, 0, 1, 0, 0]`: no tolerance, and a negative zero is not a zero.
use vstd::prelude::*;

verus! {

/// Bit pattern of the binary64 value `1.0`.
pub const ONE_BITS: u64 = 0x3FF0_0000_0000_0000;

/// Bit pattern of the binary64 value `+0.0`.
pub const ZERO_BITS: u64 = 0;

/// Bit patterns of the identity parameters `[1, 0, 0, 1, 0, 0]`.
pub open spec fn identity_bits() -> Seq<u64> {
    seq![ONE_BITS, ZERO_BITS, ZERO_BITS, ONE_BITS, ZERO_BITS, ZERO_BITS]
}

/// Bit patterns of the parameters of the pure translation by `(tx, ty)`.
pub open spec fn translation_bits_spec(tx: u64, ty: u64) -> Seq<u64> {
    seq![ONE_BITS, ZERO_BITS, ZERO_BITS, ONE_BITS, tx, ty]
}

/// Whether the parameters, given as bit patterns, are those of the identity.
pub fn is_identity_bits(p: &[u64; 6]) -> (r: bool)
    ensures
        r == (p@ == identity_bits()),
{
    let r = p[0] == ONE_BITS && p[1] == ZERO_BITS && p[2] == ZERO_BITS && p[3] == ONE_BITS
        && p[4] == ZERO_BITS && p[5] == ZERO_BITS;
    if r {
        assert(p@ =~= identity_bits());
    } else {
        assert(p@ != identity_bits()) by {
            if p@ == identity_bits() {
                assert(p@[0] == identity_bits()[0] && p@[1] == identity_bits()[1]);
                assert(p@[2] == identity_bits()[2] && p@[3] == identity_bits()[3]);
                assert(p@[4] == identity_bits()[4] && p@[5] == identity_bits()[5]);
            }
        }
    }
    r
}

/// The parameters, as bit patterns, of the translation by `(tx, ty)`: the
/// identity linear block followed by the translation.
pub fn translation_bits(tx: u64, ty: u64) -> (r: [u64; 6])
    ensures
        r@ == translation_bits_spec(tx, ty),
{
    let r = [ONE_BITS, ZERO_BITS, ZERO_BITS, ONE_BITS, tx, ty];
    assert(r@ =~= translation_bits_spec(tx, ty));
    r
}

/// Identity law: a translation is the identity exactly when both of its
/// components are `+0.0`; in particular the translation by `(0, 0)` is.
pub proof fn lemma_translation_identity(tx: u64, ty: u64)
    ensures
        (translation_bits_spec(tx, ty) == identity_bits()) <==> (tx == ZERO_BITS && ty == ZERO_BITS),
{
    if translation_bits_spec(tx, ty) == identity_bits() {
        assert(translation_bits_spec(tx, ty)[4] == identity_bits()[4]);
        assert(translation_bits_spec(tx, ty)[5] == identity_bits()[5]);
    }
    if tx == ZERO_BITS && ty == ZERO_BITS {
        assert(translation_bits_spec(tx, ty) =~= identity_bits());
    }
}

} // verus!
