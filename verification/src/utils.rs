use vstd::prelude::*;

verus! {

/// The value that `align` computes: `value` itself when it is already a
/// multiple of `alignment`, otherwise the next multiple above it.
pub open spec fn spec_align(value: int, alignment: int) -> int {
    if value % alignment == 0 {
        value
    } else {
        value + alignment - value % alignment
    }
}

/// Rounds `value` up to the nearest multiple of `alignment`.
pub fn align(value: usize, alignment: usize) -> (r: usize)
    requires
        alignment > 0,
        value % alignment != 0 ==> value + alignment <= usize::MAX,
    ensures
        r == spec_align(value as int, alignment as int),
{
    if value % alignment == 0 {
        value
    } else {
        value + alignment - (value % alignment)
    }
}

/// `align` gives the least multiple of `alignment` that is at least `value`.
pub proof fn law_align_is_least_multiple(value: int, alignment: int, m: int)
    requires
        value >= 0,
        alignment > 0,
    ensures
        spec_align(value, alignment) % alignment == 0,
        value <= spec_align(value, alignment) < value + alignment,
        (m >= value && m % alignment == 0) ==> spec_align(value, alignment) <= m,
{
    vstd::arithmetic::div_mod::lemma_fundamental_div_mod(value, alignment);
    vstd::arithmetic::div_mod::lemma_mod_bound(value, alignment);
    let q = value / alignment;
    let r = value % alignment;
    if r != 0 {
        assert(spec_align(value, alignment) == alignment * (q + 1)) by (nonlinear_arith)
            requires value == alignment * q + r, spec_align(value, alignment) == value + alignment - r;
        vstd::arithmetic::div_mod::lemma_mod_multiples_basic(q + 1, alignment);
        assert((q + 1) * alignment == alignment * (q + 1)) by (nonlinear_arith);
    }
    if m >= value && m % alignment == 0 {
        vstd::arithmetic::div_mod::lemma_fundamental_div_mod(m, alignment);
        let qm = m / alignment;
        if r != 0 {
            assert(alignment * qm > alignment * q) by (nonlinear_arith)
                requires m == alignment * qm, value == alignment * q + r, m >= value, r > 0, alignment > 0;
            assert(qm > q) by (nonlinear_arith)
                requires alignment * qm > alignment * q, alignment > 0;
            assert(alignment * qm >= alignment * (q + 1)) by (nonlinear_arith)
                requires qm >= q + 1, alignment > 0;
        }
    }
}

/// Aligning an aligned value changes nothing.
pub proof fn law_align_idempotent(value: int, alignment: int)
    requires
        value >= 0,
        alignment > 0,
    ensures
        spec_align(spec_align(value, alignment), alignment) == spec_align(value, alignment),
{
    law_align_is_least_multiple(value, alignment, 0);
}

} // verus!
