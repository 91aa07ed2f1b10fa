//! The laws the range-mapper obeys, stated and proved over the spec-level
//! transition functions that the executable methods are pinned to.

use crate::fbits::{
    degenerate_bits, div_bits, finite_bits, lt_bits, sub_bits, CLAMP_MAX_BITS, CLAMP_MIN_BITS,
    ONE_BITS, ZERO_BITS,
};
use crate::unit::{
    fallback_spec, inputs_finite, internal_name_for_input, internal_value_spec, is_input_name,
    is_internal_name, is_output_name, output_value_spec, set_input_spec, tick_spec, RangeMapper,
};
use vstd::prelude::*;

verus! {

/// Law: assigning a non-finite value (NaN or an infinity) to any
/// recognized input stores 0.0, so the internal variable that reads the
/// same field reads back exactly zero.
pub proof fn lemma_nonfinite_input_reads_zero(s: RangeMapper, key: Seq<char>, v: u64)
    requires
        !finite_bits(v),
        is_input_name(key),
    ensures
        internal_value_spec(set_input_spec(s, key, v), internal_name_for_input(key)) == Some(
            ZERO_BITS,
        ),
{
    reveal_strlit("Min 1 (V)");
    reveal_strlit("Max 1 (V)");
    reveal_strlit("Min 2 (V)");
    reveal_strlit("Max 2 (V)");
    reveal_strlit("min1");
    reveal_strlit("max1");
    reveal_strlit("min2");
    reveal_strlit("max2");
    assert("Min 1 (V)"@[1] == 'i' && "Max 1 (V)"@[1] == 'a' && "Min 2 (V)"@[1] == 'i'
        && "Max 2 (V)"@[1] == 'a');
    assert("Min 1 (V)"@[4] == '1' && "Max 1 (V)"@[4] == '1' && "Min 2 (V)"@[4] == '2'
        && "Max 2 (V)"@[4] == '2');
    assert("min1"@[1] == 'i' && "max1"@[1] == 'a' && "min2"@[1] == 'i' && "max2"@[1] == 'a');
    assert("min1"@[3] == '1' && "max1"@[3] == '1' && "min2"@[3] == '2' && "max2"@[3] == '2');
    assert("Max 1 (V)"@ != "Min 1 (V)"@);
    assert("Min 2 (V)"@ != "Min 1 (V)"@ && "Min 2 (V)"@ != "Max 1 (V)"@);
    assert("Max 2 (V)"@ != "Min 1 (V)"@ && "Max 2 (V)"@ != "Max 1 (V)"@ && "Max 2 (V)"@ != "Min 2 (V)"@);
    assert("max1"@ != "min1"@);
    assert("min2"@ != "min1"@ && "min2"@ != "max1"@);
    assert("max2"@ != "min1"@ && "max2"@ != "max1"@ && "max2"@ != "min2"@);
}

/// Law: when any stored bound is non-finite, or either range span is
/// degenerate (non-finite, or of magnitude below the 1e-15 threshold), the
/// tick resolves to the identity mapping: both scales 1.0, both offsets
/// 0.0, the bounds untouched.
pub proof fn lemma_degenerate_tick_identity(s: RangeMapper)
    requires
        !inputs_finite(s) || degenerate_bits(sub_bits(s.in_max_a, s.in_min_a)) || degenerate_bits(
            sub_bits(s.in_max_b, s.in_min_b),
        ),
    ensures
        tick_spec(s) == fallback_spec(s),
        tick_spec(s).scale_ab == ONE_BITS,
        tick_spec(s).offset_ab == ZERO_BITS,
        tick_spec(s).scale_ba == ONE_BITS,
        tick_spec(s).offset_ba == ZERO_BITS,
{
}

/// Law: on a non-degenerate tick, a raw scale lying strictly beyond a
/// clamp bound comes out exactly at that bound, never as the unclamped
/// quotient.
pub proof fn lemma_scale_clamped_to_bound(s: RangeMapper)
    requires
        inputs_finite(s),
        !degenerate_bits(sub_bits(s.in_max_a, s.in_min_a)),
        !degenerate_bits(sub_bits(s.in_max_b, s.in_min_b)),
    ensures
        lt_bits(
            CLAMP_MAX_BITS,
            div_bits(sub_bits(s.in_max_b, s.in_min_b), sub_bits(s.in_max_a, s.in_min_a)),
        ) ==> tick_spec(s).scale_ab == CLAMP_MAX_BITS,
        lt_bits(
            div_bits(sub_bits(s.in_max_b, s.in_min_b), sub_bits(s.in_max_a, s.in_min_a)),
            CLAMP_MIN_BITS,
        ) ==> tick_spec(s).scale_ab == CLAMP_MIN_BITS,
{
}

/// Law: the tick is deterministic and idempotent — it never changes the
/// bounds, so a second tick over unchanged inputs recomputes exactly the
/// same state.
pub proof fn lemma_tick_idempotent(s: RangeMapper)
    ensures
        tick_spec(tick_spec(s)) == tick_spec(s),
{
    let t = tick_spec(s);
    assert(t.in_min_a == s.in_min_a && t.in_max_a == s.in_max_a && t.in_min_b == s.in_min_b
        && t.in_max_b == s.in_max_b);
}

/// Law: an unrecognized name is harmless on every path — assignment leaves
/// the state unchanged, an output read yields 0.0, and an internal read
/// signals absence rather than a value.
pub proof fn lemma_unknown_name_ignored(s: RangeMapper, key: Seq<char>, v: u64)
    ensures
        !is_input_name(key) ==> set_input_spec(s, key, v) == s,
        !is_output_name(key) ==> output_value_spec(s, key) == ZERO_BITS,
        !is_internal_name(key) ==> internal_value_spec(s, key) is None,
{
}

} // verus!
