//! The range-mapper unit: a mutable shell of eight scalars around one pure
//! per-tick computation.
//!
//! The host assigns the four range bounds by label, triggers one tick, and
//! reads the four coefficients (and, for diagnostics, all eight fields)
//! back by name. Every scalar crosses this interface as the `u64` bit
//! pattern of an IEEE 754 double.

use crate::fbits::{
    clamp_bits, clamp_value, degenerate_bits, div_bits, f64_div, f64_mul, f64_sub, finite_bits,
    in_clamp_range, is_degenerate_value, is_finite_value, lemma_clamp_in_range,
    lemma_clamp_range_finite, lemma_fallback_in_range, mul_bits, sub_bits, ONE_BITS, ZERO_BITS,
};
use vstd::prelude::*;

verus! {

/// One range-mapper instance: the four range bounds the host has assigned
/// and the four coefficients of the last tick, all as binary64 bit
/// patterns. `scale_ab`/`offset_ab` map range A onto range B
/// (`b = a * scale_ab + offset_ab`); `scale_ba`/`offset_ba` map back.
#[derive(Clone, Copy, PartialEq, Eq, Structural, Debug)]
pub struct RangeMapper {
    pub in_min_a: u64,
    pub in_max_a: u64,
    pub in_min_b: u64,
    pub in_max_b: u64,
    pub scale_ab: u64,
    pub offset_ab: u64,
    pub scale_ba: u64,
    pub offset_ba: u64,
}

/// All four stored range bounds are finite.
pub open spec fn inputs_finite(s: RangeMapper) -> bool {
    &&& finite_bits(s.in_min_a)
    &&& finite_bits(s.in_max_a)
    &&& finite_bits(s.in_min_b)
    &&& finite_bits(s.in_max_b)
}

/// All four coefficients lie within the clamp bounds [-1e6, 1e6].
pub open spec fn outputs_bounded(s: RangeMapper) -> bool {
    &&& in_clamp_range(s.scale_ab)
    &&& in_clamp_range(s.offset_ab)
    &&& in_clamp_range(s.scale_ba)
    &&& in_clamp_range(s.offset_ba)
}

/// The resting-state invariant: finite bounds, bounded coefficients.
pub open spec fn wf(s: RangeMapper) -> bool {
    inputs_finite(s) && outputs_bounded(s)
}

/// The unit as it is created: every field zeroed.
pub open spec fn initial_unit() -> RangeMapper {
    RangeMapper {
        in_min_a: ZERO_BITS,
        in_max_a: ZERO_BITS,
        in_min_b: ZERO_BITS,
        in_max_b: ZERO_BITS,
        scale_ab: ZERO_BITS,
        offset_ab: ZERO_BITS,
        scale_ba: ZERO_BITS,
        offset_ba: ZERO_BITS,
    }
}

/// An assigned value is stored as given when finite and as 0.0 otherwise.
pub open spec fn sanitize(v: u64) -> u64 {
    if finite_bits(v) {
        v
    } else {
        ZERO_BITS
    }
}

/// The state after assigning `v` to the input labelled `key`: the matching
/// bound takes the sanitized value, an unrecognized label changes nothing,
/// and the coefficients are never touched.
pub open spec fn set_input_spec(s: RangeMapper, key: Seq<char>, v: u64) -> RangeMapper {
    if key == "Min 1 (V)"@ {
        RangeMapper { in_min_a: sanitize(v), ..s }
    } else if key == "Max 1 (V)"@ {
        RangeMapper { in_max_a: sanitize(v), ..s }
    } else if key == "Min 2 (V)"@ {
        RangeMapper { in_min_b: sanitize(v), ..s }
    } else if key == "Max 2 (V)"@ {
        RangeMapper { in_max_b: sanitize(v), ..s }
    } else {
        s
    }
}

/// The identity-mapping fallback: scale 1.0 and offset 0.0 in both
/// directions, the bounds left as they are.
pub open spec fn fallback_spec(s: RangeMapper) -> RangeMapper {
    RangeMapper {
        scale_ab: ONE_BITS,
        offset_ab: ZERO_BITS,
        scale_ba: ONE_BITS,
        offset_ba: ZERO_BITS,
        ..s
    }
}

/// The state after one tick: the fallback when any bound is non-finite or
/// either range span is degenerate, and otherwise the four clamped linear
/// coefficients derived from the spans.
pub open spec fn tick_spec(s: RangeMapper) -> RangeMapper {
    if !inputs_finite(s) {
        fallback_spec(s)
    } else {
        let range_a = sub_bits(s.in_max_a, s.in_min_a);
        let range_b = sub_bits(s.in_max_b, s.in_min_b);
        if degenerate_bits(range_a) || degenerate_bits(range_b) {
            fallback_spec(s)
        } else {
            let scale_ab = clamp_bits(div_bits(range_b, range_a));
            let scale_ba = clamp_bits(div_bits(range_a, range_b));
            RangeMapper {
                scale_ab,
                offset_ab: clamp_bits(sub_bits(s.in_min_b, mul_bits(s.in_min_a, scale_ab))),
                scale_ba,
                offset_ba: clamp_bits(sub_bits(s.in_min_a, mul_bits(s.in_min_b, scale_ba))),
                ..s
            }
        }
    }
}

/// The value read for the output labelled `key`: one of the four
/// coefficients, or 0.0 for an unrecognized label.
pub open spec fn output_value_spec(s: RangeMapper, key: Seq<char>) -> u64 {
    if key == "Scale 1-2"@ {
        s.scale_ab
    } else if key == "Offset 1-2"@ {
        s.offset_ab
    } else if key == "Scale 2-1"@ {
        s.scale_ba
    } else if key == "Offset 2-1"@ {
        s.offset_ba
    } else {
        ZERO_BITS
    }
}

/// The value read for the internal variable named `key`: any of the eight
/// fields, or nothing for an unrecognized name.
pub open spec fn internal_value_spec(s: RangeMapper, key: Seq<char>) -> Option<u64> {
    if key == "min1"@ {
        Some(s.in_min_a)
    } else if key == "max1"@ {
        Some(s.in_max_a)
    } else if key == "min2"@ {
        Some(s.in_min_b)
    } else if key == "max2"@ {
        Some(s.in_max_b)
    } else if key == "s12"@ {
        Some(s.scale_ab)
    } else if key == "o12"@ {
        Some(s.offset_ab)
    } else if key == "s21"@ {
        Some(s.scale_ba)
    } else if key == "o21"@ {
        Some(s.offset_ba)
    } else {
        None
    }
}

/// The four recognized input labels.
pub open spec fn is_input_name(key: Seq<char>) -> bool {
    ||| key == "Min 1 (V)"@
    ||| key == "Max 1 (V)"@
    ||| key == "Min 2 (V)"@
    ||| key == "Max 2 (V)"@
}

/// The four recognized output labels.
pub open spec fn is_output_name(key: Seq<char>) -> bool {
    ||| key == "Scale 1-2"@
    ||| key == "Offset 1-2"@
    ||| key == "Scale 2-1"@
    ||| key == "Offset 2-1"@
}

/// The eight recognized internal-variable names.
pub open spec fn is_internal_name(key: Seq<char>) -> bool {
    ||| key == "min1"@
    ||| key == "max1"@
    ||| key == "min2"@
    ||| key == "max2"@
    ||| key == "s12"@
    ||| key == "o12"@
    ||| key == "s21"@
    ||| key == "o21"@
}

/// The internal-variable name that reads the same field an input label
/// assigns.
pub open spec fn internal_name_for_input(key: Seq<char>) -> Seq<char> {
    if key == "Min 1 (V)"@ {
        "min1"@
    } else if key == "Max 1 (V)"@ {
        "max1"@
    } else if key == "Min 2 (V)"@ {
        "min2"@
    } else {
        "max2"@
    }
}

/// Relies on `str` equality: two string slices compare equal exactly when
/// their character sequences are equal.
#[verifier::external_body]
fn str_eq(a: &str, b: &str) -> (r: bool)
    ensures
        r == (a@ == b@),
{
    a == b
}

impl Default for RangeMapper {
    /// A fresh unit with every bound and coefficient zeroed.
    fn default() -> (r: Self)
        ensures
            r == initial_unit(),
            wf(r),
    {
        proof {
            lemma_fallback_in_range();
        }
        RangeMapper {
            in_min_a: ZERO_BITS,
            in_max_a: ZERO_BITS,
            in_min_b: ZERO_BITS,
            in_max_b: ZERO_BITS,
            scale_ab: ZERO_BITS,
            offset_ab: ZERO_BITS,
            scale_ba: ZERO_BITS,
            offset_ba: ZERO_BITS,
        }
    }
}

impl RangeMapper {
    /// Assigns `v` to the input labelled `key`. A non-finite value is
    /// stored as 0.0; an unrecognized label is silently ignored; the
    /// coefficients are never affected.
    pub fn set_input_value(&mut self, key: &str, v: u64)
        ensures
            *final(self) == set_input_spec(*old(self), key@, v),
            inputs_finite(*old(self)) ==> inputs_finite(*final(self)),
            wf(*old(self)) ==> wf(*final(self)),
    {
        if str_eq(key, "Min 1 (V)") {
            self.in_min_a = sanitize_value(v);
        } else if str_eq(key, "Max 1 (V)") {
            self.in_max_a = sanitize_value(v);
        } else if str_eq(key, "Min 2 (V)") {
            self.in_min_b = sanitize_value(v);
        } else if str_eq(key, "Max 2 (V)") {
            self.in_max_b = sanitize_value(v);
        }
    }

    /// Recomputes the four coefficients from the stored bounds: the
    /// identity fallback (scale 1.0, offset 0.0, both directions) when any
    /// bound is non-finite or either range span is degenerate, and the
    /// clamped linear mapping otherwise. The tick index and period are
    /// accepted for interface uniformity only; the computation is
    /// memoryless and time-invariant. The coefficients always come out
    /// within [-1e6, 1e6].
    pub fn process_tick(&mut self, _tick_index: u64, _period_seconds_bits: u64)
        ensures
            *final(self) == tick_spec(*old(self)),
            outputs_bounded(*final(self)),
            inputs_finite(*old(self)) ==> wf(*final(self)),
    {
        if !is_finite_value(self.in_min_a) || !is_finite_value(self.in_max_a)
            || !is_finite_value(self.in_min_b) || !is_finite_value(self.in_max_b) {
            self.scale_ab = ONE_BITS;
            self.offset_ab = ZERO_BITS;
            self.scale_ba = ONE_BITS;
            self.offset_ba = ZERO_BITS;
            proof {
                lemma_fallback_in_range();
            }
            return ;
        }
        let range_a = f64_sub(self.in_max_a, self.in_min_a);
        let range_b = f64_sub(self.in_max_b, self.in_min_b);
        if is_degenerate_value(range_a) || is_degenerate_value(range_b) {
            self.scale_ab = ONE_BITS;
            self.offset_ab = ZERO_BITS;
            self.scale_ba = ONE_BITS;
            self.offset_ba = ZERO_BITS;
            proof {
                lemma_fallback_in_range();
            }
            return ;
        }
        let scale_ab = clamp_value(f64_div(range_b, range_a));
        let scale_ba = clamp_value(f64_div(range_a, range_b));
        proof {
            lemma_clamp_in_range(div_bits(range_b, range_a));
            lemma_clamp_in_range(div_bits(range_a, range_b));
            lemma_clamp_range_finite(scale_ab);
            lemma_clamp_range_finite(scale_ba);
        }
        let offset_ab = clamp_value(f64_sub(self.in_min_b, f64_mul(self.in_min_a, scale_ab)));
        let offset_ba = clamp_value(f64_sub(self.in_min_a, f64_mul(self.in_min_b, scale_ba)));
        proof {
            lemma_clamp_in_range(sub_bits(self.in_min_b, mul_bits(self.in_min_a, scale_ab)));
            lemma_clamp_in_range(sub_bits(self.in_min_a, mul_bits(self.in_min_b, scale_ba)));
        }
        self.scale_ab = scale_ab;
        self.offset_ab = offset_ab;
        self.scale_ba = scale_ba;
        self.offset_ba = offset_ba;
    }

    /// Reads the output labelled `key`; an unrecognized label reads 0.0.
    pub fn get_output_value(&self, key: &str) -> (r: u64)
        ensures
            r == output_value_spec(*self, key@),
    {
        if str_eq(key, "Scale 1-2") {
            self.scale_ab
        } else if str_eq(key, "Offset 1-2") {
            self.offset_ab
        } else if str_eq(key, "Scale 2-1") {
            self.scale_ba
        } else if str_eq(key, "Offset 2-1") {
            self.offset_ba
        } else {
            ZERO_BITS
        }
    }

    /// Reads the internal variable named `key`; an unrecognized name reads
    /// as absent, distinct from a stored zero.
    pub fn get_internal_value(&self, key: &str) -> (r: Option<u64>)
        ensures
            r == internal_value_spec(*self, key@),
    {
        if str_eq(key, "min1") {
            Some(self.in_min_a)
        } else if str_eq(key, "max1") {
            Some(self.in_max_a)
        } else if str_eq(key, "min2") {
            Some(self.in_min_b)
        } else if str_eq(key, "max2") {
            Some(self.in_max_b)
        } else if str_eq(key, "s12") {
            Some(self.scale_ab)
        } else if str_eq(key, "o12") {
            Some(self.offset_ab)
        } else if str_eq(key, "s21") {
            Some(self.scale_ba)
        } else if str_eq(key, "o21") {
            Some(self.offset_ba)
        } else {
            None
        }
    }
}

/// Stores a finite value as given and any other as 0.0.
fn sanitize_value(v: u64) -> (r: u64)
    ensures
        r == sanitize(v),
{
    if is_finite_value(v) {
        v
    } else {
        ZERO_BITS
    }
}

} // verus!
