//! Conversion of native 32-bit integer samples to the stored 16-bit signed
//! representation, and back.

use vstd::prelude::*;

verus! {

/// Number of source steps that one step of the 16-bit representation covers.
pub const STEP: i64 = 65536;

/// The 16-bit value of a 32-bit sample: its 16 most significant bits, that
/// is the floor of `s / 2^16`.
pub open spec fn to_i16_spec(s: i32) -> int {
    s as int / 65536
}

/// The 32-bit value of a 16-bit sample: scaled up by `2^16`.
pub open spec fn to_i32_spec(s: i16) -> int {
    s as int * 65536
}

/// Converts one 32-bit sample to 16 bits, rounding toward negative infinity.
pub fn i32_to_i16(s: i32) -> (r: i16)
    ensures
        r as int == to_i16_spec(s),
{
    let shifted: u64 = (s as i64 + 2147483648i64) as u64;
    let q: u64 = shifted / 65536;
    assert(q < 65536);
    let r: i64 = q as i64 - 32768;
    assert(r as int == s as int / 65536) by {
        let x = s as int / 65536;
        let b = s as int % 65536;
        vstd::arithmetic::div_mod::lemma_fundamental_div_mod(s as int, 65536);
        vstd::arithmetic::div_mod::lemma_div_multiples_vanish_fancy(x + 32768, b, 65536);
        assert(shifted as int == 65536 * (x + 32768) + b);
    }
    r as i16
}

/// Converts one 16-bit sample back to the 32-bit representation.
pub fn i16_to_i32(s: i16) -> (r: i32)
    ensures
        r as int == to_i32_spec(s),
{
    s as i32 * 65536
}

/// Converts a whole frame, sample by sample, with no resampling or remixing.
pub fn convert_frame(frame: &[i32]) -> (r: Vec<i16>)
    ensures
        r@.len() == frame@.len(),
        forall|i: int| 0 <= i < frame@.len() ==> r@[i] as int == to_i16_spec(#[trigger] frame@[i]),
{
    let mut out: Vec<i16> = Vec::new();
    let mut i: usize = 0;
    while i < frame.len()
        invariant
            i <= frame@.len(),
            out@.len() == i,
            forall|j: int| 0 <= j < i ==> out@[j] as int == to_i16_spec(#[trigger] frame@[j]),
        decreases frame@.len() - i,
    {
        out.push(i32_to_i16(frame[i]));
        i = i + 1;
    }
    out
}

/// A 32-bit sample taken to 16 bits and back lies at most one 16-bit step
/// below the original, never above it; a 16-bit sample taken to 32 bits and
/// back is unchanged.
pub proof fn law_round_trip(s: i32, t: i16)
    ensures
        to_i32_spec(to_i16_spec(s) as i16) <= s as int,
        s as int - to_i32_spec(to_i16_spec(s) as i16) < STEP,
        to_i16_spec(to_i32_spec(t) as i32) == t as int,
{
    vstd::arithmetic::div_mod::lemma_fundamental_div_mod(s as int, 65536);
    assert(-32768 <= s as int / 65536 < 32768);
    assert(to_i32_spec(t) == 65536 * (t as int) + 0);
    vstd::arithmetic::div_mod::lemma_div_multiples_vanish_fancy(t as int, 0, 65536);
}

/// A silent frame converts to a silent frame.
pub proof fn law_silence(frame: Seq<i32>)
    requires
        forall|i: int| 0 <= i < frame.len() ==> #[trigger] frame[i] == 0,
    ensures
        forall|i: int| 0 <= i < frame.len() ==> to_i16_spec(#[trigger] frame[i]) == 0,
{
}

} // verus!
