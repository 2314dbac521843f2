//! The laws of the mixer, stated over the model and proved once for all
//! contents: what the empty mixer yields, the single-color shortcut, the
//! bounds of a single-family mix, the balanced standard blend, and the
//! determinism of mixing.

use vstd::arithmetic::div_mod::{
    lemma_div_by_multiple, lemma_div_is_ordered, lemma_fundamental_div_mod_converse_div,
};
use vstd::prelude::*;

use crate::color::{blue, is_yellow_shade, parse_color, yellow, Color};
use crate::error::ColorMixerError;
use crate::mixer::{
    blended, channel, family_average, family_count, family_sum, in_family, mixed_color_of,
};

verus! {

/// Each recognized color has a name spelling and a hex spelling, and the two
/// resolve to the same color.
pub proof fn lemma_name_hex_agree()
    ensures
        parse_color("yellow"@) == parse_color("#ffed00"@),
        parse_color("light-yellow"@) == parse_color("#fff980"@),
        parse_color("dark-yellow"@) == parse_color("#ccbb00"@),
        parse_color("blue"@) == parse_color("#0047ab"@),
        parse_color("light-blue"@) == parse_color("#6699ff"@),
        parse_color("dark-blue"@) == parse_color("#00205b"@),
{
    broadcast use vstd::string::group_string_axioms;

    reveal_strlit("yellow");
    reveal_strlit("#ffed00");
    reveal_strlit("light-yellow");
    reveal_strlit("#fff980");
    reveal_strlit("dark-yellow");
    reveal_strlit("#ccbb00");
    reveal_strlit("blue");
    reveal_strlit("#0047ab");
    reveal_strlit("light-blue");
    reveal_strlit("#6699ff");
    reveal_strlit("dark-blue");
    reveal_strlit("#00205b");
    assert("yellow"@.len() == 6);
    assert("light-yellow"@.len() == 12);
    assert("dark-yellow"@.len() == 11);
    assert("blue"@.len() == 4);
    assert("light-blue"@.len() == 10);
    assert("dark-blue"@.len() == 9);
    assert("#ffed00"@.len() == 7);
    assert("#fff980"@.len() == 7);
    assert("#ccbb00"@.len() == 7);
    assert("#0047ab"@.len() == 7);
    assert("#6699ff"@.len() == 7);
    assert("#00205b"@.len() == 7);
    assert("#ffed00"@[1] == 'f' && "#ffed00"@[2] == 'f' && "#ffed00"@[3] == 'e');
    assert("#fff980"@[1] == 'f' && "#fff980"@[2] == 'f' && "#fff980"@[3] == 'f');
    assert("#ccbb00"@[1] == 'c' && "#ccbb00"@[2] == 'c' && "#ccbb00"@[3] == 'b');
    assert("#0047ab"@[1] == '0' && "#0047ab"@[2] == '0' && "#0047ab"@[3] == '4');
    assert("#6699ff"@[1] == '6' && "#6699ff"@[2] == '6' && "#6699ff"@[3] == '9');
    assert("#00205b"@[1] == '0' && "#00205b"@[2] == '0' && "#00205b"@[3] == '2');
}

/// Mixing with no colors at hand always fails with `NoColors`.
pub proof fn lemma_empty_mix_fails(s: Seq<Color>)
    requires
        s.len() == 0,
    ensures
        mixed_color_of(s) == Err::<Color, ColorMixerError>(ColorMixerError::NoColors),
{
}

/// A single color of any kind is returned exactly as it went in.
pub proof fn lemma_single_color_unchanged(s: Seq<Color>)
    requires
        s.len() == 1,
    ensures
        mixed_color_of(s) == Ok::<Color, ColorMixerError>(s[0]),
{
}

/// The mixed color is a function of the contents alone: mixers with equal
/// contents mix to the same color, so repeated mixes without an intervening
/// change agree.
pub proof fn lemma_mix_deterministic(s1: Seq<Color>, s2: Seq<Color>)
    requires
        s1 == s2,
    ensures
        mixed_color_of(s1) == mixed_color_of(s2),
{
}

/// A mixer holding only yellow-family shades mixes to that family's average,
/// which never drifts outside the bounds the family's own shades span.
pub proof fn lemma_yellow_family_stays_in_bounds(s: Seq<Color>)
    requires
        s.len() > 0,
        forall|i: int| 0 <= i < s.len() ==> is_yellow_shade(#[trigger] s[i]),
    ensures
        mixed_color_of(s) matches Ok(c) && 204 <= c.r <= 255 && 187 <= c.g <= 249 && 0 <= c.b
            <= 128,
{
    if s.len() == 1 {
        assert(is_yellow_shade(s[0]));
    } else {
        lemma_all_one_family_counts(s, true);
        let yc = family_count(s, true);
        assert forall|i: int| 0 <= i < s.len() && in_family(#[trigger] s[i], true) implies 204
            <= channel(s[i], 0) <= 255 && 187 <= channel(s[i], 1) <= 249 && 0 <= channel(s[i], 2)
            <= 128 by {
            assert(is_yellow_shade(s[i]));
        }
        lemma_family_sum_bounds(s, true, 0, 204, 255);
        lemma_family_sum_bounds(s, true, 1, 187, 249);
        lemma_family_sum_bounds(s, true, 2, 0, 128);
        lemma_avg_in_bounds(family_sum(s, true, 0), yc, 204, 255);
        lemma_avg_in_bounds(family_sum(s, true, 1), yc, 187, 249);
        lemma_avg_in_bounds(family_sum(s, true, 2), yc, 0, 128);
        assert(mixed_color_of(s) == Ok::<Color, ColorMixerError>(family_average(s, true)));
    }
}

/// Mixing `n` standard yellow with `n` standard blue, for any positive `n`,
/// always yields the same balanced blend: red 127, green 154, blue 85, the
/// halves truncated toward zero.
pub proof fn lemma_balanced_standard_mix(s: Seq<Color>, n: int)
    requires
        n >= 1,
        s.len() == 2 * n,
        forall|i: int| 0 <= i < s.len() ==> s[i] == yellow() || #[trigger] s[i] == blue(),
        family_count(s, true) == n,
        family_count(s, false) == n,
    ensures
        mixed_color_of(s) == Ok::<Color, ColorMixerError>(Color { r: 127, g: 154, b: 85 }),
{
    assert forall|i: int| 0 <= i < s.len() && in_family(#[trigger] s[i], true) implies s[i]
        == yellow() by {}
    assert forall|i: int| 0 <= i < s.len() && in_family(#[trigger] s[i], false) implies s[i]
        == blue() by {}
    lemma_uniform_family_sum(s, true, yellow(), 0);
    lemma_uniform_family_sum(s, true, yellow(), 1);
    lemma_uniform_family_sum(s, true, yellow(), 2);
    lemma_uniform_family_sum(s, false, blue(), 0);
    lemma_uniform_family_sum(s, false, blue(), 1);
    lemma_uniform_family_sum(s, false, blue(), 2);
    assert(family_sum(s, true, 0) + family_sum(s, false, 0) == 255 * n);
    assert(family_sum(s, true, 1) + family_sum(s, false, 1) == 308 * n);
    assert(family_sum(s, true, 2) + family_sum(s, false, 2) == 171 * n);
    assert(255 * n == 127 * (2 * n) + n);
    lemma_fundamental_div_mod_converse_div(255 * n, 2 * n, 127, n);
    assert(308 * n == 154 * (2 * n) + 0);
    lemma_fundamental_div_mod_converse_div(308 * n, 2 * n, 154, 0);
    assert(171 * n == 85 * (2 * n) + n);
    lemma_fundamental_div_mod_converse_div(171 * n, 2 * n, 85, n);
    assert(blended(s) == (Color { r: 127, g: 154, b: 85 }));
}

/// When every entry lies in one family, that family's count is the whole
/// length and the other family's count is zero.
proof fn lemma_all_one_family_counts(s: Seq<Color>, yellow_family: bool)
    requires
        forall|i: int| 0 <= i < s.len() ==> in_family(#[trigger] s[i], yellow_family),
    ensures
        family_count(s, yellow_family) == s.len(),
        family_count(s, !yellow_family) == 0,
    decreases s.len(),
{
    if s.len() > 0 {
        lemma_all_one_family_counts(s.drop_last(), yellow_family);
    }
}

/// A family's channel sum is bounded by the channel bounds of its members,
/// scaled by how many members there are.
proof fn lemma_family_sum_bounds(s: Seq<Color>, yellow_family: bool, ch: int, lo: int, hi: int)
    requires
        0 <= lo,
        forall|i: int|
            0 <= i < s.len() && in_family(#[trigger] s[i], yellow_family) ==> lo <= channel(
                s[i],
                ch,
            ) <= hi,
    ensures
        lo * family_count(s, yellow_family) <= family_sum(s, yellow_family, ch) <= hi
            * family_count(s, yellow_family),
        family_count(s, yellow_family) >= 0,
    decreases s.len(),
{
    if s.len() > 0 {
        lemma_family_sum_bounds(s.drop_last(), yellow_family, ch, lo, hi);
        let k = family_count(s.drop_last(), yellow_family);
        if in_family(s.last(), yellow_family) {
            assert(lo * (k + 1) == lo * k + lo) by (nonlinear_arith);
            assert(hi * (k + 1) == hi * k + hi) by (nonlinear_arith);
        }
    }
}

/// When every member of a family is one and the same shade, the family's
/// channel sum is that shade's channel scaled by the member count.
proof fn lemma_uniform_family_sum(s: Seq<Color>, yellow_family: bool, shade: Color, ch: int)
    requires
        forall|i: int|
            0 <= i < s.len() && in_family(#[trigger] s[i], yellow_family) ==> s[i] == shade,
    ensures
        family_sum(s, yellow_family, ch) == channel(shade, ch) * family_count(s, yellow_family),
    decreases s.len(),
{
    if s.len() > 0 {
        lemma_uniform_family_sum(s.drop_last(), yellow_family, shade, ch);
        let k = family_count(s.drop_last(), yellow_family);
        let v = channel(shade, ch);
        if in_family(s.last(), yellow_family) {
            assert(v * (k + 1) == v * k + v) by (nonlinear_arith);
        }
    }
}

/// A truncated average lies between the bounds of the values averaged.
proof fn lemma_avg_in_bounds(sum: int, cnt: int, lo: int, hi: int)
    requires
        0 < cnt,
        0 <= lo <= hi,
        lo * cnt <= sum,
        sum <= hi * cnt,
    ensures
        lo <= sum / cnt <= hi,
{
    lemma_div_is_ordered(lo * cnt, sum, cnt);
    lemma_div_by_multiple(lo, cnt);
    lemma_div_is_ordered(sum, hi * cnt, cnt);
    lemma_div_by_multiple(hi, cnt);
}

} // verus!
