//! The mixer: a bounded collection of recognized colors and the deterministic
//! blend computed from it.

use vstd::arithmetic::div_mod::{lemma_div_by_multiple, lemma_div_is_ordered, lemma_div_pos_is_pos};
use vstd::prelude::*;
use vstd::string::StringExecFns;

use crate::color::{
    full_color_name, is_blue_shade, is_yellow_shade, lower_of, parse_color, recognized, str_eq,
    unsupported_msg, Color,
};
use crate::error::ColorMixerError;

verus! {

/// Maximum number of colors that can be mixed.
pub const MAX_COLORS: usize = 1000;

/// Request for adding a color to the mixer.
#[derive(Debug)]
pub struct AddColorRequest {
    /// The color to add ("yellow" or "blue").
    pub color: String,
    /// The shade of the color ("light", "standard", or "dark").
    pub shade: String,
    /// The quantity of the color to add.
    pub quantity: u32,
}

/// Default quantity for color addition.
pub fn default_quantity() -> (q: u32)
    ensures
        q == 1,
{
    1
}

/// Default shade for color addition.
pub fn default_shade() -> (s: String)
    ensures
        s@ == "standard"@,
{
    "standard".to_owned()
}

/// Whether a color belongs to the given family: the yellow one when
/// `yellow_family` holds, the blue one otherwise.
pub open spec fn in_family(c: Color, yellow_family: bool) -> bool {
    if yellow_family {
        is_yellow_shade(c)
    } else {
        is_blue_shade(c)
    }
}

/// One channel of a color: red for 0, green for 1, blue otherwise.
pub open spec fn channel(c: Color, ch: int) -> int {
    if ch == 0 {
        c.r as int
    } else if ch == 1 {
        c.g as int
    } else {
        c.b as int
    }
}

/// How many entries of the sequence belong to the given family.
pub open spec fn family_count(s: Seq<Color>, yellow_family: bool) -> int
    decreases s.len(),
{
    if s.len() == 0 {
        0
    } else {
        family_count(s.drop_last(), yellow_family) + if in_family(s.last(), yellow_family) {
            1int
        } else {
            0int
        }
    }
}

/// The sum of one channel over the entries of the given family.
pub open spec fn family_sum(s: Seq<Color>, yellow_family: bool, ch: int) -> int
    decreases s.len(),
{
    if s.len() == 0 {
        0
    } else {
        family_sum(s.drop_last(), yellow_family, ch) + if in_family(s.last(), yellow_family) {
            channel(s.last(), ch)
        } else {
            0int
        }
    }
}

/// The per-channel average of one family's entries, each channel truncated
/// toward zero.
pub open spec fn family_average(s: Seq<Color>, yellow_family: bool) -> Color {
    let n = family_count(s, yellow_family);
    Color {
        r: (family_sum(s, yellow_family, 0) / n) as u8,
        g: (family_sum(s, yellow_family, 1) / n) as u8,
        b: (family_sum(s, yellow_family, 2) / n) as u8,
    }
}

/// The count-weighted blend of the two families: per channel, the sum over
/// both families divided by the number of family members, truncated toward
/// zero. Weighting each family's internal average by its share of the total
/// reduces to exactly this quotient.
pub open spec fn blended(s: Seq<Color>) -> Color {
    let total = family_count(s, true) + family_count(s, false);
    Color {
        r: ((family_sum(s, true, 0) + family_sum(s, false, 0)) / total) as u8,
        g: ((family_sum(s, true, 1) + family_sum(s, false, 1)) / total) as u8,
        b: ((family_sum(s, true, 2) + family_sum(s, false, 2)) / total) as u8,
    }
}

/// What mixing yields for given contents: an error on the empty sequence, the
/// sole entry unchanged for a single color, a family average when only one
/// family is present, and the weighted blend when both are. Entries outside
/// the two families are ignored by the counts; the mixer never holds any.
pub open spec fn mixed_color_of(s: Seq<Color>) -> Result<Color, ColorMixerError> {
    if s.len() == 0 {
        Err(ColorMixerError::NoColors)
    } else if s.len() == 1 {
        Ok(s[0])
    } else {
        let yc = family_count(s, true);
        let bc = family_count(s, false);
        if yc > 0 && bc == 0 {
            Ok(family_average(s, true))
        } else if bc > 0 && yc == 0 {
            Ok(family_average(s, false))
        } else if yc > 0 && bc > 0 {
            Ok(blended(s))
        } else {
            Err(ColorMixerError::NoColors)
        }
    }
}

/// Color mixer with RGB support.
#[derive(Debug)]
pub struct ColorMixer {
    /// List of colors currently in the mixer.
    colors: Vec<Color>,
    /// Maximum number of colors allowed.
    max_colors: usize,
}

impl View for ColorMixer {
    type V = Seq<Color>;

    closed spec fn view(&self) -> Seq<Color> {
        self.colors@
    }
}

impl Clone for ColorMixer {
    /// Cloning yields a mixer with the same contents.
    fn clone(&self) -> (res: Self)
        ensures
            res@ == self@,
    {
        proof {
            use_type_invariant(self);
        }
        let colors = self.colors.clone();
        proof {
            assert forall|i: int| 0 <= i < self.colors@.len() implies colors@[i]
                == self.colors@[i] by {
                assert(vstd::pervasive::cloned::<Color>(self.colors@[i], colors@[i]));
            }
            assert(colors@ =~= self.colors@);
        }
        ColorMixer { colors, max_colors: self.max_colors }
    }
}

impl ColorMixer {
    #[verifier::type_invariant]
    spec fn wf(self) -> bool {
        &&& self.colors@.len() <= self.max_colors
        &&& self.max_colors == MAX_COLORS
        &&& forall|i: int|
            0 <= i < self.colors@.len() ==> recognized(#[trigger] self.colors@[i])
    }

    /// Create a new, empty color mixer.
    pub fn new() -> (m: Self)
        ensures
            m@ == Seq::<Color>::empty(),
    {
        ColorMixer { colors: Vec::new(), max_colors: MAX_COLORS }
    }

    /// Add multiple units of a color at once: resolve the spelling first
    /// (failing before any mutation), then check that all units fit, then add
    /// them all — never only some.
    pub fn add_colors_str(&mut self, color_str: &str, shade: &str, quantity: u32) -> (res: Result<
        (),
        ColorMixerError,
    >)
        ensures
            ({
                let full = full_color_name(color_str@, shade@);
                match parse_color(lower_of(full)) {
                    None => final(self)@ == old(self)@ && (res matches Err(
                        ColorMixerError::UnsupportedColor(m,
                    )) && m@ == unsupported_msg(full)),
                    Some(c) => {
                        if old(self)@.len() + quantity > MAX_COLORS {
                            &&& final(self)@ == old(self)@
                            &&& res == Err::<(), ColorMixerError>(ColorMixerError::MaxColorsReached)
                        } else {
                            &&& final(self)@ == old(self)@ + Seq::new(
                                quantity as nat,
                                (|j: int| c),
                            )
                            &&& res == Ok::<(), ColorMixerError>(())
                        }
                    },
                }
            }),
    {
        proof {
            use_type_invariant(&*self);
        }
        // Construct the full color name with shade.
        let full: String = if str_eq(shade, "standard") {
            color_str.to_owned()
        } else {
            let mut name: String = shade.to_owned();
            name.append("-");
            name.append(color_str);
            name
        };
        proof {
            assert(full@ =~= full_color_name(color_str@, shade@));
        }
        // Validate the color first to avoid partial additions if it is invalid.
        let color = match Color::from_str(full.as_str()) {
            Ok(c) => c,
            Err(e) => {
                return Err(e);
            },
        };
        // Check that there is enough space for all the colors.
        if quantity as usize > self.max_colors - self.colors.len() {
            return Err(ColorMixerError::MaxColorsReached);
        }
        // Add the colors.
        let mut grown: Vec<Color> = Vec::new();
        std::mem::swap(&mut grown, &mut self.colors);
        let ghost orig = grown@;
        let mut i: u32 = 0;
        while i < quantity
            invariant
                i <= quantity,
                orig.len() + quantity <= MAX_COLORS,
                recognized(color),
                grown@ == orig + Seq::new(i as nat, (|j: int| color)),
            decreases quantity - i,
        {
            grown.push(color);
            i += 1;
            proof {
                assert(grown@ =~= orig + Seq::new(i as nat, (|j: int| color)));
            }
        }
        self.colors = grown;
        Ok(())
    }

    /// Clear all colors from the mixer.
    pub fn clear(&mut self)
        ensures
            final(self)@ == Seq::<Color>::empty(),
    {
        proof {
            use_type_invariant(&*self);
        }
        self.colors = Vec::new();
    }

    /// Get the currently mixed color. The result is a function of the current
    /// contents alone, so repeated calls agree until the contents change.
    pub fn get_mixed_color(&self) -> (res: Result<Color, ColorMixerError>)
        ensures
            res == mixed_color_of(self@),
    {
        proof {
            use_type_invariant(&*self);
        }
        if self.colors.len() == 0 {
            return Err(ColorMixerError::NoColors);
        }
        if self.colors.len() == 1 {
            return Ok(self.colors[0]);
        }
        let ghost s = self.colors@;
        let n: usize = self.colors.len();
        let mut yc: u32 = 0;
        let mut bc: u32 = 0;
        let mut ysum_r: u32 = 0;
        let mut ysum_g: u32 = 0;
        let mut ysum_b: u32 = 0;
        let mut bsum_r: u32 = 0;
        let mut bsum_g: u32 = 0;
        let mut bsum_b: u32 = 0;
        let mut i: usize = 0;
        while i < n
            invariant
                n == s.len(),
                s == self.colors@,
                n <= MAX_COLORS,
                i <= n,
                yc <= i,
                bc <= i,
                yc == family_count(s.take(i as int), true),
                bc == family_count(s.take(i as int), false),
                ysum_r == family_sum(s.take(i as int), true, 0),
                ysum_g == family_sum(s.take(i as int), true, 1),
                ysum_b == family_sum(s.take(i as int), true, 2),
                bsum_r == family_sum(s.take(i as int), false, 0),
                bsum_g == family_sum(s.take(i as int), false, 1),
                bsum_b == family_sum(s.take(i as int), false, 2),
                ysum_r <= 255 * yc,
                ysum_g <= 255 * yc,
                ysum_b <= 255 * yc,
                bsum_r <= 255 * bc,
                bsum_g <= 255 * bc,
                bsum_b <= 255 * bc,
            decreases n - i,
        {
            let c = self.colors[i];
            if c.is_yellow() || c.is_light_yellow() || c.is_dark_yellow() {
                yc = yc + 1;
                ysum_r = ysum_r + c.r as u32;
                ysum_g = ysum_g + c.g as u32;
                ysum_b = ysum_b + c.b as u32;
            } else if c.is_blue() || c.is_light_blue() || c.is_dark_blue() {
                bc = bc + 1;
                bsum_r = bsum_r + c.r as u32;
                bsum_g = bsum_g + c.g as u32;
                bsum_b = bsum_b + c.b as u32;
            }
            proof {
                assert(s.take(i as int + 1).drop_last() =~= s.take(i as int));
            }
            i = i + 1;
        }
        proof {
            assert(s.take(n as int) =~= s);
            lemma_family_counts_cover(s);
        }
        if yc > 0 && bc == 0 {
            let r = avg_channel(ysum_r, yc);
            let g = avg_channel(ysum_g, yc);
            let b = avg_channel(ysum_b, yc);
            Ok(Color::new(r, g, b))
        } else if bc > 0 && yc == 0 {
            let r = avg_channel(bsum_r, bc);
            let g = avg_channel(bsum_g, bc);
            let b = avg_channel(bsum_b, bc);
            Ok(Color::new(r, g, b))
        } else {
            let total = yc + bc;
            let r = avg_channel(ysum_r + bsum_r, total);
            let g = avg_channel(ysum_g + bsum_g, total);
            let b = avg_channel(ysum_b + bsum_b, total);
            Ok(Color::new(r, g, b))
        }
    }
}

/// One channel of an average: the truncated quotient of a channel sum by the
/// number of entries summed, which always fits one channel.
fn avg_channel(sum: u32, cnt: u32) -> (q: u8)
    requires
        cnt > 0,
        sum <= 255 * cnt,
    ensures
        q == sum as int / cnt as int,
{
    proof {
        lemma_div_pos_is_pos(sum as int, cnt as int);
        lemma_div_is_ordered(sum as int, 255 * cnt, cnt as int);
        lemma_div_by_multiple(255, cnt as int);
    }
    (sum / cnt) as u8
}

/// Every recognized color lies in exactly one family, so over contents the
/// mixer can hold the two family counts cover the whole sequence.
pub proof fn lemma_family_counts_cover(s: Seq<Color>)
    requires
        forall|i: int| 0 <= i < s.len() ==> recognized(#[trigger] s[i]),
    ensures
        family_count(s, true) + family_count(s, false) == s.len(),
        family_count(s, true) >= 0,
        family_count(s, false) >= 0,
    decreases s.len(),
{
    if s.len() > 0 {
        lemma_family_counts_cover(s.drop_last());
    }
}

} // verus!
