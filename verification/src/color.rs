use vstd::prelude::*;
use vstd::string::StringSliceAdditionalSpecFns;

verus! {

/// The value of a fully saturated 8-bit channel: an alpha of `CHANNEL_MAX`
/// is fully opaque.
pub const CHANNEL_MAX: u8 = 255;

/// The HDR brightness multiplier is kept in units of 1/255, so this value
/// stands for a multiplier of exactly one.
pub const HDR_ONE: u16 = 255;

/// The plain values of a color as the engine stores them: the blue, green,
/// red and alpha channels, eight bits each, and the HDR brightness
/// multiplier in units of 1/255.
#[derive(Clone, Copy, Debug, PartialEq, Eq, Structural)]
pub struct ColorValues {
    pub blue: u8,
    pub green: u8,
    pub red: u8,
    pub alpha: u8,
    pub hdr: u16,
}

/// A color, owning its channel values.
#[derive(Clone, Copy, Debug, PartialEq, Eq, Structural)]
pub struct Color {
    pub values: ColorValues,
}

impl View for Color {
    type V = ColorValues;

    open spec fn view(&self) -> ColorValues {
        self.values
    }
}

/// The channel values decoded from a packed ABGR word: alpha in the top
/// byte, then blue, green, and red in the lowest byte.
pub open spec fn abgr_values(abgr: u32) -> ColorValues {
    ColorValues {
        alpha: ((abgr >> 24) & 0xff) as u8,
        blue: ((abgr >> 16) & 0xff) as u8,
        green: ((abgr >> 8) & 0xff) as u8,
        red: (abgr & 0xff) as u8,
        hdr: HDR_ONE,
    }
}

/// The channel values decoded from a packed ARGB word: alpha in the top
/// byte, then red, green, and blue in the lowest byte.
pub open spec fn argb_values(argb: u32) -> ColorValues {
    ColorValues {
        alpha: ((argb >> 24) & 0xff) as u8,
        red: ((argb >> 16) & 0xff) as u8,
        green: ((argb >> 8) & 0xff) as u8,
        blue: (argb & 0xff) as u8,
        hdr: HDR_ONE,
    }
}

/// The packed ABGR word holding the given channel values.
pub open spec fn values_to_abgr(v: ColorValues) -> u32 {
    ((v.alpha as u32) << 24) | ((v.blue as u32) << 16) | ((v.green as u32) << 8) | (v.red as u32)
}

/// The packed ARGB word holding the given channel values.
pub open spec fn values_to_argb(v: ColorValues) -> u32 {
    ((v.alpha as u32) << 24) | ((v.red as u32) << 16) | ((v.green as u32) << 8) | (v.blue as u32)
}

/// The packed RGB word holding the given channel values: red, green and
/// blue in the low three bytes, the top byte zero.
pub open spec fn values_to_rgb(v: ColorValues) -> u32 {
    ((v.red as u32) << 16) | ((v.green as u32) << 8) | (v.blue as u32)
}

impl Color {
    /// Wraps already-decoded channel values.
    pub fn from_raw(raw: ColorValues) -> (c: Self)
        ensures
            c@ == raw,
    {
        Color { values: raw }
    }

    /// The channel values this color holds.
    pub fn raw(&self) -> (r: ColorValues)
        ensures
            r == self@,
    {
        self.values
    }

    /// Decodes a packed ABGR word; the HDR multiplier is set to one.
    pub fn from_abgr(abgr: u32) -> (c: Self)
        ensures
            c@ == abgr_values(abgr),
    {
        Color {
            values: ColorValues {
                alpha: ((abgr >> 24) & 0xff) as u8,
                blue: ((abgr >> 16) & 0xff) as u8,
                green: ((abgr >> 8) & 0xff) as u8,
                red: (abgr & 0xff) as u8,
                hdr: HDR_ONE,
            },
        }
    }

    /// Decodes a packed ARGB word; the HDR multiplier is set to one.
    pub fn from_argb(argb: u32) -> (c: Self)
        ensures
            c@ == argb_values(argb),
    {
        Color {
            values: ColorValues {
                alpha: ((argb >> 24) & 0xff) as u8,
                red: ((argb >> 16) & 0xff) as u8,
                green: ((argb >> 8) & 0xff) as u8,
                blue: (argb & 0xff) as u8,
                hdr: HDR_ONE,
            },
        }
    }

    /// Packs the channels into an ABGR word; the HDR multiplier is dropped.
    pub fn to_abgr(&self) -> (r: u32)
        ensures
            r == values_to_abgr(self@),
    {
        ((self.values.alpha as u32) << 24) | ((self.values.blue as u32) << 16)
            | ((self.values.green as u32) << 8) | (self.values.red as u32)
    }

    /// Packs the channels into an ARGB word; the HDR multiplier is dropped.
    pub fn to_argb(&self) -> (r: u32)
        ensures
            r == values_to_argb(self@),
    {
        ((self.values.alpha as u32) << 24) | ((self.values.red as u32) << 16)
            | ((self.values.green as u32) << 8) | (self.values.blue as u32)
    }

    /// Packs the color channels into an RGB word, dropping alpha and HDR.
    pub fn to_rgb(&self) -> (r: u32)
        ensures
            r == values_to_rgb(self@),
    {
        ((self.values.red as u32) << 16) | ((self.values.green as u32) << 8)
            | (self.values.blue as u32)
    }
}

/// Whether a byte is the ASCII code of a hexadecimal digit.
pub open spec fn is_hex_digit(b: u8) -> bool {
    (48 <= b <= 57) || (65 <= b <= 70) || (97 <= b <= 102)
}

/// The numeric value of the ASCII code of a hexadecimal digit.
pub open spec fn hex_digit_value(b: u8) -> u8 {
    if 48 <= b <= 57 {
        (b - 48) as u8
    } else if 65 <= b <= 70 {
        (b - 55) as u8
    } else if 97 <= b <= 102 {
        (b - 87) as u8
    } else {
        0
    }
}

/// Whether every byte of a sequence is the ASCII code of a hexadecimal
/// digit.
pub open spec fn all_hex_digits(s: Seq<u8>) -> bool {
    forall|i: int| 0 <= i < s.len() ==> is_hex_digit(#[trigger] s[i])
}

/// The channel value written as two hexadecimal digits, high digit first.
pub open spec fn hex_pair(hi: u8, lo: u8) -> u8 {
    (hex_digit_value(hi) * 16 + hex_digit_value(lo)) as u8
}

/// The channel values written as a run of hexadecimal digits: eight digits
/// spell alpha, red, green and blue, six spell red, green and blue with a
/// fully opaque alpha.  The HDR multiplier is one either way.
pub open spec fn hex_values(digits: Seq<u8>) -> ColorValues {
    if digits.len() == 8 {
        ColorValues {
            alpha: hex_pair(digits[0], digits[1]),
            red: hex_pair(digits[2], digits[3]),
            green: hex_pair(digits[4], digits[5]),
            blue: hex_pair(digits[6], digits[7]),
            hdr: HDR_ONE,
        }
    } else {
        ColorValues {
            alpha: CHANNEL_MAX,
            red: hex_pair(digits[0], digits[1]),
            green: hex_pair(digits[2], digits[3]),
            blue: hex_pair(digits[4], digits[5]),
            hdr: HDR_ONE,
        }
    }
}

/// The numeric value of one ASCII hexadecimal digit, or `None` for any
/// other byte.
fn hex_digit(b: u8) -> (r: Option<u8>)
    ensures
        r is Some <==> is_hex_digit(b),
        r is Some ==> r->0 == hex_digit_value(b) && r->0 < 16,
{
    if 48 <= b && b <= 57 {
        Some(b - 48)
    } else if 65 <= b && b <= 70 {
        Some(b - 55)
    } else if 97 <= b && b <= 102 {
        Some(b - 87)
    } else {
        None
    }
}

impl Color {
    /// Parses a color written in hexadecimal, with an optional leading
    /// `#`: eight digits spell alpha, red, green and blue, six spell red,
    /// green and blue with a fully opaque alpha.  Any other text gives
    /// `None`.  The text must hold no NUL byte: the engine reads colors
    /// from NUL-terminated text, which such an input cannot become.
    pub fn from_hex_string(hex: &str) -> (r: Option<Color>)
        requires
            forall|i: int|
                0 <= i < hex.spec_bytes().len() ==> #[trigger] hex.spec_bytes()[i] != 0,
        ensures
            ({
                let s = hex.spec_bytes();
                let d = if s.len() > 0 && s[0] == 35 {
                    s.skip(1)
                } else {
                    s
                };
                if (d.len() == 6 || d.len() == 8) && all_hex_digits(d) {
                    r matches Some(c) && c@ == hex_values(d)
                } else {
                    r is None
                }
            }),
    {
        let ghost s = hex.spec_bytes();
        let ghost d = if s.len() > 0 && s[0] == 35 {
            s.skip(1)
        } else {
            s
        };
        let bytes = hex.as_bytes();
        let start: usize = if bytes.len() > 0 && bytes[0] == 35 {
            1
        } else {
            0
        };
        let n = bytes.len() - start;
        proof {
            assert(d =~= bytes@.subrange(start as int, bytes@.len() as int));
            if n == 6 || n == 8 {
                assert(d[0] == bytes@[start as int]);
                assert(d[1] == bytes@[start as int + 1]);
                assert(d[2] == bytes@[start as int + 2]);
                assert(d[3] == bytes@[start as int + 3]);
                assert(d[4] == bytes@[start as int + 4]);
                assert(d[5] == bytes@[start as int + 5]);
            }
            if n == 8 {
                assert(d[6] == bytes@[start as int + 6]);
                assert(d[7] == bytes@[start as int + 7]);
            }
        }
        if n == 6 {
            let red = Self::hex_pair_at(bytes, start)?;
            let green = Self::hex_pair_at(bytes, start + 2)?;
            let blue = Self::hex_pair_at(bytes, start + 4)?;
            proof {
                assert(all_hex_digits(d)) by {
                    assert forall|i: int| 0 <= i < d.len() implies is_hex_digit(d[i]) by {
                        assert(d[i] == bytes@[start + i]);
                    }
                }
            }
            Some(
                Color {
                    values: ColorValues {
                        blue,
                        green,
                        red,
                        alpha: CHANNEL_MAX,
                        hdr: HDR_ONE,
                    },
                },
            )
        } else if n == 8 {
            let alpha = Self::hex_pair_at(bytes, start)?;
            let red = Self::hex_pair_at(bytes, start + 2)?;
            let green = Self::hex_pair_at(bytes, start + 4)?;
            let blue = Self::hex_pair_at(bytes, start + 6)?;
            proof {
                assert(all_hex_digits(d)) by {
                    assert forall|i: int| 0 <= i < d.len() implies is_hex_digit(d[i]) by {
                        assert(d[i] == bytes@[start + i]);
                    }
                }
            }
            Some(Color { values: ColorValues { blue, green, red, alpha, hdr: HDR_ONE } })
        } else {
            None
        }
    }

    /// Reads the channel value spelled by the two hexadecimal digits at
    /// the given position, or `None` if either byte is no such digit.
    fn hex_pair_at(bytes: &[u8], at: usize) -> (r: Option<u8>)
        requires
            at + 2 <= bytes@.len(),
        ensures
            r is Some <==> is_hex_digit(bytes@[at as int]) && is_hex_digit(bytes@[at + 1]),
            r is Some ==> r->0 == hex_pair(bytes@[at as int], bytes@[at + 1]),
    {
        let hi = hex_digit(bytes[at])?;
        let lo = hex_digit(bytes[at + 1])?;
        Some(hi * 16 + lo)
    }
}

/// The larger of two channel values.
pub open spec fn max8(x: u8, y: u8) -> u8 {
    if x >= y {
        x
    } else {
        y
    }
}

/// The brightest of the blue, green and red channels.
pub open spec fn brightest_channel(v: ColorValues) -> u8 {
    max8(max8(v.blue, v.green), v.red)
}

/// An 8-bit channel interpolated between `x` and `y` by `t`, where `t`
/// counts in units of 1/255: 0 gives `x` and 255 gives `y`.
pub open spec fn lerp8(x: u8, y: u8, t: u8) -> u8 {
    ((x * (255 - t) + y * t) / 255) as u8
}

/// The HDR multiplier interpolated between `x` and `y` by `t`, counting
/// in units of 1/255 as `lerp8` does.
pub open spec fn lerp16(x: u16, y: u16, t: u8) -> u16 {
    ((x * (255 - t) + y * t) / 255) as u16
}

/// All five stored values interpolated channel by channel.
pub open spec fn lerp_values(a: ColorValues, b: ColorValues, t: u8) -> ColorValues {
    ColorValues {
        blue: lerp8(a.blue, b.blue, t),
        green: lerp8(a.green, b.green, t),
        red: lerp8(a.red, b.red, t),
        alpha: lerp8(a.alpha, b.alpha, t),
        hdr: lerp16(a.hdr, b.hdr, t),
    }
}

/// The channel values of fully transparent black with an HDR multiplier
/// of one.
pub open spec fn transparent_values() -> ColorValues {
    ColorValues { blue: 0, green: 0, red: 0, alpha: 0, hdr: HDR_ONE }
}

/// The color `t` of the way from `a` to `b`, channel by channel, with `t`
/// in units of 1/255.
pub open spec fn lerp_color(a: Color, b: Color, t: u8) -> Color {
    Color { values: lerp_values(a.values, b.values, t) }
}

/// The alpha channel scaled by `mult` in units of 1/255; the other
/// channels keep their values.
pub open spec fn scaled_alpha(c: Color, mult: u8) -> Color {
    Color { values: ColorValues { alpha: ((c.values.alpha * mult) / 255) as u8, ..c.values } }
}

/// The lexicographic order of two colors: channel by channel in the
/// stored order blue, green, red, alpha, then the HDR multiplier.
pub open spec fn values_cmp(a: ColorValues, b: ColorValues) -> core::cmp::Ordering {
    if a.blue != b.blue {
        if a.blue < b.blue {
            core::cmp::Ordering::Less
        } else {
            core::cmp::Ordering::Greater
        }
    } else if a.green != b.green {
        if a.green < b.green {
            core::cmp::Ordering::Less
        } else {
            core::cmp::Ordering::Greater
        }
    } else if a.red != b.red {
        if a.red < b.red {
            core::cmp::Ordering::Less
        } else {
            core::cmp::Ordering::Greater
        }
    } else if a.alpha != b.alpha {
        if a.alpha < b.alpha {
            core::cmp::Ordering::Less
        } else {
            core::cmp::Ordering::Greater
        }
    } else if a.hdr != b.hdr {
        if a.hdr < b.hdr {
            core::cmp::Ordering::Less
        } else {
            core::cmp::Ordering::Greater
        }
    } else {
        core::cmp::Ordering::Equal
    }
}

impl Color {
    /// Opaque black with an HDR multiplier of one.
    pub fn black() -> (c: Self)
        ensures
            c@ == (ColorValues { blue: 0, green: 0, red: 0, alpha: CHANNEL_MAX, hdr: HDR_ONE }),
    {
        Color {
            values: ColorValues { blue: 0, green: 0, red: 0, alpha: CHANNEL_MAX, hdr: HDR_ONE },
        }
    }

    /// Opaque white with an HDR multiplier of one.
    pub fn white() -> (c: Self)
        ensures
            c@ == (ColorValues {
                blue: CHANNEL_MAX,
                green: CHANNEL_MAX,
                red: CHANNEL_MAX,
                alpha: CHANNEL_MAX,
                hdr: HDR_ONE,
            }),
    {
        Color {
            values: ColorValues {
                blue: CHANNEL_MAX,
                green: CHANNEL_MAX,
                red: CHANNEL_MAX,
                alpha: CHANNEL_MAX,
                hdr: HDR_ONE,
            },
        }
    }

    /// Fully transparent black with an HDR multiplier of one.
    pub fn transparent() -> (c: Self)
        ensures
            c@ == (ColorValues { blue: 0, green: 0, red: 0, alpha: 0, hdr: HDR_ONE }),
    {
        Color { values: ColorValues { blue: 0, green: 0, red: 0, alpha: 0, hdr: HDR_ONE } }
    }

    /// The blue channel.
    pub fn b(&self) -> (r: u8)
        ensures
            r == self@.blue,
    {
        self.values.blue
    }

    /// The green channel.
    pub fn g(&self) -> (r: u8)
        ensures
            r == self@.green,
    {
        self.values.green
    }

    /// The red channel.
    pub fn r(&self) -> (r: u8)
        ensures
            r == self@.red,
    {
        self.values.red
    }

    /// The alpha channel.
    pub fn a(&self) -> (r: u8)
        ensures
            r == self@.alpha,
    {
        self.values.alpha
    }

    /// The HDR brightness multiplier, in units of 1/255.
    pub fn hdr(&self) -> (r: u16)
        ensures
            r == self@.hdr,
    {
        self.values.hdr
    }

    /// Replaces the blue channel.
    pub fn set_blue(&mut self, val: u8)
        ensures
            final(self)@ == (ColorValues { blue: val, ..old(self)@ }),
    {
        self.values.blue = val;
    }

    /// Replaces the green channel.
    pub fn set_green(&mut self, val: u8)
        ensures
            final(self)@ == (ColorValues { green: val, ..old(self)@ }),
    {
        self.values.green = val;
    }

    /// Replaces the red channel.
    pub fn set_red(&mut self, val: u8)
        ensures
            final(self)@ == (ColorValues { red: val, ..old(self)@ }),
    {
        self.values.red = val;
    }

    /// Replaces the alpha channel.
    pub fn set_alpha(&mut self, val: u8)
        ensures
            final(self)@ == (ColorValues { alpha: val, ..old(self)@ }),
    {
        self.values.alpha = val;
    }

    /// Replaces the HDR brightness multiplier.
    pub fn set_hdr(&mut self, val: u16)
        ensures
            final(self)@ == (ColorValues { hdr: val, ..old(self)@ }),
    {
        self.values.hdr = val;
    }

    /// The brightest of the blue, green and red channels: the value of
    /// the color in the hue-saturation-value sense.
    pub fn value(&self) -> (r: u8)
        ensures
            r == brightest_channel(self@),
    {
        let bg = if self.values.blue >= self.values.green {
            self.values.blue
        } else {
            self.values.green
        };
        if bg >= self.values.red {
            bg
        } else {
            self.values.red
        }
    }

    /// The color `t` of the way from `a` to `b`, where `t` counts in
    /// units of 1/255: 0 gives `a` and 255 gives `b`.
    pub fn interpolate(a: &Self, b: &Self, t: u8) -> (c: Self)
        ensures
            c@ == lerp_values(a@, b@, t),
    {
        Color {
            values: ColorValues {
                blue: lerp_channel(a.values.blue, b.values.blue, t),
                green: lerp_channel(a.values.green, b.values.green, t),
                red: lerp_channel(a.values.red, b.values.red, t),
                alpha: lerp_channel(a.values.alpha, b.values.alpha, t),
                hdr: lerp_hdr(a.values.hdr, b.values.hdr, t),
            },
        }
    }
}

/// Scales a color's alpha channel by `mult` in units of 1/255.
pub(crate) fn scale_alpha(c: Color, mult: u8) -> (r: Color)
    ensures
        r == scaled_alpha(c, mult),
{
    proof {
        assert((c.values.alpha as int) * (mult as int) <= 255 * 255) by (nonlinear_arith)
            requires
                c.values.alpha <= 255,
                mult <= 255,
        ;
    }
    let alpha = (((c.values.alpha as u32) * (mult as u32)) / 255) as u8;
    Color { values: ColorValues { alpha, ..c.values } }
}

/// An 8-bit channel interpolated by `t` in units of 1/255.
fn lerp_channel(x: u8, y: u8, t: u8) -> (r: u8)
    ensures
        r == lerp8(x, y, t),
{
    proof {
        assert((x as int) * (255 - t as int) + (y as int) * (t as int) <= 255 * 255)
            by (nonlinear_arith)
            requires
                x <= 255,
                y <= 255,
                t <= 255,
        ;
    }
    let num: u32 = (x as u32) * (255 - t as u32) + (y as u32) * (t as u32);
    (num / 255) as u8
}

/// The 16-bit HDR multiplier interpolated by `t` in units of 1/255.
fn lerp_hdr(x: u16, y: u16, t: u8) -> (r: u16)
    ensures
        r == lerp16(x, y, t),
{
    proof {
        assert((x as int) * (255 - t as int) + (y as int) * (t as int) <= 65535 * 255)
            by (nonlinear_arith)
            requires
                x <= 65535,
                y <= 65535,
                t <= 255,
        ;
    }
    let num: u32 = (x as u32) * (255 - t as u32) + (y as u32) * (t as u32);
    (num / 255) as u16
}

impl PartialOrd for Color {
    /// Colors order lexicographically: channel by channel in the stored
    /// order blue, green, red, alpha, then the HDR multiplier.
    fn partial_cmp(&self, other: &Self) -> Option<core::cmp::Ordering> {
        if self.values.blue != other.values.blue {
            if self.values.blue < other.values.blue {
                Some(core::cmp::Ordering::Less)
            } else {
                Some(core::cmp::Ordering::Greater)
            }
        } else if self.values.green != other.values.green {
            if self.values.green < other.values.green {
                Some(core::cmp::Ordering::Less)
            } else {
                Some(core::cmp::Ordering::Greater)
            }
        } else if self.values.red != other.values.red {
            if self.values.red < other.values.red {
                Some(core::cmp::Ordering::Less)
            } else {
                Some(core::cmp::Ordering::Greater)
            }
        } else if self.values.alpha != other.values.alpha {
            if self.values.alpha < other.values.alpha {
                Some(core::cmp::Ordering::Less)
            } else {
                Some(core::cmp::Ordering::Greater)
            }
        } else if self.values.hdr != other.values.hdr {
            if self.values.hdr < other.values.hdr {
                Some(core::cmp::Ordering::Less)
            } else {
                Some(core::cmp::Ordering::Greater)
            }
        } else {
            Some(core::cmp::Ordering::Equal)
        }
    }
}

impl vstd::std_specs::cmp::PartialOrdSpecImpl for Color {
    open spec fn obeys_partial_cmp_spec() -> bool {
        true
    }

    open spec fn partial_cmp_spec(&self, other: &Self) -> Option<core::cmp::Ordering> {
        Some(values_cmp(self@, other@))
    }
}

impl From<u32> for Color {
    /// A packed ARGB word decodes into a color as `from_argb` does.
    fn from(argb: u32) -> (c: Self) {
        Color::from_argb(argb)
    }
}

impl vstd::std_specs::convert::FromSpecImpl<u32> for Color {
    open spec fn obeys_from_spec() -> bool {
        true
    }

    open spec fn from_spec(argb: u32) -> Color {
        Color { values: argb_values(argb) }
    }
}

/// Interpolating by 0 gives the first color back and interpolating by 255
/// gives the second.
pub proof fn lemma_interpolate_endpoints(a: ColorValues, b: ColorValues)
    ensures
        lerp_values(a, b, 0) == a,
        lerp_values(a, b, CHANNEL_MAX) == b,
{
    lemma_lerp8_endpoints(a.blue, b.blue);
    lemma_lerp8_endpoints(a.green, b.green);
    lemma_lerp8_endpoints(a.red, b.red);
    lemma_lerp8_endpoints(a.alpha, b.alpha);
    lemma_lerp16_endpoints(a.hdr, b.hdr);
}

/// An 8-bit channel interpolated by 0 is `x`; interpolated by 255 it is
/// `y`.
proof fn lemma_lerp8_endpoints(x: u8, y: u8)
    ensures
        lerp8(x, y, 0) == x,
        lerp8(x, y, 255) == y,
{
    assert((x * 255 + y * 0) / 255 == x) by (nonlinear_arith);
    assert((x * 0 + y * 255) / 255 == y) by (nonlinear_arith);
}

/// The HDR multiplier interpolated by 0 is `x`; interpolated by 255 it is
/// `y`.
proof fn lemma_lerp16_endpoints(x: u16, y: u16)
    ensures
        lerp16(x, y, 0) == x,
        lerp16(x, y, 255) == y,
{
    assert((x * 255 + y * 0) / 255 == x) by (nonlinear_arith);
    assert((x * 0 + y * 255) / 255 == y) by (nonlinear_arith);
}

/// Decoding a packed ABGR word and packing the channels again gives the
/// word back.
pub proof fn lemma_abgr_round_trip(abgr: u32)
    ensures
        values_to_abgr(abgr_values(abgr)) == abgr,
{
    assert((((((abgr >> 24) & 0xff) as u8) as u32) << 24) | (((((abgr >> 16) & 0xff) as u8)
        as u32) << 16) | (((((abgr >> 8) & 0xff) as u8) as u32) << 8) | (((abgr & 0xff) as u8)
        as u32) == abgr) by (bit_vector);
}

/// Decoding a packed ARGB word and packing the channels again gives the
/// word back.
pub proof fn lemma_argb_round_trip(argb: u32)
    ensures
        values_to_argb(argb_values(argb)) == argb,
{
    assert((((((argb >> 24) & 0xff) as u8) as u32) << 24) | (((((argb >> 16) & 0xff) as u8)
        as u32) << 16) | (((((argb >> 8) & 0xff) as u8) as u32) << 8) | (((argb & 0xff) as u8)
        as u32) == argb) by (bit_vector);
}

} // verus!
