//! Colors, and the text of a pixel.

use vstd::prelude::*;
use crate::scalar::Scalar;
use crate::vec3::Vec3;

verus! {

/// A color: red, green and blue in `x`, `y` and `z`, each meant to lie
/// between 0 and 1.
pub type Color = Vec3;

/// The pattern of 255.999, the factor that takes a channel between 0 and 1
/// to the range of a byte before its fractional part is cut off.
pub const CHANNEL_SCALE_BITS: u64 = 0x406f_fff7_ced9_1687;

/// The ASCII code of the digit `d`.
pub open spec fn digit(d: nat) -> u8
    recommends
        d < 10,
{
    (48 + d) as u8
}

/// The decimal digits of `n` in ASCII, without leading zeros.
pub open spec fn decimal(n: nat) -> Seq<u8>
    decreases n,
{
    if n < 10 {
        seq![digit(n)]
    } else {
        decimal(n / 10).push(digit(n % 10))
    }
}

/// The line of a pixel: the three bytes in decimal, a space between each
/// two, and a line feed.
pub open spec fn pixel_text(r: nat, g: nat, b: nat) -> Seq<u8> {
    decimal(r) + seq![32u8] + decimal(g) + seq![32u8] + decimal(b) + seq![10u8]
}

/// The factor 255.999.
pub fn channel_scale() -> (s: Scalar)
    ensures
        s.bits == CHANNEL_SCALE_BITS,
{
    Scalar { bits: CHANNEL_SCALE_BITS }
}

/// Appends the decimal digits of `n` to `out`.
pub fn push_decimal(out: &mut Vec<u8>, n: u8)
    ensures
        final(out)@ == old(out)@ + decimal(n as nat),
{
    let ghost before = out@;
    if n >= 100 {
        out.push(48 + n / 100);
        out.push(48 + (n / 10) % 10);
        out.push(48 + n % 10);
        proof {
            reveal_with_fuel(decimal, 3);
            assert(out@ =~= before + decimal(n as nat));
        }
    } else if n >= 10 {
        out.push(48 + n / 10);
        out.push(48 + n % 10);
        proof {
            reveal_with_fuel(decimal, 2);
            assert(out@ =~= before + decimal(n as nat));
        }
    } else {
        out.push(48 + n);
        proof {
            assert(out@ =~= before + decimal(n as nat));
        }
    }
}

/// The three bytes of a color whose channels have been multiplied by
/// 255.999: of each channel the whole part, held to the range of a byte.
pub fn channel_bytes(scaled: &Color) -> (rgb: (u8, u8, u8))
    ensures
        rgb.0 == scaled.x.truncated_u8(),
        rgb.1 == scaled.y.truncated_u8(),
        rgb.2 == scaled.z.truncated_u8(),
{
    (scaled.x.to_u8(), scaled.y.to_u8(), scaled.z.to_u8())
}

/// Appends to `out` the line of the pixel whose color, with each channel
/// multiplied by 255.999, is `scaled`.
pub fn write_color(out: &mut Vec<u8>, scaled: &Color)
    ensures
        final(out)@ == old(out)@ + pixel_text(
            scaled.x.truncated_u8(),
            scaled.y.truncated_u8(),
            scaled.z.truncated_u8(),
        ),
{
    let ghost before = out@;
    let (r, g, b) = channel_bytes(scaled);
    push_decimal(out, r);
    out.push(32);
    push_decimal(out, g);
    out.push(32);
    push_decimal(out, b);
    out.push(10);
    proof {
        assert(out@ =~= before + pixel_text(r as nat, g as nat, b as nat));
    }
}

} // verus!
