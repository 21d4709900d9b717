//! The system colour scheme: light or dark mode, the accent colour picked
//! from the system accent palette, and its hex form.

use vstd::prelude::*;
use crate::text::{hex_byte, push_hex_byte};

verus! {

/// Light-mode accent used when the system palette is unavailable (#9EE8FE).
pub const DEFAULT_LIGHT_ACCENT: [u8; 3] = [158, 232, 254];
/// Dark-mode accent used when the system palette is unavailable (#0274D9).
pub const DEFAULT_DARK_ACCENT: [u8; 3] = [2, 116, 217];

/// Whether the system uses a light colour scheme, from the
/// `AppsUseLightTheme` registry value (`None` when it could not be read):
/// a missing value means dark, the application's default look.
pub fn light_mode_from_registry(value: Option<u32>) -> (r: bool)
    ensures
        r == (value matches Some(v) && v != 0),
{
    match value {
        Some(v) => v != 0,
        None => false,
    }
}

/// The accent colour for the current mode from the `AccentPalette` registry
/// blob (`None` when it could not be read; otherwise the 32-byte buffer and
/// the number of bytes the registry filled). The palette holds DWORDs in
/// `0x00BBGGRR` order: the first is the light-mode accent, the fourth the
/// dark-mode one. A missing or short (under 16 bytes) palette yields the
/// default accent of the mode.
pub open spec fn accent_choice(want_light: bool, palette: Option<(Seq<u8>, u32)>) -> Seq<u8> {
    let default = if want_light { seq![158u8, 232u8, 254u8] } else { seq![2u8, 116u8, 217u8] };
    match palette {
        Some((buf, len)) => if len < 16 {
            default
        } else {
            let offset: int = if want_light { 0 } else { 12 };
            seq![buf[offset], buf[offset + 1], buf[offset + 2]]
        },
        None => default,
    }
}

/// Pick the accent colour (RGB) from the system accent palette.
pub fn accent_from_palette(want_light: bool, palette: Option<(&[u8; 32], u32)>) -> (r: [u8; 3])
    ensures
        r@ == accent_choice(want_light, match palette {
            Some((buf, len)) => Some((buf@, len)),
            None => None,
        }),
{
    let default: [u8; 3] = if want_light { DEFAULT_LIGHT_ACCENT } else { DEFAULT_DARK_ACCENT };
    let r = match palette {
        Some((buf, len)) => {
            if len < 16 {
                default
            } else {
                let offset: usize = if want_light { 0 } else { 12 };
                [buf[offset], buf[offset + 1], buf[offset + 2]]
            }
        },
        None => default,
    };
    proof {
        assert(r@ =~= accent_choice(want_light, match palette {
            Some((buf, len)) => Some((buf@, len)),
            None => None,
        }));
    }
    r
}

/// The accent colour as a hex string, e.g. `#0274D9`.
pub fn accent_hex(rgb: [u8; 3]) -> (r: String)
    ensures
        r@ == "#"@ + hex_byte(rgb[0]) + hex_byte(rgb[1]) + hex_byte(rgb[2]),
{
    let mut s = "#".to_owned();
    push_hex_byte(&mut s, rgb[0]);
    push_hex_byte(&mut s, rgb[1]);
    push_hex_byte(&mut s, rgb[2]);
    s
}

/// The acrylic tint behind the settings window, packed as `0xAABBGGRR`:
/// dark gray (30, 30, 34) or light gray (245, 245, 248), both at alpha 160.
pub open spec fn tint_value(want_dark: bool) -> nat {
    if want_dark {
        30 + 30 * 0x100 + 34 * 0x1_0000 + 160 * 0x100_0000
    } else {
        245 + 245 * 0x100 + 248 * 0x1_0000 + 160 * 0x100_0000
    }
}

/// Pack red, green, blue and alpha into `0xAABBGGRR`.
pub fn pack_abgr(r: u8, g: u8, b: u8, a: u8) -> (v: u32)
    ensures
        v == r + g * 0x100 + b * 0x1_0000 + a * 0x100_0000,
{
    let rr: u32 = r as u32;
    let gg: u32 = g as u32;
    let bb: u32 = b as u32;
    let aa: u32 = a as u32;
    assert(rr | (gg << 8) | (bb << 16) | (aa << 24) == rr + gg * 0x100 + bb * 0x1_0000 + aa * 0x100_0000) by (bit_vector)
        requires
            rr < 0x100,
            gg < 0x100,
            bb < 0x100,
            aa < 0x100,
    ;
    rr | (gg << 8) | (bb << 16) | (aa << 24)
}

/// The acrylic tint colour for the settings window's frosted backing.
pub fn acrylic_tint(want_dark: bool) -> (v: u32)
    ensures
        v == tint_value(want_dark),
{
    if want_dark {
        pack_abgr(30, 30, 34, 160)
    } else {
        pack_abgr(245, 245, 248, 160)
    }
}

/// The accent comes from the palette's first colour in light mode and its
/// fourth colour (bytes 12 to 14) in dark mode, when the palette holds at
/// least 16 bytes; otherwise it is the built-in light or dark blue.
pub proof fn law_accent_source(want_light: bool, buf: Seq<u8>, len: u32)
    requires
        buf.len() == 32,
    ensures
        len >= 16 && want_light ==> accent_choice(want_light, Some((buf, len))) == seq![buf[0], buf[1], buf[2]],
        len >= 16 && !want_light ==> accent_choice(want_light, Some((buf, len))) == seq![buf[12], buf[13], buf[14]],
        len < 16 ==> accent_choice(want_light, Some((buf, len))) == accent_choice(want_light, None),
        accent_choice(true, None) == seq![158u8, 232u8, 254u8],
        accent_choice(false, None) == seq![2u8, 116u8, 217u8],
{
}

/// The acrylic tint is a near-black (30, 30, 34) in dark mode and a
/// near-white (245, 245, 248) in light mode, both at alpha 160, packed with
/// red in the lowest byte.
pub proof fn law_tint_values()
    ensures
        tint_value(true) == 0xA022_1E1E,
        tint_value(false) == 0xA0F8_F5F5,
{
}

} // verus!
