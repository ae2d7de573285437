//! Resolution of user-facing caption settings into a GPU-uniform-ready style
//! record.
//!
//! User settings carry colors as hex-like strings and enum-like free text
//! (position, font family).  The resolver is total: malformed color
//! components fall back to 0, an unrecognized position anchors at the
//! bottom, an unrecognized font family maps to sans-serif.  Color channels
//! are integers 0..=255; alpha is in hundredths, so 100 is opaque and the
//! background-visibility threshold "alpha > 0.01" reads "more than 1
//! hundredth".

use vstd::prelude::*;

use crate::strings::str_eq;

verus! {

/// An RGBA color: `r`/`g`/`b` in 0..=255, alpha in hundredths (0..=100).
#[derive(Clone, Copy, Debug, PartialEq, Eq, Structural)]
pub struct Rgba {
    pub r: u8,
    pub g: u8,
    pub b: u8,
    pub a_pct: u8,
}

/// Fully opaque alpha, in hundredths.
pub const ALPHA_OPAQUE_PCT: u8 = 100;

/// The value of `c` as a hexadecimal digit, or -1 when `c` is no hex digit.
pub open spec fn hex_digit_val(c: char) -> int {
    if '0' <= c && c <= '9' {
        c as int - '0' as int
    } else if 'a' <= c && c <= 'f' {
        10 + c as int - 'a' as int
    } else if 'A' <= c && c <= 'F' {
        10 + c as int - 'A' as int
    } else {
        -1
    }
}

/// Channel `idx` (0 = red, 1 = green, 2 = blue) of a hex-like color string:
/// two hex digits per channel after an optional `#`; any malformed or
/// missing component reads as 0.
pub open spec fn color_component_spec(s: Seq<char>, idx: int) -> u8 {
    let t = if s.len() > 0 && s[0] == '#' {
        s.skip(1)
    } else {
        s
    };
    if 0 <= idx && 2 * idx + 2 <= t.len() && hex_digit_val(t[2 * idx]) >= 0 && hex_digit_val(
        t[2 * idx + 1],
    ) >= 0 {
        (16 * hex_digit_val(t[2 * idx]) + hex_digit_val(t[2 * idx + 1])) as u8
    } else {
        0u8
    }
}

fn hex_digit(c: char) -> (r: Option<u8>)
    ensures
        hex_digit_val(c) >= 0 ==> r == Some(hex_digit_val(c) as u8),
        hex_digit_val(c) < 0 ==> r is None,
{
    if '0' <= c && c <= '9' {
        Some(c as u8 - '0' as u8)
    } else if 'a' <= c && c <= 'f' {
        Some(10 + (c as u8 - 'a' as u8))
    } else if 'A' <= c && c <= 'F' {
        Some(10 + (c as u8 - 'A' as u8))
    } else {
        None
    }
}

/// Parse one color channel out of a user color string; total over any input,
/// returning 0 for a malformed or missing component.
pub fn parse_color_component(color: &str, idx: usize) -> (r: u8)
    ensures
        r == color_component_spec(color@, idx as int),
{
    let n = color.unicode_len();
    let start: usize = if n > 0 && color.get_char(0) == '#' {
        1
    } else {
        0
    };
    proof {
        if start == 1 {
            assert(color@.skip(1).len() == n - 1);
        }
    }
    if n < start + 2 {
        return 0;
    }
    if idx > (n - start - 2) / 2 {
        return 0;
    }
    let pos = start + 2 * idx;
    let hi = color.get_char(pos);
    let lo = color.get_char(pos + 1);
    proof {
        let t = if start == 1 {
            color@.skip(1)
        } else {
            color@
        };
        assert(t[2 * idx as int] == color@[pos as int]);
        assert(t[2 * idx as int + 1] == color@[pos as int + 1]);
    }
    match (hex_digit(hi), hex_digit(lo)) {
        (Some(h), Some(l)) => 16 * h + l,
        _ => 0,
    }
}

/// Vertical anchor code resolved from the free-text position field:
/// 0 = top, 1 = middle, 2 = bottom; any unrecognized value deliberately
/// defaults to the bottom anchor.
pub open spec fn position_code_spec(s: Seq<char>) -> u32 {
    if s == "top"@ {
        0u32
    } else if s == "middle"@ {
        1u32
    } else {
        2u32
    }
}

/// Font class code resolved from the free-text font family field:
/// 0 = sans-serif, 1 = serif, 2 = monospace; any unrecognized value
/// deliberately defaults to sans-serif.
pub open spec fn font_code_spec(s: Seq<char>) -> u32 {
    if s == "System Serif"@ {
        1u32
    } else if s == "System Monospace"@ {
        2u32
    } else {
        0u32
    }
}

/// User-facing caption style settings, as a project stores them.
#[derive(Clone, Debug)]
pub struct ProjectCaptionSettings {
    pub enabled: bool,
    /// Free-text font family; recognized values are "System Serif" and
    /// "System Monospace", anything else is sans-serif.
    pub font: String,
    /// Nominal font size at the 1080p baseline.
    pub size: u32,
    /// Text color as a hex-like string, e.g. "#FFFFFF".
    pub color: String,
    /// Background color as a hex-like string.
    pub background_color: String,
    /// Background opacity in percent, 0..=100.
    pub background_opacity: u8,
    /// Free-text vertical position; recognized values are "top" and
    /// "middle", anything else anchors at the bottom.
    pub position: String,
    pub bold: bool,
    pub italic: bool,
    pub outline: bool,
    /// Outline color as a hex-like string.
    pub outline_color: String,
}

/// GPU-uniform-ready caption style: integer-coded enums and integer color
/// channels.
#[derive(Clone, Copy, Debug, PartialEq, Eq, Structural)]
pub struct CaptionSettings {
    /// 0 = disabled, 1 = enabled.
    pub enabled: u32,
    /// Nominal font size at the 1080p baseline.
    pub font_size: u32,
    pub color: Rgba,
    pub background_color: Rgba,
    /// 0 = top, 1 = middle, 2 = bottom.
    pub position: u32,
    /// 0 = disabled, 1 = enabled.
    pub outline: u32,
    pub outline_color: Rgba,
    /// 0 = sans-serif, 1 = serif, 2 = monospace.
    pub font: u32,
    /// 0 = regular, 1 = bold.
    pub bold: u32,
    /// 0 = upright, 1 = italic.
    pub italic: u32,
}

impl Default for CaptionSettings {
    /// White bold sans-serif text with a black outline over an 80% black
    /// background, anchored at the bottom.
    fn default() -> (r: Self)
        ensures
            r == default_caption_settings(),
    {
        CaptionSettings {
            enabled: 1,
            font_size: 24,
            color: Rgba { r: 255, g: 255, b: 255, a_pct: 100 },
            background_color: Rgba { r: 0, g: 0, b: 0, a_pct: 80 },
            position: 2,
            outline: 1,
            outline_color: Rgba { r: 0, g: 0, b: 0, a_pct: 100 },
            font: 0,
            bold: 1,
            italic: 0,
        }
    }
}

/// The defaults that `CaptionSettings::default` returns.
pub open spec fn default_caption_settings() -> CaptionSettings {
    CaptionSettings {
        enabled: 1,
        font_size: 24,
        color: Rgba { r: 255, g: 255, b: 255, a_pct: 100 },
        background_color: Rgba { r: 0, g: 0, b: 0, a_pct: 80 },
        position: 2,
        outline: 1,
        outline_color: Rgba { r: 0, g: 0, b: 0, a_pct: 100 },
        font: 0,
        bold: 1,
        italic: 0,
    }
}

/// A full color parsed from a hex-like string, with the given alpha.
pub open spec fn color_spec(s: Seq<char>, a_pct: u8) -> Rgba {
    Rgba {
        r: color_component_spec(s, 0),
        g: color_component_spec(s, 1),
        b: color_component_spec(s, 2),
        a_pct: a_pct,
    }
}

/// The style record that `resolve_caption_style` produces from user
/// settings: parsed colors, coded position and font, flags as 0/1.
pub open spec fn resolved_style_spec(s: ProjectCaptionSettings) -> CaptionSettings {
    CaptionSettings {
        enabled: 1,
        font_size: s.size,
        color: color_spec(s.color@, ALPHA_OPAQUE_PCT),
        background_color: color_spec(s.background_color@, s.background_opacity),
        position: position_code_spec(s.position@),
        outline: if s.outline {
            1u32
        } else {
            0u32
        },
        outline_color: color_spec(s.outline_color@, ALPHA_OPAQUE_PCT),
        font: font_code_spec(s.font@),
        bold: if s.bold {
            1u32
        } else {
            0u32
        },
        italic: if s.italic {
            1u32
        } else {
            0u32
        },
    }
}

/// Resolve user settings into the GPU-ready style record.  Total over any
/// input: malformed colors fall back to channel 0, unrecognized position
/// anchors at the bottom, unrecognized font family is sans-serif.
pub fn resolve_caption_style(s: &ProjectCaptionSettings) -> (r: CaptionSettings)
    ensures
        r == resolved_style_spec(*s),
{
    let position: u32 = if str_eq(s.position.as_str(), "top") {
        0
    } else if str_eq(s.position.as_str(), "middle") {
        1
    } else {
        2
    };
    let font: u32 = if str_eq(s.font.as_str(), "System Serif") {
        1
    } else if str_eq(s.font.as_str(), "System Monospace") {
        2
    } else {
        0
    };
    CaptionSettings {
        enabled: 1,
        font_size: s.size,
        color: Rgba {
            r: parse_color_component(s.color.as_str(), 0),
            g: parse_color_component(s.color.as_str(), 1),
            b: parse_color_component(s.color.as_str(), 2),
            a_pct: ALPHA_OPAQUE_PCT,
        },
        background_color: Rgba {
            r: parse_color_component(s.background_color.as_str(), 0),
            g: parse_color_component(s.background_color.as_str(), 1),
            b: parse_color_component(s.background_color.as_str(), 2),
            a_pct: s.background_opacity,
        },
        position,
        outline: if s.outline {
            1
        } else {
            0
        },
        outline_color: Rgba {
            r: parse_color_component(s.outline_color.as_str(), 0),
            g: parse_color_component(s.outline_color.as_str(), 1),
            b: parse_color_component(s.outline_color.as_str(), 2),
            a_pct: ALPHA_OPAQUE_PCT,
        },
        font,
        bold: if s.bold {
            1
        } else {
            0
        },
        italic: if s.italic {
            1
        } else {
            0
        },
    }
}

/// Scale a nominal font size to the output resolution: captions are sized
/// relative to a 1080-pixel-high baseline frame.
pub open spec fn scaled_font_size_spec(nominal: u32, height: u32) -> u64 {
    ((nominal as int * height as int) / 1080) as u64
}

/// Font size in pixels for an output frame `height` pixels high.
pub fn scaled_font_size(nominal: u32, height: u32) -> (r: u64)
    ensures
        r == scaled_font_size_spec(nominal, height),
{
    proof {
        assert(nominal as int * height as int <= 0xFFFF_FFFF * 0xFFFF_FFFF) by (nonlinear_arith)
            requires
                nominal <= 0xFFFF_FFFF,
                height <= 0xFFFF_FFFF,
        ;
    }
    (nominal as u64 * height as u64) / 1080
}

} // verus!
