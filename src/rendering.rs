//! The colors a renderer draws the network in.
//!
//! Color channels and fractions are fixed-point thousandths: 1000 is full
//! intensity, or the whole of a blend.

use vstd::prelude::*;

verus! {

/// The whole of a channel or of a blend.
pub const FULL: u32 = 1000;

/// The least a damaged segment's color is darkened to, in thousandths.
pub const MIN_HEALTH_FACTOR: u32 = 300;

/// How much brighter an unselected growth tip is drawn, in thousandths.
pub const GROWTH_TIP_BRIGHTNESS: u32 = 1300;

/// An sRGB color with alpha, each channel in thousandths.
#[derive(Clone, Copy, PartialEq, Eq, Structural, Debug)]
pub struct Color {
    pub red: u32,
    pub green: u32,
    pub blue: u32,
    pub alpha: u32,
}

impl Color {
    /// An opaque color.
    pub fn rgb(red: u32, green: u32, blue: u32) -> (r: Color)
        ensures
            r == (Color { red, green, blue, alpha: FULL }),
    {
        Color { red, green, blue, alpha: FULL }
    }
}

/// The color that corrupted segments blend toward.
pub open spec fn corruption_color_spec() -> Color {
    Color { red: 500, green: 100, blue: 400, alpha: FULL }
}

/// The color that corrupted segments blend toward.
pub fn corruption_color() -> (r: Color)
    ensures
        r == corruption_color_spec(),
{
    Color::rgb(500, 100, 400)
}

/// Types of tendrils; the type decides how a segment looks.
#[derive(Clone, Copy, PartialEq, Eq, Structural, Debug, Hash)]
pub enum TendrilType {
    Basic,
    Toxic,
    Sticky,
    Explosive,
}

impl Default for TendrilType {
    fn default() -> (r: TendrilType)
        ensures
            r == TendrilType::Basic,
    {
        TendrilType::Basic
    }
}

/// The state of a tendril segment that its color depends on.
#[derive(Clone, Copy, PartialEq, Eq, Structural, Debug)]
pub struct TendrilSegment {
    /// Type of this tendril segment
    pub tendril_type: TendrilType,
    /// Health of this segment
    pub health: u64,
    /// Maximum health
    pub max_health: u64,
    /// Whether this segment is corrupted
    pub corrupted: bool,
    /// Corruption level, in thousandths
    pub corruption_level: u32,
}

impl Default for TendrilSegment {
    fn default() -> (r: TendrilSegment)
        ensures
            r == (TendrilSegment {
                tendril_type: TendrilType::Basic,
                health: 100,
                max_health: 100,
                corrupted: false,
                corruption_level: 0,
            }),
    {
        TendrilSegment {
            tendril_type: TendrilType::Basic,
            health: 100,
            max_health: 100,
            corrupted: false,
            corruption_level: 0,
        }
    }
}

/// How a segment of some type is drawn.
#[derive(Clone, Copy, PartialEq, Eq, Structural, Debug)]
pub struct TendrilStyle {
    /// Base color for this tendril type
    pub color: Color,
    /// Line thickness in pixels
    pub thickness: u32,
}

impl TendrilStyle {
    pub open spec fn for_type_spec(tendril_type: TendrilType) -> TendrilStyle {
        match tendril_type {
            TendrilType::Basic => TendrilStyle { color: Color { red: 400, green: 700, blue: 300, alpha: FULL }, thickness: 3 },
            TendrilType::Toxic => TendrilStyle { color: Color { red: 600, green: 200, blue: 700, alpha: FULL }, thickness: 3 },
            TendrilType::Sticky => TendrilStyle { color: Color { red: 800, green: 600, blue: 200, alpha: FULL }, thickness: 4 },
            TendrilType::Explosive => TendrilStyle {
                color: Color { red: 900, green: 300, blue: 200, alpha: FULL },
                thickness: 3,
            },
        }
    }

    /// The style of a tendril type: green basic, purple toxic, amber and
    /// thicker sticky, red-orange explosive.
    pub fn for_type(tendril_type: TendrilType) -> (r: TendrilStyle)
        ensures
            r == TendrilStyle::for_type_spec(tendril_type),
    {
        match tendril_type {
            TendrilType::Basic => TendrilStyle { color: Color::rgb(400, 700, 300), thickness: 3 },
            TendrilType::Toxic => TendrilStyle { color: Color::rgb(600, 200, 700), thickness: 3 },
            TendrilType::Sticky => TendrilStyle { color: Color::rgb(800, 600, 200), thickness: 4 },
            TendrilType::Explosive => TendrilStyle { color: Color::rgb(900, 300, 200), thickness: 3 },
        }
    }
}

impl Default for TendrilStyle {
    fn default() -> (r: TendrilStyle)
        ensures
            r == TendrilStyle::for_type_spec(TendrilType::Basic),
    {
        TendrilStyle::for_type(TendrilType::Basic)
    }
}

/// `t`, held within `lo..=hi`.
pub open spec fn clamp(t: int, lo: int, hi: int) -> int {
    if t < lo {
        lo
    } else if t > hi {
        hi
    } else {
        t
    }
}

/// One channel blended from `a` toward `b` by `t` thousandths.
pub open spec fn lerp_channel(a: u32, b: u32, t: u32) -> u32 {
    ((a * (FULL - t) + b * t) / FULL as int) as u32
}

pub open spec fn lerp_color_spec(a: Color, b: Color, t: u32) -> Color {
    let t = clamp(t as int, 0, FULL as int) as u32;
    Color {
        red: lerp_channel(a.red, b.red, t),
        green: lerp_channel(a.green, b.green, t),
        blue: lerp_channel(a.blue, b.blue, t),
        alpha: lerp_channel(a.alpha, b.alpha, t),
    }
}

fn lerp_channel_exec(a: u32, b: u32, t: u32) -> (r: u32)
    requires
        t <= FULL,
    ensures
        r == lerp_channel(a, b, t),
{
    let a64: u64 = a as u64;
    let b64: u64 = b as u64;
    let t64: u64 = t as u64;
    assert(a64 * (1000 - t64) <= 0xffff_ffff * 1000) by (nonlinear_arith)
        requires
            a64 <= 0xffff_ffff,
            t64 <= 1000,
    ;
    assert(b64 * t64 <= 0xffff_ffff * 1000) by (nonlinear_arith)
        requires
            b64 <= 0xffff_ffff,
            t64 <= 1000,
    ;
    let sum: u64 = a64 * (1000 - t64) + b64 * t64;
    assert(sum / 1000 <= 0xffff_ffff) by (nonlinear_arith)
        requires
            sum == a64 * (1000 - t64) + b64 * t64,
            a64 <= 0xffff_ffff,
            b64 <= 0xffff_ffff,
            t64 <= 1000,
    ;
    (sum / 1000) as u32
}

/// Blend from `a` toward `b` by `t` thousandths, `t` held within `0..=1000`.
pub fn lerp_color(a: Color, b: Color, t: u32) -> (r: Color)
    ensures
        r == lerp_color_spec(a, b, t),
{
    let t = if t > FULL { FULL } else { t };
    Color {
        red: lerp_channel_exec(a.red, b.red, t),
        green: lerp_channel_exec(a.green, b.green, t),
        blue: lerp_channel_exec(a.blue, b.blue, t),
        alpha: lerp_channel_exec(a.alpha, b.alpha, t),
    }
}

/// How much of its base color a segment keeps, in thousandths: its share of
/// health, at least [`MIN_HEALTH_FACTOR`]; full for a segment of no maximum.
pub open spec fn health_factor(segment: TendrilSegment) -> u32 {
    if segment.max_health > 0 {
        clamp(
            (segment.health * FULL) as int / segment.max_health as int,
            MIN_HEALTH_FACTOR as int,
            FULL as int,
        ) as u32
    } else {
        FULL
    }
}

/// One channel scaled by `f` thousandths.
pub open spec fn scale_channel(c: u32, f: u32) -> u32 {
    ((c * f) / FULL as int) as u32
}

pub open spec fn segment_color_spec(segment: TendrilSegment, style: TendrilStyle) -> Color {
    let f = health_factor(segment);
    let damaged = Color {
        red: scale_channel(style.color.red, f),
        green: scale_channel(style.color.green, f),
        blue: scale_channel(style.color.blue, f),
        alpha: style.color.alpha,
    };
    if segment.corrupted {
        lerp_color_spec(damaged, corruption_color_spec(), segment.corruption_level)
    } else {
        damaged
    }
}

fn scale_channel_exec(c: u32, f: u32) -> (r: u32)
    requires
        f <= FULL,
    ensures
        r == scale_channel(c, f),
        r <= c,
{
    let c64: u64 = c as u64;
    let factor: u64 = f as u64;
    assert(c64 * factor <= c64 * 1000) by (nonlinear_arith)
        requires
            factor <= 1000,
    ;
    assert((c64 * factor) / 1000 <= c64) by (nonlinear_arith)
        requires
            c64 * factor <= c64 * 1000,
    ;
    ((c64 * factor) / 1000) as u32
}

/// The color of a segment: the style's color darkened with lost health,
/// then, if corrupted, blended toward the corruption color by its level.
pub fn segment_color(segment: &TendrilSegment, style: &TendrilStyle) -> (r: Color)
    ensures
        r == segment_color_spec(*segment, *style),
{
    let f: u32 = if segment.max_health > 0 {
        let share: u128 = segment.health as u128 * 1000 / segment.max_health as u128;
        if share < MIN_HEALTH_FACTOR as u128 {
            MIN_HEALTH_FACTOR
        } else if share > FULL as u128 {
            FULL
        } else {
            share as u32
        }
    } else {
        FULL
    };
    let damaged = Color {
        red: scale_channel_exec(style.color.red, f),
        green: scale_channel_exec(style.color.green, f),
        blue: scale_channel_exec(style.color.blue, f),
        alpha: style.color.alpha,
    };
    if segment.corrupted {
        lerp_color(damaged, corruption_color(), segment.corruption_level)
    } else {
        damaged
    }
}

/// A healthy, uncorrupted segment shows its style's color, and a fully
/// corrupted one shows the corruption color whatever its health.
pub proof fn lemma_segment_color_extremes(segment: TendrilSegment, style: TendrilStyle)
    ensures
        segment.health == segment.max_health && !segment.corrupted ==> segment_color_spec(segment, style)
            == style.color,
        segment.corrupted && segment.corruption_level == FULL ==> segment_color_spec(segment, style)
            == corruption_color_spec(),
{
    if segment.max_health > 0 && segment.health == segment.max_health {
        assert((segment.health * 1000) / segment.max_health as int == 1000) by (nonlinear_arith)
            requires
                segment.health == segment.max_health,
                segment.max_health > 0,
        ;
    }
    let f = health_factor(segment);
    assert(f == 1000 ==> forall|c: u32| scale_channel(c, f) == c) by {
        if f == 1000 {
            assert forall|c: u32| scale_channel(c, f) == c by {
                assert((c * 1000) / 1000 as int == c) by (nonlinear_arith);
            }
        }
    }
    assert forall|a: u32, b: u32| lerp_channel(a, b, FULL) == b by {
        assert((a * 0 + b * 1000) / 1000 as int == b) by (nonlinear_arith);
    }
}

/// One channel brightened for a growth tip, held at full intensity.
pub open spec fn brighten_channel(c: u32) -> u32 {
    clamp((c * GROWTH_TIP_BRIGHTNESS) / FULL as int, 0, FULL as int) as u32
}

fn brighten_channel_exec(c: u32) -> (r: u32)
    ensures
        r == brighten_channel(c),
{
    let scaled: u64 = c as u64 * GROWTH_TIP_BRIGHTNESS as u64 / FULL as u64;
    if scaled > FULL as u64 {
        FULL
    } else {
        scaled as u32
    }
}

/// The color of an unselected growth tip: each color channel brightened,
/// alpha kept.
pub fn brighten_color(color: Color) -> (r: Color)
    ensures
        r == (Color {
            red: brighten_channel(color.red),
            green: brighten_channel(color.green),
            blue: brighten_channel(color.blue),
            alpha: color.alpha,
        }),
{
    Color {
        red: brighten_channel_exec(color.red),
        green: brighten_channel_exec(color.green),
        blue: brighten_channel_exec(color.blue),
        alpha: color.alpha,
    }
}

} // verus!
