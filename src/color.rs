//! Clamped RGB colours.
use vstd::prelude::*;
use crate::fixed::{clamp_spec, fx_add, fx_clamp, fx_mul, mul_spec, add_spec, ONE};

verus! {

/// A colour; each channel is a fixed-point scalar in `[0, ONE]`.
#[derive(Clone, Copy, Debug, PartialEq, Eq, Structural)]
pub struct Color {
    pub r: i64,
    pub g: i64,
    pub b: i64,
}

pub open spec fn channel_ok(c: int) -> bool {
    0 <= c <= ONE
}

pub open spec fn color_wf(c: Color) -> bool {
    channel_ok(c.r as int) && channel_ok(c.g as int) && channel_ok(c.b as int)
}

pub open spec fn unit_clamp(v: int) -> int {
    clamp_spec(v, 0, ONE as int)
}

/// The colour built from three raw channels, each clamped into `[0, ONE]`.
pub open spec fn color_of(r: int, g: int, b: int) -> Color {
    Color { r: unit_clamp(r) as i64, g: unit_clamp(g) as i64, b: unit_clamp(b) as i64 }
}

pub open spec fn color_add(a: Color, b: Color) -> Color {
    color_of(add_spec(a.r as int, b.r as int), add_spec(a.g as int, b.g as int), add_spec(a.b as int, b.b as int))
}

pub open spec fn color_scale(a: Color, k: int) -> Color {
    color_of(mul_spec(a.r as int, k), mul_spec(a.g as int, k), mul_spec(a.b as int, k))
}

pub open spec fn color_mul(a: Color, b: Color) -> Color {
    color_of(mul_spec(a.r as int, b.r as int), mul_spec(a.g as int, b.g as int), mul_spec(a.b as int, b.b as int))
}

/// One channel as a byte: `round(c * 255)`.
pub open spec fn byte_of(c: int) -> int {
    (unit_clamp(c) * 255 + ONE / 2) / (ONE as int)
}

/// The packed `0xRRGGBB` form of a colour.
pub open spec fn hex_of(c: Color) -> int {
    byte_of(c.r as int) * 65536 + byte_of(c.g as int) * 256 + byte_of(c.b as int)
}

/// A byte back to a channel: `byte / 255`.
pub open spec fn channel_of_byte(b: int) -> int {
    b * ONE / 255
}

pub open spec fn color_of_hex(h: int) -> Color {
    color_of(
        channel_of_byte((h / 65536) % 256),
        channel_of_byte((h / 256) % 256),
        channel_of_byte(h % 256),
    )
}

proof fn lemma_byte_range(c: int)
    ensures
        0 <= byte_of(c) <= 255,
{
    let u = unit_clamp(c);
    assert(0 <= (u * 255 + 500_000) / 1_000_000 <= 255) by (nonlinear_arith)
        requires
            0 <= u <= 1_000_000,
    ;
}

fn channel_byte(c: i64) -> (r: u32)
    ensures
        r == byte_of(c as int),
        r <= 255,
{
    proof {
        lemma_byte_range(c as int);
    }
    let u = fx_clamp(c, 0, ONE);
    ((u * 255 + ONE / 2) / ONE) as u32
}

fn byte_channel(b: u32) -> (r: i64)
    requires
        b <= 255,
    ensures
        r == channel_of_byte(b as int),
{
    assert(0 <= (b as int) * 1_000_000 / 255 <= 1_000_000) by (nonlinear_arith)
        requires
            0 <= b <= 255,
    ;
    (b as i64 * ONE) / 255
}

impl Color {
    /// Builds a colour, clamping each channel into `[0, ONE]`.
    pub fn new(r: i64, g: i64, b: i64) -> (c: Color)
        ensures
            c == color_of(r as int, g as int, b as int),
            color_wf(c),
    {
        Color { r: fx_clamp(r, 0, ONE), g: fx_clamp(g, 0, ONE), b: fx_clamp(b, 0, ONE) }
    }

    pub fn black() -> (c: Color)
        ensures
            c == (Color { r: 0, g: 0, b: 0 }),
    {
        Color::new(0, 0, 0)
    }

    pub fn white() -> (c: Color)
        ensures
            c == (Color { r: ONE, g: ONE, b: ONE }),
    {
        Color::new(ONE, ONE, ONE)
    }

    /// Packs the colour as `0xRRGGBB`, each channel rounded to a byte.
    pub fn to_hex(&self) -> (h: u32)
        ensures
            h == hex_of(*self),
            h < 0x100_0000,
    {
        let r = channel_byte(self.r);
        let g = channel_byte(self.g);
        let b = channel_byte(self.b);
        r * 65536 + g * 256 + b
    }

    /// Unpacks `0xRRGGBB`; bits above the low 24 are ignored.
    pub fn from_hex(hex: u32) -> (c: Color)
        ensures
            c == color_of_hex(hex as int),
            color_wf(c),
    {
        let r = byte_channel((hex / 65536) % 256);
        let g = byte_channel((hex / 256) % 256);
        let b = byte_channel(hex % 256);
        Color::new(r, g, b)
    }

    pub fn add(&self, o: &Color) -> (c: Color)
        ensures
            c == color_add(*self, *o),
            color_wf(c),
    {
        Color::new(fx_add(self.r, o.r), fx_add(self.g, o.g), fx_add(self.b, o.b))
    }

    /// Multiplies each channel by a scalar, then clamps.
    pub fn scale(&self, k: i64) -> (c: Color)
        ensures
            c == color_scale(*self, k as int),
            color_wf(c),
    {
        Color::new(fx_mul(self.r, k), fx_mul(self.g, k), fx_mul(self.b, k))
    }

    /// Multiplies channel by channel.
    pub fn mul(&self, o: &Color) -> (c: Color)
        ensures
            c == color_mul(*self, *o),
            color_wf(c),
    {
        Color::new(fx_mul(self.r, o.r), fx_mul(self.g, o.g), fx_mul(self.b, o.b))
    }
}

/// Building a colour from the channels of a colour gives it back unchanged,
/// so clamping twice is the same as clamping once.
pub proof fn lemma_new_idempotent(r: int, g: int, b: int)
    ensures
        color_of(color_of(r, g, b).r as int, color_of(r, g, b).g as int, color_of(r, g, b).b as int)
            == color_of(r, g, b),
        color_wf(color_of(r, g, b)),
{
}

/// The sum of any two colours stays within `(1, 1, 1)`, even when both are white.
pub proof fn lemma_add_bounded(a: Color, b: Color)
    ensures
        color_wf(color_add(a, b)),
        color_add(Color { r: ONE, g: ONE, b: ONE }, Color { r: ONE, g: ONE, b: ONE })
            == (Color { r: ONE, g: ONE, b: ONE }),
{
}

proof fn lemma_channel_round_trip(c: int)
    requires
        channel_ok(c),
    ensures
        255 * (channel_of_byte(byte_of(c)) - c) <= ONE,
        255 * (c - channel_of_byte(byte_of(c))) <= ONE,
        channel_ok(channel_of_byte(byte_of(c))),
{
    let q = byte_of(c);
    lemma_byte_range(c);
    assert(unit_clamp(c) == c);
    assert(q == (c * 255 + 500_000) / 1_000_000);
    let back = channel_of_byte(q);
    assert(back == q * 1_000_000 / 255);
    assert(255 * (back - c) <= 1_000_000 && 255 * (c - back) <= 1_000_000 && 0 <= back <= 1_000_000)
        by (nonlinear_arith)
        requires
            0 <= c <= 1_000_000,
            q == (c * 255 + 500_000) / 1_000_000,
            back == q * 1_000_000 / 255,
            0 <= q <= 255,
    ;
}

/// Packing a colour and unpacking it again moves each channel by at most
/// `1/255`.
pub proof fn lemma_hex_round_trip(c: Color)
    requires
        color_wf(c),
    ensures
        255 * (color_of_hex(hex_of(c)).r - c.r) <= ONE,
        255 * (c.r - color_of_hex(hex_of(c)).r) <= ONE,
        255 * (color_of_hex(hex_of(c)).g - c.g) <= ONE,
        255 * (c.g - color_of_hex(hex_of(c)).g) <= ONE,
        255 * (color_of_hex(hex_of(c)).b - c.b) <= ONE,
        255 * (c.b - color_of_hex(hex_of(c)).b) <= ONE,
{
    let br = byte_of(c.r as int);
    let bg = byte_of(c.g as int);
    let bb = byte_of(c.b as int);
    lemma_byte_range(c.r as int);
    lemma_byte_range(c.g as int);
    lemma_byte_range(c.b as int);
    let h = hex_of(c);
    assert((h / 65536) % 256 == br && (h / 256) % 256 == bg && h % 256 == bb) by (nonlinear_arith)
        requires
            h == br * 65536 + bg * 256 + bb,
            0 <= br <= 255,
            0 <= bg <= 255,
            0 <= bb <= 255,
    ;
    lemma_channel_round_trip(c.r as int);
    lemma_channel_round_trip(c.g as int);
    lemma_channel_round_trip(c.b as int);
}

} // verus!
