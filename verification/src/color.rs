use vstd::prelude::*;
use embedded_graphics_core::pixelcolor::{Rgb565, Rgb666, RgbColor};

verus! {

/// A color destined for a 16-bit 5-6-5 pixel format: a 5-bit red channel,
/// a 6-bit green channel and a 5-bit blue channel, held unpacked.
#[derive(Clone, Copy, Debug, PartialEq, Eq, Structural)]
pub struct Rgb565Color {
    /// Red channel, significant in the low 5 bits.
    pub r: u8,
    /// Green channel, significant in the low 6 bits.
    pub g: u8,
    /// Blue channel, significant in the low 5 bits.
    pub b: u8,
}

/// A color destined for an 18-bit pixel format: three 6-bit channels, held
/// unpacked.
#[derive(Clone, Copy, Debug, PartialEq, Eq, Structural)]
pub struct Rgb666Color {
    /// Red channel, significant in the low 6 bits.
    pub r: u8,
    /// Green channel, significant in the low 6 bits.
    pub g: u8,
    /// Blue channel, significant in the low 6 bits.
    pub b: u8,
}

impl Rgb565Color {
    /// Each channel fits its field width: 5, 6 and 5 bits.
    pub open spec fn wf(self) -> bool {
        self.r < 32 && self.g < 64 && self.b < 32
    }

    /// The two-byte big-endian 5-6-5 wire encoding: the first byte carries
    /// red and the green channel's high 3 bits, the second byte the green
    /// channel's low 3 bits and blue.
    pub open spec fn spec_encode(self) -> Seq<u8> {
        seq![
            (self.r * 8 + self.g / 8) as u8,
            ((self.g % 8) * 32 + self.b) as u8,
        ]
    }

    /// Encodes the color into its two-byte wire form.
    pub fn encode(&self) -> (bytes: Vec<u8>)
        requires
            self.wf(),
        ensures
            bytes@ == self.spec_encode(),
            bytes@.len() == 2,
    {
        let hi: u8 = self.r * 8 + self.g / 8;
        let lo: u8 = (self.g % 8) * 32 + self.b;
        let mut bytes: Vec<u8> = Vec::new();
        bytes.push(hi);
        bytes.push(lo);
        assert(bytes@ =~= self.spec_encode());
        bytes
    }

    /// The color a two-byte 5-6-5 wire encoding denotes.
    pub open spec fn spec_decode(hi: u8, lo: u8) -> Rgb565Color {
        Rgb565Color { r: (hi / 8) as u8, g: ((hi % 8) * 8 + lo / 32) as u8, b: (lo % 32) as u8 }
    }

    /// Decodes a two-byte 5-6-5 wire encoding back into its channels.
    pub fn decode(hi: u8, lo: u8) -> (c: Rgb565Color)
        ensures
            c == Rgb565Color::spec_decode(hi, lo),
            c.wf(),
    {
        Rgb565Color { r: hi / 8, g: (hi % 8) * 8 + lo / 32, b: lo % 32 }
    }
}

/// Law: the 5-6-5 encoding loses nothing. Decoding the two bytes a
/// well-formed color encodes to recovers that color exactly.
pub proof fn lemma_rgb565_round_trip(c: Rgb565Color)
    requires
        c.wf(),
    ensures
        Rgb565Color::spec_decode(c.spec_encode()[0], c.spec_encode()[1]) == c,
{
    let hi = (c.r * 8 + c.g / 8) as u8;
    let lo = ((c.g % 8) * 32 + c.b) as u8;
    assert(hi / 8 == c.r && hi % 8 == c.g / 8) by (nonlinear_arith)
        requires
            hi == c.r * 8 + c.g / 8,
            c.r < 32,
            c.g < 64,
    ;
    assert(lo / 32 == c.g % 8 && lo % 32 == c.b) by (nonlinear_arith)
        requires
            lo == (c.g % 8) * 32 + c.b,
            c.g < 64,
            c.b < 32,
    ;
    assert((c.g / 8) * 8 + c.g % 8 == c.g) by (nonlinear_arith)
        requires
            c.g < 64,
    ;
}

impl Rgb666Color {
    /// Each channel fits its 6-bit field.
    pub open spec fn wf(self) -> bool {
        self.r < 64 && self.g < 64 && self.b < 64
    }

    /// The three-byte wire encoding: one byte per channel, the 6-bit value
    /// shifted into the byte's high bits (the low 2 bits are sent as zero).
    pub open spec fn spec_encode(self) -> Seq<u8> {
        seq![(self.r * 4) as u8, (self.g * 4) as u8, (self.b * 4) as u8]
    }

    /// Encodes the color into its three-byte wire form.
    pub fn encode(&self) -> (bytes: Vec<u8>)
        requires
            self.wf(),
        ensures
            bytes@ == self.spec_encode(),
            bytes@.len() == 3,
    {
        let mut bytes: Vec<u8> = Vec::new();
        bytes.push(self.r * 4);
        bytes.push(self.g * 4);
        bytes.push(self.b * 4);
        assert(bytes@ =~= self.spec_encode());
        bytes
    }

    /// The color a three-byte wire encoding denotes: each channel is the
    /// byte's high 6 bits.
    pub open spec fn spec_decode(rb: u8, gb: u8, bb: u8) -> Rgb666Color {
        Rgb666Color { r: (rb / 4) as u8, g: (gb / 4) as u8, b: (bb / 4) as u8 }
    }

    /// Decodes a three-byte wire encoding back into its channels.
    pub fn decode(rb: u8, gb: u8, bb: u8) -> (c: Rgb666Color)
        ensures
            c == Rgb666Color::spec_decode(rb, gb, bb),
            c.wf(),
    {
        Rgb666Color { r: rb / 4, g: gb / 4, b: bb / 4 }
    }

    /// Narrows full-width 8-bit channels to the 6 significant bits the
    /// format keeps: each channel is divided by 4, discarding its 2 least
    /// significant bits.
    pub fn from_rgb888(r: u8, g: u8, b: u8) -> (c: Rgb666Color)
        ensures
            c == (Rgb666Color { r: (r / 4) as u8, g: (g / 4) as u8, b: (b / 4) as u8 }),
            c.wf(),
    {
        Rgb666Color { r: r / 4, g: g / 4, b: b / 4 }
    }
}

/// Law: the 18-bit encoding loses nothing of a well-formed color's 6-bit
/// channels: decoding the three bytes it encodes to recovers the color.
pub proof fn lemma_rgb666_round_trip(c: Rgb666Color)
    requires
        c.wf(),
    ensures
        Rgb666Color::spec_decode(c.spec_encode()[0], c.spec_encode()[1], c.spec_encode()[2]) == c,
{
}

/// Law: starting from full 8-bit channels, the loss of an encode/decode
/// round trip is confined to each channel's 2 least significant bits: the
/// recovered channel, widened back to 8 bits, never exceeds the channel it
/// came from and falls short of it by less than 4.
pub proof fn lemma_rgb666_precision_loss(r: u8, g: u8, b: u8)
    ensures
        ({
            let c = Rgb666Color { r: (r / 4) as u8, g: (g / 4) as u8, b: (b / 4) as u8 };
            let back = Rgb666Color::spec_decode(c.spec_encode()[0], c.spec_encode()[1], c.spec_encode()[2]);
            &&& back == c
            &&& back.r * 4 <= r < back.r * 4 + 4
            &&& back.g * 4 <= g < back.g * 4 + 4
            &&& back.b * 4 <= b < back.b * 4 + 4
        }),
{
}

/// Declares embedded_graphics_core's packed 16-bit RGB color type.
#[verifier::external_type_specification]
#[verifier::external_body]
pub struct ExRgb565(Rgb565);

/// Declares embedded_graphics_core's packed 18-bit RGB color type.
#[verifier::external_type_specification]
#[verifier::external_body]
pub struct ExRgb666(Rgb666);

/// Relies on embedded_graphics_core's `RgbColor` accessors `r`, `g`, `b` on
/// `Rgb565`: each returns the stored channel masked to its field width
/// (5, 6 and 5 bits), so the results fit those widths.
#[verifier::external_body]
fn rgb565_channels(c: Rgb565) -> (t: (u8, u8, u8))
    ensures
        t.0 < 32,
        t.1 < 64,
        t.2 < 32,
{
    (c.r(), c.g(), c.b())
}

/// Relies on embedded_graphics_core's `RgbColor` accessors `r`, `g`, `b` on
/// `Rgb666`: each returns the stored channel masked to its 6-bit width.
#[verifier::external_body]
fn rgb666_channels(c: Rgb666) -> (t: (u8, u8, u8))
    ensures
        t.0 < 64,
        t.1 < 64,
        t.2 < 64,
{
    (c.r(), c.g(), c.b())
}

impl Rgb565Color {
    /// Reads the channels out of an embedded_graphics_core `Rgb565` value.
    pub fn from_eg(c: Rgb565) -> (r: Rgb565Color)
        ensures
            r.wf(),
    {
        let (r, g, b) = rgb565_channels(c);
        Rgb565Color { r, g, b }
    }
}

impl Rgb666Color {
    /// Reads the channels out of an embedded_graphics_core `Rgb666` value.
    pub fn from_eg(c: Rgb666) -> (r: Rgb666Color)
        ensures
            r.wf(),
    {
        let (r, g, b) = rgb666_channels(c);
        Rgb666Color { r, g, b }
    }
}

} // verus!
