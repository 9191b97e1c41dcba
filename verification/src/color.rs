//! Colours, the selection palette, and the packing of a node's identity into
//! the colour of its pick mesh.

use vstd::prelude::*;

verus! {

/// An sRGBA colour of four 8-bit channels.
#[derive(Clone, Copy, Debug, PartialEq, Eq, Structural)]
pub struct Color {
    pub r: u8,
    pub g: u8,
    pub b: u8,
    pub a: u8,
}

/// Number of identities that three 8-bit channels tell apart, the all-zero
/// background included.
pub const PICK_SPACE: u64 = 0x100_0000;

/// The opaque colour with the given channels.
pub open spec fn opaque(r: u8, g: u8, b: u8) -> Color {
    Color { r, g, b, a: 255 }
}

/// `epaint::Color32::from_rgb`, read back with `to_array`: the colour holds
/// the three channels as given and an alpha of 255.
#[verifier::external_body]
pub(crate) fn opaque_color(r: u8, g: u8, b: u8) -> (c: Color)
    ensures
        c == opaque(r, g, b),
{
    let px = epaint::Color32::from_rgb(r, g, b).to_array();
    Color { r: px[0], g: px[1], b: px[2], a: px[3] }
}

/// The pick colour of a node: `id + 1` cut to 24 bits and spread over red,
/// green and blue, least significant byte first.
pub open spec fn pick_color_of(id: u64) -> Color {
    opaque(
        ((id + 1) % 256) as u8,
        ((id + 1) / 256 % 256) as u8,
        ((id + 1) / 65536 % 256) as u8,
    )
}

/// The identity that a colour read from the pick layer stands for: none for
/// the all-zero background, else the packed number less one.
pub open spec fn pick_id_of(c: Color) -> Option<u64> {
    if c.r == 0 && c.g == 0 && c.b == 0 {
        None
    } else {
        Some((c.r + 256 * c.g + 65536 * c.b - 1) as u64)
    }
}

/// Packs a node's identity into its pick colour.
pub fn pick_color(id: u64) -> (c: Color)
    ensures
        c == pick_color_of(id),
{
    let code: u128 = id as u128 + 1;
    let r: u8 = (code % 256) as u8;
    let g: u8 = (code / 256 % 256) as u8;
    let b: u8 = (code / 65536 % 256) as u8;
    opaque_color(r, g, b)
}

/// Decodes a colour read from the pick layer.
pub fn pick_id(c: Color) -> (id: Option<u64>)
    ensures
        id == pick_id_of(c),
{
    if c.r == 0 && c.g == 0 && c.b == 0 {
        None
    } else {
        let code: u64 = c.r as u64 + 256 * (c.g as u64) + 65536 * (c.b as u64);
        Some(code - 1)
    }
}

/// A pick colour decodes back to the identity it was made from, for every
/// identity that leaves room for the background code in 24 bits.
pub proof fn lemma_pick_round_trip(id: u64)
    requires
        id <= PICK_SPACE - 2,
    ensures
        pick_id_of(pick_color_of(id)) == Some(id),
        pick_color_of(id).a == 255,
{
}

/// The first identity past that range packs to the background code, and so
/// reads back as no hit.
pub proof fn lemma_pick_boundary()
    ensures
        pick_id_of(pick_color_of((PICK_SPACE - 1) as u64)) == None::<u64>,
{
}

} // verus!
