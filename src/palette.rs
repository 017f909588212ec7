//! Colours of the replies, and the random choices made among fixed lists.

use vstd::prelude::*;

verus! {

/// A colour as red, green and blue.
#[derive(Clone, Copy, Debug, PartialEq, Eq, Structural)]
pub struct Rgb {
    pub r: u8,
    pub g: u8,
    pub b: u8,
}

/// The number of colours in the palette.
pub const PALETTE_LEN: usize = 12;

/// The palette that reply colours are drawn from.
pub open spec fn palette_spec() -> Seq<Rgb> {
    seq![
        Rgb { r: 245, g: 194, b: 231 },
        Rgb { r: 203, g: 166, b: 247 },
        Rgb { r: 243, g: 139, b: 168 },
        Rgb { r: 235, g: 160, b: 172 },
        Rgb { r: 250, g: 179, b: 135 },
        Rgb { r: 249, g: 226, b: 175 },
        Rgb { r: 166, g: 227, b: 161 },
        Rgb { r: 148, g: 226, b: 213 },
        Rgb { r: 137, g: 220, b: 235 },
        Rgb { r: 116, g: 199, b: 236 },
        Rgb { r: 137, g: 180, b: 250 },
        Rgb { r: 180, g: 190, b: 254 },
    ]
}

/// The palette.
pub fn palette() -> (r: Vec<Rgb>)
    ensures
        r@ == palette_spec(),
        r@.len() == PALETTE_LEN,
{
    let r = vec![
        Rgb { r: 245, g: 194, b: 231 },
        Rgb { r: 203, g: 166, b: 247 },
        Rgb { r: 243, g: 139, b: 168 },
        Rgb { r: 235, g: 160, b: 172 },
        Rgb { r: 250, g: 179, b: 135 },
        Rgb { r: 249, g: 226, b: 175 },
        Rgb { r: 166, g: 227, b: 161 },
        Rgb { r: 148, g: 226, b: 213 },
        Rgb { r: 137, g: 220, b: 235 },
        Rgb { r: 116, g: 199, b: 236 },
        Rgb { r: 137, g: 180, b: 250 },
        Rgb { r: 180, g: 190, b: 254 },
    ];
    assert(r@ =~= palette_spec());
    r
}

/// The colour of the replies to prompts.
pub fn prompt_color() -> (r: Rgb)
    ensures
        r == (Rgb { r: 166, g: 227, b: 161 }),
{
    Rgb { r: 166, g: 227, b: 161 }
}

/// The colour of image replies and of their errors.
pub fn imagine_color() -> (r: Rgb)
    ensures
        r == (Rgb { r: 137, g: 220, b: 235 }),
{
    Rgb { r: 137, g: 220, b: 235 }
}

/// The colour of error replies to a remix.
pub fn error_color() -> (r: Rgb)
    ensures
        r == (Rgb { r: 231, g: 76, b: 60 }),
{
    Rgb { r: 231, g: 76, b: 60 }
}

/// Relies on `rand::random_range`: an index drawn from `0..n` by the
/// thread-local generator. Nothing is known of which one.
#[verifier::external_body]
pub(crate) fn random_index(n: usize) -> (r: usize)
    requires
        n > 0,
    ensures
        r < n,
{
    rand::random_range(0..n)
}

/// The colour at index `i` of the palette.
pub fn palette_color(i: usize) -> (r: Rgb)
    requires
        i < PALETTE_LEN,
    ensures
        r == palette_spec()[i as int],
{
    let colors = palette();
    colors[i]
}

/// A colour of the palette, drawn at random.
pub fn random_palette_color() -> (r: Rgb)
    ensures
        exists|i: int| 0 <= i < PALETTE_LEN && r == #[trigger] palette_spec()[i],
{
    let i = random_index(PALETTE_LEN);
    palette_color(i)
}

} // verus!
