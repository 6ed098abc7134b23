//! Pixels and the blending of one pixel over another.

use vstd::prelude::*;

verus! {

/// A pixel: three colour channels and a straight (not premultiplied) alpha.
#[derive(Clone, Copy, Debug, PartialEq, Eq, Structural)]
pub struct Rgba8 {
    pub r: u8,
    pub g: u8,
    pub b: u8,
    pub a: u8,
}

/// One channel of `above` laid over the same channel of `below`, `alpha`
/// being the coverage of `above` out of 255.
pub open spec fn mix_channel(above: u8, below: u8, alpha: u8) -> int {
    (above * alpha + below * (255 - alpha)) / 255
}

/// The coverage of two stacked pixels.
pub open spec fn mix_alpha(above: u8, below: u8) -> int {
    above + below * (255 - above) / 255
}

fn blend_channel(above: u8, below: u8, alpha: u8) -> (r: u8)
    ensures
        r as int == mix_channel(above, below, alpha),
{
    let inv: u32 = 255 - alpha as u32;
    assert(above as int * alpha as int <= 255 * alpha as int) by (nonlinear_arith)
        requires
            0 <= above as int <= 255,
            0 <= alpha as int,
    ;
    assert(below as int * inv as int <= 255 * inv as int) by (nonlinear_arith)
        requires
            0 <= below as int <= 255,
            0 <= inv as int,
    ;
    assert(0 <= above as int * alpha as int) by (nonlinear_arith)
        requires
            0 <= above as int,
            0 <= alpha as int,
    ;
    assert(0 <= below as int * inv as int) by (nonlinear_arith)
        requires
            0 <= below as int,
            0 <= inv as int,
    ;
    let sum: u32 = above as u32 * alpha as u32 + below as u32 * inv;
    (sum / 255) as u8
}

fn blend_alpha(above: u8, below: u8) -> (r: u8)
    ensures
        r as int == mix_alpha(above, below),
{
    let inv: u32 = 255 - above as u32;
    assert(below as int * inv as int <= 255 * inv as int) by (nonlinear_arith)
        requires
            0 <= below as int <= 255,
            0 <= inv as int,
    ;
    assert(0 <= below as int * inv as int) by (nonlinear_arith)
        requires
            0 <= below as int,
            0 <= inv as int,
    ;
    let rest: u32 = below as u32 * inv / 255;
    (above as u32 + rest) as u8
}

impl Rgba8 {
    /// Black that hides everything beneath it: the background of the base layer.
    pub open spec fn spec_opaque_black() -> Rgba8 {
        Rgba8 { r: 0, g: 0, b: 0, a: 255 }
    }

    /// A pixel that hides nothing: the background of an overlay layer.
    pub open spec fn spec_transparent() -> Rgba8 {
        Rgba8 { r: 0, g: 0, b: 0, a: 0 }
    }

    /// This pixel laid over `below`.
    pub open spec fn spec_over(self, below: Rgba8) -> Rgba8 {
        Rgba8 {
            r: mix_channel(self.r, below.r, self.a) as u8,
            g: mix_channel(self.g, below.g, self.a) as u8,
            b: mix_channel(self.b, below.b, self.a) as u8,
            a: mix_alpha(self.a, below.a) as u8,
        }
    }

    pub open spec fn is_transparent(self) -> bool {
        self.a == 0
    }

    pub open spec fn is_opaque(self) -> bool {
        self.a == 255
    }

    #[verifier::when_used_as_spec(spec_opaque_black)]
    pub fn opaque_black() -> (r: Rgba8)
        ensures
            r == Rgba8::spec_opaque_black(),
    {
        Rgba8 { r: 0, g: 0, b: 0, a: 255 }
    }

    #[verifier::when_used_as_spec(spec_transparent)]
    pub fn transparent() -> (r: Rgba8)
        ensures
            r == Rgba8::spec_transparent(),
    {
        Rgba8 { r: 0, g: 0, b: 0, a: 0 }
    }

    #[verifier::when_used_as_spec(spec_over)]
    pub fn over(self, below: Rgba8) -> (r: Rgba8)
        ensures
            r == self.spec_over(below),
    {
        Rgba8 {
            r: blend_channel(self.r, below.r, self.a),
            g: blend_channel(self.g, below.g, self.a),
            b: blend_channel(self.b, below.b, self.a),
            a: blend_alpha(self.a, below.a),
        }
    }
}

/// The pixel that three stacked layers show: the sky at the back, the world
/// over it, the view-model in front.
pub open spec fn spec_composite_pixel(sky: Rgba8, world: Rgba8, view_model: Rgba8) -> Rgba8 {
    view_model.over(world.over(sky))
}

#[verifier::when_used_as_spec(spec_composite_pixel)]
pub fn composite_pixel(sky: Rgba8, world: Rgba8, view_model: Rgba8) -> (r: Rgba8)
    ensures
        r == spec_composite_pixel(sky, world, view_model),
{
    view_model.over(world.over(sky))
}

/// With no coverage a channel keeps the value beneath; with full coverage it
/// takes the value above.
proof fn lemma_mix_extremes(above: u8, below: u8)
    ensures
        mix_channel(above, below, 0) == below,
        mix_channel(above, below, 255) == above,
        mix_alpha(0, below) == below,
        mix_alpha(255, below) == 255,
{
}

/// A transparent pixel shows what lies beneath it, unchanged.
pub proof fn lemma_transparent_shows_below(above: Rgba8, below: Rgba8)
    requires
        above.is_transparent(),
    ensures
        above.over(below) == below,
{
    lemma_mix_extremes(above.r, below.r);
    lemma_mix_extremes(above.g, below.g);
    lemma_mix_extremes(above.b, below.b);
    lemma_mix_extremes(above.a, below.a);
}

/// An opaque pixel hides what lies beneath it.
pub proof fn lemma_opaque_hides_below(above: Rgba8, below: Rgba8)
    requires
        above.is_opaque(),
    ensures
        above.over(below) == above,
{
    lemma_mix_extremes(above.r, below.r);
    lemma_mix_extremes(above.g, below.g);
    lemma_mix_extremes(above.b, below.b);
    lemma_mix_extremes(above.a, below.a);
}

/// Layers are composited back to front. Where the world layer is
/// transparent the sky shows through it, so the frame holds the view-model
/// over the sky; where both upper layers are transparent it holds the sky
/// itself. Where the view-model layer is opaque the frame holds the
/// view-model pixel, whatever the two layers beneath it hold.
pub proof fn lemma_composite_back_to_front(sky: Rgba8, world: Rgba8, view_model: Rgba8)
    ensures
        world.is_transparent() ==> composite_pixel(sky, world, view_model) == view_model.over(sky),
        world.is_transparent() && view_model.is_transparent() ==> composite_pixel(
            sky,
            world,
            view_model,
        ) == sky,
        view_model.is_opaque() ==> composite_pixel(sky, world, view_model) == view_model,
{
    if world.is_transparent() {
        lemma_transparent_shows_below(world, sky);
        if view_model.is_transparent() {
            lemma_transparent_shows_below(view_model, sky);
        }
    }
    if view_model.is_opaque() {
        lemma_opaque_hides_below(view_model, world.over(sky));
    }
}

} // verus!
