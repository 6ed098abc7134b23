//! Off-screen render targets and the final composite of their layers.

use crate::color::composite_pixel;
use crate::color::lemma_composite_back_to_front;
use crate::color::spec_composite_pixel;
use crate::color::Rgba8;
use crate::fixed::lemma_product_fits;
use crate::raster::lemma_index_in_area;
use crate::raster::PixelBuffer;
use crate::raster::PixelGrid;
use vstd::prelude::*;

verus! {

/// The width of every off-screen layer, whatever the size of the window.
pub const INTERNAL_WIDTH: u32 = 320;

/// The height of every off-screen layer, whatever the size of the window.
pub const INTERNAL_HEIGHT: u32 = 240;

/// Why a render target or a frame could not be had.
#[derive(Clone, Copy, Debug, PartialEq, Eq, Structural)]
pub enum RenderTargetError {
    /// A target needs at least one pixel.
    Empty,
    /// More pixels were asked for than can be addressed.
    TooLarge,
}

/// What a render target holds.
pub struct RenderTargetView {
    pub color: PixelGrid,
    pub has_depth: bool,
}

/// A colour buffer of fixed size to render one layer into, with or without
/// a depth buffer beside it.
#[derive(Debug, PartialEq, Eq)]
pub struct RenderTarget {
    color: PixelBuffer,
    has_depth: bool,
}

impl View for RenderTarget {
    type V = RenderTargetView;

    closed spec fn view(&self) -> RenderTargetView {
        RenderTargetView { color: self.color@, has_depth: self.has_depth }
    }
}

impl RenderTargetView {
    /// The colour buffer is a full rectangle of at least one pixel.
    pub open spec fn wf(self) -> bool {
        &&& self.color.wf()
        &&& self.color.width > 0
        &&& self.color.height > 0
    }
}

impl RenderTarget {
    #[verifier::type_invariant]
    spec fn inv(self) -> bool {
        self.color@.wf() && self.color@.width > 0 && self.color@.height > 0
    }

    /// A target of `width` by `height` pixels, every pixel transparent.
    pub fn new(width: u32, height: u32, has_depth: bool) -> (r: Result<
        RenderTarget,
        RenderTargetError,
    >)
        ensures
            r is Ok <==> width > 0 && height > 0 && width * height <= usize::MAX,
            r matches Ok(t) ==> {
                &&& t@.wf()
                &&& t@.color.width == width
                &&& t@.color.height == height
                &&& t@.color.is_filled_with(Rgba8::transparent())
                &&& t@.has_depth == has_depth
            },
            r matches Err(e) ==> (e == RenderTargetError::Empty <==> width == 0 || height == 0),
    {
        if width == 0 || height == 0 {
            return Err(RenderTargetError::Empty);
        }
        match PixelBuffer::filled(width, height, Rgba8::transparent()) {
            Some(color) => Ok(RenderTarget { color, has_depth }),
            None => Err(RenderTargetError::TooLarge),
        }
    }

    /// A target over pixels that are there already.
    pub fn from_pixels(color: PixelBuffer, has_depth: bool) -> (r: Result<
        RenderTarget,
        RenderTargetError,
    >)
        ensures
            r is Ok <==> color@.width > 0 && color@.height > 0,
            r matches Ok(t) ==> t@.wf() && t@ == (RenderTargetView { color: color@, has_depth }),
            r matches Err(e) ==> e == RenderTargetError::Empty,
    {
        if color.width() == 0 || color.height() == 0 {
            return Err(RenderTargetError::Empty);
        }
        Ok(RenderTarget { color, has_depth })
    }

    /// Sets every pixel to the background of a pass, before the pass draws.
    pub fn clear(&mut self, background: Rgba8)
        ensures
            final(self)@.wf(),
            final(self)@.color.width == old(self)@.color.width,
            final(self)@.color.height == old(self)@.color.height,
            final(self)@.color.is_filled_with(background),
            final(self)@.has_depth == old(self)@.has_depth,
    {
        proof {
            use_type_invariant(&*self);
        }
        let width = self.color.width();
        let height = self.color.height();
        self.color = PixelBuffer::filled(width, height, background).unwrap();
    }

    pub fn color(&self) -> (r: &PixelBuffer)
        ensures
            r@ == self@.color,
            self@.wf(),
    {
        proof {
            use_type_invariant(self);
        }
        &self.color
    }

    pub fn has_depth(&self) -> (r: bool)
        ensures
            r == self@.has_depth,
    {
        self.has_depth
    }
}

/// The pixel that the place `(x, y)` of a frame of `width` by `height`
/// pixels shows: each layer stretched over the frame and sampled at its
/// nearest pixel, the samples composited back to front.
pub open spec fn frame_pixel(
    sky: PixelGrid,
    world: PixelGrid,
    view_model: PixelGrid,
    x: int,
    y: int,
    width: int,
    height: int,
) -> Rgba8 {
    spec_composite_pixel(
        sky.sample(x, y, width, height),
        world.sample(x, y, width, height),
        view_model.sample(x, y, width, height),
    )
}

/// The pixels of `width` columns laid out row by row: the one of column
/// `x` in row `y`.
spec fn pixel_at(pixels: Seq<Rgba8>, width: int, x: int, y: int) -> Rgba8 {
    pixels[y * width + x]
}

/// A place that comes before `(x, y)` in row order has a smaller index.
proof fn lemma_earlier_index(i: int, j: int, x: int, y: int, width: int)
    requires
        0 <= i < width,
        0 <= j,
        0 <= x <= width,
        j < y || (j == y && i < x),
    ensures
        0 <= j * width + i < y * width + x,
{
    assert(0 <= j * width) by (nonlinear_arith)
        requires
            0 <= j,
            0 <= width,
    ;
    if j < y {
        assert(j * width + width <= y * width) by (nonlinear_arith)
            requires
                j + 1 <= y,
                0 <= width,
        ;
    }
}

/// Composites the three layers, back to front, into a frame of `width` by
/// `height` pixels for the presentation layer. The layers need not have the
/// size of the frame, nor that of each other.
pub fn compose(
    sky: &RenderTarget,
    world: &RenderTarget,
    view_model: &RenderTarget,
    width: u32,
    height: u32,
) -> (r: Result<PixelBuffer, RenderTargetError>)
    ensures
        r is Ok <==> width * height <= usize::MAX,
        r matches Ok(frame) ==> {
            &&& frame@.wf()
            &&& frame@.width == width
            &&& frame@.height == height
            &&& forall|x: int, y: int|
                0 <= x < width && 0 <= y < height ==> #[trigger] frame@.at(x, y) == frame_pixel(
                    sky@.color,
                    world@.color,
                    view_model@.color,
                    x,
                    y,
                    width as int,
                    height as int,
                )
        },
        r matches Err(e) ==> e == RenderTargetError::TooLarge,
{
    proof {
        lemma_product_fits(width, height);
    }
    let area: u64 = width as u64 * height as u64;
    if area > usize::MAX as u64 {
        return Err(RenderTargetError::TooLarge);
    }
    let back = sky.color();
    let middle = world.color();
    let front = view_model.color();
    let mut pixels: Vec<Rgba8> = Vec::new();
    let mut y: u32 = 0;
    while y < height
        invariant
            y <= height,
            width * height <= usize::MAX,
            pixels.len() == y * width,
            back@ == sky@.color,
            middle@ == world@.color,
            front@ == view_model@.color,
            sky@.wf(),
            world@.wf(),
            view_model@.wf(),
            forall|i: int, j: int|
                0 <= i < width && 0 <= j < y ==> #[trigger] pixel_at(pixels@, width as int, i, j)
                    == frame_pixel(
                    back@,
                    middle@,
                    front@,
                    i,
                    j,
                    width as int,
                    height as int,
                ),
        decreases height - y,
    {
        let mut x: u32 = 0;
        while x < width
            invariant
                x <= width,
                y < height,
                width * height <= usize::MAX,
                pixels.len() == y * width + x,
                back@ == sky@.color,
                middle@ == world@.color,
                front@ == view_model@.color,
                sky@.wf(),
                world@.wf(),
                view_model@.wf(),
                forall|i: int, j: int|
                    0 <= i < width && (0 <= j < y || (j == y && i < x)) ==> #[trigger] pixel_at(
                        pixels@,
                        width as int,
                        i,
                        j,
                    ) == frame_pixel(back@, middle@, front@, i, j, width as int, height as int),
            decreases width - x,
        {
            let p = composite_pixel(
                back.sample_inside(x, y, width, height),
                middle.sample_inside(x, y, width, height),
                front.sample_inside(x, y, width, height),
            );
            let ghost before = pixels@;
            proof {
                lemma_index_in_area(x as int, y as int, width as int, height as int);
            }
            pixels.push(p);
            proof {
                assert forall|i: int, j: int|
                    0 <= i < width && (0 <= j < y || (j == y && i < x + 1)) implies #[trigger] pixel_at(
                    pixels@,
                    width as int,
                    i,
                    j,
                ) == frame_pixel(
                    back@,
                    middle@,
                    front@,
                    i,
                    j,
                    width as int,
                    height as int,
                ) by {
                    if j == y && i == x {
                        assert(pixels@[y * width + x] == p);
                    } else {
                        lemma_earlier_index(i, j, x as int, y as int, width as int);
                        assert(pixel_at(pixels@, width as int, i, j) == pixel_at(
                            before,
                            width as int,
                            i,
                            j,
                        ));
                    }
                }
            }
            x = x + 1;
        }
        proof {
            assert(y * width + width == (y + 1) * width) by (nonlinear_arith);
        }
        y = y + 1;
    }
    proof {
        assert(height * width == width * height) by (nonlinear_arith);
    }
    let ghost laid = pixels@;
    let frame = PixelBuffer::new(width, height, pixels).unwrap();
    assert forall|x: int, y: int| 0 <= x < width && 0 <= y < height implies #[trigger] frame@.at(
        x,
        y,
    ) == frame_pixel(
        sky@.color,
        world@.color,
        view_model@.color,
        x,
        y,
        width as int,
        height as int,
    ) by {
        assert(frame@.at(x, y) == pixel_at(laid, width as int, x, y));
    }
    Ok(frame)
}

/// The frame is composited back to front. Where the world layer's sample is
/// transparent, the frame shows the view-model sample over the sky sample,
/// and the sky sample itself where the view-model sample is transparent
/// too. Where the view-model layer's sample is opaque, the frame shows it,
/// whatever the layers beneath hold.
pub proof fn lemma_frame_back_to_front(
    sky: PixelGrid,
    world: PixelGrid,
    view_model: PixelGrid,
    x: int,
    y: int,
    width: int,
    height: int,
)
    ensures
        world.sample(x, y, width, height).is_transparent() ==> frame_pixel(
            sky,
            world,
            view_model,
            x,
            y,
            width,
            height,
        ) == view_model.sample(x, y, width, height).over(sky.sample(x, y, width, height)),
        world.sample(x, y, width, height).is_transparent() && view_model.sample(
            x,
            y,
            width,
            height,
        ).is_transparent() ==> frame_pixel(sky, world, view_model, x, y, width, height)
            == sky.sample(x, y, width, height),
        view_model.sample(x, y, width, height).is_opaque() ==> frame_pixel(
            sky,
            world,
            view_model,
            x,
            y,
            width,
            height,
        ) == view_model.sample(x, y, width, height),
{
    lemma_composite_back_to_front(
        sky.sample(x, y, width, height),
        world.sample(x, y, width, height),
        view_model.sample(x, y, width, height),
    );
}

} // verus!
