//! The plan of a frame: three render passes, back to front, whose layers
//! are then composited into the frame that goes to the screen.

use crate::camera::Camera;
use crate::color::Rgba8;
use crate::controller::Style;
use crate::model::pivot_of;
use crate::model::ModelPos;
use crate::model::ModelPosView;
use crate::target::INTERNAL_HEIGHT;
use crate::target::INTERNAL_WIDTH;
use crate::transform::Transform;
use vstd::prelude::*;

verus! {

/// The layers of a frame, from the back to the front.
#[derive(Clone, Copy, Debug, PartialEq, Eq, Structural)]
pub enum Layer {
    /// The sky dome: it turns with the viewer and never comes nearer.
    Sky,
    /// The placed models of the world.
    World,
    /// What the viewer holds: drawn last, over everything.
    ViewModel,
}

impl Layer {
    /// The place of the layer in the stack, the backmost first.
    pub open spec fn depth(self) -> int {
        match self {
            Layer::Sky => 0,
            Layer::World => 1,
            Layer::ViewModel => 2,
        }
    }
}

/// How a pass samples the textures of what it draws.
#[derive(Clone, Copy, Debug, PartialEq, Eq, Structural)]
pub enum Sampler {
    /// The nearest texel is taken, which keeps the edges of texels hard.
    Nearest,
    /// Neighbouring texels are blended.
    Linear,
}

/// One model to draw in a pass.
#[derive(Clone, Copy, Debug, PartialEq, Eq)]
pub struct Draw {
    /// The place of the model in the list that the pass draws from.
    pub model: usize,
    pub transform: Transform,
}

/// What a pass holds.
pub struct PassView {
    pub layer: Layer,
    pub width: u32,
    pub height: u32,
    pub clear: Rgba8,
    pub style: Style,
    pub sampler: Sampler,
    pub camera: Camera,
    pub draws: Seq<Draw>,
}

/// One render pass: a layer drawn into a target of its own.
#[derive(Debug, PartialEq, Eq)]
pub struct Pass {
    pub layer: Layer,
    /// The width of the target, in pixels.
    pub width: u32,
    /// The height of the target, in pixels.
    pub height: u32,
    /// What the target is cleared to before anything is drawn.
    pub clear: Rgba8,
    /// The shader the pass draws with.
    pub style: Style,
    pub sampler: Sampler,
    pub camera: Camera,
    pub draws: Vec<Draw>,
}

impl View for Pass {
    type V = PassView;

    open spec fn view(&self) -> PassView {
        PassView {
            layer: self.layer,
            width: self.width,
            height: self.height,
            clear: self.clear,
            style: self.style,
            sampler: self.sampler,
            camera: self.camera,
            draws: self.draws@,
        }
    }
}

/// A place on the screen, in millionths of a pixel from the top left.
#[derive(Clone, Copy, Debug, PartialEq, Eq, Structural)]
pub struct ScreenPoint {
    pub x: i64,
    pub y: i64,
}

/// Where the flat overlay goes. It is drawn after the composite and no
/// shader of the three-dimensional passes touches it.
#[derive(Clone, Copy, Debug, PartialEq, Eq, Structural)]
pub struct Overlay {
    pub crosshair: ScreenPoint,
    pub frame_rate: ScreenPoint,
    pub help: ScreenPoint,
}

/// What a frame plan holds.
pub struct FramePlanView {
    pub passes: Seq<PassView>,
    pub width: u32,
    pub height: u32,
    pub post_filter: bool,
    pub overlay: Overlay,
}

/// Everything that is decided about a frame before anything is drawn.
#[derive(Debug, PartialEq, Eq)]
pub struct FramePlan {
    /// The passes, in the order they are rendered and composited: the
    /// backmost layer first.
    pub passes: Vec<Pass>,
    /// The width of the frame that the layers are composited into.
    pub width: u32,
    /// The height of the frame that the layers are composited into.
    pub height: u32,
    /// Whether the composited frame goes through the screen filter.
    pub post_filter: bool,
    pub overlay: Overlay,
}

/// What a list of passes holds.
pub open spec fn pass_views(passes: Seq<Pass>) -> Seq<PassView> {
    Seq::new(passes.len(), |i: int| passes[i]@)
}

impl View for FramePlan {
    type V = FramePlanView;

    open spec fn view(&self) -> FramePlanView {
        FramePlanView {
            passes: pass_views(self.passes@),
            width: self.width,
            height: self.height,
            post_filter: self.post_filter,
            overlay: self.overlay,
        }
    }
}

/// What a list of placed models holds.
pub open spec fn placed_views(models: Seq<ModelPos>) -> Seq<ModelPosView> {
    Seq::new(models.len(), |i: int| models[i]@)
}

/// The draws of a list of placed models: each model once, in order, with
/// its own transform about the centre of its bounding volume.
pub open spec fn draws_of(models: Seq<ModelPosView>) -> Seq<Draw> {
    Seq::new(
        models.len(),
        |i: int|
            Draw {
                model: i as usize,
                transform: models[i].transform.with_pivot(pivot_of(models[i].model.bounds)),
            },
    )
}

/// A pass at the internal resolution, its textures sampled at the nearest texel.
pub open spec fn internal_pass(
    layer: Layer,
    clear: Rgba8,
    style: Style,
    camera: Camera,
    draws: Seq<Draw>,
) -> PassView {
    PassView {
        layer,
        width: INTERNAL_WIDTH,
        height: INTERNAL_HEIGHT,
        clear,
        style,
        sampler: Sampler::Nearest,
        camera,
        draws,
    }
}

/// Where the overlay goes on a drawable of `width` by `height` pixels: the
/// crosshair in the middle, the two texts in the left margin.
pub open spec fn spec_overlay(width: u32, height: u32) -> Overlay {
    Overlay {
        crosshair: ScreenPoint { x: (width * 500_000) as i64, y: (height * 500_000) as i64 },
        frame_rate: ScreenPoint { x: 10_000_000, y: 210_000_000 },
        help: ScreenPoint { x: 10_000_000, y: 250_000_000 },
    }
}

#[verifier::when_used_as_spec(spec_overlay)]
pub fn overlay(width: u32, height: u32) -> (r: Overlay)
    ensures
        r == spec_overlay(width, height),
{
    Overlay {
        crosshair: ScreenPoint { x: width as i64 * 500_000, y: height as i64 * 500_000 },
        frame_rate: ScreenPoint { x: 10_000_000, y: 210_000_000 },
        help: ScreenPoint { x: 10_000_000, y: 250_000_000 },
    }
}

/// Lists the draws of the given placed models.
pub fn draw_list(models: &Vec<ModelPos>) -> (r: Vec<Draw>)
    ensures
        r@ == draws_of(placed_views(models@)),
{
    let mut draws: Vec<Draw> = Vec::new();
    let mut i: usize = 0;
    while i < models.len()
        invariant
            i <= models.len(),
            draws@ == draws_of(placed_views(models@)).take(i as int),
        decreases models.len() - i,
    {
        let transform = models[i].draw();
        draws.push(Draw { model: i, transform });
        assert(draws@ =~= draws_of(placed_views(models@)).take(i + 1));
        i = i + 1;
    }
    assert(draws@ =~= draws_of(placed_views(models@)));
    draws
}

} // verus!
