//! The state of the viewer and its frame: set up, resize, update, draw.

use crate::camera::Camera;
use crate::camera::Heading;
use crate::camera::Projection;
use crate::color::Rgba8;
use crate::compositor::draw_list;
use crate::compositor::draws_of;
use crate::compositor::internal_pass;
use crate::compositor::overlay;
use crate::compositor::placed_views;
use crate::compositor::spec_overlay;
use crate::compositor::Draw;
use crate::compositor::FramePlan;
use crate::compositor::FramePlanView;
use crate::compositor::Layer;
use crate::compositor::Pass;
use crate::compositor::PassView;
use crate::compositor::Sampler;
use crate::controller::advanced;
use crate::controller::spec_advanced;
use crate::controller::Pointer;
use crate::controller::RenderMode;
use crate::controller::Style;
use crate::keys::keys_down;
use crate::keys::keys_down_before;
use crate::keys::Controls;
use crate::model::pivot_of;
use crate::model::Model;
use crate::model::ModelPos;
use crate::model::ModelPosView;
use crate::target::INTERNAL_HEIGHT;
use crate::target::INTERNAL_WIDTH;
use crate::transform::Rotation;
use crate::transform::Transform;
use crate::vector::Vec3;
use ggez::input::keyboard::KeyboardContext;
use vstd::prelude::*;

verus! {

/// Where the player's model stands.
pub open spec fn player_position() -> Vec3 {
    Vec3 { x: 10_000_000, y: 5_000_000, z: (-10_000_000) as i64 }
}

/// Where the held model stands, seen from the viewer.
pub open spec fn held_position() -> Vec3 {
    Vec3 { x: 4_750_000, y: (-1_250_000) as i64, z: 2_000_000 }
}

/// The scale of the player's model and of the held model: three on every axis.
pub open spec fn prop_scale() -> Vec3 {
    Vec3 { x: 3_000_000, y: 3_000_000, z: 3_000_000 }
}

/// The scale of the sky dome: a hundred on every axis.
pub open spec fn sky_scale() -> Vec3 {
    Vec3 { x: 100_000_000, y: 100_000_000, z: 100_000_000 }
}

/// Everything the viewer keeps from one frame to the next.
#[derive(Debug, PartialEq, Eq)]
pub struct MainState {
    pub camera: Camera,
    /// The models of the world.
    pub models: Vec<ModelPos>,
    /// The models the viewer holds. They are placed relative to the viewer
    /// and drawn with the camera at the origin.
    pub view_models: Vec<ModelPos>,
    pub skybox: ModelPos,
    pub mode: RenderMode,
    /// The style of the sky pass, where it is not to be the plain one.
    pub sky_style: Option<Style>,
    /// The projection of the view-model pass, where it is not to be the
    /// camera's own. Its aspect ratio is not used: the pass takes the
    /// camera's.
    pub view_model_lens: Option<Projection>,
}

/// What the viewer's state holds.
pub struct MainStateView {
    pub camera: Camera,
    pub models: Seq<ModelPosView>,
    pub view_models: Seq<ModelPosView>,
    pub skybox: ModelPosView,
    pub mode: RenderMode,
    pub sky_style: Option<Style>,
    pub view_model_lens: Option<Projection>,
}

impl View for MainState {
    type V = MainStateView;

    open spec fn view(&self) -> MainStateView {
        MainStateView {
            camera: self.camera,
            models: placed_views(self.models@),
            view_models: placed_views(self.view_models@),
            skybox: self.skybox@,
            mode: self.mode,
            sky_style: self.sky_style,
            view_model_lens: self.view_model_lens,
        }
    }
}

impl MainStateView {
    /// The state after a frame of input: the camera moved and turned, the
    /// mode switched where a toggle key went down, the scene as it was.
    pub open spec fn applied(
        self,
        controls: Controls,
        heading: Heading,
        dt_us: u32,
        pointer: Option<Pointer>,
    ) -> MainStateView {
        MainStateView {
            camera: spec_advanced(self.camera, controls, heading, dt_us, pointer),
            models: self.models,
            view_models: self.view_models,
            skybox: self.skybox,
            mode: self.mode.toggled(controls),
            sky_style: self.sky_style,
            view_model_lens: self.view_model_lens,
        }
    }

    /// The state after the window took a new size: the camera's projection
    /// has the window's aspect ratio and nothing else has changed.
    pub open spec fn resized(self, width: u32, height: u32) -> MainStateView {
        MainStateView {
            camera: Camera {
                position: self.camera.position,
                yaw: self.camera.yaw,
                pitch: self.camera.pitch,
                projection: self.camera.projection.resized(width, height),
            },
            models: self.models,
            view_models: self.view_models,
            skybox: self.skybox,
            mode: self.mode,
            sky_style: self.sky_style,
            view_model_lens: self.view_model_lens,
        }
    }

    /// The camera of the sky pass: the viewer's, at the origin of the
    /// world, so that the sky turns with the viewer and never moves.
    pub open spec fn sky_camera(self) -> Camera {
        self.camera.at_origin()
    }

    /// The camera of the view-model pass: the viewer's, at the origin, so
    /// that what the viewer holds does not move as the viewer walks. It
    /// has the lens of the view-model pass where one is set.
    pub open spec fn view_model_camera(self) -> Camera {
        Camera {
            position: Vec3::zero(),
            yaw: self.camera.yaw,
            pitch: self.camera.pitch,
            projection: match self.view_model_lens {
                Some(lens) => lens.resized(
                    self.camera.projection@.width as u32,
                    self.camera.projection@.height as u32,
                ),
                None => self.camera.projection,
            },
        }
    }

    /// The sky pass: cleared to opaque black, the sky dome alone, in the
    /// plain style unless another is set for it.
    pub open spec fn sky_pass(self) -> PassView {
        internal_pass(
            Layer::Sky,
            Rgba8::opaque_black(),
            match self.sky_style {
                Some(style) => style,
                None => Style::Default,
            },
            self.sky_camera(),
            draws_of(seq![self.skybox]),
        )
    }

    /// The world pass: cleared to transparent, every model of the world, in
    /// the style that is switched on, through the viewer's own camera.
    pub open spec fn world_pass(self) -> PassView {
        internal_pass(
            Layer::World,
            Rgba8::transparent(),
            self.mode.style,
            self.camera,
            draws_of(self.models),
        )
    }

    /// The view-model pass: cleared to transparent, the held models alone.
    pub open spec fn view_model_pass(self) -> PassView {
        internal_pass(
            Layer::ViewModel,
            Rgba8::transparent(),
            self.mode.style,
            self.view_model_camera(),
            draws_of(self.view_models),
        )
    }

    /// The plan of a frame for a drawable of `width` by `height` pixels.
    pub open spec fn plan(self, width: u32, height: u32) -> FramePlanView {
        FramePlanView {
            passes: seq![self.sky_pass(), self.world_pass(), self.view_model_pass()],
            width,
            height,
            post_filter: self.mode.post_filter,
            overlay: spec_overlay(width, height),
        }
    }
}

/// A placed model as the scene is set up: without a pivot of its own.
pub open spec fn placed(model: Model, position: Vec3, rotation: Rotation, scale: Vec3) -> ModelPosView {
    ModelPosView {
        transform: Transform { position, rotation, scale, pivot: None },
        model: model@,
        pivot: pivot_of(model@.bounds),
    }
}

impl MainState {
    /// The viewer as it starts: the camera at the origin with the default
    /// projection, looking along the first axis; the player's model in the
    /// world and the held model before the viewer, both three times their
    /// size, the held model turned by `held_rotation`; the sky dome about
    /// the origin, a hundred times its size; the retro style and the screen
    /// filter both on.
    pub fn new(player: Model, held: Model, skybox: Model, held_rotation: Rotation) -> (r:
        MainState)
        ensures
            r.camera.position == Vec3::zero(),
            r.camera.yaw == 0,
            r.camera.pitch == 0,
            r.camera.projection@ == Projection::default_view(),
            r@.models.len() == 1,
            r@.models[0] == placed(player, player_position(), Rotation::identity(), prop_scale()),
            r@.view_models.len() == 1,
            r@.view_models[0] == placed(held, held_position(), held_rotation, prop_scale()),
            r@.skybox == placed(skybox, Vec3::zero(), Rotation::identity(), sky_scale()),
            r.mode == (RenderMode { style: Style::Retro, post_filter: true }),
            r.sky_style is None,
            r.view_model_lens is None,
    {
        let camera = Camera::new(Projection::default());
        let player = ModelPos::new(
            player,
            Transform::new(
                Vec3::new(10_000_000, 5_000_000, -10_000_000),
                Rotation::identity(),
                Vec3::splat(3_000_000),
            ),
        );
        let held = ModelPos::new(
            held,
            Transform::new(
                Vec3::new(4_750_000, -1_250_000, 2_000_000),
                held_rotation,
                Vec3::splat(3_000_000),
            ),
        );
        let skybox = ModelPos::new(
            skybox,
            Transform::new(Vec3::zero(), Rotation::identity(), Vec3::splat(100_000_000)),
        );
        let mut models: Vec<ModelPos> = Vec::new();
        models.push(player);
        let mut view_models: Vec<ModelPos> = Vec::new();
        view_models.push(held);
        MainState {
            camera,
            models,
            view_models,
            skybox,
            mode: RenderMode { style: Style::Retro, post_filter: true },
            sky_style: None,
            view_model_lens: None,
        }
    }

    /// The window has a new size. The aspect ratio of the camera's
    /// projection follows it; the layers keep their own resolution, which
    /// does not depend on the window.
    pub fn resize_event(&mut self, width: u32, height: u32)
        ensures
            final(self)@ == old(self)@.resized(width, height),
    {
        self.camera.projection.resize(width, height);
    }

    /// One frame of input, already read: moves and turns the camera and
    /// switches the mode. `heading` is the direction of the camera's yaw at
    /// the start of the frame.
    pub fn apply(
        &mut self,
        controls: Controls,
        heading: Heading,
        dt_us: u32,
        pointer: Option<Pointer>,
    )
        ensures
            final(self)@ == old(self)@.applied(controls, heading, dt_us, pointer),
    {
        self.camera = advanced(self.camera, controls, heading, dt_us, pointer);
        self.mode = self.mode.toggled(controls);
    }

    /// One frame of input: reads the keyboard and applies what it asks.
    pub fn update(
        &mut self,
        keyboard: &KeyboardContext,
        heading: Heading,
        dt_us: u32,
        pointer: Option<Pointer>,
    )
        ensures
            final(self)@ == old(self)@.applied(
                Controls::bound(keys_down(*keyboard), keys_down_before(*keyboard)),
                heading,
                dt_us,
                pointer,
            ),
    {
        let controls = Controls::read(keyboard);
        self.apply(controls, heading, dt_us, pointer);
    }

    /// Plans the frame for a drawable of `width` by `height` pixels: three
    /// passes at the internal resolution, each with its own camera, whose
    /// layers are to be composited, back to front, into a frame of the
    /// size of the drawable.
    pub fn draw(&self, width: u32, height: u32) -> (r: FramePlan)
        ensures
            r@ == self@.plan(width, height),
    {
        let style = self.mode.style;
        let sky_style = match self.sky_style {
            Some(s) => s,
            None => Style::Default,
        };
        let lens = match self.view_model_lens {
            Some(l) => l.resized(self.camera.projection.width(), self.camera.projection.height()),
            None => self.camera.projection,
        };
        let held_camera = Camera {
            position: Vec3::zero(),
            yaw: self.camera.yaw,
            pitch: self.camera.pitch,
            projection: lens,
        };
        let mut sky_draws: Vec<Draw> = Vec::new();
        sky_draws.push(Draw { model: 0, transform: self.skybox.draw() });
        assert(sky_draws@ =~= draws_of(seq![self.skybox@]));
        let sky = Pass {
            layer: Layer::Sky,
            width: INTERNAL_WIDTH,
            height: INTERNAL_HEIGHT,
            clear: Rgba8::opaque_black(),
            style: sky_style,
            sampler: Sampler::Nearest,
            camera: self.camera.at_origin(),
            draws: sky_draws,
        };
        let world = Pass {
            layer: Layer::World,
            width: INTERNAL_WIDTH,
            height: INTERNAL_HEIGHT,
            clear: Rgba8::transparent(),
            style,
            sampler: Sampler::Nearest,
            camera: self.camera,
            draws: draw_list(&self.models),
        };
        let held = Pass {
            layer: Layer::ViewModel,
            width: INTERNAL_WIDTH,
            height: INTERNAL_HEIGHT,
            clear: Rgba8::transparent(),
            style,
            sampler: Sampler::Nearest,
            camera: held_camera,
            draws: draw_list(&self.view_models),
        };
        let mut passes: Vec<Pass> = Vec::new();
        passes.push(sky);
        passes.push(world);
        passes.push(held);
        let plan = FramePlan {
            passes,
            width,
            height,
            post_filter: self.mode.post_filter,
            overlay: overlay(width, height),
        };
        assert(plan@.passes =~= self@.plan(width, height).passes);
        plan
    }
}

/// The layers are rendered and composited back to front, whatever the
/// state and the window: the sky first, cleared to opaque black, then the
/// world and the view-model, each cleared to transparent so that the layer
/// beneath shows where nothing is drawn. The sky and the view-model are
/// seen from the origin, looking the way the viewer looks. The frame they
/// are composited into has the size of the window.
pub proof fn lemma_plan_back_to_front(state: MainStateView, width: u32, height: u32)
    ensures
        state.plan(width, height).passes.len() == 3,
        forall|i: int, j: int|
            0 <= i < j < 3 ==> (#[trigger] state.plan(width, height).passes[i]).layer.depth() < (
            #[trigger] state.plan(width, height).passes[j]).layer.depth(),
        state.plan(width, height).passes[0].layer == Layer::Sky,
        state.plan(width, height).passes[0].clear.is_opaque(),
        state.plan(width, height).passes[1].layer == Layer::World,
        state.plan(width, height).passes[1].clear.is_transparent(),
        state.plan(width, height).passes[2].layer == Layer::ViewModel,
        state.plan(width, height).passes[2].clear.is_transparent(),
        state.plan(width, height).passes[0].camera.position == Vec3::zero(),
        state.plan(width, height).passes[0].camera.yaw == state.camera.yaw,
        state.plan(width, height).passes[0].camera.pitch == state.camera.pitch,
        state.plan(width, height).passes[1].camera == state.camera,
        state.plan(width, height).passes[2].camera.position == Vec3::zero(),
        state.plan(width, height).passes[2].camera.yaw == state.camera.yaw,
        state.plan(width, height).passes[2].camera.pitch == state.camera.pitch,
        state.plan(width, height).width == width,
        state.plan(width, height).height == height,
{
}

/// The layers have the internal resolution, whatever the size of the
/// window: resizing the window gives the camera's projection the window's
/// aspect ratio and leaves its field of view and planes, and every pass of
/// every later frame still renders at the internal resolution.
pub proof fn lemma_resize_keeps_resolution(
    state: MainStateView,
    width: u32,
    height: u32,
    drawable_width: u32,
    drawable_height: u32,
)
    ensures
        state.resized(width, height).camera.projection@.width == width,
        state.resized(width, height).camera.projection@.height == height,
        state.resized(width, height).camera.projection@.fovy == state.camera.projection@.fovy,
        state.resized(width, height).camera.projection@.znear == state.camera.projection@.znear,
        state.resized(width, height).camera.projection@.zfar == state.camera.projection@.zfar,
        forall|i: int|
            0 <= i < 3 ==> (#[trigger] state.resized(width, height).plan(
                drawable_width,
                drawable_height,
            ).passes[i]).width == INTERNAL_WIDTH,
        forall|i: int|
            0 <= i < 3 ==> (#[trigger] state.resized(width, height).plan(
                drawable_width,
                drawable_height,
            ).passes[i]).height == INTERNAL_HEIGHT,
        INTERNAL_WIDTH == 320,
        INTERNAL_HEIGHT == 240,
{
    state.camera.projection.lemma_resized_view(width, height);
}

} // verus!
