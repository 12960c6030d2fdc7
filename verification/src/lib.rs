//! A retained-mode 2D scene core: a structure-of-arrays object store with
//! coarse dirty tracking, a batcher that turns store rows into a packed
//! instance stream, and the per-frame plan that a GPU back end executes.
//!
//! Scalar attributes are carried as IEEE-754 binary32 bit patterns, so that
//! every rule of the core is stated and proved over integers. The core
//! touches neither window nor GPU: it is told what the host found, and it
//! answers with what the host has to do.

use vstd::prelude::*;

pub mod batching;
pub mod binary32;
pub mod bootstrap;
pub mod error;
pub mod objects;
pub mod rendering;
pub mod vector;

use crate::error::{GpuStartup, MoonWalkError, RenderError, SurfaceStatus};
use crate::objects::store::StoreModel;
use crate::objects::{ObjectId, ObjectType, MAX_OBJECTS};
use crate::rendering::renderer::{FrameAction, MoonRenderer, ResizePlan, SurfaceSize};
use crate::vector::{Vec2Bits, Vec4Bits};

verus! {

/// The engine as an application sees it.
pub struct MoonWalk {
    pub renderer: MoonRenderer,
}

impl MoonWalk {
    /// The renderer is well formed.
    pub open spec fn wf(&self) -> bool {
        self.renderer.wf()
    }

    /// The scene as sequences.
    pub open spec fn scene(&self) -> StoreModel {
        self.renderer.state.store@
    }

    /// Whether `id` names an object of the scene.
    pub fn contains(&self, id: ObjectId) -> (b: bool)
        ensures
            b == (id.spec_index() < self.scene().len()),
    {
        self.renderer.state.store.contains(id)
    }

    /// Whether the scene has room for one more object.
    pub fn has_room(&self) -> (b: bool)
        ensures
            b == (self.scene().len() < MAX_OBJECTS),
    {
        self.renderer.state.store.has_room()
    }

    /// Builds the engine with an empty scene from what the host found when
    /// it brought the GPU up for a surface of `width` by `height` pixels.
    /// Every failed bring-up is reported as the error it amounts to.
    pub fn new(startup: GpuStartup, width: u32, height: u32) -> (r: Result<Self, MoonWalkError>)
        ensures
            startup is Ready <==> r is Ok,
            r matches Err(e) ==> startup.spec_failure() == Some(e),
            r matches Ok(mw) ==> mw.wf() && mw.renderer.is_initial(width, height),
    {
        let renderer_result = MoonRenderer::new(startup, width, height);
        let renderer = match renderer_result {
            Ok(r) => r,
            Err(e) => {
                return Err(e);
            },
        };
        Ok(MoonWalk { renderer })
    }

    /// Takes the new size of the window in physical pixels. A size with a
    /// zero dimension is ignored.
    pub fn set_viewport(&mut self, width: u32, height: u32) -> (plan: Option<ResizePlan>)
        ensures
            plan == MoonRenderer::resize_plan(width, height, old(self).renderer.scale_factor),
            final(self).renderer.scale_factor == old(self).renderer.scale_factor,
            final(self).renderer.same_scene_as(old(self).renderer),
            final(self).renderer.config == match plan {
                Some(p) => p.surface,
                None => old(self).renderer.config,
            },
            final(self).renderer.state.projection == match plan {
                Some(p) => p.projection,
                None => old(self).renderer.state.projection,
            },
    {
        self.renderer.resize(width, height)
    }

    /// Takes the new scale of the window: physical pixels per logical
    /// pixel, as a binary32 pattern. The size of the surface stays.
    pub fn set_scale_factor(&mut self, scale: u32) -> (plan: Option<ResizePlan>)
        ensures
            plan == MoonRenderer::resize_plan(
                old(self).renderer.config.width,
                old(self).renderer.config.height,
                scale,
            ),
            final(self).renderer.scale_factor == scale,
            final(self).renderer.config == old(self).renderer.config,
            final(self).renderer.same_scene_as(old(self).renderer),
            final(self).renderer.state.projection == match plan {
                Some(p) => p.projection,
                None => old(self).renderer.state.projection,
            },
    {
        self.renderer.set_scale_factor(scale)
    }

    /// Takes note that the surface is made again, and says which size it
    /// is to be configured to.
    pub fn recreate_surface(&mut self, width: u32, height: u32) -> (size: SurfaceSize)
        ensures
            size == if old(self).renderer.has_surface {
                old(self).renderer.config
            } else {
                SurfaceSize { width, height }
            },
            final(self).renderer.config == size,
            final(self).renderer.has_surface,
            final(self).renderer.state == old(self).renderer.state,
            final(self).renderer.scale_factor == old(self).renderer.scale_factor,
    {
        self.renderer.recreate_surface(width, height)
    }

    /// Decides what becomes of a frame, given what acquiring the surface
    /// texture gave; a frame that is drawn is cleared to `clear_color`.
    ///
    /// A lost surface is to be made again and the frame is dropped. Out of
    /// memory is the one error. Any other failure drops the frame. A frame
    /// that is not drawn leaves the engine as it was.
    pub fn render_frame(&mut self, status: SurfaceStatus, clear_color: Vec4Bits) -> (r: Result<
        FrameAction,
        RenderError,
    >)
        requires
            old(self).wf(),
            old(self).renderer.has_surface,
        ensures
            final(self).wf(),
            final(self).renderer.scale_factor == old(self).renderer.scale_factor,
            final(self).renderer.config == old(self).renderer.config,
            final(self).renderer.has_surface,
            status is Acquired ==> (r matches Ok(FrameAction::Draw(plan))
                && final(self).renderer.state.drawn_from(
                old(self).renderer.state,
                Some(clear_color),
                plan,
            )),
            status is Acquired ==> !final(self).scene().dirty && !final(self).scene().z_dirty,
            status is Lost ==> r == Ok::<FrameAction, RenderError>(FrameAction::RecreateSurface),
            status is OutOfMemory ==> r == Err::<FrameAction, RenderError>(RenderError::OutOfMemory),
            status is Timeout || status is Outdated || status is Other ==> r == Ok::<
                FrameAction,
                RenderError,
            >(FrameAction::Skip(status)),
            !(status is Acquired) ==> *final(self) == *old(self),
    {
        self.renderer.render(status, Some(clear_color))
    }

    /// Adds a rectangle at position (0, 0), of size (100, 100), white,
    /// unrotated, at depth 0, with square corners, and returns its id.
    pub fn new_rect(&mut self) -> (id: ObjectId)
        requires
            old(self).wf(),
            old(self).scene().len() < MAX_OBJECTS,
        ensures
            final(self).wf(),
            final(self).scene() == old(self).scene().with_new_rect(),
            id == old(self).scene().next_rect_id(),
            id.spec_index() == old(self).scene().len(),
            id.spec_get_type() == Some(ObjectType::Rect),
            final(self).renderer.same_frame_setup_as(old(self).renderer),
    {
        self.renderer.new_rect()
    }

    /// Sets the position of an object, in logical pixels.
    pub fn set_position(&mut self, id: ObjectId, x: u32, y: u32)
        requires
            old(self).wf(),
            id.spec_index() < old(self).scene().len(),
        ensures
            final(self).wf(),
            final(self).scene() == old(self).scene().with_position(id, Vec2Bits { x, y }),
            final(self).renderer.same_frame_setup_as(old(self).renderer),
    {
        self.renderer.config_position(id, Vec2Bits::new(x, y));
    }

    /// Sets the size of an object.
    pub fn set_size(&mut self, id: ObjectId, w: u32, h: u32)
        requires
            old(self).wf(),
            id.spec_index() < old(self).scene().len(),
        ensures
            final(self).wf(),
            final(self).scene() == old(self).scene().with_size(id, Vec2Bits { x: w, y: h }),
            final(self).renderer.same_frame_setup_as(old(self).renderer),
    {
        self.renderer.config_size(id, Vec2Bits::new(w, h));
    }

    /// Sets the colour of an object.
    pub fn set_color(&mut self, id: ObjectId, r: u32, g: u32, b: u32, a: u32)
        requires
            old(self).wf(),
            id.spec_index() < old(self).scene().len(),
        ensures
            final(self).wf(),
            final(self).scene() == old(self).scene().with_color(
                id,
                Vec4Bits { x: r, y: g, z: b, w: a },
            ),
            final(self).renderer.same_frame_setup_as(old(self).renderer),
    {
        self.renderer.config_color(id, Vec4Bits::new(r, g, b, a));
    }

    /// Sets the rotation of an object, in radians.
    pub fn set_rotation(&mut self, id: ObjectId, radians: u32)
        requires
            old(self).wf(),
            id.spec_index() < old(self).scene().len(),
        ensures
            final(self).wf(),
            final(self).scene() == old(self).scene().with_rotation(id, radians),
            final(self).renderer.same_frame_setup_as(old(self).renderer),
    {
        self.renderer.config_rotation(id, radians);
    }

    /// Sets the depth of an object.
    pub fn set_z_index(&mut self, id: ObjectId, z: u32)
        requires
            old(self).wf(),
            id.spec_index() < old(self).scene().len(),
        ensures
            final(self).wf(),
            final(self).scene() == old(self).scene().with_z_index(id, z),
            final(self).renderer.same_frame_setup_as(old(self).renderer),
    {
        self.renderer.set_z_index(id, z);
    }

    /// Sets the corner radii of a rectangle: top-left, top-right,
    /// bottom-right, bottom-left. An id that names no row is ignored.
    pub fn set_rounded(&mut self, id: ObjectId, tl: u32, tr: u32, br: u32, bl: u32)
        requires
            old(self).wf(),
        ensures
            final(self).wf(),
            final(self).scene() == old(self).scene().with_rounded(
                id,
                Vec4Bits { x: tl, y: tr, z: br, w: bl },
            ),
            final(self).renderer.same_frame_setup_as(old(self).renderer),
    {
        self.renderer.set_rounded(id, Vec4Bits::new(tl, tr, br, bl));
    }
}

} // verus!
