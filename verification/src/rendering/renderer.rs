//! The renderer: the render state together with what is known of the
//! surface, and the decisions that surround a frame.

use vstd::prelude::*;
use crate::binary32::{divide_u32, lemma_divide_by_one, u32_divided_by, u32_to_binary32, ONE};
use crate::error::{GpuStartup, MoonWalkError, RenderError, SurfaceStatus};
use crate::objects::{ObjectId, ObjectType, MAX_OBJECTS};
use crate::rendering::state::{FramePlan, Projection, RenderState};
use crate::vector::{Vec2Bits, Vec4Bits};

verus! {

/// Size of a surface in physical pixels.
#[derive(Debug, Clone, Copy, PartialEq, Eq, Structural)]
pub struct SurfaceSize {
    pub width: u32,
    pub height: u32,
}

/// What the back end has to do after a change of size or scale: configure
/// the surface to `surface`, and rewrite the projection uniform for the
/// logical size `projection`.
#[derive(Debug, Clone, Copy, PartialEq, Eq, Structural)]
pub struct ResizePlan {
    pub surface: SurfaceSize,
    pub projection: Projection,
}

/// What the back end has to do with a frame.
#[derive(Debug, Clone, Copy, PartialEq, Eq, Structural)]
pub enum FrameAction {
    /// Record the plan, submit it and present the texture.
    Draw(FramePlan),
    /// The surface is lost: drop the frame and make the surface again.
    RecreateSurface,
    /// A transient failure: drop the frame, log the status given, and go
    /// on.
    Skip(SurfaceStatus),
}

/// The renderer behind the public interface.
pub struct MoonRenderer {
    /// Store, batches, pipelines, projection.
    pub state: RenderState,
    /// Physical pixels per logical pixel, as a binary32 pattern.
    pub scale_factor: u32,
    /// The size that the surface is configured to.
    pub config: SurfaceSize,
    /// A surface is at hand.
    pub has_surface: bool,
}

impl MoonRenderer {
    /// The render state is well formed.
    pub open spec fn wf(&self) -> bool {
        self.state.wf()
    }

    /// The plan of a change to `width` by `height` pixels at the given
    /// scale, or none where a dimension is zero. The logical size is the
    /// physical one divided by the scale, in binary32.
    pub open spec fn resize_plan(width: u32, height: u32, scale_factor: u32) -> Option<ResizePlan> {
        if width > 0 && height > 0 {
            Some(
                ResizePlan {
                    surface: SurfaceSize { width, height },
                    projection: Projection {
                        width: u32_divided_by(width, scale_factor),
                        height: u32_divided_by(height, scale_factor),
                    },
                },
            )
        } else {
            None
        }
    }

    /// This renderer differs from `before` at most in the size of the
    /// surface, the scale and the projection.
    pub open spec fn same_scene_as(&self, before: MoonRenderer) -> bool {
        &&& self.state.store == before.state.store
        &&& self.state.batches == before.state.batches
        &&& self.state.shaders == before.state.shaders
        &&& self.state.rect_shader == before.state.rect_shader
        &&& self.has_surface == before.has_surface
    }

    /// The renderer that [`MoonRenderer::new`] builds for a surface of
    /// `width` by `height` pixels: the initial render state, scale one, and
    /// a surface of that size at hand.
    pub open spec fn is_initial(&self, width: u32, height: u32) -> bool {
        &&& self.state.is_initial(width, height)
        &&& self.scale_factor == ONE
        &&& self.config == (SurfaceSize { width, height })
        &&& self.has_surface
    }

    /// Builds the renderer from what the host found when it brought the
    /// GPU up for a surface of `width` by `height` pixels. Every failed
    /// bring-up is reported as the error it amounts to.
    pub fn new(startup: GpuStartup, width: u32, height: u32) -> (r: Result<Self, MoonWalkError>)
        ensures
            startup is Ready <==> r is Ok,
            r matches Err(e) ==> startup.spec_failure() == Some(e),
            r matches Ok(renderer) ==> renderer.wf() && renderer.is_initial(width, height),
    {
        match startup.failure() {
            Some(e) => Err(e),
            None => {
                match RenderState::new(width, height, Ok(())) {
                    Ok(state) => Ok(
                        MoonRenderer {
                            state,
                            scale_factor: ONE,
                            config: SurfaceSize { width, height },
                            has_surface: true,
                        },
                    ),
                    Err(e) => Err(e),
                }
            },
        }
    }

    /// Stores the scale and plans the projection anew for the size that
    /// the surface has. The size of the surface stays.
    pub fn set_scale_factor(&mut self, scale: u32) -> (plan: Option<ResizePlan>)
        ensures
            final(self).scale_factor == scale,
            final(self).config == old(self).config,
            final(self).same_scene_as(*old(self)),
            plan == MoonRenderer::resize_plan(old(self).config.width, old(self).config.height, scale),
            final(self).state.projection == match plan {
                Some(p) => p.projection,
                None => old(self).state.projection,
            },
    {
        self.scale_factor = scale;
        let width = self.config.width;
        let height = self.config.height;
        self.resize(width, height)
    }

    /// Takes a new surface size. Where both dimensions are positive, the
    /// surface is to be configured to them and the projection built for
    /// the logical size that they amount to at the current scale;
    /// otherwise nothing changes.
    pub fn resize(&mut self, width: u32, height: u32) -> (plan: Option<ResizePlan>)
        ensures
            final(self).scale_factor == old(self).scale_factor,
            final(self).same_scene_as(*old(self)),
            plan == MoonRenderer::resize_plan(width, height, old(self).scale_factor),
            final(self).config == match plan {
                Some(p) => p.surface,
                None => old(self).config,
            },
            final(self).state.projection == match plan {
                Some(p) => p.projection,
                None => old(self).state.projection,
            },
    {
        if width > 0 && height > 0 {
            self.config = SurfaceSize { width, height };
            let logical_w = divide_u32(width, self.scale_factor);
            let logical_h = divide_u32(height, self.scale_factor);
            let projection = self.state.update_projection(logical_w, logical_h);
            Some(ResizePlan { surface: SurfaceSize { width, height }, projection })
        } else {
            None
        }
    }

    /// Decides what becomes of a frame, given what acquiring the surface
    /// texture gave.
    ///
    /// With a texture the frame is planned and drawn. A lost surface is to
    /// be made again and the frame is dropped; it is not drawn later. Out
    /// of memory is an error. Any other failure drops the frame. A frame
    /// that is not drawn leaves the renderer as it was, so that the next
    /// one is planned from the same scene.
    pub fn render(&mut self, status: SurfaceStatus, clear: Option<Vec4Bits>) -> (r: Result<
        FrameAction,
        RenderError,
    >)
        requires
            old(self).wf(),
            old(self).has_surface,
        ensures
            final(self).wf(),
            final(self).scale_factor == old(self).scale_factor,
            final(self).config == old(self).config,
            final(self).has_surface,
            status is Acquired ==> (r matches Ok(FrameAction::Draw(plan))
                && final(self).state.drawn_from(old(self).state, clear, plan)),
            status is Acquired ==> !final(self).state.store.dirty
                && !final(self).state.store.z_dirty,
            status is Lost ==> r == Ok::<FrameAction, RenderError>(FrameAction::RecreateSurface),
            status is OutOfMemory ==> r == Err::<FrameAction, RenderError>(RenderError::OutOfMemory),
            status is Timeout || status is Outdated || status is Other ==> r == Ok::<
                FrameAction,
                RenderError,
            >(FrameAction::Skip(status)),
            !(status is Acquired) ==> *final(self) == *old(self),
    {
        match status {
            SurfaceStatus::Acquired => {
                let plan = self.state.draw(clear);
                Ok(FrameAction::Draw(plan))
            },
            SurfaceStatus::Lost => Ok(FrameAction::RecreateSurface),
            SurfaceStatus::OutOfMemory => Err(RenderError::OutOfMemory),
            SurfaceStatus::Timeout => Ok(FrameAction::Skip(status)),
            SurfaceStatus::Outdated => Ok(FrameAction::Skip(status)),
            SurfaceStatus::Other => Ok(FrameAction::Skip(status)),
        }
    }

    /// Takes note that the surface is made again, and says which size it
    /// is to be configured to: the size it was configured to before, or,
    /// where no surface was at hand, `width` by `height`.
    pub fn recreate_surface(&mut self, width: u32, height: u32) -> (size: SurfaceSize)
        ensures
            size == if old(self).has_surface {
                old(self).config
            } else {
                SurfaceSize { width, height }
            },
            final(self).config == size,
            final(self).has_surface,
            final(self).state == old(self).state,
            final(self).scale_factor == old(self).scale_factor,
    {
        if !self.has_surface {
            self.config = SurfaceSize { width, height };
        }
        self.has_surface = true;
        self.config
    }

    /// Takes note that the surface is gone, as when the host suspends.
    pub fn surface_dropped(&mut self)
        ensures
            !final(self).has_surface,
            final(self).config == old(self).config,
            final(self).state == old(self).state,
            final(self).scale_factor == old(self).scale_factor,
    {
        self.has_surface = false;
    }

    /// Adds a rectangle with default attributes and returns its id.
    #[inline]
    pub fn new_rect(&mut self) -> (id: ObjectId)
        requires
            old(self).wf(),
            old(self).state.store@.len() < MAX_OBJECTS,
        ensures
            final(self).wf(),
            final(self).state.store@ == old(self).state.store@.with_new_rect(),
            id == old(self).state.store@.next_rect_id(),
            id.spec_index() == old(self).state.store@.len(),
            id.spec_get_type() == Some(ObjectType::Rect),
            final(self).same_frame_setup_as(*old(self)),
    {
        self.state.store.new_rect()
    }

    /// This renderer differs from `before` at most in its store.
    pub open spec fn same_frame_setup_as(&self, before: MoonRenderer) -> bool {
        &&& self.state.batches == before.state.batches
        &&& self.state.shaders == before.state.shaders
        &&& self.state.projection == before.state.projection
        &&& self.state.rect_shader == before.state.rect_shader
        &&& self.scale_factor == before.scale_factor
        &&& self.config == before.config
        &&& self.has_surface == before.has_surface
    }

    /// Sets the position of an object.
    #[inline]
    pub fn config_position(&mut self, id: ObjectId, pos: Vec2Bits)
        requires
            old(self).wf(),
            id.spec_index() < old(self).state.store@.len(),
        ensures
            final(self).wf(),
            final(self).state.store@ == old(self).state.store@.with_position(id, pos),
            final(self).same_frame_setup_as(*old(self)),
    {
        self.state.store.config_position(id, pos);
    }

    /// Sets the size of an object.
    #[inline]
    pub fn config_size(&mut self, id: ObjectId, size: Vec2Bits)
        requires
            old(self).wf(),
            id.spec_index() < old(self).state.store@.len(),
        ensures
            final(self).wf(),
            final(self).state.store@ == old(self).state.store@.with_size(id, size),
            final(self).same_frame_setup_as(*old(self)),
    {
        self.state.store.config_size(id, size);
    }

    /// Sets the colour of an object.
    #[inline]
    pub fn config_color(&mut self, id: ObjectId, color: Vec4Bits)
        requires
            old(self).wf(),
            id.spec_index() < old(self).state.store@.len(),
        ensures
            final(self).wf(),
            final(self).state.store@ == old(self).state.store@.with_color(id, color),
            final(self).same_frame_setup_as(*old(self)),
    {
        self.state.store.config_color(id, color);
    }

    /// Sets the rotation of an object, in radians.
    #[inline]
    pub fn config_rotation(&mut self, id: ObjectId, radians: u32)
        requires
            old(self).wf(),
            id.spec_index() < old(self).state.store@.len(),
        ensures
            final(self).wf(),
            final(self).state.store@ == old(self).state.store@.with_rotation(id, radians),
            final(self).same_frame_setup_as(*old(self)),
    {
        self.state.store.config_rotation(id, radians);
    }

    /// Sets the depth of an object.
    #[inline]
    pub fn set_z_index(&mut self, id: ObjectId, z: u32)
        requires
            old(self).wf(),
            id.spec_index() < old(self).state.store@.len(),
        ensures
            final(self).wf(),
            final(self).state.store@ == old(self).state.store@.with_z_index(id, z),
            final(self).same_frame_setup_as(*old(self)),
    {
        self.state.store.config_z_index(id, z);
    }

    /// Sets the corner radii of a rectangle. An id that names no row is
    /// ignored.
    #[inline]
    pub fn set_rounded(&mut self, id: ObjectId, radii: Vec4Bits)
        requires
            old(self).wf(),
        ensures
            final(self).wf(),
            final(self).state.store@ == old(self).state.store@.with_rounded(id, radii),
            final(self).same_frame_setup_as(*old(self)),
    {
        self.state.store.set_rounded(id, radii);
    }
}

/// At scale one the logical size is the physical size: the plan of a
/// resize at scale one asks for the projection that a renderer built for
/// the same surface starts with.
pub proof fn lemma_scale_one_keeps_size(width: u32, height: u32)
    requires
        width > 0,
        height > 0,
    ensures
        MoonRenderer::resize_plan(width, height, ONE) == Some(
            ResizePlan {
                surface: SurfaceSize { width, height },
                projection: Projection {
                    width: u32_to_binary32(width),
                    height: u32_to_binary32(height),
                },
            },
        ),
{
    lemma_divide_by_one(width);
    lemma_divide_by_one(height);
}

} // verus!
