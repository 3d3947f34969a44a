//! The depth/stencil attachment helper.
//!
//! The helper is a collaborator of the surface lifecycle: given a size and
//! the context's configured attributes it hands back an owned attachment
//! set, which the lifecycle binds to the surface's framebuffer at creation
//! and destroys at teardown.  Its GL names are drawn from the device's
//! allocator; a name of zero means the attachment was not requested.

use vstd::prelude::*;

use crate::context::ContextAttributes;
use crate::device::{Device, DeviceView};
use crate::geometry::SurfaceSize;

verus! {

/// The mathematical state of a [`Renderbuffers`] attachment set.
pub ghost struct RenderbuffersView {
    /// The depth renderbuffer's GL name; zero when no depth attachment exists.
    pub depth: u32,
    /// The stencil renderbuffer's GL name; zero when no stencil attachment
    /// exists.
    pub stencil: u32,
    /// The size the attachments were allocated with.
    pub size: SurfaceSize,
}

/// An owned set of depth/stencil renderbuffers matching a surface's size.
pub struct Renderbuffers {
    pub(crate) depth: u32,
    pub(crate) stencil: u32,
    pub(crate) size: SurfaceSize,
}

impl View for Renderbuffers {
    type V = RenderbuffersView;

    closed spec fn view(&self) -> RenderbuffersView {
        RenderbuffersView { depth: self.depth, stencil: self.stencil, size: self.size }
    }
}

impl Renderbuffers {
    /// Allocates renderbuffers sized to `size`, one per attachment the
    /// context's attributes request, drawing their names from the device's
    /// allocator.
    pub fn new(device: &mut Device, size: SurfaceSize, attributes: &ContextAttributes) -> (r:
        Renderbuffers)
        requires
            old(device)@.wf(),
            old(device)@.next_gl_name <= u32::MAX - 2,
        ensures
            final(device)@.wf(),
            final(device)@ == (DeviceView {
                next_gl_name: final(device)@.next_gl_name,
                ..old(device)@
            }),
            old(device)@.next_gl_name <= final(device)@.next_gl_name <= old(device)@.next_gl_name
                + 2,
            r@.size == size,
            (r@.depth != 0) == attributes.depth,
            (r@.stencil != 0) == attributes.stencil,
            r@.depth != 0 ==> !old(device)@.issued_gl_name(r@.depth) && final(device)@.issued_gl_name(r@.depth),
            r@.stencil != 0 ==> !old(device)@.issued_gl_name(r@.stencil) && final(device)@.issued_gl_name(r@.stencil),
    {
        let depth: u32 = if attributes.depth {
            device.fresh_gl_name()
        } else {
            0
        };
        let stencil: u32 = if attributes.stencil {
            device.fresh_gl_name()
        } else {
            0
        };
        Renderbuffers { depth, stencil, size }
    }

    /// Attaches the renderbuffers to the framebuffer currently bound in the
    /// device's current context.  The attachment state itself lives in the
    /// driver, outside this model; the contract only demands that a
    /// framebuffer is bound, as the GL attachment calls do.
    pub fn bind_to_current_framebuffer(&self, device: &Device)
        requires
            device@.bound_framebuffer != 0,
    {
    }

    /// Releases the renderbuffers; their names are cleared so a later
    /// teardown cannot release them twice.
    pub fn destroy(&mut self)
        ensures
            final(self)@ == (RenderbuffersView { depth: 0, stencil: 0, ..old(self)@ }),
    {
        self.depth = 0;
        self.stencil = 0;
    }
}

} // verus!
