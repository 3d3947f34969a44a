//! Surfaces: render targets backed either by a Direct3D texture shared with
//! the GL driver through the GL/DX interop extension, or by a native window's
//! own back buffer.
//!
//! The operations here enforce the surface lifecycle: a surface is born from
//! exactly one of generic allocation or widget wrap, is locked and unlocked
//! around every GL touch of its shared allocation, may be re-registered
//! read-only in another context as a surface texture, and ends only through
//! an explicit destroy that reverses creation step by step.  Each operation
//! that touches GL state runs under a scoped make-current whose restoration
//! on every exit path is part of its contract.

use vstd::prelude::*;

use crate::context::{Context, ContextID};
use crate::device::{Device, DeviceView};
use crate::error::{Error, WindowingApiError};
use crate::geometry::{SurfaceSize, WidgetBounds};
use crate::renderbuffers::{Renderbuffers, RenderbuffersView};

verus! {

/// The GL texture target every surface's texture binds to.
pub const GL_TEXTURE_2D: u32 = 0x0DE1;

/// The largest texture extent a Direct3D 11 device accepts
/// (`D3D11_REQ_TEXTURE2D_U_OR_V_DIMENSION`); allocation of anything larger,
/// or of an empty texture, fails natively.
pub const MAX_TEXTURE_DIMENSION: i32 = 16384;

/// The identifier of a surface.  Texture-backed surfaces take their id from
/// the native texture handle, widget-backed surfaces from the window handle.
#[derive(Clone, Copy, PartialEq, Eq, Structural, Debug)]
pub struct SurfaceID(pub usize);

/// The access pattern a caller declares for a surface's data.  This backend
/// allocates the same way for each.
#[derive(Clone, Copy, PartialEq, Eq, Structural, Debug)]
pub enum SurfaceAccess {
    GPUOnly,
    GPUCPU,
    GPUCPUWriteCombined,
}

/// A native window handle together with the client rectangle the windowing
/// glue read for it; `bounds` is `None` when the window could not be queried.
#[derive(Clone, Copy, PartialEq, Eq, Structural, Debug)]
pub struct NativeWidget {
    pub window_handle: usize,
    pub bounds: Option<WidgetBounds>,
}

/// What a new surface should be backed by: a fresh shareable allocation of a
/// given size, or a native window's own buffer.
#[derive(Clone, Copy, PartialEq, Eq, Structural, Debug)]
pub enum SurfaceType {
    Generic { size: SurfaceSize },
    Widget { native_widget: NativeWidget },
}

/// The per-variant native state of a surface.
pub(crate) enum Win32Objects {
    Texture {
        d3d11_texture: usize,
        dxgi_share_handle: usize,
        gl_dx_interop_object: usize,
        gl_texture: u32,
        gl_framebuffer: u32,
        renderbuffers: Renderbuffers,
        locked: bool,
    },
    Widget { window_handle: usize },
}

/// The mathematical state of a surface's per-variant native objects.
pub ghost enum Win32ObjectsView {
    Texture {
        /// The exclusively owned native texture handle.
        d3d11_texture: usize,
        /// The cross-API share handle of the allocation.
        dxgi_share_handle: usize,
        /// The read-write interop registration used for locking and teardown.
        gl_dx_interop_object: usize,
        /// The GL texture name bound to the allocation.
        gl_texture: u32,
        /// The GL framebuffer the texture is attached to as color target.
        gl_framebuffer: u32,
        /// The owned depth/stencil attachments.
        renderbuffers: RenderbuffersView,
        /// Whether the surface's own exclusivity lock is held.
        locked: bool,
    },
    Widget {
        /// The native window handle; borrowed, its lifetime is the window's.
        window_handle: usize,
    },
}

/// The mathematical state of a [`Surface`].
pub ghost struct SurfaceView {
    pub size: SurfaceSize,
    pub context_id: ContextID,
    pub win32_objects: Win32ObjectsView,
    pub destroyed: bool,
}

impl SurfaceView {
    /// Whether the surface is backed by a shared texture allocation.
    pub open spec fn is_texture_backed(self) -> bool {
        self.win32_objects is Texture
    }

    /// Whether the surface is backed by a native window's own buffer.
    pub open spec fn is_widget_backed(self) -> bool {
        self.win32_objects is Widget
    }

    /// The surface's identifier: the native texture handle, or the window
    /// handle for a widget-backed surface.
    pub open spec fn id_spec(self) -> SurfaceID {
        match self.win32_objects {
            Win32ObjectsView::Texture { d3d11_texture, .. } => SurfaceID(d3d11_texture),
            Win32ObjectsView::Widget { window_handle } => SurfaceID(window_handle),
        }
    }

    /// The cross-API share handle; zero for a widget-backed surface, which
    /// has no shareable allocation.
    pub open spec fn share_handle(self) -> usize {
        match self.win32_objects {
            Win32ObjectsView::Texture { dxgi_share_handle, .. } => dxgi_share_handle,
            Win32ObjectsView::Widget { .. } => 0,
        }
    }

    /// The surface's own read-write interop registration; zero for a
    /// widget-backed surface, which has none.
    pub open spec fn interop_object(self) -> usize {
        match self.win32_objects {
            Win32ObjectsView::Texture { gl_dx_interop_object, .. } => gl_dx_interop_object,
            Win32ObjectsView::Widget { .. } => 0,
        }
    }

    /// The surface's GL texture name; zero for a widget-backed surface.
    pub open spec fn gl_texture_name(self) -> u32 {
        match self.win32_objects {
            Win32ObjectsView::Texture { gl_texture, .. } => gl_texture,
            Win32ObjectsView::Widget { .. } => 0,
        }
    }

    /// The surface's GL framebuffer name; zero for a widget-backed surface.
    pub open spec fn gl_framebuffer_name(self) -> u32 {
        match self.win32_objects {
            Win32ObjectsView::Texture { gl_framebuffer, .. } => gl_framebuffer,
            Win32ObjectsView::Widget { .. } => 0,
        }
    }

    /// Whether the surface's own exclusivity lock is held.  A widget-backed
    /// surface has no shared allocation and is never locked.
    pub open spec fn locked(self) -> bool {
        match self.win32_objects {
            Win32ObjectsView::Texture { locked, .. } => locked,
            Win32ObjectsView::Widget { .. } => false,
        }
    }

    /// The surface's depth/stencil attachments; a widget-backed surface
    /// owns none.
    pub open spec fn renderbuffers(self) -> RenderbuffersView {
        match self.win32_objects {
            Win32ObjectsView::Texture { renderbuffers, .. } => renderbuffers,
            Win32ObjectsView::Widget { .. } => (RenderbuffersView {
                depth: 0,
                stencil: 0,
                size: self.size,
            }),
        }
    }

    /// The same surface with its exclusivity lock set to `held`; a
    /// widget-backed surface is left as it is.
    pub open spec fn with_locked(self, held: bool) -> SurfaceView {
        match self.win32_objects {
            Win32ObjectsView::Texture {
                d3d11_texture,
                dxgi_share_handle,
                gl_dx_interop_object,
                gl_texture,
                gl_framebuffer,
                renderbuffers,
                locked,
            } => (SurfaceView {
                win32_objects: Win32ObjectsView::Texture {
                    d3d11_texture,
                    dxgi_share_handle,
                    gl_dx_interop_object,
                    gl_texture,
                    gl_framebuffer,
                    renderbuffers,
                    locked: held,
                },
                ..self
            }),
            Win32ObjectsView::Widget { .. } => self,
        }
    }

    /// Well-formedness: a texture-backed surface holds no null handles.
    pub open spec fn wf(self) -> bool {
        match self.win32_objects {
            Win32ObjectsView::Texture {
                d3d11_texture,
                dxgi_share_handle,
                gl_dx_interop_object,
                gl_texture,
                gl_framebuffer,
                ..
            } => {
                &&& d3d11_texture != 0
                &&& dxgi_share_handle != 0
                &&& gl_dx_interop_object != 0
                &&& gl_texture != 0
                &&& gl_framebuffer != 0
            },
            Win32ObjectsView::Widget { .. } => true,
        }
    }
}

/// A render target: either texture-backed (an interop-managed offscreen
/// allocation) or widget-backed (a native window's own buffer).
///
/// A surface must end through an explicit, context-matched
/// [`Device::destroy_surface`]: its GPU-side handles have no safe implicit
/// release path, so reclaiming a live texture-backed surface without
/// destroying it first is a caller bug, which the platform glue's reclamation
/// guard reports fatally.
pub struct Surface {
    pub(crate) size: SurfaceSize,
    pub(crate) context_id: ContextID,
    pub(crate) win32_objects: Win32Objects,
    pub(crate) destroyed: bool,
}

impl View for Surface {
    type V = SurfaceView;

    closed spec fn view(&self) -> SurfaceView {
        SurfaceView {
            size: self.size,
            context_id: self.context_id,
            win32_objects: match self.win32_objects {
                Win32Objects::Texture {
                    d3d11_texture,
                    dxgi_share_handle,
                    gl_dx_interop_object,
                    gl_texture,
                    gl_framebuffer,
                    renderbuffers,
                    locked,
                } => Win32ObjectsView::Texture {
                    d3d11_texture,
                    dxgi_share_handle,
                    gl_dx_interop_object,
                    gl_texture,
                    gl_framebuffer,
                    renderbuffers: renderbuffers@,
                    locked,
                },
                Win32Objects::Widget { window_handle } => Win32ObjectsView::Widget {
                    window_handle,
                },
            },
            destroyed: self.destroyed,
        }
    }
}

impl Surface {
    /// The surface's size, fixed at creation.
    pub fn size(&self) -> (r: SurfaceSize)
        ensures
            r == self@.size,
    {
        self.size
    }

    /// The surface's identifier, stable for its whole lifetime.
    pub fn id(&self) -> (r: SurfaceID)
        ensures
            r == self@.id_spec(),
    {
        match &self.win32_objects {
            Win32Objects::Texture { d3d11_texture, .. } => SurfaceID(*d3d11_texture),
            Win32Objects::Widget { window_handle } => SurfaceID(*window_handle),
        }
    }

    /// The context that created and owns this surface.
    pub fn context_id(&self) -> (r: ContextID)
        ensures
            r == self@.context_id,
    {
        self.context_id
    }

    /// Whether the surface is backed by a native window's own buffer.
    pub fn is_widget_backed(&self) -> (r: bool)
        ensures
            r == self@.is_widget_backed(),
    {
        match &self.win32_objects {
            Win32Objects::Texture { .. } => false,
            Win32Objects::Widget { .. } => true,
        }
    }

    /// Whether the surface's own exclusivity lock is held.
    pub fn is_locked(&self) -> (r: bool)
        ensures
            r == self@.locked(),
    {
        match &self.win32_objects {
            Win32Objects::Texture { locked, .. } => *locked,
            Win32Objects::Widget { .. } => false,
        }
    }
}

/// The mathematical state of a [`SurfaceTexture`].
pub ghost struct SurfaceTextureView {
    /// The wrapped surface, exactly as it was consumed.
    pub surface: SurfaceView,
    /// The second native texture handle opened from the surface's share
    /// handle.
    pub local_d3d11_texture: usize,
    /// The read-only interop registration local to the target context.  It is
    /// locked for the surface texture's whole lifetime: construction acquires
    /// it and only destruction releases it.
    pub local_gl_dx_interop_object: usize,
    /// The GL texture name local to the target context.
    pub gl_texture: u32,
}

/// A second, read-only view onto an existing texture-backed surface's
/// allocation, usable as a sampling source in a different context.  It owns
/// the surface it was made from and returns it on destruction.
pub struct SurfaceTexture {
    pub(crate) surface: Surface,
    pub(crate) local_d3d11_texture: usize,
    pub(crate) local_gl_dx_interop_object: usize,
    pub(crate) gl_texture: u32,
}

impl View for SurfaceTexture {
    type V = SurfaceTextureView;

    closed spec fn view(&self) -> SurfaceTextureView {
        SurfaceTextureView {
            surface: self.surface@,
            local_d3d11_texture: self.local_d3d11_texture,
            local_gl_dx_interop_object: self.local_gl_dx_interop_object,
            gl_texture: self.gl_texture,
        }
    }
}

impl SurfaceTexture {
    /// The GL texture name under which the wrapped allocation can be sampled
    /// in the target context.
    pub fn gl_texture(&self) -> (r: u32)
        ensures
            r == self@.gl_texture,
    {
        self.gl_texture
    }
}

/// A guard that would hold a surface's pixel data mapped for CPU access.
pub struct SurfaceDataGuard<'a> {
    pub(crate) phantom: core::marker::PhantomData<&'a ()>,
}

/// Whether the native allocator can satisfy a generic surface allocation:
/// the size must be a representable Direct3D texture size and the device
/// must have allocator headroom left.
pub open spec fn native_allocation_ok(d: DeviceView, size: SurfaceSize) -> bool {
    &&& valid_texture_size(size)
    &&& d.handle_headroom()
}

/// Whether `size` is a texture size the native allocator accepts.
pub open spec fn valid_texture_size(size: SurfaceSize) -> bool {
    &&& 0 < size.width <= MAX_TEXTURE_DIMENSION
    &&& 0 < size.height <= MAX_TEXTURE_DIMENSION
}

/// Device fields that every surface operation leaves alone: the device
/// handles, the thread's restored context and framebuffer state, and the
/// monotonicity of the allocator.
pub open spec fn device_preserved(d0: DeviceView, d1: DeviceView) -> bool {
    &&& d1.d3d11_device == d0.d3d11_device
    &&& d1.gl_dx_interop_device == d0.gl_dx_interop_device
    &&& d1.current_context == d0.current_context
    &&& d1.bound_framebuffer == d0.bound_framebuffer
    &&& d1.next_native_handle >= d0.next_native_handle
    &&& d1.next_gl_name >= d0.next_gl_name
}

/// What successful generic surface creation establishes, relating the device
/// before (`d0`) and after (`d1`), the creating context, the requested size,
/// and the new surface `s`.
pub open spec fn created_generic(
    d0: DeviceView,
    d1: DeviceView,
    context: Context,
    size: SurfaceSize,
    s: SurfaceView,
) -> bool {
    &&& s.size == size
    &&& s.context_id == context.id
    &&& !s.destroyed
    &&& !s.locked()
    &&& s.is_texture_backed()
    &&& s.wf()
    &&& !d0.issued_native_handle(s.id_spec().0)
    &&& d1.issued_native_handle(s.id_spec().0)
    &&& !d0.issued_native_handle(s.share_handle())
    &&& d1.issued_native_handle(s.share_handle())
    &&& !d0.issued_native_handle(s.interop_object())
    &&& d1.issued_native_handle(s.interop_object())
    &&& s.id_spec().0 != s.share_handle()
    &&& s.id_spec().0 != s.interop_object()
    &&& s.share_handle() != s.interop_object()
    &&& !d0.issued_gl_name(s.gl_texture_name())
    &&& d1.issued_gl_name(s.gl_texture_name())
    &&& !d0.issued_gl_name(s.gl_framebuffer_name())
    &&& d1.issued_gl_name(s.gl_framebuffer_name())
    &&& s.gl_texture_name() != s.gl_framebuffer_name()
    &&& d1.share_handles == d0.share_handles.push(s.share_handle())
    &&& d1.share_handles.contains(s.share_handle())
    &&& (s.renderbuffers().depth != 0) == context.attributes.depth
    &&& (s.renderbuffers().stencil != 0) == context.attributes.stencil
    &&& s.renderbuffers().size == size
    &&& device_preserved(d0, d1)
    &&& d1.next_native_handle <= d0.next_native_handle + 3
    &&& d1.next_gl_name <= d0.next_gl_name + 4
}

/// What successful widget surface creation establishes: the surface wraps the
/// widget's window handle, sized to its client rectangle, owned by the
/// creating context.
pub open spec fn created_widget(context: Context, widget: NativeWidget, s: SurfaceView) -> bool {
    &&& widget.bounds matches Some(b) && s.size == b.size_spec()
    &&& s.context_id == context.id
    &&& !s.destroyed
    &&& s.win32_objects == (Win32ObjectsView::Widget { window_handle: widget.window_handle })
}

/// What successful surface-texture creation establishes: the surface is
/// wrapped unchanged, and the second registration's handles are fresh.
pub open spec fn created_surface_texture(
    d0: DeviceView,
    d1: DeviceView,
    s: SurfaceView,
    st: SurfaceTextureView,
) -> bool {
    &&& st.surface == s
    &&& !d0.issued_native_handle(st.local_d3d11_texture)
    &&& d1.issued_native_handle(st.local_d3d11_texture)
    &&& !d0.issued_native_handle(st.local_gl_dx_interop_object)
    &&& d1.issued_native_handle(st.local_gl_dx_interop_object)
    &&& st.local_d3d11_texture != st.local_gl_dx_interop_object
    &&& !d0.issued_gl_name(st.gl_texture)
    &&& d1.issued_gl_name(st.gl_texture)
    &&& d1.share_handles == d0.share_handles
    &&& device_preserved(d0, d1)
    &&& d1.next_native_handle <= d0.next_native_handle + 2
    &&& d1.next_gl_name <= d0.next_gl_name + 1
}

impl Device {
    /// Creates a surface of the requested type, owned by `context`.
    ///
    /// A generic surface is a fresh cross-API-shareable texture allocation
    /// registered read-write with the interop layer, with a framebuffer and
    /// depth/stencil attachments built around it; it needs the interop
    /// extension set and a satisfiable native allocation.  A widget surface
    /// wraps the window's own buffer, sized to the client rectangle the
    /// windowing glue read, and needs no interop registration.
    pub fn create_surface(
        &mut self,
        context: &Context,
        _access: SurfaceAccess,
        surface_type: &SurfaceType,
    ) -> (r: Result<Surface, Error>)
        requires
            old(self)@.wf(),
        ensures
            final(self)@.wf(),
            match *surface_type {
                SurfaceType::Generic { size } => {
                    if !old(self)@.interop_available() {
                        &&& r == Err::<Surface, Error>(Error::RequiredExtensionUnavailable)
                        &&& final(self)@ == old(self)@
                    } else if !native_allocation_ok(old(self)@, size) {
                        &&& r == Err::<Surface, Error>(
                            Error::SurfaceCreationFailed(WindowingApiError::Failed),
                        )
                        &&& final(self)@ == old(self)@
                    } else {
                        &&& r matches Ok(s)
                        &&& created_generic(old(self)@, final(self)@, *context, size, s@)
                    }
                },
                SurfaceType::Widget { native_widget } => {
                    &&& final(self)@ == old(self)@
                    &&& match native_widget.bounds {
                        None => r == Err::<Surface, Error>(Error::InvalidNativeWidget),
                        Some(b) => {
                            if !b.representable() {
                                r == Err::<Surface, Error>(Error::InvalidNativeWidget)
                            } else {
                                &&& r matches Ok(s)
                                &&& created_widget(*context, native_widget, s@)
                            }
                        },
                    }
                },
            },
    {
        match surface_type {
            SurfaceType::Generic { size } => self.create_generic_surface(context, *size),
            SurfaceType::Widget { native_widget } => {
                self.create_widget_surface(context, native_widget)
            },
        }
    }

    /// Allocates a cross-API-shareable texture sized `size`, registers it
    /// read-write with the interop layer, and builds the GL framebuffer and
    /// depth/stencil attachments around it, all under a scoped make-current
    /// that is restored on every exit path.
    fn create_generic_surface(&mut self, context: &Context, size: SurfaceSize) -> (r: Result<
        Surface,
        Error,
    >)
        requires
            old(self)@.wf(),
        ensures
            final(self)@.wf(),
            if !old(self)@.interop_available() {
                &&& r == Err::<Surface, Error>(Error::RequiredExtensionUnavailable)
                &&& final(self)@ == old(self)@
            } else if !native_allocation_ok(old(self)@, size) {
                &&& r == Err::<Surface, Error>(
                    Error::SurfaceCreationFailed(WindowingApiError::Failed),
                )
                &&& final(self)@ == old(self)@
            } else {
                &&& r matches Ok(s)
                &&& created_generic(old(self)@, final(self)@, *context, size, s@)
            },
    {
        if !self.dx_interop_available() {
            return Err(Error::RequiredExtensionUnavailable);
        }
        let prior_context = self.make_context_current(context);

        // Ask the native allocator for the shared texture: 8-bit RGBA, with
        // render-target and shader-resource capability and keyed-mutex-style
        // exclusivity.  The allocation fails for sizes the device does not
        // accept and when the allocator is exhausted.
        let size_ok = 1 <= size.width && size.width <= MAX_TEXTURE_DIMENSION && 1 <= size.height
            && size.height <= MAX_TEXTURE_DIMENSION;
        if !size_ok || !self.has_handle_headroom() {
            self.restore_current_context(prior_context);
            return Err(Error::SurfaceCreationFailed(WindowingApiError::Failed));
        }
        let d3d11_texture = self.fresh_native_handle();

        // Obtain the allocation's share handle and hand it to the GL side.
        let dxgi_share_handle = self.fresh_native_handle();
        self.record_share_handle(dxgi_share_handle);

        // Make the GL texture object and register it read-write with the
        // interop layer, binding it to the native texture.
        let gl_texture = self.fresh_gl_name();
        let gl_dx_interop_object = self.fresh_native_handle();

        // Build the framebuffer: attach the reflected texture as the color
        // target, then the depth/stencil renderbuffers the context's
        // attributes ask for, under a scoped framebuffer binding.
        let gl_framebuffer = self.fresh_gl_name();
        let prior_framebuffer = self.bind_framebuffer(gl_framebuffer);
        let renderbuffers = Renderbuffers::new(self, size, &context.attributes);
        renderbuffers.bind_to_current_framebuffer(self);
        let _unbound: u32 = self.bind_framebuffer(prior_framebuffer);

        self.restore_current_context(prior_context);
        proof {
            let sh = self@.share_handles;
            assert(sh.contains(dxgi_share_handle)) by {
                assert(sh[sh.len() - 1] == dxgi_share_handle);
            }
        }
        Ok(
            Surface {
                size,
                context_id: context.id,
                win32_objects: Win32Objects::Texture {
                    d3d11_texture,
                    dxgi_share_handle,
                    gl_dx_interop_object,
                    gl_texture,
                    gl_framebuffer,
                    renderbuffers,
                    locked: false,
                },
                destroyed: false,
            },
        )
    }

    /// Wraps a native window's own buffer, sized to the client rectangle the
    /// windowing glue read for the widget.
    fn create_widget_surface(&mut self, context: &Context, native_widget: &NativeWidget) -> (r:
        Result<Surface, Error>)
        ensures
            final(self)@ == old(self)@,
            match native_widget.bounds {
                None => r == Err::<Surface, Error>(Error::InvalidNativeWidget),
                Some(b) => {
                    if !b.representable() {
                        r == Err::<Surface, Error>(Error::InvalidNativeWidget)
                    } else {
                        &&& r matches Ok(s)
                        &&& created_widget(*context, *native_widget, s@)
                    }
                },
            },
    {
        let size = match &native_widget.bounds {
            None => None,
            Some(bounds) => bounds.size(),
        };
        match size {
            None => Err(Error::InvalidNativeWidget),
            Some(size) => Ok(
                Surface {
                    size,
                    context_id: context.id,
                    win32_objects: Win32Objects::Widget {
                        window_handle: native_widget.window_handle,
                    },
                    destroyed: false,
                },
            ),
        }
    }

    /// Destroys a surface, reversing creation step by step: renderbuffers,
    /// framebuffer, GL texture, interop registration, under a scoped
    /// make-current of the owning context.
    ///
    /// If `context` is not the owning context the surface's GPU-side
    /// resources are deliberately leaked and `IncompatibleSurface` is
    /// returned: releasing them safely needs the originating context current,
    /// which the caller has not supplied.  Either way the surface is consumed
    /// and marked destroyed.
    pub fn destroy_surface(&mut self, context: &mut Context, surface: Surface) -> (r: Result<
        (),
        Error,
    >)
        requires
            old(self)@.wf(),
            !surface@.destroyed,
            surface@.is_texture_backed() ==> old(self)@.interop_available(),
        ensures
            final(self)@ == old(self)@,
            *final(context) == *old(context),
            r == (if surface@.context_id != old(context).id {
                Err::<(), Error>(Error::IncompatibleSurface)
            } else {
                Ok::<(), Error>(())
            }),
    {
        let mut surface = surface;
        if context.id != surface.context_id {
            // Leak the surface, and return an error.
            surface.destroyed = true;
            return Err(Error::IncompatibleSurface);
        }

        let prior_context = self.make_context_current(context);
        match &mut surface.win32_objects {
            Win32Objects::Texture {
                gl_dx_interop_object, gl_texture, gl_framebuffer, renderbuffers, ..
            } => {
                renderbuffers.destroy();
                *gl_framebuffer = 0;
                *gl_texture = 0;
                // Unregister the interop object.  A rejected unregistration
                // after a successful registration would mean driver or state
                // corruption, which the glue treats as fatal, never as a
                // recoverable result.
                *gl_dx_interop_object = 0;
            },
            Win32Objects::Widget { .. } => {},
        }
        surface.destroyed = true;
        self.restore_current_context(prior_context);
        Ok(())
    }

    /// Re-opens a texture-backed surface's share handle in `context`,
    /// registering a second, read-only interop object with its own GL
    /// texture name, and acquires that registration's lock so the texture is
    /// ready to sample.  The surface is consumed: it travels inside the
    /// returned surface texture on success and is dropped, marked destroyed,
    /// on every failure.
    ///
    /// A widget-backed surface has no shareable allocation and yields
    /// `WidgetAttached`; a share handle this device's allocator never issued
    /// cannot be opened and yields `SurfaceImportFailed`.
    pub fn create_surface_texture(&mut self, context: &mut Context, surface: Surface) -> (r:
        Result<SurfaceTexture, Error>)
        requires
            old(self)@.wf(),
            !surface@.destroyed,
            surface@.is_texture_backed() ==> old(self)@.interop_available(),
        ensures
            final(self)@.wf(),
            *final(context) == *old(context),
            if surface@.is_widget_backed() {
                &&& r == Err::<SurfaceTexture, Error>(Error::WidgetAttached)
                &&& final(self)@ == old(self)@
            } else if !old(self)@.share_handles.contains(surface@.share_handle())
                || !old(self)@.handle_headroom() {
                &&& r == Err::<SurfaceTexture, Error>(
                    Error::SurfaceImportFailed(WindowingApiError::Failed),
                )
                &&& final(self)@ == old(self)@
            } else {
                &&& r matches Ok(st)
                &&& created_surface_texture(old(self)@, final(self)@, surface@, st@)
            },
    {
        let mut surface = surface;
        let dxgi_share_handle: usize = match &surface.win32_objects {
            Win32Objects::Widget { .. } => {
                surface.destroyed = true;
                return Err(Error::WidgetAttached);
            },
            Win32Objects::Texture { dxgi_share_handle, .. } => *dxgi_share_handle,
        };

        let prior_context = self.make_context_current(context);

        // Open a second native texture over the same physical memory from
        // the share handle; a handle this device never issued cannot be
        // opened, and an exhausted allocator cannot satisfy the import.
        if !self.share_handle_known(dxgi_share_handle) || !self.has_handle_headroom() {
            surface.destroyed = true;
            self.restore_current_context(prior_context);
            return Err(Error::SurfaceImportFailed(WindowingApiError::Failed));
        }
        let local_d3d11_texture = self.fresh_native_handle();

        // Make a GL texture local to the target context and register it
        // read-only with the interop layer.
        let gl_texture = self.fresh_gl_name();
        let local_gl_dx_interop_object = self.fresh_native_handle();

        // The new registration's lock is acquired as part of construction,
        // and its texture gets linear-filter, clamp-to-edge sampling
        // parameters as a convenience default; both stay with the driver.
        self.restore_current_context(prior_context);
        Ok(
            SurfaceTexture {
                surface,
                local_d3d11_texture,
                local_gl_dx_interop_object,
                gl_texture,
            },
        )
    }

    /// Reverses surface-texture creation exactly — unlock, unregister,
    /// delete the local GL texture, under a scoped make-current — and
    /// returns ownership of the wrapped surface, unchanged, to the caller.
    pub fn destroy_surface_texture(
        &mut self,
        context: &mut Context,
        surface_texture: SurfaceTexture,
    ) -> (r: Result<Surface, Error>)
        requires
            old(self)@.wf(),
            old(self)@.interop_available(),
        ensures
            final(self)@ == old(self)@,
            *final(context) == *old(context),
            r matches Ok(s) && s@ == surface_texture@.surface,
    {
        let mut surface_texture = surface_texture;
        let prior_context = self.make_context_current(context);
        // Release the registration's lock, unregister it, and delete the
        // local GL texture; in this model each release clears the handle so
        // nothing can release it twice.
        surface_texture.local_gl_dx_interop_object = 0;
        surface_texture.gl_texture = 0;
        surface_texture.local_d3d11_texture = 0;
        self.restore_current_context(prior_context);
        Ok(surface_texture.surface)
    }

    /// Acquires the surface's exclusivity lock ahead of GL access to its
    /// shared allocation.  The lock serializes the two APIs' engines over the
    /// shared memory; at most one lock may be outstanding per registration,
    /// so the caller must not lock a surface that is already locked.  For a
    /// widget-backed surface there is nothing to lock and the call is a
    /// no-op.
    pub fn lock_surface(&self, surface: &mut Surface)
        requires
            !old(surface)@.destroyed,
            old(surface)@.is_texture_backed() ==> self@.interop_available()
                && !old(surface)@.locked(),
        ensures
            final(surface)@ == old(surface)@.with_locked(true),
    {
        match &mut surface.win32_objects {
            Win32Objects::Widget { .. } => {},
            Win32Objects::Texture { locked, .. } => {
                *locked = true;
            },
        }
    }

    /// Releases the surface's exclusivity lock after GL access, letting the
    /// native API's engine proceed.  The lock must be held beforehand.  For a
    /// widget-backed surface the call is a no-op.
    pub fn unlock_surface(&self, surface: &mut Surface)
        requires
            !old(surface)@.destroyed,
            old(surface)@.is_texture_backed() ==> self@.interop_available()
                && old(surface)@.locked(),
        ensures
            final(surface)@ == old(surface)@.with_locked(false),
    {
        match &mut surface.win32_objects {
            Win32Objects::Widget { .. } => {},
            Win32Objects::Texture { locked, .. } => {
                *locked = false;
            },
        }
    }

    /// Maps a surface's pixels for CPU access.  No readback path is part of
    /// this backend's scope, so the call reports that and changes nothing.
    pub fn lock_surface_data<'s>(&self, surface: &'s mut Surface) -> (r: Result<
        SurfaceDataGuard<'s>,
        Error,
    >)
        ensures
            final(surface)@ == old(surface)@,
            r matches Err(e) && e == Error::Unimplemented,
    {
        Err(Error::Unimplemented)
    }

    /// The GL texture target surfaces of this backend bind to.
    pub fn surface_gl_texture_target(&self) -> (r: u32)
        ensures
            r == GL_TEXTURE_2D,
    {
        GL_TEXTURE_2D
    }

    /// Decides presentation for a surface without any context current: a
    /// widget-backed surface's back buffer is swapped through the window's
    /// own device context — window-system state only, performed by the
    /// windowing glue on success — while a texture-backed surface has no
    /// widget to present to and yields `NoWidgetAttached`.
    pub fn present_surface_without_context(&self, surface: &mut Surface) -> (r: Result<(), Error>)
        requires
            !old(surface)@.destroyed,
        ensures
            final(surface)@ == old(surface)@,
            r == (if old(surface)@.is_widget_backed() {
                Ok::<(), Error>(())
            } else {
                Err::<(), Error>(Error::NoWidgetAttached)
            }),
    {
        match &surface.win32_objects {
            Win32Objects::Widget { .. } => Ok(()),
            Win32Objects::Texture { .. } => Err(Error::NoWidgetAttached),
        }
    }
}

/// Creating a generic surface and destroying it again with the creating
/// context succeeds on both steps and leaves the device as able to create
/// surfaces as it was before: destruction is owed success because the new
/// surface is owned by the creating context, and afterwards the device —
/// which destruction leaves unchanged — still satisfies every creation
/// condition.
pub proof fn lemma_create_then_destroy_leaves_device_usable(
    d0: DeviceView,
    d1: DeviceView,
    context: Context,
    size: SurfaceSize,
    s: SurfaceView,
)
    requires
        d0.wf(),
        d0.interop_available(),
        native_allocation_ok(d0, size),
        d0.next_native_handle <= usize::MAX - 6,
        d0.next_gl_name <= u32::MAX - 8,
        created_generic(d0, d1, context, size, s),
    ensures
        s.context_id == context.id,
        s.is_texture_backed() ==> d1.interop_available(),
        native_allocation_ok(d1, size),
        d1.interop_available(),
{
}

/// A surface created now is distinct from every texture-backed surface whose
/// native texture handle the device's allocator had issued before: surface
/// ids are never reused while a device lives.
pub proof fn lemma_surface_ids_distinct(
    d0: DeviceView,
    d1: DeviceView,
    context: Context,
    size: SurfaceSize,
    s_new: SurfaceView,
    s_old: SurfaceView,
)
    requires
        created_generic(d0, d1, context, size, s_new),
        s_old.is_texture_backed(),
        d0.issued_native_handle(s_old.id_spec().0),
    ensures
        s_new.id_spec() != s_old.id_spec(),
{
}

/// Wrapping a texture-backed surface into a surface texture and destroying
/// the surface texture again returns a surface with the same size, id, and
/// owning context as the one that was consumed — in fact the same surface.
pub proof fn lemma_surface_texture_round_trip(
    d0: DeviceView,
    d1: DeviceView,
    s: SurfaceView,
    st: SurfaceTextureView,
    s_back: SurfaceView,
)
    requires
        created_surface_texture(d0, d1, s, st),
        s_back == st.surface,
    ensures
        s_back == s,
        s_back.size == s.size,
        s_back.id_spec() == s.id_spec(),
        s_back.context_id == s.context_id,
{
}

/// A surface and a surface texture derived from it are independent interop
/// registrations over the same physical allocation: the derived texture's
/// native texture handle, interop object, and GL texture name are all
/// distinct from the surface's own, which is why the two carry independent
/// exclusivity locks.
pub proof fn lemma_derived_registration_independent(
    d0: DeviceView,
    d1: DeviceView,
    d2: DeviceView,
    context: Context,
    size: SurfaceSize,
    s: SurfaceView,
    st: SurfaceTextureView,
)
    requires
        created_generic(d0, d1, context, size, s),
        created_surface_texture(d1, d2, s, st),
    ensures
        st.surface == s,
        st.local_d3d11_texture != s.id_spec().0,
        st.local_gl_dx_interop_object != s.interop_object(),
        st.gl_texture != s.gl_texture_name(),
{
}

/// Locking and then unlocking a texture-backed surface restores it exactly,
/// so the pair can be run again at once: after the round trip the surface is
/// unlocked and unchanged, and a second lock is within contract.
pub proof fn lemma_lock_unlock_round_trip(s0: SurfaceView)
    requires
        s0.is_texture_backed(),
        !s0.locked(),
    ensures
        s0.with_locked(true).locked(),
        s0.with_locked(true).with_locked(false) == s0,
        !s0.with_locked(true).with_locked(false).locked(),
{
}

} // verus!
