//! The device: owner of the native Direct3D device handle and the GL/DX
//! interop device handle, and the factory for all surface operations.
//!
//! The device also carries the model of the two driver stacks' bookkeeping
//! that the surface protocol is proved against: a fresh-handle allocator for
//! native handles and GL names, the record of share handles the native
//! allocator has issued, and the thread's context-current and
//! framebuffer-binding state.  Every other module changes this state only
//! through the contracted operations below.

use vstd::prelude::*;

use crate::context::Context;

verus! {

/// The mathematical state of a [`Device`].
pub ghost struct DeviceView {
    /// The native Direct3D device handle; never zero.
    pub d3d11_device: usize,
    /// The GL/DX interop device handle; zero exactly when the interop
    /// extension set was not negotiated at device-init time.
    pub gl_dx_interop_device: usize,
    /// The next native handle the allocator will issue.
    pub next_native_handle: usize,
    /// The next GL object name the allocator will issue.
    pub next_gl_name: u32,
    /// The share handles the native allocator has issued, in order.
    pub share_handles: Seq<usize>,
    /// The context current on the calling thread; zero when none is current.
    pub current_context: u64,
    /// The framebuffer bound in the current context; zero for the default.
    pub bound_framebuffer: u32,
}

impl DeviceView {
    /// Whether the GL/DX interop extension set is available on this device.
    pub open spec fn interop_available(self) -> bool {
        self.gl_dx_interop_device != 0
    }

    /// Whether the allocator has already issued the native handle `h`.
    pub open spec fn issued_native_handle(self, h: usize) -> bool {
        0 < h < self.next_native_handle
    }

    /// Whether the allocator has already issued the GL name `n`.
    pub open spec fn issued_gl_name(self, n: u32) -> bool {
        0 < n < self.next_gl_name
    }

    /// Well-formedness: the device handle is valid, the allocator never
    /// issues the null handle, and every recorded share handle was issued.
    pub open spec fn wf(self) -> bool {
        &&& self.d3d11_device != 0
        &&& self.next_native_handle >= 1
        &&& self.next_gl_name >= 1
        &&& forall|i: int|
            0 <= i < self.share_handles.len() ==> self.issued_native_handle(
                #[trigger] self.share_handles[i],
            )
    }

    /// Headroom for one surface creation: at most three native handles and
    /// four GL names are drawn per surface.
    pub open spec fn handle_headroom(self) -> bool {
        &&& self.next_native_handle <= usize::MAX - 3
        &&& self.next_gl_name <= u32::MAX - 4
    }
}

/// The owner of the native device and the interop device, and the factory
/// for surfaces and surface textures.
pub struct Device {
    pub(crate) d3d11_device: usize,
    pub(crate) gl_dx_interop_device: usize,
    pub(crate) next_native_handle: usize,
    pub(crate) next_gl_name: u32,
    pub(crate) share_handles: Vec<usize>,
    pub(crate) current_context: u64,
    pub(crate) bound_framebuffer: u32,
}

impl View for Device {
    type V = DeviceView;

    closed spec fn view(&self) -> DeviceView {
        DeviceView {
            d3d11_device: self.d3d11_device,
            gl_dx_interop_device: self.gl_dx_interop_device,
            next_native_handle: self.next_native_handle,
            next_gl_name: self.next_gl_name,
            share_handles: self.share_handles@,
            current_context: self.current_context,
            bound_framebuffer: self.bound_framebuffer,
        }
    }
}

impl Device {
    /// Builds a device around the handles the bootstrap supplied: the native
    /// Direct3D device handle and the GL/DX interop device handle, the latter
    /// zero when the sharing extension set was not negotiated.
    pub fn new(d3d11_device: usize, gl_dx_interop_device: usize) -> (r: Device)
        requires
            d3d11_device != 0,
        ensures
            r@ == (DeviceView {
                d3d11_device,
                gl_dx_interop_device,
                next_native_handle: 1,
                next_gl_name: 1,
                share_handles: Seq::<usize>::empty(),
                current_context: 0,
                bound_framebuffer: 0,
            }),
            r@.wf(),
    {
        Device {
            d3d11_device,
            gl_dx_interop_device,
            next_native_handle: 1,
            next_gl_name: 1,
            share_handles: Vec::new(),
            current_context: 0,
            bound_framebuffer: 0,
        }
    }

    /// Whether the GL/DX interop extension set is available on this device.
    pub fn dx_interop_available(&self) -> (r: bool)
        ensures
            r == self@.interop_available(),
    {
        self.gl_dx_interop_device != 0
    }

    /// Whether the allocator still has headroom for one surface creation.
    pub(crate) fn has_handle_headroom(&self) -> (r: bool)
        ensures
            r == self@.handle_headroom(),
    {
        self.next_native_handle <= usize::MAX - 3 && self.next_gl_name <= u32::MAX - 4
    }

    /// Issues a fresh native handle, distinct from every handle issued before.
    pub(crate) fn fresh_native_handle(&mut self) -> (r: usize)
        requires
            old(self)@.wf(),
            old(self)@.next_native_handle < usize::MAX,
        ensures
            r == old(self)@.next_native_handle,
            !old(self)@.issued_native_handle(r),
            final(self)@.issued_native_handle(r),
            final(self)@ == (DeviceView {
                next_native_handle: (old(self)@.next_native_handle + 1) as usize,
                ..old(self)@
            }),
            final(self)@.wf(),
    {
        let handle = self.next_native_handle;
        self.next_native_handle = self.next_native_handle + 1;
        handle
    }

    /// Issues a fresh GL object name, distinct from every name issued before.
    pub(crate) fn fresh_gl_name(&mut self) -> (r: u32)
        requires
            old(self)@.wf(),
            old(self)@.next_gl_name < u32::MAX,
        ensures
            r == old(self)@.next_gl_name,
            !old(self)@.issued_gl_name(r),
            final(self)@.issued_gl_name(r),
            final(self)@ == (DeviceView {
                next_gl_name: (old(self)@.next_gl_name + 1) as u32,
                ..old(self)@
            }),
            final(self)@.wf(),
    {
        let name = self.next_gl_name;
        self.next_gl_name = self.next_gl_name + 1;
        name
    }

    /// Records a share handle the native allocator has issued.
    pub(crate) fn record_share_handle(&mut self, handle: usize)
        requires
            old(self)@.wf(),
            old(self)@.issued_native_handle(handle),
        ensures
            final(self)@ == (DeviceView {
                share_handles: old(self)@.share_handles.push(handle),
                ..old(self)@
            }),
            final(self)@.wf(),
    {
        self.share_handles.push(handle);
    }

    /// Whether the native allocator has issued the share handle `handle`.
    pub(crate) fn share_handle_known(&self, handle: usize) -> (r: bool)
        ensures
            r == self@.share_handles.contains(handle),
    {
        let mut i: usize = 0;
        while i < self.share_handles.len()
            invariant
                0 <= i <= self.share_handles@.len(),
                forall|j: int| 0 <= j < i ==> self.share_handles@[j] != handle,
            decreases self.share_handles@.len() - i,
        {
            if self.share_handles[i] == handle {
                proof {
                    assert(self@.share_handles[i as int] == handle);
                }
                return true;
            }
            i = i + 1;
        }
        false
    }

    /// Makes `context` current on the calling thread, returning the context
    /// that was current before so the caller can restore it on every exit
    /// path.
    pub(crate) fn make_context_current(&mut self, context: &Context) -> (prior: u64)
        ensures
            prior == old(self)@.current_context,
            final(self)@ == (DeviceView { current_context: context.id.0, ..old(self)@ }),
    {
        let prior = self.current_context;
        self.current_context = context.id.0;
        prior
    }

    /// Restores the context that was current before a scoped make-current.
    pub(crate) fn restore_current_context(&mut self, prior: u64)
        ensures
            final(self)@ == (DeviceView { current_context: prior, ..old(self)@ }),
    {
        self.current_context = prior;
    }

    /// Binds a framebuffer in the current context, returning the binding that
    /// was in force before so the caller can restore it.
    pub(crate) fn bind_framebuffer(&mut self, framebuffer: u32) -> (prior: u32)
        ensures
            prior == old(self)@.bound_framebuffer,
            final(self)@ == (DeviceView { bound_framebuffer: framebuffer, ..old(self)@ }),
    {
        let prior = self.bound_framebuffer;
        self.bound_framebuffer = framebuffer;
        prior
    }
}

} // verus!
