//! A verified model of a WGL/Direct3D surface backend: render targets whose
//! backing memory is either a GPU texture shared between the two driver stacks
//! or a native window's own back buffer.
//!
//! The library is the surface lifecycle and interop protocol manager.  Every
//! native handle (Direct3D textures, DXGI share handles, GL/DX interop
//! objects, GL names) is modelled as a plain integer drawn from the device's
//! allocator, so that the protocol obligations — ordering, pairing of
//! register/unregister and lock/unlock, one owner at a time, explicit
//! teardown — are stated in contracts and proved.  The platform calls that
//! produce the real handles live outside the library, in the windowing glue.

pub mod context;
pub mod device;
pub mod error;
pub mod geometry;
pub mod renderbuffers;
pub mod surface;
