//! Errors that surface and device operations report.

use vstd::prelude::*;

verus! {

/// A native windowing-API error code embedded in a failure result.
#[derive(Clone, Copy, PartialEq, Eq, Structural, Debug)]
pub enum WindowingApiError {
    /// The native call failed without a more specific code.
    Failed,
}

/// Errors returned by the surface and device operations.
///
/// Every failure is reported to the caller as a typed result; the offending
/// surface or surface texture is consumed by the failing call, so a caller can
/// never retry with a half-initialized value.
#[derive(Clone, Copy, PartialEq, Eq, Structural, Debug)]
pub enum Error {
    /// The GL/DX interop extension set was not negotiated when the device was
    /// initialized.
    RequiredExtensionUnavailable,
    /// The native API failed to allocate the shared texture.
    SurfaceCreationFailed(WindowingApiError),
    /// The native API failed to open a shared allocation by its share handle.
    SurfaceImportFailed(WindowingApiError),
    /// The surface belongs to a context other than the one supplied, so its
    /// GPU-side resources cannot be released safely and are leaked.
    IncompatibleSurface,
    /// The native window handle could not be queried.
    InvalidNativeWidget,
    /// The operation needs a texture-backed surface, but the surface is
    /// backed by a widget.
    WidgetAttached,
    /// The operation needs a widget-backed surface, but the surface is
    /// backed by a texture.
    NoWidgetAttached,
    /// The operation is outside the scope this backend offers.
    Unimplemented,
}

} // verus!
