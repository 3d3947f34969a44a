//! Every failure the surface operations report, each from an input that owes
//! it.

use surfman_wgl::context::{Context, ContextAttributes, ContextID};
use surfman_wgl::device::Device;
use surfman_wgl::error::{Error, WindowingApiError};
use surfman_wgl::geometry::{SurfaceSize, WidgetBounds};
use surfman_wgl::surface::{NativeWidget, SurfaceAccess, SurfaceType};

fn interop_device() -> Device {
    Device::new(0x1000, 0x2000)
}

fn context(id: u64) -> Context {
    Context {
        id: ContextID(id),
        attributes: ContextAttributes { depth: false, stencil: false },
    }
}

fn generic(width: i32, height: i32) -> SurfaceType {
    SurfaceType::Generic { size: SurfaceSize { width, height } }
}

#[test]
fn create_generic_without_interop_extension() {
    let mut device = Device::new(0x1000, 0);
    let ctx = context(1);
    let r = device.create_surface(&ctx, SurfaceAccess::GPUOnly, &generic(64, 64));
    assert!(matches!(r, Err(Error::RequiredExtensionUnavailable)));
}

#[test]
fn create_generic_with_unallocatable_size() {
    let mut device = interop_device();
    let ctx = context(1);
    for size in [
        generic(0, 64),
        generic(64, 0),
        generic(-1, 64),
        generic(64, 16385),
        generic(16385, 64),
    ] {
        let r = device.create_surface(&ctx, SurfaceAccess::GPUOnly, &size);
        assert!(matches!(
            r,
            Err(Error::SurfaceCreationFailed(WindowingApiError::Failed))
        ));
    }
    // The largest acceptable size still allocates.
    let s = device
        .create_surface(&ctx, SurfaceAccess::GPUOnly, &generic(16384, 16384))
        .unwrap();
    let mut ctx = ctx;
    device.destroy_surface(&mut ctx, s).unwrap();
}

#[test]
fn create_widget_surface_from_unqueryable_window() {
    let mut device = interop_device();
    let ctx = context(1);
    let widget = NativeWidget { window_handle: 0x77, bounds: None };
    let r = device.create_surface(
        &ctx,
        SurfaceAccess::GPUOnly,
        &SurfaceType::Widget { native_widget: widget },
    );
    assert!(matches!(r, Err(Error::InvalidNativeWidget)));
}

#[test]
fn create_widget_surface_from_degenerate_rectangle() {
    let mut device = interop_device();
    let ctx = context(1);
    let widget = NativeWidget {
        window_handle: 0x77,
        bounds: Some(WidgetBounds { left: 100, top: 0, right: 0, bottom: 50 }),
    };
    let r = device.create_surface(
        &ctx,
        SurfaceAccess::GPUOnly,
        &SurfaceType::Widget { native_widget: widget },
    );
    assert!(matches!(r, Err(Error::InvalidNativeWidget)));
}

#[test]
fn destroy_surface_with_foreign_context() {
    let mut device = interop_device();
    let ctx = context(1);
    let mut other_ctx = context(2);
    let surface = device
        .create_surface(&ctx, SurfaceAccess::GPUOnly, &generic(64, 64))
        .unwrap();
    let r = device.destroy_surface(&mut other_ctx, surface);
    assert!(matches!(r, Err(Error::IncompatibleSurface)));

    // The device stays usable after the deliberate leak.
    let mut ctx = ctx;
    let surface = device
        .create_surface(&ctx, SurfaceAccess::GPUOnly, &generic(64, 64))
        .unwrap();
    device.destroy_surface(&mut ctx, surface).unwrap();
}

#[test]
fn surface_texture_from_widget_surface() {
    let mut device = interop_device();
    let mut ctx = context(1);
    let widget = NativeWidget {
        window_handle: 0x77,
        bounds: Some(WidgetBounds { left: 0, top: 0, right: 64, bottom: 64 }),
    };
    let surface = device
        .create_surface(
            &ctx,
            SurfaceAccess::GPUOnly,
            &SurfaceType::Widget { native_widget: widget },
        )
        .unwrap();
    let r = device.create_surface_texture(&mut ctx, surface);
    assert!(matches!(r, Err(Error::WidgetAttached)));
}

#[test]
fn surface_texture_from_foreign_device() {
    let mut device = interop_device();
    let mut importing_device = Device::new(0x3000, 0x4000);
    let ctx = context(1);
    let mut other_ctx = context(2);
    let surface = device
        .create_surface(&ctx, SurfaceAccess::GPUOnly, &generic(64, 64))
        .unwrap();
    // The importing device's allocator never issued this share handle, so
    // the import cannot open it.
    let r = importing_device.create_surface_texture(&mut other_ctx, surface);
    assert!(matches!(
        r,
        Err(Error::SurfaceImportFailed(WindowingApiError::Failed))
    ));
}

#[test]
fn present_texture_backed_surface() {
    let mut device = interop_device();
    let mut ctx = context(1);
    let mut surface = device
        .create_surface(&ctx, SurfaceAccess::GPUOnly, &generic(64, 64))
        .unwrap();
    let r = device.present_surface_without_context(&mut surface);
    assert!(matches!(r, Err(Error::NoWidgetAttached)));
    device.destroy_surface(&mut ctx, surface).unwrap();
}

#[test]
fn surface_data_is_not_mappable() {
    let mut device = interop_device();
    let mut ctx = context(1);
    let mut surface = device
        .create_surface(&ctx, SurfaceAccess::GPUOnly, &generic(64, 64))
        .unwrap();
    let r = device.lock_surface_data(&mut surface);
    assert!(matches!(r, Err(Error::Unimplemented)));
    device.destroy_surface(&mut ctx, surface).unwrap();
}
