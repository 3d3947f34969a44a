//! The surface lifecycle on a device with the interop extension available.

use surfman_wgl::context::{Context, ContextAttributes, ContextID};
use surfman_wgl::device::Device;
use surfman_wgl::geometry::{SurfaceSize, WidgetBounds};
use surfman_wgl::surface::{NativeWidget, SurfaceAccess, SurfaceID, SurfaceType};

fn interop_device() -> Device {
    Device::new(0x1000, 0x2000)
}

fn context(id: u64) -> Context {
    Context {
        id: ContextID(id),
        attributes: ContextAttributes { depth: true, stencil: false },
    }
}

fn generic(width: i32, height: i32) -> SurfaceType {
    SurfaceType::Generic { size: SurfaceSize { width, height } }
}

#[test]
fn create_then_destroy_leaves_device_usable() {
    let mut device = interop_device();
    let mut ctx = context(1);
    let surface = device
        .create_surface(&ctx, SurfaceAccess::GPUOnly, &generic(640, 480))
        .unwrap();
    assert_eq!(surface.size(), SurfaceSize { width: 640, height: 480 });
    assert_eq!(surface.context_id(), ContextID(1));
    device.destroy_surface(&mut ctx, surface).unwrap();

    let again = device
        .create_surface(&ctx, SurfaceAccess::GPUOnly, &generic(32, 32))
        .unwrap();
    assert_eq!(again.size(), SurfaceSize { width: 32, height: 32 });
    device.destroy_surface(&mut ctx, again).unwrap();
}

#[test]
fn surface_ids_are_stable_and_distinct() {
    let mut device = interop_device();
    let mut ctx = context(1);
    let first = device
        .create_surface(&ctx, SurfaceAccess::GPUOnly, &generic(8, 8))
        .unwrap();
    let mut second = device
        .create_surface(&ctx, SurfaceAccess::GPUOnly, &generic(8, 8))
        .unwrap();

    let first_id = first.id();
    let second_id = second.id();
    assert_ne!(first_id, second_id);

    // An id never changes while the surface lives.
    assert_eq!(first.id(), first_id);
    device.lock_surface(&mut second);
    assert_eq!(second.id(), second_id);
    device.unlock_surface(&mut second);
    assert_eq!(second.id(), second_id);

    device.destroy_surface(&mut ctx, first).unwrap();
    device.destroy_surface(&mut ctx, second).unwrap();
}

#[test]
fn surface_texture_round_trip_preserves_identity() {
    let mut device = interop_device();
    let mut ctx = context(1);
    let mut other_ctx = context(2);
    let surface = device
        .create_surface(&ctx, SurfaceAccess::GPUOnly, &generic(256, 128))
        .unwrap();
    let size = surface.size();
    let id = surface.id();
    let context_id = surface.context_id();

    let surface_texture = device.create_surface_texture(&mut other_ctx, surface).unwrap();
    assert_ne!(surface_texture.gl_texture(), 0);

    let back = device.destroy_surface_texture(&mut other_ctx, surface_texture).unwrap();
    assert_eq!(back.size(), size);
    assert_eq!(back.id(), id);
    assert_eq!(back.context_id(), context_id);

    device.destroy_surface(&mut ctx, back).unwrap();
}

#[test]
fn lock_unlock_twice_in_a_row() {
    let mut device = interop_device();
    let mut ctx = context(1);
    let mut surface = device
        .create_surface(&ctx, SurfaceAccess::GPUOnly, &generic(64, 64))
        .unwrap();
    assert!(!surface.is_locked());

    device.lock_surface(&mut surface);
    assert!(surface.is_locked());
    device.unlock_surface(&mut surface);
    assert!(!surface.is_locked());

    device.lock_surface(&mut surface);
    assert!(surface.is_locked());
    device.unlock_surface(&mut surface);
    assert!(!surface.is_locked());

    device.destroy_surface(&mut ctx, surface).unwrap();
}

#[test]
fn widget_surface_wraps_window_rectangle() {
    let mut device = interop_device();
    let mut ctx = context(3);
    let widget = NativeWidget {
        window_handle: 0xABC0,
        bounds: Some(WidgetBounds { left: 10, top: 20, right: 110, bottom: 220 }),
    };
    let mut surface = device
        .create_surface(
            &ctx,
            SurfaceAccess::GPUOnly,
            &SurfaceType::Widget { native_widget: widget },
        )
        .unwrap();
    assert_eq!(surface.size(), SurfaceSize { width: 100, height: 200 });
    assert_eq!(surface.id(), SurfaceID(0xABC0));
    assert_eq!(surface.context_id(), ContextID(3));
    assert!(surface.is_widget_backed());

    // A widget surface presents without any context current, and its lock
    // operations are no-ops.
    device.present_surface_without_context(&mut surface).unwrap();
    device.lock_surface(&mut surface);
    assert!(!surface.is_locked());
    device.unlock_surface(&mut surface);

    device.destroy_surface(&mut ctx, surface).unwrap();
}

#[test]
fn widget_surface_needs_no_interop() {
    let mut device = Device::new(0x1000, 0);
    assert!(!device.dx_interop_available());
    let mut ctx = context(1);
    let widget = NativeWidget {
        window_handle: 0x77,
        bounds: Some(WidgetBounds { left: 0, top: 0, right: 640, bottom: 480 }),
    };
    let surface = device
        .create_surface(
            &ctx,
            SurfaceAccess::GPUOnly,
            &SurfaceType::Widget { native_widget: widget },
        )
        .unwrap();
    assert_eq!(surface.size(), SurfaceSize { width: 640, height: 480 });
    device.destroy_surface(&mut ctx, surface).unwrap();
}

#[test]
fn gl_texture_target_is_texture_2d() {
    let device = interop_device();
    assert_eq!(device.surface_gl_texture_target(), 0x0DE1);
    assert_eq!(device.surface_gl_texture_target(), surfman_wgl::surface::GL_TEXTURE_2D);
}
