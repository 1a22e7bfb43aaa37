//! Windows, and the surfaces that can be made for them.

use vstd::prelude::*;

use crate::extension::Extension;
use crate::platform::{Platform, TargetOs};

verus! {

/// The connection to a window system. Pointers are given by their address.
#[derive(Clone, Copy, Debug, PartialEq, Eq, Structural)]
pub enum DisplayHandle {
    Wayland { display: usize },
    Xlib { display: usize },
    Xcb { connection: usize },
    Other,
}

/// A window of a window system. Pointers are given by their address.
#[derive(Clone, Copy, Debug, PartialEq, Eq, Structural)]
#[allow(inconsistent_fields)]
pub enum WindowHandle {
    Wayland { surface: usize },
    Xlib { window: u64 },
    Xcb { window: u32 },
    AndroidNdk { a_native_window: usize },
    Win32 { hwnd: usize },
    AppKit { ns_view: usize },
    UiKit { ui_view: usize },
    Other,
}

/// What the driver is asked to make a surface of. No flag is set in any request.
#[derive(Clone, Copy, Debug, PartialEq, Eq, Structural)]
#[allow(inconsistent_fields)]
pub enum SurfaceCreateInfo {
    Wayland { display: usize, surface: usize },
    Xlib { dpy: usize, window: u64 },
    Xcb { connection: usize, window: u32 },
    Android { window: usize },
    Win32 { hinstance: usize, hwnd: usize },
    /// A surface for the Metal layer of a view.
    Metal { view: usize },
}

impl SurfaceCreateInfo {
    /// The extension by which such a surface is made.
    pub open spec fn extension(self) -> Extension {
        match self {
            SurfaceCreateInfo::Wayland { .. } => Extension::WaylandSurface,
            SurfaceCreateInfo::Xlib { .. } => Extension::XlibSurface,
            SurfaceCreateInfo::Xcb { .. } => Extension::XcbSurface,
            SurfaceCreateInfo::Android { .. } => Extension::AndroidSurface,
            SurfaceCreateInfo::Win32 { .. } => Extension::Win32Surface,
            SurfaceCreateInfo::Metal { .. } => Extension::MetalSurface,
        }
    }
}

/// The surface that a window calls for, if its kind is known on the platform and goes
/// with the display. `module` is the handle of the running module, under Windows.
pub open spec fn surface_for(
    display_handle: DisplayHandle,
    window_handle: WindowHandle,
    platform: Platform,
    module: usize,
) -> Option<SurfaceCreateInfo> {
    match (window_handle, display_handle) {
        (WindowHandle::Wayland { surface }, DisplayHandle::Wayland { display }) => Some(
            SurfaceCreateInfo::Wayland { display, surface },
        ),
        (WindowHandle::Xlib { window }, DisplayHandle::Xlib { display }) => Some(
            SurfaceCreateInfo::Xlib { dpy: display, window },
        ),
        (WindowHandle::Xcb { window }, DisplayHandle::Xcb { connection }) => Some(
            SurfaceCreateInfo::Xcb { connection, window },
        ),
        (WindowHandle::AndroidNdk { a_native_window }, _) => Some(
            SurfaceCreateInfo::Android { window: a_native_window },
        ),
        (WindowHandle::Win32 { hwnd }, _) => if platform.os == TargetOs::Windows {
            Some(SurfaceCreateInfo::Win32 { hinstance: module, hwnd })
        } else {
            None
        },
        (WindowHandle::AppKit { ns_view }, _) => if platform.os == TargetOs::MacOs {
            Some(SurfaceCreateInfo::Metal { view: ns_view })
        } else {
            None
        },
        (WindowHandle::UiKit { ui_view }, _) => if platform.os == TargetOs::Ios {
            Some(SurfaceCreateInfo::Metal { view: ui_view })
        } else {
            None
        },
        _ => None,
    }
}

/// The surface that a window calls for.
pub fn fitting_surface(
    display_handle: DisplayHandle,
    window_handle: WindowHandle,
    platform: Platform,
    module: usize,
) -> (info: Option<SurfaceCreateInfo>)
    ensures
        info == surface_for(display_handle, window_handle, platform, module),
{
    match (window_handle, display_handle) {
        (WindowHandle::Wayland { surface }, DisplayHandle::Wayland { display }) => {
            Some(SurfaceCreateInfo::Wayland { display, surface })
        },
        (WindowHandle::Xlib { window }, DisplayHandle::Xlib { display }) => {
            Some(SurfaceCreateInfo::Xlib { dpy: display, window })
        },
        (WindowHandle::Xcb { window }, DisplayHandle::Xcb { connection }) => {
            Some(SurfaceCreateInfo::Xcb { connection, window })
        },
        (WindowHandle::AndroidNdk { a_native_window }, _) => {
            Some(SurfaceCreateInfo::Android { window: a_native_window })
        },
        (WindowHandle::Win32 { hwnd }, _) if platform.os == TargetOs::Windows => {
            Some(SurfaceCreateInfo::Win32 { hinstance: module, hwnd })
        },
        (WindowHandle::AppKit { ns_view }, _) if platform.os == TargetOs::MacOs => {
            Some(SurfaceCreateInfo::Metal { view: ns_view })
        },
        (WindowHandle::UiKit { ui_view }, _) if platform.os == TargetOs::Ios => {
            Some(SurfaceCreateInfo::Metal { view: ui_view })
        },
        (_, _) => None,
    }
}

} // verus!
