//! The extensions and layers that an instance may ask for, and their names.

use ash::extensions::{ext, khr};
use vstd::prelude::*;

use crate::names::{is_plain, plain_text_has_no_nul, text_bytes, text_bytes_injective, CName};

verus! {

/// An instance extension that the backend knows how to use.
#[derive(Clone, Copy, Debug, PartialEq, Eq, Structural)]
pub enum Extension {
    Surface,
    XlibSurface,
    XcbSurface,
    WaylandSurface,
    AndroidSurface,
    Win32Surface,
    MetalSurface,
    PortabilityEnumeration,
    DebugUtils,
    SwapchainColorspace,
    GetPhysicalDeviceProperties2,
}

impl Extension {
    /// The name under which drivers list the extension.
    pub open spec fn text(self) -> Seq<char> {
        match self {
            Extension::Surface => "VK_KHR_surface"@,
            Extension::XlibSurface => "VK_KHR_xlib_surface"@,
            Extension::XcbSurface => "VK_KHR_xcb_surface"@,
            Extension::WaylandSurface => "VK_KHR_wayland_surface"@,
            Extension::AndroidSurface => "VK_KHR_android_surface"@,
            Extension::Win32Surface => "VK_KHR_win32_surface"@,
            Extension::MetalSurface => "VK_EXT_metal_surface"@,
            Extension::PortabilityEnumeration => "VK_KHR_portability_enumeration"@,
            Extension::DebugUtils => "VK_EXT_debug_utils"@,
            Extension::SwapchainColorspace => "VK_EXT_swapchain_colorspace"@,
            Extension::GetPhysicalDeviceProperties2 => "VK_KHR_get_physical_device_properties2"@,
        }
    }

    /// The bytes of that name.
    pub open spec fn bytes(self) -> Seq<u8> {
        text_bytes(self.text())
    }

    /// The name of the extension.
    pub fn name(self) -> (name: CName)
        ensures
            name@ == self.bytes(),
    {
        let bytes: Vec<u8> = match self {
            Extension::Surface => surface_name(),
            Extension::XlibSurface => xlib_surface_name(),
            Extension::XcbSurface => xcb_surface_name(),
            Extension::WaylandSurface => wayland_surface_name(),
            Extension::AndroidSurface => android_surface_name(),
            Extension::Win32Surface => win32_surface_name(),
            Extension::MetalSurface => metal_surface_name(),
            Extension::PortabilityEnumeration => vstd::slice::slice_to_vec(
                "VK_KHR_portability_enumeration".as_bytes(),
            ),
            Extension::DebugUtils => debug_utils_name(),
            Extension::SwapchainColorspace => swapchain_colorspace_name(),
            Extension::GetPhysicalDeviceProperties2 => get_physical_device_properties2_name(),
        };
        proof {
            extension_text_is_plain(self);
            plain_text_has_no_nul(self.text());
        }
        CName::from_nul_free(bytes)
    }
}

/// A layer that the backend looks for.
#[derive(Clone, Copy, Debug, PartialEq, Eq, Structural)]
pub enum Layer {
    NvOptimus,
    ObsHook,
    KhronosValidation,
}

impl Layer {
    /// The name under which drivers list the layer.
    pub open spec fn text(self) -> Seq<char> {
        match self {
            Layer::NvOptimus => "VK_LAYER_NV_optimus"@,
            Layer::ObsHook => "VK_LAYER_OBS_HOOK"@,
            Layer::KhronosValidation => "VK_LAYER_KHRONOS_validation"@,
        }
    }

    /// The bytes of that name.
    pub open spec fn bytes(self) -> Seq<u8> {
        text_bytes(self.text())
    }

    /// The name of the layer.
    pub fn name(self) -> (name: CName)
        ensures
            name@ == self.bytes(),
    {
        let text = match self {
            Layer::NvOptimus => "VK_LAYER_NV_optimus",
            Layer::ObsHook => "VK_LAYER_OBS_HOOK",
            Layer::KhronosValidation => "VK_LAYER_KHRONOS_validation",
        };
        proof {
            layer_text_is_plain(self);
            plain_text_has_no_nul(self.text());
        }
        CName::from_nul_free(vstd::slice::slice_to_vec(text.as_bytes()))
    }
}

proof fn reveal_extension_texts()
    ensures
        forall|e: Extension| is_plain(#[trigger] e.text()),
        forall|a: Extension, b: Extension| a != b ==> #[trigger] a.text() != #[trigger] b.text(),
{
    reveal_strlit("VK_KHR_surface");
    reveal_strlit("VK_KHR_xlib_surface");
    reveal_strlit("VK_KHR_xcb_surface");
    reveal_strlit("VK_KHR_wayland_surface");
    reveal_strlit("VK_KHR_android_surface");
    reveal_strlit("VK_KHR_win32_surface");
    reveal_strlit("VK_EXT_metal_surface");
    reveal_strlit("VK_KHR_portability_enumeration");
    reveal_strlit("VK_EXT_debug_utils");
    reveal_strlit("VK_EXT_swapchain_colorspace");
    reveal_strlit("VK_KHR_get_physical_device_properties2");
    assert forall|a: Extension, b: Extension| a != b implies #[trigger] a.text()
        != #[trigger] b.text() by {
        let (s, t) = (a.text(), b.text());
        assert(s.len() != t.len() || s[7] != t[7] || s[8] != t[8]);
    }
}

pub(crate) proof fn extension_text_is_plain(extension: Extension)
    ensures
        is_plain(extension.text()),
{
    reveal_extension_texts();
}

pub(crate) proof fn layer_text_is_plain(layer: Layer)
    ensures
        is_plain(layer.text()),
{
    reveal_strlit("VK_LAYER_NV_optimus");
    reveal_strlit("VK_LAYER_OBS_HOOK");
    reveal_strlit("VK_LAYER_KHRONOS_validation");
}

/// No two extensions share a name.
pub proof fn extension_names_distinct(a: Extension, b: Extension)
    requires
        a != b,
    ensures
        a.bytes() != b.bytes(),
{
    reveal_extension_texts();
    if a.bytes() == b.bytes() {
        text_bytes_injective(a.text(), b.text());
    }
}

/// `ash::extensions::khr::Surface::name`: the bytes of the C string that it returns.
#[verifier::external_body]
fn surface_name() -> (bytes: Vec<u8>)
    ensures
        bytes@ == text_bytes("VK_KHR_surface"@),
{
    khr::Surface::name().to_bytes().to_vec()
}

/// `ash::extensions::khr::XlibSurface::name`: the bytes of the C string that it returns.
#[verifier::external_body]
fn xlib_surface_name() -> (bytes: Vec<u8>)
    ensures
        bytes@ == text_bytes("VK_KHR_xlib_surface"@),
{
    khr::XlibSurface::name().to_bytes().to_vec()
}

/// `ash::extensions::khr::XcbSurface::name`: the bytes of the C string that it returns.
#[verifier::external_body]
fn xcb_surface_name() -> (bytes: Vec<u8>)
    ensures
        bytes@ == text_bytes("VK_KHR_xcb_surface"@),
{
    khr::XcbSurface::name().to_bytes().to_vec()
}

/// `ash::extensions::khr::WaylandSurface::name`: the bytes of the C string that it returns.
#[verifier::external_body]
fn wayland_surface_name() -> (bytes: Vec<u8>)
    ensures
        bytes@ == text_bytes("VK_KHR_wayland_surface"@),
{
    khr::WaylandSurface::name().to_bytes().to_vec()
}

/// `ash::extensions::khr::AndroidSurface::name`: the bytes of the C string that it returns.
#[verifier::external_body]
fn android_surface_name() -> (bytes: Vec<u8>)
    ensures
        bytes@ == text_bytes("VK_KHR_android_surface"@),
{
    khr::AndroidSurface::name().to_bytes().to_vec()
}

/// `ash::extensions::khr::Win32Surface::name`: the bytes of the C string that it returns.
#[verifier::external_body]
fn win32_surface_name() -> (bytes: Vec<u8>)
    ensures
        bytes@ == text_bytes("VK_KHR_win32_surface"@),
{
    khr::Win32Surface::name().to_bytes().to_vec()
}

/// `ash::extensions::ext::MetalSurface::name`: the bytes of the C string that it returns.
#[verifier::external_body]
fn metal_surface_name() -> (bytes: Vec<u8>)
    ensures
        bytes@ == text_bytes("VK_EXT_metal_surface"@),
{
    ext::MetalSurface::name().to_bytes().to_vec()
}

/// `ash::extensions::ext::DebugUtils::name`: the bytes of the C string that it returns.
#[verifier::external_body]
fn debug_utils_name() -> (bytes: Vec<u8>)
    ensures
        bytes@ == text_bytes("VK_EXT_debug_utils"@),
{
    ext::DebugUtils::name().to_bytes().to_vec()
}

/// `ash::vk::ExtSwapchainColorspaceFn::name`: the bytes of the C string that it returns.
#[verifier::external_body]
fn swapchain_colorspace_name() -> (bytes: Vec<u8>)
    ensures
        bytes@ == text_bytes("VK_EXT_swapchain_colorspace"@),
{
    ash::vk::ExtSwapchainColorspaceFn::name().to_bytes().to_vec()
}

/// `ash::extensions::khr::GetPhysicalDeviceProperties2::name`: the bytes of the C
/// string that it returns.
#[verifier::external_body]
fn get_physical_device_properties2_name() -> (bytes: Vec<u8>)
    ensures
        bytes@ == text_bytes("VK_KHR_get_physical_device_properties2"@),
{
    khr::GetPhysicalDeviceProperties2::name().to_bytes().to_vec()
}

} // verus!
