use vulkan_instance::extension::{Extension, Layer};
use vulkan_instance::names::{contains_name, cstr_from_bytes_until_nul, CName};

fn name(text: &str) -> CName {
    CName::new(text.as_bytes().to_vec()).unwrap()
}

#[test]
fn name_ends_at_the_first_zero_byte() {
    let read = cstr_from_bytes_until_nul(b"VK_KHR_surface\0\0junk\0").unwrap();
    assert_eq!(read.as_bytes(), b"VK_KHR_surface");
}

#[test]
fn buffer_without_zero_byte_holds_no_name() {
    assert!(cstr_from_bytes_until_nul(b"VK_KHR_surface").is_none());
    assert!(cstr_from_bytes_until_nul(b"").is_none());
}

#[test]
fn empty_name_is_a_name() {
    assert_eq!(cstr_from_bytes_until_nul(b"\0abc").unwrap().as_bytes(), b"");
}

#[test]
fn name_written_is_read_back() {
    let written = name("VK_LAYER_KHRONOS_validation");
    let mut buffer = written.as_bytes().to_vec();
    buffer.push(0);
    buffer.extend_from_slice(b"left over\0");
    assert!(cstr_from_bytes_until_nul(&buffer).unwrap() == written);
}

#[test]
fn zero_byte_makes_no_name() {
    assert!(CName::new(b"a\0b".to_vec()).is_none());
    assert!(CName::new(Vec::new()).is_some());
}

#[test]
fn names_are_equal_by_their_bytes() {
    assert!(name("abc") == name("abc"));
    assert!(name("abc") != name("abd"));
    assert!(name("abc") != name("ab"));
}

#[test]
fn list_holds_a_name() {
    let list = vec![name("a"), name("b")];
    assert!(contains_name(&list, &name("b")));
    assert!(!contains_name(&list, &name("c")));
    assert!(!contains_name(&[], &name("a")));
}

#[test]
fn extensions_have_their_registered_names() {
    let registered: [(Extension, &[u8]); 11] = [
        (Extension::Surface, b"VK_KHR_surface"),
        (Extension::XlibSurface, b"VK_KHR_xlib_surface"),
        (Extension::XcbSurface, b"VK_KHR_xcb_surface"),
        (Extension::WaylandSurface, b"VK_KHR_wayland_surface"),
        (Extension::AndroidSurface, b"VK_KHR_android_surface"),
        (Extension::Win32Surface, b"VK_KHR_win32_surface"),
        (Extension::MetalSurface, b"VK_EXT_metal_surface"),
        (Extension::PortabilityEnumeration, b"VK_KHR_portability_enumeration"),
        (Extension::DebugUtils, b"VK_EXT_debug_utils"),
        (Extension::SwapchainColorspace, b"VK_EXT_swapchain_colorspace"),
        (Extension::GetPhysicalDeviceProperties2, b"VK_KHR_get_physical_device_properties2"),
    ];
    for (extension, bytes) in registered {
        assert_eq!(extension.name().as_bytes(), bytes);
    }
}

#[test]
fn layers_have_their_registered_names() {
    assert_eq!(Layer::NvOptimus.name().as_bytes(), b"VK_LAYER_NV_optimus");
    assert_eq!(Layer::ObsHook.name().as_bytes(), b"VK_LAYER_OBS_HOOK");
    assert_eq!(Layer::KhronosValidation.name().as_bytes(), b"VK_LAYER_KHRONOS_validation");
}
