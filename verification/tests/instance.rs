use std::sync::Arc;

use vulkan_instance::adapter::{
    detect_optimus, physical_devices, AdapterInfo, DeviceType, ExposedAdapter, INTEL_VENDOR,
    NVIDIA_VENDOR,
};
use vulkan_instance::debug::DebugUtilsMessengerUserData;
use vulkan_instance::extension::Extension;
use vulkan_instance::instance::{
    ExtensionProperties, Instance, InstanceError, InstanceFlags, PendingInstance, ReleaseAction,
};
use vulkan_instance::names::CName;
use vulkan_instance::platform::{Platform, TargetOs};
use vulkan_instance::window::{
    fitting_surface, DisplayHandle, SurfaceCreateInfo, WindowHandle,
};

type TestInstance = Instance<&'static str, u64, &'static str>;

const LINUX: Platform = Platform { unix: true, os: TargetOs::Linux };
const ANDROID: Platform = Platform { unix: true, os: TargetOs::Android };
const MACOS: Platform = Platform { unix: true, os: TargetOs::MacOs };
const IOS: Platform = Platform { unix: true, os: TargetOs::Ios };
const WINDOWS: Platform = Platform { unix: false, os: TargetOs::Windows };

const PLAIN: InstanceFlags = InstanceFlags { debug: false, validation: false };
const DEBUG: InstanceFlags = InstanceFlags { debug: true, validation: false };

const ALL: [Extension; 11] = [
    Extension::GetPhysicalDeviceProperties2,
    Extension::SwapchainColorspace,
    Extension::DebugUtils,
    Extension::PortabilityEnumeration,
    Extension::MetalSurface,
    Extension::Win32Surface,
    Extension::AndroidSurface,
    Extension::WaylandSurface,
    Extension::XcbSurface,
    Extension::XlibSurface,
    Extension::Surface,
];

fn listing(extensions: &[Extension]) -> Vec<ExtensionProperties> {
    extensions
        .iter()
        .map(|extension| {
            let mut extension_name = extension.name().as_bytes().to_vec();
            extension_name.resize(256, 0);
            ExtensionProperties { extension_name }
        })
        .collect()
}

fn texts(names: &[CName]) -> Vec<String> {
    names.iter().map(|name| String::from_utf8(name.as_bytes().to_vec()).unwrap()).collect()
}

fn required(listed: &[Extension], flags: InstanceFlags, platform: Platform) -> Vec<String> {
    texts(&TestInstance::required_extensions(Ok(listing(listed)), 0, flags, platform).unwrap())
}

fn user_data() -> DebugUtilsMessengerUserData {
    DebugUtilsMessengerUserData {
        validation_layer_description: CName::new(b"layer".to_vec()).unwrap(),
        validation_layer_spec_version: 5,
        has_obs_layer: true,
    }
}

fn names(extensions: &[Extension]) -> Vec<CName> {
    extensions.iter().map(|extension| extension.name()).collect()
}

fn pending(
    data: Option<DebugUtilsMessengerUserData>,
    extensions: &[Extension],
    has_nv_optimus: bool,
) -> PendingInstance<&'static str, u64, &'static str> {
    TestInstance::from_raw(
        "entry",
        42,
        0x401000,
        29,
        data,
        names(extensions),
        DEBUG,
        has_nv_optimus,
        Some("guard"),
    )
    .unwrap()
}

fn instance(extensions: &[Extension]) -> TestInstance {
    pending(None, extensions, false).complete(None)
}

#[test]
fn linux_asks_for_its_window_systems() {
    assert_eq!(
        required(&ALL, PLAIN, LINUX),
        vec![
            "VK_KHR_surface",
            "VK_KHR_xlib_surface",
            "VK_KHR_xcb_surface",
            "VK_KHR_wayland_surface",
            "VK_EXT_swapchain_colorspace",
            "VK_KHR_get_physical_device_properties2",
        ]
    );
}

#[test]
fn other_platforms_ask_for_theirs() {
    assert_eq!(
        required(&ALL, PLAIN, ANDROID),
        vec![
            "VK_KHR_surface",
            "VK_KHR_android_surface",
            "VK_EXT_swapchain_colorspace",
            "VK_KHR_get_physical_device_properties2",
        ]
    );
    assert_eq!(
        required(&ALL, PLAIN, WINDOWS),
        vec![
            "VK_KHR_surface",
            "VK_KHR_win32_surface",
            "VK_EXT_swapchain_colorspace",
            "VK_KHR_get_physical_device_properties2",
        ]
    );
    assert_eq!(
        required(&ALL, PLAIN, MACOS),
        vec![
            "VK_KHR_surface",
            "VK_EXT_metal_surface",
            "VK_KHR_portability_enumeration",
            "VK_EXT_swapchain_colorspace",
            "VK_KHR_get_physical_device_properties2",
        ]
    );
    assert_eq!(required(&ALL, PLAIN, IOS), required(&ALL, PLAIN, LINUX));
}

#[test]
fn debug_flag_asks_for_the_messenger() {
    assert_eq!(
        required(&ALL, DEBUG, WINDOWS),
        vec![
            "VK_KHR_surface",
            "VK_KHR_win32_surface",
            "VK_EXT_debug_utils",
            "VK_EXT_swapchain_colorspace",
            "VK_KHR_get_physical_device_properties2",
        ]
    );
}

#[test]
fn only_listed_extensions_are_kept() {
    let listed = [Extension::XcbSurface, Extension::Surface, Extension::MetalSurface];
    assert_eq!(required(&listed, DEBUG, LINUX), vec!["VK_KHR_surface", "VK_KHR_xcb_surface"]);
    assert!(required(&[], DEBUG, LINUX).is_empty());
}

fn missing(listed: &[Extension], flags: InstanceFlags, platform: Platform) -> Vec<String> {
    texts(&TestInstance::missing_extensions(&listing(listed), flags, platform))
}

#[test]
fn wanted_extensions_that_are_not_listed_are_missing() {
    let listed = [Extension::XcbSurface, Extension::Surface, Extension::MetalSurface];
    assert_eq!(
        missing(&listed, DEBUG, LINUX),
        vec![
            "VK_KHR_xlib_surface",
            "VK_KHR_wayland_surface",
            "VK_EXT_debug_utils",
            "VK_EXT_swapchain_colorspace",
            "VK_KHR_get_physical_device_properties2",
        ]
    );
    assert!(missing(&ALL, DEBUG, MACOS).is_empty());
    assert_eq!(missing(&[], PLAIN, ANDROID), required(&ALL, PLAIN, ANDROID));
}

#[test]
fn name_that_does_not_end_is_not_listed() {
    let listed = vec![ExtensionProperties { extension_name: b"VK_KHR_surface".to_vec() }];
    assert!(TestInstance::required_extensions(Ok(listed), 0, PLAIN, LINUX).unwrap().is_empty());
}

#[test]
fn failed_listing_is_an_error() {
    assert_eq!(
        TestInstance::required_extensions(Err(-1), 0, PLAIN, LINUX).unwrap_err(),
        InstanceError
    );
}

#[test]
fn listing_more_extensions_loses_none() {
    let few = required(&ALL[8..], DEBUG, LINUX);
    let many = required(&ALL, DEBUG, LINUX);
    assert!(few.iter().all(|name| many.contains(name)));
}

#[test]
fn order_of_the_listing_does_not_matter() {
    let mut reversed = ALL;
    reversed.reverse();
    assert_eq!(required(&reversed, DEBUG, LINUX), required(&ALL, DEBUG, LINUX));
    let twice = [ALL, reversed].concat();
    assert_eq!(required(&twice, DEBUG, LINUX), required(&ALL, DEBUG, LINUX));
}

#[test]
fn fewer_extensions_keep_their_order() {
    let few = required(&ALL[2..9], DEBUG, LINUX);
    let mut many = required(&ALL, DEBUG, LINUX);
    many.retain(|name| few.contains(name));
    assert_eq!(many, few);
    let mut debugging = required(&ALL, DEBUG, LINUX);
    debugging.retain(|name| name != "VK_EXT_debug_utils");
    assert_eq!(debugging, required(&ALL, PLAIN, LINUX));
}

#[test]
fn instance_keeps_what_it_was_made_of() {
    let extensions = [Extension::Surface, Extension::GetPhysicalDeviceProperties2];
    let made = instance(&extensions);
    let shared = made.shared_instance();
    assert_eq!(*shared.entry(), "entry");
    assert_eq!(*shared.raw_instance(), 42);
    assert_eq!(shared.driver_api_version(), 0x401000);
    assert_eq!(
        texts(shared.extensions()),
        vec!["VK_KHR_surface", "VK_KHR_get_physical_device_properties2"]
    );
    assert_eq!(shared.flags, DEBUG);
    assert_eq!(shared.android_sdk_version, 29);
    assert!(!shared.has_nv_optimus);
    assert!(shared.get_physical_device_properties);
    assert!(shared.debug_utils.is_none());
    assert_eq!(shared.drop_guard, Some("guard"));
}

#[test]
fn extended_queries_need_their_extension() {
    assert!(!instance(&[Extension::Surface]).shared_instance().get_physical_device_properties);
}

#[test]
fn messenger_is_asked_for_with_data_and_extension() {
    let asked = pending(Some(user_data()), &[Extension::DebugUtils], true);
    assert!(asked.messenger.is_some());
    let made = asked.complete(Some(77));
    let messenger = made.shared_instance().debug_utils.as_ref().unwrap();
    assert_eq!(messenger.messenger, 77);
    assert_eq!(messenger.callback_data.validation_layer_spec_version, 5);
    assert!(messenger.callback_data.has_obs_layer);
    assert!(made.shared_instance().has_nv_optimus);

    assert!(pending(Some(user_data()), &[Extension::Surface], true).messenger.is_none());
    assert!(pending(None, &[Extension::DebugUtils], true).messenger.is_none());
}

fn steps(actions: Vec<ReleaseAction<&'static str>>) -> Vec<String> {
    actions
        .into_iter()
        .map(|action| match action {
            ReleaseAction::DestroyMessenger { messenger } => format!("messenger {}", messenger),
            ReleaseAction::FreeCallbackData { callback_data } => {
                format!("data {}", callback_data.validation_layer_spec_version)
            }
            ReleaseAction::DestroyInstance => "instance".to_string(),
            ReleaseAction::DropGuard { drop_guard } => drop_guard.to_string(),
        })
        .collect()
}

#[test]
fn instance_is_released_in_order() {
    let mut made =
        pending(Some(user_data()), &[Extension::DebugUtils], false).complete(Some(77));
    let shared = Arc::get_mut(&mut made.shared).unwrap();
    assert_eq!(
        steps(shared.take_resources()),
        vec!["messenger 77", "data 5", "instance", "guard"]
    );
}

#[test]
fn instance_without_guard_is_not_destroyed() {
    let mut shared = pending(None, &[], false).complete(None).shared;
    let shared = Arc::get_mut(&mut shared).unwrap();
    shared.drop_guard = None;
    assert!(steps(shared.take_resources()).is_empty());

    let mut made = pending(Some(user_data()), &[Extension::DebugUtils], false).complete(Some(1));
    let shared = Arc::get_mut(&mut made.shared).unwrap();
    shared.drop_guard = None;
    assert_eq!(steps(shared.take_resources()), vec!["messenger 1", "data 5"]);
}

#[test]
fn resources_are_given_up_once() {
    let mut shared = pending(None, &[], false).shared;
    assert_eq!(steps(shared.take_resources()), vec!["instance", "guard"]);
    assert!(steps(shared.take_resources()).is_empty());
    assert_eq!(shared.raw, 42);
}

#[test]
fn each_kind_of_surface_needs_its_extension() {
    let bare = instance(&[Extension::Surface]);
    assert_eq!(bare.create_surface_from_xlib(1, 2), Err(InstanceError));
    assert_eq!(bare.create_surface_from_xcb(1, 2), Err(InstanceError));
    assert_eq!(bare.create_surface_from_wayland(1, 2), Err(InstanceError));
    assert_eq!(bare.create_surface_android(1), Err(InstanceError));
    assert_eq!(bare.create_surface_from_hwnd(1, 2), Err(InstanceError));
    assert_eq!(bare.create_surface_from_view(1), Err(InstanceError));

    let full = instance(&ALL);
    assert_eq!(
        full.create_surface_from_xlib(1, 2),
        Ok(SurfaceCreateInfo::Xlib { dpy: 1, window: 2 })
    );
    assert_eq!(
        full.create_surface_from_xcb(1, 2),
        Ok(SurfaceCreateInfo::Xcb { connection: 1, window: 2 })
    );
    assert_eq!(
        full.create_surface_from_wayland(1, 2),
        Ok(SurfaceCreateInfo::Wayland { display: 1, surface: 2 })
    );
    assert_eq!(full.create_surface_android(1), Ok(SurfaceCreateInfo::Android { window: 1 }));
    assert_eq!(
        full.create_surface_from_hwnd(1, 2),
        Ok(SurfaceCreateInfo::Win32 { hinstance: 1, hwnd: 2 })
    );
    assert_eq!(full.create_surface_from_view(1), Ok(SurfaceCreateInfo::Metal { view: 1 }));
}

#[test]
fn window_and_display_have_to_match() {
    let full = instance(&ALL);
    assert_eq!(
        full.create_surface(
            DisplayHandle::Wayland { display: 3 },
            WindowHandle::Wayland { surface: 4 },
            LINUX,
            0
        ),
        Ok(SurfaceCreateInfo::Wayland { display: 3, surface: 4 })
    );
    assert_eq!(
        full.create_surface(
            DisplayHandle::Xlib { display: 3 },
            WindowHandle::Xlib { window: 4 },
            LINUX,
            0
        ),
        Ok(SurfaceCreateInfo::Xlib { dpy: 3, window: 4 })
    );
    assert_eq!(
        full.create_surface(
            DisplayHandle::Xcb { connection: 3 },
            WindowHandle::Xcb { window: 4 },
            LINUX,
            0
        ),
        Ok(SurfaceCreateInfo::Xcb { connection: 3, window: 4 })
    );
    assert_eq!(
        full.create_surface(
            DisplayHandle::Xcb { connection: 3 },
            WindowHandle::Xlib { window: 4 },
            LINUX,
            0
        ),
        Err(InstanceError)
    );
    assert_eq!(
        full.create_surface(DisplayHandle::Other, WindowHandle::Other, LINUX, 0),
        Err(InstanceError)
    );
}

#[test]
fn window_kinds_belong_to_platforms() {
    let full = instance(&ALL);
    let other = DisplayHandle::Other;
    let android = WindowHandle::AndroidNdk { a_native_window: 5 };
    assert_eq!(
        full.create_surface(other, android, ANDROID, 0),
        Ok(SurfaceCreateInfo::Android { window: 5 })
    );
    let win32 = WindowHandle::Win32 { hwnd: 6 };
    assert_eq!(
        full.create_surface(other, win32, WINDOWS, 9),
        Ok(SurfaceCreateInfo::Win32 { hinstance: 9, hwnd: 6 })
    );
    assert_eq!(full.create_surface(other, win32, LINUX, 9), Err(InstanceError));
    let app_kit = WindowHandle::AppKit { ns_view: 7 };
    assert_eq!(
        full.create_surface(other, app_kit, MACOS, 0),
        Ok(SurfaceCreateInfo::Metal { view: 7 })
    );
    assert_eq!(full.create_surface(other, app_kit, IOS, 0), Err(InstanceError));
    let ui_kit = WindowHandle::UiKit { ui_view: 8 };
    assert_eq!(
        full.create_surface(other, ui_kit, IOS, 0),
        Ok(SurfaceCreateInfo::Metal { view: 8 })
    );
    assert_eq!(full.create_surface(other, ui_kit, MACOS, 0), Err(InstanceError));
    assert_eq!(
        instance(&[]).create_surface(other, app_kit, MACOS, 0),
        Err(InstanceError)
    );
}

#[test]
fn surface_fits_its_window() {
    assert_eq!(
        fitting_surface(
            DisplayHandle::Xcb { connection: 3 },
            WindowHandle::Xcb { window: 4 },
            LINUX,
            0
        ),
        Some(SurfaceCreateInfo::Xcb { connection: 3, window: 4 })
    );
    assert_eq!(
        fitting_surface(
            DisplayHandle::Wayland { display: 3 },
            WindowHandle::Xcb { window: 4 },
            LINUX,
            0
        ),
        None
    );
    let win32 = WindowHandle::Win32 { hwnd: 6 };
    assert_eq!(
        fitting_surface(DisplayHandle::Other, win32, WINDOWS, 9),
        Some(SurfaceCreateInfo::Win32 { hinstance: 9, hwnd: 6 })
    );
    assert_eq!(fitting_surface(DisplayHandle::Other, win32, MACOS, 9), None);
}

#[test]
fn created_surface_has_no_swapchain() {
    let full = instance(&ALL);
    let surface = full.create_surface_from_vk_surface_khr(11);
    assert_eq!(surface.raw, 11);
    assert!(surface.swapchain.is_none());
    assert_eq!(surface.instance.raw, 42);
}

fn adapter(raw: u64, vendor: u32, device_type: DeviceType) -> ExposedAdapter {
    ExposedAdapter {
        raw,
        info: AdapterInfo { name: format!("adapter {}", raw), vendor, device_type },
        can_present: true,
    }
}

fn optimus_pair() -> Vec<Option<ExposedAdapter>> {
    vec![
        Some(adapter(1, INTEL_VENDOR, DeviceType::IntegratedGpu)),
        None,
        Some(adapter(2, NVIDIA_VENDOR, DeviceType::DiscreteGpu)),
        Some(adapter(3, INTEL_VENDOR, DeviceType::DiscreteGpu)),
    ]
}

fn presenting(has_nv_optimus: bool, devices: Vec<Option<ExposedAdapter>>, platform: Platform) -> Vec<(u64, bool)> {
    pending(None, &[], has_nv_optimus)
        .complete(None)
        .enumerate_adapters(devices, platform)
        .iter()
        .map(|adapter| (adapter.raw, adapter.can_present))
        .collect()
}

#[test]
fn intel_does_not_present_on_an_optimus_pair() {
    assert_eq!(presenting(true, optimus_pair(), LINUX), vec![(1, false), (2, true), (3, true)]);
}

#[test]
fn optimus_is_told_from_the_exposed_adapters() {
    let made = pending(None, &[], true).complete(None);
    let shown = made.enumerate_adapters(optimus_pair(), LINUX);
    assert!(detect_optimus(&shown, true, LINUX));
    assert!(!detect_optimus(&shown, false, LINUX));
    assert!(!detect_optimus(&shown, true, WINDOWS));
    let held: Vec<bool> = shown.iter().map(|adapter| adapter.is_held_back(true)).collect();
    assert_eq!(held, vec![true, false, false]);
    assert!(!shown[0].is_held_back(false));
}

#[test]
fn intel_presents_without_optimus() {
    let all = vec![(1, true), (2, true), (3, true)];
    assert_eq!(presenting(false, optimus_pair(), LINUX), all);
    assert_eq!(presenting(true, optimus_pair(), WINDOWS), all);
    let mut no_nvidia = optimus_pair();
    no_nvidia[2] = Some(adapter(2, NVIDIA_VENDOR, DeviceType::IntegratedGpu));
    assert_eq!(presenting(true, no_nvidia, LINUX), all);
}

#[test]
fn exposing_again_changes_nothing() {
    let made = pending(None, &[], true).complete(None);
    let once = made.enumerate_adapters(optimus_pair(), LINUX);
    let again = made.enumerate_adapters(once.into_iter().map(Some).collect(), LINUX);
    let shown: Vec<bool> = again.iter().map(|adapter| adapter.can_present).collect();
    assert_eq!(shown, vec![false, true, true]);
    assert_eq!(again[0].info.name, "adapter 1");
}

#[test]
fn failed_enumeration_yields_no_device() {
    assert_eq!(physical_devices(Ok(vec![4, 5])), vec![4, 5]);
    assert!(physical_devices(Err(-3)).is_empty());
}
