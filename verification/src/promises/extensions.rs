//! Extensions by their names: which an instance is created with, and what it can do with
//! them.

use vstd::prelude::*;
use vstd::utf8::encode_utf8;

use crate::debug::DebugUtilsMessengerUserData;
use crate::driver::LevelFilter;
use crate::extension::{extension_names_distinct, extension_text_is_plain, Extension, Layer};
use crate::instance::{
    are_required, completed, extension_names, is_taken_over, lists_extension, missing_names,
    release_order, required_names, surface_answer, surface_request, wanted_extensions,
    ExtensionProperties, InstanceError, InstanceFlags, InstanceShared, PendingInstance,
    ReleaseAction,
};
use crate::laws::{missing_iff_wanted_and_not_listed, required_iff_wanted_and_listed, wanted_iff};
use crate::names::{plain_text_has_no_nul, until_nul, views, CName};
use crate::platform::{Platform, TargetOs};
use crate::promises::messages::messengers_follow_the_filter;
use crate::promises::{holds, name_is_read_iff_buffer_starts_with_it, offers};
use crate::window::{surface_for, DisplayHandle, SurfaceCreateInfo, WindowHandle};

verus! {

/// An extension is listed if and only if the driver offers it under its name.
proof fn listed_iff_offered(listed: Seq<ExtensionProperties>, extension: Extension)
    ensures
        lists_extension(listed, extension.bytes()) <==> offers(listed, extension.text()),
{
    extension_text_is_plain(extension);
    plain_text_has_no_nul(extension.text());
    assert forall|i: int| 0 <= i < listed.len() implies (until_nul(
        #[trigger] listed[i].extension_name@,
    ) == Some(extension.bytes())) == holds(listed[i].extension_name@, extension.text()) by {
        name_is_read_iff_buffer_starts_with_it(listed[i].extension_name@, extension.bytes());
    }
}

proof fn decided(
    listed: Seq<ExtensionProperties>,
    flags: InstanceFlags,
    platform: Platform,
    extension: Extension,
)
    ensures
        required_names(listed, flags, platform).contains(extension.bytes()) <==> {
            &&& crate::laws::is_wanted(flags, platform, extension)
            &&& offers(listed, extension.text())
        },
        missing_names(listed, flags, platform).contains(extension.bytes()) <==> {
            &&& crate::laws::is_wanted(flags, platform, extension)
            &&& !offers(listed, extension.text())
        },
{
    required_iff_wanted_and_listed(listed, flags, platform, extension);
    missing_iff_wanted_and_not_listed(listed, flags, platform, extension);
    wanted_iff(flags, platform, extension);
    listed_iff_offered(listed, extension);
}

/// The names under which drivers list extensions and layers.
pub proof fn names_are_those_of_the_drivers()
    ensures
        Extension::Surface.bytes() == encode_utf8("VK_KHR_surface"@),
        Extension::XlibSurface.bytes() == encode_utf8("VK_KHR_xlib_surface"@),
        Extension::XcbSurface.bytes() == encode_utf8("VK_KHR_xcb_surface"@),
        Extension::WaylandSurface.bytes() == encode_utf8("VK_KHR_wayland_surface"@),
        Extension::AndroidSurface.bytes() == encode_utf8("VK_KHR_android_surface"@),
        Extension::Win32Surface.bytes() == encode_utf8("VK_KHR_win32_surface"@),
        Extension::MetalSurface.bytes() == encode_utf8("VK_EXT_metal_surface"@),
        Extension::PortabilityEnumeration.bytes() == encode_utf8(
            "VK_KHR_portability_enumeration"@,
        ),
        Extension::DebugUtils.bytes() == encode_utf8("VK_EXT_debug_utils"@),
        Extension::SwapchainColorspace.bytes() == encode_utf8("VK_EXT_swapchain_colorspace"@),
        Extension::GetPhysicalDeviceProperties2.bytes() == encode_utf8(
            "VK_KHR_get_physical_device_properties2"@,
        ),
        Layer::NvOptimus.bytes() == encode_utf8("VK_LAYER_NV_optimus"@),
        Layer::ObsHook.bytes() == encode_utf8("VK_LAYER_OBS_HOOK"@),
        Layer::KhronosValidation.bytes() == encode_utf8("VK_LAYER_KHRONOS_validation"@),
{
}

/// Surfaces, wide color and the extended queries are asked for everywhere, and got where
/// the driver offers them. So is the messenger, with the debug flag.
pub proof fn common_extensions_are_required(
    listed: Seq<ExtensionProperties>,
    flags: InstanceFlags,
    platform: Platform,
)
    ensures
        ({
            let names = required_names(listed, flags, platform);
            &&& names.contains(encode_utf8("VK_KHR_surface"@)) <==> offers(
                listed,
                "VK_KHR_surface"@,
            )
            &&& names.contains(encode_utf8("VK_EXT_swapchain_colorspace"@)) <==> offers(
                listed,
                "VK_EXT_swapchain_colorspace"@,
            )
            &&& names.contains(encode_utf8("VK_KHR_get_physical_device_properties2"@)) <==> offers(
                listed,
                "VK_KHR_get_physical_device_properties2"@,
            )
            &&& names.contains(encode_utf8("VK_EXT_debug_utils"@)) <==> flags.debug && offers(
                listed,
                "VK_EXT_debug_utils"@,
            )
        }),
{
    decided(listed, flags, platform, Extension::Surface);
    decided(listed, flags, platform, Extension::SwapchainColorspace);
    decided(listed, flags, platform, Extension::GetPhysicalDeviceProperties2);
    decided(listed, flags, platform, Extension::DebugUtils);
}

/// The extensions of the window systems are got on the platforms that have them, where the
/// driver offers them, whatever the flags are.
pub proof fn window_system_extensions_are_required(
    listed: Seq<ExtensionProperties>,
    flags: InstanceFlags,
    platform: Platform,
)
    ensures
        ({
            let names = required_names(listed, flags, platform);
            let desktop = platform.unix && platform.os != TargetOs::Android && platform.os
                != TargetOs::MacOs;
            &&& names.contains(encode_utf8("VK_KHR_xlib_surface"@)) <==> desktop && offers(
                listed,
                "VK_KHR_xlib_surface"@,
            )
            &&& names.contains(encode_utf8("VK_KHR_xcb_surface"@)) <==> desktop && offers(
                listed,
                "VK_KHR_xcb_surface"@,
            )
            &&& names.contains(encode_utf8("VK_KHR_wayland_surface"@)) <==> desktop && offers(
                listed,
                "VK_KHR_wayland_surface"@,
            )
            &&& names.contains(encode_utf8("VK_KHR_android_surface"@)) <==> platform.os
                == TargetOs::Android && offers(listed, "VK_KHR_android_surface"@)
            &&& names.contains(encode_utf8("VK_KHR_win32_surface"@)) <==> platform.os
                == TargetOs::Windows && offers(listed, "VK_KHR_win32_surface"@)
            &&& names.contains(encode_utf8("VK_EXT_metal_surface"@)) <==> platform.os
                == TargetOs::MacOs && offers(listed, "VK_EXT_metal_surface"@)
            &&& names.contains(encode_utf8("VK_KHR_portability_enumeration"@)) <==> platform.os
                == TargetOs::MacOs && offers(listed, "VK_KHR_portability_enumeration"@)
        }),
{
    decided(listed, flags, platform, Extension::XlibSurface);
    decided(listed, flags, platform, Extension::XcbSurface);
    decided(listed, flags, platform, Extension::WaylandSurface);
    decided(listed, flags, platform, Extension::AndroidSurface);
    decided(listed, flags, platform, Extension::Win32Surface);
    decided(listed, flags, platform, Extension::MetalSurface);
    decided(listed, flags, platform, Extension::PortabilityEnumeration);
}

/// An extension is missing if and only if an instance would be created with it, were it
/// offered, and the driver does not offer it.
pub proof fn missing_extensions_are_not_offered(
    listed: Seq<ExtensionProperties>,
    flags: InstanceFlags,
    platform: Platform,
)
    ensures
        ({
            let names = missing_names(listed, flags, platform);
            let desktop = platform.unix && platform.os != TargetOs::Android && platform.os
                != TargetOs::MacOs;
            &&& names.contains(encode_utf8("VK_KHR_surface"@)) <==> !offers(
                listed,
                "VK_KHR_surface"@,
            )
            &&& names.contains(encode_utf8("VK_KHR_xlib_surface"@)) <==> desktop && !offers(
                listed,
                "VK_KHR_xlib_surface"@,
            )
            &&& names.contains(encode_utf8("VK_KHR_xcb_surface"@)) <==> desktop && !offers(
                listed,
                "VK_KHR_xcb_surface"@,
            )
            &&& names.contains(encode_utf8("VK_KHR_wayland_surface"@)) <==> desktop && !offers(
                listed,
                "VK_KHR_wayland_surface"@,
            )
            &&& names.contains(encode_utf8("VK_KHR_android_surface"@)) <==> platform.os
                == TargetOs::Android && !offers(listed, "VK_KHR_android_surface"@)
            &&& names.contains(encode_utf8("VK_KHR_win32_surface"@)) <==> platform.os
                == TargetOs::Windows && !offers(listed, "VK_KHR_win32_surface"@)
            &&& names.contains(encode_utf8("VK_EXT_metal_surface"@)) <==> platform.os
                == TargetOs::MacOs && !offers(listed, "VK_EXT_metal_surface"@)
            &&& names.contains(encode_utf8("VK_KHR_portability_enumeration"@)) <==> platform.os
                == TargetOs::MacOs && !offers(listed, "VK_KHR_portability_enumeration"@)
            &&& names.contains(encode_utf8("VK_EXT_debug_utils"@)) <==> flags.debug && !offers(
                listed,
                "VK_EXT_debug_utils"@,
            )
            &&& names.contains(encode_utf8("VK_EXT_swapchain_colorspace"@)) <==> !offers(
                listed,
                "VK_EXT_swapchain_colorspace"@,
            )
            &&& names.contains(encode_utf8("VK_KHR_get_physical_device_properties2"@)) <==> !offers(
                listed,
                "VK_KHR_get_physical_device_properties2"@,
            )
        }),
{
    decided(listed, flags, platform, Extension::Surface);
    decided(listed, flags, platform, Extension::XlibSurface);
    decided(listed, flags, platform, Extension::XcbSurface);
    decided(listed, flags, platform, Extension::WaylandSurface);
    decided(listed, flags, platform, Extension::AndroidSurface);
    decided(listed, flags, platform, Extension::Win32Surface);
    decided(listed, flags, platform, Extension::MetalSurface);
    decided(listed, flags, platform, Extension::PortabilityEnumeration);
    decided(listed, flags, platform, Extension::DebugUtils);
    decided(listed, flags, platform, Extension::SwapchainColorspace);
    decided(listed, flags, platform, Extension::GetPhysicalDeviceProperties2);
}

/// The names that an instance may be created with, in the order in which they are passed.
pub open spec fn possible_names() -> Seq<Seq<u8>> {
    seq![
        encode_utf8("VK_KHR_surface"@),
        encode_utf8("VK_KHR_xlib_surface"@),
        encode_utf8("VK_KHR_xcb_surface"@),
        encode_utf8("VK_KHR_wayland_surface"@),
        encode_utf8("VK_KHR_android_surface"@),
        encode_utf8("VK_KHR_win32_surface"@),
        encode_utf8("VK_EXT_metal_surface"@),
        encode_utf8("VK_KHR_portability_enumeration"@),
        encode_utf8("VK_EXT_debug_utils"@),
        encode_utf8("VK_EXT_swapchain_colorspace"@),
        encode_utf8("VK_KHR_get_physical_device_properties2"@),
    ]
}

/// Whether the names are some of the possible ones, in order and none twice.
pub open spec fn are_in_order(names: Seq<Seq<u8>>) -> bool {
    &&& forall|i: int| 0 <= i < names.len() ==> possible_names().contains(#[trigger] names[i])
    &&& forall|i: int, j: int, p: int, q: int|
        #![trigger names[i], names[j], possible_names()[p], possible_names()[q]]
        0 <= i < j < names.len() && 0 <= p < possible_names().len() && 0 <= q
            < possible_names().len() && names[i] == possible_names()[p] && names[j]
            == possible_names()[q] ==> p < q
}

spec fn place(extension: Extension) -> int {
    match extension {
        Extension::Surface => 0,
        Extension::XlibSurface => 1,
        Extension::XcbSurface => 2,
        Extension::WaylandSurface => 3,
        Extension::AndroidSurface => 4,
        Extension::Win32Surface => 5,
        Extension::MetalSurface => 6,
        Extension::PortabilityEnumeration => 7,
        Extension::DebugUtils => 8,
        Extension::SwapchainColorspace => 9,
        Extension::GetPhysicalDeviceProperties2 => 10,
    }
}

spec fn at_place(p: int) -> Extension {
    if p == 0 {
        Extension::Surface
    } else if p == 1 {
        Extension::XlibSurface
    } else if p == 2 {
        Extension::XcbSurface
    } else if p == 3 {
        Extension::WaylandSurface
    } else if p == 4 {
        Extension::AndroidSurface
    } else if p == 5 {
        Extension::Win32Surface
    } else if p == 6 {
        Extension::MetalSurface
    } else if p == 7 {
        Extension::PortabilityEnumeration
    } else if p == 8 {
        Extension::DebugUtils
    } else if p == 9 {
        Extension::SwapchainColorspace
    } else {
        Extension::GetPhysicalDeviceProperties2
    }
}

proof fn filter_keeps_places(extensions: Seq<Extension>, keep: spec_fn(Extension) -> bool)
    requires
        forall|i: int, j: int|
            0 <= i < j < extensions.len() ==> place(#[trigger] extensions[i]) < place(
                #[trigger] extensions[j],
            ),
    ensures
        forall|i: int, j: int|
            0 <= i < j < extensions.filter(keep).len() ==> place(
                #[trigger] extensions.filter(keep)[i],
            ) < place(#[trigger] extensions.filter(keep)[j]),
        forall|i: int|
            0 <= i < extensions.filter(keep).len() ==> extensions.contains(
                #[trigger] extensions.filter(keep)[i],
            ),
    decreases extensions.len(),
{
    reveal(Seq::filter);
    if extensions.len() > 0 {
        let rest = extensions.drop_last();
        let last = extensions.last();
        filter_keeps_places(rest, keep);
        assert forall|i: int| 0 <= i < rest.filter(keep).len() implies extensions.contains(
            #[trigger] rest.filter(keep)[i],
        ) && place(rest.filter(keep)[i]) < place(last) by {
            let j = choose|j: int| 0 <= j < rest.len() && rest[j] == rest.filter(keep)[i];
            assert(extensions[j] == rest.filter(keep)[i]);
        }
        assert(extensions[extensions.len() - 1] == last);
    }
}

proof fn kept_names_are_in_order(
    flags: InstanceFlags,
    platform: Platform,
    keep: spec_fn(Extension) -> bool,
)
    ensures
        are_in_order(extension_names(wanted_extensions(flags, platform).filter(keep))),
{
    let wanted = wanted_extensions(flags, platform);
    let kept = wanted.filter(keep);
    let names = extension_names(kept);
    filter_keeps_places(wanted, keep);
    assert forall|i: int| 0 <= i < names.len() implies possible_names().contains(
        #[trigger] names[i],
    ) by {
        assert(possible_names()[place(kept[i])] == kept[i].bytes());
    }
    assert forall|i: int, j: int, p: int, q: int|
        #![trigger names[i], names[j], possible_names()[p], possible_names()[q]]
        0 <= i < j < names.len() && 0 <= p < possible_names().len() && 0 <= q
            < possible_names().len() && names[i] == possible_names()[p] && names[j]
            == possible_names()[q] implies p < q by {
        assert(possible_names()[p] == at_place(p).bytes());
        assert(possible_names()[q] == at_place(q).bytes());
        if at_place(p) != kept[i] {
            extension_names_distinct(at_place(p), kept[i]);
        }
        if at_place(q) != kept[j] {
            extension_names_distinct(at_place(q), kept[j]);
        }
        assert(place(at_place(p)) == p);
        assert(place(at_place(q)) == q);
    }
}

/// Nothing but the possible names is asked for, in their order and none twice; neither is
/// anything else missing.
pub proof fn names_are_in_order(
    listed: Seq<ExtensionProperties>,
    flags: InstanceFlags,
    platform: Platform,
)
    ensures
        are_in_order(required_names(listed, flags, platform)),
        are_in_order(missing_names(listed, flags, platform)),
{
    kept_names_are_in_order(
        flags,
        platform,
        |e: Extension| lists_extension(listed, e.bytes()),
    );
    kept_names_are_in_order(
        flags,
        platform,
        |e: Extension| !lists_extension(listed, e.bytes()),
    );
}

/// A surface of a kind can be asked for if and only if the instance has the extension of
/// that kind, and then it is asked for as it is.
pub proof fn surfaces_need_their_extension<E, R, G>(
    shared: InstanceShared<E, R, G>,
    info: SurfaceCreateInfo,
)
    ensures
        ({
            let names = views(shared.extensions@);
            let answer = surface_request(shared, info);
            let possible = match info {
                SurfaceCreateInfo::Wayland { .. } => names.contains(
                    encode_utf8("VK_KHR_wayland_surface"@),
                ),
                SurfaceCreateInfo::Xlib { .. } => names.contains(
                    encode_utf8("VK_KHR_xlib_surface"@),
                ),
                SurfaceCreateInfo::Xcb { .. } => names.contains(encode_utf8("VK_KHR_xcb_surface"@)),
                SurfaceCreateInfo::Android { .. } => names.contains(
                    encode_utf8("VK_KHR_android_surface"@),
                ),
                SurfaceCreateInfo::Win32 { .. } => names.contains(
                    encode_utf8("VK_KHR_win32_surface"@),
                ),
                SurfaceCreateInfo::Metal { .. } => names.contains(
                    encode_utf8("VK_EXT_metal_surface"@),
                ),
            };
            &&& possible ==> answer == Ok::<SurfaceCreateInfo, InstanceError>(info)
            &&& !possible ==> answer == Err::<SurfaceCreateInfo, InstanceError>(InstanceError)
        }),
{
}

/// There is a surface for a window if and only if the window goes with its display, or is
/// of the platform's own kind. A window of Android needs neither.
pub proof fn windows_have_surfaces(
    display_handle: DisplayHandle,
    window_handle: WindowHandle,
    platform: Platform,
    module: usize,
)
    ensures
        surface_for(display_handle, window_handle, platform, module) is Some <==> {
            ||| window_handle is Wayland && display_handle is Wayland
            ||| window_handle is Xlib && display_handle is Xlib
            ||| window_handle is Xcb && display_handle is Xcb
            ||| window_handle is AndroidNdk
            ||| window_handle is Win32 && platform.os == TargetOs::Windows
            ||| window_handle is AppKit && platform.os == TargetOs::MacOs
            ||| window_handle is UiKit && platform.os == TargetOs::Ios
        },
{
}

/// A window is answered with a request that holds its own handles if there is a surface for
/// it and the instance has the extension, and with an error if not.
pub proof fn windows_are_answered_like_this<E, R, G>(
    shared: InstanceShared<E, R, G>,
    display_handle: DisplayHandle,
    window_handle: WindowHandle,
    platform: Platform,
    module: usize,
)
    ensures
        ({
            let names = views(shared.extensions@);
            let answer = surface_answer(shared, display_handle, window_handle, platform, module);
            let expected = match window_handle {
                WindowHandle::Wayland { surface } => if display_handle is Wayland && names.contains(
                    encode_utf8("VK_KHR_wayland_surface"@),
                ) {
                    Some(
                        SurfaceCreateInfo::Wayland {
                            display: display_handle->Wayland_display,
                            surface,
                        },
                    )
                } else {
                    None
                },
                WindowHandle::Xlib { window } => if display_handle is Xlib && names.contains(
                    encode_utf8("VK_KHR_xlib_surface"@),
                ) {
                    Some(SurfaceCreateInfo::Xlib { dpy: display_handle->Xlib_display, window })
                } else {
                    None
                },
                WindowHandle::Xcb { window } => if display_handle is Xcb && names.contains(
                    encode_utf8("VK_KHR_xcb_surface"@),
                ) {
                    Some(
                        SurfaceCreateInfo::Xcb {
                            connection: display_handle->Xcb_connection,
                            window,
                        },
                    )
                } else {
                    None
                },
                WindowHandle::AndroidNdk { a_native_window } => if names.contains(
                    encode_utf8("VK_KHR_android_surface"@),
                ) {
                    Some(SurfaceCreateInfo::Android { window: a_native_window })
                } else {
                    None
                },
                WindowHandle::Win32 { hwnd } => if platform.os == TargetOs::Windows
                    && names.contains(encode_utf8("VK_KHR_win32_surface"@)) {
                    Some(SurfaceCreateInfo::Win32 { hinstance: module, hwnd })
                } else {
                    None
                },
                WindowHandle::AppKit { ns_view } => if platform.os == TargetOs::MacOs
                    && names.contains(encode_utf8("VK_EXT_metal_surface"@)) {
                    Some(SurfaceCreateInfo::Metal { view: ns_view })
                } else {
                    None
                },
                WindowHandle::UiKit { ui_view } => if platform.os == TargetOs::Ios
                    && names.contains(encode_utf8("VK_EXT_metal_surface"@)) {
                    Some(SurfaceCreateInfo::Metal { view: ui_view })
                } else {
                    None
                },
                WindowHandle::Other => None,
            };
            &&& answer is Ok <==> expected is Some
            &&& answer matches Ok(info) ==> expected == Some(info)
        }),
{
}

/// The extensions are those required, if and only if the driver could list any.
pub proof fn listings_are_answered_like_this(
    extensions: Result<Vec<CName>, InstanceError>,
    enumerated: Result<Vec<ExtensionProperties>, i32>,
    flags: InstanceFlags,
    platform: Platform,
)
    requires
        are_required(extensions, enumerated, flags, platform),
    ensures
        enumerated is Err ==> extensions is Err,
        enumerated matches Ok(listed) ==> extensions is Ok && views(extensions->Ok_0@)
            == required_names(listed@, flags, platform),
{
}

/// An instance that is taken over keeps what it is given. It has the extended queries if
/// and only if it has their extension, and no messenger yet.
pub proof fn instances_keep_what_they_are_given<E, R, G>(
    pending: PendingInstance<E, R, G>,
    entry: E,
    raw_instance: R,
    driver_api_version: u32,
    android_sdk_version: u32,
    debug_utils_user_data: Option<DebugUtilsMessengerUserData>,
    extensions: Vec<CName>,
    flags: InstanceFlags,
    has_nv_optimus: bool,
    drop_guard: Option<G>,
)
    requires
        is_taken_over(
            pending,
            entry,
            raw_instance,
            driver_api_version,
            android_sdk_version,
            debug_utils_user_data,
            extensions,
            flags,
            has_nv_optimus,
            drop_guard,
        ),
    ensures
        pending.shared.entry == entry,
        pending.shared.raw == raw_instance,
        pending.shared.driver_api_version == driver_api_version,
        pending.shared.android_sdk_version == android_sdk_version,
        pending.shared.extensions == extensions,
        pending.shared.flags == flags,
        pending.shared.has_nv_optimus == has_nv_optimus,
        pending.shared.drop_guard == drop_guard,
        pending.shared.debug_utils is None,
        pending.shared.get_physical_device_properties <==> views(extensions@).contains(
            encode_utf8("VK_KHR_get_physical_device_properties2"@),
        ),
        pending.messenger is Some <==> debug_utils_user_data is Some && views(
            extensions@,
        ).contains(encode_utf8("VK_EXT_debug_utils"@)),
        pending.messenger matches Some(request) ==> Some(*request.callback_data)
            == debug_utils_user_data,
{
}

/// The messenger of an instance that is taken over follows the log filter that the process
/// has set: it reports errors always, and warnings, infos and verbose messages if and only
/// if that very filter lets them through.
pub proof fn messenger_follows_the_process<E, R, G>(
    pending: PendingInstance<E, R, G>,
    entry: E,
    raw_instance: R,
    driver_api_version: u32,
    android_sdk_version: u32,
    debug_utils_user_data: Option<DebugUtilsMessengerUserData>,
    extensions: Vec<CName>,
    flags: InstanceFlags,
    has_nv_optimus: bool,
    drop_guard: Option<G>,
)
    requires
        is_taken_over(
            pending,
            entry,
            raw_instance,
            driver_api_version,
            android_sdk_version,
            debug_utils_user_data,
            extensions,
            flags,
            has_nv_optimus,
            drop_guard,
        ),
        pending.messenger is Some,
    ensures
        pending.messenger->0.filter is Some,
        ({
            let set = pending.messenger->0.filter->0@;
            let severity = pending.messenger->0.create_info.message_severity;
            &&& severity & 0x1000 != 0
            &&& severity & 0x100 != 0 <==> set != LevelFilter::Off && set != LevelFilter::Error
            &&& severity & 0x10 != 0 <==> set != LevelFilter::Off && set != LevelFilter::Error
                && set != LevelFilter::Warn
            &&& severity & 0x1 != 0 <==> set == LevelFilter::Debug || set == LevelFilter::Trace
            &&& severity & 0xffffeeee == 0
            &&& pending.messenger->0.create_info.message_type == 0x7
            &&& pending.messenger->0.create_info.flags == 0
        }),
{
    let request = pending.messenger->0;
    messengers_follow_the_filter(request.create_info, request.filter->0@);
}

/// What an instance owns is released in this order: the messenger is destroyed and its
/// callback data freed, if there is one; then the driver's instance is destroyed and the
/// guard dropped, if there is one.
pub proof fn releases_come_in_order<E, R, G>(shared: InstanceShared<E, R, G>)
    ensures
        ({
            let order = release_order(shared);
            let n = if shared.debug_utils is Some { 2int } else { 0 };
            &&& order.len() == n + if shared.drop_guard is Some { 2int } else { 0 }
            &&& shared.debug_utils matches Some(du) ==> {
                &&& order[0] == (ReleaseAction::<G>::DestroyMessenger { messenger: du.messenger })
                &&& order[1] == (ReleaseAction::<G>::FreeCallbackData {
                    callback_data: du.callback_data,
                })
            }
            &&& shared.drop_guard matches Some(guard) ==> {
                &&& order[n] == ReleaseAction::<G>::DestroyInstance
                &&& order[n + 1] == (ReleaseAction::<G>::DropGuard { drop_guard: guard })
            }
        }),
{
}

/// An instance is completed with its messenger, and with nothing else.
pub proof fn completing_adds_the_messenger_alone<E, R, G>(
    pending: PendingInstance<E, R, G>,
    messenger: Option<u64>,
)
    requires
        messenger is Some <==> pending.messenger is Some,
    ensures
        ({
            let done = completed(pending, messenger);
            &&& done.entry == pending.shared.entry
            &&& done.raw == pending.shared.raw
            &&& done.extensions == pending.shared.extensions
            &&& done.drop_guard == pending.shared.drop_guard
            &&& done.flags == pending.shared.flags
            &&& done.get_physical_device_properties
                == pending.shared.get_physical_device_properties
            &&& done.has_nv_optimus == pending.shared.has_nv_optimus
            &&& done.driver_api_version == pending.shared.driver_api_version
            &&& done.android_sdk_version == pending.shared.android_sdk_version
            &&& done.debug_utils is Some <==> messenger is Some
            &&& done.debug_utils matches Some(du) ==> Some(du.messenger) == messenger
                && du.callback_data == pending.messenger->0.callback_data
        }),
{
}

} // verus!
