//! What holds of the instance, its creation and its surfaces as a whole.

use vstd::prelude::*;

use crate::adapter::INTEL_VENDOR;
use crate::debug::{
    is_suppressed, report_lines, wants_messenger, DebugUtilsMessengerUserData,
    MessengerCallbackData, VUID_VKSWAPCHAINCREATEINFOKHR_IMAGEEXTENT_01274,
};
use crate::driver::{enumerate_portability, version_number};
use crate::extension::{extension_names_distinct, Extension, Layer};
use crate::init::{
    enables_validation, is_application_info, is_failure, is_finished, is_named, is_plan,
    is_user_data, lists_layer, plan_of, requested_version, sdk_version, version_of,
    ApplicationInfo, InitEvent, InitStage, InstanceDescriptor, InstancePlan, LayerProperties,
};
use crate::instance::{
    completed, extension_names, is_taken_over, listed_among, lists_extension, missing_names,
    release_order, required_names, surface_request, wanted_extensions, ExtensionProperties,
    InstanceFlags, InstanceShared, PendingInstance, ReleaseAction,
};
use crate::names::{until_nul, views, CName};
use crate::platform::{Platform, TargetOs};
use crate::surface::{
    acquire_timeout, replace_actions, unconfigure_actions, AcquireEvent, AcquireStage,
    AcquiredSurfaceTexture, Surface, Swapchain,
};
use crate::window::{surface_for, DisplayHandle, SurfaceCreateInfo, WindowHandle};

verus! {

/// A name that is written into a buffer, followed by a zero byte and anything else,
/// is read back.
pub proof fn name_reads_back(name: Seq<u8>, rest: Seq<u8>)
    requires
        !name.contains(0u8),
    ensures
        until_nul(name.push(0u8) + rest) == Some(name),
{
    let buffer = name.push(0u8) + rest;
    buffer.index_of_first_ensures(0u8);
    assert(buffer[name.len() as int] == 0u8);
    let end = buffer.index_of_first(0u8)->0;
    if end < name.len() {
        assert(name[end] == 0u8);
    }
    assert(buffer.take(name.len() as int) =~= name);
}

/// What is read out of a buffer holds no zero byte, and the buffer starts with it.
pub proof fn name_read_is_a_prefix(buffer: Seq<u8>)
    ensures
        until_nul(buffer) is Some <==> buffer.contains(0u8),
        until_nul(buffer) matches Some(name) ==> {
            &&& !name.contains(0u8)
            &&& name.is_prefix_of(buffer)
        },
{
    buffer.index_of_first_ensures(0u8);
}

/// No extension is wanted twice.
proof fn wanted_has_no_duplicates(flags: InstanceFlags, platform: Platform)
    ensures
        wanted_extensions(flags, platform).no_duplicates(),
{
}

/// Names tell extensions apart: a name is among those that are kept if and only if its
/// extension is.
proof fn filtered_names_contain(
    extensions: Seq<Extension>,
    keep: spec_fn(Extension) -> bool,
    extension: Extension,
)
    ensures
        extension_names(extensions.filter(keep)).contains(extension.bytes()) <==> {
            &&& extensions.contains(extension)
            &&& keep(extension)
        },
{
    let kept = extensions.filter(keep);
    let names = extension_names(kept);
    if names.contains(extension.bytes()) {
        let i = choose|i: int| 0 <= i < names.len() && names[i] == extension.bytes();
        assert(kept[i].bytes() == extension.bytes());
        if kept[i] != extension {
            extension_names_distinct(kept[i], extension);
        }
        assert(kept.contains(extension));
        extensions.lemma_filter_contains_rev(keep, extension);
        extensions.lemma_filter_pred(keep, i);
    }
    if extensions.contains(extension) && keep(extension) {
        let i = choose|i: int| 0 <= i < extensions.len() && extensions[i] == extension;
        extensions.lemma_filter_contains(keep, i);
        let j = choose|j: int| 0 <= j < kept.len() && kept[j] == extension;
        assert(names[j] == extension.bytes());
    }
}

/// An instance is created with an extension if and only if the extension is wanted
/// and the driver lists it.
pub proof fn required_iff_wanted_and_listed(
    listed: Seq<ExtensionProperties>,
    flags: InstanceFlags,
    platform: Platform,
    extension: Extension,
)
    ensures
        required_names(listed, flags, platform).contains(extension.bytes()) <==> {
            &&& wanted_extensions(flags, platform).contains(extension)
            &&& lists_extension(listed, extension.bytes())
        },
{
    filtered_names_contain(
        wanted_extensions(flags, platform),
        |e: Extension| lists_extension(listed, e.bytes()),
        extension,
    );
}

/// An extension is missing if and only if it is wanted and the driver does not list it.
pub proof fn missing_iff_wanted_and_not_listed(
    listed: Seq<ExtensionProperties>,
    flags: InstanceFlags,
    platform: Platform,
    extension: Extension,
)
    ensures
        missing_names(listed, flags, platform).contains(extension.bytes()) <==> {
            &&& wanted_extensions(flags, platform).contains(extension)
            &&& !lists_extension(listed, extension.bytes())
        },
{
    filtered_names_contain(
        wanted_extensions(flags, platform),
        |e: Extension| !lists_extension(listed, e.bytes()),
        extension,
    );
}

/// Every extension that is wanted is either required or missing, and no extension is
/// both.
pub proof fn wanted_is_required_or_missing(
    listed: Seq<ExtensionProperties>,
    flags: InstanceFlags,
    platform: Platform,
    extension: Extension,
)
    ensures
        wanted_extensions(flags, platform).contains(extension) <==> {
            ||| required_names(listed, flags, platform).contains(extension.bytes())
            ||| missing_names(listed, flags, platform).contains(extension.bytes())
        },
        !(required_names(listed, flags, platform).contains(extension.bytes())
            && missing_names(listed, flags, platform).contains(extension.bytes())),
{
    required_iff_wanted_and_listed(listed, flags, platform, extension);
    missing_iff_wanted_and_not_listed(listed, flags, platform, extension);
}

/// Every name that an instance is created with is that of an extension that is
/// wanted, and is listed by the driver.
pub proof fn required_names_are_listed(
    listed: Seq<ExtensionProperties>,
    flags: InstanceFlags,
    platform: Platform,
    name: Seq<u8>,
)
    requires
        required_names(listed, flags, platform).contains(name),
    ensures
        lists_extension(listed, name),
        exists|extension: Extension|
            name == extension.bytes() && #[trigger] wanted_extensions(
                flags,
                platform,
            ).contains(extension),
{
    let names = required_names(listed, flags, platform);
    let kept = listed_among(wanted_extensions(flags, platform), listed);
    let i = choose|i: int| 0 <= i < names.len() && names[i] == name;
    assert(names[i] == kept[i].bytes());
    required_iff_wanted_and_listed(listed, flags, platform, kept[i]);
}

proof fn filter_keeps_no_duplicates(extensions: Seq<Extension>, keep: spec_fn(Extension) -> bool)
    requires
        extensions.no_duplicates(),
    ensures
        extensions.filter(keep).no_duplicates(),
    decreases extensions.len(),
{
    reveal(Seq::filter);
    if extensions.len() > 0 {
        let rest = extensions.drop_last();
        filter_keeps_no_duplicates(rest, keep);
        if rest.filter(keep).contains(extensions.last()) {
            rest.lemma_filter_contains_rev(keep, extensions.last());
            let i = choose|i: int| 0 <= i < rest.len() && rest[i] == extensions.last();
            assert(extensions[i] == extensions[extensions.len() - 1]);
        }
    }
}

/// An instance is created with no extension twice.
pub proof fn required_names_are_distinct(
    listed: Seq<ExtensionProperties>,
    flags: InstanceFlags,
    platform: Platform,
)
    ensures
        required_names(listed, flags, platform).no_duplicates(),
{
    let wanted = wanted_extensions(flags, platform);
    let keep = |e: Extension| lists_extension(listed, e.bytes());
    wanted_has_no_duplicates(flags, platform);
    filter_keeps_no_duplicates(wanted, keep);
    let kept = wanted.filter(keep);
    let names = required_names(listed, flags, platform);
    assert forall|i: int, j: int|
        0 <= i < names.len() && 0 <= j < names.len() && i != j implies names[i] != names[j] by {
        assert(kept[i] != kept[j]);
        extension_names_distinct(kept[i], kept[j]);
    }
}

/// A driver that lists more extensions never makes an instance lose one.
pub proof fn listing_more_loses_nothing(
    listed: Seq<ExtensionProperties>,
    more: Seq<ExtensionProperties>,
    flags: InstanceFlags,
    platform: Platform,
    name: Seq<u8>,
)
    requires
        forall|n: Seq<u8>| lists_extension(listed, n) ==> #[trigger] lists_extension(more, n),
        required_names(listed, flags, platform).contains(name),
    ensures
        required_names(more, flags, platform).contains(name),
{
    required_names_are_listed(listed, flags, platform, name);
    let extension = choose|extension: Extension|
        name == extension.bytes() && #[trigger] wanted_extensions(
            flags,
            platform,
        ).contains(extension);
    required_iff_wanted_and_listed(more, flags, platform, extension);
}

proof fn filter_twice(
    extensions: Seq<Extension>,
    first: spec_fn(Extension) -> bool,
    second: spec_fn(Extension) -> bool,
)
    ensures
        extensions.filter(first).filter(second) == extensions.filter(
            |e: Extension| first(e) && second(e),
        ),
    decreases extensions.len(),
{
    reveal(Seq::filter);
    if extensions.len() > 0 {
        let rest = extensions.drop_last();
        filter_twice(rest, first, second);
        if first(extensions.last()) {
            assert(extensions.filter(first).drop_last() =~= rest.filter(first));
        }
    }
}

/// Drivers that list the same names, in whatever order and however often, give the same
/// list of extensions.
pub proof fn listing_the_same_gives_the_same(
    listed: Seq<ExtensionProperties>,
    other: Seq<ExtensionProperties>,
    flags: InstanceFlags,
    platform: Platform,
)
    requires
        forall|n: Seq<u8>| lists_extension(listed, n) == #[trigger] lists_extension(other, n),
    ensures
        required_names(listed, flags, platform) == required_names(other, flags, platform),
        missing_names(listed, flags, platform) == missing_names(other, flags, platform),
{
    assert((|e: Extension| lists_extension(listed, e.bytes())) =~= (|e: Extension|
        lists_extension(other, e.bytes())));
    assert((|e: Extension| !lists_extension(listed, e.bytes())) =~= (|e: Extension|
        !lists_extension(other, e.bytes())));
}

/// Where a driver lists more, the list of extensions only gets longer: what is required
/// where it lists less is what remains of the longer list, in the same order.
pub proof fn listing_more_keeps_the_order(
    listed: Seq<ExtensionProperties>,
    more: Seq<ExtensionProperties>,
    flags: InstanceFlags,
    platform: Platform,
)
    requires
        forall|n: Seq<u8>| lists_extension(listed, n) ==> #[trigger] lists_extension(more, n),
    ensures
        required_names(listed, flags, platform) == extension_names(
            listed_among(listed_among(wanted_extensions(flags, platform), more), listed),
        ),
{
    let in_listed = |e: Extension| lists_extension(listed, e.bytes());
    let in_more = |e: Extension| lists_extension(more, e.bytes());
    filter_twice(wanted_extensions(flags, platform), in_more, in_listed);
    assert((|e: Extension| in_more(e) && in_listed(e)) =~= in_listed);
}

/// Without the debug flag, the list of extensions is the one with it but for that of the
/// messenger, in the same order. The flag for validation does not change the list.
pub proof fn debug_flag_adds_the_messenger_alone(
    listed: Seq<ExtensionProperties>,
    plain: InstanceFlags,
    debugging: InstanceFlags,
    platform: Platform,
)
    requires
        !plain.debug,
        debugging.debug,
    ensures
        required_names(listed, plain, platform) == extension_names(
            listed_among(wanted_extensions(debugging, platform), listed).filter(
                |e: Extension| e != Extension::DebugUtils,
            ),
        ),
{
    let is_listed = |e: Extension| lists_extension(listed, e.bytes());
    let is_other = |e: Extension| e != Extension::DebugUtils;
    let wanted = wanted_extensions(debugging, platform);
    assert(wanted.filter(is_other) =~= wanted_extensions(plain, platform)) by {
        reveal_with_fuel(Seq::filter, 9);
    }
    filter_twice(wanted, is_other, is_listed);
    filter_twice(wanted, is_listed, is_other);
    assert((|e: Extension| is_other(e) && is_listed(e)) =~= (|e: Extension|
        is_listed(e) && is_other(e)));
}

/// The flags decide on no other extension than that of the debug messenger.
pub proof fn flags_decide_only_on_debug_utils(
    listed: Seq<ExtensionProperties>,
    flags: InstanceFlags,
    other: InstanceFlags,
    platform: Platform,
    extension: Extension,
)
    requires
        extension != Extension::DebugUtils || flags.debug == other.debug,
    ensures
        required_names(listed, flags, platform).contains(extension.bytes())
            == required_names(listed, other, platform).contains(extension.bytes()),
{
    required_iff_wanted_and_listed(listed, flags, platform, extension);
    required_iff_wanted_and_listed(listed, other, platform, extension);
    wanted_iff(flags, platform, extension);
    wanted_iff(other, platform, extension);
}

/// Which extensions are wanted.
pub open spec fn is_wanted(flags: InstanceFlags, platform: Platform, extension: Extension) -> bool {
    match extension {
        Extension::Surface => true,
        Extension::XlibSurface => platform.is_desktop_unix(),
        Extension::XcbSurface => platform.is_desktop_unix(),
        Extension::WaylandSurface => platform.is_desktop_unix(),
        Extension::AndroidSurface => platform.os == TargetOs::Android,
        Extension::Win32Surface => platform.os == TargetOs::Windows,
        Extension::MetalSurface => platform.os == TargetOs::MacOs,
        Extension::PortabilityEnumeration => platform.os == TargetOs::MacOs,
        Extension::DebugUtils => flags.debug,
        Extension::SwapchainColorspace => true,
        Extension::GetPhysicalDeviceProperties2 => true,
    }
}

/// The platform alone calls for the extensions of its window systems, the debug flag
/// alone for that of the messenger, and three are always called for.
pub proof fn wanted_iff(flags: InstanceFlags, platform: Platform, extension: Extension)
    ensures
        wanted_extensions(flags, platform).contains(extension) <==> is_wanted(
            flags,
            platform,
            extension,
        ),
{
    let wanted = wanted_extensions(flags, platform);
    let s1 = if platform.is_desktop_unix() { 3int } else { 0 };
    let s2 = s1 + if platform.os == TargetOs::Android { 1int } else { 0 };
    let s3 = s2 + if platform.os == TargetOs::Windows { 1int } else { 0 };
    let s4 = s3 + if platform.os == TargetOs::MacOs { 2int } else { 0 };
    let s5 = s4 + if flags.debug { 1int } else { 0 };
    assert(wanted[0] == Extension::Surface);
    if platform.is_desktop_unix() {
        assert(wanted[1] == Extension::XlibSurface);
        assert(wanted[2] == Extension::XcbSurface);
        assert(wanted[3] == Extension::WaylandSurface);
    }
    if platform.os == TargetOs::Android {
        assert(wanted[1 + s1] == Extension::AndroidSurface);
    }
    if platform.os == TargetOs::Windows {
        assert(wanted[1 + s2] == Extension::Win32Surface);
    }
    if platform.os == TargetOs::MacOs {
        assert(wanted[1 + s3] == Extension::MetalSurface);
        assert(wanted[2 + s3] == Extension::PortabilityEnumeration);
    }
    if flags.debug {
        assert(wanted[1 + s4] == Extension::DebugUtils);
    }
    assert(wanted[1 + s5] == Extension::SwapchainColorspace);
    assert(wanted[2 + s5] == Extension::GetPhysicalDeviceProperties2);
}

/// Whether an instance was created with the extensions that are required, and no others.
pub open spec fn is_created_with_required<E, R, G>(
    shared: InstanceShared<E, R, G>,
    listed: Seq<ExtensionProperties>,
    platform: Platform,
) -> bool {
    views(shared.extensions@) == required_names(listed, shared.flags, platform)
}

/// A surface can be asked of an instance only where the driver lists the extension for
/// it and the platform has windows of that kind.
pub proof fn surface_needs_listed_extension<E, R, G>(
    shared: InstanceShared<E, R, G>,
    listed: Seq<ExtensionProperties>,
    platform: Platform,
    info: SurfaceCreateInfo,
)
    requires
        is_created_with_required(shared, listed, platform),
    ensures
        surface_request(shared, info) is Ok <==> {
            &&& is_wanted(shared.flags, platform, info.extension())
            &&& lists_extension(listed, info.extension().bytes())
        },
{
    required_iff_wanted_and_listed(listed, shared.flags, platform, info.extension());
    wanted_iff(shared.flags, platform, info.extension());
}

/// A surface that is asked for is for the window that was given, and never for a window
/// of one system with the display of another.
pub proof fn surface_fits_window(
    display_handle: DisplayHandle,
    window_handle: WindowHandle,
    platform: Platform,
    module: usize,
)
    ensures
        match surface_for(display_handle, window_handle, platform, module) {
            Some(SurfaceCreateInfo::Wayland { display, surface }) => display_handle == (
            DisplayHandle::Wayland { display }) && window_handle == (WindowHandle::Wayland {
                surface,
            }),
            Some(SurfaceCreateInfo::Xlib { dpy, window }) => display_handle == (
            DisplayHandle::Xlib { display: dpy }) && window_handle == (WindowHandle::Xlib {
                window,
            }),
            Some(SurfaceCreateInfo::Xcb { connection, window }) => display_handle == (
            DisplayHandle::Xcb { connection }) && window_handle == (WindowHandle::Xcb { window }),
            Some(SurfaceCreateInfo::Android { window }) => window_handle == (
            WindowHandle::AndroidNdk { a_native_window: window }),
            Some(SurfaceCreateInfo::Win32 { hinstance, hwnd }) => hinstance == module
                && window_handle == (WindowHandle::Win32 { hwnd }) && platform.os
                == TargetOs::Windows,
            Some(SurfaceCreateInfo::Metal { view }) => {
                ||| window_handle == (WindowHandle::AppKit { ns_view: view }) && platform.os
                    == TargetOs::MacOs
                ||| window_handle == (WindowHandle::UiKit { ui_view: view }) && platform.os
                    == TargetOs::Ios
            },
            None => true,
        },
{
}

/// An instance that was taken over is released in this order, each step once: its
/// messenger is destroyed if one was created, which is where there was callback data for
/// it and the extension was there; then the callback data is freed; then, if a guard was
/// given, the driver's instance is destroyed; and the guard is dropped last.
pub proof fn instance_is_released_in_order<E, R, G>(
    pending: PendingInstance<E, R, G>,
    entry: E,
    raw_instance: R,
    driver_api_version: u32,
    android_sdk_version: u32,
    debug_utils_user_data: Option<DebugUtilsMessengerUserData>,
    extensions: Vec<CName>,
    flags: InstanceFlags,
    has_nv_optimus: bool,
    drop_guard: Option<G>,
    messenger: Option<u64>,
)
    requires
        is_taken_over(
            pending,
            entry,
            raw_instance,
            driver_api_version,
            android_sdk_version,
            debug_utils_user_data,
            extensions,
            flags,
            has_nv_optimus,
            drop_guard,
        ),
        messenger is Some <==> pending.messenger is Some,
    ensures
        completed(pending, messenger).raw == raw_instance,
        messenger is Some <==> wants_messenger(debug_utils_user_data, views(extensions@)),
        release_order(completed(pending, messenger)) == (match messenger {
            Some(handle) => seq![
                ReleaseAction::DestroyMessenger { messenger: handle },
                ReleaseAction::FreeCallbackData {
                    callback_data: Box::new(debug_utils_user_data->0),
                },
            ],
            None => Seq::empty(),
        }) + (match drop_guard {
            Some(guard) => seq![
                ReleaseAction::DestroyInstance,
                ReleaseAction::DropGuard { drop_guard: guard },
            ],
            None => Seq::empty(),
        }),
        release_order(completed(pending, messenger)).no_duplicates(),
{
}

/// The driver's instance is destroyed if and only if there is a guard, and a messenger if
/// and only if it is the instance's own.
pub proof fn release_destroys_what_is_owned<E, R, G>(shared: InstanceShared<E, R, G>, handle: u64)
    ensures
        release_order(shared).contains(ReleaseAction::DestroyInstance)
            <==> shared.drop_guard is Some,
        release_order(shared).contains(ReleaseAction::DestroyMessenger { messenger: handle })
            <==> (shared.debug_utils matches Some(du) && du.messenger == handle),
{
    let order = release_order(shared);
    if shared.drop_guard is Some {
        assert(order[order.len() - 2] == ReleaseAction::<G>::DestroyInstance);
    }
    if shared.debug_utils is Some {
        assert(order[0] == (ReleaseAction::<G>::DestroyMessenger {
            messenger: shared.debug_utils->0.messenger,
        }));
    }
}

/// What an instance owns is released once: there is nothing left to do after it was
/// given up.
pub proof fn resources_are_taken_once<E, R, G>(
    before: InstanceShared<E, R, G>,
    after: InstanceShared<E, R, G>,
)
    requires
        after == (InstanceShared { debug_utils: None, drop_guard: None, ..before }),
    ensures
        release_order(after).len() == 0,
        (InstanceShared { debug_utils: None, drop_guard: None, ..after }) == after,
{
}

/// The version that is asked of a driver is never above the driver's own where that is
/// below 1.1, and never above 1.3.251.
pub proof fn requested_version_is_supported(driver_api_version: int)
    requires
        driver_api_version >= version_number(1, 0, 0),
    ensures
        driver_api_version < version_number(1, 1, 0)
            ==> requested_version(driver_api_version) <= driver_api_version,
        requested_version(driver_api_version) <= version_number(1, 3, 251),
{
}

/// How many events are still to come at most.
pub open spec fn init_events_left(stage: InitStage) -> nat {
    match stage {
        InitStage::LoadEntry => 6,
        InitStage::EnumerateVersion => 5,
        InitStage::EnumerateExtensions { .. } => 4,
        InitStage::EnumerateLayers { .. } => 3,
        InitStage::ReadSdkVersion { .. } => 2,
        InitStage::CreateInstance { .. } => 1,
        InitStage::Created { .. } => 0,
        InitStage::Failed(_) => 0,
    }
}

/// The creation of an instance comes to an end: each event brings it nearer, and once
/// it has ended no event is expected.
pub proof fn init_comes_to_an_end(
    descriptor: InstanceDescriptor,
    platform: Platform,
    stage: InitStage,
    event: InitEvent,
    next: InitStage,
)
    requires
        crate::init::expects(descriptor, stage, event),
        crate::init::leads_to(descriptor, platform, stage, event, next),
    ensures
        init_events_left(next) < init_events_left(stage),
        init_events_left(stage) > 0,
{
}

/// The creation fails if and only if one of the driver's answers is a failure.
pub proof fn init_fails_iff_an_answer_does(
    descriptor: InstanceDescriptor,
    platform: Platform,
    stage: InitStage,
    event: InitEvent,
    next: InitStage,
)
    requires
        crate::init::expects(descriptor, stage, event),
        crate::init::leads_to(descriptor, platform, stage, event, next),
    ensures
        next is Failed <==> is_failure(event),
{
}

/// Whether the stages are those that the creation of an instance goes through on the
/// given events.
pub open spec fn is_run(
    descriptor: InstanceDescriptor,
    platform: Platform,
    stages: Seq<InitStage>,
    events: Seq<InitEvent>,
) -> bool {
    &&& stages.len() == events.len() + 1
    &&& stages[0] == InitStage::LoadEntry
    &&& forall|i: int|
        0 <= i < events.len() ==> crate::init::expects(descriptor, stages[i], #[trigger] events[i])
            && crate::init::leads_to(descriptor, platform, stages[i], events[i], stages[i + 1])
}

proof fn run_uses_up_events(
    descriptor: InstanceDescriptor,
    platform: Platform,
    stages: Seq<InitStage>,
    events: Seq<InitEvent>,
    i: int,
)
    requires
        is_run(descriptor, platform, stages, events),
        0 <= i <= events.len(),
    ensures
        i + init_events_left(stages[i]) <= 6,
    decreases i,
{
    if i > 0 {
        run_uses_up_events(descriptor, platform, stages, events, i - 1);
        init_comes_to_an_end(descriptor, platform, stages[i - 1], events[i - 1], stages[i]);
    }
}

/// No creation takes more than six answers.
pub proof fn run_is_short(
    descriptor: InstanceDescriptor,
    platform: Platform,
    stages: Seq<InitStage>,
    events: Seq<InitEvent>,
)
    requires
        is_run(descriptor, platform, stages, events),
    ensures
        events.len() <= 6,
{
    run_uses_up_events(descriptor, platform, stages, events, events.len() as int);
}

/// A creation ends with the first answer that is a failure, and fails for no other
/// reason.
pub proof fn run_ends_at_the_first_failure(
    descriptor: InstanceDescriptor,
    platform: Platform,
    stages: Seq<InitStage>,
    events: Seq<InitEvent>,
)
    requires
        is_run(descriptor, platform, stages, events),
        events.len() > 0,
    ensures
        stages.last() is Failed <==> is_failure(events.last()),
        forall|i: int| 0 <= i < events.len() - 1 ==> !is_failure(#[trigger] events[i]),
{
    let last = events.len() - 1;
    init_fails_iff_an_answer_does(
        descriptor,
        platform,
        stages[last],
        events[last],
        stages[last + 1],
    );
    assert forall|i: int| 0 <= i < events.len() - 1 implies !is_failure(#[trigger] events[i]) by {
        init_fails_iff_an_answer_does(descriptor, platform, stages[i], events[i], stages[i + 1]);
        assert(crate::init::expects(descriptor, stages[i + 1], events[i + 1]));
    }
}

/// An instance that was created is the one that the descriptor and the driver's answers
/// call for: the version, the extensions and the layers are those that the driver told,
/// and the version of the SDK is the system's on Android and zero elsewhere.
pub proof fn created_instance_follows_the_answers(
    descriptor: InstanceDescriptor,
    platform: Platform,
    stages: Seq<InitStage>,
    events: Seq<InitEvent>,
)
    requires
        is_run(descriptor, platform, stages, events),
        stages.last() is Created,
    ensures
        events.len() == if platform.os == TargetOs::Android {
            6int
        } else {
            5
        },
        events[1] matches InitEvent::Version(Ok(version)) && plan_of(
            stages.last(),
        ).driver_api_version == version_of(version),
        is_application_info(
            plan_of(stages.last()).application_info,
            descriptor.name@,
            plan_of(stages.last()).driver_api_version,
        ),
        events[2] matches InitEvent::Extensions(Ok(listed)) && views(
            plan_of(stages.last()).extensions@,
        ) == required_names(listed@, descriptor.flags, platform),
        events[3] matches InitEvent::Layers(Ok(layers)) && is_plan(
            plan_of(stages.last()),
            plan_of(stages.last()).driver_api_version,
            plan_of(stages.last()).application_info,
            plan_of(stages.last()).extensions,
            descriptor.flags,
            layers@,
        ),
        stages.last()->Created_android_sdk_version == if platform.os == TargetOs::Android {
            sdk_version(events[4]->SdkVersion_0)
        } else {
            0
        },
{
    run_ends_at_the_first_failure(descriptor, platform, stages, events);
    assert(crate::init::leads_to(descriptor, platform, stages[0], events[0], stages[1]));
    assert(crate::init::leads_to(descriptor, platform, stages[1], events[1], stages[2]));
    assert(crate::init::leads_to(descriptor, platform, stages[2], events[2], stages[3]));
    assert(crate::init::leads_to(descriptor, platform, stages[3], events[3], stages[4]));
    assert(crate::init::leads_to(descriptor, platform, stages[4], events[4], stages[5]));
    if platform.os == TargetOs::Android {
        assert(crate::init::leads_to(descriptor, platform, stages[5], events[5], stages[6]));
        if events.len() > 6 {
            assert(crate::init::expects(descriptor, stages[6], events[6]));
        }
    } else if events.len() > 5 {
        assert(crate::init::expects(descriptor, stages[5], events[5]));
    }
}

/// The instance that comes of a creation keeps what the descriptor asked for and what
/// the driver and the system answered: the flags, the version, the extensions, whether
/// Optimus is there and the version of the SDK. It is destroyed in the end. A messenger
/// is to come if and only if validation and debugging were both asked for and the driver
/// lists the layer of the one and the extension of the other.
pub proof fn finished_instance_follows_the_answers<E, R, G>(
    descriptor: InstanceDescriptor,
    platform: Platform,
    stages: Seq<InitStage>,
    events: Seq<InitEvent>,
    pending: PendingInstance<E, R, G>,
    entry: E,
    raw_instance: R,
    drop_guard: G,
)
    requires
        is_run(descriptor, platform, stages, events),
        stages.last() is Created,
        is_finished(pending, stages.last(), descriptor, entry, raw_instance, drop_guard),
    ensures
        pending.shared.entry == entry,
        pending.shared.raw == raw_instance,
        pending.shared.drop_guard == Some(drop_guard),
        pending.shared.flags == descriptor.flags,
        events[1] matches InitEvent::Version(Ok(version)) && pending.shared.driver_api_version
            == version_of(version),
        events[2] matches InitEvent::Extensions(Ok(listed)) && is_created_with_required(
            pending.shared,
            listed@,
            platform,
        ),
        events[3] matches InitEvent::Layers(Ok(layers)) && pending.shared.has_nv_optimus
            == lists_layer(layers@, Layer::NvOptimus),
        pending.shared.android_sdk_version == if platform.os == TargetOs::Android {
            sdk_version(events[4]->SdkVersion_0)
        } else {
            0
        },
        pending.messenger is Some <==> {
            &&& enables_validation(descriptor.flags, events[3]->Layers_0->Ok_0@)
            &&& descriptor.flags.debug
            &&& lists_extension(events[2]->Extensions_0->Ok_0@, Extension::DebugUtils.bytes())
        },
        pending.messenger matches Some(request) ==> is_user_data(
            *request.callback_data,
            events[3]->Layers_0->Ok_0@,
        ),
{
    created_instance_follows_the_answers(descriptor, platform, stages, events);
    let listed = events[2]->Extensions_0->Ok_0@;
    required_iff_wanted_and_listed(listed, descriptor.flags, platform, Extension::DebugUtils);
    wanted_iff(descriptor.flags, platform, Extension::DebugUtils);
}

/// Where the extensions and the layers were both listed, the plan of the instance that
/// comes of it enables no extension and no layer that the driver does not list.
pub proof fn init_enables_only_what_is_listed(
    descriptor: InstanceDescriptor,
    platform: Platform,
    extensions_stage: InitStage,
    extensions: Vec<ExtensionProperties>,
    layers_stage: InitStage,
    layers: Vec<LayerProperties>,
    next: InitStage,
)
    requires
        extensions_stage is EnumerateExtensions,
        crate::init::leads_to(
            descriptor,
            platform,
            extensions_stage,
            InitEvent::Extensions(Ok(extensions)),
            layers_stage,
        ),
        crate::init::leads_to(
            descriptor,
            platform,
            layers_stage,
            InitEvent::Layers(Ok(layers)),
            next,
        ),
    ensures
        forall|name: Seq<u8>| #[trigger]
            views(plan_of(next).extensions@).contains(name) ==> lists_extension(extensions@, name),
        forall|name: Seq<u8>| #[trigger]
            views(plan_of(next).layers@).contains(name) ==> exists|i: int|
                0 <= i < layers@.len() && is_named(#[trigger] layers@[i], name),
        views(plan_of(next).extensions@) == required_names(extensions@, descriptor.flags, platform),
{
    assert forall|name: Seq<u8>| #[trigger]
        views(plan_of(next).extensions@).contains(
            name,
        ) implies lists_extension(extensions@, name) by {
        required_names_are_listed(extensions@, descriptor.flags, platform, name);
    }
}

/// Incomplete implementations are asked for if and only if the instance has the
/// extension that provides the flag; then the driver lists that extension, and the
/// platform is macOS.
pub proof fn portability_needs_its_extension(
    plan: InstancePlan,
    driver_api_version: u32,
    application_info: ApplicationInfo,
    extensions: Vec<CName>,
    flags: InstanceFlags,
    platform: Platform,
    listed: Seq<ExtensionProperties>,
    layers: Seq<LayerProperties>,
)
    requires
        views(extensions@) == required_names(listed, flags, platform),
        is_plan(plan, driver_api_version, application_info, extensions, flags, layers),
    ensures
        plan.flags == enumerate_portability() <==> {
            &&& platform.os == TargetOs::MacOs
            &&& lists_extension(listed, Extension::PortabilityEnumeration.bytes())
        },
        plan.flags != enumerate_portability() ==> plan.flags == 0,
{
    required_iff_wanted_and_listed(listed, flags, platform, Extension::PortabilityEnumeration);
    wanted_iff(flags, platform, Extension::PortabilityEnumeration);
}

/// There is callback data if and only if the validation layer is enabled, so that a
/// messenger is created only where both the layer and its own extension are.
pub proof fn messenger_needs_layer_and_extension(
    plan: InstancePlan,
    driver_api_version: u32,
    application_info: ApplicationInfo,
    extensions: Vec<CName>,
    flags: InstanceFlags,
    layers: Seq<LayerProperties>,
)
    requires
        is_plan(plan, driver_api_version, application_info, extensions, flags, layers),
    ensures
        plan.debug_user_data is Some <==> views(plan.layers@).contains(
            Layer::KhronosValidation.bytes(),
        ),
        wants_messenger(plan.debug_user_data, views(plan.extensions@))
            <==> {
            &&& views(plan.layers@).contains(Layer::KhronosValidation.bytes())
            &&& views(plan.extensions@).contains(Extension::DebugUtils.bytes())
        },
{
    if enables_validation(flags, layers) {
        assert(views(plan.layers@)[0] == Layer::KhronosValidation.bytes());
    }
}

/// A message is passed over by its number and the layers alone: of a driver without the
/// OBS layer whose validation layer is not a faulty one, only the racy extent is.
pub proof fn sound_layers_are_heard(id: i32, user_data: DebugUtilsMessengerUserData)
    requires
        !user_data.has_obs_layer,
        user_data.validation_layer_spec_version < version_number(1, 3, 240)
            || user_data.validation_layer_spec_version > version_number(1, 3, 250),
    ensures
        is_suppressed(id, user_data) <==> id == VUID_VKSWAPCHAINCREATEINFOKHR_IMAGEEXTENT_01274,
{
}

/// A reported message has one record of its own, and at most one for its queues, one for
/// its command buffers and one for its objects.
pub proof fn report_has_one_to_four_records(message_type: u32, data: MessengerCallbackData)
    ensures
        1 <= report_lines(message_type, data).len() <= 4,
        report_lines(message_type, data).len() == 1 + (if data.queue_labels@.len()
            != 0 {
            1int
        } else {
            0
        }) + (if data.cmd_buf_labels@.len() != 0 {
            1int
        } else {
            0
        }) + (if data.objects@.len() != 0 {
            1int
        } else {
            0
        }),
{
}

/// How many events are still to come at most.
pub open spec fn acquire_events_left(stage: AcquireStage) -> nat {
    match stage {
        AcquireStage::AcquireImage { .. } => 3,
        AcquireStage::WaitForFence { .. } => 2,
        AcquireStage::ResetFence { .. } => 1,
        AcquireStage::Finished(_) => 0,
    }
}

/// The acquisition of an image comes to an end: each event brings it nearer, and once it
/// has ended no event is expected.
pub proof fn acquire_comes_to_an_end(
    swapchain: Swapchain,
    platform: Platform,
    stage: AcquireStage,
    event: AcquireEvent,
    next: AcquireStage,
)
    requires
        crate::surface::expects(swapchain, stage, event),
        crate::surface::leads_to(swapchain, platform, stage, event, next),
    ensures
        acquire_events_left(next) < acquire_events_left(stage),
        acquire_events_left(stage) > 0,
{
}

/// A texture is handed out only after the driver gave an image and its fence was waited
/// for and reset. The texture is that image's; the swapchain is told suboptimal as the
/// driver tells it, but never on Android; and Intel's bizarre indices are turned away.
pub proof fn texture_is_the_image_given(
    swapchain: Swapchain,
    platform: Platform,
    first: AcquireStage,
    given: AcquireEvent,
    second: AcquireStage,
    waited: AcquireEvent,
    third: AcquireStage,
    reset: AcquireEvent,
    last: AcquireStage,
    acquired: AcquiredSurfaceTexture,
)
    requires
        first is AcquireImage,
        crate::surface::expects(swapchain, first, given),
        crate::surface::leads_to(swapchain, platform, first, given, second),
        crate::surface::expects(swapchain, second, waited),
        crate::surface::leads_to(swapchain, platform, second, waited, third),
        crate::surface::expects(swapchain, third, reset),
        crate::surface::leads_to(swapchain, platform, third, reset, last),
        last == AcquireStage::Finished(Ok(Some(acquired))),
    ensures
        waited matches AcquireEvent::FenceWaited(Ok(_)),
        reset matches AcquireEvent::FenceReset(Ok(_)),
        given matches AcquireEvent::Image(Ok((index, suboptimal))) && {
            &&& acquired.texture.index == index
            &&& acquired.texture.texture.raw == swapchain.images@[index as int]
            &&& acquired.suboptimal == (suboptimal && platform.os != TargetOs::Android)
            &&& swapchain.vendor_id == INTEL_VENDOR ==> index <= 0x100
        },
{
}

/// A limit on the wait is kept as it is where it fits a machine word, but on Android
/// before version 30 of the SDK, where there is none.
pub proof fn timeout_is_kept(timeout: u128, android_sdk_version: u32, platform: Platform)
    requires
        timeout <= u64::MAX,
        platform.os != TargetOs::Android || android_sdk_version >= 30,
    ensures
        acquire_timeout(Some(timeout), android_sdk_version, platform) == timeout,
{
}

/// The version of the Android SDK is ignored on all platforms besides Android.
pub proof fn sdk_version_is_ignored_off_android(
    timeout: Option<u128>,
    android_sdk_version: u32,
    platform: Platform,
)
    requires
        platform.os != TargetOs::Android,
    ensures
        acquire_timeout(timeout, android_sdk_version, platform)
            == acquire_timeout(timeout, 0, platform),
{
}

/// A surface without a swapchain has nothing to let go of.
pub proof fn swapchain_is_released_once<E, R, G>(before: Surface<E, R, G>, after: Surface<E, R, G>)
    requires
        after == (Surface { swapchain: None, ..before }),
    ensures
        unconfigure_actions(after.swapchain).len() == 0,
        replace_actions(after.swapchain).len() == 0,
        (Surface { swapchain: None, ..after }) == after,
{
}

} // verus!
