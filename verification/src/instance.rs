//! The instance: the extensions that it asks for, what it keeps of its creation, the
//! surfaces that it can make and what becomes of it in the end.

use std::sync::Arc;

use vstd::prelude::*;

use crate::adapter::{collect_usable, exposed_adapters, hide_optimus, usable, ExposedAdapter};
use crate::debug::{
    follows_process, is_create_info_for, request_messenger, wants_messenger, DebugUtils,
    DebugUtilsMessengerUserData, MessengerRequest,
};
use crate::driver::LevelFilter;
use crate::extension::Extension;
use crate::names::{contains_name, cstr_from_bytes_until_nul, until_nul, views, CName};
use crate::platform::{Platform, TargetOs};
use crate::surface::Surface;
use crate::window::{
    fitting_surface, surface_for, DisplayHandle, SurfaceCreateInfo, WindowHandle,
};

verus! {

/// The instance, or a surface of it, cannot be made.
#[derive(Clone, Copy, Debug, PartialEq, Eq, Structural)]
pub struct InstanceError;

/// What an instance is asked to do besides its work.
#[derive(Clone, Copy, Debug, PartialEq, Eq, Structural)]
pub struct InstanceFlags {
    /// Generate debug information.
    pub debug: bool,
    /// Enable validation, if possible.
    pub validation: bool,
}

/// An extension as the driver lists it.
#[derive(Debug)]
pub struct ExtensionProperties {
    /// The buffer that holds the name, up to the first zero byte.
    pub extension_name: Vec<u8>,
}

/// What an instance and its surfaces share: `E` holds the entry points of the
/// loader, `R` the driver's instance, `G` whatever is to live as long.
#[derive(Debug)]
pub struct InstanceShared<E, R, G> {
    pub raw: R,
    /// The extensions that the instance was created with.
    pub extensions: Vec<CName>,
    /// Present where the instance is to be destroyed with this value.
    pub drop_guard: Option<G>,
    pub flags: InstanceFlags,
    pub debug_utils: Option<DebugUtils>,
    /// Whether the extended queries of device properties can be used.
    pub get_physical_device_properties: bool,
    pub entry: E,
    pub has_nv_optimus: bool,
    pub driver_api_version: u32,
    /// The version of the Android SDK; zero on other platforms.
    pub android_sdk_version: u32,
}

/// A Vulkan instance.
#[derive(Debug)]
pub struct Instance<E, R, G> {
    pub shared: Arc<InstanceShared<E, R, G>>,
}

/// An instance whose messenger, if it is to have one, is not created yet.
#[derive(Debug)]
pub struct PendingInstance<E, R, G> {
    pub shared: InstanceShared<E, R, G>,
    pub messenger: Option<MessengerRequest>,
}

/// A step in the release of an instance. What is only to be dropped comes with its step.
#[derive(Debug)]
pub enum ReleaseAction<G> {
    /// Destroy the messenger with the given handle.
    DestroyMessenger { messenger: u64 },
    /// Drop the callback data, which no messenger reads any more.
    FreeCallbackData { callback_data: Box<DebugUtilsMessengerUserData> },
    /// Destroy the driver's instance.
    DestroyInstance,
    /// Drop what was to live as long as the instance.
    DropGuard { drop_guard: G },
}

/// The extensions that are asked for where the driver lists them.
pub open spec fn wanted_extensions(flags: InstanceFlags, platform: Platform) -> Seq<Extension> {
    seq![Extension::Surface] + (if platform.is_desktop_unix() {
        seq![Extension::XlibSurface, Extension::XcbSurface, Extension::WaylandSurface]
    } else {
        Seq::empty()
    }) + (if platform.os == TargetOs::Android {
        seq![Extension::AndroidSurface]
    } else {
        Seq::empty()
    }) + (if platform.os == TargetOs::Windows {
        seq![Extension::Win32Surface]
    } else {
        Seq::empty()
    }) + (if platform.os == TargetOs::MacOs {
        seq![Extension::MetalSurface, Extension::PortabilityEnumeration]
    } else {
        Seq::empty()
    }) + (if flags.debug {
        seq![Extension::DebugUtils]
    } else {
        Seq::empty()
    }) + seq![Extension::SwapchainColorspace, Extension::GetPhysicalDeviceProperties2]
}

/// Whether the driver lists an extension of the given name.
pub open spec fn lists_extension(listed: Seq<ExtensionProperties>, name: Seq<u8>) -> bool {
    exists|i: int|
        0 <= i < listed.len() && until_nul(#[trigger] listed[i].extension_name@) == Some(name)
}

/// Those of the given extensions that the driver lists, in order.
pub open spec fn listed_among(
    wanted: Seq<Extension>,
    listed: Seq<ExtensionProperties>,
) -> Seq<Extension> {
    wanted.filter(|e: Extension| lists_extension(listed, e.bytes()))
}

/// The bytes of the names of the given extensions, in order.
pub open spec fn extension_names(extensions: Seq<Extension>) -> Seq<Seq<u8>> {
    extensions.map_values(|e: Extension| e.bytes())
}

/// The names of the extensions that an instance is created with.
pub open spec fn required_names(
    listed: Seq<ExtensionProperties>,
    flags: InstanceFlags,
    platform: Platform,
) -> Seq<Seq<u8>> {
    extension_names(listed_among(wanted_extensions(flags, platform), listed))
}

/// The names of the extensions that are asked for in vain, in order.
pub open spec fn missing_names(
    listed: Seq<ExtensionProperties>,
    flags: InstanceFlags,
    platform: Platform,
) -> Seq<Seq<u8>> {
    extension_names(
        wanted_extensions(flags, platform).filter(
            |e: Extension| !lists_extension(listed, e.bytes()),
        ),
    )
}

/// What is done, in order, to release a messenger.
pub open spec fn messenger_release<G>(debug_utils: Option<DebugUtils>) -> Seq<ReleaseAction<G>> {
    match debug_utils {
        Some(du) => seq![
            ReleaseAction::DestroyMessenger { messenger: du.messenger },
            ReleaseAction::FreeCallbackData { callback_data: du.callback_data },
        ],
        None => Seq::empty(),
    }
}

/// What is done, in order, to release the driver's instance: it is not destroyed where
/// there is no guard.
pub open spec fn guarded_release<G>(drop_guard: Option<G>) -> Seq<ReleaseAction<G>> {
    match drop_guard {
        Some(guard) => seq![
            ReleaseAction::DestroyInstance,
            ReleaseAction::DropGuard { drop_guard: guard },
        ],
        None => Seq::empty(),
    }
}

/// What is done, in order, to release all that an instance owns.
pub open spec fn release_order<E, R, G>(shared: InstanceShared<E, R, G>) -> Seq<ReleaseAction<G>> {
    messenger_release(shared.debug_utils) + guarded_release(shared.drop_guard)
}

/// Whether an instance was taken over as it was told: it keeps what it was given, it has
/// the extended queries where their extension is there, and a messenger is to come where
/// there is callback data for it and its extension is there.
pub open spec fn is_taken_over<E, R, G>(
    pending: PendingInstance<E, R, G>,
    entry: E,
    raw_instance: R,
    driver_api_version: u32,
    android_sdk_version: u32,
    debug_utils_user_data: Option<DebugUtilsMessengerUserData>,
    extensions: Vec<CName>,
    flags: InstanceFlags,
    has_nv_optimus: bool,
    drop_guard: Option<G>,
) -> bool {
    &&& pending.shared == (InstanceShared {
        raw: raw_instance,
        extensions,
        drop_guard,
        flags,
        debug_utils: None,
        get_physical_device_properties: views(extensions@).contains(
            Extension::GetPhysicalDeviceProperties2.bytes(),
        ),
        entry,
        has_nv_optimus,
        driver_api_version,
        android_sdk_version,
    })
    &&& pending.messenger is Some <==> wants_messenger(debug_utils_user_data, views(extensions@))
    &&& pending.messenger matches Some(request) ==> {
        &&& *request.callback_data == debug_utils_user_data->0
        &&& exists|level: LevelFilter| is_create_info_for(request.create_info, level)
        &&& follows_process(request)
    }
}

/// An instance with the messenger that was created for it, if one was to be.
pub open spec fn completed<E, R, G>(
    pending: PendingInstance<E, R, G>,
    messenger: Option<u64>,
) -> InstanceShared<E, R, G> {
    InstanceShared {
        debug_utils: match pending.messenger {
            Some(request) => Some(
                DebugUtils { messenger: messenger->0, callback_data: request.callback_data },
            ),
            None => None,
        },
        ..pending.shared
    }
}

/// A request to the driver, if the instance has the extension for it.
pub open spec fn surface_request<E, R, G>(
    shared: InstanceShared<E, R, G>,
    info: SurfaceCreateInfo,
) -> Result<SurfaceCreateInfo, InstanceError> {
    if shared.has(info.extension()) {
        Ok(info)
    } else {
        Err(InstanceError)
    }
}

/// The request to the driver for the surface of a window, if there is one and the instance
/// has the extension for it.
pub open spec fn surface_answer<E, R, G>(
    shared: InstanceShared<E, R, G>,
    display_handle: DisplayHandle,
    window_handle: WindowHandle,
    platform: Platform,
    module: usize,
) -> Result<SurfaceCreateInfo, InstanceError> {
    match surface_for(display_handle, window_handle, platform, module) {
        Some(info) => surface_request(shared, info),
        None => Err(InstanceError),
    }
}

/// Whether the extensions are those to create an instance with, given what the driver
/// lists.
pub open spec fn are_required(
    extensions: Result<Vec<CName>, InstanceError>,
    enumerated: Result<Vec<ExtensionProperties>, i32>,
    flags: InstanceFlags,
    platform: Platform,
) -> bool {
    &&& extensions is Ok <==> enumerated is Ok
    &&& extensions matches Ok(names) ==> views(names@) == required_names(
        enumerated->Ok_0@,
        flags,
        platform,
    )
}

fn collect_wanted(flags: InstanceFlags, platform: Platform) -> (wanted: Vec<Extension>)
    ensures
        wanted@ == wanted_extensions(flags, platform),
{
    let mut wanted: Vec<Extension> = Vec::new();
    wanted.push(Extension::Surface);
    // Platform-specific window system extensions.
    if platform.unix && platform.os != TargetOs::Android && platform.os != TargetOs::MacOs {
        wanted.push(Extension::XlibSurface);
        wanted.push(Extension::XcbSurface);
        wanted.push(Extension::WaylandSurface);
    }
    if platform.os == TargetOs::Android {
        wanted.push(Extension::AndroidSurface);
    }
    if platform.os == TargetOs::Windows {
        wanted.push(Extension::Win32Surface);
    }
    if platform.os == TargetOs::MacOs {
        wanted.push(Extension::MetalSurface);
        wanted.push(Extension::PortabilityEnumeration);
    }
    if flags.debug {
        wanted.push(Extension::DebugUtils);
    }
    // Wide color gamut.
    wanted.push(Extension::SwapchainColorspace);
    // Part of Vulkan 1.1, but asked for all the same, so that one set of functions
    // serves every version.
    wanted.push(Extension::GetPhysicalDeviceProperties2);
    assert(wanted@ =~= wanted_extensions(flags, platform));
    wanted
}

/// The names of those of the given extensions that the driver lists, or of those that it
/// does not.
fn names_where(wanted: &Vec<Extension>, listed: &Vec<ExtensionProperties>, present: bool) -> (names:
    Vec<CName>)
    ensures
        views(names@) == extension_names(
            wanted@.filter(|e: Extension| lists_extension(listed@, e.bytes()) == present),
        ),
{
    let ghost keep = |e: Extension| lists_extension(listed@, e.bytes()) == present;
    let mut names: Vec<CName> = Vec::new();
    let mut i: usize = 0;
    proof {
        reveal(Seq::filter);
        assert(wanted@.take(0).filter(keep) =~= Seq::<Extension>::empty());
    }
    while i < wanted.len()
        invariant
            i <= wanted@.len(),
            keep == (|e: Extension| lists_extension(listed@, e.bytes()) == present),
            views(names@) == extension_names(wanted@.take(i as int).filter(keep)),
        decreases wanted@.len() - i,
    {
        let name: CName = wanted[i].name();
        let ghost before = wanted@.take(i as int).filter(keep);
        let ghost names_before = names@;
        if is_listed(listed, &name) == present {
            names.push(name);
        }
        i += 1;
        proof {
            reveal(Seq::filter);
            let now = wanted@.take(i as int);
            assert(now.drop_last() =~= wanted@.take(i - 1));
            assert(now.last() == wanted@[i - 1]);
            if keep(now.last()) {
                assert(now.filter(keep) == before.push(now.last()));
                assert(names@.drop_last() =~= names_before);
                assert(views(names@) =~= views(names_before).push(now.last().bytes()));
                assert(extension_names(now.filter(keep)) =~= extension_names(before).push(
                    now.last().bytes(),
                ));
            } else {
                assert(now.filter(keep) == before);
            }
        }
    }
    assert(wanted@.take(wanted@.len() as int) =~= wanted@);
    names
}

fn is_listed(listed: &Vec<ExtensionProperties>, name: &CName) -> (found: bool)
    ensures
        found == lists_extension(listed@, name@),
{
    let mut i: usize = 0;
    while i < listed.len()
        invariant
            i <= listed@.len(),
            forall|j: int|
                0 <= j < i ==> until_nul(#[trigger] listed@[j].extension_name@) != Some(name@),
        decreases listed@.len() - i,
    {
        match cstr_from_bytes_until_nul(listed[i].extension_name.as_slice()) {
            Some(n) => {
                if n == *name {
                    return true;
                }
            },
            None => {},
        }
        i += 1;
    }
    false
}

impl<E, R, G> InstanceShared<E, R, G> {
    /// What follows from the extensions: the extended queries can be used if and only
    /// if their extension is there, and there is no messenger without its extension.
    pub open spec fn wf(self) -> bool {
        let names = views(self.extensions@);
        &&& self.get_physical_device_properties == names.contains(
            Extension::GetPhysicalDeviceProperties2.bytes(),
        )
        &&& self.debug_utils is Some ==> names.contains(Extension::DebugUtils.bytes())
    }

    /// Whether the instance was created with an extension.
    pub open spec fn has(self, extension: Extension) -> bool {
        views(self.extensions@).contains(extension.bytes())
    }

    /// The entry points of the loader.
    pub fn entry(&self) -> (entry: &E)
        ensures
            *entry == self.entry,
    {
        &self.entry
    }

    /// The driver's instance.
    pub fn raw_instance(&self) -> (raw: &R)
        ensures
            *raw == self.raw,
    {
        &self.raw
    }

    /// The version of the API that the driver offers.
    pub fn driver_api_version(&self) -> (version: u32)
        ensures
            version == self.driver_api_version,
    {
        self.driver_api_version
    }

    /// The extensions that the instance was created with.
    pub fn extensions(&self) -> (extensions: &[CName])
        ensures
            extensions@ == self.extensions@,
    {
        self.extensions.as_slice()
    }

    fn has_extension(&self, extension: Extension) -> (result: bool)
        ensures
            result == self.has(extension),
    {
        contains_name(self.extensions.as_slice(), &extension.name())
    }

    /// Gives up what the instance owns. What is returned is to be done, in order.
    pub fn take_resources(&mut self) -> (actions: Vec<ReleaseAction<G>>)
        ensures
            actions@ == release_order(*old(self)),
            *final(self) == (InstanceShared { debug_utils: None, drop_guard: None, ..*old(self) }),
            old(self).wf() ==> final(self).wf(),
    {
        let mut actions: Vec<ReleaseAction<G>> = Vec::new();
        if let Some(du) = self.debug_utils.take() {
            actions.push(ReleaseAction::DestroyMessenger { messenger: du.messenger });
            actions.push(ReleaseAction::FreeCallbackData { callback_data: du.callback_data });
        }
        if let Some(drop_guard) = self.drop_guard.take() {
            actions.push(ReleaseAction::DestroyInstance);
            actions.push(ReleaseAction::DropGuard { drop_guard });
        }
        assert(actions@ =~= release_order(*old(self)));
        actions
    }
}

impl<E, R, G> PendingInstance<E, R, G> {
    /// There is no messenger yet, and one to come only where its extension is there.
    pub open spec fn wf(self) -> bool {
        &&& self.shared.wf()
        &&& self.shared.debug_utils is None
        &&& self.messenger is Some ==> self.shared.has(Extension::DebugUtils)
    }

    /// The instance, with the messenger that was created if one was to be.
    pub fn complete(self, messenger: Option<u64>) -> (instance: Instance<E, R, G>)
        requires
            self.wf(),
            messenger is Some <==> self.messenger is Some,
        ensures
            instance.shared.wf(),
            *instance.shared == completed(self, messenger),
    {
        let mut shared: InstanceShared<E, R, G> = self.shared;
        match (self.messenger, messenger) {
            (Some(request), Some(handle)) => {
                shared.debug_utils = Some(
                    DebugUtils { messenger: handle, callback_data: request.callback_data },
                );
            },
            _ => {},
        }
        Instance { shared: Arc::new(shared) }
    }
}

impl<E, R, G> Instance<E, R, G> {
    /// What the instance shares with its surfaces.
    pub fn shared_instance(&self) -> (shared: &InstanceShared<E, R, G>)
        ensures
            *shared == *self.shared,
    {
        &self.shared
    }

    /// The extensions to create an instance with: of those that the platform and the
    /// flags call for, the ones that the driver lists. `enumerated` is what the driver
    /// lists, or its error code.
    pub fn required_extensions(
        enumerated: Result<Vec<ExtensionProperties>, i32>,
        _driver_api_version: u32,
        flags: InstanceFlags,
        platform: Platform,
    ) -> (extensions: Result<Vec<CName>, InstanceError>)
        ensures
            are_required(extensions, enumerated, flags, platform),
    {
        let listed: Vec<ExtensionProperties> = match enumerated {
            Ok(listed) => listed,
            Err(_) => return Err(InstanceError),
        };
        let names: Vec<CName> = names_where(&collect_wanted(flags, platform), &listed, true);
        assert((|e: Extension| lists_extension(listed@, e.bytes()) == true) =~= (|e: Extension|
            lists_extension(listed@, e.bytes())));
        Ok(names)
    }

    /// The extensions that the platform and the flags call for, but that the driver does
    /// not list.
    pub fn missing_extensions(
        listed: &Vec<ExtensionProperties>,
        flags: InstanceFlags,
        platform: Platform,
    ) -> (missing: Vec<CName>)
        ensures
            views(missing@) == missing_names(listed@, flags, platform),
    {
        let missing: Vec<CName> = names_where(&collect_wanted(flags, platform), listed, false);
        assert((|e: Extension| lists_extension(listed@, e.bytes()) == false) =~= (|e: Extension|
            !lists_extension(listed@, e.bytes())));
        missing
    }

    /// Takes over an instance that the driver has created.
    ///
    /// - `raw_instance` was created from `entry`, respecting `driver_api_version`,
    ///   `extensions` and `flags`.
    /// - `extensions` is a superset of `required_extensions()` and was created from
    ///   the same entry, version and flags.
    /// - `android_sdk_version` is ignored and can be `0` for all platforms besides
    ///   Android.
    ///
    /// If `debug_utils_user_data` is `Some`, then the validation layer is available, so
    /// a messenger is asked for where the extension is there.
    pub fn from_raw(
        entry: E,
        raw_instance: R,
        driver_api_version: u32,
        android_sdk_version: u32,
        debug_utils_user_data: Option<DebugUtilsMessengerUserData>,
        extensions: Vec<CName>,
        flags: InstanceFlags,
        has_nv_optimus: bool,
        drop_guard: Option<G>,
    ) -> (pending: Result<PendingInstance<E, R, G>, InstanceError>)
        ensures
            pending matches Ok(p) && {
                &&& p.wf()
                &&& is_taken_over(
                    p,
                    entry,
                    raw_instance,
                    driver_api_version,
                    android_sdk_version,
                    debug_utils_user_data,
                    extensions,
                    flags,
                    has_nv_optimus,
                    drop_guard,
                )
            },
    {
        let messenger: Option<MessengerRequest> = request_messenger(
            debug_utils_user_data,
            &extensions,
        );
        let get_physical_device_properties: bool = contains_name(
            extensions.as_slice(),
            &Extension::GetPhysicalDeviceProperties2.name(),
        );
        Ok(
            PendingInstance {
                shared: InstanceShared {
                    raw: raw_instance,
                    extensions,
                    drop_guard,
                    flags,
                    debug_utils: None,
                    get_physical_device_properties,
                    entry,
                    has_nv_optimus,
                    driver_api_version,
                    android_sdk_version,
                },
                messenger,
            },
        )
    }

    /// What is to be created for an Xlib window, if the instance can.
    pub fn create_surface_from_xlib(&self, dpy: usize, window: u64) -> (request: Result<
        SurfaceCreateInfo,
        InstanceError,
    >)
        ensures
            request == surface_request(*self.shared, SurfaceCreateInfo::Xlib { dpy, window }),
    {
        if !self.shared.has_extension(Extension::XlibSurface) {
            return Err(InstanceError);
        }
        Ok(SurfaceCreateInfo::Xlib { dpy, window })
    }

    /// What is to be created for an XCB window, if the instance can.
    pub fn create_surface_from_xcb(&self, connection: usize, window: u32) -> (request: Result<
        SurfaceCreateInfo,
        InstanceError,
    >)
        ensures
            request == surface_request(*self.shared, SurfaceCreateInfo::Xcb { connection, window }),
    {
        if !self.shared.has_extension(Extension::XcbSurface) {
            return Err(InstanceError);
        }
        Ok(SurfaceCreateInfo::Xcb { connection, window })
    }

    /// What is to be created for a Wayland surface, if the instance can.
    pub fn create_surface_from_wayland(&self, display: usize, surface: usize) -> (request: Result<
        SurfaceCreateInfo,
        InstanceError,
    >)
        ensures
            request == surface_request(
                *self.shared,
                SurfaceCreateInfo::Wayland { display, surface },
            ),
    {
        if !self.shared.has_extension(Extension::WaylandSurface) {
            return Err(InstanceError);
        }
        Ok(SurfaceCreateInfo::Wayland { display, surface })
    }

    /// What is to be created for a window of Android, if the instance can.
    pub fn create_surface_android(&self, window: usize) -> (request: Result<
        SurfaceCreateInfo,
        InstanceError,
    >)
        ensures
            request == surface_request(*self.shared, SurfaceCreateInfo::Android { window }),
    {
        if !self.shared.has_extension(Extension::AndroidSurface) {
            return Err(InstanceError);
        }
        Ok(SurfaceCreateInfo::Android { window })
    }

    /// What is to be created for a window of Windows, if the instance can.
    pub fn create_surface_from_hwnd(&self, hinstance: usize, hwnd: usize) -> (request: Result<
        SurfaceCreateInfo,
        InstanceError,
    >)
        ensures
            request == surface_request(*self.shared, SurfaceCreateInfo::Win32 { hinstance, hwnd }),
    {
        if !self.shared.has_extension(Extension::Win32Surface) {
            return Err(InstanceError);
        }
        Ok(SurfaceCreateInfo::Win32 { hinstance, hwnd })
    }

    /// What is to be created for a view of macOS or iOS, if the instance can.
    pub fn create_surface_from_view(&self, view: usize) -> (request: Result<
        SurfaceCreateInfo,
        InstanceError,
    >)
        ensures
            request == surface_request(*self.shared, SurfaceCreateInfo::Metal { view }),
    {
        if !self.shared.has_extension(Extension::MetalSurface) {
            return Err(InstanceError);
        }
        Ok(SurfaceCreateInfo::Metal { view })
    }

    /// What is to be created for a window, if its kind is known on the platform and
    /// the instance can. `module` is the handle of the running module, under Windows;
    /// it is not read elsewhere.
    pub fn create_surface(
        &self,
        display_handle: DisplayHandle,
        window_handle: WindowHandle,
        platform: Platform,
        module: usize,
    ) -> (request: Result<SurfaceCreateInfo, InstanceError>)
        ensures
            request == surface_answer(
                *self.shared,
                display_handle,
                window_handle,
                platform,
                module,
            ),
    {
        match fitting_surface(display_handle, window_handle, platform, module) {
            Some(SurfaceCreateInfo::Wayland { display, surface }) => {
                self.create_surface_from_wayland(display, surface)
            },
            Some(SurfaceCreateInfo::Xlib { dpy, window }) => {
                self.create_surface_from_xlib(dpy, window)
            },
            Some(SurfaceCreateInfo::Xcb { connection, window }) => {
                self.create_surface_from_xcb(connection, window)
            },
            Some(SurfaceCreateInfo::Android { window }) => self.create_surface_android(window),
            Some(SurfaceCreateInfo::Win32 { hinstance, hwnd }) => {
                self.create_surface_from_hwnd(hinstance, hwnd)
            },
            Some(SurfaceCreateInfo::Metal { view }) => self.create_surface_from_view(view),
            None => Err(InstanceError),
        }
    }

    /// The surface that the driver has created, without a swapchain yet.
    pub fn create_surface_from_vk_surface_khr(&self, surface: u64) -> (created: Surface<E, R, G>)
        ensures
            created.raw == surface,
            created.instance == self.shared,
            created.swapchain is None,
    {
        Surface { raw: surface, instance: Arc::clone(&self.shared), swapchain: None }
    }

    /// The adapters that the instance exposes, of the devices of which each was found
    /// usable or not.
    pub fn enumerate_adapters(
        &self,
        devices: Vec<Option<ExposedAdapter>>,
        platform: Platform,
    ) -> (adapters: Vec<ExposedAdapter>)
        ensures
            adapters@ == exposed_adapters(usable(devices@), self.shared.has_nv_optimus, platform),
    {
        let mut adapters: Vec<ExposedAdapter> = collect_usable(devices);
        hide_optimus(&mut adapters, self.shared.has_nv_optimus, platform);
        adapters
    }
}

} // verus!
