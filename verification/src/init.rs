//! The creation of an instance, from the loading of the entry points to the driver's
//! answer. A stage says what is to be done next; the event that comes of it leads to
//! the following stage.

use vstd::prelude::*;
use vstd::string::StrSliceExecFns;

use crate::debug::DebugUtilsMessengerUserData;
use crate::driver::{
    api_version_1_0, api_version_1_1, enumerate_portability, enumerate_portability_bit,
    header_version_complete, version_number,
};
use crate::extension::{Extension, Layer};
use crate::instance::{
    is_taken_over, required_names, ExtensionProperties, Instance, InstanceError, InstanceFlags,
    PendingInstance,
};
use crate::names::{
    contains_name, cstr_from_bytes_until_nul, is_plain, plain_text_has_no_nul, text_bytes,
    until_nul, views, CName,
};
use crate::platform::{Platform, TargetOs};

verus! {

/// What is asked of an instance.
#[derive(Debug)]
pub struct InstanceDescriptor {
    /// The name of the application.
    pub name: String,
    pub flags: InstanceFlags,
}

/// A layer as the driver lists it. The buffers hold texts up to the first zero byte.
#[derive(Debug)]
pub struct LayerProperties {
    pub layer_name: Vec<u8>,
    /// The version of the API that the layer was written for.
    pub spec_version: u32,
    pub description: Vec<u8>,
}

/// What the driver is told of the application.
#[derive(Debug)]
pub struct ApplicationInfo {
    pub application_name: String,
    pub application_version: u32,
    pub engine_name: CName,
    pub engine_version: u32,
    pub api_version: u32,
}

/// What an instance is created with, and what is kept of it.
#[derive(Debug)]
pub struct InstancePlan {
    pub application_info: ApplicationInfo,
    /// The bits that the instance is created with.
    pub flags: u32,
    pub layers: Vec<CName>,
    pub extensions: Vec<CName>,
    pub driver_api_version: u32,
    pub has_nv_optimus: bool,
    /// Present where the validation layer is enabled.
    pub debug_user_data: Option<DebugUtilsMessengerUserData>,
}

/// How far the creation has come: what is to be done next.
#[derive(Debug)]
pub enum InitStage {
    /// Load the entry points.
    LoadEntry,
    /// Ask for the version of the API.
    EnumerateVersion,
    /// List the extensions.
    EnumerateExtensions { driver_api_version: u32, application_info: ApplicationInfo },
    /// List the layers.
    EnumerateLayers {
        driver_api_version: u32,
        application_info: ApplicationInfo,
        extensions: Vec<CName>,
    },
    /// Read the system property that holds the version of the Android SDK.
    ReadSdkVersion { plan: InstancePlan },
    /// Create the instance.
    CreateInstance { plan: InstancePlan, android_sdk_version: u32 },
    /// Nothing more: the instance can be taken over.
    Created { plan: InstancePlan, android_sdk_version: u32 },
    /// Nothing more.
    Failed(InstanceError),
}

/// What came of it. Failures are given by the driver's code.
#[derive(Debug)]
pub enum InitEvent {
    /// Whether the entry points could be loaded.
    Entry(bool),
    /// A driver that cannot tell its version has the first one.
    Version(Result<Option<u32>, i32>),
    Extensions(Result<Vec<ExtensionProperties>, i32>),
    Layers(Result<Vec<LayerProperties>, i32>),
    /// The text of the property, if it could be read.
    SdkVersion(Option<String>),
    Instance(Result<(), i32>),
}

/// The version of the API that a driver has.
pub open spec fn version_of(reply: Option<u32>) -> int {
    match reply {
        Some(version) => version as int,
        None => version_number(1, 0, 0),
    }
}

/// The version of the API that an instance asks for. A driver of the first version
/// takes no other; any other is asked for the latest that the backend can use.
pub open spec fn requested_version(driver_api_version: int) -> int {
    if driver_api_version < version_number(1, 1, 0) {
        version_number(1, 0, 0)
    } else {
        version_number(1, 3, 251)
    }
}

/// Whether the driver is told the right things.
pub open spec fn is_application_info(
    info: ApplicationInfo,
    name: Seq<char>,
    driver_api_version: u32,
) -> bool {
    &&& info.application_name@ == name
    &&& info.application_version == 1
    &&& info.engine_name@ == text_bytes("wgpu-hal"@)
    &&& info.engine_version == 2
    &&& info.api_version == requested_version(driver_api_version as int)
}

/// Whether a layer has the given name.
pub open spec fn is_named(layer: LayerProperties, name: Seq<u8>) -> bool {
    until_nul(layer.layer_name@) == Some(name)
}

/// Whether the driver lists a layer.
pub open spec fn lists_layer(listed: Seq<LayerProperties>, layer: Layer) -> bool {
    exists|i: int| 0 <= i < listed.len() && is_named(#[trigger] listed[i], layer.bytes())
}

/// Whether a layer is the first in the list to have the given name.
pub open spec fn is_first_named(listed: Seq<LayerProperties>, name: Seq<u8>, i: int) -> bool {
    &&& 0 <= i < listed.len()
    &&& is_named(listed[i], name)
    &&& forall|j: int| 0 <= j < i ==> !is_named(#[trigger] listed[j], name)
}

/// Whether the validation layer is enabled: it is asked for, and the driver lists it.
pub open spec fn enables_validation(flags: InstanceFlags, listed: Seq<LayerProperties>) -> bool {
    flags.validation && lists_layer(listed, Layer::KhronosValidation)
}

/// Whether the validation layer, if it is enabled, has a description that ends.
pub open spec fn is_described(flags: InstanceFlags, listed: Seq<LayerProperties>) -> bool {
    flags.validation ==> forall|i: int|
        is_first_named(listed, Layer::KhronosValidation.bytes(), i) ==> until_nul(
            #[trigger] listed[i].description@,
        ) is Some
}

/// Whether the callback is told the right things of the layers.
pub open spec fn is_user_data(
    data: DebugUtilsMessengerUserData,
    listed: Seq<LayerProperties>,
) -> bool {
    &&& forall|i: int|
        is_first_named(listed, Layer::KhronosValidation.bytes(), i) ==> {
            &&& until_nul(#[trigger] listed[i].description@) == Some(
                data.validation_layer_description@,
            )
            &&& data.validation_layer_spec_version == listed[i].spec_version
        }
    &&& data.has_obs_layer == lists_layer(listed, Layer::ObsHook)
}

/// Whether an instance is created with the right things.
pub open spec fn is_plan(
    plan: InstancePlan,
    driver_api_version: u32,
    application_info: ApplicationInfo,
    extensions: Vec<CName>,
    flags: InstanceFlags,
    listed: Seq<LayerProperties>,
) -> bool {
    &&& plan.application_info == application_info
    &&& plan.driver_api_version == driver_api_version
    &&& plan.extensions == extensions
    &&& plan.flags == if views(extensions@).contains(Extension::PortabilityEnumeration.bytes()) {
        enumerate_portability()
    } else {
        0
    }
    &&& plan.has_nv_optimus == lists_layer(listed, Layer::NvOptimus)
    &&& views(plan.layers@) == if enables_validation(flags, listed) {
        seq![Layer::KhronosValidation.bytes()]
    } else {
        Seq::empty()
    }
    &&& plan.debug_user_data is Some <==> enables_validation(flags, listed)
    &&& plan.debug_user_data matches Some(data) ==> is_user_data(data, listed)
}

/// Whether a text is made of decimal digits alone.
pub open spec fn are_digits(text: Seq<char>) -> bool {
    forall|i: int| 0 <= i < text.len() ==> '0' <= #[trigger] text[i] <= '9'
}

/// The value of a text of decimal digits.
pub open spec fn decimal_value(digits: Seq<char>) -> int
    decreases digits.len(),
{
    if digits.len() == 0 {
        0
    } else {
        decimal_value(digits.drop_last()) * 10 + (digits.last() as int - '0' as int)
    }
}

/// The number that a text holds: digits and nothing else, but for a plus sign that may
/// precede them. A number that is too large is none.
pub open spec fn number_of(text: Seq<char>) -> Option<u32> {
    let digits = if text.len() > 0 && text[0] == '+' {
        text.skip(1)
    } else {
        text
    };
    if digits.len() > 0 && are_digits(digits) && decimal_value(digits) <= u32::MAX {
        Some(decimal_value(digits) as u32)
    } else {
        None
    }
}

/// The version of the Android SDK by the system property; zero where that cannot be
/// read or holds no number.
pub open spec fn sdk_version(property: Option<String>) -> u32 {
    match property {
        Some(text) => match number_of(text@) {
            Some(version) => version,
            None => 0,
        },
        None => 0,
    }
}

/// Whether an event answers what a stage asks for. The application's name may hold no
/// zero when it is passed on, nor may the validation layer's description lack one
/// when it is read.
pub open spec fn expects(
    descriptor: InstanceDescriptor,
    stage: InitStage,
    event: InitEvent,
) -> bool {
    match (stage, event) {
        (InitStage::LoadEntry, InitEvent::Entry(_)) => true,
        (InitStage::EnumerateVersion, InitEvent::Version(reply)) => reply is Ok
            ==> !descriptor.name@.contains('\0'),
        (InitStage::EnumerateExtensions { .. }, InitEvent::Extensions(_)) => true,
        (InitStage::EnumerateLayers { .. }, InitEvent::Layers(reply)) => match reply {
            Ok(listed) => is_described(descriptor.flags, listed@),
            Err(_) => true,
        },
        (InitStage::ReadSdkVersion { .. }, InitEvent::SdkVersion(_)) => true,
        (InitStage::CreateInstance { .. }, InitEvent::Instance(_)) => true,
        _ => false,
    }
}

/// Whether an event reports a failure that ends the creation.
pub open spec fn is_failure(event: InitEvent) -> bool {
    match event {
        InitEvent::Entry(loaded) => !loaded,
        InitEvent::Version(reply) => reply is Err,
        InitEvent::Extensions(reply) => reply is Err,
        InitEvent::Layers(reply) => reply is Err,
        InitEvent::SdkVersion(_) => false,
        InitEvent::Instance(reply) => reply is Err,
    }
}

/// Whether a stage is the first to hold a plan: the version of the SDK is read first on
/// Android, and is zero on other platforms.
pub open spec fn is_ready(stage: InitStage, platform: Platform) -> bool {
    match stage {
        InitStage::ReadSdkVersion { .. } => platform.os == TargetOs::Android,
        InitStage::CreateInstance { android_sdk_version, .. } => platform.os != TargetOs::Android
            && android_sdk_version == 0,
        _ => false,
    }
}

/// The plan that a stage holds.
pub open spec fn plan_of(stage: InitStage) -> InstancePlan
    recommends
        stage is ReadSdkVersion || stage is CreateInstance || stage is Created,
{
    match stage {
        InitStage::ReadSdkVersion { plan } => plan,
        InitStage::CreateInstance { plan, .. } => plan,
        InitStage::Created { plan, .. } => plan,
        _ => arbitrary(),
    }
}

/// Whether `next` is the stage that an event leads to.
pub open spec fn leads_to(
    descriptor: InstanceDescriptor,
    platform: Platform,
    stage: InitStage,
    event: InitEvent,
    next: InitStage,
) -> bool {
    if is_failure(event) {
        next == InitStage::Failed(InstanceError)
    } else {
        match (stage, event) {
            (InitStage::LoadEntry, InitEvent::Entry(_)) => next == InitStage::EnumerateVersion,
            (InitStage::EnumerateVersion, InitEvent::Version(reply)) => {
                &&& next matches InitStage::EnumerateExtensions {
                    driver_api_version,
                    application_info,
                }
                &&& driver_api_version == version_of(reply->Ok_0)
                &&& is_application_info(application_info, descriptor.name@, driver_api_version)
            },
            (
                InitStage::EnumerateExtensions { driver_api_version, application_info },
                InitEvent::Extensions(reply),
            ) => {
                &&& next matches InitStage::EnumerateLayers {
                    driver_api_version: version,
                    application_info: info,
                    extensions,
                }
                &&& version == driver_api_version
                &&& info == application_info
                &&& views(extensions@) == required_names(reply->Ok_0@, descriptor.flags, platform)
            },
            (
                InitStage::EnumerateLayers { driver_api_version, application_info, extensions },
                InitEvent::Layers(reply),
            ) => {
                &&& is_ready(next, platform)
                &&& is_plan(
                    plan_of(next),
                    driver_api_version,
                    application_info,
                    extensions,
                    descriptor.flags,
                    reply->Ok_0@,
                )
            },
            (InitStage::ReadSdkVersion { plan }, InitEvent::SdkVersion(property)) => next == (
            InitStage::CreateInstance { plan, android_sdk_version: sdk_version(property) }),
            (
                InitStage::CreateInstance { plan, android_sdk_version },
                InitEvent::Instance(_),
            ) => next == (InitStage::Created { plan, android_sdk_version }),
            _ => false,
        }
    }
}

/// Whether the instance of a finished creation was taken over as planned, with the flags
/// of the descriptor and the version of the SDK that was read.
pub open spec fn is_finished<E, R, G>(
    pending: PendingInstance<E, R, G>,
    stage: InitStage,
    descriptor: InstanceDescriptor,
    entry: E,
    raw_instance: R,
    drop_guard: G,
) -> bool {
    is_taken_over(
        pending,
        entry,
        raw_instance,
        plan_of(stage).driver_api_version,
        stage->Created_android_sdk_version,
        plan_of(stage).debug_user_data,
        plan_of(stage).extensions,
        descriptor.flags,
        plan_of(stage).has_nv_optimus,
        Some(drop_guard),
    )
}

/// More digits never make a smaller number.
pub(crate) proof fn decimal_value_grows(digits: Seq<char>, n: int)
    requires
        are_digits(digits),
        0 <= n <= digits.len(),
    ensures
        0 <= decimal_value(digits.take(n)) <= decimal_value(digits),
    decreases digits.len(),
{
    if n == digits.len() {
        assert(digits.take(n) =~= digits);
        if n > 0 {
            decimal_value_grows(digits.drop_last(), n - 1);
        }
    } else {
        decimal_value_grows(digits.drop_last(), n);
        assert(digits.drop_last().take(n) =~= digits.take(n));
    }
}

/// The number that a text holds.
pub fn parse_number(text: &str) -> (number: Option<u32>)
    ensures
        number == number_of(text@),
{
    let len: usize = text.unicode_len();
    let start: usize = if len > 0 && text.get_char(0) == '+' {
        1
    } else {
        0
    };
    let ghost digits = text@.skip(start as int);
    assert(text@.skip(0) =~= text@);
    if start == len {
        return None;
    }
    let mut number: u32 = 0;
    let mut i: usize = start;
    while i < len
        invariant
            start <= i <= len,
            len == text@.len(),
            digits == text@.skip(start as int),
            number_of(text@) == if are_digits(digits) && decimal_value(digits) <= u32::MAX {
                Some(decimal_value(digits) as u32)
            } else {
                None
            },
            are_digits(digits.take(i - start)),
            number == decimal_value(digits.take(i - start)),
        decreases len - i,
    {
        let digit: char = text.get_char(i);
        assert(digits[i - start] == digit);
        if digit < '0' || digit > '9' {
            return None;
        }
        let longer: u64 = number as u64 * 10 + (digit as u64 - '0' as u64);
        i += 1;
        proof {
            let now = digits.take(i - start);
            assert(now.drop_last() =~= digits.take(i - start - 1));
            assert(longer == decimal_value(now));
            if are_digits(digits) {
                decimal_value_grows(digits, i - start);
            }
        }
        if longer > u32::MAX as u64 {
            return None;
        }
        number = longer as u32;
    }
    assert(digits.take(len - start) =~= digits);
    Some(number)
}

/// The first layer of the given name.
pub fn find_layer(listed: &Vec<LayerProperties>, name: &CName) -> (found: Option<usize>)
    ensures
        match found {
            Some(i) => is_first_named(listed@, name@, i as int),
            None => forall|i: int|
                0 <= i < listed@.len() ==> !is_named(#[trigger] listed@[i], name@),
        },
{
    let mut i: usize = 0;
    while i < listed.len()
        invariant
            i <= listed@.len(),
            forall|j: int| 0 <= j < i ==> !is_named(#[trigger] listed@[j], name@),
        decreases listed@.len() - i,
    {
        match cstr_from_bytes_until_nul(listed[i].layer_name.as_slice()) {
            Some(n) => {
                if n == *name {
                    return Some(i);
                }
            },
            None => {},
        }
        i += 1;
    }
    None
}

fn has_layer(listed: &Vec<LayerProperties>, layer: Layer) -> (found: bool)
    ensures
        found == lists_layer(listed@, layer),
{
    find_layer(listed, &layer.name()).is_some()
}

/// What the driver is told of an application.
pub fn application_info(name: &String, driver_api_version: u32) -> (info: ApplicationInfo)
    ensures
        is_application_info(info, name@, driver_api_version),
{
    proof {
        reveal_strlit("wgpu-hal");
        assert(is_plain("wgpu-hal"@));
        plain_text_has_no_nul("wgpu-hal"@);
    }
    ApplicationInfo {
        application_name: name.clone(),
        application_version: 1,
        engine_name: CName::from_nul_free(vstd::slice::slice_to_vec("wgpu-hal".as_bytes())),
        engine_version: 2,
        api_version: if driver_api_version < api_version_1_1() {
            api_version_1_0()
        } else {
            header_version_complete()
        },
    }
}

/// What an instance is created with, by the layers that the driver lists.
pub fn plan_instance(
    driver_api_version: u32,
    application_info: ApplicationInfo,
    extensions: Vec<CName>,
    flags: InstanceFlags,
    listed: &Vec<LayerProperties>,
) -> (plan: InstancePlan)
    requires
        is_described(flags, listed@),
    ensures
        is_plan(plan, driver_api_version, application_info, extensions, flags, listed@),
{
    let has_portability_enumeration: bool = contains_name(
        extensions.as_slice(),
        &Extension::PortabilityEnumeration.name(),
    );
    let has_nv_optimus: bool = has_layer(listed, Layer::NvOptimus);
    let has_obs_layer: bool = has_layer(listed, Layer::ObsHook);
    let mut layers: Vec<CName> = Vec::new();
    let mut debug_user_data: Option<DebugUtilsMessengerUserData> = None;
    assert(views(layers@) =~= Seq::empty());
    if flags.validation {
        let validation_layer_name: CName = Layer::KhronosValidation.name();
        if let Some(i) = find_layer(listed, &validation_layer_name) {
            layers.push(validation_layer_name);
            assert(views(layers@) =~= seq![Layer::KhronosValidation.bytes()]);
            assert(until_nul(listed@[i as int].description@) is Some);
            debug_user_data =
            Some(
                DebugUtilsMessengerUserData {
                    validation_layer_description: cstr_from_bytes_until_nul(
                        listed[i].description.as_slice(),
                    ).unwrap(),
                    validation_layer_spec_version: listed[i].spec_version,
                    has_obs_layer,
                },
            );
        }
    }
    // Incomplete implementations are asked for only where the extension that provides
    // the flag was found.
    let bits: u32 = if has_portability_enumeration {
        enumerate_portability_bit()
    } else {
        0
    };
    InstancePlan {
        application_info,
        flags: bits,
        layers,
        extensions,
        driver_api_version,
        has_nv_optimus,
        debug_user_data,
    }
}

fn read_sdk_version(property: &Option<String>) -> (version: u32)
    ensures
        version == sdk_version(*property),
{
    match property {
        Some(text) => match parse_number(text.as_str()) {
            Some(version) => version,
            None => 0,
        },
        None => 0,
    }
}

impl InitStage {
    /// Where the creation of an instance starts.
    pub fn start() -> (stage: InitStage)
        ensures
            stage == InitStage::LoadEntry,
    {
        InitStage::LoadEntry
    }

    /// Goes on with what came of this stage.
    pub fn advance(
        self,
        descriptor: &InstanceDescriptor,
        platform: Platform,
        event: InitEvent,
    ) -> (next: InitStage)
        requires
            expects(*descriptor, self, event),
        ensures
            leads_to(*descriptor, platform, self, event, next),
    {
        match (self, event) {
            (InitStage::LoadEntry, InitEvent::Entry(true)) => InitStage::EnumerateVersion,
            (InitStage::EnumerateVersion, InitEvent::Version(Ok(reply))) => {
                let driver_api_version: u32 = match reply {
                    Some(version) => version,
                    None => api_version_1_0(),
                };
                InitStage::EnumerateExtensions {
                    driver_api_version,
                    application_info: application_info(&descriptor.name, driver_api_version),
                }
            },
            (
                InitStage::EnumerateExtensions { driver_api_version, application_info },
                InitEvent::Extensions(reply),
            ) => {
                match Instance::<(), (), ()>::required_extensions(
                    reply,
                    driver_api_version,
                    descriptor.flags,
                    platform,
                ) {
                    Ok(extensions) => InitStage::EnumerateLayers {
                        driver_api_version,
                        application_info,
                        extensions,
                    },
                    Err(error) => InitStage::Failed(error),
                }
            },
            (
                InitStage::EnumerateLayers { driver_api_version, application_info, extensions },
                InitEvent::Layers(Ok(listed)),
            ) => {
                let plan: InstancePlan = plan_instance(
                    driver_api_version,
                    application_info,
                    extensions,
                    descriptor.flags,
                    &listed,
                );
                if platform.os == TargetOs::Android {
                    InitStage::ReadSdkVersion { plan }
                } else {
                    InitStage::CreateInstance { plan, android_sdk_version: 0 }
                }
            },
            (InitStage::ReadSdkVersion { plan }, InitEvent::SdkVersion(property)) => {
                InitStage::CreateInstance { plan, android_sdk_version: read_sdk_version(&property) }
            },
            (
                InitStage::CreateInstance { plan, android_sdk_version },
                InitEvent::Instance(Ok(_)),
            ) => InitStage::Created { plan, android_sdk_version },
            // What is left are the failures: no other event answers a stage.
            (_, _) => InitStage::Failed(InstanceError),
        }
    }

    /// Takes over the instance that the driver created. The instance is destroyed with
    /// what it is taken over by, since there is a guard.
    pub fn finish<E, R, G>(
        self,
        descriptor: &InstanceDescriptor,
        entry: E,
        raw_instance: R,
        drop_guard: G,
    ) -> (pending: Result<PendingInstance<E, R, G>, InstanceError>)
        requires
            self is Created,
        ensures
            pending matches Ok(p) && {
                &&& p.wf()
                &&& is_finished(p, self, *descriptor, entry, raw_instance, drop_guard)
            },
    {
        match self {
            InitStage::Created { plan, android_sdk_version } => Instance::from_raw(
                entry,
                raw_instance,
                plan.driver_api_version,
                android_sdk_version,
                plan.debug_user_data,
                plan.extensions,
                descriptor.flags,
                plan.has_nv_optimus,
                Some(drop_guard),
            ),
            // No other stage has an instance.
            _ => Err(InstanceError),
        }
    }
}

} // verus!
