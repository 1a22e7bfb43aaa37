//! The creation of an instance: what it asks for, what it makes of the answers and what it
//! ends with.

use vstd::arithmetic::power::{lemma_pow_adds, pow};
use vstd::prelude::*;
use vstd::utf8::encode_utf8;

use crate::extension::{layer_text_is_plain, Layer};
use crate::init::{
    are_digits, decimal_value, expects, is_application_info, is_failure, is_finished,
    is_first_named, is_named, is_plan, leads_to, lists_layer, number_of, requested_version,
    sdk_version, version_of, ApplicationInfo, InitEvent, InitStage, InstanceDescriptor,
    InstancePlan, LayerProperties,
};
use crate::instance::{required_names, ExtensionProperties, InstanceFlags, PendingInstance};
use crate::names::{plain_text_has_no_nul, until_nul, views, CName};
use crate::platform::{Platform, TargetOs};
use crate::promises::{holds, name_is_read_iff_buffer_starts_with_it, offers_layer};

verus! {

proof fn named_iff_held(listed: Seq<LayerProperties>, layer: Layer)
    ensures
        lists_layer(listed, layer) <==> offers_layer(listed, layer.text()),
        forall|i: int|
            0 <= i < listed.len() ==> is_named(#[trigger] listed[i], layer.bytes()) == holds(
                listed[i].layer_name@,
                layer.text(),
            ),
{
    layer_text_is_plain(layer);
    plain_text_has_no_nul(layer.text());
    assert forall|i: int| 0 <= i < listed.len() implies is_named(
        #[trigger] listed[i],
        layer.bytes(),
    ) == holds(listed[i].layer_name@, layer.text()) by {
        name_is_read_iff_buffer_starts_with_it(listed[i].layer_name@, layer.bytes());
    }
    if lists_layer(listed, layer) {
        let i = choose|i: int|
            0 <= i < listed.len() && is_named(#[trigger] listed[i], layer.bytes());
        assert(holds(listed[i].layer_name@, layer.text()));
    }
    if offers_layer(listed, layer.text()) {
        let i = choose|i: int|
            0 <= i < listed.len() && holds(#[trigger] listed[i].layer_name@, layer.text());
        assert(is_named(listed[i], layer.bytes()));
    }
}

/// A driver has the version that it tells, and version 1.0 where it cannot tell.
pub proof fn drivers_have_the_version_they_tell(reply: Option<u32>)
    ensures
        reply matches Some(version) ==> version_of(reply) == version,
        reply is None ==> version_of(reply) == 0x400000,
{
}

/// A driver below version 1.1 is asked for version 1.0, any other for 1.3.251.
pub proof fn versions_are_asked_for_like_this(driver_api_version: int)
    ensures
        driver_api_version < 0x401000 ==> requested_version(driver_api_version) == 0x400000,
        driver_api_version >= 0x401000 ==> requested_version(driver_api_version) == 0x4030fb,
{
}

/// What a driver is told of the application and of the engine.
pub proof fn applications_are_introduced_like_this(
    info: ApplicationInfo,
    name: Seq<char>,
    driver_api_version: u32,
)
    requires
        is_application_info(info, name, driver_api_version),
    ensures
        info.application_name@ == name,
        info.application_version == 1,
        info.engine_name@ == encode_utf8("wgpu-hal"@),
        info.engine_version == 2,
        driver_api_version < 0x401000 ==> info.api_version == 0x400000,
        driver_api_version >= 0x401000 ==> info.api_version == 0x4030fb,
{
}

/// Whether a plan enables the validation layer if and only if the flag for validation asks
/// for it and the driver offers it, and enables no other layer.
pub open spec fn validates_as_asked(
    plan: InstancePlan,
    flags: InstanceFlags,
    listed: Seq<LayerProperties>,
) -> bool {
    let name = encode_utf8("VK_LAYER_KHRONOS_validation"@);
    let asked = flags.validation && offers_layer(listed, "VK_LAYER_KHRONOS_validation"@);
    &&& views(plan.layers@).contains(name) <==> asked
    &&& views(plan.layers@).len() == if asked { 1int } else { 0 }
    &&& plan.debug_user_data is Some <==> asked
}

/// Whether a plan tells the callback what the first layer of the validation layer's name
/// tells of itself, and whether the OBS layer is there.
pub open spec fn tells_the_callback(plan: InstancePlan, listed: Seq<LayerProperties>) -> bool {
    plan.debug_user_data matches Some(data) ==> {
        &&& data.has_obs_layer <==> offers_layer(listed, "VK_LAYER_OBS_HOOK"@)
        &&& exists|i: int|
            {
                &&& 0 <= i < listed.len()
                &&& holds(
                    (#[trigger] listed[i]).layer_name@,
                    "VK_LAYER_KHRONOS_validation"@,
                )
                &&& forall|j: int|
                    0 <= j < i ==> !holds(
                        (#[trigger] listed[j]).layer_name@,
                        "VK_LAYER_KHRONOS_validation"@,
                    )
                &&& data.validation_layer_description@.push(0u8).is_prefix_of(
                    listed[i].description@,
                )
                &&& !data.validation_layer_description@.contains(0u8)
                &&& data.validation_layer_spec_version == listed[i].spec_version
            }
    }
}

/// What an instance is created with, by what was asked for and by the layers that the
/// driver offers. Incomplete implementations are asked for if and only if the extension
/// for it is among the instance's.
pub proof fn plans_are_what_was_asked_for(
    plan: InstancePlan,
    driver_api_version: u32,
    application_info: ApplicationInfo,
    extensions: Vec<CName>,
    flags: InstanceFlags,
    listed: Seq<LayerProperties>,
)
    requires
        is_plan(plan, driver_api_version, application_info, extensions, flags, listed),
    ensures
        plan.driver_api_version == driver_api_version,
        plan.application_info == application_info,
        plan.extensions == extensions,
        views(extensions@).contains(encode_utf8("VK_KHR_portability_enumeration"@)) ==> plan.flags
            == 1,
        !views(extensions@).contains(encode_utf8("VK_KHR_portability_enumeration"@))
            ==> plan.flags == 0,
        plan.has_nv_optimus <==> offers_layer(listed, "VK_LAYER_NV_optimus"@),
        validates_as_asked(plan, flags, listed),
        tells_the_callback(plan, listed),
{
    named_iff_held(listed, Layer::NvOptimus);
    named_iff_held(listed, Layer::ObsHook);
    named_iff_held(listed, Layer::KhronosValidation);
    let name = Layer::KhronosValidation.bytes();
    if plan.debug_user_data is Some {
        let data = plan.debug_user_data->0;
        assert(views(plan.layers@)[0] == name);
        let some = choose|i: int| 0 <= i < listed.len() && is_named(#[trigger] listed[i], name);
        let i = first_named(listed, name, some);
        let description = listed[i].description@;
        crate::laws::name_read_is_a_prefix(description);
        name_is_read_iff_buffer_starts_with_it(description, data.validation_layer_description@);
        assert(holds(listed[i].layer_name@, "VK_LAYER_KHRONOS_validation"@));
    }
}

/// Where a layer has a name, there is a first one that has.
proof fn first_named(listed: Seq<LayerProperties>, name: Seq<u8>, i: int) -> (first: int)
    requires
        0 <= i < listed.len(),
        is_named(listed[i], name),
    ensures
        is_first_named(listed, name, first),
    decreases i,
{
    if exists|j: int| 0 <= j < i && is_named(#[trigger] listed[j], name) {
        let j = choose|j: int| 0 <= j < i && is_named(#[trigger] listed[j], name);
        first_named(listed, name, j)
    } else {
        i
    }
}

/// The plan that a creation comes to once the layers were listed has the validation layer
/// if and only if the descriptor's flag for validation asks for it and the driver offers
/// it. Its other flag has no part in it.
pub proof fn creation_validates_as_asked(
    descriptor: InstanceDescriptor,
    platform: Platform,
    stage: InitStage,
    listed: Vec<LayerProperties>,
    next: InitStage,
)
    requires
        stage is EnumerateLayers,
        leads_to(descriptor, platform, stage, InitEvent::Layers(Ok(listed)), next),
    ensures
        platform.os == TargetOs::Android ==> next is ReadSdkVersion && validates_as_asked(
            next->ReadSdkVersion_plan,
            descriptor.flags,
            listed@,
        ),
        platform.os != TargetOs::Android ==> next is CreateInstance && validates_as_asked(
            next->CreateInstance_plan,
            descriptor.flags,
            listed@,
        ) && next->CreateInstance_android_sdk_version == 0,
{
    let plan = if platform.os == TargetOs::Android {
        next->ReadSdkVersion_plan
    } else {
        next->CreateInstance_plan
    };
    plans_are_what_was_asked_for(
        plan,
        stage->EnumerateLayers_driver_api_version,
        stage->EnumerateLayers_application_info,
        stage->EnumerateLayers_extensions,
        descriptor.flags,
        listed@,
    );
}

/// Two plans for the same layers that differ in the debug flag alone enable the same
/// layers, and tell the callback the same.
pub proof fn debugging_does_not_change_the_layers(
    plan: InstancePlan,
    other: InstancePlan,
    driver_api_version: u32,
    application_info: ApplicationInfo,
    extensions: Vec<CName>,
    other_extensions: Vec<CName>,
    flags: InstanceFlags,
    other_flags: InstanceFlags,
    listed: Seq<LayerProperties>,
)
    requires
        is_plan(plan, driver_api_version, application_info, extensions, flags, listed),
        is_plan(
            other,
            driver_api_version,
            application_info,
            other_extensions,
            other_flags,
            listed,
        ),
        flags.validation == other_flags.validation,
    ensures
        views(plan.layers@) == views(other.layers@),
        plan.has_nv_optimus == other.has_nv_optimus,
        plan.debug_user_data is Some == other.debug_user_data is Some,
        plan.debug_user_data is Some ==> plan.debug_user_data->0.has_obs_layer
            == other.debug_user_data->0.has_obs_layer,
{
}

/// What a creation does next, stage by stage, where the answer is no failure. What was
/// found out is kept.
pub proof fn creation_goes_on_like_this(
    descriptor: InstanceDescriptor,
    platform: Platform,
    version: Option<u32>,
    listed: Vec<ExtensionProperties>,
    layers: Vec<LayerProperties>,
    property: Option<String>,
    stage: InitStage,
    next: InitStage,
)
    ensures
        stage is LoadEntry && leads_to(descriptor, platform, stage, InitEvent::Entry(true), next)
            ==> next is EnumerateVersion,
        stage is EnumerateVersion && leads_to(
            descriptor,
            platform,
            stage,
            InitEvent::Version(Ok(version)),
            next,
        ) ==> {
            &&& next is EnumerateExtensions
            &&& next->EnumerateExtensions_driver_api_version == version_of(version)
            &&& is_application_info(
                next->EnumerateExtensions_application_info,
                descriptor.name@,
                next->EnumerateExtensions_driver_api_version,
            )
        },
        stage is EnumerateExtensions && leads_to(
            descriptor,
            platform,
            stage,
            InitEvent::Extensions(Ok(listed)),
            next,
        ) ==> {
            &&& next is EnumerateLayers
            &&& next->EnumerateLayers_driver_api_version
                == stage->EnumerateExtensions_driver_api_version
            &&& next->EnumerateLayers_application_info
                == stage->EnumerateExtensions_application_info
            &&& views(next->EnumerateLayers_extensions@) == required_names(
                listed@,
                descriptor.flags,
                platform,
            )
        },
        stage is EnumerateLayers && leads_to(
            descriptor,
            platform,
            stage,
            InitEvent::Layers(Ok(layers)),
            next,
        ) ==> {
            let plan = if platform.os == TargetOs::Android {
                next->ReadSdkVersion_plan
            } else {
                next->CreateInstance_plan
            };
            &&& platform.os == TargetOs::Android ==> next is ReadSdkVersion
            &&& platform.os != TargetOs::Android ==> next is CreateInstance
                && next->CreateInstance_android_sdk_version == 0
            &&& is_plan(
                plan,
                stage->EnumerateLayers_driver_api_version,
                stage->EnumerateLayers_application_info,
                stage->EnumerateLayers_extensions,
                descriptor.flags,
                layers@,
            )
        },
        stage is ReadSdkVersion && leads_to(
            descriptor,
            platform,
            stage,
            InitEvent::SdkVersion(property),
            next,
        ) ==> {
            &&& next is CreateInstance
            &&& next->CreateInstance_plan == stage->ReadSdkVersion_plan
            &&& next->CreateInstance_android_sdk_version == sdk_version(property)
        },
        stage is CreateInstance && leads_to(
            descriptor,
            platform,
            stage,
            InitEvent::Instance(Ok(())),
            next,
        ) ==> {
            &&& next is Created
            &&& next->Created_plan == stage->CreateInstance_plan
            &&& next->Created_android_sdk_version == stage->CreateInstance_android_sdk_version
        },
{
}

/// A creation fails at an answer if and only if the entry points cannot be loaded or the
/// driver reports an error. That the system property cannot be read is no failure.
pub proof fn creation_fails_like_this(
    descriptor: InstanceDescriptor,
    platform: Platform,
    stage: InitStage,
    event: InitEvent,
    next: InitStage,
)
    requires
        expects(descriptor, stage, event),
        leads_to(descriptor, platform, stage, event, next),
    ensures
        next is Failed <==> {
            ||| event == InitEvent::Entry(false)
            ||| event matches InitEvent::Version(Err(_))
            ||| event matches InitEvent::Extensions(Err(_))
            ||| event matches InitEvent::Layers(Err(_))
            ||| event matches InitEvent::Instance(Err(_))
        },
{
    assert(is_failure(event) <==> next is Failed);
}

/// Every answer to what a stage asks for is expected, but for a name of the application
/// that holds a zero and a description of the validation layer that does not end, where
/// these would be read.
pub proof fn every_answer_is_expected(
    descriptor: InstanceDescriptor,
    stage: InitStage,
    loaded: bool,
    version: Result<Option<u32>, i32>,
    listed: Result<Vec<ExtensionProperties>, i32>,
    layers: Result<Vec<LayerProperties>, i32>,
    property: Option<String>,
    reply: Result<(), i32>,
)
    ensures
        stage is LoadEntry ==> expects(descriptor, stage, InitEvent::Entry(loaded)),
        stage is EnumerateVersion && (version is Err || !descriptor.name@.contains('\0'))
            ==> expects(descriptor, stage, InitEvent::Version(version)),
        stage is EnumerateExtensions ==> expects(descriptor, stage, InitEvent::Extensions(listed)),
        stage is EnumerateLayers && (layers is Err || !descriptor.flags.validation) ==> expects(
            descriptor,
            stage,
            InitEvent::Layers(layers),
        ),
        stage is EnumerateLayers && layers is Ok && (forall|i: int|
            0 <= i < layers->Ok_0@.len() && holds(
                layers->Ok_0@[i].layer_name@,
                "VK_LAYER_KHRONOS_validation"@,
            ) ==> (#[trigger] layers->Ok_0@[i]).description@.contains(0u8)) ==> expects(
            descriptor,
            stage,
            InitEvent::Layers(layers),
        ),
        stage is ReadSdkVersion ==> expects(descriptor, stage, InitEvent::SdkVersion(property)),
        stage is CreateInstance ==> expects(descriptor, stage, InitEvent::Instance(reply)),
{
    if layers is Ok {
        let all = layers->Ok_0@;
        named_iff_held(all, Layer::KhronosValidation);
        assert forall|i: int|
            0 <= i < all.len() && all[i].description@.contains(0u8) implies until_nul(
            #[trigger] all[i].description@,
        ) is Some by {
            crate::laws::name_read_is_a_prefix(all[i].description@);
        }
    }
}

/// An instance whose creation is finished keeps the descriptor's flags, what was planned
/// for it and the version of the SDK that was read, and is destroyed in the end.
pub proof fn finished_creation_keeps_everything<E, R, G>(
    pending: PendingInstance<E, R, G>,
    stage: InitStage,
    descriptor: InstanceDescriptor,
    entry: E,
    raw_instance: R,
    drop_guard: G,
)
    requires
        stage is Created,
        is_finished(pending, stage, descriptor, entry, raw_instance, drop_guard),
    ensures
        pending.shared.entry == entry,
        pending.shared.raw == raw_instance,
        pending.shared.drop_guard == Some(drop_guard),
        pending.shared.flags == descriptor.flags,
        pending.shared.driver_api_version == stage->Created_plan.driver_api_version,
        pending.shared.extensions == stage->Created_plan.extensions,
        pending.shared.has_nv_optimus == stage->Created_plan.has_nv_optimus,
        pending.shared.android_sdk_version == stage->Created_android_sdk_version,
        pending.messenger is Some <==> stage->Created_plan.debug_user_data is Some && views(
            stage->Created_plan.extensions@,
        ).contains(encode_utf8("VK_EXT_debug_utils"@)),
        pending.messenger matches Some(request) ==> Some(*request.callback_data)
            == stage->Created_plan.debug_user_data,
{
}

/// Digits are worth what they are worth in decimal: those of a text that goes on count for
/// tenfold with every digit that follows.
pub proof fn digits_count_tenfold(first: Seq<char>, second: Seq<char>, digit: char)
    ensures
        decimal_value(first + second) == decimal_value(first) * pow(10, second.len())
            + decimal_value(second),
        decimal_value(seq![digit]) == digit as int - '0' as int,
        decimal_value(Seq::empty()) == 0,
    decreases second.len(),
{
    assert(seq![digit].drop_last() =~= Seq::empty());
    assert(decimal_value(Seq::empty()) == 0);
    if second.len() == 0 {
        assert(first + second =~= first);
        vstd::arithmetic::power::lemma_pow0(10);
    } else {
        let all = first + second;
        let rest = second.drop_last();
        assert(all.last() == second.last());
        assert(all.drop_last() =~= first + rest);
        digits_count_tenfold(first, rest, digit);
        lemma_pow_adds(10, rest.len(), 1);
        vstd::arithmetic::power::lemma_pow1(10);
        let (v, p) = (decimal_value(first), pow(10, rest.len()));
        assert(v * (p * 10) == (v * p) * 10) by (nonlinear_arith);
    }
}

/// A text holds a number if and only if it is made of digits alone and the number fits 32
/// bits. One plus sign may precede the digits.
pub proof fn numbers_are_digits(text: Seq<char>)
    ensures
        number_of(text) is Some ==> text.len() > 0,
        text.len() > 0 && text[0] != '+' ==> (number_of(text) is Some <==> {
            &&& forall|i: int| 0 <= i < text.len() ==> '0' <= #[trigger] text[i] <= '9'
            &&& decimal_value(text) <= 0xffff_ffff
        }),
        text.len() > 0 && text[0] != '+' ==> (number_of(text) matches Some(number) ==> number
            == decimal_value(text)),
        text.len() > 0 && text[0] != '+' ==> number_of(seq!['+'] + text) == number_of(text),
        text.len() > 0 && text[0] == '+' ==> number_of(seq!['+'] + text) is None,
        number_of(seq!['+']) is None,
{
    let signed = seq!['+'] + text;
    assert(signed.skip(1) =~= text);
    assert(seq!['+'].skip(1).len() == 0);
    if are_digits(text) {
        crate::init::decimal_value_grows(text, text.len() as int);
    }
}

/// The version of the SDK is the number that the property holds, and zero where there is no
/// property or no number in it.
pub proof fn sdk_versions_are_read(property: Option<String>)
    ensures
        property is None ==> sdk_version(property) == 0,
        property matches Some(text) ==> (number_of(text@) is None ==> sdk_version(property) == 0),
        property matches Some(text) ==> (number_of(text@) matches Some(number) ==> sdk_version(
            property,
        ) == number),
{
}

/// The first layer of a name is one that holds it, and none before it does.
pub proof fn first_layers_come_first(listed: Seq<LayerProperties>, name: Seq<u8>, i: int)
    requires
        !name.contains(0u8),
        0 <= i < listed.len(),
    ensures
        is_named(listed[i], name) <==> name.push(0u8).is_prefix_of(listed[i].layer_name@),
        is_first_named(listed, name, i) <==> {
            &&& is_named(listed[i], name)
            &&& forall|j: int| 0 <= j < i ==> !is_named(#[trigger] listed[j], name)
        },
{
    name_is_read_iff_buffer_starts_with_it(listed[i].layer_name@, name);
}

} // verus!
