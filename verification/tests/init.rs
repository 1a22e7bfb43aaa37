use ash::vk;
use vulkan_instance::debug::DebugUtilsMessengerUserData;
use vulkan_instance::extension::{Extension, Layer};
use vulkan_instance::init::{
    application_info, find_layer, parse_number, InitEvent, InitStage, InstanceDescriptor,
    InstancePlan, LayerProperties,
};
use vulkan_instance::instance::{ExtensionProperties, InstanceError, InstanceFlags};
use vulkan_instance::platform::{Platform, TargetOs};

const LINUX: Platform = Platform { unix: true, os: TargetOs::Linux };
const ANDROID: Platform = Platform { unix: true, os: TargetOs::Android };
const MACOS: Platform = Platform { unix: true, os: TargetOs::MacOs };

fn descriptor(debug: bool, validation: bool) -> InstanceDescriptor {
    InstanceDescriptor {
        name: "demo".to_string(),
        flags: InstanceFlags { debug, validation },
    }
}

fn buffer(text: &[u8]) -> Vec<u8> {
    let mut bytes = text.to_vec();
    bytes.resize(256, 0);
    bytes
}

fn extensions(listed: &[Extension]) -> InitEvent {
    InitEvent::Extensions(Ok(listed
        .iter()
        .map(|extension| ExtensionProperties {
            extension_name: buffer(extension.name().as_bytes()),
        })
        .collect()))
}

fn layer(layer: Layer, description: &[u8], spec_version: u32) -> LayerProperties {
    LayerProperties {
        layer_name: buffer(layer.name().as_bytes()),
        spec_version,
        description: buffer(description),
    }
}

fn run(descriptor: &InstanceDescriptor, platform: Platform, events: Vec<InitEvent>) -> InitStage {
    let mut stage = InitStage::start();
    for event in events {
        stage = stage.advance(descriptor, platform, event);
    }
    stage
}

fn listed(
    descriptor: &InstanceDescriptor,
    platform: Platform,
    available: &[Extension],
    layers: Vec<LayerProperties>,
) -> InitStage {
    run(
        descriptor,
        platform,
        vec![
            InitEvent::Entry(true),
            InitEvent::Version(Ok(Some(vk::API_VERSION_1_3))),
            extensions(available),
            InitEvent::Layers(Ok(layers)),
        ],
    )
}

fn plan(stage: InitStage) -> (InstancePlan, u32) {
    match stage {
        InitStage::CreateInstance { plan, android_sdk_version } => (plan, android_sdk_version),
        InitStage::Created { plan, android_sdk_version } => (plan, android_sdk_version),
        other => panic!("no plan: {:?}", other),
    }
}

fn is_failed(stage: &InitStage) -> bool {
    matches!(stage, InitStage::Failed(InstanceError))
}

#[test]
fn creation_starts_with_the_entry_points() {
    assert!(matches!(InitStage::start(), InitStage::LoadEntry));
}

#[test]
fn application_is_introduced() {
    let info = application_info(&"demo".to_string(), vk::API_VERSION_1_0);
    assert_eq!(info.application_name, "demo");
    assert_eq!(info.application_version, 1);
    assert_eq!(info.engine_name.as_bytes(), b"wgpu-hal");
    assert_eq!(info.engine_version, 2);
    assert_eq!(info.api_version, vk::API_VERSION_1_0);
}

#[test]
fn version_asked_for_depends_on_the_driver() {
    let ask = |version: u32| application_info(&String::new(), version).api_version;
    assert_eq!(ask(vk::API_VERSION_1_0), 0x40_0000);
    assert_eq!(ask(vk::make_api_version(0, 1, 0, 4095)), 0x40_0000);
    assert_eq!(ask(vk::API_VERSION_1_1), vk::HEADER_VERSION_COMPLETE);
    assert_eq!(ask(vk::API_VERSION_1_3), 0x40_30fb);
}

#[test]
fn driver_that_cannot_tell_has_the_first_version() {
    let stage = run(
        &descriptor(false, false),
        LINUX,
        vec![InitEvent::Entry(true), InitEvent::Version(Ok(None))],
    );
    match stage {
        InitStage::EnumerateExtensions { driver_api_version, application_info } => {
            assert_eq!(driver_api_version, vk::API_VERSION_1_0);
            assert_eq!(application_info.api_version, vk::API_VERSION_1_0);
            assert_eq!(application_info.application_name, "demo");
        }
        other => panic!("unexpected stage: {:?}", other),
    }
}

#[test]
fn plan_of_a_plain_instance() {
    let available = [Extension::Surface, Extension::XcbSurface];
    let (plan, sdk) = plan(listed(&descriptor(false, false), LINUX, &available, Vec::new()));
    assert_eq!(sdk, 0);
    assert_eq!(plan.flags, 0);
    assert!(plan.layers.is_empty());
    assert_eq!(plan.extensions.len(), 2);
    assert_eq!(plan.extensions[0].as_bytes(), b"VK_KHR_surface");
    assert_eq!(plan.extensions[1].as_bytes(), b"VK_KHR_xcb_surface");
    assert_eq!(plan.driver_api_version, vk::API_VERSION_1_3);
    assert!(!plan.has_nv_optimus);
    assert!(plan.debug_user_data.is_none());
}

#[test]
fn validation_layer_is_enabled_when_asked_for_and_listed() {
    let layers = || {
        vec![
            layer(Layer::NvOptimus, b"optimus", 1),
            layer(Layer::KhronosValidation, b"Khronos Validation Layer", 7),
            layer(Layer::KhronosValidation, b"a second one", 8),
            layer(Layer::ObsHook, b"obs", 2),
        ]
    };
    let (with, _) = plan(listed(&descriptor(true, true), LINUX, &[], layers()));
    assert_eq!(with.layers.len(), 1);
    assert_eq!(with.layers[0].as_bytes(), b"VK_LAYER_KHRONOS_validation");
    assert!(with.has_nv_optimus);
    let data: DebugUtilsMessengerUserData = with.debug_user_data.unwrap();
    assert_eq!(data.validation_layer_description.as_bytes(), b"Khronos Validation Layer");
    assert_eq!(data.validation_layer_spec_version, 7);
    assert!(data.has_obs_layer);

    let (unasked, _) = plan(listed(&descriptor(true, false), LINUX, &[], layers()));
    assert!(unasked.layers.is_empty());
    assert!(unasked.debug_user_data.is_none());

    let unlisted = vec![layer(Layer::ObsHook, b"obs", 2)];
    let (missing, _) = plan(listed(&descriptor(true, true), LINUX, &[], unlisted));
    assert!(missing.layers.is_empty());
    assert!(missing.debug_user_data.is_none());
    assert!(!missing.has_nv_optimus);
}

#[test]
fn obs_layer_is_told_to_the_callback() {
    let layers = vec![layer(Layer::KhronosValidation, b"v", 7)];
    let (plan, _) = plan(listed(&descriptor(true, true), LINUX, &[], layers));
    assert!(!plan.debug_user_data.unwrap().has_obs_layer);
}

#[test]
fn incomplete_implementations_are_asked_for_on_macos() {
    let available = [Extension::PortabilityEnumeration];
    let (mac, _) = plan(listed(&descriptor(false, false), MACOS, &available, Vec::new()));
    assert_eq!(mac.flags, vk::InstanceCreateFlags::ENUMERATE_PORTABILITY_KHR.as_raw());
    assert_eq!(mac.flags, 1);
    let (bare, _) = plan(listed(&descriptor(false, false), MACOS, &[], Vec::new()));
    assert_eq!(bare.flags, 0);
    let (linux, _) = plan(listed(&descriptor(false, false), LINUX, &available, Vec::new()));
    assert_eq!(linux.flags, 0);
}

fn sdk(property: Option<&str>) -> u32 {
    let descriptor = descriptor(false, false);
    let stage = listed(&descriptor, ANDROID, &[], Vec::new());
    assert!(matches!(stage, InitStage::ReadSdkVersion { .. }));
    let event = InitEvent::SdkVersion(property.map(|text| text.to_string()));
    plan(stage.advance(&descriptor, ANDROID, event)).1
}

#[test]
fn sdk_version_is_read_on_android() {
    assert_eq!(sdk(Some("30")), 30);
    assert_eq!(sdk(Some("+29")), 29);
    assert_eq!(sdk(Some("007")), 7);
    assert_eq!(sdk(Some("4294967295")), u32::MAX);
}

#[test]
fn sdk_version_that_is_no_number_is_zero() {
    assert_eq!(sdk(None), 0);
    assert_eq!(sdk(Some("")), 0);
    assert_eq!(sdk(Some("+")), 0);
    assert_eq!(sdk(Some("-1")), 0);
    assert_eq!(sdk(Some("30 ")), 0);
    assert_eq!(sdk(Some("3_0")), 0);
    assert_eq!(sdk(Some("4294967296")), 0);
}

#[test]
fn numbers_are_read_as_std_reads_them() {
    let texts = [
        "", "+", "-", "-0", "++1", "+-1", "1+", "0", "+0", "00", "9", "10", "33", "+007", " 7",
        "7 ", "7\n", "0x7", "3_0", "1.0", "a", "7a", "٣", "3٣", "é", "429496729", "4294967295",
        "+4294967295", "4294967296", "4294967300", "42949672950", "00000000004294967295",
        "99999999999999999999999", "99999999999x", "+99999999999",
    ];
    for text in texts {
        assert_eq!(parse_number(text), text.parse::<u32>().ok(), "{:?}", text);
    }
}

#[test]
fn every_failure_ends_the_creation() {
    let descriptor = descriptor(false, false);
    let go_on = || {
        vec![
            InitEvent::Entry(true),
            InitEvent::Version(Ok(None)),
            extensions(&[]),
            InitEvent::Layers(Ok(Vec::new())),
        ]
    };
    let failures = vec![
        InitEvent::Entry(false),
        InitEvent::Version(Err(-1)),
        InitEvent::Extensions(Err(-2)),
        InitEvent::Layers(Err(-3)),
        InitEvent::Instance(Err(-9)),
    ];
    for (done, failure) in failures.into_iter().enumerate() {
        let mut events: Vec<InitEvent> = go_on().into_iter().take(done).collect();
        events.push(failure);
        assert!(is_failed(&run(&descriptor, LINUX, events)));
    }
}

#[test]
fn finished_instance_keeps_flags_and_sdk_version() {
    for (debug, validation) in [(false, false), (false, true), (true, false), (true, true)] {
        let descriptor = descriptor(debug, validation);
        let layers = vec![layer(Layer::KhronosValidation, b"v", 9)];
        let stage = listed(&descriptor, ANDROID, &[Extension::DebugUtils], layers);
        let property = InitEvent::SdkVersion(Some("33".to_string()));
        let stage = stage.advance(&descriptor, ANDROID, property);
        let stage = stage.advance(&descriptor, ANDROID, InitEvent::Instance(Ok(())));
        let pending = stage.finish(&descriptor, "entry", 5u8, "guard").unwrap();
        assert_eq!(pending.shared.flags, descriptor.flags);
        assert_eq!(pending.shared.android_sdk_version, 33);
        assert_eq!(pending.shared.drop_guard, Some("guard"));
        assert!(!pending.shared.has_nv_optimus);
        assert_eq!(pending.messenger.is_some(), debug && validation);
    }
}

#[test]
fn created_instance_is_taken_over() {
    let descriptor = descriptor(true, true);
    let available =
        [Extension::DebugUtils, Extension::Surface, Extension::GetPhysicalDeviceProperties2];
    let layers = vec![layer(Layer::KhronosValidation, b"v", 9), layer(Layer::NvOptimus, b"o", 1)];
    let stage = listed(&descriptor, LINUX, &available, layers);
    let stage = stage.advance(&descriptor, LINUX, InitEvent::Instance(Ok(())));
    assert!(matches!(stage, InitStage::Created { .. }));
    let pending = stage.finish(&descriptor, "entry", 5u8, "guard").unwrap();
    let request = pending.messenger.as_ref().unwrap();
    assert_eq!(request.callback_data.validation_layer_spec_version, 9);
    let instance = pending.complete(Some(3));
    let shared = instance.shared_instance();
    assert_eq!(*shared.entry(), "entry");
    assert_eq!(*shared.raw_instance(), 5);
    assert_eq!(shared.driver_api_version(), vk::API_VERSION_1_3);
    assert_eq!(shared.extensions().len(), 3);
    assert!(shared.has_nv_optimus);
    assert!(shared.get_physical_device_properties);
    assert_eq!(shared.drop_guard, Some("guard"));
    assert_eq!(shared.flags, descriptor.flags);
    assert_eq!(shared.debug_utils.as_ref().unwrap().messenger, 3);
}

#[test]
fn first_layer_of_a_name_is_found() {
    let layers = vec![
        layer(Layer::ObsHook, b"", 1),
        layer(Layer::NvOptimus, b"", 2),
        layer(Layer::NvOptimus, b"", 3),
    ];
    assert_eq!(find_layer(&layers, &Layer::NvOptimus.name()), Some(1));
    assert_eq!(find_layer(&layers, &Layer::KhronosValidation.name()), None);
}
