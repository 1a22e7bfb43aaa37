use ash::vk;
use vulkan_instance::adapter::{INTEL_VENDOR, NVIDIA_VENDOR};
use vulkan_instance::instance::{Instance, InstanceFlags};
use vulkan_instance::platform::{Platform, TargetOs};
use vulkan_instance::surface::{
    AcquireEvent, AcquireStage, AcquiredSurfaceTexture, CopyExtent, DeviceAction, DeviceError,
    Extent, Surface, SurfaceConfiguration, SurfaceError, Swapchain, TextureFormat,
};

type TestSurface = Surface<(), (), ()>;

const LINUX: Platform = Platform { unix: true, os: TargetOs::Linux };
const ANDROID: Platform = Platform { unix: true, os: TargetOs::Android };

fn swapchain(vendor_id: u32, raw_flags: u32) -> Swapchain {
    Swapchain {
        raw: 100,
        raw_flags,
        fence: 200,
        vendor_id,
        images: vec![301, 302, 303],
        config: SurfaceConfiguration {
            format: TextureFormat { code: 44 },
            extent: Extent { width: 640, height: 480 },
            usage: 16,
        },
        view_formats: vec![TextureFormat { code: 44 }, TextureFormat { code: 45 }],
    }
}

fn bare(android_sdk_version: u32) -> TestSurface {
    Instance::<(), (), ()>::from_raw(
        (),
        (),
        0,
        android_sdk_version,
        None,
        Vec::new(),
        InstanceFlags { debug: false, validation: false },
        false,
        None,
    )
    .unwrap()
    .complete(None)
    .create_surface_from_vk_surface_khr(1)
}

fn surface(vendor_id: u32, raw_flags: u32, android_sdk_version: u32) -> TestSurface {
    let mut made = bare(android_sdk_version);
    assert_eq!(made.configure(Ok(swapchain(vendor_id, raw_flags))), Ok(()));
    made
}

fn timeout(android_sdk_version: u32, platform: Platform, limit: Option<u128>) -> u64 {
    match surface(0, 0, android_sdk_version).acquire_texture(limit, platform) {
        AcquireStage::AcquireImage { swapchain, timeout_ns, fence } => {
            assert_eq!((swapchain, fence), (100, 200));
            timeout_ns
        }
        other => panic!("unexpected stage: {:?}", other),
    }
}

fn after_image(
    vendor_id: u32,
    platform: Platform,
    reply: Result<(u32, bool), i32>,
) -> AcquireStage {
    let made = surface(vendor_id, 0, 30);
    let stage = made.acquire_texture(None, platform);
    made.continue_acquire(stage, AcquireEvent::Image(reply), platform)
}

fn acquire(
    made: &TestSurface,
    platform: Platform,
    events: [AcquireEvent; 3],
) -> Result<Option<AcquiredSurfaceTexture>, SurfaceError> {
    let mut stage = made.acquire_texture(None, platform);
    for event in events {
        if let AcquireStage::Finished(result) = stage {
            return result;
        }
        stage = made.continue_acquire(stage, event, platform);
    }
    match stage {
        AcquireStage::Finished(result) => result,
        other => panic!("unfinished: {:?}", other),
    }
}

fn outcome(code: i32) -> Result<Option<AcquiredSurfaceTexture>, SurfaceError> {
    match after_image(0, LINUX, Err(code)) {
        AcquireStage::Finished(result) => result,
        other => panic!("unfinished: {:?}", other),
    }
}

#[test]
fn surface_is_configured_and_unconfigured() {
    let mut made = bare(0);
    assert!(made.unconfigure().is_empty());
    let replaced = made.begin_configure();
    assert!(replaced.actions.is_empty());
    assert!(replaced.swapchain.is_none());
    assert_eq!(made.configure(Ok(swapchain(0, 0))), Ok(()));
    assert_eq!(made.swapchain.as_ref().unwrap().raw, 100);
    assert_eq!(
        made.unconfigure(),
        vec![
            DeviceAction::WaitIdle,
            DeviceAction::DestroyFence { fence: 200 },
            DeviceAction::DestroySwapchain { swapchain: 100 },
        ]
    );
    assert!(made.swapchain.is_none());
    assert!(made.unconfigure().is_empty());
    assert_eq!(made.raw, 1);
}

#[test]
fn configuring_again_replaces_the_swapchain() {
    let mut made = surface(0, 0, 0);
    let replaced = made.begin_configure();
    assert_eq!(
        replaced.actions,
        vec![DeviceAction::WaitIdle, DeviceAction::DestroyFence { fence: 200 }]
    );
    assert_eq!(replaced.swapchain.unwrap().raw, 100);
    assert!(made.swapchain.is_none());
}

#[test]
fn failed_configuration_leaves_no_swapchain() {
    let mut made = surface(0, 0, 0);
    made.begin_configure();
    assert_eq!(made.configure(Err(SurfaceError::Lost)), Err(SurfaceError::Lost));
    assert!(made.swapchain.is_none());
}

#[test]
fn swapchain_lets_go_of_its_fence() {
    assert_eq!(
        swapchain(0, 0).release_resources(),
        vec![DeviceAction::WaitIdle, DeviceAction::DestroyFence { fence: 200 }]
    );
}

#[test]
fn limit_is_passed_on() {
    assert_eq!(timeout(0, LINUX, Some(1_000_000_000)), 1_000_000_000);
    assert_eq!(timeout(0, LINUX, Some(0)), 0);
    assert_eq!(timeout(0, LINUX, None), u64::MAX);
}

#[test]
fn limit_that_does_not_fit_is_cut() {
    assert_eq!(timeout(0, LINUX, Some((1u128 << 64) + 5)), 5);
    assert_eq!(timeout(0, LINUX, Some(u64::MAX as u128)), u64::MAX);
}

#[test]
fn old_android_waits_without_limit() {
    assert_eq!(timeout(29, ANDROID, Some(7)), u64::MAX);
    assert_eq!(timeout(30, ANDROID, Some(7)), 7);
    assert_eq!(timeout(29, LINUX, Some(7)), 7);
}

#[test]
fn fence_is_waited_for_and_reset() {
    let made = surface(0, 0, 0);
    let stage = made.acquire_texture(None, LINUX);
    let stage = made.continue_acquire(stage, AcquireEvent::Image(Ok((2, true))), LINUX);
    match &stage {
        AcquireStage::WaitForFence { fence, timeout_ns, index, suboptimal } => {
            assert_eq!((*fence, *timeout_ns, *index, *suboptimal), (200, u64::MAX, 2, true));
        }
        other => panic!("unexpected stage: {:?}", other),
    }
    let stage = made.continue_acquire(stage, AcquireEvent::FenceWaited(Ok(())), LINUX);
    match &stage {
        AcquireStage::ResetFence { fence, index, suboptimal } => {
            assert_eq!((*fence, *index, *suboptimal), (200, 2, true));
        }
        other => panic!("unexpected stage: {:?}", other),
    }
    let stage = made.continue_acquire(stage, AcquireEvent::FenceReset(Ok(())), LINUX);
    match stage {
        AcquireStage::Finished(Ok(Some(acquired))) => {
            assert!(acquired.suboptimal);
            assert_eq!(acquired.texture.index, 2);
            let texture = acquired.texture.texture;
            assert_eq!(texture.raw, 303);
            assert_eq!(texture.usage, 16);
            assert_eq!(texture.format, TextureFormat { code: 44 });
            assert_eq!(texture.raw_flags, 0);
            assert_eq!(texture.copy_size, CopyExtent { width: 640, height: 480, depth: 1 });
            assert_eq!(
                texture.view_formats,
                vec![TextureFormat { code: 44 }, TextureFormat { code: 45 }]
            );
            assert!(texture.drop_guard.is_none());
            assert!(texture.block.is_none());
        }
        other => panic!("unexpected stage: {:?}", other),
    }
}

fn image_flags(swapchain_flags: u32) -> u32 {
    let events = [
        AcquireEvent::Image(Ok((0, false))),
        AcquireEvent::FenceWaited(Ok(())),
        AcquireEvent::FenceReset(Ok(())),
    ];
    acquire(&surface(0, swapchain_flags, 0), LINUX, events).unwrap().unwrap().texture.texture.raw_flags
}

#[test]
fn mutable_format_carries_over_to_the_images() {
    let mutable = vk::SwapchainCreateFlagsKHR::MUTABLE_FORMAT.as_raw();
    let image = vk::ImageCreateFlags::MUTABLE_FORMAT | vk::ImageCreateFlags::EXTENDED_USAGE;
    assert_eq!(image_flags(mutable), image.as_raw());
    assert_eq!(image_flags(mutable), 0x108);
    assert_eq!(image_flags(mutable | 0x1), 0x108);
    assert_eq!(image_flags(0x3), 0);
    assert_eq!(image_flags(0), 0);
}

#[test]
fn suboptimal_is_ignored_on_android() {
    assert!(matches!(
        after_image(0, ANDROID, Ok((1, true))),
        AcquireStage::WaitForFence { index: 1, suboptimal: false, .. }
    ));
    assert!(matches!(
        after_image(0, LINUX, Ok((1, true))),
        AcquireStage::WaitForFence { index: 1, suboptimal: true, .. }
    ));
}

#[test]
fn bizarre_indices_of_intel_are_turned_away() {
    assert!(matches!(
        after_image(INTEL_VENDOR, LINUX, Ok((0x101, false))),
        AcquireStage::Finished(Err(SurfaceError::Outdated))
    ));
    assert!(matches!(
        after_image(INTEL_VENDOR, LINUX, Ok((0x100, false))),
        AcquireStage::WaitForFence { index: 0x100, .. }
    ));
    assert!(matches!(
        after_image(NVIDIA_VENDOR, LINUX, Ok((0x101, false))),
        AcquireStage::WaitForFence { index: 0x101, .. }
    ));
}

#[test]
fn failed_acquisition_is_sorted_out() {
    assert!(outcome(vk::Result::TIMEOUT.as_raw()).unwrap().is_none());
    assert_eq!(outcome(vk::Result::NOT_READY.as_raw()).unwrap_err(), SurfaceError::Outdated);
    assert_eq!(
        outcome(vk::Result::ERROR_OUT_OF_DATE_KHR.as_raw()).unwrap_err(),
        SurfaceError::Outdated
    );
    assert_eq!(
        outcome(vk::Result::ERROR_SURFACE_LOST_KHR.as_raw()).unwrap_err(),
        SurfaceError::Lost
    );
    assert_eq!(
        outcome(vk::Result::ERROR_DEVICE_LOST.as_raw()).unwrap_err(),
        SurfaceError::Device(DeviceError { code: -4 })
    );
    assert!(outcome(2).unwrap().is_none());
    assert_eq!(outcome(-1_000_000_000).unwrap_err(), SurfaceError::Lost);
}

#[test]
fn failed_fence_is_a_device_error() {
    let made = surface(0, 0, 0);
    let waiting = [
        AcquireEvent::Image(Ok((0, false))),
        AcquireEvent::FenceWaited(Err(-4)),
        AcquireEvent::FenceReset(Ok(())),
    ];
    assert_eq!(
        acquire(&made, LINUX, waiting).unwrap_err(),
        SurfaceError::Device(DeviceError { code: -4 })
    );
    let resetting = [
        AcquireEvent::Image(Ok((0, false))),
        AcquireEvent::FenceWaited(Ok(())),
        AcquireEvent::FenceReset(Err(-2)),
    ];
    assert_eq!(
        acquire(&made, LINUX, resetting).unwrap_err(),
        SurfaceError::Device(DeviceError { code: -2 })
    );
}
