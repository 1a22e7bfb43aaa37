//! Surfaces: what becomes of their swapchain, and what an acquisition gives for each
//! answer of the driver.

use vstd::prelude::*;

use crate::platform::{Platform, TargetOs};
use crate::surface::{
    acquire_failure, acquire_timeout, expects, is_begun, is_configured, is_first_stage,
    is_unconfigured, leads_to, replace_actions, unconfigure_actions, AcquireEvent, AcquireStage,
    AcquiredSurfaceTexture, DeviceAction, DeviceError, Replaced, Surface, SurfaceError, Swapchain,
};

verus! {

/// A swapchain is taken away once the device is idle: its fence goes first, then it does
/// itself. One that is replaced stays for the new one to be made from.
pub proof fn swapchains_are_let_go_in_order(swapchain: Option<Swapchain>)
    ensures
        swapchain is None ==> unconfigure_actions(swapchain).len() == 0 && replace_actions(
            swapchain,
        ).len() == 0,
        swapchain matches Some(sc) ==> {
            &&& unconfigure_actions(swapchain).len() == 3
            &&& unconfigure_actions(swapchain)[0] == DeviceAction::WaitIdle
            &&& unconfigure_actions(swapchain)[1] == (DeviceAction::DestroyFence {
                fence: sc.fence,
            })
            &&& unconfigure_actions(swapchain)[2] == (DeviceAction::DestroySwapchain {
                swapchain: sc.raw,
            })
            &&& replace_actions(swapchain).len() == 2
            &&& replace_actions(swapchain)[0] == DeviceAction::WaitIdle
            &&& replace_actions(swapchain)[1] == (DeviceAction::DestroyFence { fence: sc.fence })
        },
{
}

/// Configuring takes the swapchain out, to be let go and replaced, and puts the one that
/// was created in its place. Where none was, the surface is left without. Nothing else of
/// the surface changes.
pub proof fn configuring_replaces_the_swapchain<E, R, G>(
    replaced: Replaced,
    before: Surface<E, R, G>,
    between: Surface<E, R, G>,
    created: Result<Swapchain, SurfaceError>,
    result: Result<(), SurfaceError>,
    after: Surface<E, R, G>,
)
    requires
        is_begun(replaced, before, between),
        is_configured(result, created, between, after),
    ensures
        replaced.swapchain == before.swapchain,
        before.swapchain is None ==> replaced.actions@.len() == 0,
        before.swapchain matches Some(sc) ==> {
            &&& replaced.actions@.len() == 2
            &&& replaced.actions@[0] == DeviceAction::WaitIdle
            &&& replaced.actions@[1] == (DeviceAction::DestroyFence { fence: sc.fence })
        },
        between.swapchain is None,
        between.raw == before.raw,
        between.instance == before.instance,
        after.raw == before.raw,
        after.instance == before.instance,
        result is Ok <==> created is Ok,
        created matches Ok(sc) ==> after.swapchain == Some(sc),
        created matches Err(error) ==> after.swapchain is None && result->Err_0 == error,
{
}

/// Unconfiguring takes the swapchain away and leaves the rest of the surface.
pub proof fn unconfiguring_takes_the_swapchain_away<E, R, G>(
    actions: Seq<DeviceAction>,
    before: Surface<E, R, G>,
    after: Surface<E, R, G>,
)
    requires
        is_unconfigured(actions, before, after),
    ensures
        after.swapchain is None,
        after.raw == before.raw,
        after.instance == before.instance,
        before.swapchain is None ==> actions.len() == 0,
        before.swapchain matches Some(sc) ==> {
            &&& actions.len() == 3
            &&& actions[0] == DeviceAction::WaitIdle
            &&& actions[1] == (DeviceAction::DestroyFence { fence: sc.fence })
            &&& actions[2] == (DeviceAction::DestroySwapchain { swapchain: sc.raw })
        },
{
}

/// An acquisition starts by asking for an image of the surface's own swapchain, with its
/// own fence, for as long as was asked.
pub proof fn acquisitions_start_with_the_swapchain<E, R, G>(
    stage: AcquireStage,
    surface: Surface<E, R, G>,
    timeout: Option<u128>,
    platform: Platform,
)
    requires
        surface.swapchain is Some,
        is_first_stage(stage, surface, timeout, platform),
    ensures
        stage is AcquireImage,
        stage->AcquireImage_swapchain == surface.swapchain->0.raw,
        stage->AcquireImage_fence == surface.swapchain->0.fence,
        timeout is None ==> stage->AcquireImage_timeout_ns == 0xffff_ffff_ffff_ffff,
        platform.os == TargetOs::Android && surface.instance.android_sdk_version < 30
            ==> stage->AcquireImage_timeout_ns == 0xffff_ffff_ffff_ffff,
        timeout is Some && (platform.os != TargetOs::Android
            || surface.instance.android_sdk_version >= 30) ==> stage->AcquireImage_timeout_ns
            == timeout->0 as int % 0x1_0000_0000_0000_0000,
{
}

/// An image is waited for as long as was asked, in 64 bits of nanoseconds, and without a
/// limit where none was given or Android is older than its version 11.
pub proof fn waits_are_as_long_as_asked(
    timeout: Option<u128>,
    android_sdk_version: u32,
    platform: Platform,
)
    ensures
        timeout is None ==> acquire_timeout(timeout, android_sdk_version, platform)
            == 0xffff_ffff_ffff_ffff,
        platform.os == TargetOs::Android && android_sdk_version < 30 ==> acquire_timeout(
            timeout,
            android_sdk_version,
            platform,
        ) == 0xffff_ffff_ffff_ffff,
        platform.os != TargetOs::Android || android_sdk_version >= 30 ==> (timeout matches Some(
            nanos,
        ) ==> acquire_timeout(timeout, android_sdk_version, platform) == nanos as int
            % 0x1_0000_0000_0000_0000),
{
}

/// What a failure to get an image means, by the driver's code: running out of time is no
/// error, a surface that is not ready or out of date is outdated, a lost one is lost, and
/// any other failure is the device's.
pub proof fn failures_mean_what_the_driver_says(code: i32)
    ensures
        acquire_failure(code) == Ok::<Option<AcquiredSurfaceTexture>, SurfaceError>(None)
            <==> code == 2,
        acquire_failure(code) == Err::<Option<AcquiredSurfaceTexture>, SurfaceError>(
            SurfaceError::Outdated,
        ) <==> code == 1 || code == -1000001004,
        acquire_failure(code) == Err::<Option<AcquiredSurfaceTexture>, SurfaceError>(
            SurfaceError::Lost,
        ) <==> code == -1000000000,
        code != 1 && code != 2 && code != -1000001004 && code != -1000000000 ==> acquire_failure(
            code,
        ) == Err::<Option<AcquiredSurfaceTexture>, SurfaceError>(
            SurfaceError::Device(DeviceError { code }),
        ),
{
}

/// Every answer to what a stage asks for is expected. The last one is only where the image
/// is one of the swapchain's, if the fence was reset.
pub proof fn every_reply_is_expected(
    swapchain: Swapchain,
    stage: AcquireStage,
    image: Result<(u32, bool), i32>,
    reply: Result<(), i32>,
)
    ensures
        stage is AcquireImage ==> expects(swapchain, stage, AcquireEvent::Image(image)),
        stage is WaitForFence ==> expects(swapchain, stage, AcquireEvent::FenceWaited(reply)),
        stage is ResetFence && reply is Err ==> expects(
            swapchain,
            stage,
            AcquireEvent::FenceReset(reply),
        ),
        stage is ResetFence && stage->ResetFence_index < swapchain.images@.len() ==> expects(
            swapchain,
            stage,
            AcquireEvent::FenceReset(reply),
        ),
{
}

/// What follows once the driver was asked for an image. A failure ends the acquisition as
/// its code says. Intel's indices above 256 are turned away. Any other image has its fence
/// waited for without a limit; that the swapchain is suboptimal is passed on, but not on
/// Android.
pub proof fn images_are_waited_for(
    swapchain: Swapchain,
    platform: Platform,
    stage: AcquireStage,
    reply: Result<(u32, bool), i32>,
    next: AcquireStage,
)
    requires
        stage is AcquireImage,
        leads_to(swapchain, platform, stage, AcquireEvent::Image(reply), next),
    ensures
        reply matches Err(code) ==> next == AcquireStage::Finished(acquire_failure(code)),
        reply matches Ok((index, suboptimal)) ==> {
            if swapchain.vendor_id == 0x8086 && index > 256 {
                next == AcquireStage::Finished(Err(SurfaceError::Outdated))
            } else {
                &&& next is WaitForFence
                &&& next->WaitForFence_fence == swapchain.fence
                &&& next->WaitForFence_timeout_ns == 0xffff_ffff_ffff_ffff
                &&& next->WaitForFence_index == index
                &&& next->WaitForFence_suboptimal <==> suboptimal && platform.os
                    != TargetOs::Android
            }
        },
{
}

/// What follows once the fence was waited for: it is reset, for the same image. A failure
/// is the device's.
pub proof fn fences_are_reset(
    swapchain: Swapchain,
    platform: Platform,
    stage: AcquireStage,
    reply: Result<(), i32>,
    next: AcquireStage,
)
    requires
        stage is WaitForFence,
        leads_to(swapchain, platform, stage, AcquireEvent::FenceWaited(reply), next),
    ensures
        reply matches Err(code) ==> next == AcquireStage::Finished(
            Err(SurfaceError::Device(DeviceError { code })),
        ),
        reply is Ok ==> {
            &&& next is ResetFence
            &&& next->ResetFence_fence == swapchain.fence
            &&& next->ResetFence_index == stage->WaitForFence_index
            &&& next->ResetFence_suboptimal == stage->WaitForFence_suboptimal
        },
{
}

/// What an acquisition ends with once the fence was reset: the texture of the image that
/// was given. Its format, use and size are those that the surface was configured with,
/// whatever formats it may be viewed in; these are the swapchain's. Its format may be
/// changed, and its use extended, if and only if the swapchain was created so. Nothing of
/// the image is the texture's to free. A failure is the device's.
pub proof fn textures_are_as_configured(
    swapchain: Swapchain,
    platform: Platform,
    stage: AcquireStage,
    reply: Result<(), i32>,
    next: AcquireStage,
)
    requires
        stage is ResetFence,
        leads_to(swapchain, platform, stage, AcquireEvent::FenceReset(reply), next),
    ensures
        reply matches Err(code) ==> next == AcquireStage::Finished(
            Err(SurfaceError::Device(DeviceError { code })),
        ),
        reply is Ok ==> {
            &&& next matches AcquireStage::Finished(Ok(Some(acquired)))
            &&& acquired.suboptimal == stage->ResetFence_suboptimal
            &&& acquired.texture.index == stage->ResetFence_index
            &&& acquired.texture.texture.raw
                == swapchain.images@[stage->ResetFence_index as int]
            &&& acquired.texture.texture.format == swapchain.config.format
            &&& acquired.texture.texture.usage == swapchain.config.usage
            &&& acquired.texture.texture.copy_size.width == swapchain.config.extent.width
            &&& acquired.texture.texture.copy_size.height == swapchain.config.extent.height
            &&& acquired.texture.texture.copy_size.depth == 1
            &&& acquired.texture.texture.view_formats@ == swapchain.view_formats@
            &&& acquired.texture.texture.drop_guard is None
            &&& acquired.texture.texture.block is None
            &&& acquired.texture.texture.raw_flags == if swapchain.raw_flags & 0x4 != 0 {
                0x108u32
            } else {
                0
            }
        },
{
    let flags = swapchain.raw_flags;
    assert(flags & 0x4 == 0x4 <==> flags & 0x4 != 0) by (bit_vector);
}

} // verus!
