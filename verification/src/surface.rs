//! Surfaces: how they get and lose their swapchain, and how an image is acquired.

use std::sync::Arc;

use vstd::prelude::*;

use crate::adapter::INTEL_VENDOR;
use crate::driver::{
    image_extended_usage, image_extended_usage_bit, image_mutable_format, image_mutable_format_bit,
    result_not_ready, result_not_ready_code, result_out_of_date, result_out_of_date_code,
    result_surface_lost, result_surface_lost_code, result_timeout, result_timeout_code,
    swapchain_mutable_format, swapchain_mutable_format_bit,
};
use crate::instance::InstanceShared;
use crate::platform::{Platform, TargetOs};

verus! {

/// A failure of the device, by the driver's code.
#[derive(Clone, Copy, Debug, PartialEq, Eq, Structural)]
pub struct DeviceError {
    pub code: i32,
}

/// Why a surface gives no image.
#[derive(Clone, Copy, Debug, PartialEq, Eq, Structural)]
pub enum SurfaceError {
    /// The surface is gone.
    Lost,
    /// The surface has changed and is to be configured anew.
    Outdated,
    Device(DeviceError),
}

/// A texture format, by its number.
#[derive(Clone, Copy, Debug, PartialEq, Eq, Structural)]
pub struct TextureFormat {
    pub code: u32,
}

/// The size of the images of a surface.
#[derive(Clone, Copy, Debug, PartialEq, Eq, Structural)]
pub struct Extent {
    pub width: u32,
    pub height: u32,
}

/// The size of a region to copy.
#[derive(Clone, Copy, Debug, PartialEq, Eq, Structural)]
pub struct CopyExtent {
    pub width: u32,
    pub height: u32,
    pub depth: u32,
}

/// What a surface was configured with.
#[derive(Clone, Copy, Debug, PartialEq, Eq, Structural)]
pub struct SurfaceConfiguration {
    pub format: TextureFormat,
    pub extent: Extent,
    /// The bits of the uses that the images are made for.
    pub usage: u32,
}

/// The images that a surface cycles through. Objects of the driver are given by
/// their handles.
#[derive(Debug)]
pub struct Swapchain {
    pub raw: u64,
    /// The bits that the swapchain was created with.
    pub raw_flags: u32,
    /// Signalled when an image is acquired.
    pub fence: u64,
    /// The PCI vendor identifier of the device.
    pub vendor_id: u32,
    pub images: Vec<u64>,
    pub config: SurfaceConfiguration,
    pub view_formats: Vec<TextureFormat>,
}

/// A surface of an instance.
#[derive(Debug)]
pub struct Surface<E, R, G> {
    /// The driver's handle of the surface.
    pub raw: u64,
    pub instance: Arc<InstanceShared<E, R, G>>,
    pub swapchain: Option<Swapchain>,
}

/// A texture whose image belongs to a swapchain.
#[derive(Debug)]
pub struct Texture {
    /// The driver's handle of the image.
    pub raw: u64,
    /// What is to live as long as the texture: nothing, for an image of a swapchain.
    pub drop_guard: Option<u64>,
    /// The memory of the image, if it is the texture's to free.
    pub block: Option<u64>,
    pub usage: u32,
    pub format: TextureFormat,
    /// The bits that the image was created with.
    pub raw_flags: u32,
    pub copy_size: CopyExtent,
    pub view_formats: Vec<TextureFormat>,
}

/// A texture to draw the next frame in.
#[derive(Debug)]
pub struct SurfaceTexture {
    /// The place of the image in the swapchain.
    pub index: u32,
    pub texture: Texture,
}

/// An acquired texture.
#[derive(Debug)]
pub struct AcquiredSurfaceTexture {
    pub texture: SurfaceTexture,
    /// Whether the swapchain still works, but no longer fits the surface exactly.
    pub suboptimal: bool,
}

/// What the device is asked to do.
#[derive(Clone, Copy, Debug, PartialEq, Eq, Structural)]
pub enum DeviceAction {
    /// Wait until the device is idle. A failure is passed over.
    WaitIdle,
    DestroyFence { fence: u64 },
    DestroySwapchain { swapchain: u64 },
}

/// What becomes of the swapchain that a surface had before it is configured.
#[derive(Debug)]
pub struct Replaced {
    /// What is to be done, in order, before the new swapchain is created.
    pub actions: Vec<DeviceAction>,
    /// The swapchain that the new one is created from.
    pub swapchain: Option<Swapchain>,
}

/// How far the acquisition of an image has come: what is to be done next.
#[derive(Debug)]
pub enum AcquireStage {
    /// Acquire the next image of the swapchain, signalling the fence and no
    /// semaphore.
    AcquireImage { swapchain: u64, timeout_ns: u64, fence: u64 },
    /// Wait for the fence.
    WaitForFence { fence: u64, timeout_ns: u64, index: u32, suboptimal: bool },
    /// Reset the fence.
    ResetFence { fence: u64, index: u32, suboptimal: bool },
    /// Nothing more. There is no texture where the wait ran out of time.
    Finished(Result<Option<AcquiredSurfaceTexture>, SurfaceError>),
}

/// What came of it. Failures are given by the driver's code.
#[derive(Clone, Copy, Debug)]
pub enum AcquireEvent {
    /// The index of the image, and whether the swapchain is suboptimal.
    Image(Result<(u32, bool), i32>),
    FenceWaited(Result<(), i32>),
    FenceReset(Result<(), i32>),
}

/// What is done to let go of what hangs on a swapchain.
pub open spec fn release_actions(swapchain: Swapchain) -> Seq<DeviceAction> {
    seq![DeviceAction::WaitIdle, DeviceAction::DestroyFence { fence: swapchain.fence }]
}

/// What is done before the swapchain of a surface is replaced.
pub open spec fn replace_actions(swapchain: Option<Swapchain>) -> Seq<DeviceAction> {
    match swapchain {
        Some(sc) => release_actions(sc),
        None => Seq::empty(),
    }
}

/// What is done to take the swapchain of a surface away.
pub open spec fn unconfigure_actions(swapchain: Option<Swapchain>) -> Seq<DeviceAction> {
    match swapchain {
        Some(sc) => release_actions(sc).push(DeviceAction::DestroySwapchain { swapchain: sc.raw }),
        None => Seq::empty(),
    }
}

/// How long an image is waited for, in nanoseconds. Before Android 11, which is
/// version 30 of the SDK, a limit is not supported.
pub open spec fn acquire_timeout(
    timeout: Option<u128>,
    android_sdk_version: u32,
    platform: Platform,
) -> int {
    if platform.os == TargetOs::Android && android_sdk_version < 30 {
        u64::MAX as int
    } else {
        match timeout {
            Some(nanos) => nanos as int % 0x1_0000_0000_0000_0000,
            None => u64::MAX as int,
        }
    }
}

/// What an acquisition ends with where the driver reports a failure.
pub open spec fn acquire_failure(code: i32) -> Result<
    Option<AcquiredSurfaceTexture>,
    SurfaceError,
> {
    if code == result_timeout() {
        Ok(None)
    } else if code == result_not_ready() || code == result_out_of_date() {
        Err(SurfaceError::Outdated)
    } else if code == result_surface_lost() {
        Err(SurfaceError::Lost)
    } else {
        Err(SurfaceError::Device(DeviceError { code }))
    }
}

/// Whether the driver returns an index that cannot be meant, as Intel's does.
pub open spec fn is_bizarre_index(swapchain: Swapchain, index: u32) -> bool {
    swapchain.vendor_id == INTEL_VENDOR && index > 0x100
}

/// The bits of the images of a swapchain that was created with the given bits.
pub open spec fn image_flags(swapchain_flags: u32) -> int {
    if swapchain_flags & swapchain_mutable_format() == swapchain_mutable_format() {
        image_mutable_format() + image_extended_usage()
    } else {
        0
    }
}

/// Whether a texture is that of an image of the swapchain.
pub open spec fn is_texture_of(
    acquired: AcquiredSurfaceTexture,
    swapchain: Swapchain,
    index: u32,
    suboptimal: bool,
) -> bool {
    let texture = acquired.texture.texture;
    &&& acquired.suboptimal == suboptimal
    &&& acquired.texture.index == index
    &&& texture.raw == swapchain.images@[index as int]
    &&& texture.drop_guard is None
    &&& texture.block is None
    &&& texture.usage == swapchain.config.usage
    &&& texture.format == swapchain.config.format
    &&& texture.raw_flags == image_flags(swapchain.raw_flags)
    &&& texture.copy_size == (CopyExtent {
        width: swapchain.config.extent.width,
        height: swapchain.config.extent.height,
        depth: 1,
    })
    &&& texture.view_formats@ == swapchain.view_formats@
}

/// Whether an event answers what a stage asks for. An image that is handed out has to
/// be one of the swapchain's.
pub open spec fn expects(swapchain: Swapchain, stage: AcquireStage, event: AcquireEvent) -> bool {
    match (stage, event) {
        (AcquireStage::AcquireImage { .. }, AcquireEvent::Image(_)) => true,
        (AcquireStage::WaitForFence { .. }, AcquireEvent::FenceWaited(_)) => true,
        (AcquireStage::ResetFence { index, .. }, AcquireEvent::FenceReset(reply)) => reply is Ok
            ==> index < swapchain.images@.len(),
        _ => false,
    }
}

/// Whether `next` is the stage that an event leads to.
pub open spec fn leads_to(
    swapchain: Swapchain,
    platform: Platform,
    stage: AcquireStage,
    event: AcquireEvent,
    next: AcquireStage,
) -> bool {
    match (stage, event) {
        (AcquireStage::AcquireImage { .. }, AcquireEvent::Image(Ok((index, suboptimal)))) => next
            == if is_bizarre_index(swapchain, index) {
            AcquireStage::Finished(Err(SurfaceError::Outdated))
        } else {
            AcquireStage::WaitForFence {
                fence: swapchain.fence,
                timeout_ns: u64::MAX,
                index,
                suboptimal: suboptimal && platform.os != TargetOs::Android,
            }
        },
        (AcquireStage::AcquireImage { .. }, AcquireEvent::Image(Err(code))) => next
            == AcquireStage::Finished(acquire_failure(code)),
        (
            AcquireStage::WaitForFence { index, suboptimal, .. },
            AcquireEvent::FenceWaited(Ok(_)),
        ) => next == (AcquireStage::ResetFence { fence: swapchain.fence, index, suboptimal }),
        (
            AcquireStage::ResetFence { index, suboptimal, .. },
            AcquireEvent::FenceReset(Ok(_)),
        ) => next matches AcquireStage::Finished(Ok(Some(acquired))) && is_texture_of(
            acquired,
            swapchain,
            index,
            suboptimal,
        ),
        (_, AcquireEvent::FenceWaited(Err(code))) => next == AcquireStage::Finished(
            Err(SurfaceError::Device(DeviceError { code })),
        ),
        (_, AcquireEvent::FenceReset(Err(code))) => next == AcquireStage::Finished(
            Err(SurfaceError::Device(DeviceError { code })),
        ),
        _ => false,
    }
}

/// Whether the swapchain was taken out of a surface, to be replaced.
pub open spec fn is_begun<E, R, G>(
    replaced: Replaced,
    before: Surface<E, R, G>,
    after: Surface<E, R, G>,
) -> bool {
    &&& replaced.swapchain == before.swapchain
    &&& replaced.actions@ == replace_actions(before.swapchain)
    &&& after == (Surface { swapchain: None, ..before })
}

/// Whether a surface was given the swapchain that was created for it, if one was.
pub open spec fn is_configured<E, R, G>(
    result: Result<(), SurfaceError>,
    created: Result<Swapchain, SurfaceError>,
    before: Surface<E, R, G>,
    after: Surface<E, R, G>,
) -> bool {
    match created {
        Ok(sc) => result == Ok::<(), SurfaceError>(()) && after == (Surface {
            swapchain: Some(sc),
            ..before
        }),
        Err(error) => result == Err::<(), SurfaceError>(error) && after == before,
    }
}

/// Whether the swapchain was taken away from a surface.
pub open spec fn is_unconfigured<E, R, G>(
    actions: Seq<DeviceAction>,
    before: Surface<E, R, G>,
    after: Surface<E, R, G>,
) -> bool {
    &&& actions == unconfigure_actions(before.swapchain)
    &&& after == (Surface { swapchain: None, ..before })
}

/// Whether an acquisition starts with the next image of the surface's swapchain.
pub open spec fn is_first_stage<E, R, G>(
    stage: AcquireStage,
    surface: Surface<E, R, G>,
    timeout: Option<u128>,
    platform: Platform,
) -> bool {
    stage matches AcquireStage::AcquireImage { swapchain, timeout_ns, fence } && {
        &&& swapchain == surface.swapchain->0.raw
        &&& fence == surface.swapchain->0.fence
        &&& timeout_ns == acquire_timeout(timeout, surface.instance.android_sdk_version, platform)
    }
}

impl Swapchain {
    /// What is done to let go of what hangs on the swapchain.
    pub fn release_resources(&self) -> (actions: Vec<DeviceAction>)
        ensures
            actions@ == release_actions(*self),
    {
        let mut actions: Vec<DeviceAction> = Vec::new();
        actions.push(DeviceAction::WaitIdle);
        actions.push(DeviceAction::DestroyFence { fence: self.fence });
        assert(actions@ =~= release_actions(*self));
        actions
    }

    /// The texture of an image.
    fn texture_of(&self, index: u32, suboptimal: bool) -> (acquired: AcquiredSurfaceTexture)
        requires
            index < self.images@.len(),
        ensures
            is_texture_of(acquired, *self, index, suboptimal),
    {
        let mutable_format: u32 = swapchain_mutable_format_bit();
        let raw_flags: u32 = if self.raw_flags & mutable_format == mutable_format {
            image_mutable_format_bit() | image_extended_usage_bit()
        } else {
            0
        };
        assert(0x8u32 | 0x100u32 == 0x108u32) by (bit_vector);
        let mut view_formats: Vec<TextureFormat> = Vec::new();
        let mut i: usize = 0;
        while i < self.view_formats.len()
            invariant
                i <= self.view_formats@.len(),
                view_formats@ == self.view_formats@.take(i as int),
            decreases self.view_formats@.len() - i,
        {
            view_formats.push(self.view_formats[i]);
            i += 1;
            assert(view_formats@ =~= self.view_formats@.take(i as int));
        }
        assert(view_formats@ =~= self.view_formats@);
        AcquiredSurfaceTexture {
            texture: SurfaceTexture {
                index,
                texture: Texture {
                    raw: self.images[index as usize],
                    drop_guard: None,
                    block: None,
                    usage: self.config.usage,
                    format: self.config.format,
                    raw_flags,
                    copy_size: CopyExtent {
                        width: self.config.extent.width,
                        height: self.config.extent.height,
                        depth: 1,
                    },
                    view_formats,
                },
            },
            suboptimal,
        }
    }
}

fn failure_of(code: i32) -> (outcome: Result<Option<AcquiredSurfaceTexture>, SurfaceError>)
    ensures
        outcome == acquire_failure(code),
{
    if code == result_timeout_code() {
        Ok(None)
    } else if code == result_not_ready_code() || code == result_out_of_date_code() {
        Err(SurfaceError::Outdated)
    } else if code == result_surface_lost_code() {
        Err(SurfaceError::Lost)
    } else {
        Err(SurfaceError::Device(DeviceError { code }))
    }
}

impl<E, R, G> Surface<E, R, G> {
    /// Takes the swapchain out of the surface, for a new one to replace it.
    pub fn begin_configure(&mut self) -> (replaced: Replaced)
        ensures
            is_begun(replaced, *old(self), *final(self)),
    {
        let swapchain: Option<Swapchain> = self.swapchain.take();
        let actions: Vec<DeviceAction> = match &swapchain {
            Some(sc) => sc.release_resources(),
            None => Vec::new(),
        };
        Replaced { actions, swapchain }
    }

    /// Gives the surface the swapchain that was created for it, if one was.
    pub fn configure(&mut self, created: Result<Swapchain, SurfaceError>) -> (result: Result<
        (),
        SurfaceError,
    >)
        requires
            old(self).swapchain is None,
        ensures
            is_configured(result, created, *old(self), *final(self)),
    {
        match created {
            Ok(sc) => {
                self.swapchain = Some(sc);
                Ok(())
            },
            Err(error) => Err(error),
        }
    }

    /// Takes the swapchain away. What is returned is to be done, in order.
    pub fn unconfigure(&mut self) -> (actions: Vec<DeviceAction>)
        ensures
            is_unconfigured(actions@, *old(self), *final(self)),
    {
        match self.swapchain.take() {
            Some(sc) => {
                let mut actions: Vec<DeviceAction> = sc.release_resources();
                actions.push(DeviceAction::DestroySwapchain { swapchain: sc.raw });
                actions
            },
            None => Vec::new(),
        }
    }

    /// Starts to acquire the next image, waiting at most `timeout` nanoseconds.
    pub fn acquire_texture(&self, timeout: Option<u128>, platform: Platform) -> (stage:
        AcquireStage)
        requires
            self.swapchain is Some,
        ensures
            is_first_stage(stage, *self, timeout, platform),
    {
        let sc: &Swapchain = self.swapchain.as_ref().unwrap();
        let mut timeout_ns: u64 = match timeout {
            Some(nanos) => {
                assert(nanos as u64 == nanos % 0x1_0000_0000_0000_0000u128) by (bit_vector);
                nanos as u64
            },
            None => u64::MAX,
        };
        if platform.os == TargetOs::Android && self.instance.android_sdk_version < 30 {
            timeout_ns = u64::MAX;
        }
        AcquireStage::AcquireImage { swapchain: sc.raw, timeout_ns, fence: sc.fence }
    }

    /// Goes on with what came of the last stage.
    pub fn continue_acquire(
        &self,
        stage: AcquireStage,
        event: AcquireEvent,
        platform: Platform,
    ) -> (next: AcquireStage)
        requires
            self.swapchain is Some,
            expects(self.swapchain->0, stage, event),
        ensures
            leads_to(self.swapchain->0, platform, stage, event, next),
    {
        let sc: &Swapchain = self.swapchain.as_ref().unwrap();
        match (stage, event) {
            (AcquireStage::AcquireImage { .. }, AcquireEvent::Image(Ok((index, reported)))) => {
                // A suboptimal swapchain is as good as any on Android.
                let suboptimal: bool = reported && platform.os != TargetOs::Android;
                if sc.vendor_id == INTEL_VENDOR && index > 0x100 {
                    return AcquireStage::Finished(Err(SurfaceError::Outdated));
                }
                AcquireStage::WaitForFence {
                    fence: sc.fence,
                    timeout_ns: u64::MAX,
                    index,
                    suboptimal,
                }
            },
            (AcquireStage::AcquireImage { .. }, AcquireEvent::Image(Err(code))) => {
                AcquireStage::Finished(failure_of(code))
            },
            (
                AcquireStage::WaitForFence { index, suboptimal, .. },
                AcquireEvent::FenceWaited(Ok(_)),
            ) => AcquireStage::ResetFence { fence: sc.fence, index, suboptimal },
            (
                AcquireStage::ResetFence { index, suboptimal, .. },
                AcquireEvent::FenceReset(Ok(_)),
            ) => AcquireStage::Finished(Ok(Some(sc.texture_of(index, suboptimal)))),
            (_, AcquireEvent::FenceWaited(Err(code))) => {
                AcquireStage::Finished(Err(SurfaceError::Device(DeviceError { code })))
            },
            (_, AcquireEvent::FenceReset(Err(code))) => {
                AcquireStage::Finished(Err(SurfaceError::Device(DeviceError { code })))
            },
            // No other event answers a stage.
            (other, _) => other,
        }
    }
}

} // verus!
