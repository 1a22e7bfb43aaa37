//! Numbers that the Vulkan bindings and the logging facade define.

use ash::vk;
use vstd::prelude::*;

verus! {

/// The number that stands for a version of the Vulkan API.
pub open spec fn version_number(major: int, minor: int, patch: int) -> int {
    major * 0x40_0000 + minor * 0x1000 + patch
}

/// `ash::vk::make_api_version`: the four parts at their places in one word. What
/// does not fit above the word's top bit is lost.
pub assume_specification[ vk::make_api_version ](
    variant: u32,
    major: u32,
    minor: u32,
    patch: u32,
) -> (version: u32)
    ensures
        version == (variant << 29) | (major << 22) | (minor << 12) | patch,
;

/// `ash::vk::API_VERSION_1_0`.
#[verifier::external_body]
pub(crate) fn api_version_1_0() -> (version: u32)
    ensures
        version == version_number(1, 0, 0),
{
    vk::API_VERSION_1_0
}

/// `ash::vk::API_VERSION_1_1`.
#[verifier::external_body]
pub(crate) fn api_version_1_1() -> (version: u32)
    ensures
        version == version_number(1, 1, 0),
{
    vk::API_VERSION_1_1
}

/// `ash::vk::HEADER_VERSION_COMPLETE`: the version of the API that the bindings
/// were made for.
#[verifier::external_body]
pub(crate) fn header_version_complete() -> (version: u32)
    ensures
        version == version_number(1, 3, 251),
{
    vk::HEADER_VERSION_COMPLETE
}

/// `ash::vk::FALSE`.
#[verifier::external_body]
pub(crate) fn bool32_false() -> (value: u32)
    ensures
        value == 0,
{
    vk::FALSE
}

/// The bit of verbose messages.
pub open spec fn severity_verbose() -> u32 {
    0x1
}

/// The bit of informational messages.
pub open spec fn severity_info() -> u32 {
    0x10
}

/// The bit of warnings.
pub open spec fn severity_warning() -> u32 {
    0x100
}

/// The bit of errors.
pub open spec fn severity_error() -> u32 {
    0x1000
}

/// `ash::vk::DebugUtilsMessageSeverityFlagsEXT::VERBOSE`, as a number.
#[verifier::external_body]
pub(crate) fn severity_verbose_bit() -> (bit: u32)
    ensures
        bit == severity_verbose(),
{
    vk::DebugUtilsMessageSeverityFlagsEXT::VERBOSE.as_raw()
}

/// `ash::vk::DebugUtilsMessageSeverityFlagsEXT::INFO`, as a number.
#[verifier::external_body]
pub(crate) fn severity_info_bit() -> (bit: u32)
    ensures
        bit == severity_info(),
{
    vk::DebugUtilsMessageSeverityFlagsEXT::INFO.as_raw()
}

/// `ash::vk::DebugUtilsMessageSeverityFlagsEXT::WARNING`, as a number.
#[verifier::external_body]
pub(crate) fn severity_warning_bit() -> (bit: u32)
    ensures
        bit == severity_warning(),
{
    vk::DebugUtilsMessageSeverityFlagsEXT::WARNING.as_raw()
}

/// `ash::vk::DebugUtilsMessageSeverityFlagsEXT::ERROR`, as a number.
#[verifier::external_body]
pub(crate) fn severity_error_bit() -> (bit: u32)
    ensures
        bit == severity_error(),
{
    vk::DebugUtilsMessageSeverityFlagsEXT::ERROR.as_raw()
}

/// The bit of messages of the general type.
pub open spec fn type_general() -> u32 {
    0x1
}

/// The bit of messages about a wrong use of the API.
pub open spec fn type_validation() -> u32 {
    0x2
}

/// The bit of messages about performance.
pub open spec fn type_performance() -> u32 {
    0x4
}

/// The bit of messages about the binding of device addresses.
pub open spec fn type_device_address_binding() -> u32 {
    0x8
}

/// `ash::vk::DebugUtilsMessageTypeFlagsEXT::GENERAL`, as a number.
#[verifier::external_body]
pub(crate) fn type_general_bit() -> (bit: u32)
    ensures
        bit == type_general(),
{
    vk::DebugUtilsMessageTypeFlagsEXT::GENERAL.as_raw()
}

/// `ash::vk::DebugUtilsMessageTypeFlagsEXT::VALIDATION`, as a number.
#[verifier::external_body]
pub(crate) fn type_validation_bit() -> (bit: u32)
    ensures
        bit == type_validation(),
{
    vk::DebugUtilsMessageTypeFlagsEXT::VALIDATION.as_raw()
}

/// `ash::vk::DebugUtilsMessageTypeFlagsEXT::PERFORMANCE`, as a number.
#[verifier::external_body]
pub(crate) fn type_performance_bit() -> (bit: u32)
    ensures
        bit == type_performance(),
{
    vk::DebugUtilsMessageTypeFlagsEXT::PERFORMANCE.as_raw()
}

/// The bit by which an instance asks for incomplete implementations too.
pub open spec fn enumerate_portability() -> u32 {
    0x1
}

/// `ash::vk::InstanceCreateFlags::ENUMERATE_PORTABILITY_KHR`, as a number.
#[verifier::external_body]
pub(crate) fn enumerate_portability_bit() -> (bit: u32)
    ensures
        bit == enumerate_portability(),
{
    vk::InstanceCreateFlags::ENUMERATE_PORTABILITY_KHR.as_raw()
}

/// The bit of a swapchain whose images may be viewed in several formats.
pub open spec fn swapchain_mutable_format() -> u32 {
    0x4
}

/// The bit of an image that may be viewed in several formats.
pub open spec fn image_mutable_format() -> u32 {
    0x8
}

/// The bit of an image that may be used in ways that its own format forbids.
pub open spec fn image_extended_usage() -> u32 {
    0x100
}

/// `ash::vk::SwapchainCreateFlagsKHR::MUTABLE_FORMAT`, as a number.
#[verifier::external_body]
pub(crate) fn swapchain_mutable_format_bit() -> (bit: u32)
    ensures
        bit == swapchain_mutable_format(),
{
    vk::SwapchainCreateFlagsKHR::MUTABLE_FORMAT.as_raw()
}

/// `ash::vk::ImageCreateFlags::MUTABLE_FORMAT`, as a number.
#[verifier::external_body]
pub(crate) fn image_mutable_format_bit() -> (bit: u32)
    ensures
        bit == image_mutable_format(),
{
    vk::ImageCreateFlags::MUTABLE_FORMAT.as_raw()
}

/// `ash::vk::ImageCreateFlags::EXTENDED_USAGE`, as a number.
#[verifier::external_body]
pub(crate) fn image_extended_usage_bit() -> (bit: u32)
    ensures
        bit == image_extended_usage(),
{
    vk::ImageCreateFlags::EXTENDED_USAGE.as_raw()
}

/// The driver's code for an operation that is not complete yet.
pub open spec fn result_not_ready() -> int {
    1
}

/// The driver's code for a wait that ran out of time.
pub open spec fn result_timeout() -> int {
    2
}

/// The driver's code for a surface that is gone.
pub open spec fn result_surface_lost() -> int {
    -1_000_000_000
}

/// The driver's code for a swapchain that no longer fits its surface.
pub open spec fn result_out_of_date() -> int {
    -1_000_001_004
}

/// `ash::vk::Result::NOT_READY`, as a number.
#[verifier::external_body]
pub(crate) fn result_not_ready_code() -> (code: i32)
    ensures
        code == result_not_ready(),
{
    vk::Result::NOT_READY.as_raw()
}

/// `ash::vk::Result::TIMEOUT`, as a number.
#[verifier::external_body]
pub(crate) fn result_timeout_code() -> (code: i32)
    ensures
        code == result_timeout(),
{
    vk::Result::TIMEOUT.as_raw()
}

/// `ash::vk::Result::ERROR_SURFACE_LOST_KHR`, as a number.
#[verifier::external_body]
pub(crate) fn result_surface_lost_code() -> (code: i32)
    ensures
        code == result_surface_lost(),
{
    vk::Result::ERROR_SURFACE_LOST_KHR.as_raw()
}

/// `ash::vk::Result::ERROR_OUT_OF_DATE_KHR`, as a number.
#[verifier::external_body]
pub(crate) fn result_out_of_date_code() -> (code: i32)
    ensures
        code == result_out_of_date(),
{
    vk::Result::ERROR_OUT_OF_DATE_KHR.as_raw()
}

/// How much of what is logged gets through.
#[derive(Clone, Copy, Debug, PartialEq, Eq, Structural)]
pub enum LevelFilter {
    Off,
    Error,
    Warn,
    Info,
    Debug,
    Trace,
}

impl LevelFilter {
    /// The place of the filter in the order from none to all.
    pub open spec fn rank(self) -> int {
        match self {
            LevelFilter::Off => 0,
            LevelFilter::Error => 1,
            LevelFilter::Warn => 2,
            LevelFilter::Info => 3,
            LevelFilter::Debug => 4,
            LevelFilter::Trace => 5,
        }
    }

    /// Whether the filter lets through at least what `other` does.
    pub fn at_least(self, other: LevelFilter) -> (result: bool)
        ensures
            result == (self.rank() >= other.rank()),
    {
        self.place() >= other.place()
    }

    fn place(self) -> (place: u8)
        ensures
            place == self.rank(),
    {
        match self {
            LevelFilter::Off => 0,
            LevelFilter::Error => 1,
            LevelFilter::Warn => 2,
            LevelFilter::Info => 3,
            LevelFilter::Debug => 4,
            LevelFilter::Trace => 5,
        }
    }
}

/// A log filter that the process has set. There is no way to make one but to ask the
/// logger, so that whoever holds one has it from there.
#[derive(Debug)]
pub struct ProcessFilter {
    level: LevelFilter,
}

impl View for ProcessFilter {
    type V = LevelFilter;

    closed spec fn view(&self) -> LevelFilter {
        self.level
    }
}

impl ProcessFilter {
    /// The filter that was set.
    pub fn level(&self) -> (level: LevelFilter)
        ensures
            level == self@,
    {
        self.level
    }
}

/// A filter is shown as it was read.
proof fn filter_is_shown_as_read(filter: ProcessFilter)
    ensures
        filter@ == filter.level,
{
}

/// `log::max_level`: the filter that the process has set at the time of the call.
/// Nothing is known of it beforehand, and two calls may differ.
#[verifier::external_body]
pub(crate) fn max_log_level() -> (filter: ProcessFilter) {
    let level = match log::max_level() {
        log::LevelFilter::Off => LevelFilter::Off,
        log::LevelFilter::Error => LevelFilter::Error,
        log::LevelFilter::Warn => LevelFilter::Warn,
        log::LevelFilter::Info => LevelFilter::Info,
        log::LevelFilter::Debug => LevelFilter::Debug,
        log::LevelFilter::Trace => LevelFilter::Trace,
    };
    ProcessFilter { level }
}

} // verus!
