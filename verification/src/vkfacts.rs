//! Facts about the Vulkan bindings (`vulkanalia`) that the rest of the
//! library relies on: version packing and the numeric values of the flag
//! constants and extension names it works with.
use vstd::prelude::*;

verus! {

/// The packed form of a Vulkan version, as `VK_MAKE_VERSION` defines it.
pub open spec fn spec_make_version(major: u32, minor: u32, patch: u32) -> u32 {
    (major << 22u32) | (minor << 12u32) | patch
}

/// The major number of a packed version, as `VK_VERSION_MAJOR` defines it.
pub open spec fn spec_version_major(version: u32) -> u32 {
    version >> 22u32
}

/// The minor number of a packed version, as `VK_VERSION_MINOR` defines it.
pub open spec fn spec_version_minor(version: u32) -> u32 {
    (version >> 12u32) & 0x3ffu32
}

/// Lexicographic order on `(major, minor, patch)` triples: `a` is at least `b`.
pub open spec fn version_triple_at_least(a: (u32, u32, u32), b: (u32, u32, u32)) -> bool {
    ||| a.0 > b.0
    ||| a.0 == b.0 && a.1 > b.1
    ||| a.0 == b.0 && a.1 == b.1 && a.2 >= b.2
}

/// The lexicographic order on version triples is the numeric order of the
/// triples read as three base-2^32 digits, so it is total and transitive.
pub proof fn lemma_version_order(a: (u32, u32, u32), b: (u32, u32, u32), c: (u32, u32, u32))
    ensures
        version_triple_at_least(a, b) <==> a.0 * 0x1_0000_0000_0000_0000int + a.1 * 0x1_0000_0000int
            + a.2 >= b.0 * 0x1_0000_0000_0000_0000int + b.1 * 0x1_0000_0000int + b.2,
        version_triple_at_least(a, a),
        version_triple_at_least(a, b) || version_triple_at_least(b, a),
        version_triple_at_least(a, b) && version_triple_at_least(b, c) ==> version_triple_at_least(
            a,
            c,
        ),
        version_triple_at_least(a, b) && version_triple_at_least(b, a) ==> a == b,
{
}

/// Calls `vulkanalia::vk::make_version`, whose body is
/// `(major << 22) | (minor << 12) | patch` on `u32`.
#[verifier::external_body]
pub(crate) fn make_version(major: u32, minor: u32, patch: u32) -> (r: u32)
    ensures
        r == spec_make_version(major, minor, patch),
{
    vulkanalia::vk::make_version(major, minor, patch)
}

/// Calls `vulkanalia::vk::version_major`, whose body is `version >> 22`.
#[verifier::external_body]
pub(crate) fn version_major(version: u32) -> (r: u32)
    ensures
        r == spec_version_major(version),
{
    vulkanalia::vk::version_major(version)
}

/// Calls `vulkanalia::vk::version_minor`, whose body is
/// `(version >> 12) & 0x3FF`.
#[verifier::external_body]
pub(crate) fn version_minor(version: u32) -> (r: u32)
    ensures
        r == spec_version_minor(version),
{
    vulkanalia::vk::version_minor(version)
}

/// Compares two `vulkanalia::Version` values with `>=`. `Version` derives
/// `PartialOrd` over its fields `major`, `minor`, `patch` in that order, so the
/// comparison is lexicographic on the triples.
#[verifier::external_body]
pub(crate) fn version_at_least(a: (u32, u32, u32), b: (u32, u32, u32)) -> (r: bool)
    ensures
        r == version_triple_at_least(a, b),
{
    vulkanalia::Version::from(a) >= vulkanalia::Version::from(b)
}

/// The bits of `vk::QueueFlags::GRAPHICS` (declared as `1`).
#[verifier::external_body]
pub(crate) fn queue_graphics_bits() -> (r: u32)
    ensures
        r == 1,
{
    vulkanalia::vk::QueueFlags::GRAPHICS.bits()
}

/// The bits of `vk::QueueFlags::COMPUTE` (declared as `1 << 1`).
#[verifier::external_body]
pub(crate) fn queue_compute_bits() -> (r: u32)
    ensures
        r == 2,
{
    vulkanalia::vk::QueueFlags::COMPUTE.bits()
}

/// The bits of `vk::QueueFlags::TRANSFER` (declared as `1 << 2`).
#[verifier::external_body]
pub(crate) fn queue_transfer_bits() -> (r: u32)
    ensures
        r == 4,
{
    vulkanalia::vk::QueueFlags::TRANSFER.bits()
}

/// The bits of `vk::QueueFlags::SPARSE_BINDING` (declared as `1 << 3`).
#[verifier::external_body]
pub(crate) fn queue_sparse_binding_bits() -> (r: u32)
    ensures
        r == 8,
{
    vulkanalia::vk::QueueFlags::SPARSE_BINDING.bits()
}

/// The bits of `vk::DebugUtilsMessageSeverityFlagsEXT::ERROR` (declared as `1 << 12`).
#[verifier::external_body]
pub(crate) fn severity_error_bits() -> (r: u32)
    ensures
        r == 0x1000,
{
    vulkanalia::vk::DebugUtilsMessageSeverityFlagsEXT::ERROR.bits()
}

/// The bits of `vk::DebugUtilsMessageSeverityFlagsEXT::WARNING` (declared as `1 << 8`).
#[verifier::external_body]
pub(crate) fn severity_warning_bits() -> (r: u32)
    ensures
        r == 0x100,
{
    vulkanalia::vk::DebugUtilsMessageSeverityFlagsEXT::WARNING.bits()
}

/// The bits of `vk::DebugUtilsMessageSeverityFlagsEXT::INFO` (declared as `1 << 4`).
#[verifier::external_body]
pub(crate) fn severity_info_bits() -> (r: u32)
    ensures
        r == 0x10,
{
    vulkanalia::vk::DebugUtilsMessageSeverityFlagsEXT::INFO.bits()
}

/// The bits of `vk::InstanceCreateFlags::ENUMERATE_PORTABILITY_KHR` (declared as `1`).
#[verifier::external_body]
pub(crate) fn enumerate_portability_bits() -> (r: u32)
    ensures
        r == 1,
{
    vulkanalia::vk::InstanceCreateFlags::ENUMERATE_PORTABILITY_KHR.bits()
}

/// The value of `vk::TRUE` (declared as `1`).
#[verifier::external_body]
pub(crate) fn vk_true() -> (r: u32)
    ensures
        r == 1,
{
    vulkanalia::vk::TRUE
}

/// The name of `vk::EXT_DEBUG_UTILS_EXTENSION`, built from the bytes
/// `b"VK_EXT_debug_utils"`, read back as text.
#[verifier::external_body]
pub(crate) fn debug_utils_extension_name() -> (r: String)
    ensures
        r@ == "VK_EXT_debug_utils"@,
{
    vulkanalia::vk::EXT_DEBUG_UTILS_EXTENSION.name.to_string_lossy().into_owned()
}

/// The name of `vk::KHR_GET_PHYSICAL_DEVICE_PROPERTIES2_EXTENSION`, built from
/// the bytes `b"VK_KHR_get_physical_device_properties2"`, read back as text.
#[verifier::external_body]
pub(crate) fn physical_device_properties2_extension_name() -> (r: String)
    ensures
        r@ == "VK_KHR_get_physical_device_properties2"@,
{
    vulkanalia::vk::KHR_GET_PHYSICAL_DEVICE_PROPERTIES2_EXTENSION.name.to_string_lossy().into_owned()
}

/// The name of `vk::KHR_PORTABILITY_ENUMERATION_EXTENSION`, built from the
/// bytes `b"VK_KHR_portability_enumeration"`, read back as text.
#[verifier::external_body]
pub(crate) fn portability_enumeration_extension_name() -> (r: String)
    ensures
        r@ == "VK_KHR_portability_enumeration"@,
{
    vulkanalia::vk::KHR_PORTABILITY_ENUMERATION_EXTENSION.name.to_string_lossy().into_owned()
}

/// The named flags of `vk::QueueFlags`, in declaration order, with their bits.
pub open spec fn queue_flag_names() -> Seq<(u32, Seq<char>)> {
    seq![
        (1u32, "GRAPHICS"@),
        (2u32, "COMPUTE"@),
        (4u32, "TRANSFER"@),
        (8u32, "SPARSE_BINDING"@),
        (16u32, "PROTECTED"@),
        (32u32, "VIDEO_DECODE_KHR"@),
        (64u32, "VIDEO_ENCODE_KHR"@),
        (256u32, "OPTICAL_FLOW_NV"@),
        (1024u32, "DATA_GRAPH_ARM"@),
    ]
}

/// The union of the bits of all named queue flags (`QueueFlags::all()`).
pub open spec fn queue_flags_all() -> u32 {
    0x57fu32
}

/// The names of the flags in `names` whose bits are all set in `bits`, in order.
pub open spec fn set_flag_names(bits: u32, names: Seq<(u32, Seq<char>)>) -> Seq<Seq<char>>
    decreases names.len(),
{
    if names.len() == 0 {
        Seq::empty()
    } else {
        let rest = set_flag_names(bits, names.drop_first());
        if bits & names[0].0 == names[0].0 {
            seq![names[0].1] + rest
        } else {
            rest
        }
    }
}

/// `names` joined with " | ".
pub open spec fn join_flag_names(names: Seq<Seq<char>>) -> Seq<char>
    decreases names.len(),
{
    if names.len() == 0 {
        Seq::empty()
    } else if names.len() == 1 {
        names[0]
    } else {
        names[0] + " | "@ + join_flag_names(names.drop_first())
    }
}

/// The `Debug` text of `QueueFlags::from_bits_truncate(bits)`: the names of
/// its set flags in declaration order joined with " | ", or "(empty)" when
/// none is set (truncation leaves no unnamed bits to print).
pub open spec fn queue_flags_debug_text(bits: u32) -> Seq<char> {
    let names = set_flag_names(bits & queue_flags_all(), queue_flag_names());
    if names.len() == 0 {
        "(empty)"@
    } else {
        join_flag_names(names)
    }
}

/// Formats `vk::QueueFlags::from_bits_truncate(bits)` with `{:?}`: the
/// `Debug` impl that the `bitflags` (1.3) macro writes for the type: the
/// names of the set flags in declaration order joined with " | ", or
/// "(empty)" when none is set.
#[verifier::external_body]
pub(crate) fn format_queue_flags(bits: u32) -> (r: String)
    ensures
        r@ == queue_flags_debug_text(bits),
{
    format!("{:?}", vulkanalia::vk::QueueFlags::from_bits_truncate(bits))
}

} // verus!
