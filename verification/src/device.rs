//! Physical device selection: which of the devices that the Vulkan instance
//! reports the application can run on.
use vstd::prelude::*;
use crate::error::{AppError, AppErrorView, result_view};
use crate::queue_family::{
    QueueFamilyIndices, find_queue_family, get_flag, get_flag_brief, has_supporting, spec_get_flag,
    spec_get_flag_brief, is_first_supporting, lemma_get_flag_finds_first,
};
use crate::vkfacts::{
    make_version, queue_compute_bits, queue_graphics_bits, queue_sparse_binding_bits,
    queue_transfer_bits, spec_make_version, spec_version_major, spec_version_minor,
    version_major, version_minor, vk_true,
};

verus! {

/// What the selection logic reads of a physical device: the packed API
/// version from its properties, the `geometry_shader` feature (`vk::TRUE`
/// or `vk::FALSE`) and the flags of each of its queue families, in order.
#[derive(Debug, Clone)]
pub struct DeviceProfile {
    pub api_version: u32,
    pub geometry_shader: u32,
    pub queue_families: Vec<u32>,
}

/// What [`get_supported`] returns for a device.
pub open spec fn spec_get_supported(api_version: u32, geometry_shader: u32, families: Seq<u32>) -> Result<
    QueueFamilyIndices,
    AppErrorView,
> {
    if api_version <= spec_make_version(1, 4, 0) {
        Err(AppErrorView::Hardware("doesn't support Vuklan 1.4.0"@))
    } else if geometry_shader != 1 {
        Err(AppErrorView::Hardware("doesn't support geometry shaders"@))
    } else {
        match spec_get_flag(families, 1, "GRAPHICS"@) {
            Err(e) => Err(e),
            Ok(graphics) => match spec_get_flag(families, 2, "COMPUTE"@) {
                Err(e) => Err(e),
                Ok(compute) => match spec_get_flag(families, 4, "TRANSFER"@) {
                    Err(e) => Err(e),
                    Ok(transfer) => match spec_get_flag(families, 8, "SPARSE_BINDING"@) {
                        Err(e) => Err(e),
                        Ok(sparsebind) => Ok(
                            QueueFamilyIndices { graphics, compute, transfer, sparsebind },
                        ),
                    },
                },
            },
        }
    }
}

/// [`spec_get_supported`] of a device profile.
pub open spec fn device_supported(d: DeviceProfile) -> Result<QueueFamilyIndices, AppErrorView> {
    spec_get_supported(d.api_version, d.geometry_shader, d.queue_families@)
}

/// Checks that a device offers Vulkan newer than 1.4.0 and geometry shaders,
/// and picks the first queue family for graphics, compute, transfer and
/// sparse binding work, in that order; the first requirement that fails is
/// reported.
pub fn get_supported(device: &DeviceProfile) -> (r: Result<QueueFamilyIndices, AppError>)
    ensures
        result_view(r) == device_supported(*device),
        device.queue_families@.len() <= u32::MAX ==> (r is Ok <==> meets_supported_requirements(
            *device,
        )),
        device.queue_families@.len() <= u32::MAX ==> (r matches Ok(q) ==> indices_are_first(
            device.queue_families@,
            q,
        )),
{
    proof {
        if device.queue_families@.len() <= u32::MAX {
            lemma_supported_choice(*device);
        }
    }
    let vk_version = make_version(1, 4, 0);
    if device.api_version <= vk_version {
        return Err(AppError::Hardware(String::from_str("doesn't support Vuklan 1.4.0")));
    }
    if device.geometry_shader != vk_true() {
        return Err(AppError::Hardware(String::from_str("doesn't support geometry shaders")));
    }
    let families = &device.queue_families;
    let graphics = match get_flag(families, queue_graphics_bits(), "GRAPHICS") {
        Ok(i) => i,
        Err(e) => return Err(e),
    };
    let compute = match get_flag(families, queue_compute_bits(), "COMPUTE") {
        Ok(i) => i,
        Err(e) => return Err(e),
    };
    let transfer = match get_flag(families, queue_transfer_bits(), "TRANSFER") {
        Ok(i) => i,
        Err(e) => return Err(e),
    };
    let sparsebind = match get_flag(families, queue_sparse_binding_bits(), "SPARSE_BINDING") {
        Ok(i) => i,
        Err(e) => return Err(e),
    };
    Ok(QueueFamilyIndices { graphics, compute, transfer, sparsebind })
}

/// What [`get_supported_brief`] returns for a device.
pub open spec fn spec_get_supported_brief(d: DeviceProfile) -> Result<
    QueueFamilyIndices,
    AppErrorView,
> {
    let families = d.queue_families@;
    if d.api_version <= spec_make_version(1, 4, 0) {
        Err(AppErrorView::Hardware("Does not support Vulkan v1.4"@))
    } else if d.geometry_shader != 1 {
        Err(AppErrorView::Hardware("Does not support geometry shaders"@))
    } else {
        match spec_get_flag_brief(families, 1) {
            Err(e) => Err(e),
            Ok(graphics) => match spec_get_flag_brief(families, 2) {
                Err(e) => Err(e),
                Ok(compute) => match spec_get_flag_brief(families, 4) {
                    Err(e) => Err(e),
                    Ok(transfer) => match spec_get_flag_brief(families, 8) {
                        Err(e) => Err(e),
                        Ok(sparsebind) => Ok(
                            QueueFamilyIndices { graphics, compute, transfer, sparsebind },
                        ),
                    },
                },
            },
        }
    }
}

/// The same checks and choices as [`get_supported`], with shorter messages:
/// "Does not support Vulkan v1.4", "Does not support geometry shaders", and
/// for a missing queue family its flag's `Debug` text (see
/// [`spec_get_supported_brief`]).
pub fn get_supported_brief(device: &DeviceProfile) -> (r: Result<QueueFamilyIndices, AppError>)
    ensures
        result_view(r) == spec_get_supported_brief(*device),
        device.queue_families@.len() <= u32::MAX ==> (r is Ok <==> meets_supported_requirements(
            *device,
        )),
        device.queue_families@.len() <= u32::MAX ==> (r matches Ok(q) ==> indices_are_first(
            device.queue_families@,
            q,
        )),
{
    proof {
        if device.queue_families@.len() <= u32::MAX {
            lemma_supported_choice(*device);
        }
    }
    if device.api_version <= make_version(1, 4, 0) {
        return Err(AppError::Hardware(String::from_str("Does not support Vulkan v1.4")));
    }
    if device.geometry_shader != vk_true() {
        return Err(AppError::Hardware(String::from_str("Does not support geometry shaders")));
    }
    let families = &device.queue_families;
    let graphics = match get_flag_brief(families, queue_graphics_bits()) {
        Ok(i) => i,
        Err(e) => return Err(e),
    };
    let compute = match get_flag_brief(families, queue_compute_bits()) {
        Ok(i) => i,
        Err(e) => return Err(e),
    };
    let transfer = match get_flag_brief(families, queue_transfer_bits()) {
        Ok(i) => i,
        Err(e) => return Err(e),
    };
    let sparsebind = match get_flag_brief(families, queue_sparse_binding_bits()) {
        Ok(i) => i,
        Err(e) => return Err(e),
    };
    Ok(QueueFamilyIndices { graphics, compute, transfer, sparsebind })
}

/// A requirement that a physical device does not meet; its text reads
/// "Missing {0}." when shown.
#[derive(Debug, Clone, Copy, PartialEq, Eq)]
pub struct SuitabilityError(pub &'static str);

impl SuitabilityError {
    /// The text shown for the error: `Missing ` followed by the requirement
    /// and a full stop.
    pub fn message(&self) -> (m: String)
        ensures
            m@ == "Missing "@ + self.0@ + "."@,
    {
        let mut m = String::from_str("Missing ");
        m.append(self.0);
        m.append(".");
        m
    }
}

/// Why [`supports_requirements`] turned a device down.
#[derive(Debug, Clone, Copy, PartialEq, Eq)]
pub enum SuitabilityFailure {
    /// No queue family supports graphics work.
    MissingQueueFamilies,
    /// A requirement on the API version or on the features is not met.
    Unsuitable(SuitabilityError),
}

impl SuitabilityFailure {
    /// The text shown for the failure.
    pub fn message(&self) -> (m: String)
        ensures
            m@ == match self {
                SuitabilityFailure::MissingQueueFamilies => "Does not support required queue families"@,
                SuitabilityFailure::Unsuitable(e) => "Missing "@ + e.0@ + "."@,
            },
    {
        match self {
            SuitabilityFailure::MissingQueueFamilies => String::from_str(
                "Does not support required queue families",
            ),
            SuitabilityFailure::Unsuitable(e) => e.message(),
        }
    }
}

/// The first requirement that a device fails, in the order: a graphics
/// queue family, Vulkan 1.x with x at least 4, geometry shaders; `None`
/// when it meets them all.
pub open spec fn requirement_failure(d: DeviceProfile) -> Option<SuitabilityFailure> {
    if !has_supporting(d.queue_families@, 1) {
        Some(SuitabilityFailure::MissingQueueFamilies)
    } else if spec_version_major(d.api_version) != 1 || spec_version_minor(d.api_version) < 4 {
        Some(SuitabilityFailure::Unsuitable(SuitabilityError("Does not support Vulkan v1.3")))
    } else if d.geometry_shader != 1 {
        Some(SuitabilityFailure::Unsuitable(SuitabilityError("Does not support geometry shaders")))
    } else {
        None
    }
}

/// Checks that a device has a graphics queue family, offers Vulkan 1.x with
/// x at least 4, and supports geometry shaders; the first requirement that
/// fails is reported.
pub fn supports_requirements(device: &DeviceProfile) -> (r: Result<(), SuitabilityFailure>)
    ensures
        match r {
            Ok(()) => requirement_failure(*device).is_none(),
            Err(f) => requirement_failure(*device) == Some(f),
        },
        r is Ok <==> (has_supporting(device.queue_families@, 1) && spec_version_major(
            device.api_version,
        ) == 1 && spec_version_minor(device.api_version) >= 4 && device.geometry_shader == 1),
{
    proof {
        lemma_requirements_meaning(*device);
    }
    let graphics = find_queue_family(&device.queue_families, queue_graphics_bits());
    if graphics.is_none() {
        return Err(SuitabilityFailure::MissingQueueFamilies);
    }
    if version_major(device.api_version) != 1 || version_minor(device.api_version) < 4 {
        return Err(
            SuitabilityFailure::Unsuitable(SuitabilityError("Does not support Vulkan v1.3")),
        );
    }
    if device.geometry_shader != vk_true() {
        return Err(
            SuitabilityFailure::Unsuitable(SuitabilityError("Does not support geometry shaders")),
        );
    }
    Ok(())
}

/// The report returned when no device meets the requirements.
#[derive(Debug, Clone, Copy, PartialEq, Eq)]
pub struct NoSuitableDevice;

impl NoSuitableDevice {
    /// The text shown for the error.
    pub fn message(&self) -> (m: String)
        ensures
            m@ == "Failed to find suitable physical device"@,
    {
        String::from_str("Failed to find suitable physical device")
    }
}

/// The outcome of [`pick_first_physical_device`]: why each device before the
/// chosen one (or every device, when none is chosen) was turned down, and
/// the position of the chosen device.
#[derive(Debug)]
pub struct DeviceChoice {
    pub rejections: Vec<SuitabilityFailure>,
    pub chosen: Result<usize, NoSuitableDevice>,
}

/// `i` is the position of the first device in `devices` that meets the
/// requirements of [`supports_requirements`].
pub open spec fn is_first_suitable(devices: Seq<DeviceProfile>, i: int) -> bool {
    &&& 0 <= i < devices.len()
    &&& requirement_failure(devices[i]).is_none()
    &&& forall|j: int| 0 <= j < i ==> (#[trigger] requirement_failure(devices[j])).is_some()
}

/// Goes through `devices` in order and chooses the first that meets the
/// requirements of [`supports_requirements`], recording why each device
/// before it was turned down.
pub fn pick_first_physical_device(devices: &Vec<DeviceProfile>) -> (c: DeviceChoice)
    ensures
        match c.chosen {
            Ok(i) => is_first_suitable(devices@, i as int) && c.rejections@.len() == i,
            Err(_) => c.rejections@.len() == devices@.len(),
        },
        forall|j: int|
            0 <= j < c.rejections@.len() ==> requirement_failure(devices@[j]) == Some(
                #[trigger] c.rejections@[j],
            ),
{
    let mut rejections: Vec<SuitabilityFailure> = Vec::new();
    let mut i: usize = 0;
    while i < devices.len()
        invariant
            i <= devices.len(),
            rejections@.len() == i,
            forall|j: int|
                0 <= j < i ==> requirement_failure(devices@[j]) == Some(
                    #[trigger] rejections@[j],
                ),
        decreases devices.len() - i,
    {
        match supports_requirements(&devices[i]) {
            Ok(()) => {
                assert forall|j: int| 0 <= j < i implies (#[trigger] requirement_failure(
                    devices@[j],
                )).is_some() by {
                    assert(requirement_failure(devices@[j]) == Some(rejections@[j]));
                }
                return DeviceChoice { rejections, chosen: Ok(i) };
            },
            Err(f) => {
                rejections.push(f);
            },
        }
        i += 1;
    }
    DeviceChoice { rejections, chosen: Err(NoSuitableDevice) }
}

/// `i` is the position of the first device in `devices` that
/// [`get_supported`] accepts.
pub open spec fn is_first_supported(devices: Seq<DeviceProfile>, i: int) -> bool {
    &&& 0 <= i < devices.len()
    &&& device_supported(devices[i]) is Ok
    &&& forall|j: int| 0 <= j < i ==> (#[trigger] device_supported(devices[j])) is Err
}

/// Chooses the first device in `devices` that [`get_supported`] accepts,
/// together with its queue families.
pub fn select_supported_device(devices: &Vec<DeviceProfile>) -> (r: Result<
    (usize, QueueFamilyIndices),
    AppError,
>)
    ensures
        match r {
            Ok((i, q)) => is_first_supported(devices@, i as int) && device_supported(devices@[i as int])
                == Ok::<QueueFamilyIndices, AppErrorView>(q),
            Err(e) => (forall|j: int|
                0 <= j < devices@.len() ==> (#[trigger] device_supported(devices@[j])) is Err)
                && e@ == AppErrorView::Hardware("no supported physical devices"@),
        },
        r matches Ok((i, q)) ==> (devices@[i as int].queue_families@.len() <= u32::MAX
            ==> meets_supported_requirements(devices@[i as int]) && indices_are_first(
            devices@[i as int].queue_families@,
            q,
        )),
{
    let mut i: usize = 0;
    while i < devices.len()
        invariant
            i <= devices.len(),
            forall|j: int| 0 <= j < i ==> (#[trigger] device_supported(devices@[j])) is Err,
        decreases devices.len() - i,
    {
        match get_supported(&devices[i]) {
            Ok(q) => {
                proof {
                    if devices@[i as int].queue_families@.len() <= u32::MAX {
                        lemma_supported_choice(devices@[i as int]);
                    }
                }
                return Ok((i, q));
            },
            Err(_) => {},
        }
        i += 1;
    }
    Err(AppError::Hardware(String::from_str("no supported physical devices")))
}

/// A device that [`get_supported`] accepts and whose API major version is 1
/// also meets every requirement of [`supports_requirements`]. (The converse
/// fails: a device reporting exactly Vulkan 1.4.0 meets the requirements but
/// is turned down by [`get_supported`].)
pub proof fn lemma_supported_meets_requirements(d: DeviceProfile)
    requires
        device_supported(d) is Ok,
        spec_version_major(d.api_version) == 1,
    ensures
        requirement_failure(d).is_none(),
{
    let v = d.api_version;
    assert(spec_make_version(1, 4, 0) == 0x404000u32) by (bit_vector);
    assert(v > 0x404000u32 && (v >> 22u32) == 1u32 ==> ((v >> 12u32) & 0x3ffu32) >= 4u32)
        by (bit_vector);
    assert(has_supporting(d.queue_families@, 1));
}

/// When some device meets the requirements, a first one does, no later.
proof fn lemma_first_suitable_exists(devices: Seq<DeviceProfile>, k: int)
    requires
        0 <= k < devices.len(),
        requirement_failure(devices[k]).is_none(),
    ensures
        exists|j: int| 0 <= j <= k && is_first_suitable(devices, j),
    decreases k,
{
    if forall|j: int| 0 <= j < k ==> (#[trigger] requirement_failure(devices[j])).is_some() {
        assert(is_first_suitable(devices, k));
    } else {
        let j = choose|j: int| 0 <= j < k && (#[trigger] requirement_failure(devices[j])).is_none();
        lemma_first_suitable_exists(devices, j);
    }
}

/// When the device that [`select_supported_device`] chooses offers Vulkan
/// 1.x, [`pick_first_physical_device`] chooses a device too, at the same
/// position or an earlier one.
pub proof fn lemma_requirements_choice_not_later(devices: Seq<DeviceProfile>, i: int)
    requires
        is_first_supported(devices, i),
        spec_version_major(devices[i].api_version) == 1,
    ensures
        exists|j: int| 0 <= j <= i && is_first_suitable(devices, j),
{
    lemma_supported_meets_requirements(devices[i]);
    lemma_first_suitable_exists(devices, i);
}

/// The queue families that [`get_supported`] and [`get_supported_brief`]
/// choose, when they accept a device: each index is the first family whose
/// flags contain its own flag (graphics 1, compute 2, transfer 4, sparse
/// binding 8).
pub open spec fn indices_are_first(families: Seq<u32>, q: QueueFamilyIndices) -> bool {
    &&& is_first_supporting(families, 1, q.graphics as int)
    &&& is_first_supporting(families, 2, q.compute as int)
    &&& is_first_supporting(families, 4, q.transfer as int)
    &&& is_first_supporting(families, 8, q.sparsebind as int)
}

/// The device meets every requirement of [`get_supported`]: Vulkan newer
/// than 1.4.0, geometry shaders, and a family for each of the four kinds of
/// work.
pub open spec fn meets_supported_requirements(d: DeviceProfile) -> bool {
    &&& d.api_version > spec_make_version(1, 4, 0)
    &&& d.geometry_shader == 1
    &&& has_supporting(d.queue_families@, 1)
    &&& has_supporting(d.queue_families@, 2)
    &&& has_supporting(d.queue_families@, 4)
    &&& has_supporting(d.queue_families@, 8)
}

/// [`get_supported`] and [`get_supported_brief`] accept a device exactly when
/// it is newer than Vulkan 1.4.0, supports geometry shaders and has a queue
/// family for each kind of work; what they accept they describe by the first
/// family supporting each flag, and both give the same indices.
pub proof fn lemma_supported_choice(d: DeviceProfile)
    requires
        d.queue_families@.len() <= u32::MAX,
    ensures
        device_supported(d) is Ok <==> meets_supported_requirements(d),
        spec_get_supported_brief(d) is Ok <==> meets_supported_requirements(d),
        device_supported(d) matches Ok(q) ==> indices_are_first(d.queue_families@, q),
        spec_get_supported_brief(d) matches Ok(q) ==> indices_are_first(d.queue_families@, q),
        device_supported(d) is Ok ==> spec_get_supported_brief(d) == device_supported(d),
{
    let f = d.queue_families@;
    lemma_get_flag_finds_first(f, 1, "GRAPHICS"@);
    lemma_get_flag_finds_first(f, 2, "COMPUTE"@);
    lemma_get_flag_finds_first(f, 4, "TRANSFER"@);
    lemma_get_flag_finds_first(f, 8, "SPARSE_BINDING"@);
}

/// [`supports_requirements`] accepts a device exactly when it has a graphics
/// queue family, offers Vulkan 1.x with x at least 4 and supports geometry
/// shaders; a missing graphics family is reported before anything else, and a
/// version problem before a feature problem.
pub proof fn lemma_requirements_meaning(d: DeviceProfile)
    ensures
        requirement_failure(d).is_none() <==> (has_supporting(d.queue_families@, 1)
            && spec_version_major(d.api_version) == 1 && spec_version_minor(d.api_version) >= 4
            && d.geometry_shader == 1),
        requirement_failure(d) == Some(SuitabilityFailure::MissingQueueFamilies) <==> !has_supporting(
            d.queue_families@,
            1,
        ),
        has_supporting(d.queue_families@, 1) && (spec_version_major(d.api_version) != 1
            || spec_version_minor(d.api_version) < 4) ==> requirement_failure(d) == Some(
            SuitabilityFailure::Unsuitable(SuitabilityError("Does not support Vulkan v1.3")),
        ),
{
}

} // verus!
