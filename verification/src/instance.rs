//! Planning of the Vulkan instance: which layers and extensions to enable,
//! with which creation flags and application description.
use vstd::prelude::*;
use crate::error::{AppError, AppErrorView};
use crate::vkfacts::{
    debug_utils_extension_name, enumerate_portability_bits, make_version,
    physical_device_properties2_extension_name, portability_enumeration_extension_name,
    spec_make_version, version_at_least, version_triple_at_least,
};

verus! {

/// The texts of a sequence of names.
pub open spec fn texts(names: Seq<String>) -> Seq<Seq<char>> {
    names.map_values(|s: String| s@)
}

/// The name of the Khronos validation layer.
pub open spec fn validation_layer_name() -> Seq<char> {
    "VK_LAYER_KHRONOS_validation"@
}

/// Some name in `available` is the name of the Khronos validation layer.
pub open spec fn offers_validation_layer(available: Seq<String>) -> bool {
    exists|i: int| 0 <= i < available.len() && (#[trigger] available[i])@ == validation_layer_name()
}

/// Checks the layers that the Vulkan installation offers: when validation is
/// enabled, the Khronos validation layer must be among them.
pub fn validate_layers(available: &Vec<String>, validation_enabled: bool) -> (r: Result<(), AppError>)
    ensures
        r is Ok <==> (!validation_enabled || offers_validation_layer(available@)),
        r matches Err(e) ==> e@ == AppErrorView::Validation(
            "Validation layer requested but not supported"@,
        ),
{
    if !validation_enabled {
        return Ok(());
    }
    let wanted = String::from_str("VK_LAYER_KHRONOS_validation");
    let mut i: usize = 0;
    while i < available.len()
        invariant
            i <= available.len(),
            wanted@ == validation_layer_name(),
            forall|j: int| 0 <= j < i ==> (#[trigger] available@[j])@ != validation_layer_name(),
        decreases available.len() - i,
    {
        if available[i] == wanted {
            return Ok(());
        }
        i += 1;
    }
    Err(AppError::Validation(String::from_str("Validation layer requested but not supported")))
}

/// The layers to enable: the Khronos validation layer when validation is
/// enabled, none otherwise.
pub fn enabled_layer_names(validation_enabled: bool) -> (r: Vec<String>)
    ensures
        texts(r@) == if validation_enabled {
            seq![validation_layer_name()]
        } else {
            Seq::<Seq<char>>::empty()
        },
{
    let mut r: Vec<String> = Vec::new();
    if validation_enabled {
        r.push(String::from_str("VK_LAYER_KHRONOS_validation"));
    }
    assert(texts(r@) =~= if validation_enabled {
        seq![validation_layer_name()]
    } else {
        Seq::<Seq<char>>::empty()
    });
    r
}

/// An instance loader of this version or newer needs the portability
/// enumeration extensions on macOS.
pub open spec fn macos_portability_version() -> (u32, u32, u32) {
    (1, 3, 216)
}

/// Whether an instance loader of version `entry_version` (major, minor,
/// patch) needs portability enumeration on macOS: it does from 1.3.216 on.
pub fn portability_enumeration_required(entry_version: (u32, u32, u32)) -> (r: bool)
    ensures
        r == version_triple_at_least(entry_version, macos_portability_version()),
{
    version_at_least(entry_version, (1, 3, 216))
}

/// The instance extensions to enable, in order: those that the window system
/// requires, then the debug utilities extension when validation is enabled,
/// then the physical-device-properties-2 and portability enumeration
/// extensions when macOS portability is needed.
pub open spec fn spec_instance_extensions(
    required: Seq<Seq<char>>,
    validation_enabled: bool,
    macos_portable: bool,
) -> Seq<Seq<char>> {
    required + (if validation_enabled {
        seq!["VK_EXT_debug_utils"@]
    } else {
        Seq::empty()
    }) + (if macos_portable {
        seq!["VK_KHR_get_physical_device_properties2"@, "VK_KHR_portability_enumeration"@]
    } else {
        Seq::empty()
    })
}

/// Every extension that the window system requires is enabled, first and in
/// its order; the debug utilities extension follows exactly when validation
/// is enabled, and the two portability extensions close the list exactly when
/// macOS portability is needed. Nothing else is added.
pub proof fn lemma_instance_extensions_shape(
    required: Seq<Seq<char>>,
    validation_enabled: bool,
    macos_portable: bool,
)
    ensures
        ({
            let r = spec_instance_extensions(required, validation_enabled, macos_portable);
            let n = required.len();
            let d: int = if validation_enabled { 1 } else { 0 };
            &&& r.take(n as int) == required
            &&& r.len() == n + d + if macos_portable { 2int } else { 0int }
            &&& validation_enabled ==> r[n as int] == "VK_EXT_debug_utils"@
            &&& macos_portable ==> r[n + d] == "VK_KHR_get_physical_device_properties2"@
                && r[n + d + 1] == "VK_KHR_portability_enumeration"@
            &&& r.contains("VK_EXT_debug_utils"@) <== validation_enabled
            &&& forall|i: int| 0 <= i < n ==> r[i] == required[i]
        }),
{
    let r = spec_instance_extensions(required, validation_enabled, macos_portable);
    let n = required.len();
    assert(r.take(n as int) =~= required);
    if validation_enabled {
        assert(r[n as int] == "VK_EXT_debug_utils"@);
    }
}

/// Lists the instance extensions to enable (see [`spec_instance_extensions`]).
pub fn instance_extension_names(
    required: &Vec<String>,
    validation_enabled: bool,
    macos_portable: bool,
) -> (r: Vec<String>)
    ensures
        texts(r@) == spec_instance_extensions(texts(required@), validation_enabled, macos_portable),
        texts(r@).take(required@.len() as int) == texts(required@),
        r@.len() == required@.len() + (if validation_enabled { 1int } else { 0int }) + (if macos_portable {
            2int
        } else {
            0int
        }),
{
    proof {
        lemma_instance_extensions_shape(texts(required@), validation_enabled, macos_portable);
    }
    let mut r: Vec<String> = Vec::new();
    let mut i: usize = 0;
    while i < required.len()
        invariant
            i <= required.len(),
            texts(r@) == texts(required@.take(i as int)),
        decreases required.len() - i,
    {
        let name = required[i].clone();
        let ghost before = r@;
        r.push(name);
        assert(texts(r@) =~= texts(before).push(name@));
        assert(required@.take(i + 1) =~= required@.take(i as int).push(required@[i as int]));
        assert(texts(required@.take(i + 1)) =~= texts(required@.take(i as int)).push(
            required@[i as int]@,
        ));
        i += 1;
    }
    assert(required@.take(i as int) =~= required@);
    let ghost base = texts(r@);
    if validation_enabled {
        let name = debug_utils_extension_name();
        let ghost before = r@;
        r.push(name);
        assert(texts(r@) =~= texts(before).push(name@));
    }
    let ghost middle = texts(r@);
    assert(middle =~= base + (if validation_enabled {
        seq!["VK_EXT_debug_utils"@]
    } else {
        Seq::empty()
    }));
    if macos_portable {
        let first = physical_device_properties2_extension_name();
        let second = portability_enumeration_extension_name();
        let ghost before = r@;
        r.push(first);
        r.push(second);
        assert(texts(r@) =~= texts(before).push(first@).push(second@));
    }
    assert(texts(r@) =~= middle + (if macos_portable {
        seq!["VK_KHR_get_physical_device_properties2"@, "VK_KHR_portability_enumeration"@]
    } else {
        Seq::empty()
    }));
    r
}

/// The instance creation flags: portability enumeration when macOS
/// portability is needed, none otherwise.
pub fn instance_create_flags(macos_portable: bool) -> (r: u32)
    ensures
        r == if macos_portable { 1u32 } else { 0u32 },
{
    if macos_portable {
        enumerate_portability_bits()
    } else {
        0
    }
}

/// The application description handed to the instance.
#[derive(Debug, Clone)]
pub struct ApplicationInfo {
    pub application_name: String,
    pub application_version: u32,
    pub engine_name: String,
    pub engine_version: u32,
    pub api_version: u32,
}

/// Describes the application `application_name`, version 1.4.0, on the
/// Nephrite engine version 1.0.0, asking for Vulkan 1.4.0.
pub fn application_info(application_name: &str) -> (r: ApplicationInfo)
    ensures
        r.application_name@ == application_name@,
        r.application_version == spec_make_version(1, 4, 0),
        r.engine_name@ == "Nephrite"@,
        r.engine_version == spec_make_version(1, 0, 0),
        r.api_version == spec_make_version(1, 4, 0),
{
    ApplicationInfo {
        application_name: String::from_str(application_name),
        application_version: make_version(1, 4, 0),
        engine_name: String::from_str("Nephrite"),
        engine_version: make_version(1, 0, 0),
        api_version: make_version(1, 4, 0),
    }
}

} // verus!
