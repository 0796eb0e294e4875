use nephrite::device::{
    get_supported, get_supported_brief, pick_first_physical_device, select_supported_device,
    supports_requirements, DeviceProfile, NoSuitableDevice, SuitabilityError, SuitabilityFailure,
};
use nephrite::error::AppError;
use nephrite::queue_family::{
    binary_digits_string, find_queue_family, get_flag, get_flag_brief, QueueFamilyIndices,
};

const V1_4_0: u32 = (1 << 22) | (4 << 12);

fn version(major: u32, minor: u32, patch: u32) -> u32 {
    (major << 22) | (minor << 12) | patch
}

fn device(api_version: u32, geometry_shader: u32, families: &[u32]) -> DeviceProfile {
    DeviceProfile { api_version, geometry_shader, queue_families: families.to_vec() }
}

fn hardware(message: &str) -> AppError {
    AppError::Hardware(message.to_string())
}

fn assert_err(r: Result<QueueFamilyIndices, AppError>, message: &str) {
    match r {
        Err(AppError::Hardware(m)) => assert_eq!(m, message),
        other => panic!("unexpected result {:?}", other),
    }
}

#[test]
fn binary_digits_as_written_by_format() {
    for n in [0u32, 1, 2, 5, 8, 255, 1024, u32::MAX] {
        assert_eq!(binary_digits_string(n), format!("{:b}", n));
    }
}

#[test]
fn get_flag_returns_first_matching_family() {
    let families = vec![0b0110, 0b0001, 0b1111];
    assert_eq!(get_flag(&families, 1, "GRAPHICS").unwrap(), 1);
    assert_eq!(get_flag(&families, 2, "COMPUTE").unwrap(), 0);
    assert_eq!(get_flag(&families, 8, "SPARSE_BINDING").unwrap(), 2);
    // every bit of the flag must be present
    assert_eq!(get_flag(&families, 0b0101, "MIXED").unwrap(), 2);
    assert_eq!(find_queue_family(&families, 0b1001), Some(2));
}

#[test]
fn get_flag_reports_missing_family() {
    let families = vec![0b0111, 0b0001];
    match get_flag(&families, 8, "SPARSE_BINDING") {
        Err(AppError::Hardware(m)) => {
            assert_eq!(m, "doesn't support required queue family: 0b1000 (SPARSE_BINDING)");
            assert_eq!(m, format!("doesn't support required queue family: {:#b} ({})", 8u32, "SPARSE_BINDING"));
        }
        other => panic!("unexpected {:?}", other),
    }
    assert!(get_flag(&vec![], 1, "GRAPHICS").is_err());
    assert_eq!(find_queue_family(&vec![], 1), None);
}

#[test]
fn get_flag_brief_names_the_flag() {
    let families = vec![0b0101];
    assert_eq!(get_flag_brief(&families, 4).unwrap(), 0);
    match get_flag_brief(&families, 2) {
        Err(AppError::Hardware(m)) => {
            assert_eq!(m, "Does not support required queue families: COMPUTE")
        }
        other => panic!("unexpected {:?}", other),
    }
}

#[test]
fn get_supported_accepts_a_complete_device() {
    let d = device(version(1, 4, 1), 1, &[0b0001, 0b0110, 0b1111]);
    let q = get_supported(&d).unwrap();
    assert_eq!(q, QueueFamilyIndices { graphics: 0, compute: 1, transfer: 1, sparsebind: 2 });
    assert_eq!(get_supported_brief(&d).unwrap(), q);
}

#[test]
fn get_supported_rejects_vulkan_1_4_0_and_older() {
    assert_eq!(V1_4_0, version(1, 4, 0));
    let families = [0b1111];
    assert_err(get_supported(&device(V1_4_0, 1, &families)), "doesn't support Vuklan 1.4.0");
    assert_err(get_supported(&device(version(1, 3, 0), 1, &families)), "doesn't support Vuklan 1.4.0");
    assert!(get_supported(&device(V1_4_0 + 1, 1, &families)).is_ok());
    assert_err(get_supported_brief(&device(V1_4_0, 1, &families)), "Does not support Vulkan v1.4");
}

#[test]
fn get_supported_requires_geometry_shaders() {
    assert_err(
        get_supported(&device(version(1, 5, 0), 0, &[0b1111])),
        "doesn't support geometry shaders",
    );
    assert_err(
        get_supported_brief(&device(version(1, 5, 0), 0, &[0b1111])),
        "Does not support geometry shaders",
    );
}

#[test]
fn get_supported_reports_first_missing_family() {
    assert_err(
        get_supported(&device(version(1, 5, 0), 1, &[0b1101])),
        "doesn't support required queue family: 0b10 (COMPUTE)",
    );
    assert_err(
        get_supported(&device(version(1, 5, 0), 1, &[0b0010])),
        "doesn't support required queue family: 0b1 (GRAPHICS)",
    );
    assert_err(
        get_supported_brief(&device(version(1, 5, 0), 1, &[0b0111])),
        "Does not support required queue families: SPARSE_BINDING",
    );
}

#[test]
fn supports_requirements_checks_in_order() {
    let ok = device(version(1, 4, 0), 1, &[0b0001]);
    assert_eq!(supports_requirements(&ok), Ok(()));
    assert_eq!(
        supports_requirements(&device(version(2, 0, 0), 0, &[0b0010])),
        Err(SuitabilityFailure::MissingQueueFamilies)
    );
    let old = SuitabilityFailure::Unsuitable(SuitabilityError("Does not support Vulkan v1.3"));
    assert_eq!(supports_requirements(&device(version(1, 3, 9), 0, &[1])), Err(old));
    assert_eq!(supports_requirements(&device(version(2, 5, 0), 1, &[1])), Err(old));
    assert_eq!(
        supports_requirements(&device(version(1, 7, 0), 0, &[1])),
        Err(SuitabilityFailure::Unsuitable(SuitabilityError("Does not support geometry shaders")))
    );
}

#[test]
fn suitability_messages() {
    assert_eq!(SuitabilityError("geometry shaders").message(), "Missing geometry shaders.");
    assert_eq!(
        SuitabilityFailure::MissingQueueFamilies.message(),
        "Does not support required queue families"
    );
    assert_eq!(
        SuitabilityFailure::Unsuitable(SuitabilityError("Does not support Vulkan v1.3")).message(),
        "Missing Does not support Vulkan v1.3."
    );
    assert_eq!(NoSuitableDevice.message(), "Failed to find suitable physical device");
}

#[test]
fn pick_first_physical_device_skips_unsuitable_devices() {
    let devices = vec![
        device(version(1, 4, 0), 1, &[0b0010]),
        device(version(1, 2, 0), 1, &[0b0001]),
        device(version(1, 4, 2), 1, &[0b0001]),
        device(version(1, 5, 0), 1, &[0b0001]),
    ];
    let choice = pick_first_physical_device(&devices);
    assert_eq!(choice.chosen, Ok(2));
    assert_eq!(
        choice.rejections,
        vec![
            SuitabilityFailure::MissingQueueFamilies,
            SuitabilityFailure::Unsuitable(SuitabilityError("Does not support Vulkan v1.3")),
        ]
    );
}

#[test]
fn pick_first_physical_device_without_suitable_device() {
    let devices = vec![device(version(1, 4, 0), 0, &[1])];
    let choice = pick_first_physical_device(&devices);
    assert_eq!(choice.chosen, Err(NoSuitableDevice));
    assert_eq!(choice.rejections.len(), 1);
    let none = pick_first_physical_device(&vec![]);
    assert_eq!(none.chosen, Err(NoSuitableDevice));
    assert!(none.rejections.is_empty());
}

#[test]
fn select_supported_device_takes_first_supported() {
    let devices = vec![
        device(version(1, 4, 0), 1, &[0b1111]),
        device(version(1, 6, 0), 1, &[0b0001, 0b1110]),
        device(version(1, 6, 0), 1, &[0b1111]),
    ];
    let (index, q) = select_supported_device(&devices).unwrap();
    assert_eq!(index, 1);
    assert_eq!(q, QueueFamilyIndices { graphics: 0, compute: 1, transfer: 1, sparsebind: 1 });
    match select_supported_device(&vec![devices[0].clone()]) {
        Err(e) => assert_eq!(e.message(), "no supported physical devices"),
        Ok(_) => panic!("device 1.4.0 must be refused"),
    }
    assert!(select_supported_device(&vec![]).is_err());
}

#[test]
fn supported_devices_of_major_one_meet_requirements() {
    for d in [
        device(version(1, 4, 1), 1, &[0b1111]),
        device(version(1, 9, 3), 1, &[0b0011, 0b1100]),
        device(version(1, 1023, 4095), 1, &[0b1111]),
    ] {
        assert!(get_supported(&d).is_ok());
        assert_eq!(supports_requirements(&d), Ok(()));
    }
    // the converse fails on exactly 1.4.0
    let edge = device(version(1, 4, 0), 1, &[0b1111]);
    assert_eq!(supports_requirements(&edge), Ok(()));
    assert!(get_supported(&edge).is_err());
}

#[test]
fn app_error_message() {
    assert_eq!(hardware("x").message(), "x");
    assert_eq!(AppError::Validation("y".to_string()).message(), "y");
}

#[test]
fn requirements_choice_comes_no_later_than_supported_choice() {
    let devices = vec![
        device(version(1, 4, 0), 0, &[0b1111]),
        device(version(1, 4, 0), 1, &[0b1111]),
        device(version(1, 5, 0), 1, &[0b1111]),
    ];
    let (supported, _) = select_supported_device(&devices).unwrap();
    let choice = pick_first_physical_device(&devices);
    assert_eq!(supported, 2);
    assert_eq!(choice.chosen, Ok(1));
}

#[test]
fn appending_families_keeps_a_found_index() {
    let v = vec![0b0100, 0b0001];
    let w = vec![0b1111, 0b0010];
    let u: Vec<u32> = v.iter().chain(w.iter()).copied().collect();
    assert_eq!(get_flag(&u, 1, "GRAPHICS").unwrap(), get_flag(&v, 1, "GRAPHICS").unwrap());
    // not in v: found in w, shifted by the length of v
    assert!(get_flag(&v, 8, "SPARSE_BINDING").is_err());
    assert_eq!(get_flag(&u, 8, "SPARSE_BINDING").unwrap(), get_flag(&w, 8, "SPARSE_BINDING").unwrap() + 2);
    // in neither: the same error
    assert_eq!(
        get_flag(&u, 16, "PROTECTED").unwrap_err().message(),
        get_flag(&w, 16, "PROTECTED").unwrap_err().message()
    );
}

#[test]
fn flag_debug_text_of_combined_and_empty_flags() {
    match get_flag_brief(&vec![0b0001], 0b1010) {
        Err(AppError::Hardware(m)) => {
            assert_eq!(m, "Does not support required queue families: COMPUTE | SPARSE_BINDING")
        }
        other => panic!("unexpected {:?}", other),
    }
    // unnamed bits are dropped by truncation
    match get_flag_brief(&vec![0b0001], 0b1000_0000) {
        Err(AppError::Hardware(m)) => assert_eq!(m, "Does not support required queue families: (empty)"),
        other => panic!("unexpected {:?}", other),
    }
}
