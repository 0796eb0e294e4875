use nephrite::debug::{log_level_for_severity, LogLevel};
use nephrite::error::AppError;
use nephrite::instance::{
    application_info, enabled_layer_names, instance_create_flags, instance_extension_names,
    portability_enumeration_required, validate_layers,
};

fn names(v: &[&str]) -> Vec<String> {
    v.iter().map(|s| s.to_string()).collect()
}

#[test]
fn validation_layer_check() {
    let with = names(&["VK_LAYER_MESA_device_select", "VK_LAYER_KHRONOS_validation"]);
    let without = names(&["VK_LAYER_MESA_device_select"]);
    assert!(validate_layers(&with, true).is_ok());
    assert!(validate_layers(&without, false).is_ok());
    assert!(validate_layers(&vec![], false).is_ok());
    match validate_layers(&without, true) {
        Err(AppError::Validation(m)) => {
            assert_eq!(m, "Validation layer requested but not supported")
        }
        other => panic!("unexpected {:?}", other),
    }
}

#[test]
fn layers_to_enable() {
    assert_eq!(enabled_layer_names(true), names(&["VK_LAYER_KHRONOS_validation"]));
    assert!(enabled_layer_names(false).is_empty());
}

#[test]
fn extension_lists() {
    let required = names(&["VK_KHR_surface", "VK_KHR_xlib_surface"]);
    assert_eq!(instance_extension_names(&required, false, false), required);
    assert_eq!(
        instance_extension_names(&required, true, false),
        names(&["VK_KHR_surface", "VK_KHR_xlib_surface", "VK_EXT_debug_utils"])
    );
    assert_eq!(
        instance_extension_names(&required, true, true),
        names(&[
            "VK_KHR_surface",
            "VK_KHR_xlib_surface",
            "VK_EXT_debug_utils",
            "VK_KHR_get_physical_device_properties2",
            "VK_KHR_portability_enumeration",
        ])
    );
    assert_eq!(
        instance_extension_names(&vec![], false, true),
        names(&["VK_KHR_get_physical_device_properties2", "VK_KHR_portability_enumeration"])
    );
}

#[test]
fn portability_threshold() {
    assert!(portability_enumeration_required((1, 3, 216)));
    assert!(portability_enumeration_required((1, 3, 217)));
    assert!(portability_enumeration_required((1, 4, 0)));
    assert!(portability_enumeration_required((2, 0, 0)));
    assert!(!portability_enumeration_required((1, 3, 215)));
    assert!(!portability_enumeration_required((1, 2, 300)));
    assert!(!portability_enumeration_required((0, 9, 999)));
}

#[test]
fn creation_flags() {
    assert_eq!(instance_create_flags(true), 1);
    assert_eq!(instance_create_flags(false), 0);
}

#[test]
fn application_description() {
    let info = application_info("Nephrite");
    assert_eq!(info.application_name, "Nephrite");
    assert_eq!(info.engine_name, "Nephrite");
    assert_eq!(info.application_version, 4_210_688);
    assert_eq!(info.engine_version, 4_194_304);
    assert_eq!(info.api_version, (1 << 22) | (4 << 12));
}

#[test]
fn debug_message_levels() {
    assert_eq!(log_level_for_severity(0x1000), LogLevel::Error);
    assert_eq!(log_level_for_severity(0x1100), LogLevel::Error);
    assert_eq!(log_level_for_severity(0x0fff), LogLevel::Warn);
    assert_eq!(log_level_for_severity(0x100), LogLevel::Warn);
    assert_eq!(log_level_for_severity(0x10), LogLevel::Debug);
    assert_eq!(log_level_for_severity(0x11), LogLevel::Debug);
    assert_eq!(log_level_for_severity(0x1), LogLevel::Trace);
    assert_eq!(log_level_for_severity(0), LogLevel::Trace);
}
