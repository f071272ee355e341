use triangle_engine::instance::{
    all_layers_available, application_info, check_debug_layers, plan_debug_callback,
    plan_instance, required_extensions, route_debug_message, validation_layers,
    InstanceExtensions, LogLevel, MessageSeverity, Version,
};

fn toolkit_extensions() -> InstanceExtensions {
    InstanceExtensions {
        khr_surface: true,
        khr_xlib_surface: true,
        khr_xcb_surface: false,
        khr_wayland_surface: false,
        ext_debug_utils: false,
    }
}

#[test]
fn required_extensions_keep_the_toolkit_set_without_validation() {
    let required = required_extensions(&toolkit_extensions(), false);
    assert_eq!(required, toolkit_extensions());
}

#[test]
fn required_extensions_add_debug_utils_with_validation() {
    let required = required_extensions(&toolkit_extensions(), true);
    assert!(required.ext_debug_utils);
    assert!(required.khr_surface);
    assert!(required.khr_xlib_surface);
    assert!(!required.khr_wayland_surface);
}

#[test]
fn validation_layers_name_the_khronos_layer() {
    let layers = validation_layers();
    assert_eq!(layers, vec!["VK_LAYER_KHRONOS_validation".to_owned()]);
}

#[test]
fn debug_layers_found_when_available() {
    let available = vec![
        "VK_LAYER_MESA_overlay".to_owned(),
        "VK_LAYER_KHRONOS_validation".to_owned(),
    ];
    assert!(check_debug_layers(&available));
}

#[test]
fn debug_layers_missing_when_absent() {
    let available = vec!["VK_LAYER_MESA_overlay".to_owned()];
    assert!(!check_debug_layers(&available));
}

#[test]
fn layer_check_handles_an_empty_required_list() {
    let required: Vec<String> = vec![];
    let available: Vec<String> = vec![];
    assert!(all_layers_available(&required, &available));
}

#[test]
fn layer_check_requires_every_entry() {
    let required = vec!["a".to_owned(), "b".to_owned()];
    let available = vec!["a".to_owned()];
    assert!(!all_layers_available(&required, &available));
    let available_both = vec!["b".to_owned(), "a".to_owned()];
    assert!(all_layers_available(&required, &available_both));
}

#[test]
fn application_info_carries_the_fixed_identity() {
    let info = application_info();
    assert_eq!(info.application_name, "Vulkan Experiments");
    assert_eq!(info.application_version, Some(Version { major: 1, minor: 0, patch: 0 }));
    assert_eq!(info.engine_name, "no engine");
    assert_eq!(info.engine_version, None);
}

#[test]
fn debug_callback_subscribes_to_everything_when_enabled() {
    let config = plan_debug_callback(true).unwrap();
    assert!(config.severity.error);
    assert!(config.severity.warning);
    assert!(config.severity.information);
    assert!(config.severity.verbose);
    assert!(config.message_types.general);
    assert!(config.message_types.performance);
    assert!(config.message_types.validation);
}

#[test]
fn debug_callback_is_absent_when_disabled() {
    assert!(plan_debug_callback(false).is_none());
}

#[test]
fn message_routing_picks_the_highest_severity() {
    let error = MessageSeverity { error: true, warning: true, information: true, verbose: true };
    let warn = MessageSeverity { error: false, warning: true, information: true, verbose: true };
    let info = MessageSeverity { error: false, warning: false, information: true, verbose: true };
    let verbose =
        MessageSeverity { error: false, warning: false, information: false, verbose: true };
    let none = MessageSeverity { error: false, warning: false, information: false, verbose: false };
    assert_eq!(route_debug_message(&error), LogLevel::Error);
    assert_eq!(route_debug_message(&warn), LogLevel::Warn);
    assert_eq!(route_debug_message(&info), LogLevel::Info);
    assert_eq!(route_debug_message(&verbose), LogLevel::Debug);
    assert_eq!(route_debug_message(&none), LogLevel::Debug);
}

#[test]
fn instance_plan_notes_missing_validation_layers() {
    let available = vec!["VK_LAYER_MESA_overlay".to_owned()];
    let plan = plan_instance(&toolkit_extensions(), true, &available);
    assert!(plan.missing_validation_layers);
    assert!(plan.extensions.ext_debug_utils);
    assert_eq!(plan.info.application_name, "Vulkan Experiments");
}

#[test]
fn instance_plan_is_quiet_when_validation_is_off() {
    let available: Vec<String> = vec![];
    let plan = plan_instance(&toolkit_extensions(), false, &available);
    assert!(!plan.missing_validation_layers);
    assert!(!plan.extensions.ext_debug_utils);
}
