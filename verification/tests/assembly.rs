use vulkan_bootstrap::diagnostics::{diagnostics_config, resolve_diagnostics};
use vulkan_bootstrap::names::{device_extensions, instance_extensions, validation_layers};
use vulkan_bootstrap::selection::{find_first_graphics, AcceleratorInfo, QueueFamilyDesc, Selection};

fn queue_family(graphics: bool) -> QueueFamilyDesc {
    QueueFamilyDesc { flags: if graphics { 1 } else { 0 } }
}

fn accelerator(families: Vec<QueueFamilyDesc>) -> AcceleratorInfo {
    AcceleratorInfo { families }
}

#[test]
fn instance_extensions_exact() {
    let required = vec!["VK_KHR_surface".to_string(), "VK_KHR_xlib_surface".to_string()];
    assert_eq!(
        instance_extensions(&required, false),
        vec![
            "VK_KHR_surface".to_string(),
            "VK_KHR_xlib_surface".to_string(),
            "VK_EXT_debug_utils".to_string(),
        ]
    );
    assert_eq!(
        instance_extensions(&required, true),
        vec![
            "VK_KHR_surface".to_string(),
            "VK_KHR_xlib_surface".to_string(),
            "VK_EXT_debug_utils".to_string(),
            "VK_KHR_portability_enumeration".to_string(),
            "VK_KHR_get_physical_device_properties2".to_string(),
        ]
    );
}

#[test]
fn device_extensions_exact() {
    assert_eq!(device_extensions(false), vec!["VK_KHR_swapchain".to_string()]);
    assert_eq!(
        device_extensions(true),
        vec![
            "VK_KHR_swapchain".to_string(),
            "VK_KHR_portability_subset".to_string(),
        ]
    );
}

#[test]
fn validation_layers_exact() {
    assert_eq!(
        validation_layers(),
        vec!["VK_LAYER_KHRONOS_validation".to_string()]
    );
}

#[test]
fn diagnostics_masks_exact() {
    let cfg = diagnostics_config();
    assert_eq!(cfg.severity_mask, 0x1110);
    assert_eq!(cfg.type_mask, 0x7);
}

#[test]
fn diagnostics_null_fields_resolved() {
    // A record whose message and message-id-name the driver left null
    // resolves to empty strings, and the verdict never asks for
    // suppression.
    let r = resolve_diagnostics(None, None);
    assert_eq!(r.message_id_name, "");
    assert_eq!(r.message, "");
    assert_eq!(r.verdict, 0);
}

#[test]
fn diagnostics_fields_passed_through() {
    let r = resolve_diagnostics(
        Some("VUID-undefined".to_string()),
        Some("a validation finding".to_string()),
    );
    assert_eq!(r.message_id_name, "VUID-undefined");
    assert_eq!(r.message, "a validation finding");
    assert_eq!(r.verdict, 0);
}

#[test]
fn find_first_graphics_in_driver_order() {
    let devs = vec![
        accelerator(vec![queue_family(false)]),
        accelerator(vec![queue_family(false), queue_family(true), queue_family(true)]),
    ];
    assert_eq!(
        find_first_graphics(&devs, 0, 0),
        Some(Selection { device: 1, family: 1 })
    );
    assert_eq!(
        find_first_graphics(&devs, 1, 2),
        Some(Selection { device: 1, family: 2 })
    );
    assert_eq!(find_first_graphics(&devs, 1, 3), None);
    let none = vec![accelerator(vec![queue_family(false)]), accelerator(vec![])];
    assert_eq!(find_first_graphics(&none, 0, 0), None);
}
