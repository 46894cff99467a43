use daktilo_tray::registry::{
    default_device_or_fallback, device_exists, find_preset, list_devices, resolve_default_device_name,
    OutputDevice,
};
use daktilo_tray::text::{decimal, same_text};

fn strings(list: &[&str]) -> Vec<String> {
    list.iter().map(|name| name.to_string()).collect()
}

fn reported(list: &[&str]) -> Option<Vec<Option<String>>> {
    Some(list.iter().map(|name| Some(name.to_string())).collect())
}

#[test]
fn find_preset_gives_the_first_position() {
    let presets = strings(&["default", "soft", "basic", "soft"]);
    assert_eq!(find_preset(&presets, "default"), Some(0));
    assert_eq!(find_preset(&presets, "soft"), Some(1));
    assert_eq!(find_preset(&presets, "basic"), Some(2));
}

#[test]
fn find_preset_misses_unknown_names() {
    let presets = strings(&["default", "soft"]);
    assert_eq!(find_preset(&presets, "Soft"), None);
    assert_eq!(find_preset(&presets, "sof"), None);
    assert_eq!(find_preset(&presets, ""), None);
    assert_eq!(find_preset(&Vec::new(), "default"), None);
}

#[test]
fn list_devices_keeps_labels_and_lowers_names() {
    let devices = list_devices(reported(&["Speakers", "USB HeadPhones", "hdmi"]));
    assert_eq!(
        devices,
        vec![
            OutputDevice { label: "Speakers".to_string(), name: "speakers".to_string() },
            OutputDevice { label: "USB HeadPhones".to_string(), name: "usb headphones".to_string() },
            OutputDevice { label: "hdmi".to_string(), name: "hdmi".to_string() },
        ]
    );
    assert!(list_devices(Some(Vec::new())).is_empty());
}

#[test]
fn list_devices_leaves_out_outputs_without_a_name() {
    let devices = list_devices(Some(vec![
        None,
        Some("Speakers".to_string()),
        None,
        None,
        Some("HDMI".to_string()),
        None,
    ]));
    assert_eq!(
        devices,
        vec![
            OutputDevice { label: "Speakers".to_string(), name: "speakers".to_string() },
            OutputDevice { label: "HDMI".to_string(), name: "hdmi".to_string() },
        ]
    );
    assert!(list_devices(Some(vec![None, None])).is_empty());
}

#[test]
fn list_devices_of_a_host_that_cannot_list_is_empty() {
    assert!(list_devices(None).is_empty());
    assert!(!device_exists(&list_devices(None), "speakers"));
}

#[test]
fn device_exists_matches_the_lowered_name_only() {
    let devices = list_devices(reported(&["Speakers", "HeadPhones"]));
    assert!(device_exists(&devices, "speakers"));
    assert!(device_exists(&devices, "headphones"));
    assert!(!device_exists(&devices, "Speakers"));
    assert!(!device_exists(&devices, "hdmi"));
    assert!(!device_exists(&Vec::new(), "speakers"));
}

#[test]
fn default_device_name_is_lowered() {
    assert_eq!(
        resolve_default_device_name(Some(Some("Built-in Output".to_string()))),
        "built-in output"
    );
    assert_eq!(resolve_default_device_name(Some(Some("ÄÖ Ü".to_string()))), "äö ü");
}

#[test]
fn default_device_name_falls_back() {
    assert_eq!(resolve_default_device_name(None), "default");
    assert_eq!(resolve_default_device_name(Some(None)), "default");
    assert_eq!(default_device_or_fallback(None), "default");
    assert_eq!(default_device_or_fallback(Some("Kept As Is".to_string())), "Kept As Is");
}

#[test]
fn same_text_compares_characters() {
    assert!(same_text("preset_1", "preset_1"));
    assert!(!same_text("preset_1", "preset_10"));
    assert!(!same_text("a", "A"));
    assert!(same_text("", ""));
}

#[test]
fn decimal_writes_numbers() {
    assert_eq!(decimal(0), "0");
    assert_eq!(decimal(7), "7");
    assert_eq!(decimal(9), "9");
    assert_eq!(decimal(10), "10");
    assert_eq!(decimal(101), "101");
    assert_eq!(decimal(1234567890), "1234567890");
    assert_eq!(decimal(usize::MAX), usize::MAX.to_string());
}
