use p2pmidi::constants;
use p2pmidi::settings::{Settings, SettingsPatch, ThemeType};

#[test]
fn default_settings_point_at_the_default_relay() {
    let s = Settings::default();
    assert_eq!(s.name, None);
    assert!(s.ip_addresses.is_empty());
    assert_eq!(s.port, constants::DEFAULT_PORT);
    assert_eq!(s.midi_device, None);
    assert_eq!(s.relay_address, constants::RELAY_ADDRESS);
    assert_eq!(s.relay_port, constants::RELAY_PORT);
    assert_eq!(s.theme, None);
}

#[test]
fn empty_patch_changes_nothing() {
    let merged = Settings::default().merged_with(SettingsPatch::empty());
    assert_eq!(merged.port, constants::DEFAULT_PORT);
    assert_eq!(merged.relay_address, constants::RELAY_ADDRESS);
    assert_eq!(merged.name, None);
}

#[test]
fn patched_fields_win_and_others_keep_the_base() {
    let mut patch = SettingsPatch::empty();
    patch.name = Some("alice".to_string());
    patch.relay_port = Some(9000);
    patch.theme = Some(ThemeType::Dark);
    let merged = Settings::default().merged_with(patch);
    assert_eq!(merged.name, Some("alice".to_string()));
    assert_eq!(merged.relay_port, 9000);
    assert_eq!(merged.theme, Some(ThemeType::Dark));
    // Untouched fields keep the base's values.
    assert_eq!(merged.port, constants::DEFAULT_PORT);
    assert_eq!(merged.relay_address, constants::RELAY_ADDRESS);
    assert_eq!(merged.midi_device, None);
}

#[test]
fn a_patch_can_replace_the_address_list() {
    let mut patch = SettingsPatch::empty();
    patch.ip_addresses = Some(vec!["198.51.100.7".to_string(), "198.51.100.8".to_string()]);
    let merged = Settings::default().merged_with(patch);
    assert_eq!(merged.ip_addresses.len(), 2);
}
