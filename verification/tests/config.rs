use clipboard_manager::config::{Config, CONFIG_VERSION};

#[test]
fn private_mode_is_off_by_default() {
    assert_eq!(Config::default(), Config { private_mode: false });
    assert!(!Config::default().private_mode);
}

#[test]
fn config_version_is_one() {
    assert_eq!(CONFIG_VERSION, 1);
}

#[test]
fn configs_compare_by_private_mode() {
    assert_eq!(Config { private_mode: true }, Config { private_mode: true }.clone());
    assert_ne!(Config { private_mode: true }, Config { private_mode: false });
}
