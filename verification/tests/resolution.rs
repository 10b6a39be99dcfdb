use bubbler::config::{ConfigData, ConfigError, RawConfig, SlotConfig};

fn empty_raw() -> RawConfig {
    RawConfig {
        slot_addresses: None,
        new_vend_pins: None,
        new_stock_pins: None,
        new_cam_pins: None,
        vend_pins: None,
        stocked_pins: None,
        temperature_id: None,
        latch_pin: None,
        drop_delay: None,
        poll_delay: None,
    }
}

fn owfs_raw() -> RawConfig {
    RawConfig {
        slot_addresses: Some("10.28.xx.01,10.28.xx.02".to_string()),
        temperature_id: Some("10.5D.xx".to_string()),
        drop_delay: Some("500".to_string()),
        poll_delay: Some("20".to_string()),
        ..empty_raw()
    }
}

#[test]
fn owfs_addresses_resolve_in_order() {
    let config = ConfigData::new(owfs_raw()).unwrap();
    assert_eq!(config.slots.len(), 2);
    assert!(matches!(&config.slots[0], SlotConfig::OWFS(id) if id == "10.28.xx.01"));
    assert!(matches!(&config.slots[1], SlotConfig::OWFS(id) if id == "10.28.xx.02"));
    assert_eq!(config.temperature_id, "10.5D.xx");
    assert_eq!(config.drop_delay, 500);
    assert_eq!(config.poll_delay, 20);
    assert!(config.latch.is_none());
}

#[test]
fn gpio_pins_resolve_pairwise() {
    let raw = RawConfig {
        vend_pins: Some("4,6".to_string()),
        stocked_pins: Some("5,7".to_string()),
        drop_delay: Some("250".to_string()),
        poll_delay: Some("20".to_string()),
        ..empty_raw()
    };
    let config = ConfigData::new(raw).unwrap();
    assert_eq!(config.slots.len(), 2);
    assert!(matches!(
        config.slots[0],
        SlotConfig::GPIO { vend: 4, stocked: 5 }
    ));
    assert!(matches!(
        config.slots[1],
        SlotConfig::GPIO { vend: 6, stocked: 7 }
    ));
    assert_eq!(config.temperature_id, "");
}

#[test]
fn sensed_pins_resolve_triple() {
    let raw = RawConfig {
        new_vend_pins: Some("2,10".to_string()),
        new_stock_pins: Some("3,11".to_string()),
        new_cam_pins: Some("4,12".to_string()),
        drop_delay: Some("500".to_string()),
        poll_delay: Some("35".to_string()),
        ..empty_raw()
    };
    let config = ConfigData::new(raw).unwrap();
    assert_eq!(config.slots.len(), 2);
    assert!(matches!(
        config.slots[0],
        SlotConfig::NewdrinkSmall { vend: 2, stock: 3, cam: 4 }
    ));
    assert!(matches!(
        config.slots[1],
        SlotConfig::NewdrinkSmall { vend: 10, stock: 11, cam: 12 }
    ));
}

#[test]
fn addressable_takes_precedence_over_pins() {
    let raw = RawConfig {
        vend_pins: Some("4".to_string()),
        stocked_pins: Some("5".to_string()),
        ..owfs_raw()
    };
    let config = ConfigData::new(raw).unwrap();
    assert!(matches!(&config.slots[0], SlotConfig::OWFS(_)));
}

#[test]
fn no_topology_is_refused() {
    let raw = RawConfig {
        drop_delay: Some("500".to_string()),
        poll_delay: Some("20".to_string()),
        ..empty_raw()
    };
    assert!(matches!(ConfigData::new(raw), Err(ConfigError::MissingValue)));
}

#[test]
fn pin_list_without_companion_is_refused() {
    let raw = RawConfig {
        vend_pins: Some("4,6".to_string()),
        drop_delay: Some("500".to_string()),
        poll_delay: Some("20".to_string()),
        ..empty_raw()
    };
    assert!(matches!(ConfigData::new(raw), Err(ConfigError::MissingValue)));
    let raw = RawConfig {
        new_vend_pins: Some("2".to_string()),
        new_stock_pins: Some("3".to_string()),
        drop_delay: Some("500".to_string()),
        poll_delay: Some("20".to_string()),
        ..empty_raw()
    };
    assert!(matches!(ConfigData::new(raw), Err(ConfigError::MissingValue)));
}

#[test]
fn non_numeric_pin_is_refused() {
    let raw = RawConfig {
        vend_pins: Some("4,x".to_string()),
        stocked_pins: Some("5,7".to_string()),
        drop_delay: Some("500".to_string()),
        poll_delay: Some("20".to_string()),
        ..empty_raw()
    };
    assert!(matches!(ConfigData::new(raw), Err(ConfigError::BadNumber)));
}

#[test]
fn mismatched_pin_lists_are_refused() {
    let raw = RawConfig {
        vend_pins: Some("4,6,8".to_string()),
        stocked_pins: Some("5,7".to_string()),
        drop_delay: Some("500".to_string()),
        poll_delay: Some("20".to_string()),
        ..empty_raw()
    };
    assert!(matches!(ConfigData::new(raw), Err(ConfigError::MismatchedPins)));
}

#[test]
fn latch_pin_resolves() {
    let raw = RawConfig {
        latch_pin: Some("17".to_string()),
        ..owfs_raw()
    };
    let config = ConfigData::new(raw).unwrap();
    assert_eq!(config.latch.map(|l| l.line), Some(17));
}

#[test]
fn bad_latch_pin_is_refused() {
    let raw = RawConfig {
        latch_pin: Some("17a".to_string()),
        ..owfs_raw()
    };
    assert!(matches!(ConfigData::new(raw), Err(ConfigError::BadNumber)));
}

#[test]
fn missing_delay_is_refused() {
    let raw = RawConfig {
        drop_delay: None,
        ..owfs_raw()
    };
    assert!(matches!(ConfigData::new(raw), Err(ConfigError::MissingValue)));
    let raw = RawConfig {
        poll_delay: None,
        ..owfs_raw()
    };
    assert!(matches!(ConfigData::new(raw), Err(ConfigError::MissingValue)));
}

#[test]
fn non_numeric_delay_is_refused() {
    let raw = RawConfig {
        poll_delay: Some("soon".to_string()),
        ..owfs_raw()
    };
    assert!(matches!(ConfigData::new(raw), Err(ConfigError::BadNumber)));
}

#[test]
fn missing_temperature_address_disables_sensor() {
    let raw = RawConfig {
        temperature_id: None,
        ..owfs_raw()
    };
    let config = ConfigData::new(raw).unwrap();
    assert_eq!(config.temperature_id, "");
    assert!(!bubbler::machine::temperature_enabled(&config));
}

#[test]
fn empty_address_list_gives_one_empty_slot() {
    let raw = RawConfig {
        slot_addresses: Some(String::new()),
        ..owfs_raw()
    };
    let config = ConfigData::new(raw).unwrap();
    assert_eq!(config.slots.len(), 1);
    assert!(matches!(&config.slots[0], SlotConfig::OWFS(id) if id.is_empty()));
}

#[test]
fn slot_display_identities() {
    let gpio = SlotConfig::GPIO { vend: 4, stocked: 5 };
    assert_eq!(gpio.display(), "4.5");
    let sensed = SlotConfig::NewdrinkSmall { vend: 2, stock: 3, cam: 4 };
    assert_eq!(sensed.display(), "2.3.4");
    let owfs = SlotConfig::OWFS("10.28.xx.01".to_string());
    assert_eq!(owfs.display(), "10.28.xx.01");
}
