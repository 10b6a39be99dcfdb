use bubbler::config::{ConfigData, SlotConfig};
use bubbler::machine::{
    drop, drop_message, error_message, is_stocked, motor_signal, outcome_status, pio_path,
    presence_path, run_motor, temperature_enabled, temperature_path, DropAction, DropError,
    DropEvent, DropState, StockReading,
};

fn owfs_config() -> ConfigData {
    ConfigData {
        temperature_id: String::new(),
        slots: vec![
            SlotConfig::OWFS("10.28.xx.01".to_string()),
            SlotConfig::OWFS("10.28.xx.02".to_string()),
        ],
        latch: None,
        drop_delay: 500,
        poll_delay: 20,
    }
}

#[test]
fn bad_slot_zero_and_out_of_range() {
    let config = owfs_config();
    assert!(matches!(drop(&config, 0), Err(DropError::BadSlot)));
    assert!(matches!(drop(&config, 3), Err(DropError::BadSlot)));
    assert!(matches!(drop(&config, usize::MAX), Err(DropError::BadSlot)));
    assert!(drop(&config, 1).is_ok());
    assert!(drop(&config, 2).is_ok());
}

fn drive(
    run: &mut bubbler::machine::DropRun,
    events: &[DropEvent],
) -> Vec<DropAction> {
    let mut actions = Vec::new();
    for ev in events {
        actions.push(run.step(*ev));
    }
    actions
}

#[test]
fn owfs_success_issues_double_deenergize() {
    let config = owfs_config();
    let mut run = drop(&config, 1).unwrap();
    let actions = drive(
        &mut run,
        &[
            DropEvent::Started,
            DropEvent::ActuationDone(true),
            DropEvent::Slept,
            DropEvent::ActuationDone(true),
            DropEvent::Slept,
            DropEvent::ActuationDone(true),
        ],
    );
    assert_eq!(
        actions,
        vec![
            DropAction::Actuate(true),
            DropAction::SleepMs(500),
            DropAction::Actuate(false),
            DropAction::SleepMs(500),
            DropAction::Actuate(false),
            DropAction::Finish(Ok(DropState::Success)),
        ]
    );
    assert!(run.is_finished());
}

#[test]
fn gpio_success_has_single_deenergize() {
    let config = ConfigData {
        temperature_id: String::new(),
        slots: vec![SlotConfig::GPIO { vend: 4, stocked: 5 }],
        latch: None,
        drop_delay: 250,
        poll_delay: 20,
    };
    let mut run = drop(&config, 1).unwrap();
    let actions = drive(
        &mut run,
        &[
            DropEvent::Started,
            DropEvent::ActuationDone(true),
            DropEvent::Slept,
            DropEvent::ActuationDone(true),
        ],
    );
    assert_eq!(
        actions,
        vec![
            DropAction::Actuate(true),
            DropAction::SleepMs(250),
            DropAction::Actuate(false),
            DropAction::Finish(Ok(DropState::Success)),
        ]
    );
}

#[test]
fn sensed_slot_waits_for_cam_and_polls() {
    let config = ConfigData {
        temperature_id: String::new(),
        slots: vec![SlotConfig::NewdrinkSmall { vend: 2, stock: 3, cam: 4 }],
        latch: None,
        drop_delay: 500,
        poll_delay: 35,
    };
    let mut run = drop(&config, 1).unwrap();
    let actions = drive(
        &mut run,
        &[
            DropEvent::Started,
            DropEvent::ActuationDone(true),
            DropEvent::CamValue(0),
            DropEvent::Slept,
            DropEvent::CamValue(0),
            DropEvent::Slept,
            DropEvent::CamValue(1),
            DropEvent::ActuationDone(true),
        ],
    );
    assert_eq!(
        actions,
        vec![
            DropAction::Actuate(true),
            DropAction::ReadCam,
            DropAction::SleepMs(35),
            DropAction::ReadCam,
            DropAction::SleepMs(35),
            DropAction::ReadCam,
            DropAction::Actuate(false),
            DropAction::Finish(Ok(DropState::Success)),
        ]
    );
}

#[test]
fn sensed_slot_immediate_completion_reads_once() {
    let config = ConfigData {
        temperature_id: String::new(),
        slots: vec![SlotConfig::NewdrinkSmall { vend: 2, stock: 3, cam: 4 }],
        latch: None,
        drop_delay: 500,
        poll_delay: 35,
    };
    let mut run = drop(&config, 1).unwrap();
    let actions = drive(
        &mut run,
        &[
            DropEvent::Started,
            DropEvent::ActuationDone(true),
            DropEvent::CamValue(1),
            DropEvent::ActuationDone(true),
        ],
    );
    let reads = actions.iter().filter(|a| **a == DropAction::ReadCam).count();
    assert_eq!(reads, 1);
    assert_eq!(
        actions,
        vec![
            DropAction::Actuate(true),
            DropAction::ReadCam,
            DropAction::Actuate(false),
            DropAction::Finish(Ok(DropState::Success)),
        ]
    );
}

#[test]
fn latch_is_presignalled_before_energize() {
    let config = ConfigData {
        temperature_id: String::new(),
        slots: vec![SlotConfig::GPIO { vend: 4, stocked: 5 }],
        latch: Some(bubbler::latch::Latch { line: 17 }),
        drop_delay: 100,
        poll_delay: 20,
    };
    let mut run = drop(&config, 1).unwrap();
    assert_eq!(run.step(DropEvent::Started), DropAction::OpenLatch);
    assert_eq!(run.step(DropEvent::LatchOpened), DropAction::Actuate(true));
}

#[test]
fn energize_failure_still_deenergizes_and_reports_motor_failed() {
    let config = owfs_config();
    let mut run = drop(&config, 1).unwrap();
    let actions = drive(
        &mut run,
        &[
            DropEvent::Started,
            DropEvent::ActuationDone(false),
            DropEvent::ActuationDone(true),
            DropEvent::Slept,
            DropEvent::ActuationDone(true),
        ],
    );
    assert_eq!(
        actions,
        vec![
            DropAction::Actuate(true),
            DropAction::Actuate(false),
            DropAction::SleepMs(500),
            DropAction::Actuate(false),
            DropAction::Finish(Err(DropError::MotorFailed)),
        ]
    );
}

#[test]
fn deenergize_failure_overrides_success() {
    let config = ConfigData {
        temperature_id: String::new(),
        slots: vec![SlotConfig::GPIO { vend: 4, stocked: 5 }],
        latch: None,
        drop_delay: 100,
        poll_delay: 20,
    };
    let mut run = drop(&config, 1).unwrap();
    let actions = drive(
        &mut run,
        &[
            DropEvent::Started,
            DropEvent::ActuationDone(true),
            DropEvent::Slept,
            DropEvent::ActuationDone(false),
        ],
    );
    assert_eq!(actions[3], DropAction::Finish(Err(DropError::MotorFailed)));
}

#[test]
fn mismatched_event_is_ignored() {
    let config = owfs_config();
    let mut run = drop(&config, 1).unwrap();
    assert_eq!(run.step(DropEvent::Slept), DropAction::Ignored);
    assert_eq!(run.step(DropEvent::Started), DropAction::Actuate(true));
}

#[test]
fn stock_reading_line_value() {
    let slot = SlotConfig::GPIO { vend: 4, stocked: 5 };
    assert!(is_stocked(&slot, &StockReading::LineValue(Some(1))));
    assert!(!is_stocked(&slot, &StockReading::LineValue(Some(0))));
    assert!(!is_stocked(&slot, &StockReading::LineValue(None)));
    let sensed = SlotConfig::NewdrinkSmall { vend: 2, stock: 3, cam: 4 };
    assert!(is_stocked(&sensed, &StockReading::LineValue(Some(1))));
    assert!(!is_stocked(&sensed, &StockReading::LineValue(None)));
}

#[test]
fn stock_reading_presence() {
    let slot = SlotConfig::OWFS("10.28.xx.01".to_string());
    assert!(is_stocked(&slot, &StockReading::Presence(true)));
    assert!(!is_stocked(&slot, &StockReading::Presence(false)));
}

#[test]
fn slot_status_is_one_indexed_in_wiring_order() {
    let config = owfs_config();
    let readings = vec![
        StockReading::Presence(true),
        StockReading::Presence(false),
    ];
    let statuses = bubbler::machine::get_slots(&config, &readings);
    assert_eq!(statuses.len(), 2);
    assert_eq!(statuses[0].number, 1);
    assert_eq!(statuses[0].id, "10.28.xx.01");
    assert!(statuses[0].stocked);
    assert_eq!(statuses[1].number, 2);
    assert_eq!(statuses[1].id, "10.28.xx.02");
    assert!(!statuses[1].stocked);
}

#[test]
fn legacy_slot_lines() {
    let config = ConfigData {
        temperature_id: String::new(),
        slots: vec![
            SlotConfig::GPIO { vend: 4, stocked: 5 },
            SlotConfig::OWFS("10.28.xx.02".to_string()),
        ],
        latch: None,
        drop_delay: 500,
        poll_delay: 20,
    };
    let readings = vec![
        StockReading::LineValue(Some(1)),
        StockReading::Presence(false),
    ];
    let lines = bubbler::machine::get_slots_old(&config, &readings);
    assert_eq!(lines.len(), 2);
    assert_eq!(lines[0], "Slot 1 (4.5) is stocked");
    assert_eq!(lines[1], "Slot 2 (10.28.xx.02) is empty");
}

#[test]
fn end_to_end_two_owfs_slots() {
    let config = owfs_config();
    let mut run = drop(&config, 1).unwrap();
    let actions = drive(
        &mut run,
        &[
            DropEvent::Started,
            DropEvent::ActuationDone(true),
            DropEvent::Slept,
            DropEvent::ActuationDone(true),
            DropEvent::Slept,
            DropEvent::ActuationDone(true),
        ],
    );
    assert_eq!(
        actions.last().unwrap(),
        &DropAction::Finish(Ok(DropState::Success))
    );
    assert!(matches!(drop(&config, 3), Err(DropError::BadSlot)));
    let readings = vec![
        StockReading::Presence(true),
        StockReading::Presence(true),
    ];
    let statuses = bubbler::machine::get_slots(&config, &readings);
    assert_eq!(statuses.len(), 2);
    assert_eq!(statuses[0].number, 1);
    assert_eq!(statuses[1].number, 2);
}

#[test]
fn motor_signal_values() {
    assert_eq!(motor_signal(true), 1);
    assert_eq!(motor_signal(false), 0);
}

#[test]
fn run_motor_maps_io_result() {
    assert!(matches!(run_motor(true), Ok(DropState::Success)));
    assert!(matches!(run_motor(false), Err(DropError::MotorFailed)));
}

#[test]
fn device_paths() {
    assert_eq!(pio_path("10.28.xx.01"), "/mnt/w1/10.28.xx.01/PIO");
    assert_eq!(presence_path("10.28.xx.01"), "/mnt/w1/10.28.xx.01/id");
    assert_eq!(
        temperature_path("10.5D.xx"),
        "/mnt/w1/10.5D.xx/temperature12"
    );
}

#[test]
fn temperature_disabled_when_address_empty() {
    let config = owfs_config();
    assert!(!temperature_enabled(&config));
    let mut warm = owfs_config();
    warm.temperature_id = "10.5D.xx".to_string();
    assert!(temperature_enabled(&warm));
}

#[test]
fn response_mapping() {
    assert_eq!(outcome_status(&Ok(DropState::Success)), 200);
    assert_eq!(outcome_status(&Err(DropError::BadSlot)), 400);
    assert_eq!(outcome_status(&Err(DropError::MotorFailed)), 500);
    assert_eq!(drop_message(7), "Dropped drink from slot 7");
    assert_eq!(error_message(&DropError::BadSlot), "Invalid slot ID provided");
    assert_eq!(
        error_message(&DropError::MotorFailed),
        "Motor failed to actuate"
    );
}
