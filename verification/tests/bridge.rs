use nvml_ocsd_reporter::bridge::{Bridge, BridgeAction, BridgeEvent, BridgePhase};
use nvml_ocsd_reporter::device::{read_device_info, Readings};
use nvml_ocsd_reporter::record::encode_device;
use nvml_ocsd_reporter::slot::{polling_slots, select_by_slot, zeroing_slots};
use nvml_ocsd_reporter::state::{load_app_state, AppState, TableHeader, TableVersion};

fn header(buffers_in_use: u8) -> TableHeader {
    TableHeader {
        version: TableVersion::Version2,
        buffer_size: 0x600,
        max_option_cards: 8,
        one_option_card_size: 0xc0,
        buffer_start_address: 0x791f_6040,
        update_interval: 5,
        buffers_in_use,
    }
}

fn polling_bridge(devices: usize, offset: u8) -> Bridge {
    let mut bridge = Bridge::new(devices, devices);
    bridge.step(BridgeEvent::TransportOpened { header: header(offset), stored: None });
    bridge.step(BridgeEvent::HeaderWritten);
    bridge.step(BridgeEvent::SlotsZeroed);
    bridge
}

const ALL_EVENTS: [BridgeEvent; 6] = [
    BridgeEvent::TransportUnavailable,
    BridgeEvent::HeaderWritten,
    BridgeEvent::SlotsZeroed,
    BridgeEvent::SweepDone,
    BridgeEvent::TelemetryFailed,
    BridgeEvent::StopRequested,
];

#[test]
fn two_devices_with_offset_three() {
    let buses = vec![Some(0x04), Some(0x0a)];
    let managed = select_by_slot(&buses, true);
    assert_eq!(managed, vec![0, 1]);

    let mut bridge = Bridge::new(buses.len(), managed.len());
    assert_eq!(bridge.phase, BridgePhase::Init);
    let opened = BridgeEvent::TransportOpened { header: header(3), stored: None };
    assert!(bridge.can_handle(&opened));
    let action = bridge.step(opened);
    assert_eq!(
        action,
        BridgeAction::WriteHeader { header: TableHeader { buffers_in_use: 5, ..header(3) } }
    );
    assert_eq!(bridge.phase, BridgePhase::HeaderNegotiated);
    assert_eq!(bridge.state, AppState { count: 0, original_buffers_in_use: 3 });

    assert_eq!(bridge.step(BridgeEvent::HeaderWritten), BridgeAction::ZeroSlots);
    assert_eq!(bridge.phase, BridgePhase::Zeroing);
    assert_eq!(
        zeroing_slots(bridge.max_option_cards, &bridge.state, bridge.device_count),
        vec![5, 6, 7]
    );

    assert_eq!(bridge.step(BridgeEvent::SlotsZeroed), BridgeAction::Sweep { count: 0 });
    assert_eq!(bridge.phase, BridgePhase::Polling);
    let slots = polling_slots(bridge.device_count, &bridge.state);
    assert_eq!(slots, vec![3, 4]);

    let first = read_device_info(
        Readings { bus: 0x04, temperature: 40, slowdown_threshold: Some(95), name: "A".into() },
        0,
    );
    let second = read_device_info(
        Readings { bus: 0x0a, temperature: 50, slowdown_threshold: None, name: "B".into() },
        0,
    );
    assert_eq!(encode_device(&first).unwrap().header.pci_bus, 0x04);
    assert_eq!(encode_device(&second).unwrap().header.pci_bus, 0x0a);

    for completed in 1u16..=4 {
        assert_eq!(bridge.step(BridgeEvent::SweepDone), BridgeAction::Sweep { count: completed });
    }
    assert_eq!(
        bridge.step(BridgeEvent::StopRequested),
        BridgeAction::Persist { state: AppState { count: 4, original_buffers_in_use: 3 } }
    );
    assert_eq!(bridge.phase, BridgePhase::Stopping);
    assert_eq!(bridge.step(BridgeEvent::SweepDone), BridgeAction::Halt);
    assert_eq!(bridge.phase, BridgePhase::Terminated);
}

#[test]
fn zero_devices_never_start() {
    let mut bridge = Bridge::new(0, 0);
    assert_eq!(bridge.phase, BridgePhase::Terminated);
    let start = bridge;
    let opened = BridgeEvent::TransportOpened { header: header(3), stored: None };
    assert_eq!(bridge.step(opened), BridgeAction::Nothing);
    for event in ALL_EVENTS {
        assert_eq!(bridge.step(event), BridgeAction::Nothing);
        assert_eq!(bridge, start);
    }
}

#[test]
fn devices_without_slots_still_open_the_table() {
    let buses = vec![Some(0x81), None];
    let managed = select_by_slot(&buses, true);
    let mut bridge = Bridge::new(buses.len(), managed.len());
    assert_eq!(bridge.phase, BridgePhase::Init);
    let action = bridge.step(BridgeEvent::TransportOpened { header: header(2), stored: None });
    assert_eq!(action, BridgeAction::WriteHeader { header: header(2) });
    assert_eq!(polling_slots(bridge.device_count, &bridge.state), Vec::<usize>::new());
}

#[test]
fn corrupt_state_falls_back_and_goes_on() {
    // An unreadable state file reaches the library as `None`.
    assert_eq!(
        load_app_state(&header(6), None),
        AppState { count: 0, original_buffers_in_use: 6 }
    );
    let mut bridge = Bridge::new(1, 1);
    let action = bridge.step(BridgeEvent::TransportOpened { header: header(6), stored: None });
    assert_eq!(action, BridgeAction::WriteHeader { header: header(7) });
    assert_eq!(bridge.phase, BridgePhase::HeaderNegotiated);
    assert_eq!(bridge.count, 0);
}

#[test]
fn stored_state_anchors_the_session() {
    let stored = AppState { count: 100, original_buffers_in_use: 3 };
    let mut bridge = Bridge::new(2, 2);
    // The header still counts the previous session's devices.
    let action =
        bridge.step(BridgeEvent::TransportOpened { header: header(5), stored: Some(stored) });
    assert_eq!(action, BridgeAction::WriteHeader { header: header(5) });
    bridge.step(BridgeEvent::HeaderWritten);
    assert_eq!(bridge.step(BridgeEvent::SlotsZeroed), BridgeAction::Sweep { count: 100 });
    assert_eq!(bridge.step(BridgeEvent::SweepDone), BridgeAction::Sweep { count: 101 });
    assert_eq!(polling_slots(bridge.device_count, &bridge.state), vec![3, 4]);
}

#[test]
fn transport_failure_halts_cleanly() {
    let mut bridge = Bridge::new(2, 2);
    assert_eq!(bridge.step(BridgeEvent::TransportUnavailable), BridgeAction::Halt);
    assert_eq!(bridge.phase, BridgePhase::Terminated);
    assert_eq!(bridge.step(BridgeEvent::SweepDone), BridgeAction::Nothing);
}

#[test]
fn telemetry_failure_while_polling_is_fatal() {
    let mut bridge = polling_bridge(2, 3);
    assert_eq!(bridge.step(BridgeEvent::TelemetryFailed), BridgeAction::Fail);
    assert_eq!(bridge.phase, BridgePhase::Terminated);
}

#[test]
fn counter_wraps_at_sixteen_bits() {
    let mut bridge = Bridge::new(1, 1);
    let stored = AppState { count: u16::MAX, original_buffers_in_use: 1 };
    bridge.step(BridgeEvent::TransportOpened { header: header(1), stored: Some(stored) });
    bridge.step(BridgeEvent::HeaderWritten);
    assert_eq!(bridge.step(BridgeEvent::SlotsZeroed), BridgeAction::Sweep { count: u16::MAX });
    assert_eq!(bridge.step(BridgeEvent::SweepDone), BridgeAction::Sweep { count: 0 });
}

#[test]
fn stop_during_zeroing_skips_polling() {
    let mut bridge = Bridge::new(1, 1);
    bridge.step(BridgeEvent::TransportOpened { header: header(2), stored: None });
    bridge.step(BridgeEvent::HeaderWritten);
    assert_eq!(
        bridge.step(BridgeEvent::StopRequested),
        BridgeAction::Persist { state: AppState { count: 0, original_buffers_in_use: 2 } }
    );
    assert_eq!(bridge.step(BridgeEvent::SlotsZeroed), BridgeAction::Halt);
    assert_eq!(bridge.phase, BridgePhase::Terminated);
}

#[test]
fn offset_never_changes_during_a_session() {
    let mut bridge = polling_bridge(2, 3);
    for event in ALL_EVENTS {
        let mut copy = bridge;
        copy.step(event);
        assert_eq!(copy.state.original_buffers_in_use, 3);
        assert_eq!(copy.device_count, 2);
    }
    for _ in 0..10 {
        bridge.step(BridgeEvent::SweepDone);
        assert_eq!(bridge.state.original_buffers_in_use, 3);
    }
}

#[test]
fn no_table_writes_once_stopping() {
    let mut bridge = polling_bridge(2, 3);
    bridge.step(BridgeEvent::StopRequested);
    for event in ALL_EVENTS {
        let mut copy = bridge;
        let action = copy.step(event);
        assert!(!matches!(
            action,
            BridgeAction::WriteHeader { .. } | BridgeAction::ZeroSlots | BridgeAction::Sweep { .. }
        ));
    }
}

#[test]
fn out_of_place_events_change_nothing() {
    let mut bridge = Bridge::new(2, 2);
    let start = bridge;
    assert_eq!(bridge.step(BridgeEvent::SweepDone), BridgeAction::Nothing);
    assert_eq!(bridge.step(BridgeEvent::StopRequested), BridgeAction::Nothing);
    assert_eq!(bridge, start);
}

#[test]
fn header_without_room_is_not_accepted() {
    let bridge = Bridge::new(3, 3);
    let opened = BridgeEvent::TransportOpened { header: header(253), stored: None };
    assert!(!bridge.can_handle(&opened));
    let fits = BridgeEvent::TransportOpened { header: header(252), stored: None };
    assert!(bridge.can_handle(&fits));
    assert!(bridge.can_handle(&BridgeEvent::SweepDone));
}
