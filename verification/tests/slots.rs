use nvml_ocsd_reporter::slot::{
    ocsd_slot_for_index, polling_slots, select_by_slot, slot_for_bus, zeroing_slots,
};
use nvml_ocsd_reporter::state::AppState;

fn state(original_buffers_in_use: u8) -> AppState {
    AppState { count: 0, original_buffers_in_use }
}

#[test]
fn known_buses_map_to_their_slots() {
    assert_eq!(slot_for_bus(0x04), Some(1));
    assert_eq!(slot_for_bus(0x0a), Some(2));
}

#[test]
fn every_other_bus_is_unknown() {
    for bus in 0u32..=0x1ff {
        if bus != 0x04 && bus != 0x0a {
            assert_eq!(slot_for_bus(bus), None);
        }
    }
    assert_eq!(slot_for_bus(u32::MAX), None);
}

#[test]
fn slot_is_index_plus_offset() {
    assert_eq!(ocsd_slot_for_index(0, &state(3)), 3);
    assert_eq!(ocsd_slot_for_index(1, &state(3)), 4);
    assert_eq!(ocsd_slot_for_index(7, &state(0)), 7);
    assert_eq!(ocsd_slot_for_index(0, &state(255)), 255);
}

#[test]
fn polling_slots_start_at_the_offset() {
    assert_eq!(polling_slots(2, &state(3)), vec![3, 4]);
    assert_eq!(polling_slots(0, &state(3)), Vec::<usize>::new());
    assert_eq!(polling_slots(4, &state(0)), vec![0, 1, 2, 3]);
}

#[test]
fn polling_slots_are_distinct_and_never_below_the_offset() {
    for offset in [0u8, 1, 3, 200] {
        for count in 0usize..6 {
            let slots = polling_slots(count, &state(offset));
            assert_eq!(slots.len(), count);
            for (i, slot) in slots.iter().enumerate() {
                assert_eq!(*slot, offset as usize + i);
                assert!(*slot >= offset as usize);
            }
        }
    }
}

#[test]
fn zeroing_covers_the_table_above_the_live_slots() {
    assert_eq!(zeroing_slots(8, &state(3), 2), vec![5, 6, 7]);
    assert_eq!(zeroing_slots(8, &state(3), 0), vec![3, 4, 5, 6, 7]);
    assert_eq!(zeroing_slots(5, &state(3), 2), Vec::<usize>::new());
}

#[test]
fn zeroing_with_no_devices_writes_capacity_less_offset() {
    for max in 0u8..12 {
        for offset in 0u8..=max {
            let slots = zeroing_slots(max, &state(offset), 0);
            assert_eq!(slots.len(), (max - offset) as usize);
        }
    }
}

#[test]
fn zeroing_never_touches_a_live_slot() {
    for count in 0usize..10 {
        let live = polling_slots(count, &state(2));
        let stale = zeroing_slots(8, &state(2), count);
        for slot in &stale {
            assert!(!live.contains(slot));
            assert!(*slot >= 2 && *slot < 8);
        }
        if count <= 6 {
            assert_eq!(stale.len() + count, 6);
        } else {
            assert!(stale.is_empty());
        }
    }
}

#[test]
fn zeroing_is_empty_when_offset_exceeds_capacity() {
    assert_eq!(zeroing_slots(4, &state(9), 0), Vec::<usize>::new());
    assert_eq!(zeroing_slots(4, &state(4), 0), Vec::<usize>::new());
    assert_eq!(zeroing_slots(4, &state(2), usize::MAX), Vec::<usize>::new());
}

#[test]
fn selection_keeps_discovery_order() {
    let buses = vec![Some(0x0a), Some(0x03), None, Some(0x04), Some(0x0a), Some(0x81)];
    assert_eq!(select_by_slot(&buses, true), vec![0, 3, 4]);
    assert_eq!(select_by_slot(&buses, false), vec![1, 5]);
}

#[test]
fn selection_of_nothing_is_empty() {
    assert_eq!(select_by_slot(&Vec::new(), true), Vec::<usize>::new());
    assert_eq!(select_by_slot(&vec![None, None], true), Vec::<usize>::new());
    assert_eq!(select_by_slot(&vec![None, None], false), Vec::<usize>::new());
}
