use nvml_ocsd_reporter::state::{
    header_has_room, load_app_state, make_modified_header, stop_snapshot, AppState, TableHeader,
    TableVersion,
};

fn header(buffers_in_use: u8) -> TableHeader {
    TableHeader {
        version: TableVersion::Version2,
        buffer_size: 0x400,
        max_option_cards: 8,
        one_option_card_size: 0xc0,
        buffer_start_address: 0x791f_6040,
        update_interval: 5,
        buffers_in_use,
    }
}

#[test]
fn missing_state_falls_back_to_the_header() {
    let state = load_app_state(&header(3), None);
    assert_eq!(state, AppState { count: 0, original_buffers_in_use: 3 });
}

#[test]
fn stored_state_wins_over_the_header() {
    let stored = AppState { count: 41, original_buffers_in_use: 2 };
    assert_eq!(load_app_state(&header(5), Some(stored)), stored);
}

#[test]
fn stop_snapshot_keeps_the_offset() {
    let state = AppState { count: 0, original_buffers_in_use: 3 };
    assert_eq!(stop_snapshot(&state, 17), AppState { count: 17, original_buffers_in_use: 3 });
}

#[test]
fn restart_restores_what_the_stop_saved() {
    let first = load_app_state(&header(3), None);
    let saved = stop_snapshot(&first, 12);
    // The header now counts the devices of the first session too.
    let second = load_app_state(&header(5), Some(saved));
    assert_eq!(second.original_buffers_in_use, 3);
    assert_eq!(second.count, 12);
    let again = load_app_state(&header(5), Some(second));
    assert_eq!(again, second);
}

#[test]
fn modified_header_adds_the_devices() {
    let original = header(3);
    let state = AppState { count: 9, original_buffers_in_use: 3 };
    let written = make_modified_header(&original, &state, 2);
    assert_eq!(written.buffers_in_use, 5);
    assert_eq!(written, TableHeader { buffers_in_use: 5, ..original });
}

#[test]
fn modified_header_counts_from_the_stored_offset() {
    let original = header(5);
    let state = AppState { count: 9, original_buffers_in_use: 3 };
    assert_eq!(make_modified_header(&original, &state, 1).buffers_in_use, 4);
    assert_eq!(make_modified_header(&original, &state, 0).buffers_in_use, 3);
    assert_eq!(make_modified_header(&original, &state, 252).buffers_in_use, 255);
}

#[test]
fn header_room_ends_at_one_byte() {
    let state = AppState { count: 0, original_buffers_in_use: 250 };
    assert!(header_has_room(&state, 5));
    assert!(!header_has_room(&state, 6));
    assert!(!header_has_room(&state, usize::MAX));
    assert!(header_has_room(&AppState { count: 0, original_buffers_in_use: 0 }, 255));
}
