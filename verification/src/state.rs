//! The table-wide header and the small record that survives a restart.

use vstd::prelude::*;

verus! {

/// Protocol version announced by the table header.
#[derive(Clone, Copy, Debug, PartialEq, Eq, Structural)]
pub enum TableVersion {
    Unknown,
    Version2,
}

/// The shared table's global state, as plain values.
#[derive(Clone, Copy, Debug, PartialEq, Eq, Structural)]
pub struct TableHeader {
    pub version: TableVersion,
    pub buffer_size: u16,
    pub max_option_cards: u8,
    pub one_option_card_size: u8,
    pub buffer_start_address: u32,
    pub update_interval: u8,
    pub buffers_in_use: u8,
}

/// What is kept across restarts: the last update counter and the number of
/// slots that were in use before this bridge first claimed any.
#[derive(Clone, Copy, Debug, PartialEq, Eq, Structural)]
pub struct AppState {
    pub count: u16,
    pub original_buffers_in_use: u8,
}

/// The state a session starts from: the stored record where one could be
/// read, else a fresh one anchored at the header's slot count.
pub open spec fn initial_state(header: TableHeader, stored: Option<AppState>) -> AppState {
    match stored {
        Some(state) => state,
        None => AppState { count: 0, original_buffers_in_use: header.buffers_in_use },
    }
}

/// The record written when a stop is requested: the current counter beside
/// the unchanged slot offset.
pub open spec fn stopped_state(state: AppState, count: u16) -> AppState {
    AppState { count, original_buffers_in_use: state.original_buffers_in_use }
}

/// Chooses the session's starting state. `stored` is the record read back
/// from the state file, or `None` where it was missing or unreadable; the
/// fallback is never an error.
pub fn load_app_state(header: &TableHeader, stored: Option<AppState>) -> (state: AppState)
    ensures
        state == initial_state(*header, stored),
{
    match stored {
        Some(state) => state,
        None => AppState { count: 0, original_buffers_in_use: header.buffers_in_use },
    }
}

/// The record to persist on a stop request.
pub fn stop_snapshot(state: &AppState, count: u16) -> (saved: AppState)
    ensures
        saved == stopped_state(*state, count),
{
    AppState { count, original_buffers_in_use: state.original_buffers_in_use }
}

/// Whether the header can announce `device_count` more slots than the
/// session's offset without leaving the range of its one-byte field.
pub open spec fn header_fits(state: AppState, device_count: nat) -> bool {
    state.original_buffers_in_use + device_count <= u8::MAX
}

/// Executable form of [`header_fits`].
pub fn header_has_room(state: &AppState, device_count: usize) -> (fits: bool)
    ensures
        fits == header_fits(*state, device_count as nat),
{
    let free: usize = (u8::MAX - state.original_buffers_in_use) as usize;
    device_count <= free
}

/// The header to write back: the original with the slot count raised to the
/// session's offset plus the number of managed devices.
pub fn make_modified_header(
    original_header: &TableHeader,
    app_state: &AppState,
    device_count: usize,
) -> (header: TableHeader)
    requires
        header_fits(*app_state, device_count as nat),
    ensures
        header.buffers_in_use == app_state.original_buffers_in_use + device_count,
        header == (TableHeader { buffers_in_use: header.buffers_in_use, ..*original_header }),
{
    TableHeader {
        version: original_header.version,
        buffer_size: original_header.buffer_size,
        max_option_cards: original_header.max_option_cards,
        one_option_card_size: original_header.one_option_card_size,
        buffer_start_address: original_header.buffer_start_address,
        update_interval: original_header.update_interval,
        buffers_in_use: app_state.original_buffers_in_use + (device_count as u8),
    }
}

/// Restoring what a stop saved gives back the same slot offset and the
/// counter as it stood at the stop, whatever the header says by then.
pub proof fn restore_after_stop(state: AppState, count: u16, later_header: TableHeader)
    ensures
        initial_state(later_header, Some(stopped_state(state, count))).original_buffers_in_use
            == state.original_buffers_in_use,
        initial_state(later_header, Some(stopped_state(state, count))).count == count,
{
}

/// Loading is idempotent: a state that was loaded, saved untouched and
/// loaded again is the same state.
pub proof fn reload_is_idempotent(
    header: TableHeader,
    stored: Option<AppState>,
    later_header: TableHeader,
)
    ensures
        initial_state(later_header, Some(initial_state(header, stored))) == initial_state(
            header,
            stored,
        ),
{
}

} // verus!
