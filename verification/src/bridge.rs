//! The bridge's life cycle as a state machine: each step takes what just
//! happened and says what to do next. The caller performs the action and
//! reports back.

use vstd::prelude::*;
use crate::state::{
    initial_state, header_fits, load_app_state, make_modified_header, stop_snapshot,
    stopped_state, AppState, TableHeader,
};

verus! {

/// Where the bridge stands in its life cycle.
#[derive(Clone, Copy, Debug, PartialEq, Eq, Structural)]
pub enum BridgePhase {
    /// Waiting for the table transport to open.
    Init,
    /// The header was read and the new one is being written.
    HeaderNegotiated,
    /// Stale slots are being cleared.
    Zeroing,
    /// A sweep over the managed devices is in flight.
    Polling,
    /// A stop was requested; the sweep in flight is allowed to finish.
    Stopping,
    /// Nothing more is written.
    Terminated,
}

/// What the caller reports to the bridge.
#[derive(Clone, Copy, Debug, PartialEq, Eq, Structural)]
pub enum BridgeEvent {
    /// The transport opened. Carries the header read from the table and the
    /// state read back from the state file, if any could be read.
    TransportOpened { header: TableHeader, stored: Option<AppState> },
    /// The transport could not be opened.
    TransportUnavailable,
    /// The header handed out was written.
    HeaderWritten,
    /// The stale slots were cleared.
    SlotsZeroed,
    /// Every managed device was read and written, and the cadence has
    /// elapsed.
    SweepDone,
    /// Reading a device failed during a sweep.
    TelemetryFailed,
    /// An external stop request arrived.
    StopRequested,
}

/// What the bridge asks the caller to do.
#[derive(Clone, Copy, Debug, PartialEq, Eq, Structural)]
pub enum BridgeAction {
    /// Write this header to the table.
    WriteHeader { header: TableHeader },
    /// Clear the stale slots.
    ZeroSlots,
    /// Read every managed device, stamp it with `count` and write its slot.
    Sweep { count: u16 },
    /// Save this state; it must be on disk before the process exits.
    Persist { state: AppState },
    /// Stop cleanly.
    Halt,
    /// Stop and report the failure.
    Fail,
    /// Nothing to do.
    Nothing,
}

/// The bridge: its phase, the devices it manages, the session's anchor and
/// the running update counter.
#[derive(Clone, Copy, Debug, PartialEq, Eq, Structural)]
pub struct Bridge {
    pub phase: BridgePhase,
    /// Number of managed devices, fixed at start.
    pub device_count: usize,
    /// The state the session started from; its slot offset anchors every
    /// slot computation of the session.
    pub state: AppState,
    /// The update counter stamped on the next sweep.
    pub count: u16,
    /// The table's capacity in slots.
    pub max_option_cards: u8,
}

impl BridgeAction {
    /// Whether the action writes to the shared table.
    pub open spec fn writes_table(self) -> bool {
        self is WriteHeader || self is ZeroSlots || self is Sweep
    }
}

/// The counter after one more sweep; it wraps at sixteen bits.
pub open spec fn next_count(count: u16) -> u16 {
    if count == u16::MAX {
        0
    } else {
        (count + 1) as u16
    }
}

impl Bridge {
    /// The bridge before anything was opened. With no device detected it
    /// is terminated from the start.
    pub open spec fn initial(detected: usize, managed: usize) -> Bridge {
        Bridge {
            phase: if detected == 0 {
                BridgePhase::Terminated
            } else {
                BridgePhase::Init
            },
            device_count: managed,
            state: AppState { count: 0, original_buffers_in_use: 0 },
            count: 0,
            max_option_cards: 0,
        }
    }

    /// Whether `event` can be handled: the header of an opened transport
    /// must have room for the managed devices above the session's offset.
    pub open spec fn accepts(self, event: BridgeEvent) -> bool {
        match (self.phase, event) {
            (BridgePhase::Init, BridgeEvent::TransportOpened { header, stored }) => header_fits(
                initial_state(header, stored),
                self.device_count as nat,
            ),
            _ => true,
        }
    }

    /// The bridge after `event`.
    pub open spec fn after(self, event: BridgeEvent) -> Bridge {
        match (self.phase, event) {
            (BridgePhase::Init, BridgeEvent::TransportOpened { header, stored }) => Bridge {
                phase: BridgePhase::HeaderNegotiated,
                state: initial_state(header, stored),
                count: initial_state(header, stored).count,
                max_option_cards: header.max_option_cards,
                ..self
            },
            (BridgePhase::Init, BridgeEvent::TransportUnavailable) => Bridge {
                phase: BridgePhase::Terminated,
                ..self
            },
            (BridgePhase::HeaderNegotiated, BridgeEvent::HeaderWritten) => Bridge {
                phase: BridgePhase::Zeroing,
                ..self
            },
            (BridgePhase::Zeroing, BridgeEvent::SlotsZeroed) => Bridge {
                phase: BridgePhase::Polling,
                ..self
            },
            (BridgePhase::Polling, BridgeEvent::SweepDone) => Bridge {
                count: next_count(self.count),
                ..self
            },
            (BridgePhase::Polling, BridgeEvent::TelemetryFailed) => Bridge {
                phase: BridgePhase::Terminated,
                ..self
            },
            (BridgePhase::Zeroing, BridgeEvent::StopRequested) => Bridge {
                phase: BridgePhase::Stopping,
                ..self
            },
            (BridgePhase::Polling, BridgeEvent::StopRequested) => Bridge {
                phase: BridgePhase::Stopping,
                ..self
            },
            (BridgePhase::Stopping, BridgeEvent::SlotsZeroed) => Bridge {
                phase: BridgePhase::Terminated,
                ..self
            },
            (BridgePhase::Stopping, BridgeEvent::SweepDone) => Bridge {
                phase: BridgePhase::Terminated,
                ..self
            },
            (BridgePhase::Stopping, BridgeEvent::TelemetryFailed) => Bridge {
                phase: BridgePhase::Terminated,
                ..self
            },
            _ => self,
        }
    }

    /// What the bridge asks for in answer to `event`.
    pub open spec fn action_on(self, event: BridgeEvent) -> BridgeAction {
        match (self.phase, event) {
            (BridgePhase::Init, BridgeEvent::TransportOpened { header, stored }) => {
                BridgeAction::WriteHeader {
                    header: TableHeader {
                        buffers_in_use: (initial_state(header, stored).original_buffers_in_use
                            + self.device_count) as u8,
                        ..header
                    },
                }
            },
            (BridgePhase::Init, BridgeEvent::TransportUnavailable) => BridgeAction::Halt,
            (BridgePhase::HeaderNegotiated, BridgeEvent::HeaderWritten) => BridgeAction::ZeroSlots,
            (BridgePhase::Zeroing, BridgeEvent::SlotsZeroed) => BridgeAction::Sweep {
                count: self.count,
            },
            (BridgePhase::Polling, BridgeEvent::SweepDone) => BridgeAction::Sweep {
                count: next_count(self.count),
            },
            (BridgePhase::Polling, BridgeEvent::TelemetryFailed) => BridgeAction::Fail,
            (BridgePhase::Zeroing, BridgeEvent::StopRequested) => BridgeAction::Persist {
                state: stopped_state(self.state, self.count),
            },
            (BridgePhase::Polling, BridgeEvent::StopRequested) => BridgeAction::Persist {
                state: stopped_state(self.state, self.count),
            },
            (BridgePhase::Stopping, BridgeEvent::SlotsZeroed) => BridgeAction::Halt,
            (BridgePhase::Stopping, BridgeEvent::SweepDone) => BridgeAction::Halt,
            (BridgePhase::Stopping, BridgeEvent::TelemetryFailed) => BridgeAction::Fail,
            _ => BridgeAction::Nothing,
        }
    }

    /// Creates the bridge for `detected` devices, `managed` of which have a
    /// known slot.
    pub fn new(detected: usize, managed: usize) -> (bridge: Bridge)
        ensures
            bridge == Bridge::initial(detected, managed),
    {
        Bridge {
            phase: if detected == 0 {
                BridgePhase::Terminated
            } else {
                BridgePhase::Init
            },
            device_count: managed,
            state: AppState { count: 0, original_buffers_in_use: 0 },
            count: 0,
            max_option_cards: 0,
        }
    }

    /// Executable form of [`Bridge::accepts`].
    pub fn can_handle(&self, event: &BridgeEvent) -> (ok: bool)
        ensures
            ok == self.accepts(*event),
    {
        match (self.phase, *event) {
            (BridgePhase::Init, BridgeEvent::TransportOpened { header, stored }) => {
                let state: AppState = load_app_state(&header, stored);
                crate::state::header_has_room(&state, self.device_count)
            },
            _ => true,
        }
    }

    /// Takes one step: moves the bridge on by `event` and returns what the
    /// caller is to do next.
    pub fn step(&mut self, event: BridgeEvent) -> (action: BridgeAction)
        requires
            old(self).accepts(event),
        ensures
            *final(self) == old(self).after(event),
            action == old(self).action_on(event),
    {
        match (self.phase, event) {
            (BridgePhase::Init, BridgeEvent::TransportOpened { header, stored }) => {
                let state: AppState = load_app_state(&header, stored);
                let written: TableHeader = make_modified_header(&header, &state, self.device_count);
                self.phase = BridgePhase::HeaderNegotiated;
                self.state = state;
                self.count = state.count;
                self.max_option_cards = header.max_option_cards;
                BridgeAction::WriteHeader { header: written }
            },
            (BridgePhase::Init, BridgeEvent::TransportUnavailable) => {
                self.phase = BridgePhase::Terminated;
                BridgeAction::Halt
            },
            (BridgePhase::HeaderNegotiated, BridgeEvent::HeaderWritten) => {
                self.phase = BridgePhase::Zeroing;
                BridgeAction::ZeroSlots
            },
            (BridgePhase::Zeroing, BridgeEvent::SlotsZeroed) => {
                self.phase = BridgePhase::Polling;
                BridgeAction::Sweep { count: self.count }
            },
            (BridgePhase::Polling, BridgeEvent::SweepDone) => {
                self.count = self.count.wrapping_add(1);
                BridgeAction::Sweep { count: self.count }
            },
            (BridgePhase::Polling, BridgeEvent::TelemetryFailed) => {
                self.phase = BridgePhase::Terminated;
                BridgeAction::Fail
            },
            (BridgePhase::Zeroing, BridgeEvent::StopRequested) => {
                self.phase = BridgePhase::Stopping;
                BridgeAction::Persist { state: stop_snapshot(&self.state, self.count) }
            },
            (BridgePhase::Polling, BridgeEvent::StopRequested) => {
                self.phase = BridgePhase::Stopping;
                BridgeAction::Persist { state: stop_snapshot(&self.state, self.count) }
            },
            (BridgePhase::Stopping, BridgeEvent::SlotsZeroed) => {
                self.phase = BridgePhase::Terminated;
                BridgeAction::Halt
            },
            (BridgePhase::Stopping, BridgeEvent::SweepDone) => {
                self.phase = BridgePhase::Terminated;
                BridgeAction::Halt
            },
            (BridgePhase::Stopping, BridgeEvent::TelemetryFailed) => {
                self.phase = BridgePhase::Terminated;
                BridgeAction::Fail
            },
            _ => BridgeAction::Nothing,
        }
    }
}

/// Once the header was read, nothing changes the slot offset that anchors
/// the session, nor the number of managed devices.
pub proof fn anchor_is_fixed(bridge: Bridge, event: BridgeEvent)
    requires
        bridge.phase != BridgePhase::Init,
    ensures
        bridge.after(event).state.original_buffers_in_use == bridge.state.original_buffers_in_use,
        bridge.after(event).device_count == bridge.device_count,
        bridge.after(event).max_option_cards == bridge.max_option_cards,
{
}

/// A stopping or terminated bridge asks for no further write to the table,
/// and a terminated bridge stays terminated and asks for nothing at all.
pub proof fn no_writes_after_stop(bridge: Bridge, event: BridgeEvent)
    ensures
        bridge.phase == BridgePhase::Stopping || bridge.phase == BridgePhase::Terminated
            ==> !bridge.action_on(event).writes_table(),
        bridge.phase == BridgePhase::Terminated ==> bridge.after(event) == bridge
            && bridge.action_on(event) == BridgeAction::Nothing,
{
}

/// With no device detected the bridge never starts: it is terminated from
/// the first moment and no event makes it write.
pub proof fn no_devices_no_writes(managed: usize, event: BridgeEvent)
    ensures
        Bridge::initial(0, managed).phase == BridgePhase::Terminated,
        Bridge::initial(0, managed).action_on(event) == BridgeAction::Nothing,
        Bridge::initial(0, managed).after(event) == Bridge::initial(0, managed),
{
}

/// A stop request during polling asks to save exactly the counter as it
/// stands and the session's unchanged slot offset.
pub proof fn stop_saves_current_count(bridge: Bridge)
    requires
        bridge.phase == BridgePhase::Polling || bridge.phase == BridgePhase::Zeroing,
    ensures
        bridge.action_on(BridgeEvent::StopRequested) == (BridgeAction::Persist {
            state: AppState {
                count: bridge.count,
                original_buffers_in_use: bridge.state.original_buffers_in_use,
            },
        }),
        bridge.after(BridgeEvent::StopRequested).phase == BridgePhase::Stopping,
{
}

/// The bridge after `sweeps` more completed sweeps.
pub open spec fn after_sweeps(bridge: Bridge, sweeps: nat) -> Bridge
    decreases sweeps,
{
    if sweeps == 0 {
        bridge
    } else {
        after_sweeps(bridge, (sweeps - 1) as nat).after(BridgeEvent::SweepDone)
    }
}

/// A polling bridge counts its completed sweeps: after any number of them
/// it is still polling from the same anchor, its counter has advanced by
/// that number, wrapping at sixteen bits, and a stop request then saves
/// exactly that counter.
pub proof fn counter_follows_sweeps(bridge: Bridge, sweeps: nat)
    requires
        bridge.phase == BridgePhase::Polling,
    ensures
        after_sweeps(bridge, sweeps).phase == BridgePhase::Polling,
        after_sweeps(bridge, sweeps).state == bridge.state,
        after_sweeps(bridge, sweeps).device_count == bridge.device_count,
        after_sweeps(bridge, sweeps).count == (bridge.count + sweeps) % 0x1_0000,
        after_sweeps(bridge, sweeps).action_on(BridgeEvent::StopRequested) == (
        BridgeAction::Persist {
            state: AppState {
                count: ((bridge.count + sweeps) % 0x1_0000) as u16,
                original_buffers_in_use: bridge.state.original_buffers_in_use,
            },
        }),
    decreases sweeps,
{
    if sweeps > 0 {
        counter_follows_sweeps(bridge, (sweeps - 1) as nat);
    }
}

/// The header that an opened transport is answered with announces the
/// session's offset plus the number of managed devices and changes nothing
/// else.
pub proof fn negotiated_header_adds_devices(
    bridge: Bridge,
    header: TableHeader,
    stored: Option<AppState>,
)
    requires
        bridge.phase == BridgePhase::Init,
        bridge.accepts(BridgeEvent::TransportOpened { header, stored }),
    ensures
        bridge.action_on(BridgeEvent::TransportOpened { header, stored }) matches BridgeAction::WriteHeader {
            header: written,
        } && written.buffers_in_use == initial_state(header, stored).original_buffers_in_use
            + bridge.device_count && written == (TableHeader {
            buffers_in_use: written.buffers_in_use,
            ..header
        }),
{
}

} // verus!
