//! Slot assignment: which enclosure slot a bus belongs to, and which table
//! slots a session writes and clears.

use vstd::prelude::*;
use crate::state::AppState;

verus! {

/// The enclosure slot wired to a PCI bus, where the bus is a known one.
pub open spec fn bus_slot(bus: u32) -> Option<u8> {
    if bus == 0x04 {
        Some(1u8)
    } else if bus == 0x0a {
        Some(2u8)
    } else {
        None
    }
}

/// Looks up the enclosure slot of a PCI bus.
pub fn slot_for_bus(bus: u32) -> (slot: Option<u8>)
    ensures
        slot == bus_slot(bus),
        bus == 0x04 ==> slot == Some(1u8),
        bus == 0x0a ==> slot == Some(2u8),
        bus != 0x04 && bus != 0x0a ==> slot.is_none(),
{
    if bus == 0x04 {
        Some(1u8)
    } else if bus == 0x0a {
        Some(2u8)
    } else {
        None
    }
}

/// Whether a device whose bus lookup gave `bus` is managed (`known`) or
/// only reported (`!known`). A device whose bus could not be read is neither.
pub open spec fn slot_known_is(bus: Option<u32>, known: bool) -> bool {
    match bus {
        Some(b) => bus_slot(b).is_some() == known,
        None => false,
    }
}

/// The positions, in discovery order, of the devices whose slot is known
/// (`known`) or unknown (`!known`). `buses` holds, per discovered device,
/// the bus it reported, or `None` where the lookup failed.
pub fn select_by_slot(buses: &Vec<Option<u32>>, known: bool) -> (picked: Vec<usize>)
    ensures
        forall|j: int| 0 <= j < picked@.len() ==> 0 <= #[trigger] picked@[j] < buses@.len(),
        forall|j: int|
            0 <= j < picked@.len() ==> slot_known_is(buses@[#[trigger] picked@[j] as int], known),
        forall|j: int, k: int| 0 <= j < k < picked@.len() ==> picked@[j] < picked@[k],
        forall|i: int|
            0 <= i < buses@.len() && slot_known_is(#[trigger] buses@[i], known)
                ==> picked@.contains(i as usize),
{
    let mut picked: Vec<usize> = Vec::new();
    let mut i: usize = 0;
    while i < buses.len()
        invariant
            i <= buses@.len(),
            forall|j: int| 0 <= j < picked@.len() ==> 0 <= #[trigger] picked@[j] < i,
            forall|j: int|
                0 <= j < picked@.len() ==> slot_known_is(
                    buses@[#[trigger] picked@[j] as int],
                    known,
                ),
            forall|j: int, k: int| 0 <= j < k < picked@.len() ==> picked@[j] < picked@[k],
            forall|n: int|
                0 <= n < i && slot_known_is(#[trigger] buses@[n], known) ==> picked@.contains(
                    n as usize,
                ),
        decreases buses@.len() - i,
    {
        let wanted: bool = match buses[i] {
            Some(bus) => slot_for_bus(bus).is_some() == known,
            None => false,
        };
        if wanted {
            let ghost before = picked@;
            picked.push(i);
            proof {
                assert(picked@[before.len() as int] == i);
                assert forall|n: int|
                    0 <= n < i + 1 && slot_known_is(#[trigger] buses@[n], known) implies picked@.contains(
                    n as usize,
                ) by {
                    if n < i {
                        assert(before.contains(n as usize));
                        let w = choose|w: int| 0 <= w < before.len() && before[w] == n as usize;
                        assert(picked@[w] == n as usize);
                    }
                }
            }
        }
        i = i + 1;
    }
    picked
}

/// The table slot of the device at `index` of the managed list.
pub open spec fn slot_for(index: int, original_buffers_in_use: int) -> int {
    index + original_buffers_in_use
}

/// Gets the (0-based) table slot for a position in the managed device list.
pub fn ocsd_slot_for_index(index: usize, app_state: &AppState) -> (slot: usize)
    requires
        index + app_state.original_buffers_in_use <= usize::MAX,
    ensures
        slot == slot_for(index as int, app_state.original_buffers_in_use as int),
{
    index + (app_state.original_buffers_in_use as usize)
}

/// The slots a session with `device_count` managed devices writes, in
/// device order.
pub open spec fn session_slots(device_count: nat, original_buffers_in_use: nat) -> Seq<int> {
    Seq::new(device_count, |i: int| slot_for(i, original_buffers_in_use as int))
}

/// How many slots the clearing pass writes: those of the table from the
/// session's offset on that no managed device holds.
pub open spec fn stale_count(
    max_option_cards: nat,
    original_buffers_in_use: nat,
    device_count: nat,
) -> nat {
    if max_option_cards >= original_buffers_in_use + device_count {
        (max_option_cards - original_buffers_in_use - device_count) as nat
    } else {
        0
    }
}

/// The slots the clearing pass writes, in order.
pub open spec fn stale_slots(
    max_option_cards: nat,
    original_buffers_in_use: nat,
    device_count: nat,
) -> Seq<int> {
    Seq::new(
        stale_count(max_option_cards, original_buffers_in_use, device_count),
        |i: int| slot_for(device_count + i, original_buffers_in_use as int),
    )
}

/// The table slots to write in one polling sweep, one per managed device.
pub fn polling_slots(device_count: usize, app_state: &AppState) -> (slots: Vec<usize>)
    requires
        device_count + app_state.original_buffers_in_use <= usize::MAX,
    ensures
        slots@.len() == device_count,
        forall|j: int|
            0 <= j < device_count ==> #[trigger] slots@[j] == session_slots(
                device_count as nat,
                app_state.original_buffers_in_use as nat,
            )[j],
{
    let mut slots: Vec<usize> = Vec::new();
    let mut i: usize = 0;
    while i < device_count
        invariant
            i <= device_count,
            device_count + app_state.original_buffers_in_use <= usize::MAX,
            slots@.len() == i,
            forall|j: int|
                0 <= j < i ==> #[trigger] slots@[j] == slot_for(
                    j,
                    app_state.original_buffers_in_use as int,
                ),
        decreases device_count - i,
    {
        slots.push(ocsd_slot_for_index(i, app_state));
        i = i + 1;
    }
    slots
}

/// The table slots to clear before polling starts: every slot from the
/// session's offset up to the table's capacity that no managed device holds.
pub fn zeroing_slots(
    max_option_cards: u8,
    app_state: &AppState,
    device_count: usize,
) -> (slots: Vec<usize>)
    ensures
        slots@.len() == stale_count(
            max_option_cards as nat,
            app_state.original_buffers_in_use as nat,
            device_count as nat,
        ),
        forall|j: int|
            0 <= j < slots@.len() ==> #[trigger] slots@[j] == stale_slots(
                max_option_cards as nat,
                app_state.original_buffers_in_use as nat,
                device_count as nat,
            )[j],
{
    let mut slots: Vec<usize> = Vec::new();
    let limit: usize = max_option_cards as usize;
    let base: usize = app_state.original_buffers_in_use as usize;
    if base > limit || device_count > limit - base {
        return slots;
    }
    let first: usize = base + device_count;
    let mut slot: usize = first;
    while slot < limit
        invariant
            first <= slot <= limit,
            first == base + device_count,
            slots@.len() == slot - first,
            forall|j: int| 0 <= j < slots@.len() ==> #[trigger] slots@[j] == first + j,
        decreases limit - slot,
    {
        slots.push(slot);
        slot = slot + 1;
    }
    slots
}

/// The slots of a session are exactly those from the offset up to the offset
/// plus the device count, each written for one device only, and none lies
/// below the offset.
pub proof fn session_slots_are_exact(device_count: nat, original_buffers_in_use: nat)
    ensures
        session_slots(device_count, original_buffers_in_use).len() == device_count,
        forall|s: int|
            session_slots(device_count, original_buffers_in_use).contains(s) <==> (
            original_buffers_in_use <= s < original_buffers_in_use + device_count),
        session_slots(device_count, original_buffers_in_use).no_duplicates(),
{
    let slots = session_slots(device_count, original_buffers_in_use);
    assert forall|s: int|
        slots.contains(s) <==> (original_buffers_in_use <= s < original_buffers_in_use
            + device_count) by {
        if original_buffers_in_use <= s < original_buffers_in_use + device_count {
            assert(slots[s - original_buffers_in_use] == s);
        }
    }
}

/// The clearing pass never writes a slot below the session's offset nor one
/// that a managed device holds, stays inside the table, writes no slot
/// twice, and together with the managed devices' slots covers the table from
/// the offset on.
pub proof fn stale_slots_spare_live_ones(
    max_option_cards: nat,
    original_buffers_in_use: nat,
    device_count: nat,
)
    ensures
        forall|s: int|
            stale_slots(max_option_cards, original_buffers_in_use, device_count).contains(s) <==> (
            original_buffers_in_use + device_count <= s < max_option_cards),
        forall|s: int|
            stale_slots(max_option_cards, original_buffers_in_use, device_count).contains(s)
                ==> !session_slots(device_count, original_buffers_in_use).contains(s),
        stale_slots(max_option_cards, original_buffers_in_use, device_count).no_duplicates(),
        max_option_cards >= original_buffers_in_use + device_count ==> stale_slots(
            max_option_cards,
            original_buffers_in_use,
            device_count,
        ).len() + device_count == max_option_cards - original_buffers_in_use,
{
    let stale = stale_slots(max_option_cards, original_buffers_in_use, device_count);
    assert forall|s: int|
        stale.contains(s) <==> (original_buffers_in_use + device_count <= s
            < max_option_cards) by {
        if original_buffers_in_use + device_count <= s < max_option_cards {
            assert(stale[s - original_buffers_in_use - device_count] == s);
        }
    }
    session_slots_are_exact(device_count, original_buffers_in_use);
}

/// Where no managed device holds a slot inside the table, the clearing pass
/// writes as many slots as the table's capacity exceeds the offset by.
pub proof fn stale_count_without_live_slots(
    max_option_cards: nat,
    original_buffers_in_use: nat,
    device_count: nat,
)
    requires
        max_option_cards >= original_buffers_in_use,
        device_count == 0 || max_option_cards == original_buffers_in_use,
    ensures
        stale_slots(max_option_cards, original_buffers_in_use, device_count).len()
            == max_option_cards - original_buffers_in_use,
{
}

} // verus!
