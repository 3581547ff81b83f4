//! One device's readings for one poll cycle.

use vstd::prelude::*;
use crate::slot::{bus_slot, slot_for_bus};

verus! {

/// Threshold reported when the device cannot supply one, in degrees Celsius.
pub const DEFAULT_THRESHOLD_CELSIUS: i16 = 70;

/// How far below the device's slowdown temperature the reported threshold
/// lies, in degrees Celsius.
pub const THRESHOLD_MARGIN_CELSIUS: u32 = 20;

/// What the telemetry source returned for one device, unconverted.
#[derive(Debug, Clone)]
pub struct Readings {
    /// The PCI bus the device sits on.
    pub bus: u32,
    /// Current temperature in degrees Celsius.
    pub temperature: u32,
    /// The slowdown temperature, or `None` where reading it failed.
    pub slowdown_threshold: Option<u32>,
    /// The device's product name.
    pub name: String,
}

/// The outcome of each read of one device, in the order the reads are
/// made. `E` is the telemetry source's error.
pub struct ReadOutcomes<E> {
    pub bus: Result<u32, E>,
    pub temperature: Result<u32, E>,
    pub slowdown_threshold: Result<u32, E>,
    pub name: Result<String, E>,
}

/// A device as the bridge sees it in one poll cycle.
#[derive(Debug, Clone)]
pub struct DeviceInfo {
    pub slot: Option<u8>,
    pub pci_bus: u8,
    pub current_temperature_celsius: i16,
    pub temperature_threshold_celsius: Option<i16>,
    pub name: String,
    pub count: u16,
}

/// Whether the raw values fit the fields of a [`DeviceInfo`]: the bus in one
/// byte, the temperatures in sixteen signed bits, the slowdown temperature
/// not below the margin taken off it.
pub open spec fn readings_fit(bus: u32, temperature: u32, slowdown_threshold: Option<u32>) -> bool {
    &&& bus <= u8::MAX
    &&& temperature <= i16::MAX
    &&& match slowdown_threshold {
        Some(t) => THRESHOLD_MARGIN_CELSIUS <= t && t - THRESHOLD_MARGIN_CELSIUS <= i16::MAX,
        None => true,
    }
}

/// The threshold a device is tracked with: the slowdown temperature less the
/// margin, or the default where none could be read.
pub open spec fn tracked_threshold(slowdown_threshold: Option<u32>) -> int {
    match slowdown_threshold {
        Some(t) => t - THRESHOLD_MARGIN_CELSIUS,
        None => DEFAULT_THRESHOLD_CELSIUS as int,
    }
}

/// What a device's reads amount to: the first failure among bus,
/// temperature and name, or the readings. A failed threshold read is no
/// failure; it leaves the threshold out.
pub open spec fn gathered<E>(outcomes: ReadOutcomes<E>) -> Result<Readings, E> {
    match outcomes.bus {
        Err(e) => Err(e),
        Ok(bus) => match outcomes.temperature {
            Err(e) => Err(e),
            Ok(temperature) => match outcomes.name {
                Err(e) => Err(e),
                Ok(name) => Ok(
                    Readings {
                        bus,
                        temperature,
                        slowdown_threshold: match outcomes.slowdown_threshold {
                            Ok(t) => Some(t),
                            Err(_) => None,
                        },
                        name,
                    },
                ),
            },
        },
    }
}

/// Gathers the reads of one device. Any failed read but that of the
/// threshold fails the whole; the earliest one is reported.
pub fn gather_readings<E>(outcomes: ReadOutcomes<E>) -> (readings: Result<Readings, E>)
    ensures
        readings == gathered(outcomes),
{
    let bus: u32 = match outcomes.bus {
        Ok(bus) => bus,
        Err(e) => {
            return Err(e);
        },
    };
    let temperature: u32 = match outcomes.temperature {
        Ok(temperature) => temperature,
        Err(e) => {
            return Err(e);
        },
    };
    let slowdown_threshold: Option<u32> = match outcomes.slowdown_threshold {
        Ok(t) => Some(t),
        Err(_) => None,
    };
    match outcomes.name {
        Ok(name) => Ok(Readings { bus, temperature, slowdown_threshold, name }),
        Err(e) => Err(e),
    }
}

impl Readings {
    /// Executable form of [`readings_fit`] on these readings.
    pub fn fits(&self) -> (ok: bool)
        ensures
            ok == readings_fit(self.bus, self.temperature, self.slowdown_threshold),
    {
        let threshold_ok: bool = match self.slowdown_threshold {
            Some(t) => THRESHOLD_MARGIN_CELSIUS <= t && t - THRESHOLD_MARGIN_CELSIUS <= 32767,
            None => true,
        };
        self.bus <= 255 && self.temperature <= 32767 && threshold_ok
    }
}

/// Builds the device's snapshot from its raw readings, stamped with the
/// bridge's current update counter. A missing threshold is replaced by the
/// default; it is never passed on as missing.
pub fn read_device_info(readings: Readings, count: u16) -> (device: DeviceInfo)
    requires
        readings_fit(readings.bus, readings.temperature, readings.slowdown_threshold),
    ensures
        device.slot == bus_slot(readings.bus),
        device.pci_bus == readings.bus,
        device.current_temperature_celsius == readings.temperature,
        device.temperature_threshold_celsius.is_some(),
        device.temperature_threshold_celsius.unwrap() == tracked_threshold(
            readings.slowdown_threshold,
        ),
        device.name == readings.name,
        device.count == count,
{
    let slot: Option<u8> = slot_for_bus(readings.bus);
    let pci_bus: u8 = readings.bus as u8;
    let current_temperature_celsius: i16 = readings.temperature as i16;
    let temperature_threshold_celsius: Option<i16> = match readings.slowdown_threshold {
        Some(threshold) => Some((threshold - THRESHOLD_MARGIN_CELSIUS) as i16),
        None => Some(DEFAULT_THRESHOLD_CELSIUS),
    };
    DeviceInfo {
        slot,
        pci_bus,
        current_temperature_celsius,
        temperature_threshold_celsius,
        name: readings.name,
        count,
    }
}

} // verus!
