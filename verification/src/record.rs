//! The fixed binary record written into one table slot, and the encoder
//! that fills it from a device's readings.

use vstd::prelude::*;
use crate::device::{tracked_threshold, readings_fit, DeviceInfo};
use ocsd::MemoryMapped;

verus! {

/// Status bit: the sensor has not failed.
pub const STATUS_NOT_FAILED: u16 = 0x0001;

/// Status bit: the sensor is present.
pub const STATUS_PRESENT: u16 = 0x0002;

/// Status bit: the sensor record carries a checksum.
pub const STATUS_WITH_CHECKSUM: u16 = 0x0008;

/// The status every live sensor is written with.
pub const STATUS_LIVE: u16 = 0x000b;

/// Capability flags every live device header is written with.
pub const LIVE_FLAGS_CAPS: u32 = 0x0000_0010;

/// Caution threshold of every live sensor, in degrees Celsius.
pub const CAUTION_THRESHOLD_CELSIUS: i16 = 100;

/// Threshold encoded for a device that carries none, in degrees Celsius.
pub const FALLBACK_THRESHOLD_CELSIUS: i16 = 90;

/// Version of a device record's header.
#[derive(Clone, Copy, Debug, PartialEq, Eq, Structural)]
pub enum DeviceVersion {
    Unknown,
    Version1,
}

/// Kind of a sensor.
#[derive(Clone, Copy, Debug, PartialEq, Eq, Structural)]
pub enum SensorType {
    Unknown,
    Thermal,
}

/// Where on the card a sensor sits.
#[derive(Clone, Copy, Debug, PartialEq, Eq, Structural)]
pub enum SensorLocation {
    Unknown,
    InternalToAsic,
    OnboardOther,
}

/// A device record's header.
#[derive(Clone, Copy, Debug, PartialEq, Eq, Structural)]
pub struct RecordHeader {
    pub version: DeviceVersion,
    pub pci_bus: u8,
    pub pci_device: u8,
    pub flags_caps: u32,
}

/// One sensor of a device record. Temperatures are held as the byte that
/// goes on the wire.
#[derive(Clone, Copy, Debug, PartialEq, Eq, Structural)]
pub struct SensorEntry {
    pub sensor_type: SensorType,
    pub sensor_location: SensorLocation,
    pub configuration: u16,
    pub status: u16,
    pub max_continuous_threshold: u8,
    pub caution_threshold: u8,
    pub reading: u8,
    pub update_count: u16,
    /// The bus that enters the checksum; `None` marks an empty sensor.
    pub bus: Option<u8>,
}

/// The record of one slot: a header and three sensors, of which a live
/// device fills the first.
#[derive(Clone, Copy, Debug, PartialEq, Eq, Structural)]
pub struct SensorRecord {
    pub header: RecordHeader,
    pub sensor_0: SensorEntry,
    pub sensor_1: SensorEntry,
    pub sensor_2: SensorEntry,
}

/// Why a device's readings could not be encoded.
#[derive(Clone, Copy, Debug, PartialEq, Eq, Structural)]
pub enum EncodeError {
    /// The threshold does not fit the record's one-byte temperature.
    ThresholdOutOfRange,
    /// The current temperature does not fit the record's one-byte
    /// temperature.
    ReadingOutOfRange,
}

impl DeviceVersion {
    /// The version's number on the wire.
    pub open spec fn code(self) -> u8 {
        match self {
            DeviceVersion::Unknown => 0u8,
            DeviceVersion::Version1 => 1u8,
        }
    }

    /// The version's number on the wire.
    pub fn wire_code(self) -> (code: u8)
        ensures
            code == self.code(),
    {
        match self {
            DeviceVersion::Unknown => 0u8,
            DeviceVersion::Version1 => 1u8,
        }
    }
}

impl SensorType {
    /// The type's number on the wire.
    pub open spec fn code(self) -> u8 {
        match self {
            SensorType::Unknown => 0u8,
            SensorType::Thermal => 1u8,
        }
    }

    /// The type's number on the wire.
    pub fn wire_code(self) -> (code: u8)
        ensures
            code == self.code(),
    {
        match self {
            SensorType::Unknown => 0u8,
            SensorType::Thermal => 1u8,
        }
    }
}

impl SensorLocation {
    /// The location's number on the wire.
    pub open spec fn code(self) -> u32 {
        match self {
            SensorLocation::Unknown => 0u32,
            SensorLocation::InternalToAsic => 1u32,
            SensorLocation::OnboardOther => 5u32,
        }
    }

    /// The location's number on the wire.
    pub fn wire_code(self) -> (code: u32)
        ensures
            code == self.code(),
    {
        match self {
            SensorLocation::Unknown => 0u32,
            SensorLocation::InternalToAsic => 1u32,
            SensorLocation::OnboardOther => 5u32,
        }
    }
}

/// The wire byte of a temperature: its two's-complement form where it lies
/// within a signed byte, nothing otherwise.
pub open spec fn wire_celsius(degrees: int) -> Option<u8> {
    if 0 <= degrees <= i8::MAX {
        Some(degrees as u8)
    } else if i8::MIN <= degrees < 0 {
        Some((degrees + 256) as u8)
    } else {
        None
    }
}

/// `ocsd::Celsius::new` followed by `Celsius::raw_value`: the temperature
/// is accepted exactly where it fits a signed byte, and its raw value is
/// that byte read as unsigned.
#[verifier::external_body]
fn celsius_raw(degrees: i16) -> (raw: Option<u8>)
    ensures
        raw == wire_celsius(degrees as int),
{
    match ocsd::Celsius::new(degrees) {
        Ok(temperature) => Some(temperature.raw_value()),
        Err(_) => None,
    }
}

/// The bytes of a device header in table memory, checksum included, as a
/// little-endian machine lays them out; the table exists on no other.
pub uninterp spec fn device_header_bytes(
    version: u8,
    pci_bus: u8,
    pci_device: u8,
    flags_caps: u32,
) -> Seq<u8>;

/// The bytes of one sensor in table memory, checksum included, as a
/// little-endian machine lays them out. An empty sensor has no bytes of
/// its own.
pub uninterp spec fn sensor_bytes(
    sensor_type: u8,
    sensor_location: u32,
    configuration: u16,
    status: u16,
    max_continuous_threshold: u8,
    caution_threshold: u8,
    reading: u8,
    update_count: u16,
    bus: Option<u8>,
) -> Seq<u8>;

/// `MemoryMapped::to_bytes` of an `ocsd::OcsdDeviceHeader` with the given
/// fields: the bytes depend on the fields alone.
#[verifier::external_body]
fn header_to_bytes(version: u8, pci_bus: u8, pci_device: u8, flags_caps: u32) -> (bytes: Vec<u8>)
    ensures
        bytes@ == device_header_bytes(version, pci_bus, pci_device, flags_caps),
{
    let header = ocsd::OcsdDeviceHeader {
        version: ocsd::DeviceVersion::from(version),
        pci_bus,
        pci_device,
        flags_caps,
    };
    header.to_bytes()
}

/// The sum that a sensor's checksum is formed from, the bus left out. A type
/// or location code that stands for nothing counts as zero.
pub open spec fn sensor_field_sum(
    sensor_type: u8,
    sensor_location: u32,
    configuration: u16,
    status: u16,
    max_continuous_threshold: u8,
    caution_threshold: u8,
    reading: u8,
    update_count: u16,
) -> int {
    (if sensor_type == 1 {
        1int
    } else {
        0int
    }) + (if sensor_location == 1 {
        1int
    } else if sensor_location == 5 {
        5int
    } else {
        0int
    }) + max_continuous_threshold + caution_threshold + configuration + status * 0x1_0000 + reading
        + update_count
}

/// `MemoryMapped::to_bytes` of an `ocsd::OcsdSensor` with the given fields,
/// the temperatures given as raw bytes: the bytes depend on the fields alone.
/// The checksum is summed in 32 bits without wrapping, so the sum has to fit.
#[verifier::external_body]
fn sensor_to_bytes(
    sensor_type: u8,
    sensor_location: u32,
    configuration: u16,
    status: u16,
    max_continuous_threshold: u8,
    caution_threshold: u8,
    reading: u8,
    update_count: u16,
    bus: Option<u8>,
) -> (bytes: Vec<u8>)
    requires
        bus matches Some(b) ==> sensor_field_sum(
            sensor_type,
            sensor_location,
            configuration,
            status,
            max_continuous_threshold,
            caution_threshold,
            reading,
            update_count,
        ) + b <= u32::MAX,
    ensures
        bytes@ == sensor_bytes(
            sensor_type,
            sensor_location,
            configuration,
            status,
            max_continuous_threshold,
            caution_threshold,
            reading,
            update_count,
            bus,
        ),
{
    let sensor = ocsd::OcsdSensor {
        sensor_type: ocsd::OcsdSensorType::from(sensor_type),
        sensor_location: ocsd::OcsdSensorLocation::from(sensor_location),
        configuration,
        status: ocsd::OcsdSensorStatus::from(status),
        max_continuous_threshold: ocsd::Celsius::from_raw(max_continuous_threshold),
        caution_threshold: ocsd::Celsius::from_raw(caution_threshold),
        reading: ocsd::Celsius::from_raw(reading),
        update_count,
        bus,
    };
    sensor.to_bytes()
}

impl RecordHeader {
    /// The header's bytes in table memory.
    pub open spec fn bytes(self) -> Seq<u8> {
        device_header_bytes(self.version.code(), self.pci_bus, self.pci_device, self.flags_caps)
    }

    /// The header's bytes in table memory.
    pub fn to_bytes(&self) -> (bytes: Vec<u8>)
        ensures
            bytes@ == self.bytes(),
    {
        header_to_bytes(self.version.wire_code(), self.pci_bus, self.pci_device, self.flags_caps)
    }
}

impl SensorEntry {
    /// A sensor slot that holds nothing.
    pub open spec fn empty() -> SensorEntry {
        SensorEntry {
            sensor_type: SensorType::Unknown,
            sensor_location: SensorLocation::Unknown,
            configuration: 0,
            status: 0,
            max_continuous_threshold: 0,
            caution_threshold: 0,
            reading: 0,
            update_count: 0,
            bus: None,
        }
    }

    /// A sensor slot that holds nothing.
    pub fn new_empty() -> (entry: SensorEntry)
        ensures
            entry == SensorEntry::empty(),
    {
        SensorEntry {
            sensor_type: SensorType::Unknown,
            sensor_location: SensorLocation::Unknown,
            configuration: 0,
            status: 0,
            max_continuous_threshold: 0,
            caution_threshold: 0,
            reading: 0,
            update_count: 0,
            bus: None,
        }
    }

    /// Whether the sensor's checksum can be formed: the sum of its fields
    /// and its bus fits in 32 bits. An empty sensor has no checksum.
    pub open spec fn checksum_fits(self) -> bool {
        match self.bus {
            Some(bus) => sensor_field_sum(
                self.sensor_type.code(),
                self.sensor_location.code(),
                self.configuration,
                self.status,
                self.max_continuous_threshold,
                self.caution_threshold,
                self.reading,
                self.update_count,
            ) + bus <= u32::MAX,
            None => true,
        }
    }

    /// Executable form of [`SensorEntry::checksum_fits`].
    pub fn has_checksum_room(&self) -> (ok: bool)
        ensures
            ok == self.checksum_fits(),
    {
        match self.bus {
            Some(bus) => {
                let flags: u64 = (self.status as u64) * 0x1_0000 + (self.configuration as u64);
                let temperatures: u64 = (self.max_continuous_threshold as u64) + (
                self.caution_threshold as u64) + (self.reading as u64);
                let codes: u64 = (self.sensor_type.wire_code() as u64) + (
                self.sensor_location.wire_code() as u64);
                codes + temperatures + flags + (self.update_count as u64) + (bus as u64)
                    <= 0xffff_ffff
            },
            None => true,
        }
    }

    /// The sensor's bytes in table memory.
    pub open spec fn bytes(self) -> Seq<u8> {
        sensor_bytes(
            self.sensor_type.code(),
            self.sensor_location.code(),
            self.configuration,
            self.status,
            self.max_continuous_threshold,
            self.caution_threshold,
            self.reading,
            self.update_count,
            self.bus,
        )
    }

    /// The sensor's bytes in table memory.
    pub fn to_bytes(&self) -> (bytes: Vec<u8>)
        requires
            self.checksum_fits(),
        ensures
            bytes@ == self.bytes(),
    {
        sensor_to_bytes(
            self.sensor_type.wire_code(),
            self.sensor_location.wire_code(),
            self.configuration,
            self.status,
            self.max_continuous_threshold,
            self.caution_threshold,
            self.reading,
            self.update_count,
            self.bus,
        )
    }
}

impl SensorRecord {
    /// The record that marks a slot as unused: an unknown version and
    /// nothing else set.
    pub open spec fn cleared() -> SensorRecord {
        SensorRecord {
            header: RecordHeader {
                version: DeviceVersion::Unknown,
                pci_bus: 0,
                pci_device: 0,
                flags_caps: 0,
            },
            sensor_0: SensorEntry::empty(),
            sensor_1: SensorEntry::empty(),
            sensor_2: SensorEntry::empty(),
        }
    }

    /// The record written into a slot to clear it.
    pub fn new_cleared() -> (record: SensorRecord)
        ensures
            record == SensorRecord::cleared(),
    {
        SensorRecord {
            header: RecordHeader {
                version: DeviceVersion::Unknown,
                pci_bus: 0,
                pci_device: 0,
                flags_caps: 0,
            },
            sensor_0: SensorEntry::new_empty(),
            sensor_1: SensorEntry::new_empty(),
            sensor_2: SensorEntry::new_empty(),
        }
    }
}

/// The threshold that is encoded for a device: its own, or the fallback
/// where it carries none.
pub open spec fn encoded_threshold(threshold: Option<i16>) -> int {
    match threshold {
        Some(t) => t as int,
        None => FALLBACK_THRESHOLD_CELSIUS as int,
    }
}

/// The record of a device whose threshold and reading go on the wire as
/// `threshold_raw` and `reading_raw`.
pub open spec fn live_record(
    pci_bus: u8,
    count: u16,
    threshold_raw: u8,
    reading_raw: u8,
) -> SensorRecord {
    SensorRecord {
        header: RecordHeader {
            version: DeviceVersion::Version1,
            pci_bus,
            pci_device: 0,
            flags_caps: LIVE_FLAGS_CAPS,
        },
        sensor_0: SensorEntry {
            sensor_type: SensorType::Thermal,
            sensor_location: SensorLocation::InternalToAsic,
            configuration: 0,
            status: STATUS_LIVE,
            max_continuous_threshold: threshold_raw,
            caution_threshold: CAUTION_THRESHOLD_CELSIUS as u8,
            reading: reading_raw,
            update_count: count,
            bus: Some(pci_bus),
        },
        sensor_1: SensorEntry::empty(),
        sensor_2: SensorEntry::empty(),
    }
}

/// What encoding a device gives: its record, or the first temperature that
/// does not fit, the threshold before the reading.
pub open spec fn encoded(
    pci_bus: u8,
    count: u16,
    threshold: Option<i16>,
    current: i16,
) -> Result<SensorRecord, EncodeError> {
    match wire_celsius(encoded_threshold(threshold)) {
        None => Err(EncodeError::ThresholdOutOfRange),
        Some(threshold_raw) => match wire_celsius(current as int) {
            None => Err(EncodeError::ReadingOutOfRange),
            Some(reading_raw) => Ok(live_record(pci_bus, count, threshold_raw, reading_raw)),
        },
    }
}

/// The status of a live sensor is the three flags it is made of.
pub proof fn live_status_is_its_flags()
    ensures
        STATUS_LIVE == STATUS_WITH_CHECKSUM | STATUS_PRESENT | STATUS_NOT_FAILED,
{
    assert(0x000bu16 == 0x0008u16 | 0x0002u16 | 0x0001u16) by (bit_vector);
}

/// Encodes a device's snapshot as the record of its slot. Only the first
/// sensor is filled. A temperature outside the signed byte that the record
/// can carry is rejected.
pub fn encode_device(device: &DeviceInfo) -> (record: Result<SensorRecord, EncodeError>)
    ensures
        record == encoded(
            device.pci_bus,
            device.count,
            device.temperature_threshold_celsius,
            device.current_temperature_celsius,
        ),
        record matches Ok(r) ==> r.sensor_0.checksum_fits(),
{
    let threshold: i16 = match device.temperature_threshold_celsius {
        Some(t) => t,
        None => FALLBACK_THRESHOLD_CELSIUS,
    };
    let threshold_raw: u8 = match celsius_raw(threshold) {
        Some(raw) => raw,
        None => {
            return Err(EncodeError::ThresholdOutOfRange);
        },
    };
    let caution_raw: u8 = celsius_raw(CAUTION_THRESHOLD_CELSIUS).unwrap();
    let reading_raw: u8 = match celsius_raw(device.current_temperature_celsius) {
        Some(raw) => raw,
        None => {
            return Err(EncodeError::ReadingOutOfRange);
        },
    };
    Ok(
        SensorRecord {
            header: RecordHeader {
                version: DeviceVersion::Version1,
                pci_bus: device.pci_bus,
                pci_device: 0,
                flags_caps: LIVE_FLAGS_CAPS,
            },
            sensor_0: SensorEntry {
                sensor_type: SensorType::Thermal,
                sensor_location: SensorLocation::InternalToAsic,
                configuration: 0,
                status: STATUS_LIVE,
                max_continuous_threshold: threshold_raw,
                caution_threshold: caution_raw,
                reading: reading_raw,
                update_count: device.count,
                bus: Some(device.pci_bus),
            },
            sensor_1: SensorEntry::new_empty(),
            sensor_2: SensorEntry::new_empty(),
        },
    )
}

/// What reading a device and encoding its snapshot gives, from the raw
/// readings.
pub open spec fn encoded_readings(
    bus: u32,
    temperature: u32,
    slowdown_threshold: Option<u32>,
    count: u16,
) -> Result<SensorRecord, EncodeError> {
    encoded(
        bus as u8,
        count,
        Some(tracked_threshold(slowdown_threshold) as i16),
        temperature as i16,
    )
}

/// A device whose threshold could not be read is encoded with the default
/// threshold of seventy degrees. The missing threshold never fails the
/// encoding: it succeeds exactly where the reading fits the record.
pub proof fn missing_threshold_encodes_default(bus: u32, temperature: u32, count: u16)
    requires
        readings_fit(bus, temperature, None),
    ensures
        encoded_readings(bus, temperature, None, count) is Ok <==> temperature <= i8::MAX,
        encoded_readings(bus, temperature, None, count) matches Ok(record)
            ==> record.sensor_0.max_continuous_threshold == 70,
        encoded_readings(bus, temperature, None, count) matches Err(e) ==> e
            == EncodeError::ReadingOutOfRange,
{
}

} // verus!
