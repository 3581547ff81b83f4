//! Text renderings used in the log: hex dumps of wire structures and the
//! per-device summary.

use vstd::prelude::*;
use vstd::string::StringExecFns;
use crate::device::DeviceInfo;
use crate::record::SensorRecord;

verus! {

/// The lower-case hexadecimal digit for a value below sixteen.
pub open spec fn hex_digit(n: int) -> char {
    if n == 0 {
        '0'
    } else if n == 1 {
        '1'
    } else if n == 2 {
        '2'
    } else if n == 3 {
        '3'
    } else if n == 4 {
        '4'
    } else if n == 5 {
        '5'
    } else if n == 6 {
        '6'
    } else if n == 7 {
        '7'
    } else if n == 8 {
        '8'
    } else if n == 9 {
        '9'
    } else if n == 10 {
        'a'
    } else if n == 11 {
        'b'
    } else if n == 12 {
        'c'
    } else if n == 13 {
        'd'
    } else if n == 14 {
        'e'
    } else {
        'f'
    }
}

/// One byte as two hex digits followed by a space.
pub open spec fn byte_text(b: u8) -> Seq<char> {
    seq![hex_digit(b as int / 16), hex_digit(b as int % 16), ' ']
}

/// What follows the `k`-th byte of a dump: an extra space after the first
/// half of a row, a line break after the second half, nothing elsewhere.
pub open spec fn separator_after(k: nat) -> Seq<char> {
    if k % 16 == 8 {
        seq![' ']
    } else if k % 16 == 0 {
        seq!['\n']
    } else {
        Seq::empty()
    }
}

/// The dump of the first `k` bytes of `bytes`.
pub open spec fn dump_prefix(bytes: Seq<u8>, k: nat) -> Seq<char>
    recommends
        k <= bytes.len(),
    decreases k,
{
    if k == 0 {
        Seq::empty()
    } else {
        dump_prefix(bytes, (k - 1) as nat) + byte_text(bytes[k - 1]) + separator_after(k)
    }
}

/// The hex dump of a structure: whole groups of eight bytes only, two groups
/// to a line. Bytes after the last whole group are not shown.
pub open spec fn struct_bytes_text(bytes: Seq<u8>) -> Seq<char> {
    dump_prefix(bytes, (8 * (bytes.len() / 8)) as nat)
}

/// The decimal digits of a natural number, most significant first.
pub open spec fn digits_text(n: nat) -> Seq<char>
    decreases n,
{
    if n < 10 {
        seq![hex_digit(n as int)]
    } else {
        digits_text(n / 10).push(hex_digit((n % 10) as int))
    }
}

/// The decimal rendering of an integer, with a leading minus sign when it is
/// negative.
pub open spec fn decimal_text(n: int) -> Seq<char> {
    if n < 0 {
        seq!['-'] + digits_text((-n) as nat)
    } else {
        digits_text(n as nat)
    }
}

/// The `Debug` rendering of a string: the string in double quotes, with
/// the characters that `Debug` escapes written as escapes.
pub uninterp spec fn quoted_text(s: Seq<char>) -> Seq<char>;

/// `format!` with `{:?}` on a string: its `Debug` rendering, which depends on
/// the string's characters alone.
#[verifier::external_body]
fn quoted_string(s: &String) -> (res: String)
    ensures
        res@ == quoted_text(s@),
{
    format!("{:?}", s)
}

/// The one-character string for a hexadecimal digit.
pub fn hex_digit_str(n: u8) -> (s: &'static str)
    requires
        n < 16,
    ensures
        s@ == seq![hex_digit(n as int)],
{
    proof {
        reveal_strlit("0");
        reveal_strlit("1");
        reveal_strlit("2");
        reveal_strlit("3");
        reveal_strlit("4");
        reveal_strlit("5");
        reveal_strlit("6");
        reveal_strlit("7");
        reveal_strlit("8");
        reveal_strlit("9");
        reveal_strlit("a");
        reveal_strlit("b");
        reveal_strlit("c");
        reveal_strlit("d");
        reveal_strlit("e");
        reveal_strlit("f");
    }
    let s: &'static str = if n == 0 {
        "0"
    } else if n == 1 {
        "1"
    } else if n == 2 {
        "2"
    } else if n == 3 {
        "3"
    } else if n == 4 {
        "4"
    } else if n == 5 {
        "5"
    } else if n == 6 {
        "6"
    } else if n == 7 {
        "7"
    } else if n == 8 {
        "8"
    } else if n == 9 {
        "9"
    } else if n == 10 {
        "a"
    } else if n == 11 {
        "b"
    } else if n == 12 {
        "c"
    } else if n == 13 {
        "d"
    } else if n == 14 {
        "e"
    } else {
        "f"
    };
    assert(s@ =~= seq![hex_digit(n as int)]);
    s
}

/// Appends the decimal digits of `n` to `out`.
fn push_digits(out: &mut String, n: u128)
    ensures
        final(out)@ == old(out)@ + digits_text(n as nat),
    decreases n,
{
    let ghost start = out@;
    if n < 10 {
        out.append(hex_digit_str(n as u8));
        assert(out@ =~= start + digits_text(n as nat));
    } else {
        push_digits(out, n / 10);
        out.append(hex_digit_str((n % 10) as u8));
        assert(out@ =~= start + digits_text(n as nat));
    }
}

/// Renders an integer in decimal.
pub fn decimal_string(n: i128) -> (res: String)
    ensures
        res@ == decimal_text(n as int),
{
    let mut res = String::new();
    proof {
        reveal_strlit("-");
    }
    if n < 0 {
        res.append("-");
        let magnitude: u128 = ((-(n + 1)) as u128) + 1;
        push_digits(&mut res, magnitude);
    } else {
        push_digits(&mut res, n as u128);
    }
    assert(res@ =~= decimal_text(n as int));
    res
}

/// Renders a wire structure as a hex dump, eight bytes to a group and two
/// groups to a line.
pub fn format_struct_bytes(bytes: &Vec<u8>) -> (output: String)
    ensures
        output@ == struct_bytes_text(bytes@),
{
    let total: usize = (bytes.len() / 8) * 8;
    let mut output = String::new();
    let mut k: usize = 0;
    while k < total
        invariant
            k <= total,
            total <= bytes.len(),
            total == 8 * (bytes.len() / 8),
            output@ == dump_prefix(bytes@, k as nat),
        decreases total - k,
    {
        let b: u8 = bytes[k];
        let ghost before = output@;
        proof {
            reveal_strlit(" ");
            reveal_strlit("\n");
        }
        output.append(hex_digit_str(b / 16));
        output.append(hex_digit_str(b % 16));
        output.append(" ");
        assert(output@ =~= before + byte_text(b));
        k = k + 1;
        if k % 16 == 8 {
            output.append(" ");
        } else if k % 16 == 0 {
            output.append("\n");
        }
        assert(output@ =~= before + byte_text(b) + separator_after(k as nat));
    }
    output
}

/// The part of a device's summary that names its enclosure slot.
pub open spec fn slot_text(slot: Option<u8>) -> Seq<char> {
    match slot {
        Some(s) => "slot #"@ + decimal_text(s as int) + ":"@,
        None => "unknown slot:"@,
    }
}

/// The line of a device's summary that gives its threshold.
pub open spec fn threshold_text(threshold: Option<i16>) -> Seq<char> {
    match threshold {
        Some(t) => "Temperature threshold: "@ + decimal_text(t as int) + "C"@,
        None => "Temperature threshold: unknown"@,
    }
}

/// A device's summary, given its name as it is to appear: the name with the
/// position and slot, the temperature and the threshold, one line each.
pub open spec fn device_summary_text(
    index: int,
    shown_name: Seq<char>,
    slot: Option<u8>,
    current: i16,
    threshold: Option<i16>,
) -> Seq<char> {
    "Device "@ + shown_name + " with index "@ + decimal_text(index) + " in "@ + slot_text(slot)
        + "\n"@ + "Current temperature: "@ + decimal_text(current as int) + "C\n"@
        + threshold_text(threshold) + "\n"@
}

/// A device's summary, with its name quoted.
pub open spec fn device_info_text(
    index: int,
    name: Seq<char>,
    slot: Option<u8>,
    current: i16,
    threshold: Option<i16>,
) -> Seq<char> {
    device_summary_text(index, quoted_text(name), slot, current, threshold)
}

/// The report of a device record, given the bytes of its header and of its
/// first sensor: a hex dump of each under a heading.
pub open spec fn ocsd_report_text(header_bytes: Seq<u8>, sensor_bytes: Seq<u8>) -> Seq<char> {
    "Device header:\n"@ + struct_bytes_text(header_bytes) + "\nDevice Sensor 0:\n"@
        + struct_bytes_text(sensor_bytes) + "\n"@
}

/// The heading of the list of devices whose slot is unknown, for `n` such
/// devices.
pub open spec fn slotless_heading_text(n: int) -> Seq<char> {
    if n == 1 {
        "Found "@ + decimal_text(n) + " device"@ + " without known PCI slot for "@
            + "its address"@ + ":\n"@
    } else {
        "Found "@ + decimal_text(n) + " devices"@ + " without known PCI slot for "@
            + "their addresses"@ + ":\n"@
    }
}

/// One entry of the list of devices whose slot is unknown: the name and the
/// bus as two hex digits.
pub open spec fn slotless_line_text(name: Seq<char>, pci_bus: u8) -> Seq<char> {
    name + " on bus "@ + seq![hex_digit(pci_bus as int / 16), hex_digit(pci_bus as int % 16)]
}

fn slot_string(slot: Option<u8>) -> (res: String)
    ensures
        res@ == slot_text(slot),
{
    let mut res = String::new();
    match slot {
        Some(s) => {
            res.append("slot #");
            let number = decimal_string(s as i128);
            res.append(number.as_str());
            res.append(":");
        },
        None => {
            res.append("unknown slot:");
        },
    }
    assert(res@ =~= slot_text(slot));
    res
}

fn threshold_string(threshold: Option<i16>) -> (res: String)
    ensures
        res@ == threshold_text(threshold),
{
    let mut res = String::new();
    match threshold {
        Some(t) => {
            res.append("Temperature threshold: ");
            let number = decimal_string(t as i128);
            res.append(number.as_str());
            res.append("C");
        },
        None => {
            res.append("Temperature threshold: unknown");
        },
    }
    assert(res@ =~= threshold_text(threshold));
    res
}

/// Renders a device's summary around the name as it is to appear.
pub fn format_device_summary(
    index: usize,
    shown_name: &str,
    slot: Option<u8>,
    current: i16,
    threshold: Option<i16>,
) -> (output: String)
    ensures
        output@ == device_summary_text(index as int, shown_name@, slot, current, threshold),
{
    let mut output = String::new();
    output.append("Device ");
    output.append(shown_name);
    output.append(" with index ");
    let position = decimal_string(index as i128);
    output.append(position.as_str());
    output.append(" in ");
    let slot_part = slot_string(slot);
    output.append(slot_part.as_str());
    output.append("\n");
    output.append("Current temperature: ");
    let reading = decimal_string(current as i128);
    output.append(reading.as_str());
    output.append("C\n");
    let threshold_part = threshold_string(threshold);
    output.append(threshold_part.as_str());
    output.append("\n");
    assert(output@ =~= device_summary_text(index as int, shown_name@, slot, current, threshold));
    output
}

/// Renders a device's summary for the log, its name quoted and escaped.
pub fn format_device_info(index: usize, device: &DeviceInfo) -> (output: String)
    ensures
        output@ == device_info_text(
            index as int,
            device.name@,
            device.slot,
            device.current_temperature_celsius,
            device.temperature_threshold_celsius,
        ),
{
    let name = quoted_string(&device.name);
    format_device_summary(
        index,
        name.as_str(),
        device.slot,
        device.current_temperature_celsius,
        device.temperature_threshold_celsius,
    )
}

/// Renders the report of a device record from the bytes of its header and
/// of its first sensor.
pub fn report_from_bytes(header_bytes: &Vec<u8>, sensor_bytes: &Vec<u8>) -> (output: String)
    ensures
        output@ == ocsd_report_text(header_bytes@, sensor_bytes@),
{
    let mut output = String::new();
    output.append("Device header:\n");
    let header = format_struct_bytes(header_bytes);
    output.append(header.as_str());
    output.append("\nDevice Sensor 0:\n");
    let sensor = format_struct_bytes(sensor_bytes);
    output.append(sensor.as_str());
    output.append("\n");
    assert(output@ =~= ocsd_report_text(header_bytes@, sensor_bytes@));
    output
}

/// Renders the report of a device record: hex dumps of its header and of
/// its first sensor as they stand in table memory.
pub fn format_ocsd_report(device: &SensorRecord) -> (output: String)
    requires
        device.sensor_0.checksum_fits(),
    ensures
        output@ == ocsd_report_text(device.header.bytes(), device.sensor_0.bytes()),
{
    let header_bytes = device.header.to_bytes();
    let sensor_bytes = device.sensor_0.to_bytes();
    report_from_bytes(&header_bytes, &sensor_bytes)
}

/// Renders the heading of the list of devices whose slot is unknown.
pub fn format_slotless_heading(n: usize) -> (output: String)
    ensures
        output@ == slotless_heading_text(n as int),
{
    let mut output = String::new();
    output.append("Found ");
    let number = decimal_string(n as i128);
    output.append(number.as_str());
    if n == 1 {
        output.append(" device");
    } else {
        output.append(" devices");
    }
    output.append(" without known PCI slot for ");
    if n == 1 {
        output.append("its address");
    } else {
        output.append("their addresses");
    }
    output.append(":\n");
    assert(output@ =~= slotless_heading_text(n as int));
    output
}

/// Renders one entry of the list of devices whose slot is unknown.
pub fn format_slotless_line(device: &DeviceInfo) -> (output: String)
    ensures
        output@ == slotless_line_text(device.name@, device.pci_bus),
{
    let mut output = String::new();
    output.append(device.name.as_str());
    output.append(" on bus ");
    output.append(hex_digit_str(device.pci_bus / 16));
    output.append(hex_digit_str(device.pci_bus % 16));
    assert(output@ =~= slotless_line_text(device.name@, device.pci_bus));
    output
}

} // verus!
