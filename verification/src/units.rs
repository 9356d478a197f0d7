//! Human-readable byte magnitudes: scaling a byte count to decimal (SI)
//! and binary (IEC) units, as centi-scaled integer values.

use vstd::prelude::*;
use vstd::string::StringExecFns;

use crate::outputs::DiskSizeMeasure;

verus! {

/// The decimal magnitude band of a byte count: the largest power of 1000
/// that does not exceed it (0 for bytes, 1 for kB, and so on up to EB).
pub open spec fn si_exponent(bytes: u64) -> int {
    if bytes < 1000 {
        0
    } else if bytes < 1_000_000 {
        1
    } else if bytes < 1_000_000_000 {
        2
    } else if bytes < 1_000_000_000_000 {
        3
    } else if bytes < 1_000_000_000_000_000 {
        4
    } else if bytes < 1_000_000_000_000_000_000 {
        5
    } else {
        6
    }
}

/// 1000 raised to the given band.
pub open spec fn si_divisor(band: int) -> int {
    if band == 0 {
        1
    } else if band == 1 {
        1000
    } else if band == 2 {
        1_000_000
    } else if band == 3 {
        1_000_000_000
    } else if band == 4 {
        1_000_000_000_000
    } else if band == 5 {
        1_000_000_000_000_000
    } else {
        1_000_000_000_000_000_000
    }
}

/// The decimal unit name for the given band.
pub open spec fn si_unit_name(band: int) -> Seq<char> {
    if band == 0 {
        "B"@
    } else if band == 1 {
        "kB"@
    } else if band == 2 {
        "MB"@
    } else if band == 3 {
        "GB"@
    } else if band == 4 {
        "TB"@
    } else if band == 5 {
        "PB"@
    } else {
        "EB"@
    }
}

/// The binary magnitude band of a byte count: the largest power of 1024
/// that does not exceed it (0 for bytes, 1 for KiB, and so on up to EiB).
pub open spec fn iec_exponent(bytes: u64) -> int {
    if bytes < 0x400 {
        0
    } else if bytes < 0x100000 {
        1
    } else if bytes < 0x40000000 {
        2
    } else if bytes < 0x10000000000 {
        3
    } else if bytes < 0x4000000000000 {
        4
    } else if bytes < 0x1000000000000000 {
        5
    } else {
        6
    }
}

/// 1024 raised to the given band.
pub open spec fn iec_divisor(band: int) -> int {
    if band == 0 {
        1
    } else if band == 1 {
        0x400
    } else if band == 2 {
        0x100000
    } else if band == 3 {
        0x40000000
    } else if band == 4 {
        0x10000000000
    } else if band == 5 {
        0x4000000000000
    } else {
        0x1000000000000000
    }
}

/// The binary unit name for the given band.
pub open spec fn iec_unit_name(band: int) -> Seq<char> {
    if band == 0 {
        "B"@
    } else if band == 1 {
        "KiB"@
    } else if band == 2 {
        "MiB"@
    } else if band == 3 {
        "GiB"@
    } else if band == 4 {
        "TiB"@
    } else if band == 5 {
        "PiB"@
    } else {
        "EiB"@
    }
}

/// Scales a byte count to its decimal band: the value in hundredths of the
/// chosen unit, and the unit name.
pub fn to_si_bytes(bytes: u64) -> (r: (u64, String))
    ensures
        r.0 == bytes * 100 / si_divisor(si_exponent(bytes)),
        r.1@ == si_unit_name(si_exponent(bytes)),
{
    let wide: u128 = bytes as u128 * 100;
    if bytes < 1000 {
        (bytes * 100, String::from_str("B"))
    } else if bytes < 1_000_000 {
        ((wide / 1000) as u64, String::from_str("kB"))
    } else if bytes < 1_000_000_000 {
        ((wide / 1_000_000) as u64, String::from_str("MB"))
    } else if bytes < 1_000_000_000_000 {
        ((wide / 1_000_000_000) as u64, String::from_str("GB"))
    } else if bytes < 1_000_000_000_000_000 {
        ((wide / 1_000_000_000_000) as u64, String::from_str("TB"))
    } else if bytes < 1_000_000_000_000_000_000 {
        ((wide / 1_000_000_000_000_000) as u64, String::from_str("PB"))
    } else {
        ((wide / 1_000_000_000_000_000_000) as u64, String::from_str("EB"))
    }
}

/// Scales a byte count to its binary band: the value in hundredths of the
/// chosen unit, and the unit name.
pub fn to_iec_bytes(bytes: u64) -> (r: (u64, String))
    ensures
        r.0 == bytes * 100 / iec_divisor(iec_exponent(bytes)),
        r.1@ == iec_unit_name(iec_exponent(bytes)),
{
    let wide: u128 = bytes as u128 * 100;
    if bytes < 0x400 {
        (bytes * 100, String::from_str("B"))
    } else if bytes < 0x100000 {
        ((wide / 0x400) as u64, String::from_str("KiB"))
    } else if bytes < 0x40000000 {
        ((wide / 0x100000) as u64, String::from_str("MiB"))
    } else if bytes < 0x10000000000 {
        ((wide / 0x40000000) as u64, String::from_str("GiB"))
    } else if bytes < 0x4000000000000 {
        ((wide / 0x10000000000) as u64, String::from_str("TiB"))
    } else if bytes < 0x1000000000000000 {
        ((wide / 0x4000000000000) as u64, String::from_str("PiB"))
    } else {
        ((wide / 0x1000000000000000) as u64, String::from_str("EiB"))
    }
}

/// Builds the full size measure for a byte count: the exact bytes together
/// with both scaled magnitudes.
pub fn to_disk_size_measure(bytes: u64) -> (m: DiskSizeMeasure)
    ensures
        m.bytes == bytes,
        m.si_value_centi == bytes * 100 / si_divisor(si_exponent(bytes)),
        m@.si_unit == si_unit_name(si_exponent(bytes)),
        m.iec_value_centi == bytes * 100 / iec_divisor(iec_exponent(bytes)),
        m@.iec_unit == iec_unit_name(iec_exponent(bytes)),
{
    let si = to_si_bytes(bytes);
    let iec = to_iec_bytes(bytes);
    DiskSizeMeasure {
        bytes,
        si_value_centi: si.0,
        si_unit: si.1,
        iec_value_centi: iec.0,
        iec_unit: iec.1,
    }
}

} // verus!
