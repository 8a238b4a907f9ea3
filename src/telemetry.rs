//! From a raw sensor reading to the report written to the pump.

use vstd::prelude::*;
use crate::text::{parse_u32, parse_u32_of, trim_text, trimmed};

verus! {

/// Number of bytes in a report.
pub const REPORT_LEN: usize = 10;

/// A raw reading divided by 999, keeping the low eight bits.
pub open spec fn normalized(raw: u32) -> u8 {
    ((raw / 999) % 256) as u8
}

/// The sample for a file's text: its trimmed text read as a `u32` and
/// normalized, or 0 where it is no such number.
pub open spec fn sample_of_text(s: Seq<char>) -> u8 {
    match parse_u32_of(trimmed(s)) {
        Some(raw) => normalized(raw),
        None => 0,
    }
}

/// The report carrying `sample`: byte 1 holds it, every other byte is zero.
pub open spec fn report_of(sample: u8) -> Seq<u8> {
    seq![0u8, sample, 0u8, 0u8, 0u8, 0u8, 0u8, 0u8, 0u8, 0u8]
}

/// Converts a raw reading to a one-byte sample: `raw / 999`, truncated to
/// its low eight bits as a narrowing cast does.
pub fn normalize(raw: u32) -> (r: u8)
    ensures
        r == normalized(raw),
        r as int == (raw as int / 999) % 256,
{
    ((raw / 999) % 256) as u8
}

/// The raw reading in the text of the sensor file: the trimmed text read as
/// a `u32`, or `None` where it is no such number.
pub fn raw_reading(s: &str) -> (r: Option<u32>)
    ensures
        r == parse_u32_of(trimmed(s@)),
{
    parse_u32(trim_text(s))
}

/// The sample for the text of the sensor file.
pub fn sample_from_text(s: &str) -> (r: u8)
    ensures
        r == sample_of_text(s@),
{
    match raw_reading(s) {
        Some(raw) => normalize(raw),
        None => 0,
    }
}

/// The sample for one read of the sensor file; `None` stands for a failed read.
pub fn get_cpu_temp(content: Option<&str>) -> (r: u8)
    ensures
        r == match content {
            Some(s) => sample_of_text(s@),
            None => 0u8,
        },
{
    match content {
        Some(s) => sample_from_text(s),
        None => 0,
    }
}

/// The report that carries `temp` to the pump.
pub fn temp_report(temp: u8) -> (r: [u8; REPORT_LEN])
    ensures
        r@ == report_of(temp),
{
    let mut report: [u8; REPORT_LEN] = [0u8; REPORT_LEN];
    report[1] = temp;
    assert(report@ =~= report_of(temp));
    report
}

} // verus!
