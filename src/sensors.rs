//! The three sensors. They keep no state: each read draws a fresh value.

use rand::Rng;
use vstd::prelude::*;
use crate::decimal::{decimal_text, Decimal};
use crate::motors::answer_view;
use crate::text::str_eq;

verus! {

/// The end of the reading range, in billionths (exclusive): readings lie in
/// `[0, 100)`.
pub const READING_END: i64 = 100_000_000_000;

/// A reading, in billionths, that a sensor can report.
pub open spec fn reading_in_range(v: int) -> bool {
    0 <= v < READING_END
}

/// What a sensor whose read command is `read_command` answers to `command`
/// when `reading` is the value drawn.
pub open spec fn sensor_answer(read_command: Seq<char>, command: Seq<char>, reading: int) -> Option<
    Seq<char>,
> {
    if command == read_command {
        Some(decimal_text(reading))
    } else {
        None
    }
}

/// Relies on `rand::rng` and `Rng::random_range` of the `rand` crate: on a
/// non-empty range `low..high` the draw lies in that range.
#[verifier::external_body]
fn random_in(low: i64, high: i64) -> (r: i64)
    requires
        low < high,
    ensures
        low <= r < high,
{
    rand::rng().random_range(low..high)
}

/// A fresh reading in `[0, 100)`.
pub fn draw_reading() -> (r: Decimal)
    ensures
        reading_in_range(r.billionths as int),
{
    Decimal::from_billionths(random_in(0, READING_END))
}

/// The answer of a sensor whose read command is `read_command` to `command`,
/// when `reading` is the value drawn.
pub fn answer_reading(read_command: &str, command: &str, reading: Decimal) -> (r: Option<String>)
    ensures
        answer_view(r) == sensor_answer(read_command@, command@, reading.billionths as int),
{
    if str_eq(command, read_command) {
        Some(reading.to_text())
    } else {
        None
    }
}

/// Answers `read_command` with a fresh reading in `[0, 100)`, and any other
/// command with `None`.
fn read_if_asked(read_command: &str, command: &str) -> (r: Option<String>)
    ensures
        exists|v: int|
            reading_in_range(v) && answer_view(r) == sensor_answer(read_command@, command@, v),
{
    if str_eq(command, read_command) {
        let reading = draw_reading();
        let r = answer_reading(read_command, command, reading);
        assert(reading_in_range(reading.billionths as int) && answer_view(r) == sensor_answer(
            read_command@,
            command@,
            reading.billionths as int,
        ));
        r
    } else {
        let r = None;
        assert(reading_in_range(0) && answer_view(r) == sensor_answer(read_command@, command@, 0));
        r
    }
}

/// A simulated temperature sensor.
pub struct TemperatureSensor;

/// A simulated pressure sensor.
pub struct PressureSensor;

/// A simulated humidity sensor.
pub struct HumiditySensor;

impl TemperatureSensor {
    /// Answers `read_temperature` with a fresh reading in `[0, 100)`.
    pub fn operate(&mut self, command: &str) -> (r: Option<String>)
        ensures
            exists|v: int|
                reading_in_range(v) && answer_view(r) == sensor_answer(
                    "read_temperature"@,
                    command@,
                    v,
                ),
    {
        read_if_asked("read_temperature", command)
    }
}

impl PressureSensor {
    /// Answers `read_pressure` with a fresh reading in `[0, 100)`.
    pub fn operate(&mut self, command: &str) -> (r: Option<String>)
        ensures
            exists|v: int|
                reading_in_range(v) && answer_view(r) == sensor_answer("read_pressure"@, command@, v),
    {
        read_if_asked("read_pressure", command)
    }
}

impl HumiditySensor {
    /// Answers `read_humidity` with a fresh reading in `[0, 100)`.
    pub fn operate(&mut self, command: &str) -> (r: Option<String>)
        ensures
            exists|v: int|
                reading_in_range(v) && answer_view(r) == sensor_answer("read_humidity"@, command@, v),
    {
        read_if_asked("read_humidity", command)
    }
}

} // verus!
