//! The two motors: a DC motor with a speed and a direction, and a stepper
//! motor that also keeps an acceleration and a location.

use vstd::prelude::*;
use crate::decimal::{decimal_text, numeral_value, Decimal, UNIT};
use crate::text::{lower_of, lowercase, str_eq};

verus! {

/// The top of the speed range, in billionths.
pub const MAX_SPEED: i64 = 100_000_000_000;

/// A speed, in billionths, that a motor accepts: from 0 to 100 inclusive.
pub open spec fn speed_in_range(v: int) -> bool {
    0 <= v <= MAX_SPEED
}

/// The word that reports a direction.
pub open spec fn direction_text(forward: bool) -> Seq<char> {
    if forward {
        "forward"@
    } else {
        "backward"@
    }
}

/// The direction that a lower-cased word names, if any.
pub open spec fn direction_named(lowered: Seq<char>) -> Option<bool> {
    if lowered == "forward"@ {
        Some(true)
    } else if lowered == "backward"@ {
        Some(false)
    } else {
        None
    }
}

/// The speed that a `set_speed` parameter asks for, if it is a numeral in range.
pub open spec fn speed_request(parameter: Seq<char>) -> Option<int> {
    match numeral_value(parameter) {
        Some(v) => if speed_in_range(v) { Some(v) } else { None },
        None => None,
    }
}

/// The direction that a `set_direction` parameter asks for, in any letter case.
pub open spec fn direction_request(parameter: Seq<char>) -> Option<bool> {
    direction_named(lower_of(parameter))
}

/// The state of a DC motor, speed in billionths.
pub struct DcMotorState {
    pub speed: int,
    pub forward: bool,
}

/// What a DC motor does with a command: its next state and its answer.
pub open spec fn dc_motor_step(s: DcMotorState, command: Seq<char>, parameter: Seq<char>) -> (
    DcMotorState,
    Option<Seq<char>>,
) {
    if command == "get_speed"@ {
        (s, Some(decimal_text(s.speed)))
    } else if command == "set_speed"@ {
        match speed_request(parameter) {
            Some(v) => (DcMotorState { speed: v, ..s }, Some(decimal_text(v))),
            None => (s, None),
        }
    } else if command == "get_direction"@ {
        (s, Some(direction_text(s.forward)))
    } else if command == "set_direction"@ {
        match direction_request(parameter) {
            Some(f) => (DcMotorState { forward: f, ..s }, Some(direction_text(f))),
            None => (s, None),
        }
    } else {
        (s, None)
    }
}

/// The text of an answer, if there is one.
pub open spec fn answer_view(r: Option<String>) -> Option<Seq<char>> {
    match r {
        Some(t) => Some(t@),
        None => None,
    }
}

/// Reads the value that a `set_speed` parameter asks for.
pub fn speed_setting(parameter: &str) -> (r: Option<Decimal>)
    ensures
        match r {
            Some(d) => speed_request(parameter@) == Some(d.billionths as int),
            None => speed_request(parameter@) is None,
        },
{
    match Decimal::parse(parameter) {
        Some(d) => {
            if 0 <= d.billionths && d.billionths <= MAX_SPEED {
                Some(d)
            } else {
                None
            }
        },
        None => None,
    }
}

/// The direction that an already lower-cased word names.
pub fn direction_from_lowered(lowered: &str) -> (r: Option<bool>)
    ensures
        r == direction_named(lowered@),
{
    if str_eq(lowered, "forward") {
        Some(true)
    } else if str_eq(lowered, "backward") {
        Some(false)
    } else {
        None
    }
}

/// Reads the direction that a `set_direction` parameter asks for.
pub fn direction_setting(parameter: &str) -> (r: Option<bool>)
    ensures
        r == direction_request(parameter@),
{
    let lowered = lowercase(parameter);
    direction_from_lowered(lowered.as_str())
}

/// The word that reports `forward`.
pub fn direction_word(forward: bool) -> (r: String)
    ensures
        r@ == direction_text(forward),
{
    if forward {
        String::from_str("forward")
    } else {
        String::from_str("backward")
    }
}

/// A simulated DC motor.
pub struct DcMotor {
    speed: Decimal,
    direction: bool,
}

impl View for DcMotor {
    type V = DcMotorState;

    closed spec fn view(&self) -> DcMotorState {
        DcMotorState { speed: self.speed.billionths as int, forward: self.direction }
    }
}

impl DcMotor {
    /// The motor keeps its speed within range.
    pub open spec fn wf(&self) -> bool {
        speed_in_range(self@.speed)
    }

    /// A motor at rest, turned forward.
    pub fn new() -> (r: DcMotor)
        ensures
            r@ == (DcMotorState { speed: 0, forward: true }),
            r.wf(),
    {
        DcMotor { speed: Decimal::zero(), direction: true }
    }

    /// Runs one command: `get_speed`, `set_speed`, `get_direction` or
    /// `set_direction`. A rejected parameter or another command gives `None`
    /// and leaves the motor as it was.
    pub fn operate(&mut self, command: &str, parameter: &str) -> (r: Option<String>)
        requires
            old(self).wf(),
        ensures
            final(self).wf(),
            (final(self)@, answer_view(r)) == dc_motor_step(old(self)@, command@, parameter@),
    {
        if str_eq(command, "get_speed") {
            Some(self.speed.to_text())
        } else if str_eq(command, "set_speed") {
            match speed_setting(parameter) {
                Some(d) => {
                    self.speed = d;
                    Some(d.to_text())
                },
                None => None,
            }
        } else if str_eq(command, "get_direction") {
            Some(direction_word(self.direction))
        } else if str_eq(command, "set_direction") {
            match direction_setting(parameter) {
                Some(f) => {
                    self.direction = f;
                    Some(direction_word(f))
                },
                None => None,
            }
        } else {
            None
        }
    }
}

/// The state of a stepper motor; speed, acceleration and location in billionths.
pub struct StepperMotorState {
    pub speed: int,
    pub acceleration: int,
    pub forward: bool,
    pub location: int,
}

/// A location, in billionths, that a stepper motor can hold.
pub open spec fn location_fits(v: int) -> bool {
    i64::MIN <= v <= i64::MAX
}

/// The location that a `set_location_relative` parameter moves to from `from`,
/// if the parameter is a numeral and the sum can be held.
pub open spec fn relative_target(from: int, parameter: Seq<char>) -> Option<int> {
    match numeral_value(parameter) {
        Some(d) => if location_fits(from + d) { Some(from + d) } else { None },
        None => None,
    }
}

/// What a stepper motor does with a command: its next state and its answer.
pub open spec fn stepper_motor_step(
    s: StepperMotorState,
    command: Seq<char>,
    parameter: Seq<char>,
) -> (StepperMotorState, Option<Seq<char>>) {
    if command == "get_speed"@ {
        (s, Some(decimal_text(s.speed)))
    } else if command == "set_speed"@ {
        match speed_request(parameter) {
            Some(v) => (StepperMotorState { speed: v, ..s }, Some(decimal_text(v))),
            None => (s, None),
        }
    } else if command == "get_acceleration"@ {
        (s, Some(decimal_text(s.acceleration)))
    } else if command == "set_acceleration"@ {
        match numeral_value(parameter) {
            Some(v) => (StepperMotorState { acceleration: v, ..s }, Some(decimal_text(v))),
            None => (s, None),
        }
    } else if command == "get_direction"@ {
        (s, Some(direction_text(s.forward)))
    } else if command == "set_direction"@ {
        match direction_request(parameter) {
            Some(f) => (StepperMotorState { forward: f, ..s }, Some(direction_text(f))),
            None => (s, None),
        }
    } else if command == "get_location"@ {
        (s, Some(decimal_text(s.location)))
    } else if command == "set_location_relative"@ {
        match relative_target(s.location, parameter) {
            Some(v) => (StepperMotorState { location: v, ..s }, Some(decimal_text(v))),
            None => (s, None),
        }
    } else if command == "set_location_absolute"@ {
        match numeral_value(parameter) {
            Some(v) => (StepperMotorState { location: v, ..s }, Some(decimal_text(v))),
            None => (s, None),
        }
    } else {
        (s, None)
    }
}

/// A simulated stepper motor.
pub struct StepperMotor {
    speed: Decimal,
    acceleration: Decimal,
    direction: bool,
    location: Decimal,
}

impl View for StepperMotor {
    type V = StepperMotorState;

    closed spec fn view(&self) -> StepperMotorState {
        StepperMotorState {
            speed: self.speed.billionths as int,
            acceleration: self.acceleration.billionths as int,
            forward: self.direction,
            location: self.location.billionths as int,
        }
    }
}

impl StepperMotor {
    /// The motor keeps its speed within range.
    pub open spec fn wf(&self) -> bool {
        speed_in_range(self@.speed)
    }

    /// A motor at rest at location zero, turned forward, with no acceleration.
    pub fn new() -> (r: StepperMotor)
        ensures
            r@ == (StepperMotorState { speed: 0, acceleration: 0, forward: true, location: 0 }),
            r.wf(),
    {
        StepperMotor {
            speed: Decimal::zero(),
            acceleration: Decimal::zero(),
            direction: true,
            location: Decimal::zero(),
        }
    }

    /// Runs one command: the DC motor's four, `get_acceleration`,
    /// `set_acceleration`, `get_location`, `set_location_relative` and
    /// `set_location_absolute`. A rejected parameter or another command gives
    /// `None` and leaves the motor as it was.
    pub fn operate(&mut self, command: &str, parameter: &str) -> (r: Option<String>)
        requires
            old(self).wf(),
        ensures
            final(self).wf(),
            (final(self)@, answer_view(r)) == stepper_motor_step(old(self)@, command@, parameter@),
    {
        if str_eq(command, "get_speed") {
            Some(self.speed.to_text())
        } else if str_eq(command, "set_speed") {
            match speed_setting(parameter) {
                Some(d) => {
                    self.speed = d;
                    Some(d.to_text())
                },
                None => None,
            }
        } else if str_eq(command, "get_acceleration") {
            Some(self.acceleration.to_text())
        } else if str_eq(command, "set_acceleration") {
            match Decimal::parse(parameter) {
                Some(d) => {
                    self.acceleration = d;
                    Some(d.to_text())
                },
                None => None,
            }
        } else if str_eq(command, "get_direction") {
            Some(direction_word(self.direction))
        } else if str_eq(command, "set_direction") {
            match direction_setting(parameter) {
                Some(f) => {
                    self.direction = f;
                    Some(direction_word(f))
                },
                None => None,
            }
        } else if str_eq(command, "get_location") {
            Some(self.location.to_text())
        } else if str_eq(command, "set_location_relative") {
            match Decimal::parse(parameter) {
                Some(d) => {
                    match self.location.billionths.checked_add(d.billionths) {
                        Some(v) => {
                            self.location = Decimal::from_billionths(v);
                            Some(self.location.to_text())
                        },
                        None => None,
                    }
                },
                None => None,
            }
        } else if str_eq(command, "set_location_absolute") {
            match Decimal::parse(parameter) {
                Some(d) => {
                    self.location = d;
                    Some(d.to_text())
                },
                None => None,
            }
        } else {
            None
        }
    }
}

proof fn lemma_command_names_differ()
    ensures
        "set_speed"@ != "get_speed"@,
        "set_direction"@ != "get_direction"@,
        "set_direction"@ != "get_speed"@,
        "set_direction"@ != "set_speed"@,
        "get_direction"@ != "get_speed"@,
        "get_direction"@ != "set_speed"@,
        "get_location"@ != "get_speed"@,
        "get_location"@ != "set_speed"@,
        "get_location"@ != "get_acceleration"@,
        "get_location"@ != "set_acceleration"@,
        "get_location"@ != "get_direction"@,
        "get_location"@ != "set_direction"@,
        "set_location_relative"@ != "get_speed"@,
        "set_location_relative"@ != "set_speed"@,
        "set_location_relative"@ != "get_acceleration"@,
        "set_location_relative"@ != "set_acceleration"@,
        "set_location_relative"@ != "get_direction"@,
        "set_location_relative"@ != "set_direction"@,
        "set_location_relative"@ != "get_location"@,
        "set_location_absolute"@ != "get_speed"@,
        "set_location_absolute"@ != "set_speed"@,
        "set_location_absolute"@ != "get_acceleration"@,
        "set_location_absolute"@ != "set_acceleration"@,
        "set_location_absolute"@ != "get_direction"@,
        "set_location_absolute"@ != "set_direction"@,
        "set_location_absolute"@ != "get_location"@,
        "set_location_absolute"@ != "set_location_relative"@,
        "get_acceleration"@ != "get_speed"@,
        "get_acceleration"@ != "set_speed"@,
        "set_acceleration"@ != "get_speed"@,
        "set_acceleration"@ != "set_speed"@,
        "set_acceleration"@ != "get_acceleration"@,
        "get_direction"@ != "get_acceleration"@,
        "get_direction"@ != "set_acceleration"@,
        "set_direction"@ != "get_acceleration"@,
        "set_direction"@ != "set_acceleration"@,
{
    reveal_strlit("get_speed");
    reveal_strlit("set_speed");
    reveal_strlit("get_direction");
    reveal_strlit("set_direction");
    reveal_strlit("get_acceleration");
    reveal_strlit("set_acceleration");
    reveal_strlit("get_location");
    reveal_strlit("set_location_relative");
    reveal_strlit("set_location_absolute");
    assert("get_speed"@.len() == 9);
    assert("set_speed"@.len() == 9);
    assert("get_direction"@.len() == 13);
    assert("set_direction"@.len() == 13);
    assert("get_acceleration"@.len() == 16);
    assert("set_acceleration"@.len() == 16);
    assert("get_location"@.len() == 12);
    assert("set_location_relative"@.len() == 21);
    assert("set_location_absolute"@.len() == 21);
    assert("set_speed"@[0] != "get_speed"@[0]);
    assert("set_direction"@[0] != "get_direction"@[0]);
    assert("set_acceleration"@[0] != "get_acceleration"@[0]);
    assert("set_location_absolute"@[13] != "set_location_relative"@[13]);
}

/// Setting a DC motor's speed to a numeral in range and then reading the speed
/// gives that value back; any other `set_speed` parameter gives no answer,
/// changes nothing, and the speed read afterwards is the one from before.
pub proof fn law_dc_motor_set_then_get_speed(s: DcMotorState, parameter: Seq<char>, unused: Seq<char>)
    ensures
        ({
            let (s1, r1) = dc_motor_step(s, "set_speed"@, parameter);
            let (s2, r2) = dc_motor_step(s1, "get_speed"@, unused);
            match speed_request(parameter) {
                Some(v) => r1 == Some(decimal_text(v)) && r2 == Some(decimal_text(v)),
                None => r1 is None && s1 == s && r2 == Some(decimal_text(s.speed)),
            }
        }),
{
    lemma_command_names_differ();
}

/// A speed parameter is accepted exactly when it is a numeral from 0 to 100.
pub proof fn law_speed_request_range(parameter: Seq<char>)
    ensures
        speed_request(parameter) is Some <==> (numeral_value(parameter) is Some
            && 0 <= numeral_value(parameter)->0 <= 100 * UNIT),
{
}

/// Setting a DC motor's direction to a word that names one and then reading the
/// direction reports that one; any other word gives no answer and changes
/// nothing.
pub proof fn law_dc_motor_set_then_get_direction(
    s: DcMotorState,
    parameter: Seq<char>,
    unused: Seq<char>,
)
    ensures
        ({
            let (s1, r1) = dc_motor_step(s, "set_direction"@, parameter);
            let (s2, r2) = dc_motor_step(s1, "get_direction"@, unused);
            match direction_request(parameter) {
                Some(f) => r1 == Some(direction_text(f)) && r2 == Some(direction_text(f)),
                None => r1 is None && s1 == s && r2 == Some(direction_text(s.forward)),
            }
        }),
{
    lemma_command_names_differ();
}

/// The stepper motor answers `set_direction` and `get_direction` as the DC
/// motor does.
pub proof fn law_stepper_motor_set_then_get_direction(
    s: StepperMotorState,
    parameter: Seq<char>,
    unused: Seq<char>,
)
    ensures
        ({
            let (s1, r1) = stepper_motor_step(s, "set_direction"@, parameter);
            let (s2, r2) = stepper_motor_step(s1, "get_direction"@, unused);
            match direction_request(parameter) {
                Some(f) => r1 == Some(direction_text(f)) && r2 == Some(direction_text(f)),
                None => r1 is None && s1 == s && r2 == Some(direction_text(s.forward)),
            }
        }),
{
    lemma_command_names_differ();
}

/// Words that name a direction in lower case are read as that direction.
pub proof fn law_direction_words()
    ensures
        direction_named("forward"@) == Some(true),
        direction_named("backward"@) == Some(false),
{
    reveal_strlit("forward");
    reveal_strlit("backward");
    assert("forward"@.len() != "backward"@.len());
}

/// Moving a stepper motor by a numeral `d` and then reading its location gives
/// the old location plus `d`, wherever that sum can be held; setting the
/// location outright and reading it gives exactly the value set.
pub proof fn law_stepper_motor_location(
    s: StepperMotorState,
    parameter: Seq<char>,
    unused: Seq<char>,
)
    ensures
        ({
            let (s1, r1) = stepper_motor_step(s, "set_location_relative"@, parameter);
            let (s2, r2) = stepper_motor_step(s1, "get_location"@, unused);
            match numeral_value(parameter) {
                Some(d) => location_fits(s.location + d) ==> r1 == Some(decimal_text(s.location + d))
                    && r2 == Some(decimal_text(s.location + d)),
                None => r1 is None && s1 == s,
            }
        }),
        ({
            let (s1, r1) = stepper_motor_step(s, "set_location_absolute"@, parameter);
            let (s2, r2) = stepper_motor_step(s1, "get_location"@, unused);
            match numeral_value(parameter) {
                Some(v) => r1 == Some(decimal_text(v)) && r2 == Some(decimal_text(v)),
                None => r1 is None && s1 == s,
            }
        }),
{
    lemma_command_names_differ();
}

} // verus!
