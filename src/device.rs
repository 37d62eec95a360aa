//! A device: one peripheral of a fixed kind, with a name and a description,
//! and the dispatcher that runs commands against it.

use vstd::prelude::*;
use crate::device_type::DeviceType;
use crate::motors::{
    answer_view, dc_motor_step, stepper_motor_step, DcMotor, DcMotorState, StepperMotor,
    StepperMotorState, speed_in_range,
};
use crate::sensors::{
    reading_in_range, sensor_answer, HumiditySensor, PressureSensor, TemperatureSensor,
};
use crate::text::str_eq;

verus! {

/// The answer to `get_status`.
pub open spec fn status_text() -> Seq<char> {
    "Rust Simulation"@
}

/// The answer to `get_version`.
pub open spec fn version_text() -> Seq<char> {
    "1.0.0"@
}

/// The peripheral that a device drives; exactly one kind is present.
pub enum Peripheral {
    TemperatureSensor(TemperatureSensor),
    PressureSensor(PressureSensor),
    HumiditySensor(HumiditySensor),
    DcMotor(DcMotor),
    StepperMotor(StepperMotor),
}

/// The state of a peripheral: sensors have none.
pub enum PeripheralState {
    TemperatureSensor,
    PressureSensor,
    HumiditySensor,
    DcMotor(DcMotorState),
    StepperMotor(StepperMotorState),
}

/// The state of a device.
pub struct DeviceState {
    pub peripheral: PeripheralState,
    pub name: Seq<char>,
    pub description: Seq<char>,
}

/// The kind of a peripheral state.
pub open spec fn state_kind(p: PeripheralState) -> DeviceType {
    match p {
        PeripheralState::TemperatureSensor => DeviceType::TemperatureSensor,
        PeripheralState::PressureSensor => DeviceType::PressureSensor,
        PeripheralState::HumiditySensor => DeviceType::HumiditySensor,
        PeripheralState::DcMotor(_) => DeviceType::DcMotor,
        PeripheralState::StepperMotor(_) => DeviceType::StepperMotor,
    }
}

/// The state in which a peripheral of kind `k` starts.
pub open spec fn initial_peripheral(k: DeviceType) -> PeripheralState {
    match k {
        DeviceType::TemperatureSensor => PeripheralState::TemperatureSensor,
        DeviceType::PressureSensor => PeripheralState::PressureSensor,
        DeviceType::HumiditySensor => PeripheralState::HumiditySensor,
        DeviceType::DcMotor => PeripheralState::DcMotor(DcMotorState { speed: 0, forward: true }),
        DeviceType::StepperMotor => PeripheralState::StepperMotor(
            StepperMotorState { speed: 0, acceleration: 0, forward: true, location: 0 },
        ),
    }
}

/// Motor speeds lie within range.
pub open spec fn peripheral_ok(p: PeripheralState) -> bool {
    match p {
        PeripheralState::DcMotor(m) => speed_in_range(m.speed),
        PeripheralState::StepperMotor(m) => speed_in_range(m.speed),
        _ => true,
    }
}

/// The commands that every device answers.
pub open spec fn shared_command(command: Seq<char>) -> bool {
    command == "get_status"@ || command == "get_version"@ || command == "set_name"@ || command
        == "set_description"@
}

/// The commands that a device of kind `k` answers besides the shared ones.
pub open spec fn kind_command(k: DeviceType, command: Seq<char>) -> bool {
    match k {
        DeviceType::TemperatureSensor => command == "read_temperature"@,
        DeviceType::PressureSensor => command == "read_pressure"@,
        DeviceType::HumiditySensor => command == "read_humidity"@,
        DeviceType::DcMotor => command == "get_speed"@ || command == "set_speed"@ || command
            == "get_direction"@ || command == "set_direction"@,
        DeviceType::StepperMotor => command == "get_speed"@ || command == "set_speed"@ || command
            == "get_direction"@ || command == "set_direction"@ || command == "get_acceleration"@
            || command == "set_acceleration"@ || command == "get_location"@ || command
            == "set_location_relative"@ || command == "set_location_absolute"@,
    }
}

/// What a device does with a command: its next state and its answer, when
/// `reading` is the value that a sensor draws.
pub open spec fn device_step(d: DeviceState, command: Seq<char>, parameter: Seq<char>, reading: int) -> (
    DeviceState,
    Option<Seq<char>>,
) {
    if command == "get_status"@ {
        (d, Some(status_text()))
    } else if command == "get_version"@ {
        (d, Some(version_text()))
    } else if command == "set_name"@ {
        (DeviceState { name: parameter, ..d }, Some(parameter))
    } else if command == "set_description"@ {
        (DeviceState { description: parameter, ..d }, Some(parameter))
    } else {
        match d.peripheral {
            PeripheralState::TemperatureSensor => (
                d,
                sensor_answer("read_temperature"@, command, reading),
            ),
            PeripheralState::PressureSensor => (d, sensor_answer("read_pressure"@, command, reading)),
            PeripheralState::HumiditySensor => (d, sensor_answer("read_humidity"@, command, reading)),
            PeripheralState::DcMotor(m) => {
                let (m2, r) = dc_motor_step(m, command, parameter);
                (DeviceState { peripheral: PeripheralState::DcMotor(m2), ..d }, r)
            },
            PeripheralState::StepperMotor(m) => {
                let (m2, r) = stepper_motor_step(m, command, parameter);
                (DeviceState { peripheral: PeripheralState::StepperMotor(m2), ..d }, r)
            },
        }
    }
}

/// The field of the stored device record that a metadata command rewrites.
pub open spec fn metadata_key(command: Seq<char>) -> Option<Seq<char>> {
    if command == "set_name"@ {
        Some("name"@)
    } else if command == "set_description"@ {
        Some("description"@)
    } else {
        None
    }
}

/// A command that a device of its kind does not know gets no answer, and the
/// device is left as it was, on every kind of device.
pub proof fn law_unknown_command(
    d: DeviceState,
    command: Seq<char>,
    parameter: Seq<char>,
    reading: int,
)
    requires
        !shared_command(command),
        !kind_command(state_kind(d.peripheral), command),
    ensures
        device_step(d, command, parameter, reading) == (d, None::<Seq<char>>),
{
}

/// A simulated device.
pub struct Device {
    peripheral: Peripheral,
    pub name: String,
    pub description: String,
}

impl View for Device {
    type V = DeviceState;

    closed spec fn view(&self) -> DeviceState {
        DeviceState {
            peripheral: match self.peripheral {
                Peripheral::TemperatureSensor(_) => PeripheralState::TemperatureSensor,
                Peripheral::PressureSensor(_) => PeripheralState::PressureSensor,
                Peripheral::HumiditySensor(_) => PeripheralState::HumiditySensor,
                Peripheral::DcMotor(m) => PeripheralState::DcMotor(m@),
                Peripheral::StepperMotor(m) => PeripheralState::StepperMotor(m@),
            },
            name: self.name@,
            description: self.description@,
        }
    }
}

impl Device {
    /// The peripheral's state is consistent.
    pub open spec fn wf(&self) -> bool {
        peripheral_ok(self@.peripheral)
    }

    /// A device of kind `device_type`, its peripheral in its starting state.
    pub fn new(device_type: DeviceType, name: String, description: String) -> (r: Device)
        ensures
            r@ == (DeviceState {
                peripheral: initial_peripheral(device_type),
                name: name@,
                description: description@,
            }),
            r.wf(),
    {
        let peripheral = match device_type {
            DeviceType::TemperatureSensor => Peripheral::TemperatureSensor(TemperatureSensor),
            DeviceType::PressureSensor => Peripheral::PressureSensor(PressureSensor),
            DeviceType::HumiditySensor => Peripheral::HumiditySensor(HumiditySensor),
            DeviceType::DcMotor => Peripheral::DcMotor(DcMotor::new()),
            DeviceType::StepperMotor => Peripheral::StepperMotor(StepperMotor::new()),
        };
        Device { peripheral, name, description }
    }

    /// The kind of this device.
    pub fn device_type(&self) -> (r: DeviceType)
        ensures
            r == state_kind(self@.peripheral),
    {
        match &self.peripheral {
            Peripheral::TemperatureSensor(_) => DeviceType::TemperatureSensor,
            Peripheral::PressureSensor(_) => DeviceType::PressureSensor,
            Peripheral::HumiditySensor(_) => DeviceType::HumiditySensor,
            Peripheral::DcMotor(_) => DeviceType::DcMotor,
            Peripheral::StepperMotor(_) => DeviceType::StepperMotor,
        }
    }

    /// Runs one command. `get_status`, `get_version`, `set_name` and
    /// `set_description` are answered by every device; the rest go to the
    /// peripheral. `None` stands for an unknown command or a rejected
    /// parameter, and the device is then unchanged.
    pub fn operate(&mut self, command: &str, parameter: &str) -> (r: Option<String>)
        requires
            old(self).wf(),
        ensures
            final(self).wf(),
            exists|v: int|
                reading_in_range(v) && (final(self)@, answer_view(r)) == device_step(
                    old(self)@,
                    command@,
                    parameter@,
                    v,
                ),
    {
        if str_eq(command, "get_status") {
            let r = Some(String::from_str("Rust Simulation"));
            assert(reading_in_range(0) && (self@, answer_view(r)) == device_step(
                old(self)@,
                command@,
                parameter@,
                0,
            ));
            return r;
        }
        if str_eq(command, "get_version") {
            let r = Some(String::from_str("1.0.0"));
            assert(reading_in_range(0) && (self@, answer_view(r)) == device_step(
                old(self)@,
                command@,
                parameter@,
                0,
            ));
            return r;
        }
        if str_eq(command, "set_name") {
            self.name = String::from_str(parameter);
            let r = Some(String::from_str(parameter));
            assert(reading_in_range(0) && (self@, answer_view(r)) == device_step(
                old(self)@,
                command@,
                parameter@,
                0,
            ));
            return r;
        }
        if str_eq(command, "set_description") {
            self.description = String::from_str(parameter);
            let r = Some(String::from_str(parameter));
            assert(reading_in_range(0) && (self@, answer_view(r)) == device_step(
                old(self)@,
                command@,
                parameter@,
                0,
            ));
            return r;
        }
        match &mut self.peripheral {
            Peripheral::TemperatureSensor(s) => s.operate(command),
            Peripheral::PressureSensor(s) => s.operate(command),
            Peripheral::HumiditySensor(s) => s.operate(command),
            Peripheral::DcMotor(m) => {
                let r = m.operate(command, parameter);
                assert(reading_in_range(0) && (self@, answer_view(r)) == device_step(
                    old(self)@,
                    command@,
                    parameter@,
                    0,
                ));
                r
            },
            Peripheral::StepperMotor(m) => {
                let r = m.operate(command, parameter);
                assert(reading_in_range(0) && (self@, answer_view(r)) == device_step(
                    old(self)@,
                    command@,
                    parameter@,
                    0,
                ));
                r
            },
        }
    }
}

/// The field of the stored device record that `command` rewrites, if it is a
/// metadata command (`set_name` or `set_description`).
pub fn metadata_field(command: &str) -> (r: Option<String>)
    ensures
        answer_view(r) == metadata_key(command@),
{
    if str_eq(command, "set_name") {
        Some(String::from_str("name"))
    } else if str_eq(command, "set_description") {
        Some(String::from_str("description"))
    } else {
        None
    }
}

} // verus!
