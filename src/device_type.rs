//! The kinds of simulated peripheral and their names.

use vstd::prelude::*;
use crate::text::str_eq;

verus! {

/// The kind of peripheral that a device simulates, chosen once at start.
#[derive(Clone, Copy, Debug, PartialEq, Eq, Structural)]
pub enum DeviceType {
    TemperatureSensor,
    PressureSensor,
    HumiditySensor,
    DcMotor,
    StepperMotor,
}

/// The configuration name of each kind.
pub open spec fn kind_name(k: DeviceType) -> Seq<char> {
    match k {
        DeviceType::TemperatureSensor => "temperature_sensor"@,
        DeviceType::PressureSensor => "pressure_sensor"@,
        DeviceType::HumiditySensor => "humidity_sensor"@,
        DeviceType::DcMotor => "dc_motor"@,
        DeviceType::StepperMotor => "stepper_motor"@,
    }
}

/// The kind that a configuration name stands for, if any.
pub open spec fn kind_named(s: Seq<char>) -> Option<DeviceType> {
    if s == "temperature_sensor"@ {
        Some(DeviceType::TemperatureSensor)
    } else if s == "pressure_sensor"@ {
        Some(DeviceType::PressureSensor)
    } else if s == "humidity_sensor"@ {
        Some(DeviceType::HumiditySensor)
    } else if s == "dc_motor"@ {
        Some(DeviceType::DcMotor)
    } else if s == "stepper_motor"@ {
        Some(DeviceType::StepperMotor)
    } else {
        None
    }
}

/// Reading the name of a kind gives that kind back.
pub proof fn lemma_kind_name_round_trip(k: DeviceType)
    ensures
        kind_named(kind_name(k)) == Some(k),
{
    reveal_strlit("temperature_sensor");
    reveal_strlit("pressure_sensor");
    reveal_strlit("humidity_sensor");
    reveal_strlit("dc_motor");
    reveal_strlit("stepper_motor");
    assert("temperature_sensor"@[0] != "pressure_sensor"@[0]);
    assert("temperature_sensor"@[0] != "humidity_sensor"@[0]);
    assert("temperature_sensor"@[0] != "dc_motor"@[0]);
    assert("temperature_sensor"@[0] != "stepper_motor"@[0]);
    assert("pressure_sensor"@[0] != "humidity_sensor"@[0]);
    assert("pressure_sensor"@[0] != "dc_motor"@[0]);
    assert("pressure_sensor"@[0] != "stepper_motor"@[0]);
    assert("humidity_sensor"@[0] != "dc_motor"@[0]);
    assert("humidity_sensor"@[0] != "stepper_motor"@[0]);
    assert("dc_motor"@[0] != "stepper_motor"@[0]);
}

impl DeviceType {
    /// A copy of this kind.
    pub fn new(&self) -> (r: DeviceType)
        ensures
            r == *self,
    {
        match self {
            DeviceType::TemperatureSensor => DeviceType::TemperatureSensor,
            DeviceType::PressureSensor => DeviceType::PressureSensor,
            DeviceType::HumiditySensor => DeviceType::HumiditySensor,
            DeviceType::DcMotor => DeviceType::DcMotor,
            DeviceType::StepperMotor => DeviceType::StepperMotor,
        }
    }

    /// The configuration name of this kind.
    pub fn to_string(&self) -> (r: String)
        ensures
            r@ == kind_name(*self),
    {
        match self {
            DeviceType::TemperatureSensor => String::from_str("temperature_sensor"),
            DeviceType::PressureSensor => String::from_str("pressure_sensor"),
            DeviceType::HumiditySensor => String::from_str("humidity_sensor"),
            DeviceType::DcMotor => String::from_str("dc_motor"),
            DeviceType::StepperMotor => String::from_str("stepper_motor"),
        }
    }

    /// The kind that `device_type` names, or `None` for any other text.
    pub fn from_str(device_type: &str) -> (r: Option<DeviceType>)
        ensures
            r == kind_named(device_type@),
    {
        if str_eq(device_type, "temperature_sensor") {
            Some(DeviceType::TemperatureSensor)
        } else if str_eq(device_type, "pressure_sensor") {
            Some(DeviceType::PressureSensor)
        } else if str_eq(device_type, "humidity_sensor") {
            Some(DeviceType::HumiditySensor)
        } else if str_eq(device_type, "dc_motor") {
            Some(DeviceType::DcMotor)
        } else if str_eq(device_type, "stepper_motor") {
            Some(DeviceType::StepperMotor)
        } else {
            None
        }
    }
}

} // verus!
