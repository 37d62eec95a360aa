use sim_device::motors::{DcMotor, StepperMotor};

fn speed_of(m: &mut DcMotor) -> String {
    m.operate("get_speed", "").unwrap()
}

#[test]
fn dc_motor_starts_at_rest_forward() {
    let mut m = DcMotor::new();
    assert_eq!(speed_of(&mut m), "0");
    assert_eq!(m.operate("get_direction", ""), Some("forward".to_string()));
}

#[test]
fn dc_motor_speed_in_range_is_kept() {
    let mut m = DcMotor::new();
    assert_eq!(m.operate("set_speed", "42.5"), Some("42.5".to_string()));
    assert_eq!(speed_of(&mut m), "42.5");
    assert_eq!(m.operate("set_speed", "100"), Some("100".to_string()));
    assert_eq!(speed_of(&mut m), "100");
    assert_eq!(m.operate("set_speed", "0"), Some("0".to_string()));
    assert_eq!(speed_of(&mut m), "0");
}

#[test]
fn dc_motor_speed_out_of_range_is_rejected() {
    let mut m = DcMotor::new();
    m.operate("set_speed", "12");
    assert_eq!(m.operate("set_speed", "150"), None);
    assert_eq!(m.operate("set_speed", "100.5"), None);
    assert_eq!(m.operate("set_speed", "-1"), None);
    assert_eq!(m.operate("set_speed", "fast"), None);
    assert_eq!(speed_of(&mut m), "12");
}

#[test]
fn dc_motor_direction_any_case() {
    let mut m = DcMotor::new();
    assert_eq!(m.operate("set_direction", "BACKWARD"), Some("backward".to_string()));
    assert_eq!(m.operate("get_direction", ""), Some("backward".to_string()));
    assert_eq!(m.operate("set_direction", "Forward"), Some("forward".to_string()));
    assert_eq!(m.operate("get_direction", ""), Some("forward".to_string()));
}

#[test]
fn dc_motor_direction_other_word_rejected() {
    let mut m = DcMotor::new();
    m.operate("set_direction", "backward");
    assert_eq!(m.operate("set_direction", "sideways"), None);
    assert_eq!(m.operate("set_direction", "true"), None);
    assert_eq!(m.operate("get_direction", ""), Some("backward".to_string()));
}

#[test]
fn dc_motor_unknown_command() {
    let mut m = DcMotor::new();
    assert_eq!(m.operate("get_location", ""), None);
    assert_eq!(m.operate("spin", "1"), None);
}

#[test]
fn stepper_motor_location_relative_accumulates() {
    let mut m = StepperMotor::new();
    assert_eq!(m.operate("get_location", ""), Some("0".to_string()));
    assert_eq!(m.operate("set_location_relative", "10"), Some("10".to_string()));
    assert_eq!(m.operate("set_location_relative", "-2.5"), Some("7.5".to_string()));
    assert_eq!(m.operate("get_location", ""), Some("7.5".to_string()));
    assert_eq!(m.operate("set_location_relative", "0.1"), Some("7.6".to_string()));
    assert_eq!(m.operate("set_location_relative", "0.2"), Some("7.8".to_string()));
}

#[test]
fn stepper_motor_location_absolute() {
    let mut m = StepperMotor::new();
    m.operate("set_location_relative", "3");
    assert_eq!(m.operate("set_location_absolute", "-20.25"), Some("-20.25".to_string()));
    assert_eq!(m.operate("get_location", ""), Some("-20.25".to_string()));
    assert_eq!(m.operate("set_location_absolute", "x"), None);
    assert_eq!(m.operate("set_location_relative", "x"), None);
    assert_eq!(m.operate("get_location", ""), Some("-20.25".to_string()));
}

#[test]
fn stepper_motor_location_overflow_rejected() {
    let mut m = StepperMotor::new();
    m.operate("set_location_absolute", "9223372036");
    assert_eq!(m.operate("set_location_relative", "1"), None);
    assert_eq!(m.operate("get_location", ""), Some("9223372036".to_string()));
}

#[test]
fn stepper_motor_acceleration_unclamped() {
    let mut m = StepperMotor::new();
    assert_eq!(m.operate("get_acceleration", ""), Some("0".to_string()));
    assert_eq!(m.operate("set_acceleration", "-350.75"), Some("-350.75".to_string()));
    assert_eq!(m.operate("get_acceleration", ""), Some("-350.75".to_string()));
    assert_eq!(m.operate("set_acceleration", "quick"), None);
    assert_eq!(m.operate("get_acceleration", ""), Some("-350.75".to_string()));
}

#[test]
fn stepper_motor_speed_and_direction() {
    let mut m = StepperMotor::new();
    assert_eq!(m.operate("set_speed", "99.9"), Some("99.9".to_string()));
    assert_eq!(m.operate("set_speed", "101"), None);
    assert_eq!(m.operate("get_speed", ""), Some("99.9".to_string()));
    assert_eq!(m.operate("set_direction", "bAcKwArD"), Some("backward".to_string()));
    assert_eq!(m.operate("get_direction", ""), Some("backward".to_string()));
    assert_eq!(m.operate("read_temperature", ""), None);
}
