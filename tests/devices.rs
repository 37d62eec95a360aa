use sim_device::decimal::Decimal;
use sim_device::device::{metadata_field, Device};
use sim_device::device_type::DeviceType;
use sim_device::sensors::{answer_reading, draw_reading, HumiditySensor, PressureSensor, TemperatureSensor};

const ALL_KINDS: [DeviceType; 5] = [
    DeviceType::TemperatureSensor,
    DeviceType::PressureSensor,
    DeviceType::HumiditySensor,
    DeviceType::DcMotor,
    DeviceType::StepperMotor,
];

fn device(kind: DeviceType) -> Device {
    Device::new(kind, "sim".to_string(), "a simulated device".to_string())
}

fn in_reading_range(text: &str) -> bool {
    let d = Decimal::parse(text).unwrap();
    0 <= d.billionths && d.billionths < 100_000_000_000
}

#[test]
fn kind_names_round_trip() {
    for k in ALL_KINDS {
        assert_eq!(DeviceType::from_str(&k.to_string()), Some(k));
        assert_eq!(k.new(), k);
    }
    assert_eq!(DeviceType::DcMotor.to_string(), "dc_motor");
    assert_eq!(DeviceType::TemperatureSensor.to_string(), "temperature_sensor");
    assert_eq!(DeviceType::from_str("fan"), None);
    assert_eq!(DeviceType::from_str("DC_MOTOR"), None);
}

#[test]
fn sensors_read_in_range() {
    let mut t = TemperatureSensor;
    let mut p = PressureSensor;
    let mut h = HumiditySensor;
    for _ in 0..50 {
        assert!(in_reading_range(&t.operate("read_temperature").unwrap()));
        assert!(in_reading_range(&p.operate("read_pressure").unwrap()));
        assert!(in_reading_range(&h.operate("read_humidity").unwrap()));
        assert!(0 <= draw_reading().billionths && draw_reading().billionths < 100_000_000_000);
    }
}

#[test]
fn sensors_ignore_other_commands() {
    assert_eq!(TemperatureSensor.operate("read_pressure"), None);
    assert_eq!(PressureSensor.operate("read_humidity"), None);
    assert_eq!(HumiditySensor.operate("get_speed"), None);
}

#[test]
fn sensor_answer_of_given_reading() {
    let r = Decimal::from_billionths(21_250_000_000);
    assert_eq!(answer_reading("read_temperature", "read_temperature", r), Some("21.25".to_string()));
    assert_eq!(answer_reading("read_temperature", "read_humidity", r), None);
}

#[test]
fn shared_commands_on_every_kind() {
    for k in ALL_KINDS {
        let mut d = device(k);
        assert_eq!(d.device_type(), k);
        assert_eq!(d.operate("get_status", ""), Some("Rust Simulation".to_string()));
        assert_eq!(d.operate("get_version", ""), Some("1.0.0".to_string()));
        assert_eq!(d.operate("set_name", "bench"), Some("bench".to_string()));
        assert_eq!(d.name, "bench");
        assert_eq!(d.operate("set_description", "on the bench"), Some("on the bench".to_string()));
        assert_eq!(d.description, "on the bench");
    }
}

#[test]
fn unknown_command_on_every_kind() {
    for k in ALL_KINDS {
        let mut d = device(k);
        assert_eq!(d.operate("self_destruct", "now"), None);
        assert_eq!(d.operate("", ""), None);
        assert_eq!(d.name, "sim");
    }
}

#[test]
fn commands_of_other_kinds_unknown() {
    assert_eq!(device(DeviceType::DcMotor).operate("get_location", ""), None);
    assert_eq!(device(DeviceType::TemperatureSensor).operate("get_speed", ""), None);
    assert_eq!(device(DeviceType::PressureSensor).operate("read_temperature", ""), None);
}

#[test]
fn device_dispatches_to_motor() {
    let mut d = device(DeviceType::StepperMotor);
    assert_eq!(d.operate("set_location_relative", "4.5"), Some("4.5".to_string()));
    assert_eq!(d.operate("get_location", ""), Some("4.5".to_string()));
    let mut s = device(DeviceType::HumiditySensor);
    assert!(in_reading_range(&s.operate("read_humidity", "").unwrap()));
}

#[test]
fn metadata_fields() {
    assert_eq!(metadata_field("set_name"), Some("name".to_string()));
    assert_eq!(metadata_field("set_description"), Some("description".to_string()));
    assert_eq!(metadata_field("get_status"), None);
}
