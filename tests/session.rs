use sim_device::device::Device;
use sim_device::device_type::DeviceType;
use sim_device::lifecycle::{Action, Event, Lifecycle};
use sim_device::session::{connection_notice, is_known_command, respond, Command, DevicePayload};

fn command(c: &str, p: &str) -> Command {
    Command { command: c.to_string(), parameter: p.to_string() }
}

fn dc_device() -> Device {
    Device::new(DeviceType::DcMotor, "m1".to_string(), "motor".to_string())
}

#[test]
fn set_speed_message_answers_value() {
    let mut d = dc_device();
    let r = respond(&mut d, Some(&command("set_speed", "42.5")));
    assert_eq!(r, Some("42.5".to_string()));
    let p = DevicePayload {
        device_id: "m1".to_string(),
        message: "set".to_string(),
        response: r,
        timestamp: 7,
    };
    assert!(p.to_string().contains("\"response\":\"42.5\""));
}

#[test]
fn out_of_range_speed_message_answers_none() {
    let mut d = dc_device();
    respond(&mut d, Some(&command("set_speed", "10")));
    let r = respond(&mut d, Some(&command("set_speed", "150")));
    assert_eq!(r, None);
    let p = DevicePayload {
        device_id: "m1".to_string(),
        message: "set".to_string(),
        response: r,
        timestamp: 7,
    };
    assert!(p.to_string().contains("\"response\":\"none\""));
    assert_eq!(respond(&mut d, Some(&command("get_speed", ""))), Some("10".to_string()));
}

#[test]
fn undecodable_message_answers_invalid_format() {
    let mut d = dc_device();
    assert_eq!(respond(&mut d, None), Some("Invalid message format".to_string()));
}

#[test]
fn unknown_command_message_named() {
    let mut d = dc_device();
    assert_eq!(
        respond(&mut d, Some(&command("fly", "high"))),
        Some("Invalid command: fly".to_string())
    );
}

#[test]
fn known_commands_by_kind() {
    assert!(is_known_command(DeviceType::DcMotor, "set_speed"));
    assert!(is_known_command(DeviceType::DcMotor, "get_status"));
    assert!(!is_known_command(DeviceType::DcMotor, "get_location"));
    assert!(is_known_command(DeviceType::StepperMotor, "get_location"));
    assert!(is_known_command(DeviceType::PressureSensor, "read_pressure"));
    assert!(!is_known_command(DeviceType::PressureSensor, "read_humidity"));
}

#[test]
fn payload_text_exact() {
    let p = DevicePayload {
        device_id: "dev-1".to_string(),
        message: "{\"command\":\"get_version\",\"parameter\":\"\"}".to_string(),
        response: Some("1.0.0".to_string()),
        timestamp: 1700000000123,
    };
    assert_eq!(
        p.to_string(),
        "{\"device_id\":\"dev-1\",\"message\":\"{\\\"command\\\":\\\"get_version\\\",\\\"parameter\\\":\\\"\\\"}\",\"response\":\"1.0.0\",\"timestamp\":1700000000123}"
    );
}

#[test]
fn payload_text_without_response() {
    let p = DevicePayload {
        device_id: "d".to_string(),
        message: "x".to_string(),
        response: None,
        timestamp: 0,
    };
    assert_eq!(
        p.to_string(),
        "{\"device_id\":\"d\",\"message\":\"x\",\"response\":\"none\",\"timestamp\":0}"
    );
}

#[test]
fn payload_text_escapes_controls() {
    let p = DevicePayload {
        device_id: "a\\b".to_string(),
        message: "line\nnext\ttab\r".to_string(),
        response: Some("say \"hi\"".to_string()),
        timestamp: 18446744073709551615,
    };
    assert_eq!(
        p.to_string(),
        "{\"device_id\":\"a\\\\b\",\"message\":\"line\\nnext\\ttab\\r\",\"response\":\"say \\\"hi\\\"\",\"timestamp\":18446744073709551615}"
    );
}

#[test]
fn connection_notices() {
    assert_eq!(
        connection_notice("dev-1", DeviceType::StepperMotor, true),
        "{\"device_id\":\"dev-1\",\"device_type\":\"stepper_motor\",\"status\":\"connected\"}"
    );
    assert_eq!(
        connection_notice("dev-1", DeviceType::HumiditySensor, false),
        "{\"device_id\":\"dev-1\",\"device_type\":\"humidity_sensor\",\"status\":\"disconnected\"}"
    );
}

fn count(actions: &[Action], a: Action) -> usize {
    actions.iter().filter(|x| **x == a).count()
}

#[test]
fn lifecycle_one_notice_each_way() {
    let mut l = Lifecycle::new();
    assert!(!l.is_running());
    let mut actions = vec![l.on_event(Event::Start)];
    assert!(l.is_running());
    for _ in 0..5 {
        actions.push(l.on_event(Event::Message));
    }
    actions.push(l.on_event(Event::Stop));
    actions.push(l.on_event(Event::Stop));
    actions.push(l.on_event(Event::Message));
    actions.push(l.on_event(Event::Start));
    assert!(!l.is_running());
    assert_eq!(count(&actions, Action::AnnounceConnected), 1);
    assert_eq!(count(&actions, Action::AnnounceDisconnected), 1);
    assert_eq!(count(&actions, Action::Handle), 5);
}

#[test]
fn lifecycle_stop_without_messages() {
    let mut l = Lifecycle::new();
    assert_eq!(l.on_event(Event::Start), Action::AnnounceConnected);
    assert_eq!(l.on_event(Event::Stop), Action::AnnounceDisconnected);
    assert_eq!(l.on_event(Event::Stop), Action::Ignore);
}

#[test]
fn lifecycle_stop_before_start_announces_nothing() {
    let mut l = Lifecycle::new();
    assert_eq!(l.on_event(Event::Message), Action::Ignore);
    assert_eq!(l.on_event(Event::Stop), Action::Ignore);
    assert_eq!(l.on_event(Event::Start), Action::Ignore);
}

#[test]
fn malformed_json_answers_invalid_format() {
    let inbound = "{\"command\": set_speed";
    assert!(serde_json::from_str::<serde_json::Value>(inbound).is_err());
    let mut d = dc_device();
    let r = respond(&mut d, None);
    let p = DevicePayload {
        device_id: "m1".to_string(),
        message: inbound.to_string(),
        response: r,
        timestamp: 1,
    };
    assert!(p.to_string().contains("\"response\":\"Invalid message format\""));
}
