//! The session around a device: what it answers to each inbound message, the
//! payloads it publishes, and when it announces that it connected or left.

use vstd::prelude::*;
use crate::device::{device_step, kind_command, shared_command, state_kind, Device, DeviceState};
use crate::device_type::{kind_name, DeviceType};
use crate::motors::answer_view;
use crate::sensors::reading_in_range;
use crate::text::{json_escape, nat_text, push_escaped, push_nat, str_eq};

verus! {

/// A decoded inbound command message.
pub struct Command {
    pub command: String,
    pub parameter: String,
}

/// The response that goes out for each inbound message.
pub struct DevicePayload {
    pub device_id: String,
    pub message: String,
    pub response: Option<String>,
    pub timestamp: u64,
}

/// The response text that stands for "no result".
pub open spec fn none_text() -> Seq<char> {
    "none"@
}

/// The JSON text of a response payload. A missing response is written `none`.
pub open spec fn payload_text(
    device_id: Seq<char>,
    message: Seq<char>,
    response: Option<Seq<char>>,
    timestamp: nat,
) -> Seq<char> {
    let shown = match response {
        Some(t) => t,
        None => none_text(),
    };
    "{\"device_id\":\""@ + json_escape(device_id) + "\",\"message\":\""@ + json_escape(message)
        + "\",\"response\":\""@ + json_escape(shown) + "\",\"timestamp\":"@ + nat_text(timestamp)
        + "}"@
}

impl DevicePayload {
    /// The JSON text of this payload.
    pub fn to_string(&self) -> (r: String)
        ensures
            r@ == payload_text(
                self.device_id@,
                self.message@,
                answer_view(self.response),
                self.timestamp as nat,
            ),
    {
        let mut out = String::from_str("{\"device_id\":\"");
        push_escaped(&mut out, self.device_id.as_str());
        out.append("\",\"message\":\"");
        push_escaped(&mut out, self.message.as_str());
        out.append("\",\"response\":\"");
        match &self.response {
            Some(t) => push_escaped(&mut out, t.as_str()),
            None => push_escaped(&mut out, "none"),
        }
        out.append("\",\"timestamp\":");
        push_nat(&mut out, self.timestamp);
        out.append("}");
        out
    }
}

/// The JSON text of a connection notice.
pub open spec fn notice_text(device_id: Seq<char>, k: DeviceType, connected: bool) -> Seq<char> {
    let status = if connected {
        "connected"@
    } else {
        "disconnected"@
    };
    "{\"device_id\":\""@ + json_escape(device_id) + "\",\"device_type\":\""@ + kind_name(k)
        + "\",\"status\":\""@ + status + "\"}"@
}

/// The notice that announces that the device `device_id` of kind `device_type`
/// connected (`connected`) or disconnected.
pub fn connection_notice(device_id: &str, device_type: DeviceType, connected: bool) -> (r: String)
    ensures
        r@ == notice_text(device_id@, device_type, connected),
{
    let mut out = String::from_str("{\"device_id\":\"");
    push_escaped(&mut out, device_id);
    out.append("\",\"device_type\":\"");
    let name = device_type.to_string();
    out.append(name.as_str());
    out.append("\",\"status\":\"");
    if connected {
        out.append("connected");
    } else {
        out.append("disconnected");
    }
    out.append("\"}");
    out
}

/// The response to an inbound message that could not be decoded.
pub open spec fn invalid_format_text() -> Seq<char> {
    "Invalid message format"@
}

/// The response to a command that the device does not know.
pub open spec fn invalid_command_text(command: Seq<char>) -> Seq<char> {
    "Invalid command: "@ + command
}

/// Whether a device of kind `k` knows `command`.
pub open spec fn known_command(k: DeviceType, command: Seq<char>) -> bool {
    shared_command(command) || kind_command(k, command)
}

/// What a device does with an inbound message, decoded into a command and a
/// parameter or not decodable: its next state and the response that goes out.
/// A known command that yields no result is answered with no response.
pub open spec fn message_step(
    d: DeviceState,
    decoded: Option<(Seq<char>, Seq<char>)>,
    reading: int,
) -> (DeviceState, Option<Seq<char>>) {
    match decoded {
        None => (d, Some(invalid_format_text())),
        Some((command, parameter)) => {
            let (d2, answer) = device_step(d, command, parameter, reading);
            match answer {
                Some(t) => (d2, Some(t)),
                None => if known_command(state_kind(d.peripheral), command) {
                    (d2, None)
                } else {
                    (d2, Some(invalid_command_text(command)))
                },
            }
        },
    }
}

/// The decoded form of a command message, as plain texts.
pub open spec fn decoded_view(c: Option<&Command>) -> Option<(Seq<char>, Seq<char>)> {
    match c {
        Some(c) => Some((c.command@, c.parameter@)),
        None => None,
    }
}

/// Whether a device of kind `k` knows `command`.
pub fn is_known_command(k: DeviceType, command: &str) -> (r: bool)
    ensures
        r == known_command(k, command@),
{
    if str_eq(command, "get_status") || str_eq(command, "get_version") || str_eq(
        command,
        "set_name",
    ) || str_eq(command, "set_description") {
        return true;
    }
    match k {
        DeviceType::TemperatureSensor => str_eq(command, "read_temperature"),
        DeviceType::PressureSensor => str_eq(command, "read_pressure"),
        DeviceType::HumiditySensor => str_eq(command, "read_humidity"),
        DeviceType::DcMotor => str_eq(command, "get_speed") || str_eq(command, "set_speed")
            || str_eq(command, "get_direction") || str_eq(command, "set_direction"),
        DeviceType::StepperMotor => str_eq(command, "get_speed") || str_eq(command, "set_speed")
            || str_eq(command, "get_direction") || str_eq(command, "set_direction") || str_eq(
            command,
            "get_acceleration",
        ) || str_eq(command, "set_acceleration") || str_eq(command, "get_location") || str_eq(
            command,
            "set_location_relative",
        ) || str_eq(command, "set_location_absolute"),
    }
}

/// Handles one inbound message: `None` when it could not be decoded. Gives the
/// response to publish: the device's answer, `Invalid message format`,
/// `Invalid command: ...` for a command that the device does not know, or no
/// response for a known command whose parameter was rejected.
pub fn respond(device: &mut Device, decoded: Option<&Command>) -> (r: Option<String>)
    requires
        old(device).wf(),
    ensures
        final(device).wf(),
        exists|v: int|
            reading_in_range(v) && (final(device)@, answer_view(r)) == message_step(
                old(device)@,
                decoded_view(decoded),
                v,
            ),
{
    match decoded {
        None => {
            let r = Some(String::from_str("Invalid message format"));
            assert(reading_in_range(0) && (device@, answer_view(r)) == message_step(
                old(device)@,
                decoded_view(decoded),
                0,
            ));
            r
        },
        Some(c) => {
            let kind = device.device_type();
            let answer = device.operate(c.command.as_str(), c.parameter.as_str());
            match answer {
                Some(t) => Some(t),
                None => {
                    if is_known_command(kind, c.command.as_str()) {
                        None
                    } else {
                        let mut text = String::from_str("Invalid command: ");
                        text.append(c.command.as_str());
                        Some(text)
                    }
                },
            }
        },
    }
}

} // verus!
