//! The `doctor` command's report: one check for the LAN address, one for
//! the input device and one for the port, built from what was observed.
use vstd::prelude::*;

use crate::text::{decimal_text, push_decimal};

verus! {

/// The verdict of one check.
#[derive(Debug, Clone, Copy, PartialEq, Eq, Structural)]
pub enum DoctorStatus {
    Pass,
    Warn,
    Fail,
}

/// One line of the report.
pub struct DoctorCheck {
    pub code: String,
    pub status: DoctorStatus,
    pub message: String,
}

/// The whole report.
pub struct DoctorReport {
    pub checks: Vec<DoctorCheck>,
}

/// What probing the input device found.
pub enum InputProbe {
    /// No device could be resolved; the error's text.
    DeviceUnavailable { error: String },
    /// The device exists but no capture configuration could be chosen.
    NoStreamConfig { error: String },
    /// The device and the configuration it would capture with.
    Ready { device_name: String, sample_format: String, sample_rate: u32, channels: u16 },
}

/// `c` is the check `code` with `status` and `message`.
pub open spec fn is_check(c: DoctorCheck, code: Seq<char>, status: DoctorStatus, message: Seq<char>) -> bool {
    c.code@ == code && c.status == status && c.message@ == message
}

/// The LAN address check.
pub open spec fn lan_check_holds(c: DoctorCheck, lan_ip: Result<String, String>) -> bool {
    match lan_ip {
        Ok(ip) => is_check(c, "DR001_LAN_IP"@, DoctorStatus::Pass, "Detected local IP address: "@ + ip@),
        Err(e) => is_check(c, "DR001_LAN_IP"@, DoctorStatus::Warn, "Could not determine LAN IP: "@ + e@),
    }
}

/// The input device check.
pub open spec fn input_check_holds(c: DoctorCheck, input: InputProbe) -> bool {
    match input {
        InputProbe::DeviceUnavailable { error } => is_check(
            c,
            "DR002_INPUT_DEVICE"@,
            DoctorStatus::Fail,
            "Input device unavailable: "@ + error@,
        ),
        InputProbe::NoStreamConfig { error } => is_check(
            c,
            "DR002_INPUT_DEVICE"@,
            DoctorStatus::Fail,
            "Input device exists but has no valid stream config: "@ + error@,
        ),
        InputProbe::Ready { device_name, sample_format, sample_rate, channels } => is_check(
            c,
            "DR002_INPUT_DEVICE"@,
            DoctorStatus::Pass,
            "Input OK on '"@ + device_name@ + "' ("@ + sample_format@ + ", "@ + decimal_text(
                sample_rate as nat,
            ) + "Hz, "@ + decimal_text(channels as nat) + "ch)"@,
        ),
    }
}

/// The port check.
pub open spec fn port_check_holds(c: DoctorCheck, port: u16, bind: Result<(), String>) -> bool {
    match bind {
        Ok(_) => is_check(
            c,
            "DR003_PORT_BIND"@,
            DoctorStatus::Pass,
            "Port "@ + decimal_text(port as nat) + " is available"@,
        ),
        Err(e) => is_check(
            c,
            "DR003_PORT_BIND"@,
            DoctorStatus::Fail,
            "Port "@ + decimal_text(port as nat) + " unavailable: "@ + e@,
        ),
    }
}

/// Each check passes exactly when what it observed went well: the LAN
/// check when an address was found (a missing address is only a warning),
/// the input check only for a device ready to capture (an unavailable
/// device or one without a capture configuration fails), the port check
/// when the port could be bound (otherwise it fails).
pub proof fn law_doctor_passes_only_what_went_well(
    lan: DoctorCheck,
    lan_ip: Result<String, String>,
    dev: DoctorCheck,
    input: InputProbe,
    bind_check: DoctorCheck,
    port: u16,
    bind: Result<(), String>,
)
    requires
        lan_check_holds(lan, lan_ip),
        input_check_holds(dev, input),
        port_check_holds(bind_check, port, bind),
    ensures
        lan.status == DoctorStatus::Pass <==> lan_ip is Ok,
        lan.status != DoctorStatus::Fail,
        dev.status == DoctorStatus::Pass <==> input is Ready,
        !(input is Ready) ==> dev.status == DoctorStatus::Fail,
        bind_check.status == DoctorStatus::Pass <==> bind is Ok,
        !(bind is Ok) ==> bind_check.status == DoctorStatus::Fail,
{
}

fn lan_check(lan_ip: Result<String, String>) -> (c: DoctorCheck)
    ensures
        lan_check_holds(c, lan_ip),
{
    match lan_ip {
        Ok(ip) => {
            let mut m = String::from_str("Detected local IP address: ");
            m.append(ip.as_str());
            DoctorCheck { code: String::from_str("DR001_LAN_IP"), status: DoctorStatus::Pass, message: m }
        },
        Err(e) => {
            let mut m = String::from_str("Could not determine LAN IP: ");
            m.append(e.as_str());
            DoctorCheck { code: String::from_str("DR001_LAN_IP"), status: DoctorStatus::Warn, message: m }
        },
    }
}

fn input_check(input: InputProbe) -> (c: DoctorCheck)
    ensures
        input_check_holds(c, input),
{
    match input {
        InputProbe::DeviceUnavailable { error } => {
            let mut m = String::from_str("Input device unavailable: ");
            m.append(error.as_str());
            DoctorCheck {
                code: String::from_str("DR002_INPUT_DEVICE"),
                status: DoctorStatus::Fail,
                message: m,
            }
        },
        InputProbe::NoStreamConfig { error } => {
            let mut m = String::from_str("Input device exists but has no valid stream config: ");
            m.append(error.as_str());
            DoctorCheck {
                code: String::from_str("DR002_INPUT_DEVICE"),
                status: DoctorStatus::Fail,
                message: m,
            }
        },
        InputProbe::Ready { device_name, sample_format, sample_rate, channels } => {
            let mut m = String::from_str("Input OK on '");
            m.append(device_name.as_str());
            m.append("' (");
            m.append(sample_format.as_str());
            m.append(", ");
            push_decimal(&mut m, sample_rate as u64);
            m.append("Hz, ");
            push_decimal(&mut m, channels as u64);
            m.append("ch)");
            DoctorCheck {
                code: String::from_str("DR002_INPUT_DEVICE"),
                status: DoctorStatus::Pass,
                message: m,
            }
        },
    }
}

fn port_check(port: u16, bind: Result<(), String>) -> (c: DoctorCheck)
    ensures
        port_check_holds(c, port, bind),
{
    let mut m = String::from_str("Port ");
    push_decimal(&mut m, port as u64);
    match bind {
        Ok(_) => {
            m.append(" is available");
            DoctorCheck { code: String::from_str("DR003_PORT_BIND"), status: DoctorStatus::Pass, message: m }
        },
        Err(e) => {
            m.append(" unavailable: ");
            m.append(e.as_str());
            DoctorCheck { code: String::from_str("DR003_PORT_BIND"), status: DoctorStatus::Fail, message: m }
        },
    }
}

/// The report for what was observed: the LAN address lookup, the input
/// probe, and whether `port` could be bound — in that order.
pub fn doctor_report(lan_ip: Result<String, String>, input: InputProbe, port: u16, port_bind: Result<(), String>) -> (r: DoctorReport)
    ensures
        r.checks@.len() == 3,
        lan_check_holds(r.checks@[0], lan_ip),
        input_check_holds(r.checks@[1], input),
        port_check_holds(r.checks@[2], port, port_bind),
{
    let mut checks: Vec<DoctorCheck> = Vec::new();
    checks.push(lan_check(lan_ip));
    checks.push(input_check(input));
    checks.push(port_check(port, port_bind));
    DoctorReport { checks }
}

} // verus!
