use vstd::prelude::*;

verus! {

/// A temperature reading, held in hundredths of a degree Celsius.
#[derive(Clone, Copy, Debug, PartialEq, Eq, Structural)]
pub struct Temperature {
    pub centi: i64,
}

/// One known device and its last reported status.
#[derive(Debug)]
pub struct Device {
    pub name: String,
    pub onboard: bool,
    pub uptime: u64,
    pub hostname: String,
    pub os: String,
    pub temperature: Temperature,
    pub sw_uptime: u64,
    pub last_update: u64,
}

/// The mathematical value of a `Device`.
pub ghost struct DeviceModel {
    pub name: Seq<char>,
    pub onboard: bool,
    pub uptime: u64,
    pub hostname: Seq<char>,
    pub os: Seq<char>,
    pub temperature: Temperature,
    pub sw_uptime: u64,
    pub last_update: u64,
}

impl View for Device {
    type V = DeviceModel;

    open spec fn view(&self) -> DeviceModel {
        DeviceModel {
            name: self.name@,
            onboard: self.onboard,
            uptime: self.uptime,
            hostname: self.hostname@,
            os: self.os@,
            temperature: self.temperature,
            sw_uptime: self.sw_uptime,
            last_update: self.last_update,
        }
    }
}

/// A sparse update for one device: only the fields that are present apply.
#[derive(Debug)]
pub struct UpdatePatch {
    pub name: String,
    pub onboard: Option<bool>,
    pub uptime: Option<u64>,
    pub hostname: Option<String>,
    pub os: Option<String>,
    pub temperature: Option<Temperature>,
    pub sw_uptime: Option<u64>,
}

/// The mathematical value of an `UpdatePatch`.
pub ghost struct PatchModel {
    pub name: Seq<char>,
    pub onboard: Option<bool>,
    pub uptime: Option<u64>,
    pub hostname: Option<Seq<char>>,
    pub os: Option<Seq<char>>,
    pub temperature: Option<Temperature>,
    pub sw_uptime: Option<u64>,
}

pub open spec fn opt_str_view(o: Option<String>) -> Option<Seq<char>> {
    match o {
        Some(s) => Some(s@),
        None => None,
    }
}

impl View for UpdatePatch {
    type V = PatchModel;

    open spec fn view(&self) -> PatchModel {
        PatchModel {
            name: self.name@,
            onboard: self.onboard,
            uptime: self.uptime,
            hostname: opt_str_view(self.hostname),
            os: opt_str_view(self.os),
            temperature: self.temperature,
            sw_uptime: self.sw_uptime,
        }
    }
}

/// An update as it arrives, before the required `name` is checked.
#[derive(Debug)]
pub struct RawUpdate {
    pub name: Option<String>,
    pub onboard: Option<bool>,
    pub uptime: Option<u64>,
    pub hostname: Option<String>,
    pub os: Option<String>,
    pub temperature: Option<Temperature>,
    pub sw_uptime: Option<u64>,
}

/// Why an inbound update payload was rejected.
#[derive(Clone, Copy, Debug, PartialEq, Eq, Structural)]
pub enum DecodeError {
    /// The payload does not have the expected shape: `name` is missing, or
    /// a field has the wrong type.
    Malformed,
}

/// The text that stands for a metadata field that was never reported.
pub open spec fn not_available() -> Seq<char> {
    seq!['n', '/', 'a']
}

pub open spec fn value_or<T>(o: Option<T>, d: T) -> T {
    match o {
        Some(v) => v,
        None => d,
    }
}

/// The device that a patch creates for a name not seen before.
pub open spec fn created_from(p: PatchModel, now: u64) -> DeviceModel {
    DeviceModel {
        name: p.name,
        onboard: value_or(p.onboard, true),
        uptime: value_or(p.uptime, 0),
        hostname: value_or(p.hostname, not_available()),
        os: value_or(p.os, not_available()),
        temperature: value_or(p.temperature, Temperature { centi: 0 }),
        sw_uptime: value_or(p.sw_uptime, 0),
        last_update: now,
    }
}

/// A known device after a patch: present fields overwrite, absent ones stay.
pub open spec fn merged(d: DeviceModel, p: PatchModel, now: u64) -> DeviceModel {
    DeviceModel {
        name: d.name,
        onboard: value_or(p.onboard, d.onboard),
        uptime: value_or(p.uptime, d.uptime),
        hostname: value_or(p.hostname, d.hostname),
        os: value_or(p.os, d.os),
        temperature: value_or(p.temperature, d.temperature),
        sw_uptime: value_or(p.sw_uptime, d.sw_uptime),
        last_update: now,
    }
}

impl UpdatePatch {
    /// Checks that the required `name` is present.
    pub fn from_raw(raw: RawUpdate) -> (r: Result<UpdatePatch, DecodeError>)
        ensures
            raw.name is None ==> r == Err::<UpdatePatch, DecodeError>(DecodeError::Malformed),
            raw.name is Some ==> (r matches Ok(p) && p@ == (PatchModel {
                name: raw.name->0@,
                onboard: raw.onboard,
                uptime: raw.uptime,
                hostname: opt_str_view(raw.hostname),
                os: opt_str_view(raw.os),
                temperature: raw.temperature,
                sw_uptime: raw.sw_uptime,
            })),
    {
        match raw.name {
            None => Err(DecodeError::Malformed),
            Some(name) => Ok(
                UpdatePatch {
                    name,
                    onboard: raw.onboard,
                    uptime: raw.uptime,
                    hostname: raw.hostname,
                    os: raw.os,
                    temperature: raw.temperature,
                    sw_uptime: raw.sw_uptime,
                },
            ),
        }
    }
}

} // verus!
