use vstd::prelude::*;
use vstd::string::StringExecFns;

use crate::band::{
    band_of, elapsed, elapsed_of, staleness, staleness_of, temperature_band, temperature_text,
    temperature_text_of, Staleness, TempBand,
};
use crate::device::{Device, DeviceModel, Temperature};
use crate::paint::{
    blue, blue_of, bold, bold_of, green, green_of, red, red_of, uptime, uptime_text, yellow,
    yellow_of,
};
use crate::registry::Registry;

verus! {

pub open spec fn bool_text(b: bool) -> Seq<char> {
    if b {
        "true"@
    } else {
        "false"@
    }
}

/// The onboard flag: bold green when onboard, red otherwise.
pub open spec fn onboard_text(b: bool) -> Seq<char> {
    if b {
        bold_of(green_of("true"@))
    } else {
        red_of("false"@)
    }
}

/// The time since the last update: red when stale, green when fresh.
pub open spec fn ago_text(d: DeviceModel, now: u64) -> Seq<char> {
    let e = elapsed_of(now, d.last_update);
    if staleness_of(e) == Staleness::Stale {
        red_of(uptime_text(e))
    } else {
        green_of(uptime_text(e))
    }
}

/// The temperature, colored by its band.
pub open spec fn temperature_colored(t: Temperature) -> Seq<char> {
    match band_of(t) {
        TempBand::Normal => green_of(temperature_text_of(t)),
        TempBand::Warm => yellow_of(temperature_text_of(t)),
        TempBand::Hot => red_of(temperature_text_of(t)),
    }
}

/// The lines that the report gives one device.
pub open spec fn device_block(d: DeviceModel, now: u64) -> Seq<char> {
    blue_of(d.name) + "\n"@
        + "\tOnboard: "@ + onboard_text(d.onboard) + " (Last updated: "@ + ago_text(d, now) + " ago)\n"@
        + "\tSW uptime: "@ + uptime_text(d.sw_uptime) + "\n"@
        + "\tTemperature: "@ + temperature_colored(d.temperature) + "°C\n"@
        + "\tUptime: "@ + uptime_text(d.uptime) + "\n"@
        + "\tHostname: "@ + d.hostname + "\n"@
        + "\tOs: "@ + d.os + "\n"@
}

/// The report: each device's block, in registration order.
pub open spec fn report_text(devs: Seq<DeviceModel>, now: u64) -> Seq<char>
    decreases devs.len(),
{
    if devs.len() == 0 {
        Seq::empty()
    } else {
        report_text(devs.drop_last(), now) + device_block(devs.last(), now)
    }
}

fn onboard_str(b: bool) -> (r: String)
    ensures
        r@ == onboard_text(b),
{
    if b {
        let g = green("true");
        bold(g.as_str())
    } else {
        red("false")
    }
}

fn ago_str(d: &Device, now: u64) -> (r: String)
    ensures
        r@ == ago_text(d@, now),
{
    let e = elapsed(now, d.last_update);
    let u = uptime(e);
    match staleness(e) {
        Staleness::Stale => red(u.as_str()),
        Staleness::Fresh => green(u.as_str()),
    }
}

fn temperature_str(t: Temperature) -> (r: String)
    ensures
        r@ == temperature_colored(t),
{
    let s = temperature_text(t);
    match temperature_band(t) {
        TempBand::Normal => green(s.as_str()),
        TempBand::Warm => yellow(s.as_str()),
        TempBand::Hot => red(s.as_str()),
    }
}

/// Writes one device's block of the report.
pub fn render_device(d: &Device, now: u64) -> (r: String)
    ensures
        r@ == device_block(d@, now),
{
    let mut s = blue(d.name.as_str());
    s.append("\n");
    s.append("\tOnboard: ");
    let on = onboard_str(d.onboard);
    s.append(on.as_str());
    s.append(" (Last updated: ");
    let ago = ago_str(d, now);
    s.append(ago.as_str());
    s.append(" ago)\n");
    s.append("\tSW uptime: ");
    let sw = uptime(d.sw_uptime);
    s.append(sw.as_str());
    s.append("\n");
    s.append("\tTemperature: ");
    let t = temperature_str(d.temperature);
    s.append(t.as_str());
    s.append("°C\n");
    s.append("\tUptime: ");
    let up = uptime(d.uptime);
    s.append(up.as_str());
    s.append("\n");
    s.append("\tHostname: ");
    s.append(d.hostname.as_str());
    s.append("\n");
    s.append("\tOs: ");
    s.append(d.os.as_str());
    s.append("\n");
    s
}

impl Registry {
    /// Renders the status report at time `now`.
    pub fn render(&self, now: u64) -> (r: String)
        ensures
            r@ == report_text(self@, now),
    {
        let mut s = String::new();
        let mut i: usize = 0;
        while i < self.len()
            invariant
                i <= self@.len(),
                s@ == report_text(self@.take(i as int), now),
            decreases self@.len() - i,
        {
            let b = render_device(self.get(i), now);
            s.append(b.as_str());
            assert(self@.take(i + 1).drop_last() =~= self@.take(i as int));
            i = i + 1;
        }
        assert(self@.take(i as int) =~= self@);
        s
    }
}

} // verus!
