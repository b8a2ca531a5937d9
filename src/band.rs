use vstd::prelude::*;
use vstd::string::StringExecFns;

use crate::device::Temperature;
use crate::paint::{decimal, decimal_text, digit_of};

verus! {

/// The presentational band of a temperature.
#[derive(Clone, Copy, Debug, PartialEq, Eq, Structural)]
pub enum TempBand {
    /// At most 60 degrees.
    Normal,
    /// Above 60 and at most 85 degrees.
    Warm,
    /// Above 85 degrees.
    Hot,
}

/// Upper bound, inclusive, of the normal band, in hundredths of a degree.
pub const NORMAL_MAX_CENTI: i64 = 6000;

/// Upper bound, inclusive, of the warm band, in hundredths of a degree.
pub const WARM_MAX_CENTI: i64 = 8500;

pub open spec fn band_of(t: Temperature) -> TempBand {
    if t.centi <= 6000 {
        TempBand::Normal
    } else if t.centi <= 8500 {
        TempBand::Warm
    } else {
        TempBand::Hot
    }
}

/// Classifies a temperature; each boundary belongs to the lower band.
pub fn temperature_band(t: Temperature) -> (b: TempBand)
    ensures
        b == band_of(t),
{
    if t.centi <= NORMAL_MAX_CENTI {
        TempBand::Normal
    } else if t.centi <= WARM_MAX_CENTI {
        TempBand::Warm
    } else {
        TempBand::Hot
    }
}

/// How recently a device reported.
#[derive(Clone, Copy, Debug, PartialEq, Eq, Structural)]
pub enum Staleness {
    Fresh,
    Stale,
}

/// Seconds after which a device that has not reported counts as stale.
pub const STALE_AFTER: u64 = 300;

pub open spec fn staleness_of(elapsed: u64) -> Staleness {
    if elapsed > 300 {
        Staleness::Stale
    } else {
        Staleness::Fresh
    }
}

/// Classifies the time since a device's last update: stale only when it
/// exceeds the threshold.
pub fn staleness(elapsed: u64) -> (s: Staleness)
    ensures
        s == staleness_of(elapsed),
{
    if elapsed > STALE_AFTER {
        Staleness::Stale
    } else {
        Staleness::Fresh
    }
}

/// Time from `last` to `now`; a `last` in the future counts as no time.
pub open spec fn elapsed_of(now: u64, last: u64) -> u64 {
    if now >= last {
        (now - last) as u64
    } else {
        0
    }
}

pub fn elapsed(now: u64, last: u64) -> (e: u64)
    ensures
        e == elapsed_of(now, last),
{
    if now >= last {
        now - last
    } else {
        0
    }
}

pub open spec fn abs_centi(c: i64) -> nat {
    if c < 0 {
        (-c) as nat
    } else {
        c as nat
    }
}

/// The decimals of a temperature, without trailing zeros.
pub open spec fn fraction_text(f: nat) -> Seq<char> {
    if f == 0 {
        Seq::empty()
    } else if f % 10 == 0 {
        seq!['.', digit_of(f / 10)]
    } else {
        seq!['.', digit_of(f / 10), digit_of(f % 10)]
    }
}

/// A temperature in degrees, as `-3.25`, `45.5` or `60`.
pub open spec fn temperature_text_of(t: Temperature) -> Seq<char> {
    (if t.centi < 0 {
        seq!['-']
    } else {
        Seq::empty()
    }) + decimal_text(abs_centi(t.centi) / 100) + fraction_text(abs_centi(t.centi) % 100)
}

fn digit_str(d: u64) -> (r: &'static str)
    requires
        d < 10,
    ensures
        r@ == seq![digit_of(d as nat)],
{
    proof {
        reveal_strlit("0");
        reveal_strlit("1");
        reveal_strlit("2");
        reveal_strlit("3");
        reveal_strlit("4");
        reveal_strlit("5");
        reveal_strlit("6");
        reveal_strlit("7");
        reveal_strlit("8");
        reveal_strlit("9");
    }
    let r = if d == 0 {
        "0"
    } else if d == 1 {
        "1"
    } else if d == 2 {
        "2"
    } else if d == 3 {
        "3"
    } else if d == 4 {
        "4"
    } else if d == 5 {
        "5"
    } else if d == 6 {
        "6"
    } else if d == 7 {
        "7"
    } else if d == 8 {
        "8"
    } else {
        "9"
    };
    assert(r@ =~= seq![digit_of(d as nat)]);
    r
}

/// Writes a temperature in degrees.
pub fn temperature_text(t: Temperature) -> (r: String)
    ensures
        r@ == temperature_text_of(t),
{
    let neg = t.centi < 0;
    let a: u64 = if neg {
        ((-(t.centi + 1)) as u64) + 1
    } else {
        t.centi as u64
    };
    assert(a as nat == abs_centi(t.centi));
    let whole: u64 = a / 100;
    let frac: u64 = a % 100;
    proof {
        reveal_strlit("-");
        reveal_strlit(".");
    }
    let mut s = if neg {
        String::from_str("-")
    } else {
        String::new()
    };
    let w = decimal(whole);
    s.append(w.as_str());
    let ghost head = s@;
    if frac != 0 {
        s.append(".");
        s.append(digit_str(frac / 10));
        if frac % 10 != 0 {
            s.append(digit_str(frac % 10));
        }
    }
    assert(s@ =~= head + fraction_text(frac as nat));
    assert(s@ =~= temperature_text_of(t));
    s
}

} // verus!
