use vstd::prelude::*;
use vstd::string::StringExecFns;

verus! {

/// A platform's own identifier for a monitor.
#[derive(Clone, Debug)]
pub enum NativeMonitorId {
    Numeric(u32),
    Name(String),
    Unavailable,
}

/// An X11 screen, by its number on the display.
#[derive(Clone, Copy, Debug, PartialEq, Eq, Structural)]
pub struct MonitorId(pub u32);

pub open spec fn digit_char(d: nat) -> char {
    if d == 0 { '0' } else if d == 1 { '1' } else if d == 2 { '2' } else if d == 3 { '3' }
    else if d == 4 { '4' } else if d == 5 { '5' } else if d == 6 { '6' } else if d == 7 { '7' }
    else if d == 8 { '8' } else { '9' }
}

/// The decimal digits of `n`, with no leading zero.
pub open spec fn decimal(n: nat) -> Seq<char>
    decreases n,
{
    if n < 10 {
        seq![digit_char(n)]
    } else {
        decimal(n / 10).push(digit_char(n % 10))
    }
}

/// Relies on `u32::to_string` (std's `Display` for integers): the decimal digits, no sign,
/// no leading zero.
#[verifier::external_body]
fn decimal_string(n: u32) -> (r: String)
    ensures
        r@ == decimal(n as nat),
{
    n.to_string()
}

/// Every screen of a display that has `count` of them, numbered from zero.
pub fn get_available_monitors(count: i32) -> (r: Vec<MonitorId>)
    ensures
        r@.len() == (if count < 0 { 0 } else { count as int }),
        forall|i: int| 0 <= i < r@.len() ==> r@[i] == MonitorId(i as u32),
{
    let mut monitors: Vec<MonitorId> = Vec::new();
    let mut i: i32 = 0;
    while i < count
        invariant
            0 <= i,
            count < 0 ==> i == 0,
            count >= 0 ==> i <= count,
            monitors@.len() == i as int,
            forall|j: int| 0 <= j < monitors@.len() ==> monitors@[j] == MonitorId(j as u32),
        decreases count - i,
    {
        monitors.push(MonitorId(i as u32));
        i = i + 1;
    }
    monitors
}

/// The display's default screen.
pub fn get_primary_monitor(default_screen: i32) -> (r: MonitorId)
    ensures
        r == MonitorId(default_screen as u32),
{
    MonitorId(default_screen as u32)
}

impl MonitorId {
    pub fn get_name(&self) -> (r: Option<String>)
        ensures
            r matches Some(s) && s@ == "Monitor #"@ + decimal(self.0 as nat),
    {
        let mut name = String::from_str("Monitor #");
        let digits = decimal_string(self.0);
        name.append(digits.as_str());
        Some(name)
    }

    pub fn get_native_identifier(&self) -> (r: NativeMonitorId)
        ensures
            r == NativeMonitorId::Numeric(self.0),
    {
        NativeMonitorId::Numeric(self.0)
    }
}

} // verus!
