use vstd::prelude::*;

use crate::digits::all_digits;
use crate::digits::parse_u32;
use crate::digits::spec_dec;
use crate::digits::spec_parse_dec;
use crate::digits::u32_to_string;
use crate::textcase::lower_of;
use crate::textcase::lowercase;

verus! {

/// Which usage figures the collector is asked for.
#[derive(Debug, PartialEq, Eq, Structural)]
pub enum Metric {
    Cpu,
    Memory,
    Both,
}

/// The display name `Metric::to_string` returns.
pub open spec fn spec_metric_name(m: Metric) -> Seq<char> {
    match m {
        Metric::Cpu => "CPU"@,
        Metric::Memory => "Memory"@,
        Metric::Both => "Cpu and Memory"@,
    }
}

impl Metric {
    /// The metric's display name.
    pub fn to_string(&self) -> (r: &'static str)
        ensures
            r@ == spec_metric_name(*self),
    {
        match self {
            Metric::Cpu => "CPU",
            Metric::Memory => "Memory",
            Metric::Both => "Cpu and Memory",
        }
    }
}

/// A parsed collector command: how many readings, how many seconds apart,
/// and of what.
#[derive(Debug, PartialEq)]
pub struct Command {
    pub count: u32,
    pub period: u8,
    pub metric: Metric,
}

impl Command {
    /// The command's one-line description.
    pub fn describe(&self) -> (r: String)
        ensures
            r@ == "Metric "@ + spec_metric_name(self.metric) + " Count : "@ + spec_dec(
                self.count as nat,
            ) + " Period : "@ + spec_dec(self.period as nat) + " secs"@,
    {
        let mut s = String::new();
        s.append("Metric ");
        s.append(self.metric.to_string());
        s.append(" Count : ");
        let count = u32_to_string(self.count);
        s.append(count.as_str());
        s.append(" Period : ");
        let period = u32_to_string(self.period as u32);
        s.append(period.as_str());
        s.append(" secs");
        proof {
            assert(s@ =~= "Metric "@ + spec_metric_name(self.metric) + " Count : "@ + spec_dec(
                self.count as nat,
            ) + " Period : "@ + spec_dec(self.period as nat) + " secs"@);
        }
        s
    }
}

/// The number a numeric argument denotes, or the default where it is not a
/// number that fits.
pub open spec fn numeric_or(s: Seq<char>, default: nat) -> nat {
    if s.len() >= 1 && all_digits(s) && spec_parse_dec(s) <= u32::MAX {
        spec_parse_dec(s)
    } else {
        default
    }
}

/// The metric a kind argument names, lowercased: `cpu`, `mem`, or anything
/// else for both.
pub open spec fn spec_metric_of(kind: Seq<char>) -> Metric {
    if lower_of(kind) == "cpu"@ {
        Metric::Cpu
    } else if lower_of(kind) == "mem"@ {
        Metric::Memory
    } else {
        Metric::Both
    }
}

/// Reads a collector command line of the shape
/// `kind <cpu|mem> count <n> period <secs>`, handed over as its argument
/// vector, program name first. A short vector or a wrong keyword is
/// reported; a numeric field that does not parse falls back to its
/// default rather than failing the whole command.
pub fn parse_args(args: &Vec<String>) -> (r: Result<Command, String>)
    ensures
        args@.len() < 2 ==> (r matches Err(e) && e@ == "Wrong number of arguments"@),
        args@.len() >= 2 && args@[1]@ != "kind"@ ==> (r matches Err(e) && e@ == "Invalid kind"@),
        args@.len() >= 2 && args@[1]@ == "kind"@ && args@.len() < 7 ==> (r matches Err(e) && e@
            == "Wrong number of arguments"@),
        args@.len() >= 7 && args@[1]@ == "kind"@ && args@[3]@ != "count"@ ==> (r matches Err(e)
            && e@ == "Invalid count"@),
        args@.len() >= 7 && args@[1]@ == "kind"@ && args@[3]@ == "count"@ && args@[5]@
            != "period"@ ==> (r matches Err(e) && e@ == "Invalid period"@),
        args@.len() >= 7 && args@[1]@ == "kind"@ && args@[3]@ == "count"@ && args@[5]@
            == "period"@ ==> (r matches Ok(cmd) && {
            &&& cmd.count == numeric_or(args@[4]@, 20)
            &&& cmd.period == (if numeric_or(args@[6]@, 1) > u8::MAX {
                1nat
            } else {
                numeric_or(args@[6]@, 1)
            })
            &&& cmd.metric == spec_metric_of(args@[2]@)
        }),
{
    if args.len() < 2 {
        return Err(String::from_str("Wrong number of arguments"));
    }
    if !(args[1] == String::from_str("kind")) {
        return Err(String::from_str("Invalid kind"));
    }
    if args.len() < 7 {
        return Err(String::from_str("Wrong number of arguments"));
    }
    if !(args[3] == String::from_str("count")) {
        return Err(String::from_str("Invalid count"));
    }
    if !(args[5] == String::from_str("period")) {
        return Err(String::from_str("Invalid period"));
    }
    let count = match parse_u32(args[4].as_str()) {
        Some(v) => v,
        None => 20,
    };
    let period_raw = match parse_u32(args[6].as_str()) {
        Some(v) => v,
        None => 1,
    };
    let period: u8 = if period_raw > u8::MAX as u32 {
        1
    } else {
        period_raw as u8
    };
    let kind = lowercase(args[2].as_str());
    let metric = if kind == String::from_str("cpu") {
        Metric::Cpu
    } else if kind == String::from_str("mem") {
        Metric::Memory
    } else {
        Metric::Both
    };
    Ok(Command { count, period, metric })
}

} // verus!
