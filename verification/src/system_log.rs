use vstd::prelude::*;

use crate::codec::find_char;
use crate::codec::idx_of;
use crate::digits::all_digits;
use crate::digits::parse_u32;
use crate::digits::spec_parse_dec;
use crate::textcase::upper_of;
use crate::textcase::uppercase;

verus! {

/// Ghost image of a `SystemLog`.
pub struct SystemLogData {
    pub id: u32,
    pub level: Seq<char>,
    pub description: Seq<char>,
}

/// One line of a system log: an id, a severity word, a description.
#[derive(Debug)]
pub struct SystemLog {
    pub id: u32,
    pub level: String,
    pub description: String,
}

impl View for SystemLog {
    type V = SystemLogData;

    open spec fn view(&self) -> SystemLogData {
        SystemLogData { id: self.id, level: self.level@, description: self.description@ }
    }
}

impl SystemLog {
    pub fn new(id: u32, level: String, desc: String) -> (r: Self)
        ensures
            r.id == id,
            r.level@ == level@,
            r.description@ == desc@,
    {
        SystemLog { id, level, description: desc }
    }
}

/// What a well-formed log line denotes: a decimal id, a severity word and
/// a description, separated by two pipes.
pub open spec fn spec_parse_log_line(s: Seq<char>) -> Option<SystemLogData> {
    let i = idx_of(s, '|');
    if i < s.len() {
        let rest = s.subrange(i + 1, s.len() as int);
        let j = idx_of(rest, '|');
        if j < rest.len() {
            let idtext = s.subrange(0, i);
            if idtext.len() >= 1 && all_digits(idtext) && spec_parse_dec(idtext) <= u32::MAX {
                Some(
                    SystemLogData {
                        id: spec_parse_dec(idtext) as u32,
                        level: rest.subrange(0, j),
                        description: rest.subrange(j + 1, rest.len() as int),
                    },
                )
            } else {
                None
            }
        } else {
            None
        }
    } else {
        None
    }
}

/// Reads one `id|LEVEL|description` line; a line without two pipes or
/// without a numeric id is reported as `None` rather than a crash.
pub fn parse_log_line(line: &str) -> (r: Option<SystemLog>)
    ensures
        r is Some <==> spec_parse_log_line(line@) is Some,
        r matches Some(l) ==> Some(l@) == spec_parse_log_line(line@),
{
    let n = line.unicode_len();
    let i = find_char(line, '|');
    if i == n {
        return None;
    }
    let rest = line.substring_char(i + 1, n);
    let rest_len = rest.unicode_len();
    let j = find_char(rest, '|');
    if j == rest_len {
        return None;
    }
    let idtext = line.substring_char(0, i);
    let id = match parse_u32(idtext) {
        None => {
            return None;
        },
        Some(v) => v,
    };
    let level = rest.substring_char(0, j).to_owned();
    let description = rest.substring_char(j + 1, rest_len).to_owned();
    Some(SystemLog { id, level, description })
}

/// The order a caller asks records in.
#[derive(Debug, PartialEq, Eq, Structural)]
pub enum Order {
    Ascending,
    Descending,
}

/// A record counts as an error when its severity word, uppercased, reads
/// `ERROR`.
pub open spec fn is_error_log(l: SystemLogData) -> bool {
    upper_of(l.level) == "ERROR"@
}

/// The first `count` error records of `s`, in input order.
pub open spec fn spec_filter_errors(s: Seq<SystemLogData>, count: nat) -> Seq<SystemLogData>
    decreases s.len(),
{
    if s.len() == 0 || count == 0 {
        Seq::<SystemLogData>::empty()
    } else if is_error_log(s[0]) {
        seq![s[0]] + spec_filter_errors(s.skip(1), (count - 1) as nat)
    } else {
        spec_filter_errors(s.skip(1), count)
    }
}

/// The first `count` error records, in input order. The `order` parameter is
/// taken but the records always come back as the input lists them.
pub fn filter_error_logs<'a>(system_logs: &'a Vec<SystemLog>, count: u8, order: Order) -> (r: Vec<
    &'a SystemLog,
>)
    ensures
        r@.map_values(|l: &SystemLog| l@) == spec_filter_errors(
            system_logs@.map_values(|l: SystemLog| l@),
            count as nat,
        ),
{
    let ghost full = system_logs@.map_values(|l: SystemLog| l@);
    let mut error_logs: Vec<&'a SystemLog> = Vec::new();
    let mut counter: u8 = 0;
    let mut i: usize = 0;
    proof {
        assert(full.skip(0) =~= full);
        assert(error_logs@.map_values(|l: &SystemLog| l@) =~= Seq::<SystemLogData>::empty());
        assert(Seq::<SystemLogData>::empty() + spec_filter_errors(full, count as nat)
            =~= spec_filter_errors(full, count as nat));
    }
    while i < system_logs.len() && counter < count
        invariant
            full == system_logs@.map_values(|l: SystemLog| l@),
            0 <= i <= system_logs@.len(),
            counter <= count,
            error_logs@.len() == counter,
            spec_filter_errors(full, count as nat) == error_logs@.map_values(|l: &SystemLog| l@)
                + spec_filter_errors(full.skip(i as int), (count - counter) as nat),
        decreases system_logs@.len() - i,
    {
        let log = &system_logs[i];
        let ghost prefix = error_logs@.map_values(|l: &SystemLog| l@);
        proof {
            assert(full[i as int] == system_logs@[i as int]@);
            assert(full.skip(i as int)[0] == full[i as int]);
            assert(full.skip(i as int).skip(1) =~= full.skip(i + 1));
        }
        if uppercase(log.level.as_str()) == String::from_str("ERROR") {
            error_logs.push(log);
            counter = counter + 1;
            proof {
                assert(is_error_log(full[i as int]));
                assert(error_logs@.map_values(|l: &SystemLog| l@) =~= prefix + seq![
                    full[i as int],
                ]);
                assert(prefix + (seq![full[i as int]] + spec_filter_errors(
                    full.skip(i + 1),
                    (count - counter) as nat,
                )) =~= (prefix + seq![full[i as int]]) + spec_filter_errors(
                    full.skip(i + 1),
                    (count - counter) as nat,
                ));
            }
        } else {
            proof {
                assert(!is_error_log(full[i as int]));
            }
        }
        i = i + 1;
    }
    proof {
        if counter == count {
            assert(spec_filter_errors(full.skip(i as int), 0) =~= Seq::<SystemLogData>::empty());
        } else {
            assert(full.skip(i as int) =~= Seq::<SystemLogData>::empty());
        }
        assert(error_logs@.map_values(|l: &SystemLog| l@) + Seq::<SystemLogData>::empty()
            =~= error_logs@.map_values(|l: &SystemLog| l@));
    }
    let _ = order;
    error_logs
}

} // verus!
