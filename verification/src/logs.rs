use vstd::prelude::*;

verus! {

/// The severity of a log record.
#[derive(Debug, Clone, Copy, PartialEq, Eq, Structural)]
pub enum Level {
    Info,
    Warn,
    Error,
}

impl Level {
    /// The severity's fixed label.
    pub fn label(&self) -> (r: &'static str)
        ensures
            *self == Level::Info ==> r@ == "INFO"@,
            *self == Level::Warn ==> r@ == "WARN"@,
            *self == Level::Error ==> r@ == "ERROR"@,
    {
        match self {
            Level::Info => "INFO",
            Level::Warn => "WARN",
            Level::Error => "ERROR",
        }
    }
}

/// The label `render` writes for a severity.
pub open spec fn spec_label(level: Level) -> Seq<char> {
    match level {
        Level::Info => "INFO"@,
        Level::Warn => "WARN"@,
        Level::Error => "ERROR"@,
    }
}

/// One log record: a severity and what happened.
#[derive(Debug)]
pub struct Log {
    pub level: Level,
    pub explanation: String,
}

impl Log {
    pub fn new(level: Level, explanation: String) -> (r: Self)
        ensures
            r.level == level,
            r.explanation@ == explanation@,
    {
        Log { level, explanation }
    }

    /// The record's one-line text: the label, a colon, the explanation.
    pub fn render(&self) -> (r: String)
        ensures
            r@ == spec_label(self.level) + ":"@ + self.explanation@,
    {
        let mut s = String::new();
        s.append(self.level.label());
        s.append(":");
        s.append(self.explanation.as_str());
        proof {
            assert(s@ =~= spec_label(self.level) + ":"@ + self.explanation@);
        }
        s
    }
}

/// Running counts of the records a log sink has seen, one per severity.
pub struct LogTracker {
    pub errors: u64,
    pub warnings: u64,
    pub infos: u64,
}

impl LogTracker {
    /// A tracker that has seen nothing.
    pub fn new() -> (r: Self)
        ensures
            r.errors == 0,
            r.warnings == 0,
            r.infos == 0,
    {
        LogTracker { errors: 0, warnings: 0, infos: 0 }
    }

    /// Counts one record under its severity; the other counts stand.
    pub fn record(&mut self, log: &Log)
        requires
            old(self).errors < u64::MAX,
            old(self).warnings < u64::MAX,
            old(self).infos < u64::MAX,
        ensures
            final(self).errors == old(self).errors + (if log.level == Level::Error {
                1int
            } else {
                0int
            }),
            final(self).warnings == old(self).warnings + (if log.level == Level::Warn {
                1int
            } else {
                0int
            }),
            final(self).infos == old(self).infos + (if log.level == Level::Info {
                1int
            } else {
                0int
            }),
    {
        match log.level {
            Level::Error => {
                self.errors = self.errors + 1;
            },
            Level::Warn => {
                self.warnings = self.warnings + 1;
            },
            Level::Info => {
                self.infos = self.infos + 1;
            },
        }
    }
}

} // verus!
