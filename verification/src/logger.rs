//! An injectable logging capability.  The verified code only records entries;
//! a host-side sink may drain and persist them however it likes.

use vstd::prelude::*;

verus! {

/// Severity of one log entry.
#[derive(Clone, Copy, PartialEq, Eq, Structural, Debug)]
pub enum LogLevel {
    Debug,
    Info,
    Warn,
    Error,
}

/// One recorded log line.
pub struct LogEntry {
    pub level: LogLevel,
    pub message: String,
}

/// Collects log entries in order.  Debug entries are only recorded while
/// `debug_enabled` holds.
pub struct Logger {
    pub debug_enabled: bool,
    pub entries: Vec<LogEntry>,
}

impl Logger {
    /// An empty log with debug recording switched on.
    pub fn new() -> (r: Self)
        ensures
            r.debug_enabled == true,
            r.entries@.len() == 0,
    {
        Logger { debug_enabled: true, entries: Vec::new() }
    }

    /// Records a debug entry, unless debug recording is off.
    pub fn debug(&mut self, message: &str)
        ensures
            old(self).debug_enabled ==> final(self).entries@.len() == old(self).entries@.len() + 1,
            old(self).debug_enabled ==> final(self).entries@.drop_last() == old(self).entries@,
            old(self).debug_enabled ==> final(self).entries@.last().level is Debug,
            old(self).debug_enabled ==> final(self).entries@.last().message@ == message@,
            !old(self).debug_enabled ==> final(self).entries@ == old(self).entries@,
            final(self).debug_enabled == old(self).debug_enabled,
    {
        if self.debug_enabled {
            self.entries.push(LogEntry { level: LogLevel::Debug, message: message.to_owned() });
            proof {
                assert(self.entries@.drop_last() =~= old(self).entries@);
            }
        }
    }

    /// Records an informational entry.
    pub fn info(&mut self, message: &str)
        ensures
            final(self).entries@.len() == old(self).entries@.len() + 1,
            final(self).entries@.drop_last() == old(self).entries@,
            final(self).entries@.last().level is Info,
            final(self).entries@.last().message@ == message@,
            final(self).debug_enabled == old(self).debug_enabled,
    {
        self.entries.push(LogEntry { level: LogLevel::Info, message: message.to_owned() });
        proof {
            assert(self.entries@.drop_last() =~= old(self).entries@);
        }
    }

    /// Records a warning entry.
    pub fn warn(&mut self, message: &str)
        ensures
            final(self).entries@.len() == old(self).entries@.len() + 1,
            final(self).entries@.drop_last() == old(self).entries@,
            final(self).entries@.last().level is Warn,
            final(self).entries@.last().message@ == message@,
            final(self).debug_enabled == old(self).debug_enabled,
    {
        self.entries.push(LogEntry { level: LogLevel::Warn, message: message.to_owned() });
        proof {
            assert(self.entries@.drop_last() =~= old(self).entries@);
        }
    }

    /// Records an error entry.
    pub fn error(&mut self, message: &str)
        ensures
            final(self).entries@.len() == old(self).entries@.len() + 1,
            final(self).entries@.drop_last() == old(self).entries@,
            final(self).entries@.last().level is Error,
            final(self).entries@.last().message@ == message@,
            final(self).debug_enabled == old(self).debug_enabled,
    {
        self.entries.push(LogEntry { level: LogLevel::Error, message: message.to_owned() });
        proof {
            assert(self.entries@.drop_last() =~= old(self).entries@);
        }
    }
}

} // verus!
