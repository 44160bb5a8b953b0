//! Log levels and the logger that writes to a primary and an optional secondary sink.

pub mod inmemory;

use vstd::prelude::*;

verus! {

/// A maximum level of the log messages that are kept.
#[derive(Clone, Copy, Debug, PartialEq, Eq, Structural)]
pub enum LevelFilter {
    /// No messages.
    Off,
    /// Errors only.
    Error,
    /// Warnings and above.
    Warn,
    /// Information and above.
    Info,
    /// Debug messages and above.
    Debug,
    /// Every message.
    Trace,
}

/// The level named by a build-time `LOG_LEVEL` value (ASCII bytes): one of the lower-case names "off",
/// "error", "warn", "info", "debug" or "trace", else `Trace` for debug builds and `Info` for the
/// others.
pub open spec fn level_for_name(name: Seq<u8>, debug: bool) -> LevelFilter {
    if name == seq![111u8, 102u8, 102u8] {
        LevelFilter::Off
    } else if name == seq![101u8, 114u8, 114u8, 111u8, 114u8] {
        LevelFilter::Error
    } else if name == seq![119u8, 97u8, 114u8, 110u8] {
        LevelFilter::Warn
    } else if name == seq![105u8, 110u8, 102u8, 111u8] {
        LevelFilter::Info
    } else if name == seq![100u8, 101u8, 98u8, 117u8, 103u8] {
        LevelFilter::Debug
    } else if name == seq![116u8, 114u8, 97u8, 99u8, 101u8] {
        LevelFilter::Trace
    } else if debug {
        LevelFilter::Trace
    } else {
        LevelFilter::Info
    }
}

/// Returns whether the byte string `s` equals `t`.
fn bytes_equal(s: &[u8], t: &[u8]) -> (r: bool)
    ensures
        r == (s@ == t@),
{
    if s.len() != t.len() {
        return false;
    }
    let mut i: usize = 0;
    while i < s.len()
        invariant
            s@.len() == t@.len(),
            i <= s@.len(),
            forall|j: int| 0 <= j < i ==> s@[j] == t@[j],
        decreases s@.len() - i,
    {
        if s[i] != t[i] {
            return false;
        }
        i = i + 1;
    }
    assert(s@ =~= t@);
    true
}

/// Returns the logging level for the build-time value of `LOG_LEVEL` (empty when it is absent),
/// as [`level_for_name`] describes.
pub fn build_time_log_level(level: &[u8], debug: bool) -> (r: LevelFilter)
    ensures
        r == level_for_name(level@, debug),
{
    let off: [u8; 3] = [111u8, 102u8, 102u8];
    let error: [u8; 5] = [101u8, 114u8, 114u8, 111u8, 114u8];
    let warn: [u8; 4] = [119u8, 97u8, 114u8, 110u8];
    let info: [u8; 4] = [105u8, 110u8, 102u8, 111u8];
    let debug_name: [u8; 5] = [100u8, 101u8, 98u8, 117u8, 103u8];
    let trace: [u8; 5] = [116u8, 114u8, 97u8, 99u8, 101u8];
    assert(off@ =~= seq![111u8, 102u8, 102u8]);
    assert(error@ =~= seq![101u8, 114u8, 114u8, 111u8, 114u8]);
    assert(warn@ =~= seq![119u8, 97u8, 114u8, 110u8]);
    assert(info@ =~= seq![105u8, 110u8, 102u8, 111u8]);
    assert(debug_name@ =~= seq![100u8, 101u8, 98u8, 117u8, 103u8]);
    assert(trace@ =~= seq![116u8, 114u8, 97u8, 99u8, 101u8]);
    if bytes_equal(level, &off) {
        LevelFilter::Off
    } else if bytes_equal(level, &error) {
        LevelFilter::Error
    } else if bytes_equal(level, &warn) {
        LevelFilter::Warn
    } else if bytes_equal(level, &info) {
        LevelFilter::Info
    } else if bytes_equal(level, &debug_name) {
        LevelFilter::Debug
    } else if bytes_equal(level, &trace) {
        LevelFilter::Trace
    } else if debug {
        LevelFilter::Trace
    } else {
        LevelFilter::Info
    }
}


/// Something to which logs can be sent. The implementation is responsible for any locking, as the
/// sink is shared.
pub trait LogSink {
    /// Writes a piece of a log message to the sink.
    fn write_str(&self, s: &str);
}

/// A logger which always logs to a primary sink, and optionally also to a secondary sink.
///
/// For example, the primary sink could be a per-core memory buffer, and the secondary sink a UART.
/// Writing to the UART requires taking a mutex, but writing to the per-core memory buffer does not.
/// This means that when the UART is disabled, logging never blocks.
pub struct HybridLogger<P: LogSink, S: LogSink> {
    primary: P,
    secondary: S,
    secondary_enabled: bool,
}

impl<P: LogSink, S: LogSink> HybridLogger<P, S> {
    /// Whether logs also go to the secondary sink.
    pub closed spec fn spec_secondary_enabled(&self) -> bool {
        self.secondary_enabled
    }

    /// The sink to which logs always go.
    pub closed spec fn spec_primary(&self) -> P {
        self.primary
    }

    /// The sink to which logs go while it is enabled.
    pub closed spec fn spec_secondary(&self) -> S {
        self.secondary
    }

    /// Creates a new logger with the given primary and secondary log sinks. Logging to the
    /// secondary sink is initially enabled.
    pub fn new(primary: P, secondary: S) -> (r: Self)
        ensures
            r.spec_secondary_enabled(),
            r.spec_primary() == primary,
            r.spec_secondary() == secondary,
    {
        HybridLogger { primary, secondary, secondary_enabled: true }
    }

    /// Enables or disables writing logs to the secondary sink.
    pub fn enable_secondary(&mut self, enable: bool)
        ensures
            final(self).spec_secondary_enabled() == enable,
            final(self).spec_primary() == old(self).spec_primary(),
            final(self).spec_secondary() == old(self).spec_secondary(),
    {
        self.secondary_enabled = enable;
    }

    /// Returns the sinks that a write goes to, primary then secondary: always the primary sink,
    /// and the secondary sink while it is enabled.
    pub fn write_targets(&self) -> (r: (bool, bool))
        ensures
            r == (true, self.spec_secondary_enabled()),
    {
        (true, self.secondary_enabled)
    }

    /// Returns whether logs also go to the secondary sink.
    pub fn secondary_enabled(&self) -> (r: bool)
        ensures
            r == self.spec_secondary_enabled(),
    {
        self.secondary_enabled
    }
}

impl<P: LogSink, S: LogSink> LogSink for HybridLogger<P, S> {
    /// Writes to the sinks that [`HybridLogger::write_targets`] names, primary first.
    fn write_str(&self, s: &str) {
        let (to_primary, to_secondary) = self.write_targets();
        if to_primary {
            self.primary.write_str(s);
        }
        if to_secondary {
            self.secondary.write_str(s);
        }
    }
}

} // verus!
