//! Per-sink configuration, the severity filter, and the console sink.

use vstd::prelude::*;
use crate::render::push_bytes;
use crate::severity::Severity;

verus! {

/// Configuration of one sink: whether it is enabled, the least severity it
/// forwards, and whether rendered headers carry the source location.
#[derive(Clone, Copy, Debug, PartialEq, Eq, Structural)]
pub struct SinkConfig {
    pub enabled: bool,
    pub threshold: Severity,
    pub show_location: bool,
}

/// The severity filter: a sink under `cfg` receives a record exactly when
/// the sink is enabled and the record's severity is at least the threshold.
pub open spec fn spec_passes(cfg: SinkConfig, severity: Severity) -> bool {
    cfg.enabled && severity.rank() >= cfg.threshold.rank()
}

/// Executable severity filter, equal to `spec_passes`.
pub fn passes(cfg: &SinkConfig, severity: &Severity) -> (r: bool)
    ensures
        r == spec_passes(*cfg, *severity),
{
    cfg.enabled && severity.at_least(&cfg.threshold)
}

/// No threshold filters a critical record: it passes every enabled sink.
pub proof fn lemma_critical_always_passes(cfg: SinkConfig)
    ensures
        spec_passes(cfg, Severity::Critical) == cfg.enabled,
{
}

/// The console sink: a writer over the process's standard output stream.
/// The bytes written since the embedder last drained them are modelled
/// here; putting them on the terminal, and any decoration when that
/// terminal is interactive, is delegated to the embedder.
#[derive(Debug)]
pub struct ConsoleSink {
    /// Bytes written and not yet drained, in write order.
    pub out: Vec<u8>,
}

impl ConsoleSink {
    /// A fresh console sink with nothing written.
    pub fn new() -> (s: ConsoleSink)
        ensures
            s.out@ == Seq::<u8>::empty(),
    {
        ConsoleSink { out: Vec::new() }
    }

    /// Writes one rendered line to the console stream.
    pub fn write_line(&mut self, line: &Vec<u8>)
        ensures
            final(self).out@ == old(self).out@ + line@,
    {
        push_bytes(&mut self.out, line);
    }

    /// Hands the pending bytes to the embedder and clears them.
    pub fn drain(&mut self) -> (r: Vec<u8>)
        ensures
            r@ == old(self).out@,
            final(self).out@ == Seq::<u8>::empty(),
    {
        let mut taken: Vec<u8> = Vec::new();
        core::mem::swap(&mut self.out, &mut taken);
        taken
    }
}

} // verus!
