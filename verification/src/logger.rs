//! The fan-out logger: one record is attempted against the console and file
//! sinks, each behind its own severity filter, and failure of one sink never
//! stops the attempt against the other.

use vstd::prelude::*;
use crate::record::Location;
use crate::record::LocationModel;
use crate::record::LogRecord;
use crate::record::RecordModel;
use crate::record::Timestamp;
use crate::record::now_local;
use crate::render::push_bytes;
use crate::render::render_record;
use crate::render::spec_rendered;
use crate::rotate::RotatingFileSink;
use crate::rotate::RotationPolicy;
use crate::rotate::SinkError;
use crate::rotate::SinkModel;
use crate::rotate::spec_write;
use crate::severity::Severity;
use crate::sink::ConsoleSink;
use crate::sink::SinkConfig;
use crate::sink::passes;
use crate::sink::spec_passes;

verus! {

/// ASCII line feed, appended by each sink after a rendered record.
pub const NEWLINE: u8 = 10;

/// The line a sink under `cfg` writes for `rec`: the rendered record and a
/// trailing newline.
pub open spec fn spec_sink_line(rec: RecordModel, cfg: SinkConfig) -> Seq<u8> {
    spec_rendered(rec, cfg.show_location) + seq![NEWLINE]
}

/// What one log call reported: the lines handed to the embedder for
/// mirroring on the terminal and on disk, whether the file sink rotated,
/// and whether an attempted sink refused the record.
#[derive(Debug)]
pub struct LogOutput {
    /// The line the console sink received, when it received one.
    pub console_line: Option<Vec<u8>>,
    /// The line appended to the live file, when the file sink accepted it.
    pub file_line: Option<Vec<u8>>,
    /// Whether this write triggered a rotation of the file sink.
    pub rotated: bool,
    /// Whether an attempted sink refused the record.
    pub failed: bool,
}

/// Mathematical view of a `LogOutput`.
#[verifier::ext_equal]
pub struct LogOutputModel {
    pub console_line: Option<Seq<u8>>,
    pub file_line: Option<Seq<u8>>,
    pub rotated: bool,
    pub failed: bool,
}

impl View for LogOutput {
    type V = LogOutputModel;

    open spec fn view(&self) -> LogOutputModel {
        LogOutputModel {
            console_line: match self.console_line {
                Some(l) => Some(l@),
                None => None,
            },
            file_line: match self.file_line {
                Some(l) => Some(l@),
                None => None,
            },
            rotated: self.rotated,
            failed: self.failed,
        }
    }
}

/// The composed logger: console and file sinks, each with its own filter.
#[derive(Debug)]
pub struct Logger {
    pub console_cfg: SinkConfig,
    pub file_cfg: SinkConfig,
    pub console: ConsoleSink,
    pub file: RotatingFileSink,
}

/// Mathematical view of a `Logger`.
#[verifier::ext_equal]
pub struct LoggerModel {
    pub console_cfg: SinkConfig,
    pub file_cfg: SinkConfig,
    /// Bytes pending on the console sink.
    pub console: Seq<u8>,
    pub file: SinkModel,
}

impl View for Logger {
    type V = LoggerModel;

    open spec fn view(&self) -> LoggerModel {
        LoggerModel {
            console_cfg: self.console_cfg,
            file_cfg: self.file_cfg,
            console: self.console.out@,
            file: self.file@,
        }
    }
}

/// What one log call does to the logger model and what it reports. Each
/// sink receives the record exactly when its own filter passes it; both are
/// attempted independently; a record that passes no filter is dropped with
/// success and zero writes.
pub open spec fn spec_log(l: LoggerModel, rec: RecordModel) -> (LoggerModel, LogOutputModel) {
    let console_pass = spec_passes(l.console_cfg, rec.severity);
    let file_pass = spec_passes(l.file_cfg, rec.severity);
    let console_line = spec_sink_line(rec, l.console_cfg);
    let file_line = spec_sink_line(rec, l.file_cfg);
    let console2 = if console_pass {
        l.console + console_line
    } else {
        l.console
    };
    let write = if file_pass {
        spec_write(l.file, file_line)
    } else {
        (l.file, Ok(false))
    };
    (
        LoggerModel { console: console2, file: write.0, ..l },
        LogOutputModel {
            console_line: if console_pass {
                Some(console_line)
            } else {
                None
            },
            file_line: if file_pass && !l.file.failed {
                Some(file_line)
            } else {
                None
            },
            rotated: file_pass && write.1 == Ok::<bool, SinkError>(true),
            failed: file_pass && write.1 is Err,
        },
    )
}

/// Relation of one timed log call: the logger and the report move as
/// `spec_log` says for the record stamped `ts`, a well-formed local time.
pub open spec fn log_call_post(
    pre: LoggerModel,
    post: LoggerModel,
    ts: Timestamp,
    severity: Severity,
    message: Seq<u8>,
    location: Option<LocationModel>,
    out: LogOutputModel,
) -> bool {
    let rec = RecordModel { timestamp: ts, severity, message, location };
    &&& ts.wf()
    &&& post == spec_log(pre, rec).0
    &&& out == spec_log(pre, rec).1
}

/// View of an optional location.
pub open spec fn spec_opt_location(location: Option<Location>) -> Option<LocationModel> {
    match location {
        Some(l) => Some(l@),
        None => None,
    }
}

impl Logger {
    /// The logger's invariant: its file sink is well formed.
    pub open spec fn wf(self) -> bool {
        self.file.wf()
    }

    /// A logger from the two sink configurations, the file path and the
    /// rotation policy: fresh sinks, nothing yet written.
    pub fn new(
        console_cfg: SinkConfig,
        file_cfg: SinkConfig,
        path: Vec<u8>,
        policy: RotationPolicy,
    ) -> (l: Logger)
        ensures
            l.wf(),
            l@ == (LoggerModel {
                console_cfg,
                file_cfg,
                console: Seq::empty(),
                file: SinkModel {
                    path: path@,
                    live: Seq::empty(),
                    history: Seq::empty(),
                    failed: false,
                    max_bytes: policy.max_bytes,
                    keep_count: policy.keep_count,
                    compress: policy.compress,
                },
            }),
    {
        Logger {
            console_cfg,
            file_cfg,
            console: ConsoleSink::new(),
            file: RotatingFileSink::new(path, policy),
        }
    }

    /// Logs one already-stamped record: fan-out to both sinks, each behind
    /// its own severity filter. Both sinks are attempted even when one has
    /// failed; `failed` in the report aggregates the attempts.
    pub fn log_record(&mut self, rec: &LogRecord) -> (out: LogOutput)
        requires
            old(self).wf(),
        ensures
            final(self).wf(),
            final(self)@ == spec_log(old(self)@, rec@).0,
            out@ == spec_log(old(self)@, rec@).1,
    {
        let console_pass = passes(&self.console_cfg, &rec.severity);
        let file_pass = passes(&self.file_cfg, &rec.severity);
        let mut console_line: Option<Vec<u8>> = None;
        let mut file_line: Option<Vec<u8>> = None;
        let mut rotated = false;
        let mut failed = false;
        if console_pass {
            let (mut line, _) = render_record(rec, self.console_cfg.show_location);
            line.push(NEWLINE);
            proof {
                assert(line@ =~= spec_sink_line(rec@, old(self)@.console_cfg));
            }
            self.console.write_line(&line);
            console_line = Some(line);
        }
        if file_pass {
            let (mut line, _) = render_record(rec, self.file_cfg.show_location);
            line.push(NEWLINE);
            proof {
                assert(line@ =~= spec_sink_line(rec@, old(self)@.file_cfg));
            }
            if !self.file.failed {
                let mut handed: Vec<u8> = Vec::new();
                push_bytes(&mut handed, &line);
                file_line = Some(handed);
            }
            match self.file.write(line) {
                Ok(did_rotate) => {
                    rotated = did_rotate;
                },
                Err(_) => {
                    failed = true;
                },
            }
        }
        let out = LogOutput { console_line, file_line, rotated, failed };
        proof {
            assert(self@ =~~= spec_log(old(self)@, rec@).0);
            assert(out@ =~~= spec_log(old(self)@, rec@).1);
        }
        out
    }

    /// Logs a message at `severity`, stamped with the local time read at
    /// call time.
    pub fn log(&mut self, severity: Severity, message: Vec<u8>, location: Option<Location>) -> (out:
        LogOutput)
        requires
            old(self).wf(),
        ensures
            final(self).wf(),
            exists|ts: Timestamp|
                log_call_post(
                    old(self)@,
                    final(self)@,
                    ts,
                    severity,
                    message@,
                    spec_opt_location(location),
                    out@,
                ),
    {
        let ts = now_local();
        let ghost message_view = message@;
        let rec = LogRecord { timestamp: ts, severity, message, location };
        let out = self.log_record(&rec);
        proof {
            assert(log_call_post(
                old(self)@,
                self@,
                ts,
                severity,
                message_view,
                rec@.location,
                out@,
            ));
        }
        out
    }
}

/// Filter law: a record below a sink's threshold, or aimed at a disabled
/// sink, causes zero writes to that sink's underlying writer.
pub proof fn lemma_below_threshold_no_writes(l: LoggerModel, rec: RecordModel)
    ensures
        !spec_passes(l.console_cfg, rec.severity) ==> spec_log(l, rec).0.console == l.console,
        !spec_passes(l.file_cfg, rec.severity) ==> spec_log(l, rec).0.file == l.file,
{
}

/// Discard law: with both sinks disabled every log call succeeds, writes
/// nothing anywhere, and leaves the logger unchanged.
pub proof fn lemma_disabled_sinks_drop_everything(l: LoggerModel, rec: RecordModel)
    requires
        !l.console_cfg.enabled,
        !l.file_cfg.enabled,
    ensures
        spec_log(l, rec).0 == l,
        spec_log(l, rec).1 == (LogOutputModel {
            console_line: None,
            file_line: None,
            rotated: false,
            failed: false,
        }),
{
    assert(spec_log(l, rec).0 =~~= l);
}

/// Escalation law: a critical record passes every enabled sink's filter, so
/// each enabled, healthy sink receives its line. Terminating the process
/// afterwards is the embedder's duty.
pub proof fn lemma_critical_reaches_enabled_sinks(l: LoggerModel, rec: RecordModel)
    requires
        rec.severity == Severity::Critical,
        !l.file.failed,
    ensures
        l.console_cfg.enabled ==> spec_log(l, rec).1.console_line == Some(
            spec_sink_line(rec, l.console_cfg),
        ),
        l.file_cfg.enabled ==> spec_log(l, rec).1.file_line == Some(
            spec_sink_line(rec, l.file_cfg),
        ),
        spec_log(l, rec).1.failed == false,
{
}

} // verus!
