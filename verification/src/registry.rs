//! The global logger registry, modelled as explicit owned state: at most
//! one logger is active, installation returns a guard handle, and the
//! handle decides whether the previous logger comes back.

use vstd::prelude::*;
use crate::logger::LogOutput;
use crate::logger::Logger;
use crate::logger::LoggerModel;
use crate::logger::log_call_post;
use crate::logger::spec_opt_location;
use crate::record::Location;
use crate::record::Timestamp;
use crate::rotate::RotationPolicy;
use crate::rotate::SinkModel;
use crate::severity::Severity;
use crate::sink::SinkConfig;

verus! {

/// Mathematical view of the registry.
#[verifier::ext_equal]
pub struct RegistryModel {
    pub active: LoggerModel,
}

/// Mathematical view of an installation handle.
#[verifier::ext_equal]
pub struct HandleModel {
    pub previous: LoggerModel,
    pub canceled: bool,
}

/// What installation does: the new logger becomes active and the handle
/// owns the logger that was active, not yet canceled.
pub open spec fn spec_install(r: RegistryModel, l: LoggerModel) -> (RegistryModel, HandleModel) {
    (RegistryModel { active: l }, HandleModel { previous: r.active, canceled: false })
}

/// What canceling a handle does: only the flag flips.
pub open spec fn spec_cancel(h: HandleModel) -> HandleModel {
    HandleModel { canceled: true, ..h }
}

/// What releasing a handle does: a canceled handle leaves the active logger
/// as it is; an uncanceled one restores the logger it owns.
pub open spec fn spec_release(r: RegistryModel, h: HandleModel) -> RegistryModel {
    if h.canceled {
        r
    } else {
        RegistryModel { active: h.previous }
    }
}

/// A guard returned by installation. It owns the previously active logger;
/// releasing it restores that logger unless the handle was canceled first.
pub struct Handle {
    pub previous: Logger,
    pub canceled: bool,
}

impl View for Handle {
    type V = HandleModel;

    open spec fn view(&self) -> HandleModel {
        HandleModel { previous: self.previous@, canceled: self.canceled }
    }
}

impl Handle {
    /// The handle's invariant: the logger it owns is well formed.
    pub open spec fn wf(self) -> bool {
        self.previous.wf()
    }

    /// Makes the current installation permanent: after canceling, releasing
    /// the handle no longer restores the previous logger. This is the only
    /// way to keep an installation for the rest of the process.
    pub fn cancel(&mut self)
        requires
            old(self).wf(),
        ensures
            final(self).wf(),
            final(self)@ == spec_cancel(old(self)@),
    {
        self.canceled = true;
        proof {
            assert(self@ =~~= spec_cancel(old(self)@));
        }
    }
}

/// The logger registry: the one currently active logger.
pub struct Registry {
    pub active: Logger,
}

impl View for Registry {
    type V = RegistryModel;

    open spec fn view(&self) -> RegistryModel {
        RegistryModel { active: self.active@ }
    }
}

/// The configuration of a discard logger: both sinks disabled, so every
/// record is dropped with success.
pub open spec fn spec_discard_logger() -> LoggerModel {
    LoggerModel {
        console_cfg: SinkConfig { enabled: false, threshold: Severity::Trace, show_location: false },
        file_cfg: SinkConfig { enabled: false, threshold: Severity::Trace, show_location: false },
        console: Seq::empty(),
        file: SinkModel {
            path: Seq::empty(),
            live: Seq::empty(),
            history: Seq::empty(),
            failed: false,
            max_bytes: 0,
            keep_count: 0,
            compress: false,
        },
    }
}

impl Registry {
    /// The registry's invariant: the active logger is well formed.
    pub open spec fn wf(self) -> bool {
        self.active.wf()
    }

    /// A registry whose active logger discards everything.
    pub fn new() -> (r: Registry)
        ensures
            r.wf(),
            r@ == (RegistryModel { active: spec_discard_logger() }),
    {
        let off = SinkConfig { enabled: false, threshold: Severity::Trace, show_location: false };
        let policy = RotationPolicy { max_bytes: 0, keep_count: 0, compress: false };
        Registry { active: Logger::new(off, off, Vec::new(), policy) }
    }

    /// Installs `logger` as the active logger and returns the guard handle
    /// that owns the logger it replaced.
    pub fn install(&mut self, logger: Logger) -> (h: Handle)
        requires
            old(self).wf(),
            logger.wf(),
        ensures
            final(self).wf(),
            h.wf(),
            final(self)@ == spec_install(old(self)@, logger@).0,
            h@ == spec_install(old(self)@, logger@).1,
    {
        let mut replaced = logger;
        core::mem::swap(&mut self.active, &mut replaced);
        Handle { previous: replaced, canceled: false }
    }

    /// Drops a handle: restores the previously active logger, unless the
    /// handle was canceled, in which case the current logger stays.
    pub fn release(&mut self, handle: Handle)
        requires
            old(self).wf(),
            handle.wf(),
        ensures
            final(self).wf(),
            final(self)@ == spec_release(old(self)@, handle@),
    {
        let Handle { previous, canceled } = handle;
        if !canceled {
            self.active = previous;
        }
    }

    /// Logs through the currently active logger.
    pub fn log(&mut self, severity: Severity, message: Vec<u8>, location: Option<Location>) -> (out:
        LogOutput)
        requires
            old(self).wf(),
        ensures
            final(self).wf(),
            exists|ts: Timestamp|
                log_call_post(
                    old(self)@.active,
                    final(self)@.active,
                    ts,
                    severity,
                    message@,
                    spec_opt_location(location),
                    out@,
                ),
    {
        self.active.log(severity, message, location)
    }

    /// Logs at trace severity.
    pub fn trace(&mut self, message: Vec<u8>, location: Option<Location>) -> (out: LogOutput)
        requires
            old(self).wf(),
        ensures
            final(self).wf(),
            exists|ts: Timestamp|
                log_call_post(
                    old(self)@.active,
                    final(self)@.active,
                    ts,
                    Severity::Trace,
                    message@,
                    spec_opt_location(location),
                    out@,
                ),
    {
        self.log(Severity::Trace, message, location)
    }

    /// Logs at debug severity.
    pub fn debug(&mut self, message: Vec<u8>, location: Option<Location>) -> (out: LogOutput)
        requires
            old(self).wf(),
        ensures
            final(self).wf(),
            exists|ts: Timestamp|
                log_call_post(
                    old(self)@.active,
                    final(self)@.active,
                    ts,
                    Severity::Debug,
                    message@,
                    spec_opt_location(location),
                    out@,
                ),
    {
        self.log(Severity::Debug, message, location)
    }

    /// Logs at info severity.
    pub fn info(&mut self, message: Vec<u8>, location: Option<Location>) -> (out: LogOutput)
        requires
            old(self).wf(),
        ensures
            final(self).wf(),
            exists|ts: Timestamp|
                log_call_post(
                    old(self)@.active,
                    final(self)@.active,
                    ts,
                    Severity::Info,
                    message@,
                    spec_opt_location(location),
                    out@,
                ),
    {
        self.log(Severity::Info, message, location)
    }

    /// Logs at warn severity.
    pub fn warn(&mut self, message: Vec<u8>, location: Option<Location>) -> (out: LogOutput)
        requires
            old(self).wf(),
        ensures
            final(self).wf(),
            exists|ts: Timestamp|
                log_call_post(
                    old(self)@.active,
                    final(self)@.active,
                    ts,
                    Severity::Warn,
                    message@,
                    spec_opt_location(location),
                    out@,
                ),
    {
        self.log(Severity::Warn, message, location)
    }

    /// Logs at error severity.
    pub fn error(&mut self, message: Vec<u8>, location: Option<Location>) -> (out: LogOutput)
        requires
            old(self).wf(),
        ensures
            final(self).wf(),
            exists|ts: Timestamp|
                log_call_post(
                    old(self)@.active,
                    final(self)@.active,
                    ts,
                    Severity::Error,
                    message@,
                    spec_opt_location(location),
                    out@,
                ),
    {
        self.log(Severity::Error, message, location)
    }

    /// Logs at critical severity. A critical record passes every enabled
    /// sink's filter; after this call returns, the embedder is expected to
    /// terminate the process with a non-zero exit status — escalation is
    /// deliberate and not an error return.
    pub fn critical(&mut self, message: Vec<u8>, location: Option<Location>) -> (out: LogOutput)
        requires
            old(self).wf(),
        ensures
            final(self).wf(),
            exists|ts: Timestamp|
                log_call_post(
                    old(self)@.active,
                    final(self)@.active,
                    ts,
                    Severity::Critical,
                    message@,
                    spec_opt_location(location),
                    out@,
                ),
    {
        self.log(Severity::Critical, message, location)
    }
}

/// The logger model `initlogger` builds: one severity threshold and one
/// location flag shared by both sinks, each sink enabled by its own flag.
pub open spec fn spec_init_logger(
    std_enabled: bool,
    file_enabled: bool,
    logfile: Seq<u8>,
    filesize: u64,
    log_level: Severity,
    detail: bool,
    keep_num: usize,
    compress: bool,
) -> LoggerModel {
    LoggerModel {
        console_cfg: SinkConfig { enabled: std_enabled, threshold: log_level, show_location: detail },
        file_cfg: SinkConfig { enabled: file_enabled, threshold: log_level, show_location: detail },
        console: Seq::empty(),
        file: SinkModel {
            path: logfile,
            live: Seq::empty(),
            history: Seq::empty(),
            failed: false,
            max_bytes: filesize,
            keep_count: keep_num,
            compress,
        },
    }
}

/// Composes the logger the configuration asks for: console sink, file sink,
/// both, or neither — a disabled sink discards its records, so all four
/// compositions are one logger with per-sink enabled flags.
pub fn initlogger(
    std_enabled: bool,
    file_enabled: bool,
    logfile: Vec<u8>,
    filesize: u64,
    log_level: Severity,
    detail: bool,
    keep_num: usize,
    compress: bool,
) -> (l: Logger)
    ensures
        l.wf(),
        l@ == spec_init_logger(
            std_enabled,
            file_enabled,
            logfile@,
            filesize,
            log_level,
            detail,
            keep_num,
            compress,
        ),
{
    let console_cfg = SinkConfig { enabled: std_enabled, threshold: log_level, show_location: detail };
    let file_cfg = SinkConfig { enabled: file_enabled, threshold: log_level, show_location: detail };
    let policy = RotationPolicy { max_bytes: filesize, keep_count: keep_num, compress };
    Logger::new(console_cfg, file_cfg, logfile, policy)
}

/// Builds the configured logger and installs it permanently: the guard is
/// canceled and released, so the installation outlives the call.
pub fn setup_logger(
    registry: &mut Registry,
    std_enabled: bool,
    file_enabled: bool,
    logfile: Vec<u8>,
    filesize: u64,
    log_level: Severity,
    detail: bool,
    keep_num: usize,
    compress: bool,
)
    requires
        old(registry).wf(),
    ensures
        final(registry).wf(),
        final(registry)@ == (RegistryModel {
            active: spec_init_logger(
                std_enabled,
                file_enabled,
                logfile@,
                filesize,
                log_level,
                detail,
                keep_num,
                compress,
            ),
        }),
{
    let logger = initlogger(
        std_enabled,
        file_enabled,
        logfile,
        filesize,
        log_level,
        detail,
        keep_num,
        compress,
    );
    let mut handle = registry.install(logger);
    handle.cancel();
    registry.release(handle);
}

/// Install/guard law: installing a logger and releasing the handle without
/// canceling restores the previously active logger, exactly as it was.
pub proof fn lemma_release_restores_previous(r: RegistryModel, l: LoggerModel)
    ensures
        ({
            let (installed, h) = spec_install(r, l);
            spec_release(installed, h) == r
        }),
{
    let (installed, h) = spec_install(r, l);
    assert(spec_release(installed, h) =~~= r);
}

/// Install/guard law: canceling the handle makes the installation
/// permanent — releasing it afterwards leaves the new logger active, and
/// exactly one logger is active throughout.
pub proof fn lemma_cancel_makes_permanent(r: RegistryModel, l: LoggerModel)
    ensures
        ({
            let (installed, h) = spec_install(r, l);
            spec_release(installed, spec_cancel(h)).active == l
        }),
{
}

} // verus!
