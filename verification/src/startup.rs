//! The startup pipeline: logging first, then the bind, then serving.
//!
//! Logging prefers a file sink; if the file sink cannot be initialized the
//! pipeline falls back to a console sink and carries on — only a failure of
//! the fallback itself is unrecoverable. A failed bind halts the pipeline
//! with a nonzero exit code for the process to exit with; nothing else halts
//! it. The destination string handed to the bind call, and the placeholder
//! used when a peer address cannot be resolved, are built here too.

use vstd::prelude::*;
use vstd::string::*;
use crate::decimal::{dec_rep, dec_string};

verus! {

/// The exit code owed when the listener cannot bind.
pub const BIND_FAILURE_EXIT_CODE: i32 = 1;

/// Which logging sink is active.
#[derive(Clone, Copy, PartialEq, Eq, Structural, Debug)]
pub enum SinkKind {
    /// The preferred sink: a log file.
    FileSink,
    /// The fallback sink: the console.
    ConsoleSink,
}

/// Where the startup pipeline stands.
#[derive(Clone, Copy, PartialEq, Eq, Structural, Debug)]
pub enum StartupStage {
    /// Trying to initialize the file sink.
    ActivatingLogging,
    /// The file sink failed; trying the console sink.
    ActivatingFallback,
    /// A sink is active; trying to bind the listener.
    Binding { sink: SinkKind },
    /// Bound and serving; terminal but for process shutdown.
    Serving { sink: SinkKind },
    /// The bind failed; the process must exit with this code.
    Aborted { exit_code: i32 },
    /// Even the console sink failed: the one unrecoverable logging failure.
    LoggingUnrecoverable,
}

/// What the pipeline is told as startup proceeds.
#[derive(Clone, Copy, PartialEq, Eq, Structural, Debug)]
pub enum StartupEvent {
    /// Whether the file sink came up.
    FileSinkInit { ok: bool },
    /// Whether the console sink came up.
    ConsoleSinkInit { ok: bool },
    /// Whether the bind succeeded.
    BindAttempt { ok: bool },
}

/// The next stage after `event` in stage `stage`. An event that does not
/// belong to the stage leaves it unchanged.
pub open spec fn spec_startup_step(stage: StartupStage, event: StartupEvent) -> StartupStage {
    match (stage, event) {
        (StartupStage::ActivatingLogging, StartupEvent::FileSinkInit { ok }) => {
            if ok {
                (StartupStage::Binding { sink: SinkKind::FileSink })
            } else {
                StartupStage::ActivatingFallback
            }
        },
        (StartupStage::ActivatingFallback, StartupEvent::ConsoleSinkInit { ok }) => {
            if ok {
                (StartupStage::Binding { sink: SinkKind::ConsoleSink })
            } else {
                StartupStage::LoggingUnrecoverable
            }
        },
        (StartupStage::Binding { sink }, StartupEvent::BindAttempt { ok }) => {
            if ok {
                (StartupStage::Serving { sink })
            } else {
                (StartupStage::Aborted { exit_code: BIND_FAILURE_EXIT_CODE })
            }
        },
        _ => stage,
    }
}

/// The startup pipeline's state.
pub struct StartupPipeline {
    pub stage: StartupStage,
}

impl StartupPipeline {
    /// A fresh pipeline, about to try the file sink.
    pub fn new() -> (p: Self)
        ensures
            p.stage is ActivatingLogging,
    {
        StartupPipeline { stage: StartupStage::ActivatingLogging }
    }

    /// Advances the pipeline by one event.
    pub fn step(&mut self, event: StartupEvent) -> (stage: StartupStage)
        ensures
            final(self).stage == spec_startup_step(old(self).stage, event),
            stage == final(self).stage,
    {
        let next = match (self.stage, event) {
            (StartupStage::ActivatingLogging, StartupEvent::FileSinkInit { ok }) => {
                if ok {
                    StartupStage::Binding { sink: SinkKind::FileSink }
                } else {
                    StartupStage::ActivatingFallback
                }
            },
            (StartupStage::ActivatingFallback, StartupEvent::ConsoleSinkInit { ok }) => {
                if ok {
                    StartupStage::Binding { sink: SinkKind::ConsoleSink }
                } else {
                    StartupStage::LoggingUnrecoverable
                }
            },
            (StartupStage::Binding { sink }, StartupEvent::BindAttempt { ok }) => {
                if ok {
                    StartupStage::Serving { sink }
                } else {
                    StartupStage::Aborted { exit_code: BIND_FAILURE_EXIT_CODE }
                }
            },
            (stage, _) => stage,
        };
        self.stage = next;
        next
    }
}

/// Logging fallback: if the file sink fails to initialize but the console
/// sink comes up, startup is not aborted — the pipeline proceeds to the bind
/// with the console sink active.
pub proof fn lemma_logging_fallback()
    ensures
        spec_startup_step(
            StartupStage::ActivatingLogging,
            (StartupEvent::FileSinkInit { ok: false }),
        ) is ActivatingFallback,
        spec_startup_step(
            StartupStage::ActivatingFallback,
            (StartupEvent::ConsoleSinkInit { ok: true }),
        ) == (StartupStage::Binding { sink: SinkKind::ConsoleSink }),
{
}

/// Bind failure is fatal with a nonzero exit code: from either sink, a
/// failed bind aborts the pipeline with the bind-failure code, and that code
/// is not zero.
pub proof fn lemma_bind_failure_fatal(sink: SinkKind)
    ensures
        spec_startup_step(
            (StartupStage::Binding { sink }),
            (StartupEvent::BindAttempt { ok: false }),
        ) == (StartupStage::Aborted { exit_code: BIND_FAILURE_EXIT_CODE }),
        BIND_FAILURE_EXIT_CODE != 0,
{
}

/// The destination string handed to the bind call: the address, a colon, and
/// the decimal port.
pub fn destination(ip: &str, port: u16) -> (s: String)
    ensures
        s@ == ip@ + ":"@ + dec_rep(port as nat),
{
    let mut s = String::from_str(ip);
    s.append(":");
    let p = dec_string(port as usize);
    s.append(p.as_str());
    proof {
        assert(s@ =~= ip@ + ":"@ + dec_rep(port as nat));
    }
    s
}

/// The label used for a peer in log messages: the resolved address, or the
/// fixed placeholder when resolution failed.
pub fn peer_label(addr: Option<String>) -> (s: String)
    ensures
        s@ == (match addr {
            Option::Some(a) => a@,
            Option::None => "unknown"@,
        }),
{
    match addr {
        Option::Some(a) => a,
        Option::None => String::from_str("unknown"),
    }
}

} // verus!
