//! The shape of the server's structured log records and the classification
//! of a record by the thread that emitted it.
//!
//! Log shipping itself — files, timestamps, the push endpoint — is the
//! embedding program's business; this module owns the record layout it
//! parses into and the pure rule that assigns a record to its source.

use vstd::prelude::*;

use crate::text;

verus! {

/// One structured log record.
#[derive(Clone, Debug, PartialEq)]
pub struct Log {
    pub timestamp: String,
    pub level: String,
    pub fields: Fields,
    pub target: String,
    pub span: Option<Span>,
    pub spans: Option<Vec<Span>>,
    pub thread_name: String,
}

/// The free-form fields of a record.
#[derive(Clone, Debug, PartialEq)]
pub struct Fields {
    pub message: String,
}

/// One span a record was emitted under.
#[derive(Clone, Debug, PartialEq)]
pub struct Span {
    pub name: String,
}

/// Which part of the server emitted a record.
#[derive(PartialEq, Eq, Structural, Clone, Copy, Debug)]
pub enum LogSource {
    /// The HTTP signaling front.
    SignallingServer,
    /// The supervisor.
    Main,
    /// A media transport worker.
    Transport,
}

/// The source a source label names; an unknown label falls back to the
/// supervisor.
pub open spec fn spec_source_from(s: Seq<char>) -> LogSource {
    if s == "signalling_server"@ {
        LogSource::SignallingServer
    } else if s == "main"@ {
        LogSource::Main
    } else if s == "transport"@ {
        LogSource::Transport
    } else {
        LogSource::Main
    }
}

/// The label of a source.
pub open spec fn spec_source_str(source: LogSource) -> Seq<char> {
    match source {
        LogSource::SignallingServer => "signalling_server"@,
        LogSource::Main => "main"@,
        LogSource::Transport => "transport"@,
    }
}

impl LogSource {
    /// Reads a source from its label; an unknown label falls back to the
    /// supervisor.
    pub fn from_str(s: &str) -> (source: LogSource)
        ensures
            source == spec_source_from(s@),
    {
        if text::str_eq(s, "signalling_server") {
            LogSource::SignallingServer
        } else if text::str_eq(s, "main") {
            LogSource::Main
        } else if text::str_eq(s, "transport") {
            LogSource::Transport
        } else {
            LogSource::Main
        }
    }

    /// The label of this source.
    pub fn to_str(&self) -> (s: &str)
        ensures
            s@ == spec_source_str(*self),
    {
        match self {
            LogSource::SignallingServer => "signalling_server",
            LogSource::Main => "main",
            LogSource::Transport => "transport",
        }
    }
}

/// The source of a record, judged by the thread that emitted it: the HTTP
/// front's threads carry the front's prefix, the supervisor runs on the main
/// thread, the unnamed worker threads carry the runtime's thread-id prefix,
/// and anything else counts as the supervisor.
pub open spec fn spec_source_of_thread(thread_name: Seq<char>) -> LogSource {
    if text::spec_starts_with(thread_name, "actix"@) {
        LogSource::SignallingServer
    } else if thread_name == "main"@ {
        LogSource::Main
    } else if text::spec_starts_with(thread_name, "ThreadId"@) {
        LogSource::Transport
    } else {
        LogSource::Main
    }
}

/// Classifies a record by the name of the thread that emitted it.
pub fn log_source_of_thread(thread_name: &str) -> (source: LogSource)
    ensures
        source == spec_source_of_thread(thread_name@),
{
    if text::str_starts_with(thread_name, "actix") {
        LogSource::SignallingServer
    } else if text::str_eq(thread_name, "main") {
        LogSource::Main
    } else if text::str_starts_with(thread_name, "ThreadId") {
        LogSource::Transport
    } else {
        LogSource::Main
    }
}

/// Reading a label back yields the source it was written for: the three
/// labels are distinct, so the fallback never misdirects a known source.
pub proof fn lemma_source_label_round_trip(source: LogSource)
    ensures
        spec_source_from(spec_source_str(source)) == source,
{
    reveal_strlit("signalling_server");
    reveal_strlit("main");
    reveal_strlit("transport");
    assert("signalling_server"@.len() == 17);
    assert("main"@.len() == 4);
    assert("transport"@.len() == 9);
}

} // verus!
