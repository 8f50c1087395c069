use vstd::prelude::*;
use crate::http::Method;

verus! {

/// Mathematical form of one log record.
pub enum LogView {
    /// The access-logging stage saw a request arrive.
    Access { method: Method, path: Seq<char> },
    /// The access-logging stage saw the response go out with this status.
    Completed { status: u16 },
    /// The data-processing handler accepted this JSON payload.
    ProcessDiag { payload: Seq<u8> },
    /// The passthrough handler received a payload of this many bytes.
    GrpcPayload { len: nat },
}

/// One log record, carried as a structured value so that tests can observe
/// the side channel without capturing real log output. Rendering records as
/// human-readable lines is the caller's affair.
pub enum LogEntry {
    Access { method: Method, path: String },
    Completed { status: u16 },
    ProcessDiag { payload: Vec<u8> },
    GrpcPayload { len: usize },
}

impl View for LogEntry {
    type V = LogView;

    open spec fn view(&self) -> LogView {
        match self {
            LogEntry::Access { method, path } => (LogView::Access {
                method: *method,
                path: path@,
            }),
            LogEntry::Completed { status } => (LogView::Completed { status: *status }),
            LogEntry::ProcessDiag { payload } => (LogView::ProcessDiag { payload: payload@ }),
            LogEntry::GrpcPayload { len } => (LogView::GrpcPayload { len: *len as nat }),
        }
    }
}

/// The injected logging sink: an append-only sequence of records.
pub struct LogSink {
    pub entries: Vec<LogEntry>,
}

impl View for LogSink {
    type V = Seq<LogView>;

    open spec fn view(&self) -> Seq<LogView> {
        self.entries@.map(|i: int, e: LogEntry| e@)
    }
}

impl LogSink {
    /// An empty sink.
    pub fn new() -> (s: Self)
        ensures
            s@ == Seq::<LogView>::empty(),
    {
        let s = LogSink { entries: Vec::new() };
        proof {
            assert(s@ =~= Seq::<LogView>::empty());
        }
        s
    }

    /// Appends one record; everything already recorded stays as it was.
    pub fn record(&mut self, e: LogEntry)
        ensures
            final(self)@ == old(self)@.push(e@),
    {
        self.entries.push(e);
        proof {
            assert(self@ =~= old(self)@.push(e@));
        }
    }
}

} // verus!
