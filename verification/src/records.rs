use vstd::prelude::*;

verus! {

/// Mathematical image of one fetched log event: the fields the engine
/// reads, as plain values.
pub struct LogRecordView {
    pub event_id: Option<Seq<char>>,
    pub message: Option<Seq<char>>,
    pub timestamp: Option<i64>,
}

/// One fetched log event. The remote service may deliver the same record
/// in two overlapping pages; records are told apart by `event_id`.
#[derive(Debug, Clone, PartialEq)]
pub struct LogRecord {
    pub event_id: Option<String>,
    pub message: Option<String>,
    pub timestamp: Option<i64>,
}

impl View for LogRecord {
    type V = LogRecordView;

    open spec fn view(&self) -> LogRecordView {
        LogRecordView {
            event_id: self.event_id.deep_view(),
            message: self.message.deep_view(),
            timestamp: self.timestamp,
        }
    }
}

impl DeepView for LogRecord {
    type V = LogRecordView;

    open spec fn deep_view(&self) -> LogRecordView {
        self.view()
    }
}

/// Mathematical image of one log-group entry.
pub struct LogGroupRecordView {
    pub log_group_name: Option<Seq<char>>,
    pub arn: Option<Seq<char>>,
}

/// One entry of the log-group listing.
#[derive(Debug, Clone, PartialEq)]
pub struct LogGroupRecord {
    pub log_group_name: Option<String>,
    pub arn: Option<String>,
}

impl View for LogGroupRecord {
    type V = LogGroupRecordView;

    open spec fn view(&self) -> LogGroupRecordView {
        LogGroupRecordView {
            log_group_name: self.log_group_name.deep_view(),
            arn: self.arn.deep_view(),
        }
    }
}

impl DeepView for LogGroupRecord {
    type V = LogGroupRecordView;

    open spec fn deep_view(&self) -> LogGroupRecordView {
        self.view()
    }
}

/// Reserved event id of the synthetic "more pages exist" log event.
pub open spec fn more_event_id() -> Seq<char> {
    "999"@
}

/// Reserved name of the synthetic "more pages exist" log-group entry.
pub open spec fn more_group_name() -> Seq<char> {
    "More..."@
}

/// Reserved arn of the synthetic "more pages exist" log-group entry.
pub open spec fn more_group_arn() -> Seq<char> {
    "more"@
}

/// True when the optional string holds exactly the given character sequence.
pub open spec fn opt_is_str(o: Option<Seq<char>>, s: Seq<char>) -> bool {
    o matches Some(t) && t == s
}

/// Compares an optional owned string against a string slice.
pub fn opt_string_is(o: &Option<String>, lit: &str) -> (r: bool)
    ensures
        r == opt_is_str(o.deep_view(), lit@),
{
    match o {
        Some(s) => {
            let owned: String = lit.to_owned();
            *s == owned
        },
        None => false,
    }
}

/// Clones an optional string, field for field.
pub fn clone_opt_string(o: &Option<String>) -> (r: Option<String>)
    ensures
        r.deep_view() == o.deep_view(),
{
    match o {
        Some(s) => Some(s.clone()),
        None => None,
    }
}

/// Clones a log record, field for field.
pub fn clone_record(r: &LogRecord) -> (c: LogRecord)
    ensures
        c@ == r@,
{
    LogRecord {
        event_id: clone_opt_string(&r.event_id),
        message: clone_opt_string(&r.message),
        timestamp: r.timestamp,
    }
}

/// Clones a log-group record, field for field.
pub fn clone_group_record(g: &LogGroupRecord) -> (c: LogGroupRecord)
    ensures
        c@ == g@,
{
    LogGroupRecord {
        log_group_name: clone_opt_string(&g.log_group_name),
        arn: clone_opt_string(&g.arn),
    }
}

} // verus!
