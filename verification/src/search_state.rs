use vstd::prelude::*;

use crate::clock::{datetime_text, datetime_text_of, now_millis};

verus! {

/// Time-range mode of a search: live tail, a relative preset, or an
/// explicit pair of millisecond bounds.
#[derive(Debug, Clone, Copy)]
pub enum SearchMode {
    Tail,
    OneMinute,
    ThirtyMinutes,
    OneHour,
    TwelveHours,
    FromTo(Option<i64>, Option<i64>),
}

/// Structural equality of two modes.
pub open spec fn mode_eq(a: SearchMode, b: SearchMode) -> bool {
    match (a, b) {
        (SearchMode::Tail, SearchMode::Tail) => true,
        (SearchMode::OneMinute, SearchMode::OneMinute) => true,
        (SearchMode::ThirtyMinutes, SearchMode::ThirtyMinutes) => true,
        (SearchMode::OneHour, SearchMode::OneHour) => true,
        (SearchMode::TwelveHours, SearchMode::TwelveHours) => true,
        (SearchMode::FromTo(f1, t1), SearchMode::FromTo(f2, t2)) => f1 == f2 && t1 == t2,
        _ => false,
    }
}

impl PartialEq for SearchMode {
    fn eq(&self, other: &Self) -> (r: bool) {
        match (self, other) {
            (SearchMode::Tail, SearchMode::Tail) => true,
            (SearchMode::OneMinute, SearchMode::OneMinute) => true,
            (SearchMode::ThirtyMinutes, SearchMode::ThirtyMinutes) => true,
            (SearchMode::OneHour, SearchMode::OneHour) => true,
            (SearchMode::TwelveHours, SearchMode::TwelveHours) => true,
            (SearchMode::FromTo(f1, t1), SearchMode::FromTo(f2, t2)) => {
                let fe = match (f1, f2) {
                    (None, None) => true,
                    (Some(x), Some(y)) => *x == *y,
                    _ => false,
                };
                let te = match (t1, t2) {
                    (None, None) => true,
                    (Some(x), Some(y)) => *x == *y,
                    _ => false,
                };
                fe && te
            },
            _ => false,
        }
    }
}

impl vstd::std_specs::cmp::PartialEqSpecImpl for SearchMode {
    open spec fn obeys_eq_spec() -> bool {
        true
    }

    open spec fn eq_spec(&self, other: &Self) -> bool {
        mode_eq(*self, *other)
    }
}

/// The range that a mode resolves to when "now" is the given millisecond
/// timestamp: tailing has no bounds, a preset reaches from its width before
/// now to the open end, and an explicit pair stands as given.
pub open spec fn resolved_range(mode: SearchMode, now: i64) -> (Option<i64>, Option<i64>) {
    match mode {
        SearchMode::Tail => (None, None),
        SearchMode::OneMinute => (Some((now - 60_000) as i64), None),
        SearchMode::ThirtyMinutes => (Some((now - 1_800_000) as i64), None),
        SearchMode::OneHour => (Some((now - 3_600_000) as i64), None),
        SearchMode::TwelveHours => (Some((now - 43_200_000) as i64), None),
        SearchMode::FromTo(from, to) => (from, to),
    }
}

/// Milliseconds truncated to seconds, rounding toward zero.
pub open spec fn millis_to_secs_spec(time: i64) -> i64 {
    if time >= 0 {
        (time as int / 1000) as i64
    } else {
        (-((-(time as int)) / 1000)) as i64
    }
}

/// The label text of a mode: the preset's name, or the rendered bounds of
/// an explicit range joined by a tilde.
pub open spec fn mode_label_text(mode: SearchMode) -> Seq<char> {
    match mode {
        SearchMode::Tail => "Tail"@,
        SearchMode::OneMinute => "1 minute"@,
        SearchMode::ThirtyMinutes => "30 minutes"@,
        SearchMode::OneHour => "1 hour"@,
        SearchMode::TwelveHours => "12 hours"@,
        SearchMode::FromTo(from, to) => opt_time_text(from) + "~"@ + opt_time_text(to),
    }
}

/// The rendered text of an optional millisecond bound; an absent bound
/// renders as nothing.
pub open spec fn opt_time_text(t: Option<i64>) -> Seq<char> {
    match t {
        Some(time) => datetime_text_of(millis_to_secs_spec(time)),
        None => Seq::empty(),
    }
}

fn millis_to_secs(time: i64) -> (r: i64)
    ensures
        r == millis_to_secs_spec(time),
{
    if time >= 0 {
        time / 1000
    } else if time == i64::MIN {
        proof {
            assert((9_223_372_036_854_775_808int) / 1000 == 9_223_372_036_854_775int);
        }
        -9_223_372_036_854_775
    } else {
        -((-time) / 1000)
    }
}

fn render_time_bound(t: &Option<i64>) -> (r: String)
    ensures
        r@ == opt_time_text(t.deep_view()),
{
    match t {
        Some(time) => datetime_text(millis_to_secs(*time)),
        None => {
            let r = String::new();
            proof {
                assert(r@ =~= opt_time_text(None::<i64>));
            }
            r
        },
    }
}

impl SearchMode {
    /// Resolves the mode against an explicit clock reading.
    pub fn resolve_range(&self, now: i64) -> (r: (Option<i64>, Option<i64>))
        requires
            i64::MIN + 43_200_000 <= now,
        ensures
            r == resolved_range(*self, now),
    {
        match self {
            SearchMode::Tail => (None, None),
            SearchMode::OneMinute => (Some(now - 60_000), None),
            SearchMode::ThirtyMinutes => (Some(now - 1_800_000), None),
            SearchMode::OneHour => (Some(now - 3_600_000), None),
            SearchMode::TwelveHours => (Some(now - 43_200_000), None),
            SearchMode::FromTo(from, to) => (*from, *to),
        }
    }

    /// Resolves the mode against the wall clock: the range handed to the
    /// fetch client.
    pub fn get_timestamps(&self) -> (r: (Option<i64>, Option<i64>))
        ensures
            exists|now: i64| r == resolved_range(*self, now),
            *self is Tail ==> r == (None::<i64>, None::<i64>),
            *self matches SearchMode::FromTo(from, to) ==> r == (from, to),
    {
        let now = now_millis();
        let now = if now < i64::MIN + 43_200_000 {
            i64::MIN + 43_200_000
        } else {
            now
        };
        let r = self.resolve_range(now);
        proof {
            assert(r == resolved_range(*self, now));
        }
        r
    }

    /// The mode's display label.
    pub fn label(&self) -> (r: String)
        ensures
            r@ == mode_label_text(*self),
    {
        match self {
            SearchMode::Tail => "Tail".to_owned(),
            SearchMode::OneMinute => "1 minute".to_owned(),
            SearchMode::ThirtyMinutes => "30 minutes".to_owned(),
            SearchMode::OneHour => "1 hour".to_owned(),
            SearchMode::TwelveHours => "12 hours".to_owned(),
            SearchMode::FromTo(from, to) => {
                let from_text = render_time_bound(from);
                let to_text = render_time_bound(to);
                from_text.concat("~").concat(to_text.as_str())
            },
        }
    }
}

/// A search condition: the query text and the time-range mode.
#[derive(Debug, Clone)]
pub struct SearchState {
    pub query: String,
    pub mode: SearchMode,
}

/// Two conditions are the same when both the query text and the mode agree.
pub open spec fn search_state_eq(a: SearchState, b: SearchState) -> bool {
    a.query@ == b.query@ && mode_eq(a.mode, b.mode)
}

impl PartialEq for SearchState {
    fn eq(&self, other: &Self) -> (r: bool) {
        self.query == other.query && self.mode == other.mode
    }
}

impl vstd::std_specs::cmp::PartialEqSpecImpl for SearchState {
    open spec fn obeys_eq_spec() -> bool {
        true
    }

    open spec fn eq_spec(&self, other: &Self) -> bool {
        search_state_eq(*self, *other)
    }
}

impl SearchState {
    pub fn new(query: String, mode: SearchMode) -> (s: Self)
        ensures
            s.query@ == query@,
            s.mode == mode,
    {
        SearchState { query, mode }
    }

    /// The empty tailing condition that every fresh pane starts with.
    pub fn start() -> (s: Self)
        ensures
            s.query@ == Seq::<char>::empty(),
            s.mode is Tail,
    {
        let q = String::new();
        SearchState { query: q, mode: SearchMode::Tail }
    }
}

} // verus!
