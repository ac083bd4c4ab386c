//! The temporal scope of a query and its rendering as the time segment of the
//! request path.

use crate::entities::connector_error::ConnectorError;
use crate::text::{int_text, push_int};
use vstd::prelude::*;
use vstd::string::StringExecFns;

verus! {

/// The earliest second, counted from 1970-01-01T00:00:00Z, that an instant can hold.
pub const MIN_SECS: i64 = -8_334_601_228_800;

/// The latest second, counted from 1970-01-01T00:00:00Z, that an instant can hold.
pub const MAX_SECS: i64 = 8_210_266_876_799;

/// A second within the supported range, with its nanoseconds. The nanoseconds
/// reach a thousand million and beyond only to mark a leap second, and then
/// only in the last second of a minute.
pub open spec fn valid_clock(secs: i64, nanos: u32) -> bool {
    &&& MIN_SECS <= secs <= MAX_SECS
    &&& nanos < 2_000_000_000
    &&& (nanos >= 1_000_000_000 ==> secs as int % 60 == 59)
}

/// A distance from UTC of less than one day, in seconds, east positive.
pub open spec fn valid_offset(offset: i32) -> bool {
    -86_400 < offset < 86_400
}

/// The RFC 3339 text of the instant `secs` seconds and `nanos` nanoseconds
/// after 1970-01-01T00:00:00Z, as a clock `offset` seconds east of UTC shows it.
pub uninterp spec fn rfc3339_text(secs: i64, nanos: u32, offset: i32) -> Seq<char>;

/// Renders an instant through `chrono`: `DateTime::from_timestamp` makes the
/// UTC value, `FixedOffset::east_opt` the zone, `DateTime::with_timezone` puts
/// the two together and `DateTime::to_rfc3339` writes the text. Nothing is
/// proved of the text; it only gets its name. The conditions are those under
/// which `from_timestamp` and `east_opt` return a value.
#[verifier::external_body]
fn rfc3339(secs: i64, nanos: u32, offset: i32) -> (text: String)
    requires
        valid_clock(secs, nanos),
        valid_offset(offset),
    ensures
        text@ == rfc3339_text(secs, nanos, offset),
{
    let utc = chrono::DateTime::from_timestamp(secs, nanos).unwrap();
    let zone = chrono::FixedOffset::east_opt(offset).unwrap();
    utc.with_timezone(&zone).to_rfc3339()
}

/// Whether `secs` and `nanos` name a second and a fraction that an instant can hold.
fn clock_in_range(secs: i64, nanos: u32) -> (ok: bool)
    ensures
        ok == valid_clock(secs, nanos),
{
    if secs < MIN_SECS || secs > MAX_SECS || nanos >= 2_000_000_000 {
        return false;
    }
    if nanos < 1_000_000_000 {
        return true;
    }
    let since_first: u64 = (secs - MIN_SECS) as u64;
    assert(since_first as int % 60 == secs as int % 60) by {
        assert(MIN_SECS as int == -138_910_020_480 * 60);
    }
    since_first % 60 == 59
}

/// A point in time anchored to UTC.
#[derive(Clone, Copy, Debug, PartialEq, Eq)]
pub struct UtcInstant {
    secs: i64,
    nanos: u32,
}

impl UtcInstant {
    #[verifier::type_invariant]
    spec fn well_formed(self) -> bool {
        valid_clock(self.secs, self.nanos)
    }

    /// Seconds since 1970-01-01T00:00:00Z.
    pub closed spec fn secs(self) -> i64 {
        self.secs
    }

    /// Nanoseconds since the last whole second.
    pub closed spec fn nanos(self) -> u32 {
        self.nanos
    }

    /// The RFC 3339 text of the instant, with the offset of UTC.
    pub open spec fn text(self) -> Seq<char> {
        rfc3339_text(self.secs(), self.nanos(), 0)
    }

    /// The instant `secs` seconds and `nanos` nanoseconds after
    /// 1970-01-01T00:00:00Z, or nothing where the two are out of range.
    pub fn new(secs: i64, nanos: u32) -> (made: Option<UtcInstant>)
        ensures
            made is Some <==> valid_clock(secs, nanos),
            made matches Some(t) ==> t.secs() == secs && t.nanos() == nanos,
    {
        if clock_in_range(secs, nanos) {
            Some(UtcInstant { secs, nanos })
        } else {
            None
        }
    }

    /// Seconds since 1970-01-01T00:00:00Z.
    pub fn timestamp(&self) -> (secs: i64)
        ensures
            secs == self.secs(),
            valid_clock(self.secs(), self.nanos()),
    {
        proof {
            use_type_invariant(self);
        }
        self.secs
    }

    /// Nanoseconds since the last whole second.
    pub fn timestamp_subsec_nanos(&self) -> (nanos: u32)
        ensures
            nanos == self.nanos(),
    {
        self.nanos
    }

    /// The RFC 3339 text of the instant.
    pub fn to_string(&self) -> (text: String)
        ensures
            text@ == self.text(),
    {
        proof {
            use_type_invariant(self);
        }
        rfc3339(self.secs, self.nanos, 0)
    }
}

/// A point in time together with the offset from UTC of the clock that shows it.
#[derive(Clone, Copy, Debug, PartialEq, Eq)]
pub struct OffsetInstant {
    secs: i64,
    nanos: u32,
    offset: i32,
}

impl OffsetInstant {
    #[verifier::type_invariant]
    spec fn well_formed(self) -> bool {
        valid_clock(self.secs, self.nanos) && valid_offset(self.offset)
    }

    /// Seconds since 1970-01-01T00:00:00Z.
    pub closed spec fn secs(self) -> i64 {
        self.secs
    }

    /// Nanoseconds since the last whole second.
    pub closed spec fn nanos(self) -> u32 {
        self.nanos
    }

    /// Seconds that the clock is ahead of UTC.
    pub closed spec fn offset(self) -> i32 {
        self.offset
    }

    /// The RFC 3339 text of the instant, with the clock's own offset.
    pub open spec fn text(self) -> Seq<char> {
        rfc3339_text(self.secs(), self.nanos(), self.offset())
    }

    /// The instant `secs` seconds and `nanos` nanoseconds after
    /// 1970-01-01T00:00:00Z on a clock `offset` seconds ahead of UTC, or
    /// nothing where one of the three is out of range.
    pub fn new(secs: i64, nanos: u32, offset: i32) -> (made: Option<OffsetInstant>)
        ensures
            made is Some <==> valid_clock(secs, nanos) && valid_offset(offset),
            made matches Some(t) ==> t.secs() == secs && t.nanos() == nanos && t.offset()
                == offset,
    {
        if clock_in_range(secs, nanos) && -86_400 < offset && offset < 86_400 {
            Some(OffsetInstant { secs, nanos, offset })
        } else {
            None
        }
    }

    /// Seconds since 1970-01-01T00:00:00Z.
    pub fn timestamp(&self) -> (secs: i64)
        ensures
            secs == self.secs(),
            valid_clock(self.secs(), self.nanos()),
    {
        proof {
            use_type_invariant(self);
        }
        self.secs
    }

    /// Nanoseconds since the last whole second.
    pub fn timestamp_subsec_nanos(&self) -> (nanos: u32)
        ensures
            nanos == self.nanos(),
    {
        self.nanos
    }

    /// Seconds that the clock is ahead of UTC.
    pub fn local_minus_utc(&self) -> (offset: i32)
        ensures
            offset == self.offset(),
            valid_offset(self.offset()),
    {
        proof {
            use_type_invariant(self);
        }
        self.offset
    }

    /// The RFC 3339 text of the instant.
    pub fn to_string(&self) -> (text: String)
        ensures
            text@ == self.text(),
    {
        proof {
            use_type_invariant(self);
        }
        rfc3339(self.secs, self.nanos, self.offset)
    }
}

/// A point in time, tagged by what anchors it: UTC, the offset that the
/// system's zone had at that time, or an offset chosen by the caller.
#[derive(Clone, Copy, Debug, PartialEq)]
pub enum VDTOffset {
    Utc(UtcInstant),
    Local(OffsetInstant),
    FixedOffset(OffsetInstant),
}

impl VDTOffset {
    /// The RFC 3339 text of the instant. The tag decides only which offset
    /// the text carries.
    pub open spec fn text(self) -> Seq<char> {
        match self {
            VDTOffset::Utc(t) => t.text(),
            VDTOffset::Local(t) => t.text(),
            VDTOffset::FixedOffset(t) => t.text(),
        }
    }

    /// The RFC 3339 text of the instant.
    pub fn to_string(&self) -> (text: String)
        ensures
            text@ == self.text(),
    {
        match self {
            VDTOffset::Utc(t) => t.to_string(),
            VDTOffset::Local(t) => t.to_string(),
            VDTOffset::FixedOffset(t) => t.to_string(),
        }
    }
}

/// A signed count of calendar units.
#[derive(Clone, Copy, Debug, PartialEq)]
pub enum PeriodDate {
    Years(i32),
    Months(i32),
    Days(i32),
}

impl PeriodDate {
    /// The count.
    pub open spec fn count(self) -> int {
        match self {
            PeriodDate::Years(n) => n as int,
            PeriodDate::Months(n) => n as int,
            PeriodDate::Days(n) => n as int,
        }
    }

    /// The letter of the unit.
    pub open spec fn unit(self) -> char {
        match self {
            PeriodDate::Years(_) => 'Y',
            PeriodDate::Months(_) => 'M',
            PeriodDate::Days(_) => 'D',
        }
    }

    /// The duration token: `P`, the count in decimal, the unit's letter.
    pub open spec fn text(self) -> Seq<char> {
        seq!['P'] + int_text(self.count()) + seq![self.unit()]
    }

    /// The duration token, such as `P1D`.
    pub fn to_string(&self) -> (text: String)
        ensures
            text@ == self.text(),
    {
        proof {
            reveal_strlit("P");
            reveal_strlit("Y");
            reveal_strlit("M");
            reveal_strlit("D");
        }
        let mut text = String::from_str("P");
        match self {
            PeriodDate::Years(n) => {
                push_int(&mut text, *n);
                text.append("Y");
            },
            PeriodDate::Months(n) => {
                push_int(&mut text, *n);
                text.append("M");
            },
            PeriodDate::Days(n) => {
                push_int(&mut text, *n);
                text.append("D");
            },
        }
        assert(text@ =~= self.text());
        text
    }
}

/// A signed count of clock units.
#[derive(Clone, Copy, Debug, PartialEq)]
pub enum PeriodTime {
    Hours(i32),
    Minutes(i32),
    Seconds(i32),
}

impl PeriodTime {
    /// The count.
    pub open spec fn count(self) -> int {
        match self {
            PeriodTime::Hours(n) => n as int,
            PeriodTime::Minutes(n) => n as int,
            PeriodTime::Seconds(n) => n as int,
        }
    }

    /// The letter of the unit.
    pub open spec fn unit(self) -> char {
        match self {
            PeriodTime::Hours(_) => 'H',
            PeriodTime::Minutes(_) => 'M',
            PeriodTime::Seconds(_) => 'S',
        }
    }

    /// The duration token: `PT`, the count in decimal, the unit's letter.
    pub open spec fn text(self) -> Seq<char> {
        seq!['P', 'T'] + int_text(self.count()) + seq![self.unit()]
    }

    /// The duration token, such as `PT1H`.
    pub fn to_string(&self) -> (text: String)
        ensures
            text@ == self.text(),
    {
        proof {
            reveal_strlit("PT");
            reveal_strlit("H");
            reveal_strlit("M");
            reveal_strlit("S");
        }
        let mut text = String::from_str("PT");
        assert(text@ =~= seq!['P', 'T']);
        match self {
            PeriodTime::Hours(n) => {
                push_int(&mut text, *n);
                text.append("H");
            },
            PeriodTime::Minutes(n) => {
                push_int(&mut text, *n);
                text.append("M");
            },
            PeriodTime::Seconds(n) => {
                push_int(&mut text, *n);
                text.append("S");
            },
        }
        assert(text@ =~= self.text());
        text
    }
}

/// The text of the failure that rejects a range qualified by both a period
/// and a step.
pub open spec fn ambiguity_message() -> Seq<char> {
    "Cannot use period date and time step simultaneously."@
}

/// The temporal scope of a query: a start, and optionally a calendar period,
/// an end, a clock step and a list of single instants.
#[derive(Clone, Debug, PartialEq)]
pub struct ValidDateTime {
    pub start_date_time: VDTOffset,
    pub period_date: Option<PeriodDate>,
    pub end_date_time: Option<VDTOffset>,
    pub time_step: Option<PeriodTime>,
    pub time_list: Option<Vec<VDTOffset>>,
}

impl ValidDateTime {
    /// True where an end, a period and a step are all present: a range takes
    /// one qualifier at most.
    pub open spec fn is_ambiguous(self) -> bool {
        self.end_date_time is Some && self.period_date is Some && self.time_step is Some
    }

    /// What qualifies the start or the range: the period's token, then the
    /// step's token, with a colon between them where both are present.
    pub open spec fn suffix(self) -> Seq<char> {
        match (self.period_date, self.time_step) {
            (None, None) => Seq::empty(),
            (Some(period), None) => period.text(),
            (None, Some(step)) => step.text(),
            (Some(period), Some(step)) => period.text() + seq![':'] + step.text(),
        }
    }

    /// The time segment of the request path. Without an end: the start's text
    /// and the suffix. With an end: the start's text, two hyphens, the end's
    /// text and, where the suffix is not empty, a colon and the suffix.
    pub open spec fn segment(self) -> Seq<char> {
        match self.end_date_time {
            None => self.start_date_time.text() + self.suffix(),
            Some(end) => self.start_date_time.text() + seq!['-', '-'] + end.text() + (
            if self.suffix().len() == 0 {
                Seq::empty()
            } else {
                seq![':'] + self.suffix()
            }),
        }
    }

    /// Renders the time segment of the request path. Fails exactly where
    /// an end, a period and a step are all present; the list of single
    /// instants plays no part.
    pub fn format(&self) -> (rendered: Result<String, ConnectorError>)
        ensures
            rendered is Err <==> self.is_ambiguous(),
            rendered matches Err(e) ==> e matches ConnectorError::LibraryError(m) && m@
                == ambiguity_message(),
            rendered matches Ok(s) ==> s@ == self.segment(),
            self.end_date_time is None ==> rendered is Ok && rendered->Ok_0@
                == self.start_date_time.text() + self.suffix(),
            self.end_date_time is Some && self.period_date is None && self.time_step is Some
                ==> rendered is Ok && rendered->Ok_0@ == self.start_date_time.text() + seq![
                '-',
                '-',
            ] + self.end_date_time->0.text() + seq![':'] + self.time_step->0.text(),
            self.end_date_time is Some && self.period_date is Some && self.time_step is None
                ==> rendered is Ok && rendered->Ok_0@ == self.start_date_time.text() + seq![
                '-',
                '-',
            ] + self.end_date_time->0.text() + seq![':'] + self.period_date->0.text(),
            self.end_date_time is Some && self.period_date is None && self.time_step is None
                ==> rendered is Ok && rendered->Ok_0@ == self.start_date_time.text() + seq![
                '-',
                '-',
            ] + self.end_date_time->0.text(),
    {
        proof {
            reveal_strlit(":");
            reveal_strlit("--");
        }
        let start = self.start_date_time.to_string();
        let mut suffix = String::new();
        let mut both = false;
        if let Some(period) = self.period_date {
            suffix = period.to_string();
        }
        if let Some(step) = self.time_step {
            if !suffix.as_str().is_empty() {
                suffix.append(":");
                both = true;
            }
            let token = step.to_string();
            suffix.append(token.as_str());
        }
        assert(suffix@ =~= self.suffix());
        assert(both == (self.period_date is Some && self.time_step is Some));
        match self.end_date_time {
            None => {
                let out = start.concat(suffix.as_str());
                Ok(out)
            },
            Some(end_date_time) => {
                if both {
                    return Err(
                        ConnectorError::LibraryError(
                            String::from_str(
                                "Cannot use period date and time step simultaneously.",
                            ),
                        ),
                    );
                }
                let mut end = end_date_time.to_string();
                if !suffix.as_str().is_empty() {
                    end.append(":");
                    end.append(suffix.as_str());
                }
                let mut out = start;
                out.append("--");
                out.append(end.as_str());
                assert(out@ =~= self.segment());
                Ok(out)
            },
        }
    }
}

/// The list of single instants plays no part in the rendering: two time
/// specifications that agree on the start, the period, the end and the step
/// are rejected together or render to the same segment.
pub proof fn lemma_segment_ignores_time_list(a: ValidDateTime, b: ValidDateTime)
    requires
        a.start_date_time == b.start_date_time,
        a.period_date == b.period_date,
        a.end_date_time == b.end_date_time,
        a.time_step == b.time_step,
    ensures
        a.is_ambiguous() == b.is_ambiguous(),
        a.suffix() == b.suffix(),
        a.segment() == b.segment(),
{
}

/// The text of the failure that rejects a time specification without a start.
pub open spec fn missing_start_message() -> Seq<char> {
    "`start_date_time` must be initialized"@
}

/// Collects the fields of a time specification one by one. Only the start is
/// required.
#[derive(Clone, Debug, PartialEq)]
pub struct ValidDateTimeBuilder {
    pub start_date_time: Option<VDTOffset>,
    pub period_date: Option<PeriodDate>,
    pub end_date_time: Option<VDTOffset>,
    pub time_step: Option<PeriodTime>,
    pub time_list: Option<Vec<VDTOffset>>,
}

impl Default for ValidDateTimeBuilder {
    /// A builder with no field set.
    fn default() -> (empty: Self)
        ensures
            empty.start_date_time is None,
            empty.period_date is None,
            empty.end_date_time is None,
            empty.time_step is None,
            empty.time_list is None,
    {
        ValidDateTimeBuilder {
            start_date_time: None,
            period_date: None,
            end_date_time: None,
            time_step: None,
            time_list: None,
        }
    }
}

impl ValidDateTimeBuilder {
    /// True where an end, a period and a step have all been set.
    pub open spec fn is_ambiguous(self) -> bool {
        self.end_date_time is Some && self.period_date is Some && self.time_step is Some
    }

    /// Sets the start.
    pub fn start_date_time(self, value: VDTOffset) -> (next: Self)
        ensures
            next == (ValidDateTimeBuilder { start_date_time: Some(value), ..self }),
    {
        ValidDateTimeBuilder { start_date_time: Some(value), ..self }
    }

    /// Sets the calendar period.
    pub fn period_date(self, value: PeriodDate) -> (next: Self)
        ensures
            next == (ValidDateTimeBuilder { period_date: Some(value), ..self }),
    {
        ValidDateTimeBuilder { period_date: Some(value), ..self }
    }

    /// Sets the end.
    pub fn end_date_time(self, value: VDTOffset) -> (next: Self)
        ensures
            next == (ValidDateTimeBuilder { end_date_time: Some(value), ..self }),
    {
        ValidDateTimeBuilder { end_date_time: Some(value), ..self }
    }

    /// Sets the clock step.
    pub fn time_step(self, value: PeriodTime) -> (next: Self)
        ensures
            next == (ValidDateTimeBuilder { time_step: Some(value), ..self }),
    {
        ValidDateTimeBuilder { time_step: Some(value), ..self }
    }

    /// Sets the list of single instants.
    pub fn time_list(self, value: Vec<VDTOffset>) -> (next: Self)
        ensures
            next == (ValidDateTimeBuilder { time_list: Some(value), ..self }),
    {
        ValidDateTimeBuilder { time_list: Some(value), ..self }
    }

    /// Makes the time specification. Fails where no start was set, and where
    /// an end, a period and a step were all set; otherwise the specification
    /// holds each field as it was set, and its rendering succeeds.
    pub fn build(self) -> (built: Result<ValidDateTime, ConnectorError>)
        ensures
            built is Err <==> self.start_date_time is None || self.is_ambiguous(),
            self.start_date_time is None ==> built is Err && built->Err_0 is LibraryError
                && built->Err_0->LibraryError_0@ == missing_start_message(),
            self.start_date_time is Some && self.is_ambiguous() ==> built is Err && built->Err_0
                is LibraryError && built->Err_0->LibraryError_0@ == ambiguity_message(),
            built is Ok ==> !built->Ok_0.is_ambiguous() && built->Ok_0 == (ValidDateTime {
                start_date_time: self.start_date_time->0,
                period_date: self.period_date,
                end_date_time: self.end_date_time,
                time_step: self.time_step,
                time_list: self.time_list,
            }),
    {
        let start_date_time = match self.start_date_time {
            Some(value) => value,
            None => {
                return Err(
                    ConnectorError::LibraryError(
                        String::from_str("`start_date_time` must be initialized"),
                    ),
                );
            },
        };
        if self.end_date_time.is_some() && self.period_date.is_some() && self.time_step.is_some() {
            return Err(
                ConnectorError::LibraryError(
                    String::from_str("Cannot use period date and time step simultaneously."),
                ),
            );
        }
        Ok(
            ValidDateTime {
                start_date_time,
                period_date: self.period_date,
                end_date_time: self.end_date_time,
                time_step: self.time_step,
                time_list: self.time_list,
            },
        )
    }
}

} // verus!
