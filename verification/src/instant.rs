//! Instants in UTC, held as seconds and nanoseconds since the Unix epoch, and
//! the text formats that the repository formats write them in.
use vstd::prelude::*;
use crate::text::{chars_of, int_decimal};

verus! {

/// Whether `chrono` can represent the instant `secs` seconds and `nanos`
/// nanoseconds after the Unix epoch as a `DateTime<Utc>`: its date lies from
/// January 1 of the year -262143 to December 31 of the year 262142, and the
/// nanoseconds stay under a second, or under two inside the last second of a
/// minute (a leap second).
pub open spec fn chrono_instant_valid(secs: i64, nanos: u32) -> bool {
    &&& -8_334_601_228_800 <= secs <= 8_210_266_876_799
    &&& (nanos < 1_000_000_000 || (nanos < 2_000_000_000 && secs % 60 == 59))
}

/// The RFC 3339 text that `chrono` writes for an instant.
pub uninterp spec fn rfc3339_text(secs: i64, nanos: u32) -> Seq<char>;

/// The instant that `chrono` reads from an RFC 3339 text.
pub uninterp spec fn rfc3339_instant(text: Seq<char>) -> Option<(i64, u32)>;

/// The instant that `chrono::DateTime::parse_from_str` reads from `text` in the format `fmt`.
pub uninterp spec fn offset_format_instant(text: Seq<char>, fmt: Seq<char>) -> Option<(i64, u32)>;

/// Midnight UTC of the date that `chrono::NaiveDate::parse_from_str` reads from `text` in the format `fmt`.
pub uninterp spec fn naive_date_instant(text: Seq<char>, fmt: Seq<char>) -> Option<(i64, u32)>;

/// The UTC instant that `chrono::NaiveDateTime::parse_from_str` reads from `text` in the format `fmt`.
pub uninterp spec fn naive_datetime_instant(text: Seq<char>, fmt: Seq<char>) -> Option<(i64, u32)>;

/// An instant in UTC.
#[derive(Debug, Clone, Copy, PartialEq, Eq, Hash)]
pub struct DateTime {
    secs: i64,
    nanos: u32,
}

impl DateTime {
    #[verifier::type_invariant]
    spec fn representable(self) -> bool {
        chrono_instant_valid(self.secs, self.nanos)
    }

    /// Seconds since the Unix epoch.
    pub closed spec fn spec_secs(self) -> i64 {
        self.secs
    }

    /// Nanoseconds past the second (at least 10^9 only inside a leap second).
    pub closed spec fn spec_nanos(self) -> u32 {
        self.nanos
    }

    /// The instant as a pair, ordered as time runs.
    pub open spec fn key(self) -> (i64, u32) {
        (self.spec_secs(), self.spec_nanos())
    }

    /// Whether `self` is strictly earlier than `other`.
    pub open spec fn earlier(self, other: DateTime) -> bool {
        self.spec_secs() < other.spec_secs()
            || (self.spec_secs() == other.spec_secs() && self.spec_nanos() < other.spec_nanos())
    }

    /// The instant `secs` seconds and `nanos` nanoseconds after the Unix epoch,
    /// where `chrono` can represent it.
    pub fn from_timestamp(secs: i64, nanos: u32) -> (res: Option<DateTime>)
        ensures
            res is Some <==> chrono_instant_valid(secs, nanos),
            res matches Some(d) ==> d.spec_secs() == secs && d.spec_nanos() == nanos,
    {
        if chrono_represents(secs, nanos) {
            Some(DateTime { secs, nanos })
        } else {
            None
        }
    }

    /// The current instant: one that `chrono` represents; which one depends on
    /// the clock.
    pub fn now() -> (res: DateTime)
        ensures
            chrono_instant_valid(res.spec_secs(), res.spec_nanos()),
    {
        let (secs, nanos) = chrono_now();
        DateTime { secs, nanos }
    }

    /// Seconds since the Unix epoch.
    pub fn timestamp(&self) -> (res: i64)
        ensures
            res == self.spec_secs(),
    {
        self.secs
    }

    /// Nanoseconds past the second.
    pub fn timestamp_subsec_nanos(&self) -> (res: u32)
        ensures
            res == self.spec_nanos(),
    {
        self.nanos
    }

    /// Whether `self` is strictly earlier than `other`.
    pub fn is_earlier_than(&self, other: &DateTime) -> (res: bool)
        ensures
            res == self.earlier(*other),
    {
        self.secs < other.secs || (self.secs == other.secs && self.nanos < other.nanos)
    }

    /// The RFC 3339 text of this instant, as `chrono` writes it.
    pub fn to_rfc3339(&self) -> (res: String)
        ensures
            res@ == rfc3339_text(self.spec_secs(), self.spec_nanos()),
    {
        proof {
            use_type_invariant(self);
        }
        format_rfc3339(self.secs, self.nanos)
    }

    /// The seconds since the Unix epoch in decimal, as `chrono` writes the format `%s`.
    pub fn format_seconds(&self) -> (res: String)
        ensures
            res@ == int_decimal(self.spec_secs() as int),
    {
        proof {
            use_type_invariant(self);
        }
        format_with(self.secs, self.nanos, "%s")
    }
}

/// `chrono::DateTime::<Utc>::to_rfc3339` of a representable instant.
#[verifier::external_body]
fn format_rfc3339(secs: i64, nanos: u32) -> (res: String)
    requires
        chrono_instant_valid(secs, nanos),
    ensures
        res@ == rfc3339_text(secs, nanos),
{
    chrono::DateTime::<chrono::Utc>::from_timestamp(secs, nanos).unwrap().to_rfc3339()
}

/// `chrono::DateTime::<Utc>::format` with the format `%s` (the Unix timestamp in
/// decimal) of a representable instant.
#[verifier::external_body]
fn format_with(secs: i64, nanos: u32, fmt: &str) -> (res: String)
    requires
        chrono_instant_valid(secs, nanos),
        fmt@ == "%s"@,
    ensures
        res@ == int_decimal(secs as int),
{
    chrono::DateTime::<chrono::Utc>::from_timestamp(secs, nanos).unwrap().format(fmt).to_string()
}

/// `chrono::DateTime::<Utc>::from_timestamp(secs, nanos).is_some()`: whether
/// chrono represents the instant.
#[verifier::external_body]
fn chrono_represents(secs: i64, nanos: u32) -> (res: bool)
    ensures
        res == chrono_instant_valid(secs, nanos),
{
    chrono::DateTime::<chrono::Utc>::from_timestamp(secs, nanos).is_some()
}

/// `chrono::Utc::now`, as seconds and nanoseconds since the Unix epoch: an
/// instant that chrono represents; which one depends on the clock.
#[verifier::external_body]
fn chrono_now() -> (res: (i64, u32))
    ensures
        chrono_instant_valid(res.0, res.1),
{
    let now = chrono::Utc::now();
    (now.timestamp(), now.timestamp_subsec_nanos())
}

/// `chrono::DateTime::parse_from_rfc3339`, as seconds and nanoseconds since
/// the Unix epoch (an instant that chrono represents).
#[verifier::external_body]
fn chrono_parse_rfc3339(text: &str) -> (res: Option<(i64, u32)>)
    ensures
        res == rfc3339_instant(text@),
        res matches Some(p) ==> chrono_instant_valid(p.0, p.1),
{
    chrono::DateTime::parse_from_rfc3339(text).ok().map(|d| (d.timestamp(), d.timestamp_subsec_nanos()))
}

/// `chrono::DateTime::parse_from_str`, as seconds and nanoseconds since the
/// Unix epoch (an instant that chrono represents).
#[verifier::external_body]
fn chrono_parse_from_str(text: &str, fmt: &str) -> (res: Option<(i64, u32)>)
    ensures
        res == offset_format_instant(text@, fmt@),
        res matches Some(p) ==> chrono_instant_valid(p.0, p.1),
{
    chrono::DateTime::parse_from_str(text, fmt).ok().map(|d| (d.timestamp(), d.timestamp_subsec_nanos()))
}

/// `chrono::NaiveDate::parse_from_str`, at midnight UTC of that date, as
/// seconds and nanoseconds since the Unix epoch (an instant that chrono
/// represents).
#[verifier::external_body]
fn chrono_parse_naive_date(text: &str, fmt: &str) -> (res: Option<(i64, u32)>)
    ensures
        res == naive_date_instant(text@, fmt@),
        res matches Some(p) ==> chrono_instant_valid(p.0, p.1),
{
    chrono::NaiveDate::parse_from_str(text, fmt)
        .ok()
        .and_then(|date| date.and_hms_opt(0, 0, 0))
        .map(|dt| (dt.and_utc().timestamp(), dt.and_utc().timestamp_subsec_nanos()))
}

/// `chrono::NaiveDateTime::parse_from_str`, read as UTC, as seconds and
/// nanoseconds since the Unix epoch (an instant that chrono represents).
#[verifier::external_body]
fn chrono_parse_naive_datetime(text: &str, fmt: &str) -> (res: Option<(i64, u32)>)
    ensures
        res == naive_datetime_instant(text@, fmt@),
        res matches Some(p) ==> chrono_instant_valid(p.0, p.1),
{
    chrono::NaiveDateTime::parse_from_str(text, fmt)
        .ok()
        .map(|dt| (dt.and_utc().timestamp(), dt.and_utc().timestamp_subsec_nanos()))
}

/// The instant of seconds and nanoseconds that chrono represents.
fn instant_of(pair: Option<(i64, u32)>) -> (res: Option<DateTime>)
    requires
        pair matches Some(p) ==> chrono_instant_valid(p.0, p.1),
    ensures
        match pair {
            Some(p) => res matches Some(d) && d.key() == p,
            None => res is None,
        },
{
    match pair {
        Some((secs, nanos)) => Some(DateTime { secs, nanos }),
        None => None,
    }
}

/// Reads an RFC 3339 date-time, taken to UTC.
pub fn parse_rfc3339(text: &str) -> (res: Option<DateTime>)
    ensures
        match res {
            Some(d) => rfc3339_instant(text@) == Some(d.key()),
            None => rfc3339_instant(text@) is None,
        },
{
    instant_of(chrono_parse_rfc3339(text))
}

/// Reads a date-time with an offset in the format `fmt`, taken to UTC.
pub(crate) fn parse_offset_format(text: &str, fmt: &str) -> (res: Option<DateTime>)
    ensures
        match res {
            Some(d) => offset_format_instant(text@, fmt@) == Some(d.key()),
            None => offset_format_instant(text@, fmt@) is None,
        },
{
    instant_of(chrono_parse_from_str(text, fmt))
}

/// Reads a date in the format `fmt`, at midnight UTC.
fn parse_naive_date(text: &str, fmt: &str) -> (res: Option<DateTime>)
    ensures
        match res {
            Some(d) => naive_date_instant(text@, fmt@) == Some(d.key()),
            None => naive_date_instant(text@, fmt@) is None,
        },
{
    instant_of(chrono_parse_naive_date(text, fmt))
}

/// Reads a date and time without offset in the format `fmt`, as UTC.
fn parse_naive_datetime(text: &str, fmt: &str) -> (res: Option<DateTime>)
    ensures
        match res {
            Some(d) => naive_datetime_instant(text@, fmt@) == Some(d.key()),
            None => naive_datetime_instant(text@, fmt@) is None,
        },
{
    instant_of(chrono_parse_naive_datetime(text, fmt))
}

/// The instant that a date field of an AltStore or SideStore source holds, if
/// any: RFC 3339 first, then a bare date (`%Y-%m-%d`, midnight UTC), then a date
/// with hours and minutes (`%Y-%m-%dT%H:%M`, UTC).
pub open spec fn iso8601_instant(text: Seq<char>) -> Option<(i64, u32)> {
    if rfc3339_instant(text) is Some {
        rfc3339_instant(text)
    } else if naive_date_instant(text, "%Y-%m-%d"@) is Some {
        naive_date_instant(text, "%Y-%m-%d"@)
    } else {
        naive_datetime_instant(text, "%Y-%m-%dT%H:%M"@)
    }
}

/// Reads a date field of an AltStore or SideStore source.
pub fn parse_iso8601(text: &str) -> (res: Option<DateTime>)
    ensures
        match res {
            Some(d) => iso8601_instant(text@) == Some(d.key()),
            None => iso8601_instant(text@) is None,
        },
{
    if let Some(d) = parse_rfc3339(text) {
        return Some(d);
    }
    if let Some(d) = parse_naive_date(text, "%Y-%m-%d") {
        return Some(d);
    }
    parse_naive_datetime(text, "%Y-%m-%dT%H:%M")
}

/// The format in which a string of seconds since the epoch is read: with
/// fractional digits where the text holds a `'.'`.
pub open spec fn seconds_format(text: Seq<char>) -> Seq<char> {
    if text.contains('.') {
        "%s.%f"@
    } else {
        "%s"@
    }
}

/// Reads a timestamp written as a string of seconds since the epoch, possibly
/// with a fractional part.
pub fn parse_string_seconds(text: &str) -> (res: Option<DateTime>)
    ensures
        match res {
            Some(d) => offset_format_instant(text@, seconds_format(text@)) == Some(d.key()),
            None => offset_format_instant(text@, seconds_format(text@)) is None,
        },
{
    let cs = chars_of(text);
    let mut has_dot = false;
    let mut i: usize = 0;
    while i < cs.len()
        invariant
            i <= cs@.len(),
            cs@ == text@,
            has_dot == (exists|j: int| 0 <= j < i && cs@[j] == '.'),
        decreases cs@.len() - i,
    {
        if cs[i] == '.' {
            has_dot = true;
        }
        i = i + 1;
    }
    if has_dot {
        parse_offset_format(text, "%s.%f")
    } else {
        parse_offset_format(text, "%s")
    }
}

/// The position of the latest of `dates`, the last one where several are
/// equally late; `None` for no dates.
pub open spec fn latest_index(dates: Seq<DateTime>) -> Option<int>
    decreases dates.len(),
{
    if dates.len() == 0 {
        None
    } else {
        match latest_index(dates.drop_last()) {
            None => Some(dates.len() - 1),
            Some(i) => if dates.last().earlier(dates[i]) {
                Some(i)
            } else {
                Some(dates.len() - 1)
            },
        }
    }
}

/// The latest date is no earlier than any date, and every later position holds
/// an earlier date.
pub proof fn lemma_latest_index(dates: Seq<DateTime>)
    ensures
        match latest_index(dates) {
            None => dates.len() == 0,
            Some(i) => 0 <= i < dates.len()
                && (forall|j: int| 0 <= j < dates.len() ==> !(#[trigger] dates[i].earlier(dates[j])))
                && (forall|j: int| i < j < dates.len() ==> #[trigger] dates[j].earlier(dates[i])),
        },
    decreases dates.len(),
{
    if dates.len() > 0 {
        let t = dates.drop_last();
        let n = dates.len() - 1;
        lemma_latest_index(t);
        assert forall|j: int| 0 <= j < t.len() implies t[j] == dates[j] by {}
        match latest_index(t) {
            None => {},
            Some(k) => {
                if dates.last().earlier(dates[k]) {
                    assert forall|j: int| 0 <= j < dates.len() implies !(#[trigger] dates[k].earlier(dates[j])) by {
                        if j < n {
                            assert(!t[k].earlier(t[j]));
                        }
                    }
                } else {
                    assert forall|j: int| 0 <= j < dates.len() implies !(#[trigger] dates[n].earlier(dates[j])) by {
                        if j < n {
                            assert(!t[k].earlier(t[j]));
                        }
                    }
                }
            },
        }
    }
}

/// The position of the latest of `dates`, the last one where several are equally late.
pub fn latest_position(dates: &Vec<DateTime>) -> (res: Option<usize>)
    ensures
        match latest_index(dates@) {
            None => res is None,
            Some(i) => res == Some(i as usize),
        },
{
    let mut best: Option<usize> = None;
    let mut i: usize = 0;
    while i < dates.len()
        invariant
            i <= dates@.len(),
            match latest_index(dates@.subrange(0, i as int)) {
                None => best is None,
                Some(k) => best == Some(k as usize) && 0 <= k < i,
            },
        decreases dates@.len() - i,
    {
        proof {
            let next = dates@.subrange(0, i + 1);
            assert(next.drop_last() =~= dates@.subrange(0, i as int));
            assert(next.last() == dates@[i as int]);
            lemma_latest_index(dates@.subrange(0, i as int));
        }
        match best {
            None => {
                best = Some(i);
            },
            Some(k) => {
                proof {
                    assert(dates@.subrange(0, i + 1)[k as int] == dates@[k as int]);
                }
                if !dates[i].is_earlier_than(&dates[k]) {
                    best = Some(i);
                }
            },
        }
        i = i + 1;
    }
    proof {
        assert(dates@.subrange(0, dates@.len() as int) =~= dates@);
    }
    best
}

} // verus!

verus! {

/// The latest of the instants that are present, as `Iterator::max` picks it
/// from options (an absent one is less than any present one); `None` where
/// none is present.
pub open spec fn latest_present(dates: Seq<Option<DateTime>>) -> Option<DateTime>
    decreases dates.len(),
{
    if dates.len() == 0 {
        None
    } else {
        match (latest_present(dates.drop_last()), dates.last()) {
            (r, None) => r,
            (None, Some(d)) => Some(d),
            (Some(r), Some(d)) => if d.earlier(r) {
                Some(r)
            } else {
                Some(d)
            },
        }
    }
}

/// The latest present instant is one of them, and none is later; there is
/// none only where none is present.
pub proof fn lemma_latest_present(dates: Seq<Option<DateTime>>)
    ensures
        match latest_present(dates) {
            None => forall|j: int| 0 <= j < dates.len() ==> #[trigger] dates[j] is None,
            Some(r) => (exists|i: int| 0 <= i < dates.len() && #[trigger] dates[i] == Some(r))
                && forall|j: int| 0 <= j < dates.len() ==> (#[trigger] dates[j] matches Some(d) ==> !r.earlier(d)),
        },
    decreases dates.len(),
{
    if dates.len() > 0 {
        let t = dates.drop_last();
        let n = dates.len() - 1;
        lemma_latest_present(t);
        assert forall|j: int| 0 <= j < t.len() implies t[j] == dates[j] by {}
        match latest_present(t) {
            None => {
                if dates.last() is Some {
                    assert(dates[n] == latest_present(dates));
                }
            },
            Some(r) => {
                let i = choose|i: int| 0 <= i < t.len() && #[trigger] t[i] == Some(r);
                assert(dates[i] == Some(r));
                if dates.last() is Some {
                    assert(dates[n] == dates.last());
                }
            },
        }
    }
}

/// The latest of the instants that are present; `None` where none is.
pub fn latest_of(dates: &Vec<Option<DateTime>>) -> (res: Option<DateTime>)
    ensures
        res == latest_present(dates@),
{
    let mut best: Option<DateTime> = None;
    let mut i: usize = 0;
    while i < dates.len()
        invariant
            i <= dates@.len(),
            best == latest_present(dates@.subrange(0, i as int)),
        decreases dates@.len() - i,
    {
        proof {
            let next = dates@.subrange(0, i + 1);
            assert(next.drop_last() =~= dates@.subrange(0, i as int));
            assert(next.last() == dates@[i as int]);
        }
        match dates[i] {
            None => {},
            Some(d) => {
                best = match best {
                    None => Some(d),
                    Some(r) => if d.is_earlier_than(&r) {
                        Some(r)
                    } else {
                        Some(d)
                    },
                };
            },
        }
        i = i + 1;
    }
    proof {
        assert(dates@.subrange(0, dates@.len() as int) =~= dates@);
    }
    best
}

} // verus!
