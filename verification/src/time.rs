//! Points in time, as UTCTime or GeneralizedTime. The text of a time is
//! read and written by the `asn1` crate.

use crate::codec::{Asn1Readable, Asn1Writable};
use crate::der::{element, read_tlv, spec_read_element};
use crate::error::{ParseError, WriteError};
use crate::tag::{Tag, TagClass};
use vstd::prelude::*;

verus! {

/// The tag of UTCTime.
pub open spec fn spec_utc_time_tag() -> Tag {
    Tag { class: TagClass::Universal, constructed: false, value: 23 }
}

/// The tag of GeneralizedTime.
pub open spec fn spec_generalized_time_tag() -> Tag {
    Tag { class: TagClass::Universal, constructed: false, value: 24 }
}

/// The number of days of a month of the Gregorian calendar; none for what
/// is no month.
pub open spec fn days_in_month(year: u16, month: u8) -> nat {
    if month == 1 || month == 3 || month == 5 || month == 7 || month == 8 || month == 10 || month == 12 {
        31
    } else if month == 4 || month == 6 || month == 9 || month == 11 {
        30
    } else if month == 2 {
        if (year % 4 == 0 && year % 100 != 0) || year % 400 == 0 {
            29
        } else {
            28
        }
    } else {
        0
    }
}

/// A date and a time of day.
pub struct DateTimeView {
    pub year: u16,
    pub month: u8,
    pub day: u8,
    pub hour: u8,
    pub minute: u8,
    pub second: u8,
}

impl DateTimeView {
    /// The day exists in the calendar and the time exists on the clock.
    pub open spec fn valid(self) -> bool {
        &&& self.hour <= 23
        &&& self.minute <= 59
        &&& self.second <= 59
        &&& 1 <= self.day <= days_in_month(self.year, self.month)
    }
}

/// A date and a time of day, in UTC.
#[derive(Clone, Copy, Debug, PartialEq, Eq, Hash, PartialOrd)]
pub struct DateTime {
    year: u16,
    month: u8,
    day: u8,
    hour: u8,
    minute: u8,
    second: u8,
}

impl View for DateTime {
    type V = DateTimeView;

    closed spec fn view(&self) -> DateTimeView {
        DateTimeView {
            year: self.year,
            month: self.month,
            day: self.day,
            hour: self.hour,
            minute: self.minute,
            second: self.second,
        }
    }
}

fn month_length(year: u16, month: u8) -> (r: u8)
    ensures
        r == days_in_month(year, month),
{
    if month == 1 || month == 3 || month == 5 || month == 7 || month == 8 || month == 10 || month == 12 {
        31
    } else if month == 4 || month == 6 || month == 9 || month == 11 {
        30
    } else if month == 2 {
        if (year % 4 == 0 && year % 100 != 0) || year % 400 == 0 {
            29
        } else {
            28
        }
    } else {
        0
    }
}

impl DateTime {
    #[verifier::type_invariant]
    spec fn well_formed(self) -> bool {
        self@.valid()
    }

    /// The date and time of the given numbers, where there is such a day
    /// and such a time of day.
    pub fn new(year: u16, month: u8, day: u8, hour: u8, minute: u8, second: u8) -> (r: Result<DateTime, ParseError>)
        ensures
            (DateTimeView { year, month, day, hour, minute, second }).valid() ==> (r matches Ok(t) && t@ == (
            DateTimeView { year, month, day, hour, minute, second })),
            !(DateTimeView { year, month, day, hour, minute, second }).valid() ==> r == Err::<DateTime, ParseError>(
                ParseError::InvalidValue,
            ),
    {
        if hour > 23 || minute > 59 || second > 59 {
            return Err(ParseError::InvalidValue);
        }
        if day < 1 || day > month_length(year, month) {
            return Err(ParseError::InvalidValue);
        }
        Ok(DateTime { year, month, day, hour, minute, second })
    }

    /// The year.
    pub fn year(&self) -> (r: u16)
        ensures
            r == self@.year,
    {
        self.year
    }

    /// The month, from 1 to 12.
    pub fn month(&self) -> (r: u8)
        ensures
            r == self@.month,
            1 <= r <= 12,
    {
        proof {
            use_type_invariant(self);
        }
        self.month
    }

    /// The day of the month, from 1 to 31.
    pub fn day(&self) -> (r: u8)
        ensures
            r == self@.day,
            1 <= r <= 31,
    {
        proof {
            use_type_invariant(self);
        }
        self.day
    }

    /// The hour, from 0 to 23.
    pub fn hour(&self) -> (r: u8)
        ensures
            r == self@.hour,
            r <= 23,
    {
        proof {
            use_type_invariant(self);
        }
        self.hour
    }

    /// The minute, from 0 to 59.
    pub fn minute(&self) -> (r: u8)
        ensures
            r == self@.minute,
            r <= 59,
    {
        proof {
            use_type_invariant(self);
        }
        self.minute
    }

    /// The second, from 0 to 59.
    pub fn second(&self) -> (r: u8)
        ensures
            r == self@.second,
            r <= 59,
    {
        proof {
            use_type_invariant(self);
        }
        self.second
    }
}

/// Whether a year can be written as a UTCTime, which has two digits for it.
pub open spec fn utc_year_ok(year: u16) -> bool {
    1950 <= year < 2050
}

/// Whether a fraction of a second, in nanoseconds, can be written: it is
/// not zero and is less than a second.
pub open spec fn nanoseconds_ok(nanoseconds: Option<u32>) -> bool {
    nanoseconds matches Some(n) ==> 1 <= n < 1_000_000_000
}

/// A date and time as a UTCTime: the year is from 1950 to 2049.
#[derive(Clone, Copy, Debug, PartialEq, Eq, Hash)]
pub struct UtcTime(DateTime);

impl UtcTime {
    #[verifier::type_invariant]
    spec fn well_formed(self) -> bool {
        utc_year_ok(self.0@.year)
    }

    /// The date and time.
    pub closed spec fn spec_datetime(self) -> DateTime {
        self.0
    }

    /// The UTCTime of a date and time, where the year can be written with
    /// two digits.
    pub fn new(dt: DateTime) -> (r: Result<UtcTime, ParseError>)
        ensures
            utc_year_ok(dt@.year) ==> (r matches Ok(t) && t.spec_datetime() == dt),
            !utc_year_ok(dt@.year) ==> r == Err::<UtcTime, ParseError>(ParseError::InvalidValue),
    {
        if dt.year() < 1950 || dt.year() >= 2050 {
            return Err(ParseError::InvalidValue);
        }
        Ok(UtcTime(dt))
    }

    /// The date and time.
    pub fn as_datetime(&self) -> (r: &DateTime)
        ensures
            *r == self.spec_datetime(),
            utc_year_ok(r@.year),
    {
        proof {
            use_type_invariant(self);
        }
        &self.0
    }
}

/// A date and time as a GeneralizedTime, with a fraction of a second where
/// there is one.
#[derive(Clone, Copy, Debug, PartialEq, Eq, Hash, PartialOrd)]
pub struct GeneralizedTime {
    datetime: DateTime,
    nanoseconds: Option<u32>,
}

impl GeneralizedTime {
    #[verifier::type_invariant]
    spec fn well_formed(self) -> bool {
        nanoseconds_ok(self.nanoseconds)
    }

    /// The date and time.
    pub closed spec fn spec_datetime(self) -> DateTime {
        self.datetime
    }

    /// The fraction of a second, in nanoseconds, where there is one.
    pub closed spec fn spec_nanoseconds(self) -> Option<u32> {
        self.nanoseconds
    }

    /// The GeneralizedTime of a date and time and a fraction of a second,
    /// where the fraction can be written.
    pub fn new(dt: DateTime, nanoseconds: Option<u32>) -> (r: Result<GeneralizedTime, ParseError>)
        ensures
            nanoseconds_ok(nanoseconds) ==> (r matches Ok(t) && t.spec_datetime() == dt && t.spec_nanoseconds()
                == nanoseconds),
            !nanoseconds_ok(nanoseconds) ==> r == Err::<GeneralizedTime, ParseError>(ParseError::InvalidValue),
    {
        match nanoseconds {
            Some(n) => {
                if n < 1 || n >= 1_000_000_000 {
                    return Err(ParseError::InvalidValue);
                }
            },
            None => {},
        }
        Ok(GeneralizedTime { datetime: dt, nanoseconds })
    }

    /// The date and time.
    pub fn as_datetime(&self) -> (r: &DateTime)
        ensures
            *r == self.spec_datetime(),
    {
        &self.datetime
    }

    /// The fraction of a second, in nanoseconds, where there is one.
    pub fn nanoseconds(&self) -> (r: Option<u32>)
        ensures
            r == self.spec_nanoseconds(),
            nanoseconds_ok(r),
    {
        proof {
            use_type_invariant(self);
        }
        self.nanoseconds
    }
}

/// A point in time, in one of its two forms.
#[derive(Clone, Copy, Debug, PartialEq, Eq, Hash)]
pub enum Time {
    UtcTime(UtcTime),
    GeneralizedTime(GeneralizedTime),
}

/// What a time holds: the form, the date and time, and for a
/// GeneralizedTime the fraction of a second.
pub enum TimeView {
    UtcTime(DateTimeView),
    GeneralizedTime(DateTimeView, Option<u32>),
}

impl DeepView for Time {
    type V = TimeView;

    open spec fn deep_view(&self) -> TimeView {
        match self {
            Time::UtcTime(t) => TimeView::UtcTime(t.spec_datetime()@),
            Time::GeneralizedTime(t) => TimeView::GeneralizedTime(t.spec_datetime()@, t.spec_nanoseconds()),
        }
    }
}

impl Time {
    /// The date and time of either form.
    pub open spec fn spec_as_datetime(self) -> DateTime {
        match self {
            Time::UtcTime(t) => t.spec_datetime(),
            Time::GeneralizedTime(t) => t.spec_datetime(),
        }
    }

    /// The date and time, whichever the form.
    pub fn as_datetime(&self) -> (r: &DateTime)
        ensures
            *r == self.spec_as_datetime(),
    {
        match self {
            Time::UtcTime(data) => data.as_datetime(),
            Time::GeneralizedTime(data) => data.as_datetime(),
        }
    }
}

/// What `asn1` reads from the content of a UTCTime: the date and time,
/// where it accepts the content.
pub uninterp spec fn der_utc_time(content: Seq<u8>) -> Option<DateTimeView>;

/// What `asn1` reads from the content of a GeneralizedTime: the date and
/// time and the fraction of a second, where it accepts the content.
pub uninterp spec fn der_generalized_time(content: Seq<u8>) -> Option<(DateTimeView, Option<u32>)>;

/// The content that `asn1` writes for a UTCTime.
pub uninterp spec fn der_utc_time_content(t: DateTimeView) -> Seq<u8>;

/// The content that `asn1` writes for a GeneralizedTime.
pub uninterp spec fn der_generalized_time_content(t: DateTimeView, nanoseconds: Option<u32>) -> Seq<u8>;

/// The six numbers of a date and time.
pub open spec fn date_of(x: (u16, u8, u8, u8, u8, u8)) -> DateTimeView {
    DateTimeView { year: x.0, month: x.1, day: x.2, hour: x.3, minute: x.4, second: x.5 }
}

/// The result of reading a UTCTime, as a date and time.
pub open spec fn utc_result_view(r: Option<(u16, u8, u8, u8, u8, u8)>) -> Option<DateTimeView> {
    match r {
        Some(x) => Some(date_of(x)),
        None => None,
    }
}

/// The result of reading a GeneralizedTime, as a date and time and a
/// fraction.
pub open spec fn generalized_result_view(r: Option<((u16, u8, u8, u8, u8, u8), Option<u32>)>) -> Option<
    (DateTimeView, Option<u32>),
> {
    match r {
        Some(x) => Some((date_of(x.0), x.1)),
        None => None,
    }
}

/// Calls `parse_data` of `asn1::UtcTime`. Claimed of it: what it returns
/// depends on the content alone; a time it returns is a day of the calendar
/// and a time of the clock, in a year from 1950 to 2049.
#[verifier::external_body]
fn utc_time_parse(data: &[u8]) -> (r: Option<(u16, u8, u8, u8, u8, u8)>)
    ensures
        utc_result_view(r) == der_utc_time(data@),
        r matches Some(x) ==> date_of(x).valid() && utc_year_ok(x.0),
{
    match <asn1::UtcTime as asn1::SimpleAsn1Readable>::parse_data(data) {
        Ok(t) => {
            let d = t.as_datetime();
            Some((d.year(), d.month(), d.day(), d.hour(), d.minute(), d.second()))
        },
        Err(_) => None,
    }
}

/// Calls `parse_data` of `asn1::GeneralizedTime`. Claimed of it: what it
/// returns depends on the content alone; a time it returns is a day of the
/// calendar and a time of the clock, with a fraction that is not zero and
/// less than a second where it has one.
#[verifier::external_body]
fn generalized_time_parse(data: &[u8]) -> (r: Option<((u16, u8, u8, u8, u8, u8), Option<u32>)>)
    ensures
        generalized_result_view(r) == der_generalized_time(data@),
        r matches Some(x) ==> date_of(x.0).valid() && nanoseconds_ok(x.1),
{
    match <asn1::GeneralizedTime as asn1::SimpleAsn1Readable>::parse_data(data) {
        Ok(t) => {
            let d = t.as_datetime();
            Some(((d.year(), d.month(), d.day(), d.hour(), d.minute(), d.second()), t.nanoseconds()))
        },
        Err(_) => None,
    }
}

/// Calls `asn1::write_single` on an `asn1::UtcTime`. Claimed of it: what
/// comes back is one element with the tag of UTCTime, whose content depends
/// on the date and time alone.
#[verifier::external_body]
fn utc_time_write(x: (u16, u8, u8, u8, u8, u8)) -> (r: Result<Vec<u8>, WriteError>)
    requires
        date_of(x).valid(),
        utc_year_ok(x.0),
    ensures
        r matches Ok(b) ==> b@ == element(spec_utc_time_tag(), der_utc_time_content(date_of(x))),
{
    match asn1::DateTime::new(x.0, x.1, x.2, x.3, x.4, x.5).and_then(asn1::UtcTime::new) {
        Ok(t) => asn1::write_single(&t).map_err(|_| WriteError::AllocationError),
        Err(_) => Err(WriteError::AllocationError),
    }
}

/// Calls `asn1::write_single` on an `asn1::GeneralizedTime`. Claimed of it:
/// what comes back is one element with the tag of GeneralizedTime, whose
/// content depends on the date and time and the fraction alone.
#[verifier::external_body]
fn generalized_time_write(x: (u16, u8, u8, u8, u8, u8), nanoseconds: Option<u32>) -> (r: Result<Vec<u8>, WriteError>)
    requires
        date_of(x).valid(),
        nanoseconds_ok(nanoseconds),
    ensures
        r matches Ok(b) ==> b@ == element(
            spec_generalized_time_tag(),
            der_generalized_time_content(date_of(x), nanoseconds),
        ),
{
    match asn1::DateTime::new(x.0, x.1, x.2, x.3, x.4, x.5).and_then(|d| asn1::GeneralizedTime::new(d, nanoseconds)) {
        Ok(t) => asn1::write_single(&t).map_err(|_| WriteError::AllocationError),
        Err(_) => Err(WriteError::AllocationError),
    }
}

/// The tags with which a time can begin.
pub open spec fn spec_time_can_parse(tag: Tag) -> bool {
    tag == spec_utc_time_tag() || tag == spec_generalized_time_tag()
}

/// Reading a time off the front of `data`: the tag of the element tells the
/// form.
pub open spec fn spec_read_time(data: Seq<u8>) -> Result<(TimeView, Seq<u8>), ParseError> {
    match spec_read_element(data) {
        Err(e) => Err(e),
        Ok(x) => if x.0 == spec_utc_time_tag() {
            match der_utc_time(x.1) {
                Some(t) => Ok((TimeView::UtcTime(t), x.2)),
                None => Err(ParseError::InvalidValue),
            }
        } else if x.0 == spec_generalized_time_tag() {
            match der_generalized_time(x.1) {
                Some(t) => Ok((TimeView::GeneralizedTime(t.0, t.1), x.2)),
                None => Err(ParseError::InvalidValue),
            }
        } else {
            Err(ParseError::UnexpectedTag { actual: x.0 })
        },
    }
}

/// The octets of a time: one element, whose tag tells the form.
pub open spec fn spec_time_encoding(v: TimeView) -> Seq<u8> {
    match v {
        TimeView::UtcTime(t) => element(spec_utc_time_tag(), der_utc_time_content(t)),
        TimeView::GeneralizedTime(t, n) => element(spec_generalized_time_tag(), der_generalized_time_content(t, n)),
    }
}

fn date_time_from(x: (u16, u8, u8, u8, u8, u8)) -> (r: DateTime)
    requires
        date_of(x).valid(),
    ensures
        r@ == date_of(x),
{
    DateTime { year: x.0, month: x.1, day: x.2, hour: x.3, minute: x.4, second: x.5 }
}

fn numbers_of(t: &DateTime) -> (r: (u16, u8, u8, u8, u8, u8))
    ensures
        date_of(r) == t@,
        t@.valid(),
{
    proof {
        use_type_invariant(t);
    }
    (t.year, t.month, t.day, t.hour, t.minute, t.second)
}

impl<'a> Asn1Readable<'a> for Time {
    open spec fn spec_can_parse(tag: Tag) -> bool {
        spec_time_can_parse(tag)
    }

    open spec fn spec_parse(data: Seq<u8>) -> Result<(TimeView, Seq<u8>), ParseError> {
        spec_read_time(data)
    }

    fn can_parse(tag: Tag) -> (r: bool) {
        tag == Tag::primitive(23) || tag == Tag::primitive(24)
    }

    fn parse(data: &'a [u8]) -> (r: Result<(Self, &'a [u8]), ParseError>) {
        let (tlv, rest) = read_tlv(data)?;
        let tag = tlv.tag();
        if tag == Tag::primitive(23) {
            match utc_time_parse(tlv.data()) {
                Some(x) => {
                    let t = UtcTime::new(date_time_from(x))?;
                    Ok((Time::UtcTime(t), rest))
                },
                None => Err(ParseError::InvalidValue),
            }
        } else if tag == Tag::primitive(24) {
            match generalized_time_parse(tlv.data()) {
                Some(x) => {
                    let t = GeneralizedTime::new(date_time_from(x.0), x.1)?;
                    Ok((Time::GeneralizedTime(t), rest))
                },
                None => Err(ParseError::InvalidValue),
            }
        } else {
            Err(ParseError::UnexpectedTag { actual: tag })
        }
    }
}

impl Asn1Writable for Time {
    open spec fn spec_encoding(v: TimeView) -> Seq<u8> {
        spec_time_encoding(v)
    }

    /// The text of a time is written by `asn1`, whatever the time.
    open spec fn spec_write_owed(v: TimeView) -> bool {
        false
    }

    fn write(&self) -> (r: Result<Vec<u8>, WriteError>) {
        match self {
            Time::UtcTime(t) => {
                let d = t.as_datetime();
                utc_time_write(numbers_of(d))
            },
            Time::GeneralizedTime(t) => {
                let n = t.nanoseconds();
                generalized_time_write(numbers_of(t.as_datetime()), n)
            },
        }
    }
}

} // verus!
