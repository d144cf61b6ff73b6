//! The host's time zone: its offset from UTC and its short name.

use vstd::prelude::*;

verus! {

/// A time zone as the host reports it.
#[derive(Clone, Debug, PartialEq, Eq)]
pub struct TimeZoneInfo {
    /// Seconds by which local time is ahead of UTC; negative where it is
    /// behind.
    pub offset_sec: i64,
    /// The zone's short name, such as `CET` or `UTC`; may be empty.
    pub abbr: String,
}

/// A time zone as a mathematical value.
pub struct ZoneView {
    /// Seconds by which local time is ahead of UTC.
    pub offset: int,
    /// The characters of the zone's short name.
    pub abbr: Seq<char>,
}

impl View for TimeZoneInfo {
    type V = ZoneView;

    open spec fn view(&self) -> ZoneView {
        ZoneView { offset: self.offset_sec as int, abbr: self.abbr@ }
    }
}

impl TimeZoneInfo {
    /// Local time in this zone, in seconds since 1 January 1970, at the
    /// instant `epoch_seconds` seconds after 1 January 1970, 00:00:00 UTC.
    pub open spec fn local_seconds_at(self, epoch_seconds: int) -> int {
        epoch_seconds + self.offset_sec
    }
}

/// Whether `c` is white space: one of the characters that Unicode gives the
/// property White_Space.
pub open spec fn is_space(c: char) -> bool {
    let code = c as u32;
    ||| 0x09 <= code <= 0x0d
    ||| code == 0x20
    ||| code == 0x85
    ||| code == 0xa0
    ||| code == 0x1680
    ||| 0x2000 <= code <= 0x200a
    ||| code == 0x2028
    ||| code == 0x2029
    ||| code == 0x202f
    ||| code == 0x205f
    ||| code == 0x3000
}

/// `s` without the white space at its start.
pub open spec fn trim_start(s: Seq<char>) -> Seq<char>
    decreases s.len(),
{
    if s.len() > 0 && is_space(s.first()) {
        trim_start(s.drop_first())
    } else {
        s
    }
}

/// `s` without the white space at its end.
pub open spec fn trim_end(s: Seq<char>) -> Seq<char>
    decreases s.len(),
{
    if s.len() > 0 && is_space(s.last()) {
        trim_end(s.drop_last())
    } else {
        s
    }
}

/// `s` without the white space at its start and at its end.
pub open spec fn trimmed(s: Seq<char>) -> Seq<char> {
    trim_end(trim_start(s))
}

/// Whether `c` is white space.
pub fn is_space_char(c: char) -> (space: bool)
    ensures
        space == is_space(c),
{
    let code: u32 = c as u32;
    (0x09 <= code && code <= 0x0d) || code == 0x20 || code == 0x85 || code == 0xa0 || code
        == 0x1680 || (0x2000 <= code && code <= 0x200a) || code == 0x2028 || code == 0x2029 || code
        == 0x202f || code == 0x205f || code == 0x3000
}

/// `text` without the white space at its start and at its end.
pub fn trim(text: &str) -> (inner: &str)
    ensures
        inner@ == trimmed(text@),
{
    let len: usize = text.unicode_len();
    let mut start: usize = 0;
    assert(text@.subrange(0, len as int) =~= text@);
    while start < len && is_space_char(text.get_char(start))
        invariant
            start <= len == text@.len(),
            trim_start(text@) == trim_start(text@.subrange(start as int, len as int)),
        decreases len - start,
    {
        assert(text@.subrange(start as int, len as int).drop_first() =~= text@.subrange(
            start + 1,
            len as int,
        ));
        start = start + 1;
    }
    let ghost tail = text@.subrange(start as int, len as int);
    assert(trim_start(text@) == tail);
    let mut end: usize = len;
    while end > start && is_space_char(text.get_char(end - 1))
        invariant
            start <= end <= len == text@.len(),
            tail == text@.subrange(start as int, len as int),
            trim_end(tail) == trim_end(text@.subrange(start as int, end as int)),
        decreases end - start,
    {
        assert(text@.subrange(start as int, end as int).drop_last() =~= text@.subrange(
            start as int,
            end - 1,
        ));
        end = end - 1;
    }
    text.substring_char(start, end)
}

/// Whether `c` is one of the digits `0` to `9`.
pub open spec fn is_digit(c: char) -> bool {
    0x30 <= c as u32 <= 0x39
}

/// The number that the digit `c` writes.
pub open spec fn digit_value(c: char) -> int {
    c as u32 - 0x30
}

/// Whether `s` is an offset from UTC in the form `+hhmm` or `-hhmm`: a sign
/// and four digits, nothing else.
pub open spec fn is_offset_text(s: Seq<char>) -> bool {
    &&& s.len() == 5
    &&& (s[0] == '+' || s[0] == '-')
    &&& is_digit(s[1])
    &&& is_digit(s[2])
    &&& is_digit(s[3])
    &&& is_digit(s[4])
}

/// The seconds that the offset text `s` stands for: `hh` hours and `mm`
/// minutes, counted east of UTC after `+` and west of it after `-`.
pub open spec fn offset_seconds(s: Seq<char>) -> int {
    let hours = digit_value(s[1]) * 10 + digit_value(s[2]);
    let minutes = digit_value(s[3]) * 10 + digit_value(s[4]);
    let magnitude = hours * 3600 + minutes * 60;
    if s[0] == '-' {
        -magnitude
    } else {
        magnitude
    }
}

/// The offset that is taken from the text `s`: what it stands for, or zero
/// where it is not in the form of an offset.
pub open spec fn offset_or_zero(s: Seq<char>) -> int {
    if is_offset_text(s) {
        offset_seconds(s)
    } else {
        0
    }
}

/// The number that `c` writes, if `c` is a digit.
fn digit_of(c: char) -> (value: Option<i64>)
    ensures
        value is Some <==> is_digit(c),
        value matches Some(v) ==> v == digit_value(c),
{
    let code: u32 = c as u32;
    if 0x30 <= code && code <= 0x39 {
        Some((code - 0x30) as i64)
    } else {
        None
    }
}

/// Reads an offset from UTC in the form `+hhmm` or `-hhmm`, in seconds;
/// `None` for any other text.
pub fn parse_offset(text: &str) -> (offset: Option<i64>)
    ensures
        offset is Some <==> is_offset_text(text@),
        offset matches Some(seconds) ==> seconds == offset_seconds(text@),
{
    if text.unicode_len() != 5 {
        return None;
    }
    let sign: char = text.get_char(0);
    if sign != '+' && sign != '-' {
        return None;
    }
    let hours_tens: i64 = match digit_of(text.get_char(1)) {
        Some(v) => v,
        None => { return None; },
    };
    let hours_units: i64 = match digit_of(text.get_char(2)) {
        Some(v) => v,
        None => { return None; },
    };
    let minutes_tens: i64 = match digit_of(text.get_char(3)) {
        Some(v) => v,
        None => { return None; },
    };
    let minutes_units: i64 = match digit_of(text.get_char(4)) {
        Some(v) => v,
        None => { return None; },
    };
    let hours: i64 = hours_tens * 10 + hours_units;
    let minutes: i64 = minutes_tens * 10 + minutes_units;
    let magnitude: i64 = hours * 3600 + minutes * 60;
    if sign == '-' {
        Some(-magnitude)
    } else {
        Some(magnitude)
    }
}

/// The time zone that the host reports where it prints `offset_output` for
/// its offset from UTC and `zone_output` for the zone's short name.
///
/// White space around either is dropped. An offset that is not in the form
/// `+hhmm` or `-hhmm` counts as zero.
pub open spec fn zone_reported(offset_output: Seq<char>, zone_output: Seq<char>) -> ZoneView {
    ZoneView { offset: offset_or_zero(trimmed(offset_output)), abbr: trimmed(zone_output) }
}

/// The time zone that the host reports: `offset_output` is what it printed
/// for its offset from UTC, `zone_output` what it printed for the zone's
/// short name.
pub fn sys_timezone(offset_output: &str, zone_output: &str) -> (tz: TimeZoneInfo)
    ensures
        tz@ == zone_reported(offset_output@, zone_output@),
{
    let offset_sec: i64 = match parse_offset(trim(offset_output)) {
        Some(seconds) => seconds,
        None => 0,
    };
    TimeZoneInfo { offset_sec, abbr: trim(zone_output).to_owned() }
}

/// What the host printed when it was asked for its time zone.
#[derive(Clone, Debug, PartialEq, Eq)]
pub struct HostReading {
    /// Its offset from UTC, as printed.
    pub offset: String,
    /// The zone's short name, as printed.
    pub zone: String,
}

impl HostReading {
    /// The time zone that the reading reports.
    pub open spec fn reported(self) -> ZoneView {
        zone_reported(self.offset@, self.zone@)
    }
}

/// The time zone that a resolution gives: the one that is held already, or
/// else the one that the host answers with.
pub open spec fn resolve(held: Option<ZoneView>, answer: ZoneView) -> ZoneView {
    match held {
        Some(zone) => zone,
        None => answer,
    }
}

/// Resolved once, resolved for good: the second of two resolutions in a row
/// gives what the first gave, whatever the host answers the second time.
pub proof fn lemma_second_resolution_repeats_first(
    held: Option<ZoneView>,
    first_answer: ZoneView,
    second_answer: ZoneView,
)
    ensures
        resolve(Some(resolve(held, first_answer)), second_answer) == resolve(held, first_answer),
{
}

/// The time zone of the process: empty until the host has been asked, and
/// from then on the answer it gave, whatever the host would say later.
#[derive(Debug)]
pub struct TimeZoneCache {
    resolved: Option<TimeZoneInfo>,
}

impl View for TimeZoneCache {
    type V = Option<ZoneView>;

    /// The time zone that is held, if the host has been asked.
    closed spec fn view(&self) -> Option<ZoneView> {
        match self.resolved {
            Some(tz) => Some(tz@),
            None => None,
        }
    }
}

impl TimeZoneCache {
    /// A cache that holds nothing yet.
    pub fn new() -> (cache: TimeZoneCache)
        ensures
            cache@ is None,
    {
        TimeZoneCache { resolved: None }
    }

    /// The time zone that is held, if the host has been asked.
    pub fn get(&self) -> (held: Option<&TimeZoneInfo>)
        ensures
            held is Some <==> self@ is Some,
            held matches Some(tz) ==> self@ == Some(tz@),
    {
        self.resolved.as_ref()
    }
}

/// The time zone of the process. The first call asks the host, through
/// `query`, and keeps the answer; every later call returns what was kept and
/// leaves `query` uncalled, whatever the host would answer by then.
///
/// The cache is borrowed for the call alone, so no two resolutions run at
/// once and the host is asked at most once.
pub fn get_tz<'a, F: FnOnce() -> HostReading>(cache: &'a mut TimeZoneCache, query: F) -> (tz:
    &'a TimeZoneInfo)
    requires
        old(cache)@ is None ==> query.requires(()),
    ensures
        final(cache)@ == Some(tz@),
        old(cache)@ matches Some(held) ==> tz@ == held,
        exists|reading: HostReading|
            (old(cache)@ is None ==> query.ensures((), reading)) && tz@ == resolve(
                old(cache)@,
                #[trigger] reading.reported(),
            ),
{
    if cache.resolved.is_none() {
        let reading = query();
        cache.resolved = Some(sys_timezone(reading.offset.as_str(), reading.zone.as_str()));
        assert(cache.resolved.unwrap()@ == resolve(old(cache)@, reading.reported()));
    } else {
        let ghost any: HostReading = arbitrary();
        assert(cache.resolved.unwrap()@ == resolve(old(cache)@, any.reported()));
    }
    match &cache.resolved {
        Some(tz) => tz,
        None => vstd::pervasive::unreached(),
    }
}

} // verus!
