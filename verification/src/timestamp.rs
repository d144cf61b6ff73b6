//! Wall-clock timestamps: an instant, shifted to local time and written out
//! as `YYYY-MM-DD HH:MM:SS ZONE`.

use crate::calendar::{civil_from_days, lemma_epoch_day_determines_date, CivilDate};
use crate::clock::seconds_since_epoch;
use crate::decimal::{lemma_decimal_len, padded, push_padded};
use crate::text::text_view;
use crate::timezone::{TimeZoneInfo, ZoneView};
use vstd::prelude::*;

verus! {

/// The seconds in a day.
pub const SECONDS_PER_DAY: u64 = 86400;

/// The seconds in an hour.
pub const SECONDS_PER_HOUR: u64 = 3600;

/// The seconds in a minute.
pub const SECONDS_PER_MINUTE: u64 = 60;

/// A local date and time of day, with the name of the zone it is local to.
#[derive(Clone, Debug, PartialEq, Eq)]
pub struct Timestamp {
    pub year: u64,
    /// 1 to 12.
    pub month: u8,
    /// 1 to the length of the month.
    pub day: u8,
    /// 0 to 23.
    pub hour: u8,
    /// 0 to 59.
    pub minute: u8,
    /// 0 to 59.
    pub second: u8,
    pub zone_abbr: String,
}

/// The text `YYYY-MM-DD HH:MM:SS ZONE` for the date and time of day that
/// lie `local_seconds` seconds after 1 January 1970, 00:00:00, in the zone
/// named `zone`.
pub open spec fn timestamp_text(local_seconds: int, zone: Seq<char>) -> Seq<char> {
    (choose|stamp: Timestamp|
        stamp.valid() && stamp.local_seconds() == local_seconds && stamp.zone_abbr@ == zone).text()
}

impl Timestamp {
    /// The calendar day of this timestamp.
    pub open spec fn civil_date(self) -> CivilDate {
        CivilDate { year: self.year, month: self.month, day: self.day }
    }

    /// The date exists, is not before 1970, and the time of day is one of
    /// the 86400 seconds of a day.
    pub open spec fn valid(self) -> bool {
        &&& self.civil_date().valid()
        &&& self.hour < 24
        &&& self.minute < 60
        &&& self.second < 60
    }

    /// The seconds from 1 January 1970, 00:00:00, to this date and time of
    /// day, by the Gregorian day count.
    pub open spec fn local_seconds(self) -> int {
        self.civil_date().epoch_day() * 86400 + self.hour * 3600 + self.minute * 60 + self.second
    }

    /// The timestamp written out: `YYYY-MM-DD HH:MM:SS ZONE`, each number
    /// padded with zeros to its width.
    pub open spec fn text(self) -> Seq<char> {
        padded(self.year as nat, 4) + seq!['-'] + padded(self.month as nat, 2) + seq!['-'] + padded(
            self.day as nat,
            2,
        ) + seq![' '] + padded(self.hour as nat, 2) + seq![':'] + padded(self.minute as nat, 2)
            + seq![':'] + padded(self.second as nat, 2) + seq![' '] + self.zone_abbr@
    }

    /// The local date and time in zone `tz` at the instant `epoch_seconds`
    /// seconds after 1 January 1970, 00:00:00 UTC.
    ///
    /// Local time before 1970 is not covered. The local seconds of the
    /// result, less the zone's offset, give `epoch_seconds` back.
    pub fn at(epoch_seconds: u64, tz: &TimeZoneInfo) -> (stamp: Timestamp)
        requires
            tz.local_seconds_at(epoch_seconds as int) >= 0,
        ensures
            stamp.valid(),
            stamp.local_seconds() == tz.local_seconds_at(epoch_seconds as int),
            stamp.local_seconds() - tz.offset_sec == epoch_seconds,
            stamp.zone_abbr@ == tz.abbr@,
    {
        let local: u128 = (epoch_seconds as i128 + tz.offset_sec as i128) as u128;
        let total_days: u64 = (local / (SECONDS_PER_DAY as u128)) as u64;
        let seconds_in_day: u64 = (local % (SECONDS_PER_DAY as u128)) as u64;
        let hour: u8 = (seconds_in_day / SECONDS_PER_HOUR) as u8;
        let minute: u8 = ((seconds_in_day % SECONDS_PER_HOUR) / SECONDS_PER_MINUTE) as u8;
        let second: u8 = (seconds_in_day % SECONDS_PER_MINUTE) as u8;
        let date = civil_from_days(total_days);
        proof {
            vstd::arithmetic::div_mod::lemma_fundamental_div_mod(local as int, 86400);
            vstd::arithmetic::div_mod::lemma_fundamental_div_mod(seconds_in_day as int, 3600);
            vstd::arithmetic::div_mod::lemma_fundamental_div_mod(
                (seconds_in_day % 3600) as int,
                60,
            );
            assert(local == total_days * 86400 + seconds_in_day);
            assert(seconds_in_day == hour * 3600 + minute * 60 + second);
        }
        Timestamp {
            year: date.year,
            month: date.month,
            day: date.day,
            hour,
            minute,
            second,
            zone_abbr: tz.abbr.clone(),
        }
    }

    /// Writes the timestamp out.
    pub fn render(&self) -> (text: String)
        ensures
            text@ == self.text(),
    {
        proof {
            reveal_strlit("-");
            reveal_strlit(":");
            reveal_strlit(" ");
        }
        let mut text = String::new();
        push_padded(&mut text, self.year, 4);
        text.append("-");
        push_padded(&mut text, self.month as u64, 2);
        text.append("-");
        push_padded(&mut text, self.day as u64, 2);
        text.append(" ");
        push_padded(&mut text, self.hour as u64, 2);
        text.append(":");
        push_padded(&mut text, self.minute as u64, 2);
        text.append(":");
        push_padded(&mut text, self.second as u64, 2);
        text.append(" ");
        text.append(self.zone_abbr.as_str());
        assert(text@ =~= self.text());
        text
    }
}

/// Date and time of day are determined by the seconds since 1970: two valid
/// timestamps that lie equally many seconds after 1 January 1970, 00:00:00,
/// agree in every number.
pub proof fn lemma_local_seconds_determine_fields(a: Timestamp, b: Timestamp)
    requires
        a.valid(),
        b.valid(),
        a.local_seconds() == b.local_seconds(),
    ensures
        a.year == b.year,
        a.month == b.month,
        a.day == b.day,
        a.hour == b.hour,
        a.minute == b.minute,
        a.second == b.second,
{
    lemma_epoch_day_determines_date(a.civil_date(), b.civil_date());
}

/// The fields have fixed widths: up to the year 9999 a valid timestamp is
/// written in nineteen characters, a space and the zone's name.
pub proof fn lemma_text_has_fixed_width(stamp: Timestamp)
    requires
        stamp.valid(),
        stamp.year < 10000,
    ensures
        stamp.text().len() == 20 + stamp.zone_abbr@.len(),
        stamp.text()[4] == '-',
        stamp.text()[7] == '-',
        stamp.text()[10] == ' ',
        stamp.text()[13] == ':',
        stamp.text()[16] == ':',
        stamp.text()[19] == ' ',
{
    lemma_decimal_len(stamp.year as nat);
    lemma_decimal_len(stamp.month as nat);
    lemma_decimal_len(stamp.day as nat);
    lemma_decimal_len(stamp.hour as nat);
    lemma_decimal_len(stamp.minute as nat);
    lemma_decimal_len(stamp.second as nat);
}

/// A valid timestamp is written as the text for its own seconds and zone.
pub proof fn lemma_text_of_valid_timestamp(stamp: Timestamp)
    requires
        stamp.valid(),
    ensures
        timestamp_text(stamp.local_seconds(), stamp.zone_abbr@) == stamp.text(),
{
    let chosen = choose|other: Timestamp|
        other.valid() && other.local_seconds() == stamp.local_seconds() && other.zone_abbr@
            == stamp.zone_abbr@;
    lemma_local_seconds_determine_fields(chosen, stamp);
}

/// The timestamp text in zone `zone` for a reading of the clock: `clock` is
/// the number of seconds since 1 January 1970, 00:00:00 UTC, or `None` where
/// the clock stands before that instant. There is no text for such a clock,
/// nor where local time is before 1970.
pub open spec fn clock_text(clock: Option<u64>, zone: ZoneView) -> Option<Seq<char>> {
    match clock {
        Some(epoch_seconds) => if epoch_seconds + zone.offset >= 0 {
            Some(timestamp_text(epoch_seconds + zone.offset, zone.abbr))
        } else {
            None
        },
        None => None,
    }
}

/// The timestamp text for the instant `epoch_seconds` seconds after
/// 1 January 1970, 00:00:00 UTC, read in zone `tz`; `None` where local time
/// is then before 1970.
pub fn timestamp_at(epoch_seconds: u64, tz: &TimeZoneInfo) -> (text: Option<String>)
    ensures
        text is Some <==> tz.local_seconds_at(epoch_seconds as int) >= 0,
        text matches Some(t) ==> t@ == timestamp_text(
            tz.local_seconds_at(epoch_seconds as int),
            tz.abbr@,
        ),
        text_view(text) == clock_text(Some(epoch_seconds), tz@),
{
    if epoch_seconds as i128 + (tz.offset_sec as i128) < 0 {
        return None;
    }
    let stamp = Timestamp::at(epoch_seconds, tz);
    proof {
        lemma_text_of_valid_timestamp(stamp);
    }
    Some(stamp.render())
}

/// The timestamp text for the present instant in zone `tz`: the text for
/// what the system clock reads, whatever that is. `None` where the clock
/// stands before 1970 or local time does.
pub fn date(tz: &TimeZoneInfo) -> (text: Option<String>)
    ensures
        exists|clock: Option<u64>| text_view(text) == #[trigger] clock_text(clock, tz@),
{
    let clock = seconds_since_epoch();
    let text = match clock {
        Some(now) => timestamp_at(now, tz),
        None => None,
    };
    assert(text_view(text) == clock_text(clock, tz@));
    text
}

} // verus!
