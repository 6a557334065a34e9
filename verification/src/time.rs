//! The time window: which snapshots to fetch, most recent first.
//!
//! Instants are whole seconds since 1970-01-01T00:00:00 UTC. The tile service
//! publishes one snapshot every five minutes and does not serve the latest
//! ones, so the window starts a quarter of an hour before the last
//! five-minute boundary and walks two hours into the past.

use crate::error::PlanningError;
use vstd::prelude::*;

verus! {

/// Seconds between two snapshots of the tile service.
pub const SLOT_SECONDS: i64 = 300;

/// Minutes between two snapshots of the tile service.
pub const SLOT_MINUTES: i64 = 5;

/// Minutes that the tile service needs to publish a snapshot.
pub const PUBLISH_DELAY_MINUTES: i64 = 15;

/// Minutes that the window spans.
pub const WINDOW_MINUTES: i64 = 120;

/// Number of slots in the window.
pub const SLOT_COUNT: usize = 24;

/// The first instant that has a calendar date: the first second of the year
/// -262143.
pub const MIN_TIMESTAMP: i64 = -8_334_601_228_800;

/// The last instant that has a calendar date: the last second of the year
/// 262142.
pub const MAX_TIMESTAMP: i64 = 8_210_266_876_799;

/// Whether the instant has a calendar date.
pub open spec fn is_valid_instant(epoch_seconds: int) -> bool {
    MIN_TIMESTAMP <= epoch_seconds <= MAX_TIMESTAMP
}

/// The last five-minute boundary at or before the instant.
pub open spec fn floor_to_slot(epoch_seconds: int) -> int {
    epoch_seconds - epoch_seconds % 300
}

/// The instant `minutes` minutes before `epoch_seconds`, where it has a
/// calendar date.
pub open spec fn minutes_before(epoch_seconds: int, minutes: int) -> Option<int> {
    if is_valid_instant(epoch_seconds - 60 * minutes) {
        Some(epoch_seconds - 60 * minutes)
    } else {
        None
    }
}

/// The instant of slot `i` of the window planned at `now`: slot `0` is the
/// most recent one, a publish delay before the last five-minute boundary, and
/// each further slot lies five minutes earlier.
pub open spec fn slot_instant(now: int, i: int) -> int {
    floor_to_slot(now) - 60 * PUBLISH_DELAY_MINUTES - i * SLOT_SECONDS
}

/// Whether a window can be planned at `now`: the instant and the oldest slot
/// of the window both have a calendar date.
pub open spec fn can_plan(now: int) -> bool {
    is_valid_instant(now) && is_valid_instant(slot_instant(now, SLOT_COUNT - 1))
}

/// The slots of a window lie on five-minute boundaries, each five minutes
/// before the one that is fetched before it, and none later than a quarter
/// of an hour before the last five-minute boundary.
pub proof fn lemma_window_shape(now: int, i: int)
    requires
        0 <= i,
    ensures
        slot_instant(now, i) % 300 == 0,
        slot_instant(now, i) <= floor_to_slot(now) - 900,
        slot_instant(now, i) - slot_instant(now, i + 1) == 300,
        floor_to_slot(now) <= now < floor_to_slot(now) + 300,
        floor_to_slot(now) % 300 == 0,
{
    let anchor = floor_to_slot(now);
    assert(anchor == 300 * (now / 300)) by {
        vstd::arithmetic::div_mod::lemma_fundamental_div_mod(now, 300);
    }
    assert(slot_instant(now, i) == 300 * (now / 300 - 3 - i));
}

/// One snapshot time of the tile service.
#[derive(Clone, Copy, Debug, PartialEq, Eq, Structural)]
pub struct TimeSlot {
    /// Seconds since 1970-01-01T00:00:00 UTC.
    pub epoch_seconds: i64,
}

impl View for TimeSlot {
    type V = int;

    open spec fn view(&self) -> int {
        self.epoch_seconds as int
    }
}

impl TimeSlot {
    /// A slot lies on a five-minute boundary and has a calendar date.
    pub open spec fn wf(&self) -> bool {
        is_valid_instant(self@) && self@ % 300 == 0
    }

    /// The slot that `epoch_seconds` falls into, if that instant has a
    /// calendar date.
    pub fn containing(epoch_seconds: i64) -> (slot: Option<TimeSlot>)
        ensures
            slot is Some <==> is_valid_instant(epoch_seconds as int),
            slot is Some ==> slot->0@ == floor_to_slot(epoch_seconds as int) && slot->0.wf(),
    {
        if epoch_seconds < MIN_TIMESTAMP || epoch_seconds > MAX_TIMESTAMP {
            return None;
        }
        match epoch_seconds.checked_rem_euclid(SLOT_SECONDS) {
            Some(past) => Some(TimeSlot { epoch_seconds: epoch_seconds - past }),
            None => None,
        }
    }
}

/// Subtracts `minutes` minutes from an instant with `DateTime::checked_sub_signed`
/// of chrono. The contract claims that the result is the instant that many
/// times sixty seconds earlier, and that there is none exactly when that
/// instant lies before the first year that chrono can represent.
#[verifier::external_body]
fn checked_minutes_before(epoch_seconds: i64, minutes: i64) -> (earlier: Option<i64>)
    requires
        is_valid_instant(epoch_seconds as int),
        0 <= minutes <= 0x7fff_ffff,
    ensures
        earlier == match minutes_before(epoch_seconds as int, minutes as int) {
            Some(instant) => Some(instant as i64),
            None => None,
        },
{
    let instant = chrono::DateTime::from_timestamp(epoch_seconds, 0).unwrap();
    match instant.checked_sub_signed(chrono::Duration::minutes(minutes)) {
        Some(instant) => Some(instant.timestamp()),
        None => None,
    }
}

/// The year of the calendar date of an instant, in UTC.
pub uninterp spec fn utc_year(epoch_seconds: int) -> int;

/// The month of the calendar date of an instant, in UTC.
pub uninterp spec fn utc_month(epoch_seconds: int) -> int;

/// The day of the month of the calendar date of an instant, in UTC.
pub uninterp spec fn utc_day(epoch_seconds: int) -> int;

/// The hour of the day of an instant, in UTC.
pub open spec fn utc_hour(epoch_seconds: int) -> int {
    (epoch_seconds % 86400) / 3600
}

/// The minute of the hour of an instant, in UTC.
pub open spec fn utc_minute(epoch_seconds: int) -> int {
    (epoch_seconds % 3600) / 60
}

/// `Datelike::year` of chrono, on the UTC date and time of the instant. The
/// contract gives the result its name and claims no more.
#[verifier::external_body]
fn year_of(epoch_seconds: i64) -> (year: i32)
    requires
        is_valid_instant(epoch_seconds as int),
    ensures
        year == utc_year(epoch_seconds as int),
{
    chrono::Datelike::year(&chrono::DateTime::from_timestamp(epoch_seconds, 0).unwrap())
}

/// `Datelike::month` of chrono, on the UTC date and time of the instant. The
/// contract gives the result its name and claims that it counts from 1 to 12.
#[verifier::external_body]
fn month_of(epoch_seconds: i64) -> (month: u32)
    requires
        is_valid_instant(epoch_seconds as int),
    ensures
        month == utc_month(epoch_seconds as int),
        1 <= month <= 12,
{
    chrono::Datelike::month(&chrono::DateTime::from_timestamp(epoch_seconds, 0).unwrap())
}

/// `Datelike::day` of chrono, on the UTC date and time of the instant. The
/// contract gives the result its name and claims that it counts from 1 to 31.
#[verifier::external_body]
fn day_of(epoch_seconds: i64) -> (day: u32)
    requires
        is_valid_instant(epoch_seconds as int),
    ensures
        day == utc_day(epoch_seconds as int),
        1 <= day <= 31,
{
    chrono::Datelike::day(&chrono::DateTime::from_timestamp(epoch_seconds, 0).unwrap())
}

/// `Timelike::hour` of chrono, on the UTC date and time of the instant. The
/// contract claims that a day has 86400 seconds and an hour 3600, and that
/// the days are counted from the start of 1970.
#[verifier::external_body]
fn hour_of(epoch_seconds: i64) -> (hour: u32)
    requires
        is_valid_instant(epoch_seconds as int),
    ensures
        hour == utc_hour(epoch_seconds as int),
{
    chrono::Timelike::hour(&chrono::DateTime::from_timestamp(epoch_seconds, 0).unwrap())
}

/// `Timelike::minute` of chrono, on the UTC date and time of the instant. The
/// contract claims that an hour has 3600 seconds and a minute 60, and that
/// the hours are counted from the start of 1970.
#[verifier::external_body]
fn minute_of(epoch_seconds: i64) -> (minute: u32)
    requires
        is_valid_instant(epoch_seconds as int),
    ensures
        minute == utc_minute(epoch_seconds as int),
{
    chrono::Timelike::minute(&chrono::DateTime::from_timestamp(epoch_seconds, 0).unwrap())
}

/// The calendar date and the time of day of a slot, in UTC.
#[derive(Clone, Copy, Debug, PartialEq, Eq, Structural)]
pub struct CalendarFields {
    pub year: i32,
    pub month: u32,
    pub day: u32,
    pub hour: u32,
    pub minute: u32,
}

impl CalendarFields {
    /// The fields lie in the ranges of a calendar date and a time of day.
    pub open spec fn wf(&self) -> bool {
        &&& 1 <= self.month <= 12
        &&& 1 <= self.day <= 31
        &&& self.hour < 24
        &&& self.minute < 60
    }
}

/// The calendar fields of an instant, in UTC.
pub open spec fn utc_fields(epoch_seconds: int) -> CalendarFields {
    CalendarFields {
        year: utc_year(epoch_seconds) as i32,
        month: utc_month(epoch_seconds) as u32,
        day: utc_day(epoch_seconds) as u32,
        hour: utc_hour(epoch_seconds) as u32,
        minute: utc_minute(epoch_seconds) as u32,
    }
}

impl TimeSlot {
    /// The calendar date and the time of day of the slot, in UTC. The minute
    /// is a multiple of five.
    pub fn calendar(&self) -> (fields: CalendarFields)
        requires
            self.wf(),
        ensures
            fields == utc_fields(self@),
            fields.wf(),
            fields.minute % 5 == 0,
    {
        let fields = CalendarFields {
            year: year_of(self.epoch_seconds),
            month: month_of(self.epoch_seconds),
            day: day_of(self.epoch_seconds),
            hour: hour_of(self.epoch_seconds),
            minute: minute_of(self.epoch_seconds),
        };
        assert(fields.minute % 5 == 0) by {
            let s = self@;
            vstd::arithmetic::div_mod::lemma_mod_mod(s, 300, 12);
            assert((s % 3600) % 300 == s % 300);
        }
        fields
    }
}

/// Plans the window at `now`: the slots to fetch, in the order in which they
/// are fetched, the most recent first.
pub fn previous_time(now: i64) -> (planned: Result<Vec<TimeSlot>, PlanningError>)
    ensures
        planned is Ok <==> can_plan(now as int),
        planned is Err ==> planned->Err_0 == (if is_valid_instant(now as int) {
            PlanningError::Underflow
        } else {
            PlanningError::InvalidInstant
        }),
        planned is Ok ==> {
            let slots = planned->Ok_0@;
            &&& slots.len() == SLOT_COUNT
            &&& forall|i: int|
                0 <= i < slots.len() ==> #[trigger] slots[i]@ == slot_instant(now as int, i)
            &&& forall|i: int| 0 <= i < slots.len() ==> (#[trigger] slots[i]).wf()
            &&& forall|i: int|
                0 <= i < slots.len() ==> (#[trigger] slots[i])@ <= floor_to_slot(now as int)
                    - 900
            &&& forall|i: int|
                0 <= i < slots.len() - 1 ==> (#[trigger] slots[i])@ - slots[i + 1]@ == 300
        },
{
    let anchor = match TimeSlot::containing(now) {
        Some(slot) => slot.epoch_seconds,
        None => { return Err(PlanningError::InvalidInstant); },
    };
    let mut slots: Vec<TimeSlot> = Vec::new();
    let mut x: i64 = 0;
    while x < WINDOW_MINUTES
        invariant
            0 <= x <= WINDOW_MINUTES,
            x % 5 == 0,
            is_valid_instant(now as int),
            anchor == floor_to_slot(now as int),
            is_valid_instant(anchor as int),
            slots@.len() == x / 5,
            forall|i: int|
                0 <= i < slots@.len() ==> #[trigger] slots@[i]@ == slot_instant(now as int, i),
            forall|i: int| 0 <= i < slots@.len() ==> (#[trigger] slots@[i]).wf(),
        decreases WINDOW_MINUTES - x,
    {
        match checked_minutes_before(anchor, x + PUBLISH_DELAY_MINUTES) {
            Some(instant) => {
                slots.push(TimeSlot { epoch_seconds: instant });
            },
            None => {
                return Err(PlanningError::Underflow);
            },
        }
        x += SLOT_MINUTES;
    }
    assert(slots@[SLOT_COUNT - 1].wf());
    Ok(slots)
}

} // verus!
