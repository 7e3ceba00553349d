//! Parts of the day and their clock-hour boundaries.

use vstd::prelude::*;
use chrono::Timelike as _;

verus! {

/// A half of the day over which precipitation is aggregated.
#[derive(Clone, Copy, Debug, PartialEq, Eq, Structural)]
pub enum PartOfDay {
    Morning,
    Afternoon,
}

/// A named clock hour bounding a part of the day.
#[derive(Clone, Copy, Debug, PartialEq, Eq, Structural)]
pub enum PointOfDay {
    Dawn,
    Noon,
    Dusk,
}

impl PartOfDay {
    /// The point of day at which this part begins.
    pub fn begin(&self) -> (r: PointOfDay)
        ensures
            r == (match *self {
                PartOfDay::Morning => PointOfDay::Dawn,
                PartOfDay::Afternoon => PointOfDay::Noon,
            }),
    {
        match self {
            PartOfDay::Morning => PointOfDay::Dawn,
            PartOfDay::Afternoon => PointOfDay::Noon,
        }
    }

    /// The point of day at which this part ends.
    pub fn end(&self) -> (r: PointOfDay)
        ensures
            r == (match *self {
                PartOfDay::Morning => PointOfDay::Noon,
                PartOfDay::Afternoon => PointOfDay::Dusk,
            }),
    {
        match self {
            PartOfDay::Morning => PointOfDay::Noon,
            PartOfDay::Afternoon => PointOfDay::Dusk,
        }
    }

    /// A display name for this part of the day.
    pub fn to_string(&self) -> (r: String)
        ensures
            r@ == (match *self {
                PartOfDay::Morning => "Morning"@,
                PartOfDay::Afternoon => "Afternoon"@,
            }),
    {
        match self {
            PartOfDay::Morning => String::from_str("Morning"),
            PartOfDay::Afternoon => String::from_str("Afternoon"),
        }
    }
}

/// Relies on chrono's `DateTime::from_timestamp`, `with_timezone` with the
/// machine's local zone, and the `Timelike` setters `with_hour`,
/// `with_minute`, `with_second`, `with_nanosecond`: the instant at the
/// given local clock hour on the local calendar day of `now_epoch`, or
/// `None` when that local time cannot be resolved. The value depends on
/// the machine's time zone, so nothing is claimed of it.
#[verifier::external_body]
fn local_epoch_at_hour(now_epoch: i64, hour: u32) -> (r: Option<i64>)
    requires
        hour < 24,
{
    let now = chrono::DateTime::<chrono::Utc>::from_timestamp(now_epoch, 0)?;
    let local = now.with_timezone(&chrono::Local);
    let t = local.with_hour(hour)?.with_minute(0)?.with_second(0)?.with_nanosecond(0)?;
    Some(t.timestamp())
}

impl PartOfDay {
    /// Raw window bounds for this part on the local calendar day of
    /// `now_epoch`: the epoch seconds of its begin and end points.
    /// `None` when a local clock hour cannot be resolved. The values
    /// depend on the machine's time zone, so nothing is claimed of them;
    /// the engine validates them against the current instant afterwards.
    pub fn window_epochs(&self, now_epoch: i64) -> (r: Option<(i64, i64)>) {
        let b = self.begin().value();
        let e = self.end().value();
        let begin = match local_epoch_at_hour(now_epoch, b as u32) {
            Some(x) => x,
            None => {
                return None;
            },
        };
        let end = match local_epoch_at_hour(now_epoch, e as u32) {
            Some(x) => x,
            None => {
                return None;
            },
        };
        Some((begin, end))
    }
}

impl PointOfDay {
    /// The clock hour (local time) that this point names.
    pub fn value(&self) -> (r: usize)
        ensures
            r == (match *self {
                PointOfDay::Dawn => 6usize,
                PointOfDay::Noon => 12usize,
                PointOfDay::Dusk => 18usize,
            }),
    {
        match self {
            PointOfDay::Dawn => 6,
            PointOfDay::Noon => 12,
            PointOfDay::Dusk => 18,
        }
    }
}

} // verus!
