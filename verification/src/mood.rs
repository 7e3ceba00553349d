//! Today's mood: the caller's preferences, and the walking decisions
//! derived from precipitation and probability readings.

use vstd::prelude::*;
use vstd::string::StringExecFns;
use crate::jma::TileResult;
use crate::utils::PartOfDay;

verus! {

/// What the caller is in the mood for. A `None` preference means "don't
/// care"; the walking preference may be decided by the weather.
pub struct Mood {
    pub food: Option<bool>,
    pub walking: Option<bool>,
    pub parking: Option<bool>,
    pub part_of_day: Option<PartOfDay>,
    pub forecast: Option<TileResult>,
}

/// Mood preferences as they arrive from a query string.
#[derive(Clone, Copy, Debug)]
pub struct GetMood {
    pub food: Option<bool>,
    pub parking: Option<bool>,
    pub walking: Option<bool>,
    pub weather: Option<bool>,
}

impl From<GetMood> for Mood {
    fn from(mood: GetMood) -> (r: Mood) {
        Mood {
            food: mood.food,
            parking: mood.parking,
            walking: mood.walking,
            part_of_day: None,
            forecast: None,
        }
    }
}

impl vstd::std_specs::convert::FromSpecImpl<GetMood> for Mood {
    open spec fn obeys_from_spec() -> bool {
        true
    }

    open spec fn from_spec(m: GetMood) -> Mood {
        Mood {
            food: m.food,
            parking: m.parking,
            walking: m.walking,
            part_of_day: None,
            forecast: None,
        }
    }
}

/// The mean precipitation of a slice (its weight sum over 65536 pixels,
/// in mm/h) exceeds the area's threshold given in micro-mm/h.
pub open spec fn spec_exceeds_threshold(sum: u32, threshold_micro: u64) -> bool {
    sum * 1_000_000 > threshold_micro * 65536
}

/// The display word for one preference.
pub open spec fn spec_yn(v: Option<bool>) -> Seq<char> {
    match v {
        Some(true) => "yes"@,
        Some(false) => "no"@,
        None => "-"@,
    }
}

fn yn(v: Option<bool>) -> (r: &'static str)
    ensures
        r@ == spec_yn(v),
{
    match v {
        Some(true) => "yes",
        Some(false) => "no",
        None => "-",
    }
}

impl Mood {
    /// A mood with no preferences at all.
    pub fn new() -> (m: Mood)
        ensures
            m.food is None,
            m.walking is None,
            m.parking is None,
            m.part_of_day is None,
            m.forecast is None,
    {
        Mood { food: None, walking: None, parking: None, part_of_day: None, forecast: None }
    }

    /// A mood from command-line style flags: a negative flag wins over a
    /// positive one, and no flag leaves the preference open.
    pub fn from_flags(
        food: bool,
        no_food: bool,
        walking: bool,
        no_walking: bool,
        parking: bool,
        no_parking: bool,
    ) -> (m: Mood)
        ensures
            m.food == (if no_food {
                Some(false)
            } else if food {
                Some(true)
            } else {
                None::<bool>
            }),
            m.walking == (if no_walking {
                Some(false)
            } else if walking {
                Some(true)
            } else {
                None::<bool>
            }),
            m.parking == (if no_parking {
                Some(false)
            } else if parking {
                Some(true)
            } else {
                None::<bool>
            }),
            m.part_of_day is None,
            m.forecast is None,
    {
        let mut m = Mood::new();
        if food {
            m.food = Some(true);
        }
        if no_food {
            m.food = Some(false);
        }
        if walking {
            m.walking = Some(true);
        }
        if no_walking {
            m.walking = Some(false);
        }
        if parking {
            m.parking = Some(true);
        }
        if no_parking {
            m.parking = Some(false);
        }
        m
    }

    pub fn set_part_of_day(&mut self, part: PartOfDay)
        ensures
            final(self).part_of_day == Some(part),
            final(self).food == old(self).food,
            final(self).walking == old(self).walking,
            final(self).parking == old(self).parking,
            final(self).forecast == old(self).forecast,
    {
        self.part_of_day = Some(part);
    }

    pub fn unset_part_of_day(&mut self)
        ensures
            final(self).part_of_day is None,
            final(self).food == old(self).food,
            final(self).walking == old(self).walking,
            final(self).parking == old(self).parking,
            final(self).forecast == old(self).forecast,
    {
        self.part_of_day = None;
    }

    /// Decide the walking preference from a window aggregation outcome.
    /// With no part of day set, nothing changes. Otherwise: a peak
    /// reading sets walking to whether it stays at or under the area's
    /// threshold and records the forecast; a missing reading (failed
    /// aggregation, or a window with no data) clears the walking
    /// preference and leaves the forecast untouched. Returns the peak
    /// weight sum used, if any.
    pub fn apply_precipitation(&mut self, outcome: Option<TileResult>, threshold_micro: u64) -> (prec: Option<u32>)
        requires
            threshold_micro <= 1_000_000_000_000,
        ensures
            final(self).food == old(self).food,
            final(self).parking == old(self).parking,
            final(self).part_of_day == old(self).part_of_day,
            old(self).part_of_day is None ==> final(self).walking == old(self).walking
                && final(self).forecast == old(self).forecast && prec is None,
            old(self).part_of_day is Some ==> ({
                match outcome {
                    Some(r) => match r.precipitation {
                        Some(p) => prec == Some(p) && final(self).walking == Some(
                            !spec_exceeds_threshold(p, threshold_micro),
                        ) && final(self).forecast == Some(r),
                        None => prec is None && final(self).walking is None
                            && final(self).forecast == old(self).forecast,
                    },
                    None => prec is None && final(self).walking is None && final(self).forecast
                        == old(self).forecast,
                }
            }),
    {
        if self.part_of_day.is_none() {
            return None;
        }
        match outcome {
            Some(r) => {
                match r.precipitation {
                    Some(p) => {
                        let exceeds = (p as u64) * 1_000_000 > threshold_micro * 65536;
                        self.walking = if exceeds {
                            Some(false)
                        } else {
                            Some(true)
                        };
                        self.forecast = Some(r);
                        Some(p)
                    },
                    None => {
                        self.walking = None;
                        None
                    },
                }
            },
            None => {
                self.walking = None;
                None
            },
        }
    }

    /// Decide the walking preference from probability-of-precipitation
    /// readings. With no part of day set, nothing changes. Otherwise the
    /// reading for the set part is compared against the area's limit
    /// (ten percent when the area names none); a missing reading clears
    /// the walking preference. Returns the reading used.
    pub fn apply_probability(
        &mut self,
        morning: Option<usize>,
        afternoon: Option<usize>,
        pops_limit: Option<usize>,
    ) -> (pop: Option<usize>)
        ensures
            final(self).food == old(self).food,
            final(self).parking == old(self).parking,
            final(self).part_of_day == old(self).part_of_day,
            final(self).forecast == old(self).forecast,
            old(self).part_of_day is None ==> final(self).walking == old(self).walking && pop
                is None,
            old(self).part_of_day is Some ==> ({
                let p = if old(self).part_of_day == Some(PartOfDay::Morning) {
                    morning
                } else {
                    afternoon
                };
                let limit = match pops_limit {
                    Some(l) => l,
                    None => 10usize,
                };
                pop == p && final(self).walking == (match p {
                    Some(v) => Some(v <= limit),
                    None => None::<bool>,
                })
            }),
    {
        let part = match self.part_of_day {
            Some(part) => part,
            None => {
                return None;
            },
        };
        let p = match part {
            PartOfDay::Morning => morning,
            PartOfDay::Afternoon => afternoon,
        };
        let limit = match pops_limit {
            Some(l) => l,
            None => 10,
        };
        self.walking = match p {
            Some(v) => if v > limit {
                Some(false)
            } else {
                Some(true)
            },
            None => None,
        };
        p
    }

    /// Render the three fixed preferences for display.
    pub fn to_string(&self) -> (r: String)
        ensures
            r@ == "Food: "@ + spec_yn(self.food) + ", Walking: "@ + spec_yn(self.walking)
                + ", Parking: "@ + spec_yn(self.parking),
    {
        let mut s = String::from_str("Food: ");
        s.append(yn(self.food));
        s.append(", Walking: ");
        s.append(yn(self.walking));
        s.append(", Parking: ");
        s.append(yn(self.parking));
        s
    }
}

} // verus!
