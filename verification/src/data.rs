use vstd::prelude::*;
use crate::error::DataError;

verus! {

pub type Data = Vec<DataPoint>;

/// A calendar day, counted in days of the proleptic Gregorian calendar with
/// day 1 being 0001-01-01.
#[derive(Debug, Clone, Copy, PartialEq, Eq, Structural)]
pub struct Day {
    pub days_from_ce: i32,
}

/// The 7-day incidence as an exact fraction: `scaled_cases / population` is the
/// number of cases per 100,000 inhabitants over the trailing week.
#[derive(Debug, Clone, Copy, PartialEq, Eq, Structural)]
pub struct Incidence {
    /// Reported cases of the trailing week, times 100,000.
    pub scaled_cases: u64,
    /// The population the cases are related to.
    pub population: u32,
}

#[derive(Debug, Clone, PartialEq, Eq)]
pub struct DataPoint {
    pub object_id: u32,
    pub dates: Dates,
    pub show: bool,
    pub incidence: Incidence,
    pub cases: Cases,
    pub deaths: Deaths,
    pub recoveries: Recoveries,
    pub hospitalisations: Hospitalisations,
}

#[derive(Debug, Clone, PartialEq, Eq)]
pub struct Dates {
    pub date: Day,
    /// Milliseconds since 1970-01-01T00:00:00Z.
    pub date_ts: i64,
    pub date_range: String,
}

#[derive(Debug, Copy, Clone, PartialEq, Eq, Structural)]
pub struct Cases {
    pub total: u32,
    pub increase: u32,
    pub reported: u32,
}

#[derive(Debug, Copy, Clone, PartialEq, Eq, Structural)]
pub struct Deaths {
    pub total: u32,
    pub increase: u32,
}

#[derive(Debug, Copy, Clone, PartialEq, Eq, Structural)]
pub struct Recoveries {
    pub total: u32,
    pub increase: u32,
}

#[derive(Debug, Copy, Clone, PartialEq, Eq, Structural)]
pub struct Hospitalisations {
    pub total: u32,
    pub increase: u32,
    pub beds_in_use: u32,
}

/// The answer of the incremental feed.
#[derive(Debug, Clone, PartialEq, Eq)]
pub struct ApiResponse {
    pub features: Vec<ApiFeatures>,
}

#[derive(Debug, Clone, PartialEq, Eq)]
pub struct ApiFeatures {
    pub attributes: ApiAttributes,
}

/// A record as a source gives it: each source fills some of the fields and
/// leaves the others out.
#[derive(Debug, Clone, PartialEq, Eq)]
pub struct ApiAttributes {
    pub object_id: u32,
    pub date: Option<Day>,
    /// Milliseconds since 1970-01-01T00:00:00Z.
    pub date_ts: Option<i64>,
    pub date_range: Option<String>,
    pub show: bool,
    pub cases_total: Option<u32>,
    pub cases_increase: Option<u32>,
    pub cases_reported: Option<u32>,
    pub deaths_total: Option<u32>,
    pub deaths_increase: Option<u32>,
    pub recoveries_total: Option<u32>,
    pub recoveries_increase: Option<u32>,
    pub hospitalisations_total: Option<u32>,
    pub hospitalisations_increase: Option<u32>,
    pub hospitalisations_beds_in_use: Option<u32>,
}

/// A finished series as the cache holds it.
#[derive(Debug, Clone, PartialEq, Eq)]
pub struct CachedData {
    /// Seconds since 1970-01-01T00:00:00Z.
    pub created_at: i64,
    pub attributes: Vec<DataPoint>,
}

/// A finished series on its way into the cache.
#[derive(Debug)]
pub struct CachingData<'a> {
    /// Seconds since 1970-01-01T00:00:00Z.
    pub created_at: i64,
    pub attributes: &'a [DataPoint],
}

/// The day number of 1970-01-01.
pub const EPOCH_DAY: i32 = 719_163;

pub const MILLIS_PER_DAY: i64 = 86_400_000;

impl Day {
    /// The first millisecond of the day in UTC, counted from 1970-01-01T00:00:00Z.
    pub open spec fn spec_midnight(self) -> int {
        (self.days_from_ce - 719_163) * 86_400_000
    }

    pub fn midnight(&self) -> (millis: i64)
        ensures
            millis == self.spec_midnight(),
    {
        let days: i64 = self.days_from_ce as i64;
        (days - (EPOCH_DAY as i64)) * MILLIS_PER_DAY
    }
}

/// A number that a source has left out counts as zero.
pub open spec fn or_zero(field: Option<u32>) -> u32 {
    match field {
        Some(number) => number,
        None => 0,
    }
}

/// That `point` is the record `raw` with every gap filled: zero for a number,
/// nothing for the range, the start of the day for the time stamp, and no
/// incidence yet.
pub open spec fn normalizes(raw: ApiAttributes, point: DataPoint) -> bool {
    &&& raw.date == Some(point.dates.date)
    &&& point.object_id == raw.object_id
    &&& point.dates.date_ts == match raw.date_ts {
        Some(millis) => millis as int,
        None => point.dates.date.spec_midnight(),
    }
    &&& point.dates.date_range@ == match raw.date_range {
        Some(range) => range@,
        None => Seq::<char>::empty(),
    }
    &&& point.show == raw.show
    &&& point.incidence == Incidence::spec_zero()
    &&& point.cases == (Cases {
        total: or_zero(raw.cases_total),
        increase: or_zero(raw.cases_increase),
        reported: or_zero(raw.cases_reported),
    })
    &&& point.deaths == (Deaths {
        total: or_zero(raw.deaths_total),
        increase: or_zero(raw.deaths_increase),
    })
    &&& point.recoveries == (Recoveries {
        total: or_zero(raw.recoveries_total),
        increase: or_zero(raw.recoveries_increase),
    })
    &&& point.hospitalisations == (Hospitalisations {
        total: or_zero(raw.hospitalisations_total),
        increase: or_zero(raw.hospitalisations_increase),
        beds_in_use: or_zero(raw.hospitalisations_beds_in_use),
    })
}

fn number_or_zero(field: Option<u32>) -> (number: u32)
    ensures
        number == or_zero(field),
{
    match field {
        Some(number) => number,
        None => 0,
    }
}

impl Incidence {
    /// An incidence is a fraction, so its denominator is positive.
    pub open spec fn wf(self) -> bool {
        self.population > 0
    }

    /// The incidence of a record that no week of reports has been related to.
    pub open spec fn spec_zero() -> Incidence {
        Incidence { scaled_cases: 0, population: 1 }
    }

    #[verifier::when_used_as_spec(spec_zero)]
    pub fn zero() -> (res: Incidence)
        ensures
            res == Self::spec_zero(),
            res.wf(),
    {
        Incidence { scaled_cases: 0, population: 1 }
    }
}

impl DataPoint {
    /// Fills the gaps of a source record. A record without a date has no place
    /// in the series and is refused; nothing else about it is judged.
    pub fn try_from(value: ApiFeatures) -> (res: Result<DataPoint, DataError>)
        ensures
            value.attributes.date is None ==> res == Err::<DataPoint, DataError>(DataError::MissingDate),
            value.attributes.date is Some ==> res is Ok,
            res matches Ok(point) ==> normalizes(value.attributes, point),
    {
        let raw = value.attributes;
        let date = match raw.date {
            Some(date) => date,
            None => {
                return Err(DataError::MissingDate);
            },
        };
        let date_ts = match raw.date_ts {
            Some(millis) => millis,
            None => date.midnight(),
        };
        let date_range = match raw.date_range {
            Some(range) => range,
            None => String::new(),
        };
        let data_point = DataPoint {
            object_id: raw.object_id,
            dates: Dates { date, date_ts, date_range },
            show: raw.show,
            incidence: Incidence::zero(),
            cases: Cases {
                total: number_or_zero(raw.cases_total),
                increase: number_or_zero(raw.cases_increase),
                reported: number_or_zero(raw.cases_reported),
            },
            deaths: Deaths {
                total: number_or_zero(raw.deaths_total),
                increase: number_or_zero(raw.deaths_increase),
            },
            recoveries: Recoveries {
                total: number_or_zero(raw.recoveries_total),
                increase: number_or_zero(raw.recoveries_increase),
            },
            hospitalisations: Hospitalisations {
                total: number_or_zero(raw.hospitalisations_total),
                increase: number_or_zero(raw.hospitalisations_increase),
                beds_in_use: number_or_zero(raw.hospitalisations_beds_in_use),
            },
        };
        Ok(data_point)
    }

    /// Cases that are neither dead nor recovered: may be negative where the
    /// sources disagree.
    pub open spec fn spec_active_cases(self) -> int {
        self.cases.total - self.deaths.total - self.recoveries.total
    }

    pub fn active_cases(&self) -> (active: i64)
        ensures
            active == self.spec_active_cases(),
    {
        let cases: i64 = self.cases.total as i64;
        let deaths: i64 = self.deaths.total as i64;
        let recoveries: i64 = self.recoveries.total as i64;
        cases - deaths - recoveries
    }
}

} // verus!
