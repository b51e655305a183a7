//! Japanese calendar eras and era-qualified dates.
//!
//! An [`Era`] names one of the five imperial reign periods that the
//! identifier grammar can express; a [`Date`] is a year counted from the
//! start of an era, with optional month and day. The conversions between
//! a Gregorian (AD) year and an era-relative year live here.

use vstd::prelude::*;

verus! {

/// A named imperial reign period, in chronological order.
#[derive(Debug, Clone, Copy, PartialEq, Eq, Hash, PartialOrd, Ord, Structural)]
pub enum Era {
    Meiji,
    Taisho,
    Showa,
    Heisei,
    Reiwa,
}

/// The AD year in which year 1 of the era falls, minus one: the era-relative
/// year plus this offset is the AD year.
pub open spec fn era_offset(era: Era) -> int {
    match era {
        Era::Meiji => 1867,
        Era::Taisho => 1911,
        Era::Showa => 1925,
        Era::Heisei => 1988,
        Era::Reiwa => 2018,
    }
}

/// The AD year named by an era and an era-relative year.
pub open spec fn spec_ad_year(era: Era, year: int) -> int {
    era_offset(era) + year
}

/// A date counted from the start of an era. `month` and `day` may be absent;
/// a date without them sorts before any full date of the same era-year.
#[derive(Debug, Clone, Copy, PartialEq, Eq, Hash)]
pub struct Date {
    pub era: Era,
    pub year: usize,
    pub month: Option<usize>,
    pub day: Option<usize>,
}

/// The composite integer `ad_year*10000 + month*100 + day` that orders dates,
/// with 0 standing in for an absent month or day.
pub open spec fn date_key(d: Date) -> int {
    spec_ad_year(d.era, d.year as int) * 10000 + (if d.month is Some {
        d.month.unwrap() as int
    } else {
        0
    }) * 100 + (if d.day is Some {
        d.day.unwrap() as int
    } else {
        0
    })
}

impl Date {
    pub fn new(era: Era, year: usize, month: Option<usize>, day: Option<usize>) -> (d: Self)
        ensures
            d == (Date { era, year, month, day }),
    {
        Date { era, year, month, day }
    }

    /// The AD year of this date.
    pub fn get_ad(&self) -> (ad: usize)
        requires
            spec_ad_year(self.era, self.year as int) <= usize::MAX,
        ensures
            ad as int == spec_ad_year(self.era, self.year as int),
    {
        let offset: usize = match self.era {
            Era::Meiji => 1867,
            Era::Taisho => 1911,
            Era::Showa => 1925,
            Era::Heisei => 1988,
            Era::Reiwa => 2018,
        };
        offset + self.year
    }

    /// The era-qualified date of an AD calendar day, by the boundary table on
    /// the composite integer `year*10000 + month*100 + day`: days up to
    /// 1912-07-29 are Meiji, up to 1926-12-24 Taisho, up to 1989-01-07 Showa,
    /// up to 2019-04-30 Heisei, and later days Reiwa. Days before the first
    /// supported one, 1868-10-23, are outside every era.
    pub fn gen_from_ad(year: usize, month: usize, day: usize) -> (d: Self)
        requires
            1 <= month <= 12,
            1 <= day <= 31,
            18681023 <= year * 10000 + month * 100 + day <= usize::MAX,
        ensures
            d.month == Some(month),
            d.day == Some(day),
            spec_ad_year(d.era, d.year as int) == year,
            ({
                let t = year * 10000 + month * 100 + day;
                &&& t <= 19120729 ==> d.era == Era::Meiji
                &&& 19120730 <= t <= 19261224 ==> d.era == Era::Taisho
                &&& 19261225 <= t <= 19890107 ==> d.era == Era::Showa
                &&& 19890108 <= t <= 20190430 ==> d.era == Era::Heisei
                &&& 20190501 <= t ==> d.era == Era::Reiwa
            }),
    {
        let t: usize = year * 10000 + month * 100 + day;
        let (era, era_year): (Era, usize) = if t <= 19120729 {
            (Era::Meiji, year - 1867)
        } else if t <= 19261224 {
            (Era::Taisho, year - 1911)
        } else if t <= 19890107 {
            (Era::Showa, year - 1925)
        } else if t <= 20190430 {
            (Era::Heisei, year - 1988)
        } else {
            (Era::Reiwa, year - 2018)
        };
        Date { era, year: era_year, month: Some(month), day: Some(day) }
    }

    /// Total order on dates by [`date_key`].
    pub fn cmp(&self, other: &Self) -> (o: core::cmp::Ordering)
        ensures
            o is Less <==> date_key(*self) < date_key(*other),
            o is Equal <==> date_key(*self) == date_key(*other),
            o is Greater <==> date_key(*self) > date_key(*other),
    {
        let s = Self::key_u128(self);
        let o = Self::key_u128(other);
        if s < o {
            core::cmp::Ordering::Less
        } else if s == o {
            core::cmp::Ordering::Equal
        } else {
            core::cmp::Ordering::Greater
        }
    }

    fn key_u128(d: &Date) -> (k: u128)
        ensures
            k as int == date_key(*d),
    {
        let offset: u128 = match d.era {
            Era::Meiji => 1867,
            Era::Taisho => 1911,
            Era::Showa => 1925,
            Era::Heisei => 1988,
            Era::Reiwa => 2018,
        };
        let m: u128 = match d.month {
            Some(m) => m as u128,
            None => 0,
        };
        let dy: u128 = match d.day {
            Some(x) => x as u128,
            None => 0,
        };
        (offset + d.year as u128) * 10000 + m * 100 + dy
    }
}

impl PartialOrd for Date {
    fn partial_cmp(&self, other: &Self) -> (r: Option<core::cmp::Ordering>) {
        Some(Date::cmp(self, other))
    }
}

impl vstd::std_specs::cmp::PartialOrdSpecImpl for Date {
    open spec fn obeys_partial_cmp_spec() -> bool {
        true
    }

    open spec fn partial_cmp_spec(&self, other: &Self) -> Option<core::cmp::Ordering> {
        if date_key(*self) < date_key(*other) {
            Some(core::cmp::Ordering::Less)
        } else if date_key(*self) == date_key(*other) {
            Some(core::cmp::Ordering::Equal)
        } else {
            Some(core::cmp::Ordering::Greater)
        }
    }
}

} // verus!
