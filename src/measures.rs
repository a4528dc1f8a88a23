//! Temperatures and wind speeds that carry their unit.
//!
//! Values are fixed-point numbers in thousandths of their unit. Two measures
//! compare by their value in the canonical unit (Celsius, meters per second),
//! rounded to the nearest thousandth.
use vstd::prelude::*;

verus! {

/// `n / d` rounded to the nearest integer, halves away from zero.
pub open spec fn round_div(n: int, d: int) -> int
    recommends
        d > 0,
{
    if n >= 0 {
        (2 * n + d) / (2 * d)
    } else {
        -((-2 * n + d) / (2 * d))
    }
}

/// Executable `round_div` on 64-bit integers.
pub fn round_div_i64(n: i64, d: i64) -> (r: i64)
    requires
        d > 0,
        -0x1000_0000_0000_0000 <= n <= 0x1000_0000_0000_0000,
        d <= 0x1000_0000_0000_0000,
    ensures
        r == round_div(n as int, d as int),
        n >= 0 ==> 0 <= r <= n,
        n < 0 ==> n <= r <= 0,
{
    if n >= 0 {
        let q: i64 = (2 * n + d) / (2 * d);
        assert(0 <= q <= n) by (nonlinear_arith)
            requires
                q == (2 * n + d) / (2 * d),
                n >= 0,
                d > 0,
        ;
        q
    } else {
        let m: i64 = 0 - n;
        let q: i64 = (2 * m + d) / (2 * d);
        assert(0 <= q <= m) by (nonlinear_arith)
            requires
                q == (2 * m + d) / (2 * d),
                m > 0,
                d > 0,
        ;
        0 - q
    }
}

/// Meters per second to kilometers per hour: 3.6.
pub const KMPH_PER_MPS_NUM: i64 = 36;
pub const KMPH_PER_MPS_DEN: i64 = 10;
/// Meters per second to miles per hour: 2.236936.
pub const MPH_PER_MPS_NUM: i64 = 2236936;
pub const MPH_PER_MPS_DEN: i64 = 1000000;
/// Miles per hour to kilometers per hour: 1.609344.
pub const KMPH_PER_MPH_NUM: i64 = 1609344;
pub const KMPH_PER_MPH_DEN: i64 = 1000000;

/// A temperature in thousandths of a degree of its scale.
#[derive(Debug, Clone, Copy)]
pub enum Temperature {
    C(i32),
    F(i32),
}

impl Temperature {
    /// The value in thousandths of a degree Celsius, rounded.
    pub open spec fn celsius_milli(self) -> int {
        match self {
            Temperature::C(v) => v as int,
            Temperature::F(v) => round_div((v - 32000) * 10, 18),
        }
    }

    /// The value in thousandths of a degree Fahrenheit, rounded.
    pub open spec fn fahrenheit_milli(self) -> int {
        match self {
            Temperature::C(v) => round_div(v * 18, 10) + 32000,
            Temperature::F(v) => v as int,
        }
    }

    pub fn celsius(&self) -> (r: i64)
        ensures
            r == self.celsius_milli(),
    {
        match *self {
            Temperature::C(v) => v as i64,
            Temperature::F(v) => round_div_i64((v as i64 - 32000) * 10, 18),
        }
    }

    pub fn fahrenheit(&self) -> (r: i64)
        ensures
            r == self.fahrenheit_milli(),
            -0x40_0000_0000_0000 <= r <= 0x40_0000_0000_0000,
    {
        match *self {
            Temperature::C(v) => round_div_i64(v as i64 * 18, 10) + 32000,
            Temperature::F(v) => v as i64,
        }
    }
}

impl PartialEq for Temperature {
    fn eq(&self, other: &Temperature) -> (r: bool)
        ensures
            r == (self.celsius_milli() == other.celsius_milli()),
    {
        self.celsius() == other.celsius()
    }
}

impl vstd::std_specs::cmp::PartialEqSpecImpl for Temperature {
    open spec fn obeys_eq_spec() -> bool {
        true
    }

    open spec fn eq_spec(&self, other: &Temperature) -> bool {
        self.celsius_milli() == other.celsius_milli()
    }
}

impl PartialOrd for Temperature {
    fn partial_cmp(&self, other: &Temperature) -> (r: Option<core::cmp::Ordering>)
        ensures
            r == compare_keys(self.celsius_milli(), other.celsius_milli()),
    {
        let a = self.celsius();
        let b = other.celsius();
        if a == b {
            Some(core::cmp::Ordering::Equal)
        } else if a > b {
            Some(core::cmp::Ordering::Greater)
        } else {
            Some(core::cmp::Ordering::Less)
        }
    }
}

impl vstd::std_specs::cmp::PartialOrdSpecImpl for Temperature {
    open spec fn obeys_partial_cmp_spec() -> bool {
        true
    }

    open spec fn partial_cmp_spec(&self, other: &Temperature) -> Option<core::cmp::Ordering> {
        compare_keys(self.celsius_milli(), other.celsius_milli())
    }
}

/// The ordering of two canonical keys.
pub open spec fn compare_keys(a: int, b: int) -> Option<core::cmp::Ordering> {
    if a == b {
        Some(core::cmp::Ordering::Equal)
    } else if a > b {
        Some(core::cmp::Ordering::Greater)
    } else {
        Some(core::cmp::Ordering::Less)
    }
}

/// A wind speed in thousandths of its unit.
#[derive(Debug, Clone, Copy)]
pub enum WindSpeed {
    MPH(i32),
    KMPH(i32),
    MPS(i32),
}

impl WindSpeed {
    /// The value in thousandths of a meter per second, rounded.
    pub open spec fn mps_milli(self) -> int {
        match self {
            WindSpeed::MPH(v) => round_div(v * MPH_PER_MPS_DEN, MPH_PER_MPS_NUM as int),
            WindSpeed::KMPH(v) => round_div(v * KMPH_PER_MPS_DEN, KMPH_PER_MPS_NUM as int),
            WindSpeed::MPS(v) => v as int,
        }
    }

    /// The value in thousandths of a mile per hour, rounded.
    pub open spec fn mph_milli(self) -> int {
        match self {
            WindSpeed::MPH(v) => v as int,
            WindSpeed::KMPH(v) => round_div(v * KMPH_PER_MPH_DEN, KMPH_PER_MPH_NUM as int),
            WindSpeed::MPS(v) => round_div(v * MPH_PER_MPS_NUM, MPH_PER_MPS_DEN as int),
        }
    }

    /// The value in thousandths of a kilometer per hour, rounded.
    pub open spec fn kmph_milli(self) -> int {
        match self {
            WindSpeed::MPH(v) => round_div(v * KMPH_PER_MPH_NUM, KMPH_PER_MPH_DEN as int),
            WindSpeed::KMPH(v) => v as int,
            WindSpeed::MPS(v) => round_div(v * KMPH_PER_MPS_NUM, KMPH_PER_MPS_DEN as int),
        }
    }

    pub fn meters_per_second(&self) -> (r: i64)
        ensures
            r == self.mps_milli(),
    {
        match *self {
            WindSpeed::MPH(v) => round_div_i64(v as i64 * MPH_PER_MPS_DEN, MPH_PER_MPS_NUM),
            WindSpeed::KMPH(v) => round_div_i64(v as i64 * KMPH_PER_MPS_DEN, KMPH_PER_MPS_NUM),
            WindSpeed::MPS(v) => v as i64,
        }
    }

    pub fn miles_per_hour(&self) -> (r: i64)
        ensures
            r == self.mph_milli(),
            -0x40_0000_0000_0000 <= r <= 0x40_0000_0000_0000,
    {
        match *self {
            WindSpeed::MPH(v) => v as i64,
            WindSpeed::KMPH(v) => round_div_i64(v as i64 * KMPH_PER_MPH_DEN, KMPH_PER_MPH_NUM),
            WindSpeed::MPS(v) => round_div_i64(v as i64 * MPH_PER_MPS_NUM, MPH_PER_MPS_DEN),
        }
    }

    /// The value in thousandths of a kilometer per hour, rounded (despite
    /// the method's name, the unit is per hour).
    pub fn kilometers_per_second(&self) -> (r: i64)
        ensures
            r == self.kmph_milli(),
    {
        match *self {
            WindSpeed::MPH(v) => round_div_i64(v as i64 * KMPH_PER_MPH_NUM, KMPH_PER_MPH_DEN),
            WindSpeed::KMPH(v) => v as i64,
            WindSpeed::MPS(v) => round_div_i64(v as i64 * KMPH_PER_MPS_NUM, KMPH_PER_MPS_DEN),
        }
    }
}

impl PartialEq for WindSpeed {
    fn eq(&self, other: &WindSpeed) -> (r: bool)
        ensures
            r == (self.mps_milli() == other.mps_milli()),
    {
        self.meters_per_second() == other.meters_per_second()
    }
}

impl vstd::std_specs::cmp::PartialEqSpecImpl for WindSpeed {
    open spec fn obeys_eq_spec() -> bool {
        true
    }

    open spec fn eq_spec(&self, other: &WindSpeed) -> bool {
        self.mps_milli() == other.mps_milli()
    }
}

impl PartialOrd for WindSpeed {
    fn partial_cmp(&self, other: &WindSpeed) -> (r: Option<core::cmp::Ordering>)
        ensures
            r == compare_keys(self.mps_milli(), other.mps_milli()),
    {
        let a = self.meters_per_second();
        let b = other.meters_per_second();
        if a == b {
            Some(core::cmp::Ordering::Equal)
        } else if a > b {
            Some(core::cmp::Ordering::Greater)
        } else {
            Some(core::cmp::Ordering::Less)
        }
    }
}

impl vstd::std_specs::cmp::PartialOrdSpecImpl for WindSpeed {
    open spec fn obeys_partial_cmp_spec() -> bool {
        true
    }

    open spec fn partial_cmp_spec(&self, other: &WindSpeed) -> Option<core::cmp::Ordering> {
        compare_keys(self.mps_milli(), other.mps_milli())
    }
}

impl WindSpeed {
    /// The value, in thousandths, in the unit the measure was made in.
    pub open spec fn raw_milli(self) -> int {
        match self {
            WindSpeed::MPH(v) => v as int,
            WindSpeed::KMPH(v) => v as int,
            WindSpeed::MPS(v) => v as int,
        }
    }

    /// The measure's own unit applied to a speed given in thousandths of a
    /// meter per second: the thousandths of that unit, rounded.
    pub open spec fn same_unit_of_mps(self, mps: int) -> int {
        match self {
            WindSpeed::MPH(_) => round_div(mps * MPH_PER_MPS_NUM, MPH_PER_MPS_DEN as int),
            WindSpeed::KMPH(_) => round_div(mps * KMPH_PER_MPS_NUM, KMPH_PER_MPS_DEN as int),
            WindSpeed::MPS(_) => mps,
        }
    }
}

/// Rounding `n / d` lands within half of `d` of `n`, scaled by `d`.
pub proof fn lemma_round_div_bounds(n: int, d: int)
    requires
        d > 0,
    ensures
        2 * n - d <= 2 * d * round_div(n, d) <= 2 * n + d,
{
    if n >= 0 {
        let q = (2 * n + d) / (2 * d);
        assert(2 * n - d <= 2 * d * q <= 2 * n + d) by (nonlinear_arith)
            requires
                q == (2 * n + d) / (2 * d),
                n >= 0,
                d > 0,
        ;
    } else {
        let q = (-2 * n + d) / (2 * d);
        assert(-2 * n - d <= 2 * d * q <= -2 * n + d) by (nonlinear_arith)
            requires
                q == (-2 * n + d) / (2 * d),
                n < 0,
                d > 0,
        ;
        let r = round_div(n, d);
        assert(r == -q);
        assert(2 * n - d <= 2 * d * r <= 2 * n + d) by (nonlinear_arith)
            requires
                r == -q,
                -2 * n - d <= 2 * d * q <= -2 * n + d,
        ;
    }
}

/// Converting a wind speed to meters per second and back to its own unit
/// gives the original value to within two thousandths of the unit (within
/// one for miles per hour, exactly for meters per second).
pub proof fn lemma_wind_speed_round_trip(w: WindSpeed)
    ensures
        -2 <= w.same_unit_of_mps(w.mps_milli()) - w.raw_milli() <= 2,
        w is MPH ==> -1 <= w.same_unit_of_mps(w.mps_milli()) - w.raw_milli() <= 1,
        w is MPS ==> w.same_unit_of_mps(w.mps_milli()) == w.raw_milli(),
{
    match w {
        WindSpeed::MPH(v) => {
            let m = round_div(v * 1000000, 2236936);
            lemma_round_div_bounds(v * 1000000, 2236936);
            lemma_round_div_bounds(m * 2236936, 1000000);
        },
        WindSpeed::KMPH(v) => {
            let m = round_div(v * 10, 36);
            lemma_round_div_bounds(v * 10, 36);
            lemma_round_div_bounds(m * 36, 10);
        },
        WindSpeed::MPS(_) => {},
    }
}

} // verus!
