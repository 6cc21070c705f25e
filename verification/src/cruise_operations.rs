//! Cruise operations: random numbers, measurement cadence, trajectory
//! correction windows, reflectivity thaws and arrival targeting.

use crate::scalar::{lemma_powers_of_two, lit, Scalar};
use vstd::arithmetic::div_mod::{lemma_fundamental_div_mod, lemma_fundamental_div_mod_converse, lemma_mod_bound, lemma_truncate_middle};
use vstd::prelude::*;

verus! {

/// 1e-12, the smallest angular momentum that defines a plane.
pub const MIN_MOMENTUM: u64 = 0x3D71_9799_812D_EA11;

/// Miss distance above which a correction is planned, 500 km.
pub const TCM_THRESHOLD_KM: u64 = 0x407F_4000_0000_0000;

/// Smallest correction that is flown, 0.05 m/s.
pub const MIN_TCM_MS: u64 = 0x3FA9_9999_9999_999A;

/// Days of calibration at the start of cruise without corrections, 1.
pub const MIN_TCM_DAY: u64 = 0x3FF0_0000_0000_0000;

/// Days before arrival from which no correction is planned, 10.
pub const LAST_TCM_DAYS: u64 = 0x4024_0000_0000_0000;

/// Days from a burn to the next correction window.
pub const POST_TCM_FREEZE: i64 = 30;

/// Days from a burn to the reflectivity thaw.
pub const BURN_RECON_DAYS: i64 = 15;

/// Burns closer than this many days are logged as one.
pub const MERGE_DAYS: i64 = 3;

/// Truth step and filter step in seconds.
pub const DT_TRUTH_S: usize = 1_800;

pub const DT_FILTER_S: usize = 3_600;

/// Truth steps between log rows.
pub const LOG_EVERY: usize = 24;

/// Filter steps between ranging passes, and between interferometric passes.
pub const MEAS_HZ: usize = 2;

pub const DDOR_HZ: usize = 24;

/// 1 km, the residual at which targeting has converged.
pub const SHOOT_RESIDUAL_KM: u64 = 0x3FF0_0000_0000_0000;

/// Largest targeting step, 50 m/s.
pub const SHOOT_MAX_STEP_MS: u64 = 0x4049_0000_0000_0000;

/// Number of targeting iterations.
pub const SHOOT_ITERATIONS: usize = 20;

/// 1 (m or m/s), below which a relative state gives no direction.
pub const MIN_RELATIVE: u64 = 0x3FF0_0000_0000_0000;

/// 1e-6, below which the approach lies along the Sun line.
pub const MIN_SUN_CROSS: u64 = 0x3EB0_C6F7_A0B5_ED8D;

/// Sixty-second steps of the periapsis search: three days.
pub const PERIAPSIS_STEPS: usize = 4_320;

/// Xorshift generator.
#[derive(Clone, Copy, Debug, PartialEq, Eq, Structural)]
pub struct Rng(pub u64);

/// The state that follows `x`.
pub open spec fn xorshift(x: u64) -> u64 {
    let a = x ^ (x << 13u64);
    let b = a ^ (a >> 7u64);
    b ^ (b << 17u64)
}

impl Rng {
    /// A generator with an odd state.
    pub fn new(s: u64) -> (r: Rng)
        ensures
            r.0 == s | 1,
            r.0 != 0,
    {
        assert(s | 1 != 0) by (bit_vector);
        Rng(s | 1)
    }

    /// The next state, which is also the number drawn.
    pub fn u64(&mut self) -> (r: u64)
        ensures
            final(self).0 == xorshift(old(self).0),
            r == final(self).0,
    {
        self.0 = self.0 ^ (self.0 << 13u64);
        self.0 = self.0 ^ (self.0 >> 7u64);
        self.0 = self.0 ^ (self.0 << 17u64);
        self.0
    }

    /// Numerator of a uniform number in `[0, 1)` over `2^53`.
    pub fn uni(&mut self) -> (r: u64)
        ensures
            final(self).0 == xorshift(old(self).0),
            r == final(self).0 >> 11u64,
            r < 0x0020_0000_0000_0000,
    {
        let x: u64 = self.u64();
        assert(x >> 11u64 < 0x0020_0000_0000_0000) by (bit_vector);
        x >> 11u64
    }
}

/// The generator never falls into the all-zero state, and no two states share
/// a successor: its sequence has no dead end and no merging branches.
pub proof fn xorshift_is_reversible(x: u64, y: u64)
    ensures
        x != 0 ==> xorshift(x) != 0,
        xorshift(x) == xorshift(y) ==> x == y,
{
    let (a, c) = (x ^ (x << 13u64), y ^ (y << 13u64));
    let (b, d) = (a ^ (a >> 7u64), c ^ (c >> 7u64));
    assert(b ^ (b << 17u64) == d ^ (d << 17u64) ==> b == d) by (bit_vector);
    assert(a ^ (a >> 7u64) == c ^ (c >> 7u64) ==> a == c) by (bit_vector);
    assert(x ^ (x << 13u64) == y ^ (y << 13u64) ==> x == y) by (bit_vector);
    assert(b != 0 ==> b ^ (b << 17u64) != 0) by (bit_vector);
    assert(a != 0 ==> a ^ (a >> 7u64) != 0) by (bit_vector);
    assert(x != 0 ==> x ^ (x << 13u64) != 0) by (bit_vector);
}

/// What one truth step of cruise does.
#[derive(Clone, Copy, Debug, PartialEq, Eq, Structural)]
pub struct CruiseStep {
    /// The filters predict.
    pub predict: bool,
    /// Range and range rate are measured.
    pub range: bool,
    /// The interferometric angles are measured too.
    pub ddor: bool,
    /// A log row is written.
    pub log: bool,
}

/// Counters behind the cruise cadence.
#[derive(Clone, Copy, Debug, PartialEq, Eq, Structural)]
pub struct CruiseClock {
    /// Truth steps since the last filter step.
    pub truth_steps: usize,
    /// Filter steps.
    pub filter_steps: usize,
    /// Truth steps since the last log row.
    pub log_steps: usize,
}

/// What the `n`-th truth step does, counted from 1, while no log row was
/// forced by the end of cruise.
pub open spec fn cruise_step_at(n: int) -> CruiseStep {
    CruiseStep { predict: n % 2 == 0, range: n % 4 == 0, ddor: n % 48 == 0, log: n % 24 == 0 }
}

/// The clock after one truth step, and what the step does.
pub open spec fn ticked(c: CruiseClock, at_end: bool) -> (CruiseClock, CruiseStep) {
    let predict = c.truth_steps == 1;
    let filter_steps = if predict {
        (c.filter_steps + 1) as usize
    } else {
        c.filter_steps
    };
    let range = predict && filter_steps as int % 2 == 0;
    let log = at_end || c.log_steps == LOG_EVERY - 1;
    (
        CruiseClock {
            truth_steps: (1 - c.truth_steps) as usize,
            filter_steps,
            log_steps: if log {
                0
            } else {
                (c.log_steps + 1) as usize
            },
        },
        CruiseStep { predict, range, ddor: range && filter_steps as int % 24 == 0, log },
    )
}

impl CruiseClock {
    pub open spec fn wf(self) -> bool {
        self.truth_steps < 2 && self.log_steps < LOG_EVERY
    }

    /// The clock stands after `n` truth steps without a forced log row.
    pub open spec fn stands_at(self, n: int) -> bool {
        self.truth_steps == n % 2 && self.filter_steps == n / 2 && self.log_steps == n % 24
    }

    pub fn new() -> (r: CruiseClock)
        ensures
            r.wf(),
            r.stands_at(0),
    {
        CruiseClock { truth_steps: 0, filter_steps: 0, log_steps: 0 }
    }

    /// Count one truth step and say what it does; the last one is always logged.
    pub fn tick(&mut self, at_end: bool) -> (r: CruiseStep)
        requires
            old(self).wf(),
            old(self).filter_steps < usize::MAX,
        ensures
            final(self).wf(),
            (*final(self), r) == ticked(*old(self), at_end),
    {
        self.truth_steps = self.truth_steps + 1;
        let mut predict: bool = false;
        let mut range: bool = false;
        let mut ddor: bool = false;
        if self.truth_steps * DT_TRUTH_S >= DT_FILTER_S {
            self.truth_steps = 0;
            self.filter_steps = self.filter_steps + 1;
            predict = true;
            range = self.filter_steps % MEAS_HZ == 0;
            ddor = range && self.filter_steps % DDOR_HZ == 0;
        }
        self.log_steps = self.log_steps + 1;
        let log: bool = self.log_steps >= LOG_EVERY || at_end;
        if log {
            self.log_steps = 0;
        }
        CruiseStep { predict, range, ddor, log }
    }
}

/// The filters predict on every second truth step, ranging comes on every
/// fourth, the interferometric angles on every forty-eighth, and a log row on
/// every twenty-fourth.
pub proof fn cadence_is_periodic(c: CruiseClock, n: int)
    requires
        n >= 0,
        c.stands_at(n),
        c.filter_steps < usize::MAX,
    ensures
        ticked(c, false).1 == cruise_step_at(n + 1),
        ticked(c, false).0.stands_at(n + 1),
{
    let q = n / 2;
    lemma_next_mod(n, 24);
    if n % 2 == 1 {
        assert(n + 1 == 2 * (q + 1));
        lemma_mod_of_double(q + 1, 2);
        lemma_mod_of_double(q + 1, 24);
    } else {
        assert(n + 1 == 2 * q + 1);
        lemma_odd_is_no_multiple(q, 2);
        lemma_odd_is_no_multiple(q, 24);
    }
}

proof fn lemma_next_mod(n: int, m: int)
    requires
        m > 1,
    ensures
        (n + 1) % m == if n % m == m - 1 {
            0
        } else {
            n % m + 1
        },
{
    lemma_fundamental_div_mod(n, m);
    if n % m == m - 1 {
        assert(n + 1 == m * (n / m + 1)) by (nonlinear_arith)
            requires
                n == m * (n / m) + n % m,
                n % m == m - 1,
        ;
        lemma_fundamental_div_mod_converse(n + 1, m, n / m + 1, 0);
    } else {
        lemma_mod_bound(n, m);
        assert(n + 1 == (n / m) * m + (n % m + 1)) by (nonlinear_arith)
            requires
                n == m * (n / m) + n % m,
        ;
        lemma_fundamental_div_mod_converse(n + 1, m, n / m, n % m + 1);
    }
}

proof fn lemma_mod_of_double(k: int, m: int)
    requires
        k >= 0,
        m > 0,
    ensures
        (2 * k) % (2 * m) == 0 <==> k % m == 0,
{
    lemma_truncate_middle(k, 2, m);
}

proof fn lemma_odd_is_no_multiple(k: int, m: int)
    requires
        m > 0,
    ensures
        (2 * k + 1) % (2 * m) != 0,
{
    let x = 2 * k + 1;
    lemma_fundamental_div_mod(x, 2 * m);
    if x % (2 * m) == 0 {
        let d = m * (x / (2 * m));
        assert(x == 2 * d) by (nonlinear_arith)
            requires
                x == 2 * m * (x / (2 * m)),
                d == m * (x / (2 * m)),
        ;
    }
}

/// Days on which cruise operations last acted.
#[derive(Clone, Copy, Debug, PartialEq, Eq, Structural)]
pub struct CruiseDays {
    pub last_day_check: i64,
    pub last_tcm_day: i64,
    pub last_thaw_day: i64,
}

/// What the daily operations open with.
#[derive(Clone, Copy, Debug, PartialEq, Eq, Structural)]
pub enum DayStart {
    /// This day was handled already.
    Handled,
    /// The ground solution is uplinked, and the reflectivity is thawed where
    /// `thaw` says so.
    Operate { thaw: bool },
}

impl CruiseDays {
    /// A thaw is due: there was a burn, its reconstruction time is over, and it
    /// has not been followed by a thaw yet.
    pub open spec fn thaw_due(self, day: int) -> bool {
        &&& self.last_tcm_day >= 0
        &&& day >= self.last_tcm_day + BURN_RECON_DAYS
        &&& self.last_thaw_day < self.last_tcm_day
    }

    /// The window after a burn, or the stretch before the first one, is over.
    pub open spec fn unfrozen(self, day: int) -> bool {
        day >= self.last_tcm_day + POST_TCM_FREEZE
    }

    /// The start of cruise: day 0 is not frozen.
    pub fn new() -> (r: CruiseDays)
        ensures
            r.last_day_check == -1,
            r.last_tcm_day == -POST_TCM_FREEZE,
            r.last_thaw_day == -1,
    {
        CruiseDays { last_day_check: -1, last_tcm_day: -30, last_thaw_day: -1 }
    }

    /// Open the daily operations of `day`, once per day.
    pub fn begin_day(&mut self, day: i64) -> (r: DayStart)
        ensures
            day <= old(self).last_day_check ==> r == DayStart::Handled && *final(self) == *old(self),
            day > old(self).last_day_check ==> r == (DayStart::Operate {
                thaw: old(self).thaw_due(day as int),
            }) && *final(self) == (CruiseDays {
                last_day_check: day,
                last_thaw_day: if old(self).thaw_due(day as int) {
                    day
                } else {
                    old(self).last_thaw_day
                },
                ..*old(self)
            }),
            final(self).last_tcm_day == old(self).last_tcm_day,
            final(self).last_day_check >= old(self).last_day_check && final(self).last_day_check >= day,
            r matches DayStart::Operate { thaw } ==> (thaw <==> old(self).last_tcm_day >= 0
                && old(self).last_thaw_day < old(self).last_tcm_day && day - old(self).last_tcm_day >= 15) && (thaw
                ==> final(self).last_thaw_day == day),
    {
        if day <= self.last_day_check {
            return DayStart::Handled;
        }
        self.last_day_check = day;
        let thaw: bool = self.last_tcm_day >= 0 && day as i128 >= self.last_tcm_day as i128
            + BURN_RECON_DAYS as i128 && self.last_thaw_day < self.last_tcm_day;
        if thaw {
            self.last_thaw_day = day;
        }
        DayStart::Operate { thaw }
    }

    /// May a correction be planned on `day`? Not in the opening calibration,
    /// not in the window after a burn, and not close to arrival.
    pub fn correction_window(&self, day: i64, days_elapsed: Scalar, days_rem: Scalar) -> (r: bool)
        ensures
            r == (lit(LAST_TCM_DAYS).below(days_rem) && !days_elapsed.below(lit(MIN_TCM_DAY))
                && self.unfrozen(day as int)),
    {
        let in_calib_freeze: bool = days_elapsed.lt(Scalar::from_bits(MIN_TCM_DAY)) || (day as i128)
            < self.last_tcm_day as i128 + POST_TCM_FREEZE as i128;
        days_rem.gt(Scalar::from_bits(LAST_TCM_DAYS)) && !in_calib_freeze
    }

    /// A correction was flown on `day`.
    pub fn record_burn(&mut self, day: i64)
        ensures
            *final(self) == (CruiseDays { last_tcm_day: day, ..*old(self) }),
    {
        self.last_tcm_day = day;
    }
}

/// Is the predicted miss large enough to plan a correction?
pub fn miss_needs_correction(miss_km: Scalar) -> (r: bool)
    ensures
        r == lit(TCM_THRESHOLD_KM).below(miss_km),
{
    miss_km.gt(Scalar::from_bits(TCM_THRESHOLD_KM))
}

/// Is a planned correction large enough to fly?
pub fn correction_is_flown(dv_ms: Scalar) -> (r: bool)
    ensures
        r == lit(MIN_TCM_MS).below(dv_ms),
{
    dv_ms.gt(Scalar::from_bits(MIN_TCM_MS))
}

/// How a burn enters the log.
#[derive(Clone, Copy, Debug, PartialEq, Eq, Structural)]
pub enum TcmEntry {
    /// A row of its own, at this index.
    New(usize),
    /// Added to the row at this index.
    Augment(usize),
}

/// Days of the logged corrections.
#[derive(Debug)]
pub struct TcmLog {
    pub days: Vec<i64>,
}

impl TcmLog {
    pub fn new() -> (r: TcmLog)
        ensures
            r.days@.len() == 0,
    {
        TcmLog { days: Vec::new() }
    }

    /// Log a burn on `day`: into the last row where that is less than three
    /// days old, else as a new row.
    pub fn record(&mut self, day: i64) -> (r: TcmEntry)
        ensures
            ({
                let n = old(self).days@.len();
                if n > 0 && day - old(self).days@[n - 1] < MERGE_DAYS {
                    r == TcmEntry::Augment((n - 1) as usize) && final(self).days@ == old(self).days@
                } else {
                    r == TcmEntry::New(n as usize) && final(self).days@ == old(self).days@.push(day)
                }
            }),
            r matches TcmEntry::New(k) ==> final(self).days@[k as int] == day && forall|i: int|
                0 <= i < k ==> final(self).days@[i] == old(self).days@[i],
            r matches TcmEntry::Augment(k) ==> k == old(self).days@.len() - 1 && day - old(self).days@.last() < 3,
    {
        let n: usize = self.days.len();
        if n > 0 && day as i128 - (self.days[n - 1] as i128) < MERGE_DAYS as i128 {
            TcmEntry::Augment(n - 1)
        } else {
            self.days.push(day);
            TcmEntry::New(n)
        }
    }
}

/// Daily operations over a cruise: `days[i]` is the `i`-th day operated on,
/// `ss[i]` the record before it, `thaws[i]` and `burns[i]` whether the
/// reflectivity was thawed and a correction flown on it.
pub open spec fn operated(days: Seq<int>, ss: Seq<CruiseDays>, thaws: Seq<bool>, burns: Seq<bool>) -> bool {
    &&& ss.len() == days.len() + 1
    &&& thaws.len() == days.len()
    &&& burns.len() == days.len()
    &&& ss[0].last_tcm_day == -POST_TCM_FREEZE
    &&& ss[0].last_thaw_day == -1
    &&& forall|i: int| 0 <= i < days.len() ==> 0 <= #[trigger] days[i] <= i64::MAX
    &&& forall|i: int|
        0 <= i < days.len() ==> {
            &&& #[trigger] thaws[i] == ss[i].thaw_due(days[i])
            &&& burns[i] ==> ss[i].unfrozen(days[i])
            &&& ss[i + 1].last_thaw_day == if thaws[i] {
                days[i]
            } else {
                ss[i].last_thaw_day as int
            }
            &&& ss[i + 1].last_tcm_day == if burns[i] {
                days[i]
            } else {
                ss[i].last_tcm_day as int
            }
        }
}

/// The days operated on are in order.
pub open spec fn in_order(days: Seq<int>) -> bool {
    forall|i: int, j: int| 0 <= i < j < days.len() ==> days[i] < days[j]
}

proof fn lemma_last_burn(
    days: Seq<int>,
    ss: Seq<CruiseDays>,
    thaws: Seq<bool>,
    burns: Seq<bool>,
    i: int,
    j: int,
)
    requires
        operated(days, ss, thaws, burns),
        in_order(days),
        0 <= i < j <= days.len(),
        burns[i],
    ensures
        ss[j].last_tcm_day >= days[i],
    decreases j - i,
{
    assert(thaws[i] == ss[i].thaw_due(days[i]));
    if i + 1 < j {
        lemma_last_burn(days, ss, thaws, burns, i, j - 1);
        assert(thaws[j - 1] == ss[j - 1].thaw_due(days[j - 1]));
        assert(days[i] < days[j - 1]);
    }
}

/// Any two corrections of a cruise are at least 30 days apart.
pub proof fn corrections_are_spaced(
    days: Seq<int>,
    ss: Seq<CruiseDays>,
    thaws: Seq<bool>,
    burns: Seq<bool>,
    i: int,
    j: int,
)
    requires
        operated(days, ss, thaws, burns),
        in_order(days),
        0 <= i < j < days.len(),
        burns[i],
        burns[j],
    ensures
        days[j] - days[i] >= POST_TCM_FREEZE,
{
    lemma_last_burn(days, ss, thaws, burns, i, j);
    assert(thaws[j] == ss[j].thaw_due(days[j]));
}

/// A correction flown inside its window is never merged with the one before.
pub proof fn corrections_are_never_merged(s: CruiseDays, last_logged: int, day: int)
    requires
        s.unfrozen(day),
        last_logged <= s.last_tcm_day,
    ensures
        day - last_logged >= MERGE_DAYS,
{
}

/// Every day from day `first` on is operated on.
pub open spec fn daily(days: Seq<int>, first: int) -> bool {
    forall|i: int| 0 <= i < days.len() ==> #[trigger] days[i] == first + i
}

/// While a burn waits for its thaw, no more than 15 days have passed.
proof fn lemma_pending_thaw(
    days: Seq<int>,
    ss: Seq<CruiseDays>,
    thaws: Seq<bool>,
    burns: Seq<bool>,
    first: int,
    i: int,
)
    requires
        operated(days, ss, thaws, burns),
        daily(days, first),
        first >= 0,
        0 <= i <= days.len(),
    ensures
        ss[i].last_tcm_day < first + i,
        ss[i].last_thaw_day < first + i,
        ss[i].last_tcm_day >= 0 && ss[i].last_thaw_day < ss[i].last_tcm_day ==> first + i
            <= ss[i].last_tcm_day + BURN_RECON_DAYS,
    decreases i,
{
    if i > 0 {
        lemma_pending_thaw(days, ss, thaws, burns, first, i - 1);
        assert(thaws[i - 1] == ss[i - 1].thaw_due(days[i - 1]));
        assert(days[i - 1] == first + i - 1);
    }
}

proof fn lemma_quiet_after_burn(
    days: Seq<int>,
    ss: Seq<CruiseDays>,
    thaws: Seq<bool>,
    burns: Seq<bool>,
    first: int,
    i: int,
    k: int,
)
    requires
        operated(days, ss, thaws, burns),
        daily(days, first),
        first >= 0,
        0 <= i < k <= i + BURN_RECON_DAYS,
        k <= days.len(),
        burns[i],
    ensures
        ss[k].last_tcm_day == days[i],
        ss[k].last_thaw_day < days[i],
        forall|m: int| i < m < k ==> !thaws[m],
    decreases k - i,
{
    assert(thaws[i] == ss[i].thaw_due(days[i]));
    assert(days[i] == first + i);
    lemma_pending_thaw(days, ss, thaws, burns, first, i);
    if k > i + 1 {
        lemma_quiet_after_burn(days, ss, thaws, burns, first, i, k - 1);
        assert(thaws[k - 1] == ss[k - 1].thaw_due(days[k - 1]));
        assert(days[k - 1] == first + k - 1);
    }
}

/// Where every day is operated on, the reflectivity is thawed exactly 15 days
/// after each burn, and on no day in between.
pub proof fn thaw_follows_each_burn(
    days: Seq<int>,
    ss: Seq<CruiseDays>,
    thaws: Seq<bool>,
    burns: Seq<bool>,
    first: int,
    i: int,
)
    requires
        operated(days, ss, thaws, burns),
        daily(days, first),
        first >= 0,
        0 <= i,
        i + BURN_RECON_DAYS < days.len(),
        burns[i],
    ensures
        thaws[i + BURN_RECON_DAYS],
        forall|m: int| i < m < i + BURN_RECON_DAYS ==> !thaws[m],
{
    let k = i + BURN_RECON_DAYS;
    assert(days[i] == first + i);
    assert(days[k] == first + k);
    lemma_quiet_after_burn(days, ss, thaws, burns, first, i, k);
    assert(thaws[k] == ss[k].thaw_due(days[k]));
}

/// A thaw is always the answer to a burn at least 15 days back, and each burn
/// is answered at most once.
pub proof fn thaws_answer_burns(
    days: Seq<int>,
    ss: Seq<CruiseDays>,
    thaws: Seq<bool>,
    burns: Seq<bool>,
    i: int,
    j: int,
)
    requires
        operated(days, ss, thaws, burns),
        in_order(days),
        0 <= i < j < days.len(),
        thaws[i],
        thaws[j],
    ensures
        days[i] >= ss[i].last_tcm_day + BURN_RECON_DAYS,
        exists|k: int| i <= k < j && burns[k],
{
    assert(thaws[i] == ss[i].thaw_due(days[i]));
    assert(thaws[j] == ss[j].thaw_due(days[j]));
    if forall|k: int| i <= k < j ==> !burns[k] {
        lemma_no_burn_between(days, ss, thaws, burns, i, j);
    }
}

proof fn lemma_no_burn_between(
    days: Seq<int>,
    ss: Seq<CruiseDays>,
    thaws: Seq<bool>,
    burns: Seq<bool>,
    i: int,
    j: int,
)
    requires
        operated(days, ss, thaws, burns),
        in_order(days),
        0 <= i < j <= days.len(),
        thaws[i],
        forall|k: int| i <= k < j ==> !burns[k],
    ensures
        ss[j].last_tcm_day == ss[i].last_tcm_day,
        ss[j].last_thaw_day >= days[i],
    decreases j - i,
{
    assert(thaws[i] == ss[i].thaw_due(days[i]));
    assert(!burns[i]);
    if i + 1 < j {
        lemma_no_burn_between(days, ss, thaws, burns, i, j - 1);
        assert(thaws[j - 1] == ss[j - 1].thaw_due(days[j - 1]));
        assert(!burns[j - 1]);
        assert(days[i] < days[j - 1]);
    }
}

/// One iteration of departure targeting.
#[derive(Clone, Copy, Debug, PartialEq, Eq, Structural)]
pub enum ShootStep {
    /// The residual is small enough.
    Converged,
    /// Correct the velocity, by no more than the largest step where `limit`;
    /// after the last iteration the residual is reported where `report`.
    Correct { limit: bool, report: bool },
}

/// Decide iteration `iter` of departure targeting.
pub fn shoot_step(iter: usize, miss_km: Scalar, dv_ms: Scalar) -> (r: ShootStep)
    requires
        iter < SHOOT_ITERATIONS,
    ensures
        r == (if miss_km.below(lit(SHOOT_RESIDUAL_KM)) {
            ShootStep::Converged
        } else {
            ShootStep::Correct {
                limit: lit(SHOOT_MAX_STEP_MS).below(dv_ms),
                report: iter == SHOOT_ITERATIONS - 1,
            }
        }),
{
    if miss_km.lt(Scalar::from_bits(SHOOT_RESIDUAL_KM)) {
        ShootStep::Converged
    } else {
        ShootStep::Correct {
            limit: dv_ms.gt(Scalar::from_bits(SHOOT_MAX_STEP_MS)),
            report: iter == SHOOT_ITERATIONS - 1,
        }
    }
}

/// Direction that a miss is measured across.
#[derive(Clone, Copy, Debug, PartialEq, Eq, Structural)]
pub enum MissAxis {
    /// The relative velocity.
    Velocity,
    /// The miss vector itself: there is no approach direction.
    Miss,
}

/// The axis of the miss plane.
pub fn bplane_axis(relative_speed: Scalar) -> (r: MissAxis)
    ensures
        r == (if lit(MIN_RELATIVE).below(relative_speed) {
            MissAxis::Velocity
        } else {
            MissAxis::Miss
        }),
{
    if relative_speed.gt(Scalar::from_bits(MIN_RELATIVE)) {
        MissAxis::Velocity
    } else {
        MissAxis::Miss
    }
}

/// Does the vector to the target give a direction?
pub fn approach_has_direction(distance: Scalar) -> (r: bool)
    ensures
        r == lit(MIN_RELATIVE).below(distance),
{
    distance.gt(Scalar::from_bits(MIN_RELATIVE))
}

/// Does the Sun give the transverse kick its direction? Not where the approach
/// lies along the Sun line.
pub fn kick_follows_sun(sun_cross: Scalar) -> (r: bool)
    ensures
        r == lit(MIN_SUN_CROSS).below(sun_cross),
{
    sun_cross.gt(Scalar::from_bits(MIN_SUN_CROSS))
}

/// Running search for the closest approach.
#[derive(Clone, Copy, Debug, PartialEq, Eq, Structural)]
pub struct PeriapsisSearch {
    pub min_range: Scalar,
    pub steps: usize,
}

impl PeriapsisSearch {
    /// Start from the range at the beginning of the search.
    pub fn new(range: Scalar) -> (r: PeriapsisSearch)
        ensures
            r.min_range == range,
            r.steps == 0,
    {
        PeriapsisSearch { min_range: range, steps: 0 }
    }

    /// Take in the range after a step, with the previous range plus ten metres;
    /// say whether the search goes on. It ends once the range has clearly grown
    /// or the time is up.
    pub fn observe(&mut self, range: Scalar, turning: Scalar) -> (r: bool)
        requires
            old(self).steps < PERIAPSIS_STEPS,
        ensures
            final(self).steps == old(self).steps + 1,
            final(self).min_range == (if range.below(old(self).min_range) {
                range
            } else {
                old(self).min_range
            }),
            r == (!turning.below(range) && final(self).steps < PERIAPSIS_STEPS),
            !range.nan() && !old(self).min_range.nan() ==> final(self).min_range.at_most(range) && final(self).min_range.at_most(old(self).min_range),
    {
        self.steps = self.steps + 1;
        if range.lt(self.min_range) {
            self.min_range = range;
        }
        !range.gt(turning) && self.steps < PERIAPSIS_STEPS
    }
}

/// Does the trajectory after arrival have an orbit plane? Otherwise its radial
/// direction stands in for the normal.
pub fn plane_is_defined(momentum: Scalar) -> (r: bool)
    ensures
        r == lit(MIN_MOMENTUM).below(momentum),
{
    momentum.gt(Scalar::from_bits(MIN_MOMENTUM))
}

/// A burn is followed by its thaw: due from the fifteenth day after it on, for as long
/// as none has come since, and never without a burn.
pub proof fn thaw_waits_for_reconstruction(s: CruiseDays, day: int)
    ensures
        s.last_tcm_day >= 0 && s.last_thaw_day < s.last_tcm_day ==> (s.thaw_due(day) <==> day
            >= s.last_tcm_day + 15),
        s.last_tcm_day < 0 ==> !s.thaw_due(day),
        s.last_thaw_day >= s.last_tcm_day ==> !s.thaw_due(day),
{
}

/// The window for corrections opens thirty days after a burn, and stays open until the
/// next; at the start of cruise it is open at once.
pub proof fn window_opens_after_thirty_days(s: CruiseDays, day: int, later: int)
    requires
        day <= later,
    ensures
        s.unfrozen(day) <==> day - s.last_tcm_day >= 30,
        s.unfrozen(day) ==> s.unfrozen(later),
        s.last_tcm_day == -POST_TCM_FREEZE ==> s.unfrozen(0),
{
}

/// The last truth step of cruise is logged whatever the count, and the end changes
/// nothing else of what the step does.
pub proof fn last_step_is_logged(c: CruiseClock)
    ensures
        ticked(c, true).1.log,
        ticked(c, true).0.log_steps == 0,
        ticked(c, true).1.predict == ticked(c, false).1.predict,
        ticked(c, true).1.range == ticked(c, false).1.range,
        ticked(c, true).1.ddor == ticked(c, false).1.ddor,
        ticked(c, true).0.truth_steps == ticked(c, false).0.truth_steps,
        ticked(c, true).0.filter_steps == ticked(c, false).0.filter_steps,
        ticked(c, false).1.log ==> ticked(c, true) == ticked(c, false),
{
}

/// With half-hour steps the filters predict every hour, ranging comes every
/// two hours, interferometry once a day, and a log row every twelve hours.
pub proof fn cadence_in_hours(hours: int)
    ensures
        cruise_step_at(2 * hours).predict,
        !cruise_step_at(2 * hours + 1).predict && !cruise_step_at(2 * hours + 1).range,
        cruise_step_at(2 * hours).range <==> hours % 2 == 0,
        cruise_step_at(2 * hours).ddor <==> hours % 24 == 0,
        cruise_step_at(2 * hours).log <==> hours % 12 == 0,
{
}

/// The generator is linear: the number drawn from two states combined bit by bit is
/// the combination of the numbers drawn from each.
pub proof fn xorshift_is_linear(x: u64, y: u64)
    ensures
        xorshift(x ^ y) == xorshift(x) ^ xorshift(y),
        xorshift(0) == 0,
{
    let z = x ^ y;
    let (a, b, c) = (x ^ (x << 13u64), y ^ (y << 13u64), z ^ (z << 13u64));
    assert(z == x ^ y ==> z ^ (z << 13u64) == (x ^ (x << 13u64)) ^ (y ^ (y << 13u64))) by (bit_vector);
    let (d, e, f) = (a ^ (a >> 7u64), b ^ (b >> 7u64), c ^ (c >> 7u64));
    assert(c == a ^ b ==> c ^ (c >> 7u64) == (a ^ (a >> 7u64)) ^ (b ^ (b >> 7u64))) by (bit_vector);
    assert(f == d ^ e ==> f ^ (f << 17u64) == (d ^ (d << 17u64)) ^ (e ^ (e << 17u64))) by (bit_vector);
    assert(0u64 ^ (0u64 << 13u64) == 0) by (bit_vector);
    assert(0u64 ^ (0u64 >> 7u64) == 0) by (bit_vector);
    assert(0u64 ^ (0u64 << 17u64) == 0) by (bit_vector);
}

/// A correction can be planned from the first day on, thirty days or more after the
/// last one, and more than ten days before arrival; and at no other time.
pub proof fn corrections_have_a_window(s: &CruiseDays, day: i64, days_elapsed: Scalar, days_rem: Scalar, r: bool)
    requires
        call_ensures(CruiseDays::correction_window, (s, day, days_elapsed, days_rem), r),
    ensures
        r ==> lit(LAST_TCM_DAYS).below(days_rem) && !days_elapsed.below(lit(MIN_TCM_DAY)) && day - s.last_tcm_day
            >= 30,
        lit(LAST_TCM_DAYS).below(days_rem) && lit(MIN_TCM_DAY).at_most(days_elapsed) && day - s.last_tcm_day >= 30
            ==> r,
{
}

/// A miss beyond the threshold calls for a correction, and a correction beyond the
/// smallest one is flown; what does neither is left alone.
pub proof fn large_misses_are_corrected(miss_km: Scalar, dv_ms: Scalar, needed: bool, is_flown: bool)
    requires
        call_ensures(miss_needs_correction, (miss_km,), needed),
        call_ensures(correction_is_flown, (dv_ms,), is_flown),
    ensures
        lit(TCM_THRESHOLD_KM).below(miss_km) ==> needed,
        miss_km.at_most(lit(TCM_THRESHOLD_KM)) ==> !needed,
        lit(MIN_TCM_MS).below(dv_ms) ==> is_flown,
        dv_ms.at_most(lit(MIN_TCM_MS)) ==> !is_flown,
{
}

/// Targeting stops once the miss is under a kilometre. Until then it corrects, never
/// by more than its largest step, and reports at the last of its twenty iterations
/// alone.
pub proof fn targeting_corrects_until_it_hits(iter: usize, miss_km: Scalar, dv_ms: Scalar, r: ShootStep)
    requires
        iter < 20,
        call_ensures(shoot_step, (iter, miss_km, dv_ms), r),
    ensures
        r == ShootStep::Converged <==> miss_km.below(lit(SHOOT_RESIDUAL_KM)),
        r matches ShootStep::Correct { limit, report } ==> (limit <==> lit(SHOOT_MAX_STEP_MS).below(dv_ms)) && (
        report <==> iter == 19),
{
}

/// Where there is a relative speed the miss is measured across it; where there is a
/// direction, or a plane, it is used.
pub proof fn directions_are_used_where_there_are(
    speed: Scalar,
    distance: Scalar,
    sun_cross: Scalar,
    momentum: Scalar,
    axis: MissAxis,
    approach: bool,
    sun: bool,
    plane: bool,
)
    requires
        call_ensures(bplane_axis, (speed,), axis),
        call_ensures(approach_has_direction, (distance,), approach),
        call_ensures(kick_follows_sun, (sun_cross,), sun),
        call_ensures(plane_is_defined, (momentum,), plane),
    ensures
        axis == MissAxis::Velocity <==> lit(MIN_RELATIVE).below(speed),
        approach <==> lit(MIN_RELATIVE).below(distance),
        sun <==> lit(MIN_SUN_CROSS).below(sun_cross),
        plane <==> lit(MIN_MOMENTUM).below(momentum),
{
}

/// The numbers that decisions are taken by, in decimal notation.
pub proof fn numbers_are_as_documented()
    ensures
        lit(MIN_MOMENTUM).is_about(1, 1_000_000_000_000),
        lit(TCM_THRESHOLD_KM).is_about(500, 1),
        lit(MIN_TCM_MS).is_about(1, 20),
        lit(MIN_TCM_DAY).is_about(1, 1),
        lit(LAST_TCM_DAYS).is_about(10, 1),
        lit(SHOOT_RESIDUAL_KM).is_about(1, 1),
        lit(SHOOT_MAX_STEP_MS).is_about(50, 1),
        lit(MIN_RELATIVE).is_about(1, 1),
        lit(MIN_SUN_CROSS).is_about(1, 1_000_000),
        POST_TCM_FREEZE == 30 && BURN_RECON_DAYS == 15 && MERGE_DAYS == 3,
        DT_FILTER_S == 2 * DT_TRUTH_S && DT_FILTER_S == 3_600,
        60 * PERIAPSIS_STEPS == 3 * 86_400,
        SHOOT_ITERATIONS == 20,
{
    lemma_powers_of_two();
}

} // verus!
