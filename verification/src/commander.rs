//! Pointing-mode schedules, thinning of telemetry, and gain sweeps.

use crate::scalar::{lemma_powers_of_two, lit, Scalar};
use crate::selection::{largest_among, running_max, running_max_bounds};
use vstd::prelude::*;

verus! {

/// Three days of flight, in seconds.
pub const DEMO_DURATION_S: u64 = 259_200;

/// One communication pass every eight hours, in seconds.
pub const COMM_PASS_PERIOD_S: u64 = 28_800;

/// A pass lasts one hour, in seconds.
pub const COMM_PASS_DURATION_S: u64 = 3_600;

/// Rows that a thinned table aims for.
pub const CSV_TARGET_ROWS: usize = 4_000;

/// Ticks between two star-tracker updates.
pub const STAR_TRACKER_EVERY_N_TICKS: usize = 60;

/// Momentum-dump gain that a flight has unless another is set, 0.02 1/s.
pub const DEFAULT_GAIN: u64 = 0x3F94_7AE1_47AE_147B;

/// Null-motion gain that a flight has unless another is set, 0.05 1/s.
pub const DEFAULT_NULL_MOTION_GAIN: u64 = 0x3FA9_9999_9999_999A;

/// A NaN.
pub const NOT_A_NUMBER: u64 = 0x7FF8_0000_0000_0000;

/// Pointing modes of the schedule.
#[derive(Clone, Copy, Debug, PartialEq, Eq, Structural)]
pub enum Mode {
    /// Solar panel to the Sun.
    Cruise,
    /// Antenna to the Earth.
    Comm,
}

impl Mode {
    pub open spec fn name_of(self) -> Seq<char> {
        match self {
            Mode::Cruise => "Cruise"@,
            Mode::Comm => "Comm"@,
        }
    }

    pub fn name(self) -> (r: &'static str)
        ensures
            r@ == self.name_of(),
    {
        match self {
            Mode::Cruise => "Cruise",
            Mode::Comm => "Comm",
        }
    }
}

/// A mode over a stretch of time, in whole seconds, its end excluded.
#[derive(Clone, Copy, Debug, PartialEq, Eq, Structural)]
pub struct ModeEntry {
    pub start_s: u64,
    pub end_s: u64,
    pub mode: Mode,
}

impl ModeEntry {
    pub open spec fn covers(self, t: int) -> bool {
        self.start_s <= t < self.end_s
    }
}

/// End of pass `k`, cut at the end of the flight.
pub open spec fn pass_end(k: int, period: int, pass: int, duration: int) -> int {
    if k * period + pass < duration {
        k * period + pass
    } else {
        duration
    }
}

/// Pass `k` of a flight.
pub open spec fn pass_entry(k: int, period: int, pass: int, duration: int) -> ModeEntry {
    ModeEntry {
        start_s: (k * period) as u64,
        end_s: pass_end(k, period, pass, duration) as u64,
        mode: Mode::Comm,
    }
}

/// `entries` is the schedule of a flight: the whole of it in cruise, and after
/// that one pass for each period that begins in it.
pub open spec fn is_schedule(entries: Seq<ModeEntry>, period: int, pass: int, duration: int) -> bool {
    &&& entries.len() >= 1
    &&& entries[0] == ModeEntry { start_s: 0, end_s: duration as u64, mode: Mode::Cruise }
    &&& forall|k: int|
        0 <= k < entries.len() - 1 ==> entries[k + 1] == #[trigger] pass_entry(k, period, pass, duration)
    &&& forall|k: int| 0 <= k < entries.len() - 1 ==> #[trigger] (k * period) < duration
    &&& (entries.len() - 1) * period >= duration
}

/// The schedule of a flight with a pass at the start of every period.
pub fn mode_schedule(duration_s: u64, period_s: u64, pass_s: u64) -> (r: Vec<ModeEntry>)
    requires
        period_s > 0,
        duration_s + period_s <= u64::MAX,
        duration_s + pass_s <= u64::MAX,
    ensures
        is_schedule(r@, period_s as int, pass_s as int, duration_s as int),
{
    let mut out: Vec<ModeEntry> = Vec::new();
    out.push(ModeEntry { start_s: 0, end_s: duration_s, mode: Mode::Cruise });
    let mut t: u64 = 0;
    let ghost period = period_s as int;
    assert(0 * period == 0) by (nonlinear_arith);
    while t < duration_s
        invariant
            period_s > 0,
            period == period_s,
            duration_s + period_s <= u64::MAX,
            duration_s + pass_s <= u64::MAX,
            out@.len() >= 1,
            t == (out@.len() - 1) * period,
            t < duration_s + period_s,
            out@[0] == (ModeEntry { start_s: 0, end_s: duration_s, mode: Mode::Cruise }),
            forall|k: int|
                0 <= k < out@.len() - 1 ==> out@[k + 1] == #[trigger] pass_entry(
                    k,
                    period,
                    pass_s as int,
                    duration_s as int,
                ),
            forall|k: int| 0 <= k < out@.len() - 1 ==> #[trigger] (k * period) < duration_s,
        decreases duration_s + period_s - t,
    {
        let end: u64 = if t + pass_s < duration_s {
            t + pass_s
        } else {
            duration_s
        };
        let ghost k = out@.len() - 1;
        out.push(ModeEntry { start_s: t, end_s: end, mode: Mode::Comm });
        assert(out@[k + 1] == pass_entry(k, period, pass_s as int, duration_s as int));
        t = t + period_s;
        assert((k + 1) * period == k * period + period) by (nonlinear_arith);
    }
    out
}

/// The mode in force at `t` among the first `n` entries: that of the last one
/// that covers it.
pub open spec fn mode_at(entries: Seq<ModeEntry>, n: int, t: int) -> Option<Mode>
    decreases n,
{
    if n <= 0 {
        None
    } else if entries[n - 1].covers(t) {
        Some(entries[n - 1].mode)
    } else {
        mode_at(entries, n - 1, t)
    }
}

/// The last entry that covers a time wins, so that passes take precedence: the
/// antenna points at the Earth for the first `pass` seconds of each period, and
/// the panel at the Sun for the rest of the flight.
pub proof fn passes_take_precedence(
    entries: Seq<ModeEntry>,
    period: int,
    pass: int,
    duration: int,
    k: int,
    offset: int,
)
    requires
        0 < period,
        0 <= pass <= period,
        0 <= duration <= u64::MAX,
        is_schedule(entries, period, pass, duration),
        0 <= k,
        0 <= offset < period,
        k * period + offset < duration,
    ensures
        mode_at(entries, entries.len() as int, k * period + offset) == Some(
            if offset < pass {
                Mode::Comm
            } else {
                Mode::Cruise
            },
        ),
{
    let t = k * period + offset;
    assert(0 <= k * period) by (nonlinear_arith)
        requires
            0 <= k,
            0 < period,
    ;
    assert(k < entries.len() - 1) by {
        if k >= entries.len() - 1 {
            let m = entries.len() - 1;
            assert(m * period <= k * period) by (nonlinear_arith)
                requires
                    m <= k,
                    0 < period,
            ;
        }
    }
    lemma_later_passes(entries, period, pass, duration, k, offset, entries.len() as int);
    let e = pass_entry(k, period, pass, duration);
    assert(entries[k + 1] == e);
    if offset < pass {
        assert(e.covers(t));
    } else {
        assert(!e.covers(t));
        lemma_earlier_passes(entries, period, pass, duration, k, offset, k + 1);
    }
}

proof fn lemma_later_passes(
    entries: Seq<ModeEntry>,
    period: int,
    pass: int,
    duration: int,
    k: int,
    offset: int,
    n: int,
)
    requires
        0 < period,
        0 <= duration <= u64::MAX,
        is_schedule(entries, period, pass, duration),
        0 <= k,
        0 <= offset < period,
        k + 2 <= n <= entries.len(),
    ensures
        mode_at(entries, n, k * period + offset) == mode_at(entries, k + 2, k * period + offset),
    decreases n,
{
    if n > k + 2 {
        let j = n - 2;
        assert(entries[j + 1] == pass_entry(j, period, pass, duration));
        assert(j * period < duration);
        assert(j * period >= k * period + period) by (nonlinear_arith)
            requires
                j >= k + 1,
                0 < period,
        ;
        assert(0 <= k * period) by (nonlinear_arith)
            requires
                0 <= k,
                0 < period,
        ;
        assert(!entries[n - 1].covers(k * period + offset));
        lemma_later_passes(entries, period, pass, duration, k, offset, n - 1);
    }
}

proof fn lemma_earlier_passes(
    entries: Seq<ModeEntry>,
    period: int,
    pass: int,
    duration: int,
    k: int,
    offset: int,
    n: int,
)
    requires
        0 < period,
        0 <= pass <= period,
        pass <= offset < period,
        0 <= duration <= u64::MAX,
        is_schedule(entries, period, pass, duration),
        0 <= k,
        k * period + offset < duration,
        1 <= n <= k + 1,
        n <= entries.len(),
    ensures
        mode_at(entries, n, k * period + offset) == Some(Mode::Cruise),
    decreases n,
{
    assert(0 <= k * period) by (nonlinear_arith)
        requires
            0 <= k,
            0 < period,
    ;
    if n > 1 {
        let j = n - 2;
        assert(entries[j + 1] == pass_entry(j, period, pass, duration));
        assert(0 <= j * period && j * period + pass <= k * period + offset) by (nonlinear_arith)
            requires
                0 <= j <= k,
                0 < period,
                0 <= pass <= offset,
        ;
        assert(!entries[n - 1].covers(k * period + offset));
        lemma_earlier_passes(entries, period, pass, duration, k, offset, n - 1);
    } else {
        assert(entries[0].covers(k * period + offset));
        assert(mode_at(entries, 1, k * period + offset) == Some(Mode::Cruise));
    }
}

/// Does the star tracker update the filter at this tick?
pub fn star_tracker_updates(tick: usize) -> (r: bool)
    ensures
        r == (tick as int % STAR_TRACKER_EVERY_N_TICKS as int == 0),
{
    tick % STAR_TRACKER_EVERY_N_TICKS == 0
}

/// Spacing of the rows that a thinned table keeps.
pub open spec fn stride_of(rows: int) -> int {
    if rows / CSV_TARGET_ROWS as int > 1 {
        rows / CSV_TARGET_ROWS as int
    } else {
        1
    }
}

/// Row `i` of a table is kept: rows at the stride, and the last.
pub open spec fn is_kept(i: int, rows: int) -> bool {
    i % stride_of(rows) == 0 || i == rows - 1
}

/// The rows of a table that are written, in order.
pub fn kept_rows(rows: usize) -> (r: Vec<usize>)
    ensures
        forall|j: int| 0 <= j < r@.len() ==> 0 <= (#[trigger] r@[j]) < rows && is_kept(r@[j] as int, rows as int),
        forall|a: int, b: int| 0 <= a < b < r@.len() ==> r@[a] < r@[b],
        forall|i: int| 0 <= i < rows && #[trigger] is_kept(i, rows as int) ==> exists|j: int|
            0 <= j < r@.len() && #[trigger] r@[j] == i,
{
    let stride: usize = if rows / CSV_TARGET_ROWS > 1 {
        rows / CSV_TARGET_ROWS
    } else {
        1
    };
    let mut out: Vec<usize> = Vec::new();
    let mut i: usize = 0;
    while i < rows
        invariant
            i <= rows,
            stride == stride_of(rows as int),
            stride >= 1,
            forall|j: int|
                0 <= j < out@.len() ==> 0 <= (#[trigger] out@[j]) < i && is_kept(out@[j] as int, rows as int),
            forall|a: int, b: int| 0 <= a < b < out@.len() ==> out@[a] < out@[b],
            forall|k: int| 0 <= k < i && #[trigger] is_kept(k, rows as int) ==> exists|j: int|
                0 <= j < out@.len() && #[trigger] out@[j] == k,
        decreases rows - i,
    {
        let ghost before = out@;
        if i % stride == 0 || i == rows - 1 {
            out.push(i);
            assert(out@[out@.len() - 1] == i);
        }
        assert forall|k: int| 0 <= k < i + 1 && #[trigger] is_kept(k, rows as int) implies exists|j: int|
            0 <= j < out@.len() && #[trigger] out@[j] == k by {
            if k < i {
                let j = choose|j: int| 0 <= j < before.len() && #[trigger] before[j] == k;
                assert(out@[j] == k);
            }
        }
        i = i + 1;
    }
    out
}

/// A thinned table keeps the first and the last row, and among any `stride`
/// consecutive rows at least one.
pub proof fn thinning_keeps_the_ends(rows: int, from: int)
    requires
        0 < rows,
        0 <= from,
    ensures
        is_kept(0, rows),
        is_kept(rows - 1, rows),
        exists|i: int| from <= i < from + stride_of(rows) && #[trigger] is_kept(i, rows),
{
    let s = stride_of(rows);
    assert(0int % s == 0) by (nonlinear_arith)
        requires
            s >= 1,
    ;
    let i = if from % s == 0 {
        from
    } else {
        from + s - from % s
    };
    assert(0 <= from % s < s && i % s == 0) by (nonlinear_arith)
        requires
            s >= 1,
            0 <= from,
            i == (if from % s == 0 {
                from
            } else {
                from + s - from % s
            }),
    {
        vstd::arithmetic::div_mod::lemma_fundamental_div_mod(from, s);
        let q = from / s;
        if from % s != 0 {
            assert(i == (q + 1) * s);
            vstd::arithmetic::div_mod::lemma_mod_multiples_basic(q + 1, s);
        }
    }
    assert(is_kept(i, rows));
}

/// The times of the transitions that settled, in order.
pub open spec fn settled_among(times: Seq<Option<Scalar>>) -> Seq<Scalar>
    decreases times.len(),
{
    if times.len() == 0 {
        seq![]
    } else {
        let before = settled_among(times.drop_last());
        match times.last() {
            Some(t) => before.push(t),
            None => before,
        }
    }
}

/// The settling times of the transitions that settled, in order.
pub fn settled_times(times: &Vec<Option<Scalar>>) -> (r: Vec<Scalar>)
    ensures
        r@ == settled_among(times@),
        r@.len() <= times@.len(),
{
    let mut out: Vec<Scalar> = Vec::new();
    let mut i: usize = 0;
    while i < times.len()
        invariant
            i <= times@.len(),
            out@ == settled_among(times@.take(i as int)),
            out@.len() <= i,
        decreases times@.len() - i,
    {
        assert(times@.take(i as int + 1).drop_last() =~= times@.take(i as int));
        if let Some(t) = times[i] {
            out.push(t);
        }
        i = i + 1;
    }
    assert(times@.take(times@.len() as int) =~= times@);
    out
}

/// The gain that a sweep varies.
#[derive(Clone, Copy, Debug, PartialEq, Eq, Structural)]
pub enum SweepAxis {
    Gain,
    NullMotionGain,
}

impl SweepAxis {
    pub open spec fn label_of(self) -> Seq<char> {
        match self {
            SweepAxis::Gain => "gain"@,
            SweepAxis::NullMotionGain => "null_motion_gain"@,
        }
    }

    /// Name of the axis in the table.
    pub fn label(self) -> (r: &'static str)
        ensures
            r@ == self.label_of(),
    {
        match self {
            SweepAxis::Gain => "gain",
            SweepAxis::NullMotionGain => "null_motion_gain",
        }
    }
}

/// One flight of a sweep: the axis that it belongs to and its two gains.
#[derive(Clone, Copy, Debug, PartialEq, Eq, Structural)]
pub struct SweepPoint {
    pub axis: SweepAxis,
    pub gain: Scalar,
    pub null_motion_gain: Scalar,
}

/// The momentum-dump gains of the first sweep, from 0.005 to 0.16 by doubling.
pub open spec fn swept_gains() -> Seq<u64> {
    seq![
        0x3F74_7AE1_47AE_147Bu64,
        0x3F84_7AE1_47AE_147B,
        0x3F94_7AE1_47AE_147B,
        0x3FA4_7AE1_47AE_147B,
        0x3FB4_7AE1_47AE_147B,
        0x3FC4_7AE1_47AE_147B,
    ]
}

/// The null-motion gains of the second sweep, from 0 to 0.8, closest between 0.2
/// and 0.25.
pub open spec fn swept_null_gains() -> Seq<u64> {
    seq![
        0x0000_0000_0000_0000u64,
        0x3FA9_9999_9999_999A,
        0x3FB9_9999_9999_999A,
        0x3FC9_9999_9999_999A,
        0x3FCA_E147_AE14_7AE1,
        0x3FCC_28F5_C28F_5C29,
        0x3FCD_70A3_D70A_3D71,
        0x3FCE_B851_EB85_1EB8,
        0x3FD0_0000_0000_0000,
        0x3FD3_3333_3333_3333,
        0x3FD9_9999_9999_999A,
        0x3FE3_3333_3333_3333,
        0x3FE9_9999_9999_999A,
    ]
}

/// Point `i` of the plan: each gain is swept by itself, with the other at its
/// default, the momentum-dump gain first.
pub open spec fn point_of_plan(i: int) -> SweepPoint {
    if i < swept_gains().len() {
        SweepPoint {
            axis: SweepAxis::Gain,
            gain: lit(swept_gains()[i]),
            null_motion_gain: lit(DEFAULT_NULL_MOTION_GAIN),
        }
    } else {
        SweepPoint {
            axis: SweepAxis::NullMotionGain,
            gain: lit(DEFAULT_GAIN),
            null_motion_gain: lit(swept_null_gains()[i - swept_gains().len()]),
        }
    }
}

/// The flights of the gain sweep, in order.
pub fn sweep_plan() -> (r: Vec<SweepPoint>)
    ensures
        r@ == Seq::new(swept_gains().len() + swept_null_gains().len(), |i: int| point_of_plan(i)),
{
    let gains: [u64; 6] = [
        0x3F74_7AE1_47AE_147B,
        0x3F84_7AE1_47AE_147B,
        0x3F94_7AE1_47AE_147B,
        0x3FA4_7AE1_47AE_147B,
        0x3FB4_7AE1_47AE_147B,
        0x3FC4_7AE1_47AE_147B,
    ];
    let null_gains: [u64; 13] = [
        0x0000_0000_0000_0000,
        0x3FA9_9999_9999_999A,
        0x3FB9_9999_9999_999A,
        0x3FC9_9999_9999_999A,
        0x3FCA_E147_AE14_7AE1,
        0x3FCC_28F5_C28F_5C29,
        0x3FCD_70A3_D70A_3D71,
        0x3FCE_B851_EB85_1EB8,
        0x3FD0_0000_0000_0000,
        0x3FD3_3333_3333_3333,
        0x3FD9_9999_9999_999A,
        0x3FE3_3333_3333_3333,
        0x3FE9_9999_9999_999A,
    ];
    assert(gains@ =~= swept_gains());
    assert(null_gains@ =~= swept_null_gains());
    let mut plan: Vec<SweepPoint> = Vec::new();
    let mut i: usize = 0;
    while i < 6
        invariant
            i <= 6,
            gains@ == swept_gains(),
            plan@ == Seq::new(i as nat, |k: int| point_of_plan(k)),
        decreases 6 - i,
    {
        plan.push(
            SweepPoint {
                axis: SweepAxis::Gain,
                gain: Scalar::from_bits(gains[i]),
                null_motion_gain: Scalar::from_bits(DEFAULT_NULL_MOTION_GAIN),
            },
        );
        i = i + 1;
        assert(plan@ =~= Seq::new(i as nat, |k: int| point_of_plan(k)));
    }
    let mut j: usize = 0;
    while j < 13
        invariant
            j <= 13,
            null_gains@ == swept_null_gains(),
            plan@ == Seq::new((6 + j) as nat, |k: int| point_of_plan(k)),
        decreases 13 - j,
    {
        plan.push(
            SweepPoint {
                axis: SweepAxis::NullMotionGain,
                gain: Scalar::from_bits(DEFAULT_GAIN),
                null_motion_gain: Scalar::from_bits(null_gains[j]),
            },
        );
        j = j + 1;
        assert(plan@ =~= Seq::new((6 + j) as nat, |k: int| point_of_plan(k)));
    }
    plan
}

/// Only one gain varies at a time: a flight of either sweep has the other gain at
/// its default.
pub proof fn sweep_varies_one_gain(i: int)
    requires
        0 <= i < swept_gains().len() + swept_null_gains().len(),
    ensures
        point_of_plan(i).axis == SweepAxis::Gain ==> point_of_plan(i).null_motion_gain == lit(
            DEFAULT_NULL_MOTION_GAIN,
        ),
        point_of_plan(i).axis == SweepAxis::NullMotionGain ==> point_of_plan(i).gain == lit(DEFAULT_GAIN),
{
}

/// What one row of a run contributes to its summary.
#[derive(Clone, Copy, Debug)]
pub struct RowNumbers {
    pub wheel_momentum_nms: Scalar,
    pub wheel_sat_frac: Scalar,
    pub rcs_propellant_kg_cum: Scalar,
    pub pointing_error_deg: Scalar,
}

/// Summary of a run, with what it was flown with.
#[derive(Clone, Copy, Debug)]
pub struct SweepResult {
    pub sweep_axis: SweepAxis,
    pub gain: Scalar,
    pub null_motion_gain: Scalar,
    pub n_transitions: usize,
    pub n_settled: usize,
    pub mean_settling_time_s: Option<Scalar>,
    pub max_wheel_momentum_nms: Scalar,
    pub max_wheel_sat_frac: Scalar,
    pub rcs_propellant_kg_used: Scalar,
    pub final_pointing_error_deg: Scalar,
}

pub open spec fn momenta(rows: Seq<RowNumbers>) -> Seq<Scalar> {
    Seq::new(rows.len(), |i: int| rows[i].wheel_momentum_nms)
}

pub open spec fn saturations(rows: Seq<RowNumbers>) -> Seq<Scalar> {
    Seq::new(rows.len(), |i: int| rows[i].wheel_sat_frac)
}

/// Summarise a run at a point of the sweep by its mode transitions and its rows,
/// given the mean of the settling times. A run without rows used no propellant, and its pointing
/// error is not a number.
pub fn run_one(
    sweep_axis: SweepAxis,
    gain: Scalar,
    null_motion_gain: Scalar,
    times: &Vec<Option<Scalar>>,
    mean_s: Scalar,
    rows: &Vec<RowNumbers>,
) -> (r: SweepResult)
    ensures
        r.sweep_axis == sweep_axis,
        r.gain == gain,
        r.null_motion_gain == null_motion_gain,
        r.n_transitions == times@.len(),
        r.n_settled == settled_among(times@).len(),
        r.n_settled <= r.n_transitions,
        r.mean_settling_time_s == (if settled_among(times@).len() == 0 {
            None
        } else {
            Some(mean_s)
        }),
        r.max_wheel_momentum_nms == largest_among(momenta(rows@), rows@.len() as int),
        r.max_wheel_sat_frac == largest_among(saturations(rows@), rows@.len() as int),
        rows@.len() == 0 ==> r.rcs_propellant_kg_used == lit(0) && r.final_pointing_error_deg == lit(
            NOT_A_NUMBER,
        ),
        rows@.len() > 0 ==> r.rcs_propellant_kg_used == rows@.last().rcs_propellant_kg_cum
            && r.final_pointing_error_deg == rows@.last().pointing_error_deg,
{
    let settled: Vec<Scalar> = settled_times(times);
    let mut momentum: Vec<Scalar> = Vec::new();
    let mut saturation: Vec<Scalar> = Vec::new();
    let mut i: usize = 0;
    while i < rows.len()
        invariant
            i <= rows@.len(),
            momentum@ == momenta(rows@).take(i as int),
            saturation@ == saturations(rows@).take(i as int),
        decreases rows@.len() - i,
    {
        momentum.push(rows[i].wheel_momentum_nms);
        saturation.push(rows[i].wheel_sat_frac);
        i = i + 1;
        assert(momentum@ =~= momenta(rows@).take(i as int));
        assert(saturation@ =~= saturations(rows@).take(i as int));
    }
    assert(momentum@ =~= momenta(rows@));
    assert(saturation@ =~= saturations(rows@));
    let n: usize = rows.len();
    let (propellant, error): (Scalar, Scalar) = if n == 0 {
        (Scalar::from_bits(0), Scalar::from_bits(NOT_A_NUMBER))
    } else {
        (rows[n - 1].rcs_propellant_kg_cum, rows[n - 1].pointing_error_deg)
    };
    SweepResult {
        sweep_axis,
        gain,
        null_motion_gain,
        n_transitions: times.len(),
        n_settled: settled.len(),
        mean_settling_time_s: if settled.len() == 0 {
            None
        } else {
            Some(mean_s)
        },
        max_wheel_momentum_nms: running_max(&momentum),
        max_wheel_sat_frac: running_max(&saturation),
        rcs_propellant_kg_used: propellant,
        final_pointing_error_deg: error,
    }
}

/// A table is thinned to about four thousand rows: one of fewer than eight thousand
/// keeps every row, and a longer one at least as many as it aims for.
pub proof fn thinning_aims_at_its_target(rows: int, i: int)
    requires
        0 <= rows,
    ensures
        stride_of(rows) >= 1,
        rows < 8_000 ==> stride_of(rows) == 1 && is_kept(i, rows),
        rows >= 8_000 ==> stride_of(rows) * 4_000 <= rows < (stride_of(rows) + 1) * 4_000,
        is_kept(i, rows) && i != rows - 1 ==> i % stride_of(rows) == 0,
{
    assert(i % 1 == 0);
}

/// The settled times are exactly the times given, in their order, and as many as
/// there are transitions that settled.
pub proof fn settled_times_are_those_given(times: Seq<Option<Scalar>>)
    ensures
        settled_among(times).len() <= times.len(),
        (forall|i: int| 0 <= i < times.len() ==> (#[trigger] times[i]) is Some) ==> settled_among(times).len()
            == times.len() && forall|i: int|
            0 <= i < times.len() ==> (#[trigger] times[i]) == Some(settled_among(times)[i]),
        (forall|i: int| 0 <= i < times.len() ==> (#[trigger] times[i]) is None) <==> settled_among(times).len()
            == 0,
        forall|t: Scalar| settled_among(times).contains(t) <==> times.contains(Some(t)),
    decreases times.len(),
{
    if times.len() > 0 {
        let rest = times.drop_last();
        let n = times.len() - 1;
        settled_times_are_those_given(rest);
        let before = settled_among(rest);
        let all = settled_among(times);
        assert(times.last() == times[n]);
        assert forall|i: int| 0 <= i < n implies rest[i] == #[trigger] times[i] by {}
        if forall|i: int| 0 <= i < times.len() ==> (#[trigger] times[i]) is Some {
            assert forall|i: int| 0 <= i < rest.len() implies (#[trigger] rest[i]) is Some by {
                assert(times[i] is Some);
            }
            assert(times[n] is Some);
            assert forall|i: int| 0 <= i < times.len() implies (#[trigger] times[i]) == Some(all[i]) by {
                if i < n {
                    assert(rest[i] == Some(before[i]));
                }
            }
        }
        if all.len() == 0 {
            assert(before.len() == 0);
            assert forall|i: int| 0 <= i < times.len() implies (#[trigger] times[i]) is None by {
                if i < n {
                    assert(rest[i] is None);
                }
            }
        } else if forall|i: int| 0 <= i < times.len() ==> (#[trigger] times[i]) is None {
            assert forall|i: int| 0 <= i < rest.len() implies (#[trigger] rest[i]) is None by {
                assert(times[i] is None);
            }
            assert(times[n] is None);
        }
        assert forall|t: Scalar| all.contains(t) <==> times.contains(Some(t)) by {
            if all.contains(t) {
                let k = all.index_of(t);
                if k < before.len() {
                    assert(before[k] == t);
                    assert(before.contains(t));
                    assert(rest.contains(Some(t)));
                    let j = rest.index_of(Some(t));
                    assert(times[j] == Some(t));
                } else {
                    assert(times[n] == Some(t));
                }
            }
            if times.contains(Some(t)) {
                let j = times.index_of(Some(t));
                if j < n {
                    assert(rest[j] == Some(t));
                    assert(before.contains(t));
                    let k = before.index_of(t);
                    assert(all[k] == t);
                } else {
                    assert(all[before.len() as int] == t);
                }
            }
        }
    } else {
        assert(settled_among(times) =~= seq![]);
    }
}

/// The momentum-dump gains of the sweep double from one to the next, and its
/// null-motion gains grow; both sweeps pass through the default.
pub proof fn sweeps_grow_through_the_default(i: int)
    ensures
        0 < i < swept_gains().len() ==> swept_gains()[i] == swept_gains()[i - 1] + 0x0010_0000_0000_0000,
        0 < i < swept_null_gains().len() ==> lit(swept_null_gains()[i - 1]).below(lit(swept_null_gains()[i])),
        swept_gains()[2] == DEFAULT_GAIN,
        swept_null_gains()[0] == 0,
        swept_null_gains()[1] == DEFAULT_NULL_MOTION_GAIN,
        swept_gains().len() == 6,
        swept_null_gains().len() == 13,
{
}

/// The plan goes through the first sweep and then through the second, gain by gain.
pub proof fn plan_follows_the_sweeps(i: int)
    ensures
        0 <= i < 6 ==> point_of_plan(i).axis == SweepAxis::Gain && point_of_plan(i).gain == lit(swept_gains()[i]),
        6 <= i < 19 ==> point_of_plan(i).axis == SweepAxis::NullMotionGain && point_of_plan(i).null_motion_gain
            == lit(swept_null_gains()[i - 6]),
{
}

/// The summary of a run is about that run: its largest wheel loads bound those of every
/// row, its propellant and pointing error are those of the last row, and the mean
/// settling time is there exactly where a transition settled.
pub proof fn summary_is_about_the_run(
    axis: SweepAxis,
    gain: Scalar,
    null_gain: Scalar,
    times: &Vec<Option<Scalar>>,
    mean_s: Scalar,
    rows: &Vec<RowNumbers>,
    r: SweepResult,
)
    requires
        call_ensures(run_one, (axis, gain, null_gain, times, mean_s, rows), r),
    ensures
        r.sweep_axis == axis && r.gain == gain && r.null_motion_gain == null_gain,
        r.n_transitions == times@.len(),
        r.mean_settling_time_s is Some <==> exists|i: int| 0 <= i < times@.len() && (#[trigger] times@[i]) is Some,
        r.mean_settling_time_s matches Some(m) ==> m == mean_s,
        forall|i: int|
            0 <= i < rows@.len() && !(#[trigger] rows@[i]).wheel_momentum_nms.nan()
                ==> rows@[i].wheel_momentum_nms.at_most(r.max_wheel_momentum_nms),
        forall|i: int|
            0 <= i < rows@.len() && !(#[trigger] rows@[i]).wheel_sat_frac.nan() ==> rows@[i].wheel_sat_frac.at_most(
                r.max_wheel_sat_frac,
            ),
        rows@.len() > 0 ==> r.rcs_propellant_kg_used == rows@[rows@.len() - 1].rcs_propellant_kg_cum
            && r.final_pointing_error_deg == rows@[rows@.len() - 1].pointing_error_deg,
        rows@.len() == 0 ==> r.rcs_propellant_kg_used == lit(0) && r.final_pointing_error_deg.nan(),
{
    settled_times_are_those_given(times@);
    let n = rows@.len() as int;
    running_max_bounds(momenta(rows@), n);
    running_max_bounds(saturations(rows@), n);
    assert forall|i: int|
        0 <= i < rows@.len() && !(#[trigger] rows@[i]).wheel_momentum_nms.nan() implies rows@[i].wheel_momentum_nms.at_most(
        r.max_wheel_momentum_nms,
    ) by {
        assert(momenta(rows@)[i] == rows@[i].wheel_momentum_nms);
    }
    assert forall|i: int|
        0 <= i < rows@.len() && !(#[trigger] rows@[i]).wheel_sat_frac.nan() implies rows@[i].wheel_sat_frac.at_most(
        r.max_wheel_sat_frac,
    ) by {
        assert(saturations(rows@)[i] == rows@[i].wheel_sat_frac);
    }
}

/// The star tracker updates at the first tick and on every sixtieth after it.
pub proof fn star_tracker_updates_every_minute(tick: usize, r: bool)
    requires
        call_ensures(star_tracker_updates, (tick,), r),
    ensures
        r <==> tick as int % 60 == 0,
{
}

/// The flight of three days has nine passes of an hour, one every eight hours.
pub proof fn passes_fill_the_flight()
    ensures
        DEMO_DURATION_S == 9 * COMM_PASS_PERIOD_S,
        COMM_PASS_PERIOD_S == 8 * COMM_PASS_DURATION_S,
        COMM_PASS_DURATION_S == 3_600,
{
}

/// The numbers that decisions are taken by, in decimal notation.
pub proof fn numbers_are_as_documented()
    ensures
        lit(DEFAULT_GAIN).is_about(1, 50),
        lit(DEFAULT_NULL_MOTION_GAIN).is_about(1, 20),
{
    lemma_powers_of_two();
}

} // verus!
