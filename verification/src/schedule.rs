//! Cadence of the proximity mission: sensor steps, fix bookkeeping, transfer
//! coast windows and command-line settings.

use crate::proximity_mission::Phase;
use crate::scalar::{lemma_powers_of_two, lit, Scalar};
use crate::text::is_text;
use vstd::prelude::*;

verus! {

/// Steps between independent range fixes.
pub const LIDAR_EVERY: usize = 3;

/// Measurement epochs between log frames.
pub const LM_LOG_EVERY: usize = 8;

/// Landmarks needed for a landmark fix.
pub const MIN_LANDMARKS: usize = 2;

/// Range under which surface landmarks resolve, 5 km.
pub const LANDMARK_MAX_RANGE_M: u64 = 0x40B3_8800_0000_0000;

/// Velocity change above which a burn opens a coast window, 0.005 m/s.
pub const WINDOW_DV_MPS: u64 = 0x3F74_7AE1_47AE_147B;

/// Position uncertainty below which a burn opens a coast window, 100 m.
pub const WINDOW_SIGMA_M: u64 = 0x4059_0000_0000_0000;

/// Intervals, in steps.
#[derive(Clone, Copy, Debug)]
pub struct Cadence {
    pub meas_every: usize,
    pub quiescent_every: usize,
    pub od_every: usize,
}

impl Cadence {
    pub open spec fn wf(self) -> bool {
        self.meas_every > 0 && self.quiescent_every > 0 && self.od_every > 0
    }
}

/// What one step does besides guidance.
#[derive(Clone, Copy, Debug, PartialEq, Eq, Structural)]
pub struct StepPlan {
    /// The filter predicts with its calibration noise.
    pub calibrate: bool,
    /// An independent range fix is taken.
    pub lidar: bool,
    /// A measurement epoch: logs are written.
    pub measure: bool,
    /// Position fixes are applied at a measurement epoch.
    pub fix: bool,
    /// The ground filter steps.
    pub ground: bool,
}

/// Plan of step `step` in `phase`. In the calibration arc range fixes are held
/// back and position fixes are sparse, so that the drift between them shows.
pub fn step_plan(phase: Phase, step: usize, c: &Cadence) -> (r: StepPlan)
    requires
        c.wf(),
    ensures
        r.calibrate == (phase == Phase::RadioScience),
        r.lidar == (step as int % 3 == 0 && phase != Phase::RadioScience),
        r.measure == (step as int % c.meas_every as int == 0),
        r.fix == (phase != Phase::RadioScience || step as int % c.quiescent_every as int == 0),
        r.ground == (step > 0 && step as int % c.od_every as int == 0),
{
    let quiescent: bool = phase.is_quiescent();
    StepPlan {
        calibrate: quiescent,
        lidar: step % LIDAR_EVERY == 0 && !quiescent,
        measure: step % c.meas_every == 0,
        fix: !quiescent || step % c.quiescent_every == 0,
        ground: step > 0 && step % c.od_every == 0,
    }
}

/// May a due uplink be applied? Not in the science hold, where close-range
/// fixes are better, nor in the calibration arc.
pub fn uplink_applies(phase: Phase, due: bool) -> (r: bool)
    ensures
        r == (due && phase != Phase::ScienceHold && phase != Phase::RadioScience),
{
    due && phase != Phase::ScienceHold && !phase.is_quiescent()
}

/// Are landmarks looked for at this range?
pub fn landmarks_resolve(range: Scalar) -> (r: bool)
    ensures
        r == range.below(lit(LANDMARK_MAX_RANGE_M)),
{
    range.lt(Scalar::from_bits(LANDMARK_MAX_RANGE_M))
}

/// Where a position fix came from.
#[derive(Clone, Copy, Debug, PartialEq, Eq, Structural)]
pub enum FixSource {
    /// Fixes are held back at this epoch.
    Withheld,
    /// Every tracked landmark is applied.
    Landmarks,
    /// Bearing and size of the disk, and range where it is in reach.
    Disk,
    /// Nothing could be measured.
    Missed,
}

/// The source of the fix at an epoch.
pub open spec fn fix_source(fix: bool, n_tracked: int, disk: bool) -> FixSource {
    if !fix {
        FixSource::Withheld
    } else if n_tracked >= MIN_LANDMARKS {
        FixSource::Landmarks
    } else if disk {
        FixSource::Disk
    } else {
        FixSource::Missed
    }
}

/// What a measurement epoch brought.
#[derive(Clone, Copy, Debug, PartialEq, Eq, Structural)]
pub struct EpochOutcome {
    pub source: FixSource,
    /// Number of the landmark frame to log, if one is due.
    pub frame: Option<usize>,
    /// A radiation-pressure row is due.
    pub srp_row: bool,
}

/// Counters over the measurement epochs.
#[derive(Clone, Copy, Debug, PartialEq, Eq, Structural)]
pub struct FixTally {
    /// Measurement epochs.
    pub n_opnav: usize,
    /// Epochs at which nothing could be measured.
    pub n_missed: usize,
    /// Epochs with a landmark fix.
    pub lm_meas_count: usize,
    /// Landmark directions applied.
    pub n_lm_updates: usize,
    /// Epochs with landmarks in range.
    pub lm_inrange_count: usize,
    /// Landmark frames logged.
    pub lm_frame_id: usize,
}

/// Is the disk measured at this epoch? Only where a fix is wanted and the
/// landmarks do not give it.
pub fn wants_disk(fix: bool, n_tracked: usize) -> (r: bool)
    ensures
        r == (fix && n_tracked < MIN_LANDMARKS),
{
    fix && n_tracked < MIN_LANDMARKS
}

impl FixTally {
    /// Misses and landmark fixes are epochs; frames are one in eight of the
    /// epochs in range, the first included.
    pub open spec fn wf(self) -> bool {
        &&& self.n_missed + self.lm_meas_count <= self.n_opnav
        &&& self.lm_inrange_count <= self.n_opnav
        &&& self.lm_frame_id == (self.lm_inrange_count + 7) / 8
    }

    pub fn new() -> (r: FixTally)
        ensures
            r.wf(),
            r.n_opnav == 0,
            r.n_missed == 0,
            r.lm_meas_count == 0,
            r.n_lm_updates == 0,
            r.lm_inrange_count == 0,
            r.lm_frame_id == 0,
    {
        FixTally {
            n_opnav: 0,
            n_missed: 0,
            lm_meas_count: 0,
            n_lm_updates: 0,
            lm_inrange_count: 0,
            lm_frame_id: 0,
        }
    }

    /// Count a measurement epoch at which `n_obs` landmarks were classified,
    /// `n_tracked` of them tracked, and the disk measured or not.
    pub fn record(&mut self, fix: bool, n_obs: usize, n_tracked: usize, disk: bool) -> (r: EpochOutcome)
        requires
            old(self).wf(),
            old(self).n_opnav < usize::MAX - 7,
            old(self).n_lm_updates + n_tracked <= usize::MAX,
        ensures
            final(self).wf(),
            r.source == fix_source(fix, n_tracked as int, disk),
            final(self).n_opnav == old(self).n_opnav + 1,
            final(self).n_missed == old(self).n_missed + if r.source == FixSource::Missed {
                1int
            } else {
                0
            },
            final(self).lm_meas_count == old(self).lm_meas_count + if r.source == FixSource::Landmarks {
                1int
            } else {
                0
            },
            final(self).n_lm_updates == old(self).n_lm_updates + if r.source == FixSource::Landmarks {
                n_tracked as int
            } else {
                0
            },
            final(self).lm_inrange_count == old(self).lm_inrange_count + if n_obs > 0 {
                1int
            } else {
                0
            },
            r.frame == (if n_obs > 0 && old(self).lm_inrange_count as int % 8 == 0 {
                Some(old(self).lm_frame_id)
            } else {
                None
            }),
            r.srp_row == (final(self).n_opnav as int % 8 == 0),
            final(self).lm_frame_id == old(self).lm_frame_id + if r.frame is Some {
                1int
            } else {
                0
            },
            r.frame is Some ==> n_obs > 0,
            old(self).lm_inrange_count == 0 && n_obs > 0 ==> r.frame == Some(0usize),
    {
        self.n_opnav = self.n_opnav + 1;
        let source: FixSource = if !fix {
            FixSource::Withheld
        } else if n_tracked >= MIN_LANDMARKS {
            self.n_lm_updates = self.n_lm_updates + n_tracked;
            self.lm_meas_count = self.lm_meas_count + 1;
            FixSource::Landmarks
        } else if disk {
            FixSource::Disk
        } else {
            self.n_missed = self.n_missed + 1;
            FixSource::Missed
        };
        let mut frame: Option<usize> = None;
        if n_obs > 0 {
            if self.lm_inrange_count % LM_LOG_EVERY == 0 {
                frame = Some(self.lm_frame_id);
                self.lm_frame_id = self.lm_frame_id + 1;
            }
            self.lm_inrange_count = self.lm_inrange_count + 1;
        }
        EpochOutcome { source, frame, srp_row: self.n_opnav % LM_LOG_EVERY == 0 }
    }

    /// Epochs at which something was measured or withheld.
    pub fn obtained(&self) -> (r: usize)
        requires
            self.wf(),
        ensures
            r == self.n_opnav - self.n_missed,
    {
        self.n_opnav - self.n_missed
    }
}

/// How a burn opens the filter for the coast that follows.
#[derive(Clone, Copy, Debug, PartialEq, Eq, Structural)]
pub enum Opening {
    /// The filter is left as it is.
    Keep,
    /// Position variances are raised.
    Position,
    /// Position and velocity variances are raised.
    PositionAndVelocity,
}

/// How a burn of `dv` opens the filter: only the outbound burn of a transfer,
/// and only where the filter is confident; velocity too at the entry into the
/// science hold.
pub open spec fn opening(phase: Phase, dv: Scalar, burn2_done: bool, sigma: Scalar) -> Opening {
    if lit(WINDOW_DV_MPS).below(dv) && !burn2_done && sigma.below(lit(WINDOW_SIGMA_M)) {
        if phase == Phase::ScienceHold {
            Opening::PositionAndVelocity
        } else {
            Opening::Position
        }
    } else {
        Opening::Keep
    }
}

/// Steps left during which the covariance is kept open.
#[derive(Clone, Copy, Debug, PartialEq, Eq, Structural)]
pub struct CoastWindow {
    pub steps: usize,
}

impl CoastWindow {
    /// Take in a burn. A window is never shortened: it lasts at least
    /// `hold_steps` in the science hold, and `transfer_steps` elsewhere.
    pub fn burn(
        &mut self,
        phase: Phase,
        dv: Scalar,
        burn2_done: bool,
        sigma: Scalar,
        hold_steps: usize,
        transfer_steps: usize,
    ) -> (r: Opening)
        ensures
            r == opening(phase, dv, burn2_done, sigma),
            final(self).steps == (match r {
                Opening::Keep => old(self).steps,
                Opening::Position => if old(self).steps >= transfer_steps {
                    old(self).steps
                } else {
                    transfer_steps
                },
                Opening::PositionAndVelocity => if old(self).steps >= hold_steps {
                    old(self).steps
                } else {
                    hold_steps
                },
            }),
            final(self).steps >= old(self).steps,
            r == Opening::Keep ==> final(self).steps == old(self).steps,
            r != Opening::Keep ==> final(self).steps >= (if phase == Phase::ScienceHold {
                hold_steps
            } else {
                transfer_steps
            }),
    {
        if !(dv.gt(Scalar::from_bits(WINDOW_DV_MPS)) && !burn2_done) {
            return Opening::Keep;
        }
        if !sigma.lt(Scalar::from_bits(WINDOW_SIGMA_M)) {
            return Opening::Keep;
        }
        if phase == Phase::ScienceHold {
            if self.steps < hold_steps {
                self.steps = hold_steps;
            }
            Opening::PositionAndVelocity
        } else {
            if self.steps < transfer_steps {
                self.steps = transfer_steps;
            }
            Opening::Position
        }
    }

    /// Close a step: is the floor applied in it?
    pub fn tick(&mut self) -> (r: bool)
        ensures
            r == (old(self).steps > 0),
            final(self).steps == if r {
                old(self).steps - 1
            } else {
                0
            },
    {
        if self.steps > 0 {
            self.steps = self.steps - 1;
            true
        } else {
            false
        }
    }
}

/// A command-line setting that takes a value.
#[derive(Clone, Copy, Debug, PartialEq, Eq, Structural)]
pub enum Setting {
    /// Truth integration step.
    Dt,
    /// Measurement interval.
    MeasDt,
}

/// How the command line ends.
#[derive(Clone, Copy, Debug, PartialEq, Eq, Structural)]
pub enum ArgsEnd {
    /// All arguments were read.
    Done,
    /// Help was asked for.
    Help,
    /// A setting stands last, without its value.
    MissingValue(Setting),
}

/// The setting that an argument names.
pub open spec fn setting_of(arg: Seq<char>) -> Option<Setting> {
    if arg == "--dt"@ {
        Some(Setting::Dt)
    } else if arg == "--meas-dt"@ {
        Some(Setting::MeasDt)
    } else {
        None
    }
}

pub open spec fn asks_help(arg: Seq<char>) -> bool {
    arg == "--help"@ || arg == "-h"@
}

/// Settings from argument `from` on, each with the index of its value, and how
/// the command line ends. Unknown arguments are passed over.
pub open spec fn settings_from(args: Seq<String>, from: int) -> (Seq<(Setting, int)>, ArgsEnd)
    decreases args.len() + 1 - from,
{
    if from >= args.len() {
        (seq![], ArgsEnd::Done)
    } else {
        match setting_of(args[from]@) {
            Some(s) => if from + 1 >= args.len() {
                (seq![], ArgsEnd::MissingValue(s))
            } else {
                let rest = settings_from(args, from + 2);
                (seq![(s, from + 1)] + rest.0, rest.1)
            },
            None => if asks_help(args[from]@) {
                (seq![], ArgsEnd::Help)
            } else {
                settings_from(args, from + 1)
            },
        }
    }
}

/// The settings with their value indices as integers.
pub open spec fn setting_views(v: Seq<(Setting, usize)>) -> Seq<(Setting, int)> {
    Seq::new(v.len(), |i: int| (v[i].0, v[i].1 as int))
}

fn setting_named(arg: &String) -> (r: Option<Setting>)
    ensures
        r == setting_of(arg@),
{
    if is_text(arg.as_str(), "--dt") {
        Some(Setting::Dt)
    } else if is_text(arg.as_str(), "--meas-dt") {
        Some(Setting::MeasDt)
    } else {
        None
    }
}

/// Read the command line behind the program's name.
pub fn parse_args(args: &Vec<String>) -> (r: (Vec<(Setting, usize)>, ArgsEnd))
    ensures
        (setting_views(r.0@), r.1) == settings_from(args@, 1),
        forall|i: int| 0 <= i < r.0@.len() ==> (#[trigger] r.0@[i]).1 < args@.len(),
{
    let n: usize = args.len();
    let mut found: Vec<(Setting, usize)> = Vec::new();
    let ghost all = settings_from(args@, 1);
    let mut i: usize = 1;
    proof {
        assert(setting_views(found@) + all.0 =~= all.0);
    }
    while i < n
        invariant
            n == args@.len(),
            i >= 1,
            all == settings_from(args@, 1),
            ({
                let rest = settings_from(args@, i as int);
                setting_views(found@) + rest.0 == all.0 && rest.1 == all.1
            }),
            forall|k: int| 0 <= k < found@.len() ==> (#[trigger] found@[k]).1 < n,
        decreases n - i,
    {
        let ghost before = setting_views(found@);
        match setting_named(&args[i]) {
            Some(s) => {
                if n - i <= 1 {
                    assert(before + Seq::<(Setting, int)>::empty() =~= before);
                    return (found, ArgsEnd::MissingValue(s));
                }
                found.push((s, i + 1));
                proof {
                    let rest = settings_from(args@, i + 2);
                    assert(setting_views(found@) =~= before.push((s, i + 1)));
                    assert(before + (seq![(s, i + 1)] + rest.0) =~= setting_views(found@) + rest.0);
                }
                if n - i <= 2 {
                    assert(settings_from(args@, i + 2) == settings_from(args@, n as int));
                    i = n;
                } else {
                    i = i + 2;
                }
            },
            None => {
                if is_text(args[i].as_str(), "--help") || is_text(args[i].as_str(), "-h") {
                    assert(before + Seq::<(Setting, int)>::empty() =~= before);
                    return (found, ArgsEnd::Help);
                }
                i = i + 1;
            },
        }
    }
    assert(setting_views(found@) + Seq::<(Setting, int)>::empty() =~= setting_views(found@));
    (found, ArgsEnd::Done)
}

/// Where a fix is wanted, two landmarks or more give it, else the disk, and nothing is
/// missed that could be measured. Where none is wanted, none is taken.
pub proof fn fix_takes_the_best_source(fix: bool, n_tracked: int, disk: bool)
    ensures
        fix_source(fix, n_tracked, disk) == FixSource::Withheld <==> !fix,
        fix_source(fix, n_tracked, disk) == FixSource::Landmarks <==> fix && n_tracked >= 2,
        fix_source(fix, n_tracked, disk) == FixSource::Disk <==> fix && n_tracked < 2 && disk,
        fix_source(fix, n_tracked, disk) == FixSource::Missed <==> fix && n_tracked < 2 && !disk,
{
}

/// A burn opens the filter exactly where it is large, the transfer is not yet closed,
/// and the filter is confident; the velocity is opened in the science hold alone.
pub proof fn burns_open_a_confident_filter(phase: Phase, dv: Scalar, burn2_done: bool, sigma: Scalar)
    ensures
        opening(phase, dv, burn2_done, sigma) != Opening::Keep <==> lit(WINDOW_DV_MPS).below(dv) && !burn2_done
            && sigma.below(lit(WINDOW_SIGMA_M)),
        opening(phase, dv, burn2_done, sigma) == Opening::PositionAndVelocity ==> phase == Phase::ScienceHold,
        opening(phase, dv, burn2_done, sigma) == Opening::Position ==> phase != Phase::ScienceHold,
{
}

/// The names of the settings, and the two ways to ask for help; no name stands for
/// two things.
pub proof fn settings_have_their_names(arg: Seq<char>)
    ensures
        setting_of("--dt"@) == Some(Setting::Dt),
        setting_of("--meas-dt"@) == Some(Setting::MeasDt),
        setting_of(arg) == Some(Setting::Dt) ==> arg == "--dt"@,
        setting_of(arg) == Some(Setting::MeasDt) ==> arg == "--meas-dt"@,
        asks_help("--help"@) && asks_help("-h"@),
        asks_help(arg) ==> (arg == "--help"@ || arg == "-h"@) && setting_of(arg) is None,
{
    reveal_strlit("--dt");
    reveal_strlit("--meas-dt");
    reveal_strlit("--help");
    reveal_strlit("-h");
    assert("--dt"@.len() == 4 && "--meas-dt"@.len() == 9 && "--help"@.len() == 6 && "-h"@.len() == 2);
}

/// Every setting found takes the argument right behind its name as its value, the
/// values come in the order of the command line, and the end says what it met: a
/// request for help, or a name that stands last.
pub proof fn settings_take_the_next_argument(args: Seq<String>, from: int)
    requires
        0 <= from,
    ensures
        ({
            let (found, end) = settings_from(args, from);
            &&& forall|i: int|
                0 <= i < found.len() ==> from < (#[trigger] found[i]).1 < args.len() && setting_of(
                    args[found[i].1 - 1]@,
                ) == Some(found[i].0)
            &&& forall|i: int, j: int| 0 <= i < j < found.len() ==> (#[trigger] found[i]).1 + 1 < (
                #[trigger] found[j]).1
            &&& end matches ArgsEnd::MissingValue(s) ==> from < args.len() && setting_of(args.last()@) == Some(s)
            &&& end == ArgsEnd::Help ==> exists|k: int|
                from <= k < args.len() && asks_help((#[trigger] args[k])@)
        }),
    decreases args.len() + 1 - from,
{
    if from < args.len() {
        match setting_of(args[from]@) {
            Some(s) => {
                if from + 1 < args.len() {
                    settings_take_the_next_argument(args, from + 2);
                    let rest = settings_from(args, from + 2);
                    let all = settings_from(args, from);
                    assert forall|i: int| 0 <= i < all.0.len() implies from < (#[trigger] all.0[i]).1 < args.len()
                        && setting_of(args[all.0[i].1 - 1]@) == Some(all.0[i].0) by {
                        if i > 0 {
                            assert(all.0[i] == rest.0[i - 1]);
                        }
                    }
                    assert forall|i: int, j: int| 0 <= i < j < all.0.len() implies (#[trigger] all.0[i]).1 + 1 < (
                    #[trigger] all.0[j]).1 by {
                        assert(all.0[j] == rest.0[j - 1]);
                        if i > 0 {
                            assert(all.0[i] == rest.0[i - 1]);
                        }
                    }
                }
            },
            None => {
                if !asks_help(args[from]@) {
                    settings_take_the_next_argument(args, from + 1);
                }
            },
        }
    }
}

/// A command line of settings, each with its value, is read completely and in order,
/// whatever the values are.
pub proof fn pairs_are_read_in_order(args: Seq<String>, from: int, wanted: Seq<Setting>)
    requires
        0 <= from,
        args.len() == from + 2 * wanted.len(),
        forall|k: int| 0 <= k < wanted.len() ==> setting_of(args[from + 2 * k]@) == Some(#[trigger] wanted[k]),
    ensures
        settings_from(args, from).1 == ArgsEnd::Done,
        settings_from(args, from).0.len() == wanted.len(),
        forall|k: int|
            0 <= k < wanted.len() ==> settings_from(args, from).0[k] == (#[trigger] wanted[k], from + 2 * k + 1),
    decreases wanted.len(),
{
    if wanted.len() > 0 {
        let rest = wanted.drop_first();
        assert(setting_of(args[from + 2 * 0]@) == Some(wanted[0]));
        assert forall|k: int| 0 <= k < rest.len() implies setting_of(args[from + 2 + 2 * k]@) == Some(
            #[trigger] rest[k],
        ) by {
            assert(rest[k] == wanted[k + 1]);
            assert(from + 2 + 2 * k == from + 2 * (k + 1));
        }
        pairs_are_read_in_order(args, from + 2, rest);
        let all = settings_from(args, from);
        assert forall|k: int| 0 <= k < wanted.len() implies all.0[k] == (#[trigger] wanted[k], from + 2 * k + 1) by {
            if k > 0 {
                assert(all.0[k] == settings_from(args, from + 2).0[k - 1]);
                assert(rest[k - 1] == wanted[k]);
            }
        }
    }
}

/// An argument that is neither a setting nor a request for help changes nothing.
pub proof fn unknown_arguments_are_passed_over(args: Seq<String>, from: int)
    requires
        0 <= from < args.len(),
        setting_of(args[from]@) is None,
        !asks_help(args[from]@),
    ensures
        settings_from(args, from) == settings_from(args, from + 1),
{
}

/// The calibration arc lets the drift show: no range fix, position fixes only at the
/// sparse interval, and the filter tuned for it. Every other phase takes a range fix
/// on every third step and a position fix whenever one is measured.
pub proof fn calibration_arc_is_sparse(phase: Phase, step: usize, c: &Cadence, r: StepPlan)
    requires
        c.wf(),
        call_ensures(step_plan, (phase, step, c), r),
    ensures
        r.calibrate <==> phase == Phase::RadioScience,
        phase == Phase::RadioScience ==> !r.lidar && (r.fix <==> step as int % c.quiescent_every as int == 0),
        phase != Phase::RadioScience ==> r.fix && (r.lidar <==> step as int % 3 == 0),
        r.measure <==> step as int % c.meas_every as int == 0,
        r.ground <==> step > 0 && step as int % c.od_every as int == 0,
        step == 0 ==> r.measure && r.fix && !r.ground,
{
    if step == 0 {
        vstd::arithmetic::div_mod::lemma_small_mod(0, c.meas_every as nat);
        vstd::arithmetic::div_mod::lemma_small_mod(0, c.quiescent_every as nat);
    }
}

/// An uplink that is due is applied in every phase but the science hold and the
/// calibration arc, and one that is not due never.
pub proof fn uplinks_stay_out_of_science(phase: Phase, due: bool, r: bool)
    requires
        call_ensures(uplink_applies, (phase, due), r),
    ensures
        r ==> due && phase != Phase::ScienceHold && phase != Phase::RadioScience,
        due && (phase == Phase::Capture || phase == Phase::Survey || phase == Phase::CloseOrbit || phase
            == Phase::Flyover) ==> r,
{
}

/// The disk is measured exactly where the landmarks do not give a fix that is wanted.
pub proof fn disk_stands_in_for_landmarks(fix: bool, n_tracked: usize, r: bool, disk: bool)
    requires
        call_ensures(wants_disk, (fix, n_tracked), r),
    ensures
        r <==> fix_source(fix, n_tracked as int, disk) == FixSource::Disk || fix_source(
            fix,
            n_tracked as int,
            disk,
        ) == FixSource::Missed,
{
}

/// Landmarks that resolve at some range resolve at every closer one.
pub proof fn closer_landmarks_resolve(near: Scalar, far: Scalar, a: bool, b: bool)
    requires
        near.at_most(far),
        call_ensures(landmarks_resolve, (near,), a),
        call_ensures(landmarks_resolve, (far,), b),
    ensures
        b ==> a,
        far.below(lit(LANDMARK_MAX_RANGE_M)) ==> b,
        lit(LANDMARK_MAX_RANGE_M).at_most(near) ==> !a,
{
}

/// The numbers that decisions are taken by, in decimal notation.
pub proof fn numbers_are_as_documented()
    ensures
        lit(LANDMARK_MAX_RANGE_M).is_about(5_000, 1),
        lit(WINDOW_DV_MPS).is_about(1, 200),
        lit(WINDOW_SIGMA_M).is_about(100, 1),
{
    lemma_powers_of_two();
}

} // verus!
