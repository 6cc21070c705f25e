//! Progress of the proximity mission from step to step, and what holds of
//! whole phases and of the whole mission.

use crate::proximity_mission::{
    drifted_orbit_is_corrected, guidance, guidance_step, unloading, GuidanceClock, GuidanceNumbers, Phase, Progress,
    Thrust, SK_ENERGY_TOL,
};
use crate::pointing::PointingMode;
use crate::scalar::lit;
use vstd::prelude::*;

verus! {

/// Where the mission stands.
#[derive(Clone, Copy, Debug, PartialEq, Eq, Structural)]
pub struct MissionState {
    pub phase: Phase,
    /// Steps completed in this phase.
    pub phase_step: usize,
    /// Steps completed in the mission.
    pub global_step: usize,
    pub progress: Progress,
}

/// What the end of a step brings.
#[derive(Clone, Copy, Debug, PartialEq, Eq, Structural)]
pub enum StepEnd {
    Continue,
    Enter(Phase),
    Complete,
}

/// Is the phase over after `step` steps? Capture ends once its manoeuvres are
/// done, or at its time limit once it is inserted and settled; every other
/// phase ends at its time limit.
pub open spec fn elapsed(phase: Phase, step: int, p: Progress, dur_steps: int) -> bool {
    match phase {
        Phase::Capture => p.insertion_done && p.init_coast && ((p.burn2_done && p.plane_change_done) || step
            >= dur_steps),
        _ => step >= dur_steps,
    }
}

/// Is the phase over after `step` steps?
pub fn phase_elapsed(phase: Phase, step: usize, p: &Progress, dur_steps: usize) -> (r: bool)
    ensures
        r == elapsed(phase, step as int, *p, dur_steps as int),
{
    match phase {
        Phase::Capture => {
            let ready: bool = p.insertion_done && p.init_coast && p.burn2_done && p.plane_change_done;
            let timeout: bool = p.insertion_done && p.init_coast && step >= dur_steps;
            ready || timeout
        },
        _ => step >= dur_steps,
    }
}

/// Progress at the start of a phase that follows another: inserted, nothing
/// burnt yet, and the first station-keeping check a full interval away.
pub open spec fn fresh(p: Progress, global_step: usize) -> Progress {
    Progress {
        insertion_done: true,
        init_coast: p.init_coast,
        burn1_done: false,
        burn2_done: false,
        plane_change_done: false,
        last_sk_step: global_step,
    }
}

/// The state after a step whose guidance left `s`.
pub open spec fn finished(s: MissionState, dur_steps: int) -> (MissionState, StepEnd) {
    let step = (s.phase_step + 1) as usize;
    let global = (s.global_step + 1) as usize;
    if !elapsed(s.phase, step as int, s.progress, dur_steps) {
        (MissionState { phase_step: step, global_step: global, ..s }, StepEnd::Continue)
    } else {
        match s.phase.successor() {
            Some(next) => (
                MissionState {
                    phase: next,
                    phase_step: 0,
                    global_step: global,
                    progress: fresh(s.progress, global),
                },
                StepEnd::Enter(next),
            ),
            None => (MissionState { phase_step: step, global_step: global, ..s }, StepEnd::Complete),
        }
    }
}

/// The clock that guidance reads in state `s`.
pub open spec fn clock_of(s: MissionState, coast_steps: usize, sk_every: usize) -> GuidanceClock {
    GuidanceClock { phase_step: s.phase_step, global_step: s.global_step, coast_steps, sk_every }
}

impl MissionState {
    /// The start of the mission.
    pub fn new() -> (r: MissionState)
        ensures
            r.phase == Phase::Capture,
            r.phase_step == 0,
            r.global_step == 0,
            r.progress == (Progress {
                insertion_done: false,
                init_coast: false,
                burn1_done: false,
                burn2_done: false,
                plane_change_done: false,
                last_sk_step: 0,
            }),
    {
        MissionState {
            phase: Phase::Capture,
            phase_step: 0,
            global_step: 0,
            progress: Progress {
                insertion_done: false,
                init_coast: false,
                burn1_done: false,
                burn2_done: false,
                plane_change_done: false,
                last_sk_step: 0,
            },
        }
    }

    /// Guidance of the current step.
    pub fn guide(&mut self, coast_steps: usize, sk_every: usize, n: &GuidanceNumbers) -> (r: (
        Thrust,
        PointingMode,
    ))
        ensures
            ({
                let (p, thrust) = guidance_step(
                    old(self).phase,
                    old(self).progress,
                    clock_of(*old(self), coast_steps, sk_every),
                    *n,
                );
                *final(self) == (MissionState { progress: p, ..*old(self) }) && r.0 == thrust
            }),
            r.1 == PointingMode::Nadir,
    {
        let c: GuidanceClock = GuidanceClock {
            phase_step: self.phase_step,
            global_step: self.global_step,
            coast_steps,
            sk_every,
        };
        guidance(self.phase, &mut self.progress, &c, n)
    }

    /// Close the current step of a phase that lasts `dur_steps` steps.
    pub fn finish_step(&mut self, dur_steps: usize) -> (r: StepEnd)
        requires
            old(self).phase_step < usize::MAX,
            old(self).global_step < usize::MAX,
        ensures
            (*final(self), r) == finished(*old(self), dur_steps as int),
    {
        self.phase_step = self.phase_step + 1;
        self.global_step = self.global_step + 1;
        if !phase_elapsed(self.phase, self.phase_step, &self.progress, dur_steps) {
            return StepEnd::Continue;
        }
        match self.phase.next() {
            Some(next) => {
                self.phase = next;
                self.phase_step = 0;
                self.progress = Progress {
                    insertion_done: true,
                    init_coast: self.progress.init_coast,
                    burn1_done: false,
                    burn2_done: false,
                    plane_change_done: false,
                    last_sk_step: self.global_step,
                };
                StepEnd::Enter(next)
            },
            None => StepEnd::Complete,
        }
    }
}

/// Guidance of `n` consecutive steps of one phase: `ps[i]` is the progress
/// before step `i` and `ts[i]` what was commanded in it.
pub open spec fn stay(
    phase: Phase,
    start: GuidanceClock,
    ns: Seq<GuidanceNumbers>,
    ps: Seq<Progress>,
    ts: Seq<Thrust>,
) -> bool {
    &&& start.phase_step == 0
    &&& start.global_step + ns.len() <= usize::MAX
    &&& ps.len() == ns.len() + 1
    &&& ts.len() == ns.len()
    &&& forall|i: int|
        0 <= i < ns.len() ==> (ps[i + 1], #[trigger] ts[i]) == guidance_step(
            phase,
            ps[i],
            clock_after(start, i),
            ns[i],
        )
}

/// The clock `i` steps on.
pub open spec fn clock_after(start: GuidanceClock, i: int) -> GuidanceClock {
    GuidanceClock {
        phase_step: (start.phase_step + i) as usize,
        global_step: (start.global_step + i) as usize,
        ..start
    }
}

/// No manoeuvre flag is ever taken back within a phase, and the last
/// station-keeping check only moves forward.
pub proof fn progress_is_monotone(
    phase: Phase,
    start: GuidanceClock,
    ns: Seq<GuidanceNumbers>,
    ps: Seq<Progress>,
    ts: Seq<Thrust>,
    i: int,
    j: int,
)
    requires
        stay(phase, start, ns, ps, ts),
        0 <= i <= j < ps.len(),
        ps[i].last_sk_step <= start.global_step + i,
    ensures
        ps[i].insertion_done ==> ps[j].insertion_done,
        ps[i].init_coast ==> ps[j].init_coast,
        ps[i].burn1_done ==> ps[j].burn1_done,
        ps[i].burn2_done ==> ps[j].burn2_done,
        ps[i].plane_change_done ==> ps[j].plane_change_done,
        ps[i].last_sk_step <= ps[j].last_sk_step,
        ps[j].last_sk_step <= start.global_step + j,
    decreases j - i,
{
    if i < j {
        progress_is_monotone(phase, start, ns, ps, ts, i, j - 1);
        assert((ps[j], ts[j - 1]) == guidance_step(phase, ps[j - 1], clock_after(start, j - 1), ns[j - 1]));
    }
}

/// Each burn of a transfer is commanded at most once in a phase.
pub proof fn burns_fire_once(
    phase: Phase,
    start: GuidanceClock,
    ns: Seq<GuidanceNumbers>,
    ps: Seq<Progress>,
    ts: Seq<Thrust>,
    i: int,
    j: int,
)
    requires
        stay(phase, start, ns, ps, ts),
        ps[0].last_sk_step <= start.global_step,
        0 <= i < j < ts.len(),
    ensures
        !(ts[i] is Transfer && ts[j] is Transfer),
        !(ts[i] is Circularise && ts[j] is Circularise),
{
    assert((ps[i + 1], ts[i]) == guidance_step(phase, ps[i], clock_after(start, i), ns[i]));
    assert((ps[j + 1], ts[j]) == guidance_step(phase, ps[j], clock_after(start, j), ns[j]));
    progress_is_monotone(phase, start, ns, ps, ts, 0, i + 1);
    progress_is_monotone(phase, start, ns, ps, ts, i + 1, j);
}

/// Corrections of the orbital energy are at least `sk_every` steps apart, and
/// come only once the orbit has been circularised.
pub proof fn station_keeping_is_spaced(
    phase: Phase,
    start: GuidanceClock,
    ns: Seq<GuidanceNumbers>,
    ps: Seq<Progress>,
    ts: Seq<Thrust>,
    i: int,
    j: int,
)
    requires
        stay(phase, start, ns, ps, ts),
        ps[0].last_sk_step <= start.global_step,
        0 <= i < j < ts.len(),
        ts[i] is StationKeep,
        ts[j] is StationKeep,
    ensures
        j - i >= start.sk_every,
        ps[i].burn2_done,
        i >= start.sk_every - (start.global_step - ps[0].last_sk_step),
{
    assert((ps[i + 1], ts[i]) == guidance_step(phase, ps[i], clock_after(start, i), ns[i]));
    assert((ps[j + 1], ts[j]) == guidance_step(phase, ps[j], clock_after(start, j), ns[j]));
    progress_is_monotone(phase, start, ns, ps, ts, 0, i);
    progress_is_monotone(phase, start, ns, ps, ts, 0, i + 1);
    progress_is_monotone(phase, start, ns, ps, ts, i + 1, j);
}

/// In the calibration arc nothing is commanded, no wheel is unloaded, and nothing
/// changes.
pub proof fn calibration_arc_is_quiet(
    start: GuidanceClock,
    ns: Seq<GuidanceNumbers>,
    ps: Seq<Progress>,
    ts: Seq<Thrust>,
    i: int,
    needs_desat: bool,
)
    requires
        stay(Phase::RadioScience, start, ns, ps, ts),
        0 <= i < ts.len(),
    ensures
        ts[i] == Thrust::Coast,
        !unloading(Phase::RadioScience, needs_desat),
        ps[i + 1] == ps[0],
    decreases i,
{
    assert((ps[i + 1], ts[i]) == guidance_step(Phase::RadioScience, ps[i], clock_after(start, i), ns[i]));
    if i > 0 {
        calibration_arc_is_quiet(start, ns, ps, ts, i - 1, needs_desat);
    }
}

/// In the capture phase braking comes before the transfer, the transfer before
/// circularisation, and circularisation before the plane change.
pub proof fn capture_is_ordered(
    start: GuidanceClock,
    ns: Seq<GuidanceNumbers>,
    ps: Seq<Progress>,
    ts: Seq<Thrust>,
    i: int,
    j: int,
)
    requires
        stay(Phase::Capture, start, ns, ps, ts),
        ps[0].last_sk_step <= start.global_step,
        0 <= i < j < ts.len(),
    ensures
        ts[i] is Transfer ==> !(ts[j] is Brake),
        ts[i] is Circularise ==> !(ts[j] is Brake) && !(ts[j] is Transfer),
        ts[i] is PlaneChange ==> !(ts[j] is Brake) && !(ts[j] is Transfer) && !(ts[j] is Circularise),
        !(ts[j] is StationKeep),
{
    assert((ps[i + 1], ts[i]) == guidance_step(Phase::Capture, ps[i], clock_after(start, i), ns[i]));
    assert((ps[j + 1], ts[j]) == guidance_step(Phase::Capture, ps[j], clock_after(start, j), ns[j]));
    progress_is_monotone(Phase::Capture, start, ns, ps, ts, 0, i);
    progress_is_monotone(Phase::Capture, start, ns, ps, ts, i, j);
    progress_is_monotone(Phase::Capture, start, ns, ps, ts, 0, i + 1);
    progress_is_monotone(Phase::Capture, start, ns, ps, ts, i + 1, j);
}

/// The capture phase never ends before the orbit is bound and navigation has
/// settled, and from then on ends by its time limit.
pub proof fn capture_ends_by_its_limit(s: MissionState, dur_steps: int)
    requires
        s.phase == Phase::Capture,
        s.phase_step < usize::MAX,
        s.global_step < usize::MAX,
    ensures
        finished(s, dur_steps).1 != StepEnd::Continue ==> s.progress.insertion_done && s.progress.init_coast,
        s.progress.insertion_done && s.progress.init_coast && s.phase_step + 1 >= dur_steps ==> finished(
            s,
            dur_steps,
        ).1 == StepEnd::Enter(Phase::Survey),
{
}

/// Steps still to fly in a phase of `dur` steps after `done` of them; a phase
/// lasts at least one step.
pub open spec fn steps_left(dur: int, done: int) -> int {
    if dur - done >= 1 {
        dur - done
    } else {
        1
    }
}

/// Steps from the start of phase `p` to the end of the mission.
pub open spec fn steps_from(p: Phase, dur: spec_fn(Phase) -> int) -> int
    decreases 5 - p.order(),
{
    steps_left(dur(p), 0) + match p.successor() {
        Some(q) => steps_from(q, dur),
        None => 0,
    }
}

/// Steps from state `s` to the end of the mission, once capture is over.
pub open spec fn steps_to_completion(s: MissionState, dur: spec_fn(Phase) -> int) -> int {
    steps_left(dur(s.phase), s.phase_step as int) + match s.phase.successor() {
        Some(q) => steps_from(q, dur),
        None => 0,
    }
}

/// State `s` with another progress.
pub open spec fn with_progress(s: MissionState, p: Progress) -> MissionState {
    MissionState { progress: p, ..s }
}

/// `ss` are the states before the steps of a mission, `ends` what each step's
/// end brought. Guidance may leave any progress before a step is closed.
pub open spec fn flight(ss: Seq<MissionState>, ends: Seq<StepEnd>, dur: spec_fn(Phase) -> int) -> bool {
    &&& ss.len() == ends.len() + 1
    &&& forall|i: int|
        #![trigger ends[i]]
        0 <= i < ends.len() ==> {
            &&& ss[i].phase_step < usize::MAX
            &&& ss[i].global_step < usize::MAX
            &&& exists|p: Progress|
                (ss[i + 1], ends[i]) == finished(#[trigger] with_progress(ss[i], p), dur(ss[i].phase))
        }
}

/// Once capture is over the rest of the mission takes a number of steps that
/// the phase durations alone decide: whatever guidance does, no step before the
/// last completes it, and the last one does.
pub proof fn mission_length_is_fixed(
    ss: Seq<MissionState>,
    ends: Seq<StepEnd>,
    dur: spec_fn(Phase) -> int,
    i: int,
)
    requires
        flight(ss, ends, dur),
        ss[0].phase != Phase::Capture,
        0 <= i < ends.len(),
        i < steps_to_completion(ss[0], dur),
    ensures
        ends[i] == StepEnd::Complete <==> i == steps_to_completion(ss[0], dur) - 1,
        i < steps_to_completion(ss[0], dur) - 1 ==> ss[i + 1].phase != Phase::Capture && steps_to_completion(
            ss[i + 1],
            dur,
        ) == steps_to_completion(ss[0], dur) - (i + 1),
    decreases i,
{
    if i > 0 {
        mission_length_is_fixed(ss, ends, dur, i - 1);
    }
    assert(ss[i].phase != Phase::Capture);
    assert(steps_to_completion(ss[i], dur) == steps_to_completion(ss[0], dur) - i);
    let p = choose|p: Progress|
        (ss[i + 1], ends[i]) == finished(#[trigger] with_progress(ss[i], p), dur(ss[i].phase));
    assert((ss[i + 1], ends[i]) == finished(with_progress(ss[i], p), dur(ss[i].phase)));
    lemma_steps_from_positive(ss[i].phase, dur);
    match ss[i].phase.successor() {
        Some(q) => {
            lemma_steps_from_positive(q, dur);
            assert(steps_from(q, dur) == steps_left(dur(q), 0) + match q.successor() {
                Some(q2) => steps_from(q2, dur),
                None => 0,
            });
        },
        None => {},
    }
}

proof fn lemma_steps_from_positive(p: Phase, dur: spec_fn(Phase) -> int)
    ensures
        steps_from(p, dur) >= 1,
    decreases 5 - p.order(),
{
    match p.successor() {
        Some(q) => {
            lemma_steps_from_positive(q, dur);
        },
        None => {},
    }
}

/// A phase that holds an orbit does hold it: while the orbit is circular, an energy
/// error that stays beyond the tolerance for an interval is corrected within it.
pub proof fn lasting_drift_is_corrected(
    phase: Phase,
    start: GuidanceClock,
    ns: Seq<GuidanceNumbers>,
    ps: Seq<Progress>,
    ts: Seq<Thrust>,
    i: int,
)
    requires
        phase == Phase::Survey || phase == Phase::CloseOrbit || phase == Phase::ScienceHold,
        stay(phase, start, ns, ps, ts),
        ps[0].last_sk_step <= start.global_step,
        0 < i,
        i + start.sk_every < ts.len(),
        ps[i].burn2_done,
        forall|k: int|
            i <= k <= i + start.sk_every ==> lit(SK_ENERGY_TOL).below((#[trigger] ns[k]).energy_error.absolute()),
    ensures
        exists|k: int| i <= k <= i + start.sk_every && (#[trigger] ts[k]) is StationKeep,
{
    let m = i + start.sk_every;
    if forall|k: int| i <= k <= m ==> !((#[trigger] ts[k]) is StationKeep) {
        lemma_no_check(phase, start, ns, ps, ts, i, m);
        progress_is_monotone(phase, start, ns, ps, ts, 0, i);
        progress_is_monotone(phase, start, ns, ps, ts, i, m);
        assert((ps[m + 1], ts[m]) == guidance_step(phase, ps[m], clock_after(start, m), ns[m]));
        drifted_orbit_is_corrected(phase, ps[m], clock_after(start, m), ns[m]);
        assert(ts[m] is StationKeep);
    }
}

proof fn lemma_no_check(
    phase: Phase,
    start: GuidanceClock,
    ns: Seq<GuidanceNumbers>,
    ps: Seq<Progress>,
    ts: Seq<Thrust>,
    i: int,
    m: int,
)
    requires
        phase == Phase::Survey || phase == Phase::CloseOrbit || phase == Phase::ScienceHold,
        stay(phase, start, ns, ps, ts),
        0 < i <= m < ts.len(),
        ps[i].burn2_done,
        ps[0].last_sk_step <= start.global_step,
        forall|k: int| i <= k < m ==> lit(SK_ENERGY_TOL).below((#[trigger] ns[k]).energy_error.absolute()),
        forall|k: int| i <= k < m ==> !((#[trigger] ts[k]) is StationKeep),
    ensures
        ps[m].last_sk_step == ps[i].last_sk_step,
    decreases m - i,
{
    if i < m {
        lemma_no_check(phase, start, ns, ps, ts, i, m - 1);
        progress_is_monotone(phase, start, ns, ps, ts, 0, i);
        progress_is_monotone(phase, start, ns, ps, ts, i, m - 1);
        assert((ps[m], ts[m - 1]) == guidance_step(phase, ps[m - 1], clock_after(start, m - 1), ns[m - 1]));
        assert(!(ts[m - 1] is StationKeep));
        assert(lit(SK_ENERGY_TOL).below(ns[m - 1].energy_error.absolute()));
    }
}

/// Every phase but capture ends at its time limit and not a step before, whatever
/// its manoeuvres have reached.
pub proof fn phases_end_at_their_limit(s: MissionState, dur_steps: int)
    requires
        s.phase != Phase::Capture,
        s.phase_step < usize::MAX,
        s.global_step < usize::MAX,
    ensures
        finished(s, dur_steps).1 == StepEnd::Continue <==> s.phase_step + 1 < dur_steps,
        s.phase == Phase::ScienceHold && s.phase_step + 1 >= dur_steps ==> finished(s, dur_steps).1
            == StepEnd::Complete,
{
}

/// Capture ends early exactly where its orbit is bound, navigation has settled, the
/// orbit is circular and its plane is aligned; what is missing keeps it going until
/// its time limit.
pub proof fn capture_ends_once_done(s: MissionState, dur_steps: int)
    requires
        s.phase == Phase::Capture,
        s.phase_step < usize::MAX,
        s.global_step < usize::MAX,
        s.phase_step + 1 < dur_steps,
    ensures
        finished(s, dur_steps).1 == StepEnd::Enter(Phase::Survey) <==> s.progress.insertion_done
            && s.progress.init_coast && s.progress.burn2_done && s.progress.plane_change_done,
        finished(s, dur_steps).1 == StepEnd::Enter(Phase::Survey) || finished(s, dur_steps).1
            == StepEnd::Continue,
{
}

/// Closing a step counts it, in the phase and in the mission. A phase that goes on
/// keeps its progress; one that follows another starts at its first step, bound and
/// with no manoeuvre of its own done, and its first check an interval away.
pub proof fn closing_a_step_counts_it(s: MissionState, dur_steps: int)
    requires
        s.phase_step < usize::MAX,
        s.global_step < usize::MAX,
    ensures
        ({
            let (t, end) = finished(s, dur_steps);
            &&& t.global_step == s.global_step + 1
            &&& end == StepEnd::Continue || end == StepEnd::Complete ==> t.phase == s.phase && t.phase_step
                == s.phase_step + 1 && t.progress == s.progress
            &&& end matches StepEnd::Enter(next) ==> {
                &&& t.phase == next && next.order() == s.phase.order() + 1
                &&& t.phase_step == 0
                &&& t.progress.insertion_done && t.progress.init_coast == s.progress.init_coast
                &&& !t.progress.burn1_done && !t.progress.burn2_done && !t.progress.plane_change_done
                &&& t.progress.last_sk_step == t.global_step
            }
        }),
{
}

} // verus!
