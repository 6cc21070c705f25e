//! Passage through a body's sphere of influence, seen in samples of a
//! trajectory.

use crate::scalar::{lit, Scalar};
use vstd::prelude::*;

verus! {

/// Positive infinity.
pub const INFINITE: u64 = 0x7FF0_0000_0000_0000;

/// One sample of a trajectory: its time, and its distance from the body.
#[derive(Clone, Copy, Debug)]
pub struct Sample {
    pub t_s: Scalar,
    pub dist_m: Scalar,
}

/// What the samples so far say of the passage.
#[derive(Clone, Copy, Debug)]
pub struct Passage {
    /// Time of the latest sample inside that follows one outside.
    pub entered: Option<Scalar>,
    /// Time of the latest sample outside that follows one inside.
    pub exited: Option<Scalar>,
    pub inside: bool,
    pub closest_m: Scalar,
}

/// The passage once a further sample is seen.
pub open spec fn observed(p: Passage, radius_m: Scalar, s: Sample) -> Passage {
    let inside = s.dist_m.below(radius_m);
    Passage {
        entered: if inside && !p.inside {
            Some(s.t_s)
        } else {
            p.entered
        },
        exited: if !inside && p.inside {
            Some(s.t_s)
        } else {
            p.exited
        },
        inside,
        closest_m: p.closest_m.smaller(s.dist_m),
    }
}

/// The passage before any sample.
pub open spec fn unseen() -> Passage {
    Passage { entered: None, exited: None, inside: false, closest_m: lit(INFINITE) }
}

/// The passage that the samples describe.
pub open spec fn passage_of(radius_m: Scalar, samples: Seq<Sample>) -> Passage
    decreases samples.len(),
{
    if samples.len() == 0 {
        unseen()
    } else {
        observed(passage_of(radius_m, samples.drop_last()), radius_m, samples.last())
    }
}

/// How a passage is reported.
#[derive(Clone, Copy, Debug, PartialEq, Eq, Structural)]
pub enum PassageReport {
    /// Entry and exit were both seen.
    Through,
    /// The trajectory ends inside.
    StillInside,
    /// The body's sphere of influence was never entered.
    Missed,
}

impl Passage {
    pub fn new() -> (r: Passage)
        ensures
            r == unseen(),
    {
        Passage { entered: None, exited: None, inside: false, closest_m: Scalar::from_bits(INFINITE) }
    }

    /// See a further sample. Is it inside?
    pub fn observe(&mut self, radius_m: Scalar, s: Sample) -> (r: bool)
        ensures
            *final(self) == observed(*old(self), radius_m, s),
            r == s.dist_m.below(radius_m),
    {
        let inside: bool = s.dist_m.lt(radius_m);
        if inside && !self.inside {
            self.entered = Some(s.t_s);
        }
        if !inside && self.inside {
            self.exited = Some(s.t_s);
        }
        self.inside = inside;
        self.closest_m = self.closest_m.min(s.dist_m);
        inside
    }

    pub open spec fn report_of(self) -> PassageReport {
        match (self.entered, self.exited) {
            (Some(_), Some(_)) => PassageReport::Through,
            (Some(_), None) => PassageReport::StillInside,
            _ => PassageReport::Missed,
        }
    }

    /// How the passage is reported.
    pub fn report(&self) -> (r: PassageReport)
        ensures
            r == self.report_of(),
    {
        match (self.entered, self.exited) {
            (Some(_), Some(_)) => PassageReport::Through,
            (Some(_), None) => PassageReport::StillInside,
            _ => PassageReport::Missed,
        }
    }
}

/// The report is true of the samples: a miss is reported exactly where none is
/// inside, no exit is seen without an entry, and where none is seen after an
/// entry the last sample is inside.
pub proof fn report_is_true(radius_m: Scalar, samples: Seq<Sample>)
    ensures
        ({
            let p = passage_of(radius_m, samples);
            &&& p.report_of() == PassageReport::Missed <==> forall|i: int|
                0 <= i < samples.len() ==> !(#[trigger] samples[i]).dist_m.below(radius_m)
            &&& p.exited is Some ==> p.entered is Some
            &&& p.report_of() == PassageReport::StillInside ==> p.inside
            &&& samples.len() > 0 ==> p.inside == samples.last().dist_m.below(radius_m)
            &&& samples.len() == 0 ==> !p.inside
        }),
    decreases samples.len(),
{
    if samples.len() > 0 {
        let rest = samples.drop_last();
        let last = samples[samples.len() - 1];
        report_is_true(radius_m, rest);
        assert(samples.last() == last);
        assert forall|i: int| 0 <= i < rest.len() implies rest[i] == #[trigger] samples[i] by {}
        if rest.len() > 0 {
            assert(rest.last() == samples[rest.len() - 1]);
        }
        let p = passage_of(radius_m, samples);
        let q = passage_of(radius_m, rest);
        if q.report_of() != PassageReport::Missed {
            let j = choose|i: int| 0 <= i < rest.len() && (#[trigger] rest[i]).dist_m.below(radius_m);
            assert(samples[j].dist_m.below(radius_m));
        } else if last.dist_m.below(radius_m) {
            assert(q.entered is None);
            assert(!q.inside) by {
                if q.inside {
                    assert(rest[rest.len() - 1].dist_m.below(radius_m));
                }
            }
            assert(p.entered is Some);
        } else {
            assert(!q.inside) by {
                if q.inside {
                    assert(rest[rest.len() - 1].dist_m.below(radius_m));
                }
            }
        }
    }
}

/// Entry and exit times are those of samples on their side of the boundary.
pub proof fn crossings_are_samples(radius_m: Scalar, samples: Seq<Sample>)
    ensures
        passage_of(radius_m, samples).entered matches Some(t) ==> exists|i: int|
            0 <= i < samples.len() && (#[trigger] samples[i]).t_s == t && samples[i].dist_m.below(radius_m),
        passage_of(radius_m, samples).exited matches Some(t) ==> exists|i: int|
            0 < i < samples.len() && (#[trigger] samples[i]).t_s == t && !samples[i].dist_m.below(radius_m),
    decreases samples.len(),
{
    if samples.len() > 0 {
        let rest = samples.drop_last();
        crossings_are_samples(radius_m, rest);
        report_is_true(radius_m, rest);
        let p = passage_of(radius_m, samples);
        let q = passage_of(radius_m, rest);
        let last = samples[samples.len() - 1];
        assert(samples.last() == last);
        if p.entered is Some && q.entered == p.entered {
            let j = choose|i: int|
                0 <= i < rest.len() && (#[trigger] rest[i]).t_s == q.entered->Some_0 && rest[i].dist_m.below(
                    radius_m,
                );
            assert(samples[j] == rest[j]);
        }
        if p.exited is Some && q.exited == p.exited {
            let j = choose|i: int|
                0 < i < rest.len() && (#[trigger] rest[i]).t_s == q.exited->Some_0 && !rest[i].dist_m.below(
                    radius_m,
                );
            assert(samples[j] == rest[j]);
        }
    }
}

/// No sample that is a number is closer than the closest approach.
pub proof fn closest_is_least(radius_m: Scalar, samples: Seq<Sample>)
    requires
        forall|i: int| 0 <= i < samples.len() ==> !(#[trigger] samples[i]).dist_m.nan(),
    ensures
        !passage_of(radius_m, samples).closest_m.nan(),
        forall|i: int|
            0 <= i < samples.len() ==> passage_of(radius_m, samples).closest_m.at_most(
                (#[trigger] samples[i]).dist_m,
            ),
    decreases samples.len(),
{
    if samples.len() > 0 {
        let rest = samples.drop_last();
        assert forall|i: int| 0 <= i < rest.len() implies rest[i] == #[trigger] samples[i] by {}
        assert forall|i: int| 0 <= i < rest.len() implies !(#[trigger] rest[i]).dist_m.nan() by {
            assert(!samples[i].dist_m.nan());
        }
        closest_is_least(radius_m, rest);
        let last = samples[samples.len() - 1];
        assert(samples.last() == last);
        assert(!last.dist_m.nan());
        let p = passage_of(radius_m, samples).closest_m;
        assert forall|i: int| 0 <= i < samples.len() implies p.at_most((#[trigger] samples[i]).dist_m) by {
            if i < rest.len() {
                assert(rest[i] == samples[i]);
                assert(passage_of(radius_m, rest).closest_m.at_most(rest[i].dist_m));
            }
        }
    } else {
        assert(!lit(INFINITE).nan());
    }
}

/// Sample `i` is inside, and follows the start or a sample outside.
pub open spec fn enters_at(radius_m: Scalar, samples: Seq<Sample>, i: int) -> bool {
    &&& samples[i].dist_m.below(radius_m)
    &&& i == 0 || !samples[i - 1].dist_m.below(radius_m)
}

/// Sample `i` is outside, and follows a sample inside.
pub open spec fn exits_at(radius_m: Scalar, samples: Seq<Sample>, i: int) -> bool {
    &&& i > 0
    &&& !samples[i].dist_m.below(radius_m)
    &&& samples[i - 1].dist_m.below(radius_m)
}

/// The entry recorded is the latest crossing into the sphere of influence, and the
/// exit the latest one out of it; without such a crossing there is none.
pub proof fn crossings_are_the_latest(radius_m: Scalar, samples: Seq<Sample>)
    ensures
        ({
            let p = passage_of(radius_m, samples);
            &&& p.entered is None ==> forall|i: int|
                0 <= i < samples.len() ==> !#[trigger] enters_at(radius_m, samples, i)
            &&& p.entered matches Some(t) ==> exists|i: int|
                0 <= i < samples.len() && #[trigger] enters_at(radius_m, samples, i) && samples[i].t_s == t && (
                forall|j: int| i < j < samples.len() ==> !#[trigger] enters_at(radius_m, samples, j))
            &&& p.exited is None ==> forall|i: int|
                0 <= i < samples.len() ==> !#[trigger] exits_at(radius_m, samples, i)
            &&& p.exited matches Some(t) ==> exists|i: int|
                0 <= i < samples.len() && #[trigger] exits_at(radius_m, samples, i) && samples[i].t_s == t && (
                forall|j: int| i < j < samples.len() ==> !#[trigger] exits_at(radius_m, samples, j))
        }),
    decreases samples.len(),
{
    if samples.len() > 0 {
        let rest = samples.drop_last();
        let m = samples.len() - 1;
        crossings_are_the_latest(radius_m, rest);
        report_is_true(radius_m, rest);
        let p = passage_of(radius_m, samples);
        let q = passage_of(radius_m, rest);
        assert(samples.last() == samples[m]);
        if m > 0 {
            assert(rest.last() == samples[m - 1]);
        }
        assert forall|i: int| 0 <= i < m implies #[trigger] enters_at(radius_m, samples, i) == enters_at(
            radius_m,
            rest,
            i,
        ) by {}
        assert forall|i: int| 0 <= i < m implies #[trigger] exits_at(radius_m, samples, i) == exits_at(
            radius_m,
            rest,
            i,
        ) by {}
        assert(q.inside == (m > 0 && samples[m - 1].dist_m.below(radius_m)));
        if enters_at(radius_m, samples, m) {
            assert(p.entered == Some(samples[m].t_s));
        } else {
            assert(p.entered == q.entered);
            if p.entered is Some {
                let i = choose|i: int|
                    0 <= i < rest.len() && #[trigger] enters_at(radius_m, rest, i) && rest[i].t_s
                        == q.entered->Some_0 && (forall|j: int|
                        i < j < rest.len() ==> !#[trigger] enters_at(radius_m, rest, j));
                assert(enters_at(radius_m, samples, i) && samples[i].t_s == p.entered->Some_0);
                assert forall|j: int| i < j < samples.len() implies !#[trigger] enters_at(radius_m, samples, j) by {
                    if j < m {
                        assert(!enters_at(radius_m, rest, j));
                    }
                }
            }
        }
        if exits_at(radius_m, samples, m) {
            assert(p.exited == Some(samples[m].t_s));
        } else {
            assert(p.exited == q.exited);
            if p.exited is Some {
                let i = choose|i: int|
                    0 <= i < rest.len() && #[trigger] exits_at(radius_m, rest, i) && rest[i].t_s
                        == q.exited->Some_0 && (forall|j: int|
                        i < j < rest.len() ==> !#[trigger] exits_at(radius_m, rest, j));
                assert(exits_at(radius_m, samples, i) && samples[i].t_s == p.exited->Some_0);
                assert forall|j: int| i < j < samples.len() implies !#[trigger] exits_at(radius_m, samples, j) by {
                    if j < m {
                        assert(!exits_at(radius_m, rest, j));
                    }
                }
            }
        }
    }
}

/// The closest approach is the distance of a sample, or infinite where no sample is
/// closer than that.
pub proof fn closest_is_attained(radius_m: Scalar, samples: Seq<Sample>)
    ensures
        passage_of(radius_m, samples).closest_m == lit(INFINITE) || exists|i: int|
            0 <= i < samples.len() && (#[trigger] samples[i]).dist_m == passage_of(radius_m, samples).closest_m,
    decreases samples.len(),
{
    if samples.len() > 0 {
        let rest = samples.drop_last();
        closest_is_attained(radius_m, rest);
        let c = passage_of(radius_m, samples).closest_m;
        let last = samples[samples.len() - 1];
        assert(samples.last() == last);
        if c != last.dist_m && c != lit(INFINITE) {
            let i = choose|i: int| 0 <= i < rest.len() && (#[trigger] rest[i]).dist_m == c;
            assert(samples[i] == rest[i]);
        }
    }
}

/// A passage is reported by what was seen: through with entry and exit, still inside
/// with an entry alone, and missed without one.
pub proof fn report_follows_the_crossings(p: Passage)
    ensures
        p.report_of() == PassageReport::Through <==> p.entered is Some && p.exited is Some,
        p.report_of() == PassageReport::StillInside <==> p.entered is Some && p.exited is None,
        p.report_of() == PassageReport::Missed <==> p.entered is None,
{
}

} // verus!
