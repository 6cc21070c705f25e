//! Spacecraft pointing modes.

use vstd::prelude::*;

verus! {

/// Pointing mode of the attitude controller.
#[derive(Clone, Copy, Debug, PartialEq, Eq, Structural)]
pub enum PointingMode {
    /// Camera (+x body) points at the asteroid's centre.
    Nadir,
    /// Camera (+x body) follows the orbital velocity.
    VelocityAligned,
}

/// Attitude frame that realises a pointing mode.
#[derive(Clone, Copy, Debug, PartialEq, Eq, Structural)]
pub enum AttitudeFrame {
    /// +x along the negative position, completed by the orbit normal.
    NadirOrbitNormal,
    /// +x along the velocity.
    VelocityAligned,
}

impl Default for PointingMode {
    fn default() -> (r: PointingMode)
        ensures
            r == PointingMode::Nadir,
    {
        PointingMode::Nadir
    }
}

impl PointingMode {
    /// Name written to the attitude log.
    pub open spec fn label_text(self) -> Seq<char> {
        match self {
            PointingMode::Nadir => "Nadir"@,
            PointingMode::VelocityAligned => "VelocityAligned"@,
        }
    }

    /// Name written to the attitude log.
    pub fn label(self) -> (r: &'static str)
        ensures
            r@ == self.label_text(),
    {
        match self {
            PointingMode::Nadir => "Nadir",
            PointingMode::VelocityAligned => "VelocityAligned",
        }
    }
}

/// The frame that realises a pointing mode.
pub open spec fn frame_of(mode: PointingMode) -> AttitudeFrame {
    match mode {
        PointingMode::Nadir => AttitudeFrame::NadirOrbitNormal,
        PointingMode::VelocityAligned => AttitudeFrame::VelocityAligned,
    }
}

/// The frame whose quaternion is commanded in a pointing mode.
pub fn desired_quaternion(mode: PointingMode) -> (r: AttitudeFrame)
    ensures
        r == frame_of(mode),
{
    match mode {
        PointingMode::Nadir => AttitudeFrame::NadirOrbitNormal,
        PointingMode::VelocityAligned => AttitudeFrame::VelocityAligned,
    }
}

/// Each pointing mode has a frame of its own, nadir that of the asteroid's centre.
pub proof fn modes_have_their_own_frame(a: PointingMode, b: PointingMode)
    ensures
        frame_of(a) == frame_of(b) <==> a == b,
        frame_of(PointingMode::Nadir) == AttitudeFrame::NadirOrbitNormal,
{
}

} // verus!
