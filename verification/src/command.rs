//! The camera's command vocabulary and its wire-level numeric codes.

use vstd::prelude::*;

verus! {

/// A logical camera action, independent of its numeric encoding on the wire.
#[derive(Clone, Copy, Debug, PartialEq, Eq, Structural)]
pub enum CameraCmd {
    PtzUp,
    PtzUpStop,
    PtzDown,
    PtzDownStop,
    PtzLeft,
    PtzLeftStop,
    PtzRight,
    PtzRightStop,
    PtzLeftUp,
    PtzRightUp,
    PtzLeftDown,
    PtzRightDown,
    PtzCenter,
    PtzVPatrol,
    PtzVPatrolStop,
    PtzHPatrol,
    PtzHPatrolStop,
    IrOn,
    IrOff,
}

impl CameraCmd {
    /// The protocol's code table. `IrOn` and `IrOff` share code 94: the
    /// camera treats infrared as a toggle, so the code alone does not say
    /// which of the two was meant.
    pub open spec fn spec_value(&self) -> u8 {
        match *self {
            CameraCmd::PtzUp => 0,
            CameraCmd::PtzUpStop => 1,
            CameraCmd::PtzDown => 2,
            CameraCmd::PtzDownStop => 3,
            CameraCmd::PtzLeft => 4,
            CameraCmd::PtzLeftStop => 5,
            CameraCmd::PtzRight => 6,
            CameraCmd::PtzRightStop => 7,
            CameraCmd::PtzLeftUp => 90,
            CameraCmd::PtzRightUp => 91,
            CameraCmd::PtzLeftDown => 92,
            CameraCmd::PtzRightDown => 93,
            CameraCmd::PtzCenter => 25,
            CameraCmd::PtzVPatrol => 26,
            CameraCmd::PtzVPatrolStop => 27,
            CameraCmd::PtzHPatrol => 28,
            CameraCmd::PtzHPatrolStop => 29,
            CameraCmd::IrOn => 94,
            CameraCmd::IrOff => 94,
        }
    }

    /// Numeric code sent in the `command` query parameter.
    #[verifier::when_used_as_spec(spec_value)]
    pub fn value(&self) -> (code: u8)
        ensures
            code == self.spec_value(),
    {
        match *self {
            CameraCmd::PtzUp => 0,
            CameraCmd::PtzUpStop => 1,
            CameraCmd::PtzDown => 2,
            CameraCmd::PtzDownStop => 3,
            CameraCmd::PtzLeft => 4,
            CameraCmd::PtzLeftStop => 5,
            CameraCmd::PtzRight => 6,
            CameraCmd::PtzRightStop => 7,
            CameraCmd::PtzLeftUp => 90,
            CameraCmd::PtzRightUp => 91,
            CameraCmd::PtzLeftDown => 92,
            CameraCmd::PtzRightDown => 93,
            CameraCmd::PtzCenter => 25,
            CameraCmd::PtzVPatrol => 26,
            CameraCmd::PtzVPatrolStop => 27,
            CameraCmd::PtzHPatrol => 28,
            CameraCmd::PtzHPatrolStop => 29,
            CameraCmd::IrOn => 94,
            CameraCmd::IrOff => 94,
        }
    }
}

} // verus!
