use vstd::prelude::*;

verus! {

/// Different space-time zones in the jet-in-star setup.
#[derive(Clone, Copy, Debug, PartialEq, Eq, Structural)]
pub enum Zone {
    Core,
    Envelope,
    Wind,
    Jet,
}

/// Where a point of space-time lies relative to the boundaries that separate
/// the zones. Each flag is the outcome of one comparison of the point's
/// coordinates against the model's radii and opening angle.
#[derive(Clone, Copy, Debug, PartialEq, Eq, Structural)]
pub struct Placement {
    /// The polar angle lies within the engine's opening angle of either pole.
    pub in_nozzle: bool,
    /// The radius is below the radius the jet head has reached.
    pub behind_jet_head: bool,
    /// The radius is below the outer radius of the stellar core.
    pub inside_core: bool,
    /// The radius lies strictly between the outer radius of the core and the
    /// outer radius of the envelope.
    pub inside_envelope: bool,
}

impl Placement {
    /// The point is inside the jet: in the nozzle and behind the jet head.
    pub open spec fn in_jet(&self) -> bool {
        self.in_nozzle && self.behind_jet_head
    }
}

impl Zone {
    /// The zone of a point. The jet takes precedence over the star; a point on
    /// neither side of the core's boundary and outside the envelope is wind.
    pub fn from_placement(p: &Placement) -> (z: Zone)
        ensures
            (z == Zone::Jet) <==> p.in_jet(),
            (z == Zone::Core) <==> (!p.in_jet() && p.inside_core),
            (z == Zone::Envelope) <==> (!p.in_jet() && !p.inside_core && p.inside_envelope),
            (z == Zone::Wind) <==> (!p.in_jet() && !p.inside_core && !p.inside_envelope),
    {
        if p.in_nozzle && p.behind_jet_head {
            Zone::Jet
        } else if p.inside_core {
            Zone::Core
        } else if p.inside_envelope {
            Zone::Envelope
        } else {
            Zone::Wind
        }
    }

    /// Whether matter in this zone moves with the engine's four-velocity; it
    /// is at rest everywhere else.
    pub fn moves_with_engine(&self) -> (r: bool)
        ensures
            r == (*self == Zone::Jet),
    {
        match self {
            Zone::Jet => true,
            _ => false,
        }
    }
}

} // verus!
