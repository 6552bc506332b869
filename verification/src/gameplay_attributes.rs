use vstd::prelude::*;
use crate::integer::{Planar64, Planar64Vec3, Time};
use crate::model::ModelId;

verus! {

/// A ladder: while in contact, the body may climb; a sticky one holds on to it.
#[derive(Clone, Copy, Debug, Hash, PartialEq, Eq, Structural)]
pub struct ContactingLadder {
    pub sticky: bool,
}

/// How a contact with the surface is interpreted. The behaviours exclude one another.
#[derive(Clone, Copy, Debug, Hash, PartialEq, Eq, Structural)]
pub enum ContactingBehaviour {
    /// Friction is bypassed on a slope.
    Surf,
    Ladder(ContactingLadder),
    NoJump,
    /// The body attaches to the surface, as to a zipline.
    Cling,
    /// The surface bounces. Zero stands for no bounce; any other number `e` for the
    /// coefficient `(e + 1) / 2^32`.
    Elastic(u32),
}

impl ContactingBehaviour {
    /// The bounce coefficient as a fixed-point number: none for a surface that does not bounce,
    /// `(e + 1) / 2^32` for `Elastic(e)` with a positive `e`.
    pub open spec fn spec_elasticity(&self) -> Option<Planar64> {
        match *self {
            ContactingBehaviour::Elastic(e) => if e == 0 {
                None
            } else {
                Some(Planar64((e + 1) as i64))
            },
            _ => None,
        }
    }

    /// The bounce coefficient of the surface, which lies above zero and is at most one.
    #[verifier::when_used_as_spec(spec_elasticity)]
    pub fn elasticity(&self) -> (r: Option<Planar64>)
        ensures
            r == self.spec_elasticity(),
            r matches Some(c) ==> 0 < c.0 <= 0x1_0000_0000,
    {
        match *self {
            ContactingBehaviour::Elastic(e) => if e == 0 {
                None
            } else {
                let wide: i64 = e as i64;
                Some(Planar64(wide + 1))
            },
            _ => None,
        }
    }
}

/// Water: while the body's volume overlaps the model's, the fluid acts on it.
#[derive(Clone, Copy, Debug, Hash, PartialEq, Eq, Structural)]
pub struct IntersectingWater {
    pub viscosity: Planar64,
    pub density: Planar64,
    pub velocity: Planar64Vec3,
}

/// A field of constant acceleration.
#[derive(Clone, Copy, Debug, Hash, PartialEq, Eq, Structural)]
pub struct Accelerator {
    pub acceleration: Planar64Vec3,
}

/// An effect that speeds the body up.
#[derive(Clone, Copy, Debug, Hash, PartialEq, Eq, Structural)]
pub enum Booster {
    /// The velocity is added to the body's velocity.
    Velocity(Planar64Vec3),
    /// Energy is added in a direction.
    Energy { direction: Planar64Vec3, energy: Planar64 },
}

/// Which of the two arcs that reach a target at a given speed is taken.
#[derive(Clone, Copy, Debug, Hash, PartialEq, Eq, Structural)]
pub enum TrajectoryChoice {
    /// The lob: less horizontal speed and more air time.
    HighArcLongDuration,
    /// The throw: more horizontal speed and less air time.
    LowArcShortDuration,
}

/// An effect that sets the body on a trajectory. The first three fix a speed along the
/// direction of gravity or of `direction`; the last three fix the whole velocity.
#[derive(Clone, Copy, Debug, Hash, PartialEq, Eq, Structural)]
pub enum SetTrajectory {
    /// A fixed time in the air.
    AirTime(Time),
    /// A fixed height.
    Height(Planar64),
    /// A fixed speed along `direction`; the other directions are left alone.
    DotVelocity { direction: Planar64Vec3, dot: Planar64 },
    /// A launch that lands at `target_point` after `time`.
    TargetPointTime { target_point: Planar64Vec3, time: Time },
    /// A launch at `speed` that lands at `target_point`. Where the speed is too low to reach the
    /// target, the trajectory that passes closest to it is meant.
    TargetPointSpeed {
        target_point: Planar64Vec3,
        speed: Planar64,
        trajectory_choice: TrajectoryChoice,
    },
    /// A fixed velocity.
    Velocity(Planar64Vec3),
}

impl SetTrajectory {
    /// Whether the effect fixes the whole velocity.
    pub open spec fn spec_is_velocity(&self) -> bool {
        *self is TargetPointTime || *self is TargetPointSpeed || *self is Velocity
    }

    /// Whether the effect fixes the whole velocity.
    #[verifier::when_used_as_spec(spec_is_velocity)]
    pub fn is_velocity(&self) -> (r: bool)
        ensures
            r == self.spec_is_velocity(),
    {
        match self {
            SetTrajectory::AirTime(_)
            | SetTrajectory::Height(_)
            | SetTrajectory::DotVelocity { direction: _, dot: _ } => false,
            SetTrajectory::TargetPointTime { target_point: _, time: _ }
            | SetTrajectory::TargetPointSpeed { target_point: _, speed: _, trajectory_choice: _ }
            | SetTrajectory::Velocity(_) => true,
        }
    }
}

/// A one-way portal to the transform of a destination model.
#[derive(Clone, Copy, Debug, Hash, PartialEq, Eq, Structural)]
pub struct Wormhole {
    pub destination_model: ModelId,
}

/// The effects that any model can have. Each is optional and independent of the others; where
/// several apply at once they are handled in the order of the fields.
#[derive(Clone, Copy, Debug, Hash, PartialEq, Eq)]
pub struct GeneralAttributes {
    pub booster: Option<Booster>,
    pub trajectory: Option<SetTrajectory>,
    pub wormhole: Option<Wormhole>,
    pub accelerator: Option<Accelerator>,
}

impl GeneralAttributes {
    /// Whether any effect is set.
    pub open spec fn spec_any(&self) -> bool {
        self.booster is Some || self.trajectory is Some || self.wormhole is Some
            || self.accelerator is Some
    }

    /// Whether any effect is set.
    #[verifier::when_used_as_spec(spec_any)]
    pub fn any(&self) -> (r: bool)
        ensures
            r == self.spec_any(),
    {
        self.booster.is_some() || self.trajectory.is_some() || self.wormhole.is_some()
            || self.accelerator.is_some()
    }

    /// Whether a trajectory is set and fixes the whole velocity.
    pub open spec fn spec_is_wrcp(&self) -> bool {
        match self.trajectory {
            Some(t) => t.spec_is_velocity(),
            None => false,
        }
    }

    /// Whether a trajectory is set and fixes the whole velocity.
    #[verifier::when_used_as_spec(spec_is_wrcp)]
    pub fn is_wrcp(&self) -> (r: bool)
        ensures
            r == self.spec_is_wrcp(),
    {
        match &self.trajectory {
            Some(t) => t.is_velocity(),
            None => false,
        }
    }
}

impl Default for GeneralAttributes {
    /// No effect at all.
    fn default() -> (r: Self)
        ensures
            r == (GeneralAttributes { booster: None, trajectory: None, wormhole: None, accelerator: None }),
    {
        GeneralAttributes { booster: None, trajectory: None, wormhole: None, accelerator: None }
    }
}

/// The effects of a model that the body touches.
#[derive(Clone, Copy, Debug, Hash, PartialEq, Eq)]
pub struct ContactingAttributes {
    pub contact_behaviour: Option<ContactingBehaviour>,
}

impl ContactingAttributes {
    /// Whether a contact behaviour is set.
    pub open spec fn spec_any(&self) -> bool {
        self.contact_behaviour is Some
    }

    /// Whether a contact behaviour is set.
    #[verifier::when_used_as_spec(spec_any)]
    pub fn any(&self) -> (r: bool)
        ensures
            r == self.spec_any(),
    {
        self.contact_behaviour.is_some()
    }
}

impl Default for ContactingAttributes {
    /// No contact behaviour.
    fn default() -> (r: Self)
        ensures
            r == (ContactingAttributes { contact_behaviour: None }),
    {
        ContactingAttributes { contact_behaviour: None }
    }
}

/// The effects of a model whose volume the body overlaps.
#[derive(Clone, Copy, Debug, Hash, PartialEq, Eq)]
pub struct IntersectingAttributes {
    pub water: Option<IntersectingWater>,
}

impl IntersectingAttributes {
    /// Whether water is set.
    pub open spec fn spec_any(&self) -> bool {
        self.water is Some
    }

    /// Whether water is set.
    #[verifier::when_used_as_spec(spec_any)]
    pub fn any(&self) -> (r: bool)
        ensures
            r == self.spec_any(),
    {
        self.water.is_some()
    }
}

impl Default for IntersectingAttributes {
    /// No water.
    fn default() -> (r: Self)
        ensures
            r == (IntersectingAttributes { water: None }),
    {
        IntersectingAttributes { water: None }
    }
}

/// The number of a set of collision attributes.
#[derive(Clone, Copy, Debug, Hash, PartialEq, Eq, Structural)]
pub struct CollisionAttributesId(pub u32);

impl CollisionAttributesId {
    pub fn new(value: u32) -> (r: Self)
        ensures
            r == CollisionAttributesId(value),
    {
        CollisionAttributesId(value)
    }

    pub fn get(self) -> (r: u32)
        ensures
            r == self.0,
    {
        self.0
    }
}

/// The gameplay effects of a model's surface.
#[derive(Clone, Copy, Debug, Hash, PartialEq, Eq)]
pub enum CollisionAttributes {
    /// Only seen: no effect.
    Decoration,
    /// The effects apply while the body touches the surface.
    Contact { contacting: ContactingAttributes, general: GeneralAttributes },
    /// The effects apply while the body's volume overlaps the model's.
    Intersect { intersecting: IntersectingAttributes, general: GeneralAttributes },
}

impl Default for CollisionAttributes {
    /// A surface that can be touched and has no effect.
    fn default() -> (r: Self)
        ensures
            r == (CollisionAttributes::Contact {
                contacting: ContactingAttributes { contact_behaviour: None },
                general: GeneralAttributes {
                    booster: None,
                    trajectory: None,
                    wormhole: None,
                    accelerator: None,
                },
            }),
    {
        CollisionAttributes::Contact {
            contacting: ContactingAttributes::default(),
            general: GeneralAttributes::default(),
        }
    }
}

/// A surface can carry a booster and a trajectory at once: each is read back as it was set,
/// whatever the other effects and the contact behaviour are, and the set counts as populated.
pub proof fn lemma_effects_compose(
    booster: Booster,
    trajectory: SetTrajectory,
    wormhole: Option<Wormhole>,
    accelerator: Option<Accelerator>,
    contacting: ContactingAttributes,
)
    ensures
        ({
            let general = GeneralAttributes {
                booster: Some(booster),
                trajectory: Some(trajectory),
                wormhole,
                accelerator,
            };
            let attributes = CollisionAttributes::Contact { contacting, general };
            &&& attributes->Contact_general.booster == Some(booster)
            &&& attributes->Contact_general.trajectory == Some(trajectory)
            &&& attributes->Contact_general.wormhole == wormhole
            &&& attributes->Contact_general.accelerator == accelerator
            &&& attributes->Contact_contacting == contacting
            &&& general.spec_any()
            &&& general.spec_is_wrcp() == trajectory.spec_is_velocity()
        }),
{
}

} // verus!
