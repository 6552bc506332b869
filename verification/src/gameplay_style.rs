use vstd::prelude::*;
use crate::integer::{whole, whole_vec3, Planar64, Planar64Vec3, Ratio64, Time};

verus! {

/// The factor by which the lengths of the scaled-down styles are divided.
pub const VALVE_SCALE: i64 = 16;

/// How a jump changes the velocity along the surface normal.
#[derive(Clone, Copy, Debug, PartialEq, Eq)]
pub enum JumpCalculation {
    /// The velocity along the normal is raised up to a cap.
    Capped,
    /// Energy is added.
    Energy,
    /// The jump velocity is added on.
    Linear,
}

/// The quantity that a jump keeps fixed when mass and gravity change.
#[derive(Clone, Copy, Debug, PartialEq, Eq)]
pub enum JumpImpulse {
    FromTime(Time),
    FromHeight(Planar64),
    FromDeltaV(Planar64),
    FromEnergy(Planar64),
}

/// When air strafing is active, by the controls that are held.
#[derive(Clone, Copy, Debug, PartialEq, Eq)]
pub enum EnableStrafe {
    Always,
    MaskAny(u32),
    MaskAll(u32),
}

/// The tuning of air strafing.
#[derive(Clone, Copy, Debug, PartialEq, Eq)]
pub struct StrafeSettings {
    pub enable: EnableStrafe,
    pub air_accel_limit: Option<Planar64>,
    pub tick_rate: Ratio64,
}

/// The shape of the player's hitbox.
#[derive(Clone, Copy, Debug, PartialEq, Eq)]
pub enum HitboxMesh {
    Box,
    Cylinder,
}

/// The player's hitbox: a shape and half of its extent along each axis.
#[derive(Clone, Copy, Debug, PartialEq, Eq)]
pub struct Hitbox {
    pub halfsize: Planar64Vec3,
    pub mesh: HitboxMesh,
}

impl Hitbox {
    /// The cylinder of two by five by two units.
    pub open spec fn spec_roblox() -> Hitbox {
        Hitbox {
            halfsize: Planar64Vec3 {
                x: Planar64(0x1_0000_0000),
                y: Planar64(0x2_8000_0000),
                z: Planar64(0x1_0000_0000),
            },
            mesh: HitboxMesh::Cylinder,
        }
    }

    /// The box whose half extents are one, two and one raw units.
    pub open spec fn spec_source() -> Hitbox {
        Hitbox {
            halfsize: Planar64Vec3 { x: Planar64(1), y: Planar64(2), z: Planar64(1) },
            mesh: HitboxMesh::Box,
        }
    }

    /// The cylinder of two by five by two units.
    pub fn roblox() -> (r: Self)
        ensures
            r == Self::spec_roblox(),
    {
        Hitbox { halfsize: Planar64Vec3::from_int(2, 5, 2) / 2, mesh: HitboxMesh::Cylinder }
    }

    /// The box whose raw extents 33, 73 and 33 are halved and scaled down.
    pub fn source() -> (r: Self)
        ensures
            r == Self::spec_source(),
    {
        Hitbox { halfsize: Planar64Vec3::raw(33, 73, 33) / 2 / VALVE_SCALE, mesh: HitboxMesh::Box }
    }
}

/// The movement tuning of a mode.
#[derive(Clone, Copy, Debug, PartialEq, Eq)]
pub struct StyleModifiers {
    /// The controls that are allowed to pass into gameplay.
    pub controls_used: u32,
    /// The controls that are masked from the control state.
    pub controls_mask: u32,
    pub strafe: Option<StrafeSettings>,
    pub jump_impulse: JumpImpulse,
    pub jump_calculation: JumpCalculation,
    pub static_friction: Planar64,
    pub kinetic_friction: Planar64,
    pub walk_speed: Planar64,
    pub walk_accel: Planar64,
    pub ladder_speed: Planar64,
    pub ladder_accel: Planar64,
    pub ladder_dot: Planar64,
    pub swim_speed: Planar64,
    pub mass: Planar64,
    pub mv: Planar64,
    pub surf_slope: Option<Planar64>,
    pub rocket_force: Option<Planar64>,
    pub gravity: Planar64Vec3,
    pub hitbox: Hitbox,
    pub camera_offset: Planar64Vec3,
}

/// The square root of one half, rounded down.
fn sqrt_half() -> (r: Planar64)
    ensures
        r == Planar64(3037000499),
{
    let half = Planar64::from_int(1) / 2;
    let r = half.sqrt();
    assert(r.0 == 3037000499) by (nonlinear_arith)
        requires
            0 <= r.0,
            r.0 * r.0 <= 0x8000_0000_0000_0000,
            0x8000_0000_0000_0000 < (r.0 + 1) * (r.0 + 1),
    ;
    r
}

/// The mask of every control.
fn all_controls() -> (r: u32)
    ensures
        r == 0xffff_ffff,
{
    let all: u32 = !0;
    assert(all == 0xffff_ffff) by (bit_vector)
        requires
            all == !0u32,
    ;
    all
}

impl StyleModifiers {
    pub const CONTROL_MOVEFORWARD: u32 = 0b00000001;

    pub const CONTROL_MOVEBACK: u32 = 0b00000010;

    pub const CONTROL_MOVERIGHT: u32 = 0b00000100;

    pub const CONTROL_MOVELEFT: u32 = 0b00001000;

    pub const CONTROL_MOVEUP: u32 = 0b00010000;

    pub const CONTROL_MOVEDOWN: u32 = 0b00100000;

    pub const CONTROL_JUMP: u32 = 0b01000000;

    pub const CONTROL_ZOOM: u32 = 0b10000000;

    /// The direction to the right of the body: the x axis.
    pub fn right_dir() -> (r: Planar64Vec3)
        ensures
            r == whole_vec3(1, 0, 0),
    {
        Planar64Vec3::from_int(1, 0, 0)
    }

    /// The direction above the body: the y axis.
    pub fn up_dir() -> (r: Planar64Vec3)
        ensures
            r == whole_vec3(0, 1, 0),
    {
        Planar64Vec3::from_int(0, 1, 0)
    }

    /// The direction in front of the body: the z axis reversed.
    pub fn forward_dir() -> (r: Planar64Vec3)
        ensures
            r == whole_vec3(0, 0, -1),
    {
        Planar64Vec3::from_int(0, 0, -1)
    }

    /// The tuning of the energy-based style.
    pub open spec fn spec_neo() -> StyleModifiers {
        StyleModifiers {
            controls_used: 0xffff_ffff,
            controls_mask: 0xffff_ffff,
            strafe: Some(
                (StrafeSettings {
                    enable: EnableStrafe::Always,
                    air_accel_limit: None,
                    tick_rate: Ratio64 { num: 1, den: 15_625_000 },
                }),
            ),
            jump_impulse: JumpImpulse::FromEnergy(whole(512)),
            jump_calculation: JumpCalculation::Energy,
            static_friction: whole(2),
            kinetic_friction: whole(3),
            walk_speed: whole(16),
            walk_accel: whole(80),
            ladder_speed: whole(16),
            ladder_accel: whole(160),
            ladder_dot: Planar64(3037000499),
            swim_speed: whole(12),
            mass: whole(1),
            mv: whole(3),
            surf_slope: Some(Planar64(0)),
            rocket_force: None,
            gravity: whole_vec3(0, -80, 0),
            hitbox: Hitbox::spec_roblox(),
            camera_offset: whole_vec3(0, 2, 0),
        }
    }

    /// The tuning of bunny hopping with a capped jump.
    pub open spec fn spec_roblox_bhop() -> StyleModifiers {
        StyleModifiers {
            controls_used: 0xffff_ffff,
            controls_mask: 0xffff_ffff,
            strafe: Some(
                (StrafeSettings {
                    enable: EnableStrafe::Always,
                    air_accel_limit: None,
                    tick_rate: Ratio64 { num: 1, den: 10_000_000 },
                }),
            ),
            jump_impulse: JumpImpulse::FromTime(Time(715_588_000)),
            jump_calculation: JumpCalculation::Capped,
            static_friction: whole(2),
            kinetic_friction: whole(3),
            walk_speed: whole(18),
            walk_accel: whole(90),
            ladder_speed: whole(18),
            ladder_accel: whole(180),
            ladder_dot: Planar64(3037000499),
            swim_speed: whole(12),
            mass: whole(1),
            mv: Planar64(11_596_411_699),
            surf_slope: Some(Planar64(3787805118)),
            rocket_force: None,
            gravity: whole_vec3(0, -100, 0),
            hitbox: Hitbox::spec_roblox(),
            camera_offset: whole_vec3(0, 2, 0),
        }
    }

    /// The tuning of surfing with a capped jump: bunny hopping under half the gravity.
    pub open spec fn spec_roblox_surf() -> StyleModifiers {
        StyleModifiers {
            controls_used: 0xffff_ffff,
            controls_mask: 0xffff_ffff,
            strafe: Some(
                (StrafeSettings {
                    enable: EnableStrafe::Always,
                    air_accel_limit: None,
                    tick_rate: Ratio64 { num: 1, den: 10_000_000 },
                }),
            ),
            jump_impulse: JumpImpulse::FromTime(Time(715_588_000)),
            jump_calculation: JumpCalculation::Capped,
            static_friction: whole(2),
            kinetic_friction: whole(3),
            walk_speed: whole(18),
            walk_accel: whole(90),
            ladder_speed: whole(18),
            ladder_accel: whole(180),
            ladder_dot: Planar64(3037000499),
            swim_speed: whole(12),
            mass: whole(1),
            mv: Planar64(11_596_411_699),
            surf_slope: Some(Planar64(3787805118)),
            rocket_force: None,
            gravity: whole_vec3(0, -50, 0),
            hitbox: Hitbox::spec_roblox(),
            camera_offset: whole_vec3(0, 2, 0),
        }
    }

    /// The tuning of bunny hopping with a linear jump, in units scaled down by sixteen.
    pub open spec fn spec_source_bhop() -> StyleModifiers {
        StyleModifiers {
            controls_used: 0xffff_ffff,
            controls_mask: 0xffff_ffff,
            strafe: Some(
                (StrafeSettings {
                    enable: EnableStrafe::Always,
                    air_accel_limit: Some(Planar64(4_026_531_840_000)),
                    tick_rate: Ratio64 { num: 1, den: 10_000_000 },
                }),
            ),
            jump_impulse: JumpImpulse::FromHeight(Planar64(13_958_643_712)),
            jump_calculation: JumpCalculation::Linear,
            static_friction: whole(2),
            kinetic_friction: whole(3),
            walk_speed: whole(18),
            walk_accel: whole(90),
            ladder_speed: whole(18),
            ladder_accel: whole(180),
            ladder_dot: Planar64(3037000499),
            swim_speed: whole(12),
            mass: whole(1),
            mv: Planar64(1),
            surf_slope: Some(Planar64(3787805118)),
            rocket_force: None,
            gravity: whole_vec3(0, -50, 0),
            hitbox: Hitbox::spec_source(),
            camera_offset: Planar64Vec3 { x: Planar64(0), y: Planar64(7_381_975_040), z: Planar64(0) },
        }
    }

    /// The tuning of surfing with a linear jump, in units scaled down by sixteen.
    pub open spec fn spec_source_surf() -> StyleModifiers {
        StyleModifiers {
            controls_used: 0xffff_ffff,
            controls_mask: 0xffff_ffff,
            strafe: Some(
                (StrafeSettings {
                    enable: EnableStrafe::Always,
                    air_accel_limit: Some(Planar64(2_657_511_014_400)),
                    tick_rate: Ratio64 { num: 33, den: 500_000_000 },
                }),
            ),
            jump_impulse: JumpImpulse::FromHeight(Planar64(13_958_643_712)),
            jump_calculation: JumpCalculation::Linear,
            static_friction: whole(2),
            kinetic_friction: whole(3),
            walk_speed: whole(18),
            walk_accel: whole(90),
            ladder_speed: whole(18),
            ladder_accel: whole(180),
            ladder_dot: Planar64(3037000499),
            swim_speed: whole(12),
            mass: whole(1),
            mv: Planar64(8_053_063_680),
            surf_slope: Some(Planar64(3787805118)),
            rocket_force: None,
            gravity: whole_vec3(0, -50, 0),
            hitbox: Hitbox::spec_source(),
            camera_offset: Planar64Vec3 { x: Planar64(0), y: Planar64(7_381_975_040), z: Planar64(0) },
        }
    }

    /// The tuning of rocket jumping: no strafing, and a rocket force.
    pub open spec fn spec_roblox_rocket() -> StyleModifiers {
        StyleModifiers {
            controls_used: 0xffff_ffff,
            controls_mask: 0xffff_ffff,
            strafe: None,
            jump_impulse: JumpImpulse::FromTime(Time(715_588_000)),
            jump_calculation: JumpCalculation::Capped,
            static_friction: whole(2),
            kinetic_friction: whole(3),
            walk_speed: whole(18),
            walk_accel: whole(90),
            ladder_speed: whole(18),
            ladder_accel: whole(180),
            ladder_dot: Planar64(3037000499),
            swim_speed: whole(12),
            mass: whole(1),
            mv: Planar64(11_596_411_699),
            surf_slope: Some(Planar64(3787805118)),
            rocket_force: Some(whole(200)),
            gravity: whole_vec3(0, -100, 0),
            hitbox: Hitbox::spec_roblox(),
            camera_offset: whole_vec3(0, 2, 0),
        }
    }

    /// The tuning of the energy-based style.
    pub fn neo() -> (r: Self)
        ensures
            r == Self::spec_neo(),
    {
        let second: u64 = Time::one_second().nanos() as u64;
        let tick_rate = Ratio64::new(64, second);
        proof {
            let g = crate::integer::gcd(64, 1_000_000_000) as int;
            assert(g == 64) by {
                reveal_with_fuel(crate::integer::gcd, 8);
            }
            assert(64int / g == 1 && 1_000_000_000int / g == 15_625_000) by (nonlinear_arith)
                requires
                    g == 64,
            ;
        }
        let all = all_controls();
        let ladder_dot = sqrt_half();
        StyleModifiers {
            controls_used: all,
            controls_mask: all,
            strafe: Some(
                StrafeSettings {
                    enable: EnableStrafe::Always,
                    air_accel_limit: None,
                    tick_rate: tick_rate.unwrap(),
                },
            ),
            jump_impulse: JumpImpulse::FromEnergy(Planar64::from_int(512)),
            jump_calculation: JumpCalculation::Energy,
            gravity: Planar64Vec3::from_int(0, -80, 0),
            static_friction: Planar64::from_int(2),
            kinetic_friction: Planar64::from_int(3),
            mass: Planar64::from_int(1),
            mv: Planar64::from_int(3),
            rocket_force: None,
            walk_speed: Planar64::from_int(16),
            walk_accel: Planar64::from_int(80),
            ladder_speed: Planar64::from_int(16),
            ladder_accel: Planar64::from_int(160),
            ladder_dot,
            swim_speed: Planar64::from_int(12),
            surf_slope: Some(Planar64::raw(7) / 8),
            hitbox: Hitbox::roblox(),
            camera_offset: Planar64Vec3::from_int(0, 2, 0),
        }
    }

    /// The tuning of bunny hopping with a capped jump.
    pub fn roblox_bhop() -> (r: Self)
        ensures
            r == Self::spec_roblox_bhop(),
    {
        let second: u64 = Time::one_second().nanos() as u64;
        let tick_rate = Ratio64::new(100, second);
        proof {
            let g = crate::integer::gcd(100, 1_000_000_000) as int;
            assert(g == 100) by {
                reveal_with_fuel(crate::integer::gcd, 8);
            }
            assert(100int / g == 1 && 1_000_000_000int / g == 10_000_000) by (nonlinear_arith)
                requires
                    g == 100,
            ;
        }
        let all = all_controls();
        let ladder_dot = sqrt_half();
        StyleModifiers {
            controls_used: all,
            controls_mask: all,
            strafe: Some(
                StrafeSettings {
                    enable: EnableStrafe::Always,
                    air_accel_limit: None,
                    tick_rate: tick_rate.unwrap(),
                },
            ),
            jump_impulse: JumpImpulse::FromTime(Time::from_micros(715_588)),
            jump_calculation: JumpCalculation::Capped,
            gravity: Planar64Vec3::from_int(0, -100, 0),
            static_friction: Planar64::from_int(2),
            kinetic_friction: Planar64::from_int(3),
            mass: Planar64::from_int(1),
            mv: Planar64::from_int(27) / 10,
            rocket_force: None,
            walk_speed: Planar64::from_int(18),
            walk_accel: Planar64::from_int(90),
            ladder_speed: Planar64::from_int(18),
            ladder_accel: Planar64::from_int(180),
            ladder_dot,
            swim_speed: Planar64::from_int(12),
            surf_slope: Some(Planar64::raw(3787805118)),
            hitbox: Hitbox::roblox(),
            camera_offset: Planar64Vec3::from_int(0, 2, 0),
        }
    }

    /// The tuning of surfing with a capped jump: bunny hopping under half the gravity.
    pub fn roblox_surf() -> (r: Self)
        ensures
            r == Self::spec_roblox_surf(),
    {
        let second: u64 = Time::one_second().nanos() as u64;
        let tick_rate = Ratio64::new(100, second);
        proof {
            let g = crate::integer::gcd(100, 1_000_000_000) as int;
            assert(g == 100) by {
                reveal_with_fuel(crate::integer::gcd, 8);
            }
            assert(100int / g == 1 && 1_000_000_000int / g == 10_000_000) by (nonlinear_arith)
                requires
                    g == 100,
            ;
        }
        let all = all_controls();
        let ladder_dot = sqrt_half();
        StyleModifiers {
            controls_used: all,
            controls_mask: all,
            strafe: Some(
                StrafeSettings {
                    enable: EnableStrafe::Always,
                    air_accel_limit: None,
                    tick_rate: tick_rate.unwrap(),
                },
            ),
            jump_impulse: JumpImpulse::FromTime(Time::from_micros(715_588)),
            jump_calculation: JumpCalculation::Capped,
            gravity: Planar64Vec3::from_int(0, -50, 0),
            static_friction: Planar64::from_int(2),
            kinetic_friction: Planar64::from_int(3),
            mass: Planar64::from_int(1),
            mv: Planar64::from_int(27) / 10,
            rocket_force: None,
            walk_speed: Planar64::from_int(18),
            walk_accel: Planar64::from_int(90),
            ladder_speed: Planar64::from_int(18),
            ladder_accel: Planar64::from_int(180),
            ladder_dot,
            swim_speed: Planar64::from_int(12),
            surf_slope: Some(Planar64::raw(3787805118)),
            hitbox: Hitbox::roblox(),
            camera_offset: Planar64Vec3::from_int(0, 2, 0),
        }
    }

    /// The tuning of bunny hopping with a linear jump, in units scaled down by sixteen.
    pub fn source_bhop() -> (r: Self)
        ensures
            r == Self::spec_source_bhop(),
    {
        let shifted: i64 = 150 << 28;
        assert(shifted == 40_265_318_400) by (bit_vector)
            requires
                shifted == 150i64 << 28,
        ;
        let second: u64 = Time::one_second().nanos() as u64;
        let tick_rate = Ratio64::new(100, second);
        proof {
            let g = crate::integer::gcd(100, 1_000_000_000) as int;
            assert(g == 100) by {
                reveal_with_fuel(crate::integer::gcd, 8);
            }
            assert(100int / g == 1 && 1_000_000_000int / g == 10_000_000) by (nonlinear_arith)
                requires
                    g == 100,
            ;
        }
        let all = all_controls();
        let ladder_dot = sqrt_half();
        StyleModifiers {
            controls_used: all,
            controls_mask: all,
            strafe: Some(
                StrafeSettings {
                    enable: EnableStrafe::Always,
                    air_accel_limit: Some(Planar64::raw(shifted) * 100),
                    tick_rate: tick_rate.unwrap(),
                },
            ),
            jump_impulse: JumpImpulse::FromHeight(Planar64::from_int(52) / VALVE_SCALE),
            jump_calculation: JumpCalculation::Linear,
            gravity: Planar64Vec3::from_int(0, -800, 0) / VALVE_SCALE,
            static_friction: Planar64::from_int(2),
            kinetic_friction: Planar64::from_int(3),
            mass: Planar64::from_int(1),
            mv: Planar64::raw(30) / VALVE_SCALE,
            rocket_force: None,
            walk_speed: Planar64::from_int(18),
            walk_accel: Planar64::from_int(90),
            ladder_speed: Planar64::from_int(18),
            ladder_accel: Planar64::from_int(180),
            ladder_dot,
            swim_speed: Planar64::from_int(12),
            surf_slope: Some(Planar64::raw(3787805118)),
            hitbox: Hitbox::source(),
            camera_offset: (Planar64Vec3::from_int(0, 64, 0) - Planar64Vec3::from_int(0, 73, 0) / 2) / VALVE_SCALE,
        }
    }

    /// The tuning of surfing with a linear jump, in units scaled down by sixteen.
    pub fn source_surf() -> (r: Self)
        ensures
            r == Self::spec_source_surf(),
    {
        let second: u64 = Time::one_second().nanos() as u64;
        let tick_rate = Ratio64::new(66, second);
        proof {
            let g = crate::integer::gcd(66, 1_000_000_000) as int;
            assert(g == 2) by {
                reveal_with_fuel(crate::integer::gcd, 8);
            }
            assert(66int / g == 33 && 1_000_000_000int / g == 500_000_000) by (nonlinear_arith)
                requires
                    g == 2,
            ;
        }
        let all = all_controls();
        let ladder_dot = sqrt_half();
        StyleModifiers {
            controls_used: all,
            controls_mask: all,
            strafe: Some(
                StrafeSettings {
                    enable: EnableStrafe::Always,
                    air_accel_limit: Some(Planar64::from_int(150) * 66 / VALVE_SCALE),
                    tick_rate: tick_rate.unwrap(),
                },
            ),
            jump_impulse: JumpImpulse::FromHeight(Planar64::from_int(52) / VALVE_SCALE),
            jump_calculation: JumpCalculation::Linear,
            gravity: Planar64Vec3::from_int(0, -800, 0) / VALVE_SCALE,
            static_friction: Planar64::from_int(2),
            kinetic_friction: Planar64::from_int(3),
            mass: Planar64::from_int(1),
            mv: Planar64::from_int(30) / VALVE_SCALE,
            rocket_force: None,
            walk_speed: Planar64::from_int(18),
            walk_accel: Planar64::from_int(90),
            ladder_speed: Planar64::from_int(18),
            ladder_accel: Planar64::from_int(180),
            ladder_dot,
            swim_speed: Planar64::from_int(12),
            surf_slope: Some(Planar64::raw(3787805118)),
            hitbox: Hitbox::source(),
            camera_offset: (Planar64Vec3::from_int(0, 64, 0) - Planar64Vec3::from_int(0, 73, 0) / 2) / VALVE_SCALE,
        }
    }

    /// The tuning of rocket jumping: no strafing, and a rocket force.
    pub fn roblox_rocket() -> (r: Self)
        ensures
            r == Self::spec_roblox_rocket(),
    {
        let all = all_controls();
        let ladder_dot = sqrt_half();
        StyleModifiers {
            controls_used: all,
            controls_mask: all,
            strafe: None,
            jump_impulse: JumpImpulse::FromTime(Time::from_micros(715_588)),
            jump_calculation: JumpCalculation::Capped,
            gravity: Planar64Vec3::from_int(0, -100, 0),
            static_friction: Planar64::from_int(2),
            kinetic_friction: Planar64::from_int(3),
            mass: Planar64::from_int(1),
            mv: Planar64::from_int(27) / 10,
            rocket_force: Some(Planar64::from_int(200)),
            walk_speed: Planar64::from_int(18),
            walk_accel: Planar64::from_int(90),
            ladder_speed: Planar64::from_int(18),
            ladder_accel: Planar64::from_int(180),
            ladder_dot,
            swim_speed: Planar64::from_int(12),
            surf_slope: Some(Planar64::raw(3787805118)),
            hitbox: Hitbox::roblox(),
            camera_offset: Planar64Vec3::from_int(0, 2, 0),
        }
    }
}

impl Default for StyleModifiers {
    /// The tuning of bunny hopping with a capped jump.
    fn default() -> (r: Self)
        ensures
            r == StyleModifiers::spec_roblox_bhop(),
    {
        Self::roblox_bhop()
    }
}

} // verus!
