use gameplay_core::gameplay_style::{
    EnableStrafe, Hitbox, HitboxMesh, JumpCalculation, JumpImpulse, StrafeSettings,
    StyleModifiers, VALVE_SCALE,
};
use gameplay_core::integer::{Planar64, Planar64Vec3, Ratio64, Time};

fn strafe(air_accel_limit: Option<Planar64>, num: i64, den: u64) -> Option<StrafeSettings> {
    Some(StrafeSettings { enable: EnableStrafe::Always, air_accel_limit, tick_rate: Ratio64 { num, den } })
}

fn roblox_bhop() -> StyleModifiers {
    StyleModifiers {
        controls_used: u32::MAX,
        controls_mask: u32::MAX,
        strafe: strafe(None, 1, 10_000_000),
        jump_impulse: JumpImpulse::FromTime(Time(715_588_000)),
        jump_calculation: JumpCalculation::Capped,
        static_friction: Planar64::from_int(2),
        kinetic_friction: Planar64::from_int(3),
        walk_speed: Planar64::from_int(18),
        walk_accel: Planar64::from_int(90),
        ladder_speed: Planar64::from_int(18),
        ladder_accel: Planar64::from_int(180),
        ladder_dot: Planar64(3037000499),
        swim_speed: Planar64::from_int(12),
        mass: Planar64::from_int(1),
        mv: Planar64(11596411699),
        surf_slope: Some(Planar64(3787805118)),
        rocket_force: None,
        gravity: Planar64Vec3::from_int(0, -100, 0),
        hitbox: Hitbox {
            halfsize: Planar64Vec3::raw(4294967296, 10737418240, 4294967296),
            mesh: HitboxMesh::Cylinder,
        },
        camera_offset: Planar64Vec3::from_int(0, 2, 0),
    }
}

fn source_bhop() -> StyleModifiers {
    StyleModifiers {
        strafe: strafe(Some(Planar64(4026531840000)), 1, 10_000_000),
        jump_impulse: JumpImpulse::FromHeight(Planar64(13958643712)),
        jump_calculation: JumpCalculation::Linear,
        mv: Planar64(1),
        gravity: Planar64Vec3::from_int(0, -50, 0),
        hitbox: Hitbox { halfsize: Planar64Vec3::raw(1, 2, 1), mesh: HitboxMesh::Box },
        camera_offset: Planar64Vec3::raw(0, 7381975040, 0),
        ..roblox_bhop()
    }
}

#[test]
fn default_style_is_roblox_bhop() {
    assert_eq!(StyleModifiers::default(), roblox_bhop());
    assert_eq!(StyleModifiers::roblox_bhop(), roblox_bhop());
}

#[test]
fn roblox_surf_halves_gravity() {
    assert_eq!(
        StyleModifiers::roblox_surf(),
        StyleModifiers { gravity: Planar64Vec3::from_int(0, -50, 0), ..roblox_bhop() }
    );
}

#[test]
fn roblox_rocket_has_no_strafe() {
    assert_eq!(
        StyleModifiers::roblox_rocket(),
        StyleModifiers {
            strafe: None,
            rocket_force: Some(Planar64::from_int(200)),
            ..roblox_bhop()
        }
    );
}

#[test]
fn neo_style() {
    assert_eq!(
        StyleModifiers::neo(),
        StyleModifiers {
            strafe: strafe(None, 1, 15_625_000),
            jump_impulse: JumpImpulse::FromEnergy(Planar64::from_int(512)),
            jump_calculation: JumpCalculation::Energy,
            gravity: Planar64Vec3::from_int(0, -80, 0),
            mv: Planar64::from_int(3),
            walk_speed: Planar64::from_int(16),
            walk_accel: Planar64::from_int(80),
            ladder_speed: Planar64::from_int(16),
            ladder_accel: Planar64::from_int(160),
            surf_slope: Some(Planar64(0)),
            ..roblox_bhop()
        }
    );
}

#[test]
fn source_styles() {
    assert_eq!(VALVE_SCALE, 16);
    assert_eq!(StyleModifiers::source_bhop(), source_bhop());
    assert_eq!(
        StyleModifiers::source_surf(),
        StyleModifiers {
            strafe: strafe(Some(Planar64(2657511014400)), 33, 500_000_000),
            mv: Planar64(8053063680),
            ..source_bhop()
        }
    );
}

#[test]
fn hitboxes() {
    assert_eq!(
        Hitbox::roblox(),
        Hitbox {
            halfsize: Planar64Vec3 {
                x: Planar64::from_int(1),
                y: Planar64::from_int(5) / 2,
                z: Planar64::from_int(1),
            },
            mesh: HitboxMesh::Cylinder,
        }
    );
    assert_eq!(
        Hitbox::source(),
        Hitbox { halfsize: Planar64Vec3::raw(1, 2, 1), mesh: HitboxMesh::Box }
    );
}

#[test]
fn control_bits_are_distinct() {
    let bits = [
        StyleModifiers::CONTROL_MOVEFORWARD,
        StyleModifiers::CONTROL_MOVEBACK,
        StyleModifiers::CONTROL_MOVERIGHT,
        StyleModifiers::CONTROL_MOVELEFT,
        StyleModifiers::CONTROL_MOVEUP,
        StyleModifiers::CONTROL_MOVEDOWN,
        StyleModifiers::CONTROL_JUMP,
        StyleModifiers::CONTROL_ZOOM,
    ];
    let mut all = 0u32;
    for (place, bit) in bits.iter().enumerate() {
        assert_eq!(*bit, 1 << place);
        all |= bit;
    }
    assert_eq!(all, 0xff);
    assert_eq!(StyleModifiers::default().controls_used & all, all);
}

#[test]
fn directions_are_unit_axes() {
    assert_eq!(StyleModifiers::right_dir(), Planar64Vec3::from_int(1, 0, 0));
    assert_eq!(StyleModifiers::up_dir(), Planar64Vec3::from_int(0, 1, 0));
    assert_eq!(StyleModifiers::forward_dir(), Planar64Vec3::from_int(0, 0, -1));
}
