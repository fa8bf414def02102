use ball_control::control::{
    drive, reset, Command, Controls, Kinematics, ACCELERATION, JUMP_IMPULSE,
};
use ball_control::direction::{direction_or, Axis, Frame};
use bevy::math::Vec3;

fn idle() -> Controls {
    Controls {
        strafe_left: false,
        strafe_right: false,
        forward: false,
        backward: false,
        jump: false,
        reset: false,
    }
}

fn net(list: &[Command], along: Axis) -> i64 {
    let mut sum = 0i64;
    for command in list {
        if let Command::Accelerate { axis, gain } = command {
            if *axis == along {
                sum += i64::from(*gain);
            }
        }
    }
    sum
}

fn moving() -> Kinematics<[f32; 3]> {
    Kinematics {
        position: [1.0, 2.0, 3.0],
        linear_velocity: [-4.0, 0.5, 6.0],
        angular_velocity: [0.0, 1.0, 0.0],
    }
}

#[test]
fn gains_have_their_values() {
    assert_eq!(ACCELERATION, 40);
    assert_eq!(JUMP_IMPULSE, 1);
}

#[test]
fn nothing_held_asks_for_nothing() {
    assert_eq!(drive(&idle()), Vec::<Command>::new());
}

#[test]
fn reset_alone_asks_for_no_force() {
    let controls = Controls { reset: true, ..idle() };
    assert_eq!(drive(&controls), Vec::<Command>::new());
}

#[test]
fn strafe_left_pushes_against_the_tangent() {
    let controls = Controls { strafe_left: true, ..idle() };
    assert_eq!(drive(&controls), vec![Command::Accelerate { axis: Axis::Tangent, gain: -40 }]);
}

#[test]
fn strafe_right_pushes_along_the_tangent() {
    let controls = Controls { strafe_right: true, ..idle() };
    assert_eq!(drive(&controls), vec![Command::Accelerate { axis: Axis::Tangent, gain: 40 }]);
}

#[test]
fn forward_pushes_along_the_heading() {
    let controls = Controls { forward: true, ..idle() };
    assert_eq!(drive(&controls), vec![Command::Accelerate { axis: Axis::Normal, gain: 40 }]);
}

#[test]
fn backward_pushes_against_the_heading() {
    let controls = Controls { backward: true, ..idle() };
    assert_eq!(drive(&controls), vec![Command::Accelerate { axis: Axis::Normal, gain: -40 }]);
}

#[test]
fn jump_is_a_unit_impulse_upwards() {
    let controls = Controls { jump: true, ..idle() };
    assert_eq!(drive(&controls), vec![Command::Impulse { axis: Axis::Up, strength: 1 }]);
}

#[test]
fn everything_held_applies_everything_in_order() {
    let controls = Controls {
        strafe_left: true,
        strafe_right: true,
        forward: true,
        backward: true,
        jump: true,
        reset: true,
    };
    assert_eq!(
        drive(&controls),
        vec![
            Command::Accelerate { axis: Axis::Tangent, gain: -40 },
            Command::Accelerate { axis: Axis::Tangent, gain: 40 },
            Command::Accelerate { axis: Axis::Normal, gain: 40 },
            Command::Accelerate { axis: Axis::Normal, gain: -40 },
            Command::Impulse { axis: Axis::Up, strength: 1 },
        ]
    );
}

#[test]
fn opposite_strafes_cancel() {
    let controls = Controls { strafe_left: true, strafe_right: true, forward: true, ..idle() };
    let list = drive(&controls);
    assert_eq!(list.len(), 3);
    assert_eq!(net(&list, Axis::Tangent), 0);
    assert_eq!(net(&list, Axis::Normal), 40);
    assert_eq!(net(&list, Axis::Up), 0);
}

#[test]
fn forward_and_backward_cancel() {
    let controls = Controls { forward: true, backward: true, strafe_right: true, ..idle() };
    let list = drive(&controls);
    assert_eq!(net(&list, Axis::Normal), 0);
    assert_eq!(net(&list, Axis::Tangent), 40);
}

#[test]
fn jump_does_not_depend_on_movement() {
    let controls = Controls { forward: true, jump: true, ..idle() };
    assert_eq!(
        drive(&controls),
        vec![
            Command::Accelerate { axis: Axis::Normal, gain: 40 },
            Command::Impulse { axis: Axis::Up, strength: 1 },
        ]
    );
}

#[test]
fn reset_overwrites_the_state_with_zero() {
    let mut body = moving();
    reset(&Controls { reset: true, ..idle() }, &mut body, [0.0; 3]);
    assert_eq!(body.position, [0.0, 0.0, 0.0]);
    assert_eq!(body.linear_velocity, [0.0, 0.0, 0.0]);
    assert_eq!(body.angular_velocity, [0.0, 0.0, 0.0]);
}

#[test]
fn reset_twice_is_reset_once() {
    let held = Controls { reset: true, ..idle() };
    let mut once = moving();
    reset(&held, &mut once, [0.0; 3]);
    let mut twice = moving();
    reset(&held, &mut twice, [0.0; 3]);
    reset(&held, &mut twice, [0.0; 3]);
    assert_eq!(once, twice);
}

#[test]
fn without_reset_the_body_is_left_alone() {
    let mut body = moving();
    let controls = Controls { forward: true, jump: true, ..idle() };
    reset(&controls, &mut body, [0.0; 3]);
    assert_eq!(body, moving());
}

#[test]
fn reset_ignores_the_other_controls() {
    let mut body = moving();
    let controls = Controls { strafe_left: true, jump: true, reset: true, ..idle() };
    reset(&controls, &mut body, [0.0; 3]);
    assert_eq!(
        body,
        Kinematics {
            position: [0.0; 3],
            linear_velocity: [0.0; 3],
            angular_velocity: [0.0; 3],
        }
    );
}

#[test]
fn reset_of_engine_vectors() {
    let mut body = Kinematics {
        position: Vec3::new(-5.0, 2.0, 0.0),
        linear_velocity: Vec3::new(1.0, 0.0, 0.0),
        angular_velocity: Vec3::new(0.0, 1.0, 0.0),
    };
    reset(&Controls { reset: true, ..idle() }, &mut body, Vec3::ZERO);
    assert_eq!(body.position, Vec3::ZERO);
    assert_eq!(body.linear_velocity, Vec3::ZERO);
    assert_eq!(body.angular_velocity, Vec3::ZERO);
}

#[test]
fn frame_resolves_each_axis() {
    let frame = Frame { tangent: [0, 0, 1], normal: [1, 0, 0], up: [0, 1, 0] };
    assert_eq!(frame.along(Axis::Tangent), [0, 0, 1]);
    assert_eq!(frame.along(Axis::Normal), [1, 0, 0]);
    assert_eq!(frame.along(Axis::Up), [0, 1, 0]);
}

#[test]
fn commands_scale_the_frame() {
    let frame = Frame { tangent: Vec3::Z, normal: Vec3::X, up: Vec3::Y };
    let controls = Controls { strafe_left: true, forward: true, jump: true, ..idle() };
    let mut acceleration = Vec3::ZERO;
    let mut impulse = Vec3::ZERO;
    for command in drive(&controls) {
        match command {
            Command::Accelerate { axis, gain } => acceleration += gain as f32 * frame.along(axis),
            Command::Impulse { axis, strength } => impulse += strength as f32 * frame.along(axis),
        }
    }
    assert_eq!(acceleration, Vec3::new(40.0, 0.0, -40.0));
    assert_eq!(impulse, Vec3::new(0.0, 1.0, 0.0));
}

#[test]
fn opposite_strafes_leave_no_tangential_acceleration() {
    let frame = Frame { tangent: Vec3::Z, normal: Vec3::X, up: Vec3::Y };
    let controls = Controls { strafe_left: true, strafe_right: true, ..idle() };
    let mut acceleration = Vec3::ZERO;
    for command in drive(&controls) {
        if let Command::Accelerate { axis, gain } = command {
            acceleration += gain as f32 * frame.along(axis);
        }
    }
    assert_eq!(acceleration, Vec3::ZERO);
}

#[test]
fn degenerate_direction_falls_back() {
    assert_eq!(direction_or(Vec3::ZERO.try_normalize(), Vec3::X), Vec3::new(1.0, 0.0, 0.0));
    assert_eq!(direction_or(None, [1, 0, 0]), [1, 0, 0]);
}

#[test]
fn found_direction_is_kept() {
    let heading = Vec3::new(0.0, 0.0, -3.0).try_normalize();
    assert_eq!(direction_or(heading, Vec3::X), Vec3::new(0.0, 0.0, -1.0));
    assert_eq!(direction_or(Some([0, 0, 1]), [1, 0, 0]), [0, 0, 1]);
}
