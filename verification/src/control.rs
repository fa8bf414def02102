//! The player controller: which accelerations and impulses the held controls ask
//! for in one tick, and the reset that overwrites a body's kinematic state.
//!
//! Directions are named by axis, relative to the body's horizontal heading; gains
//! are whole numbers. The caller resolves an axis to a unit vector in the engine's
//! own vector type and scales it by the gain.

use vstd::prelude::*;
use crate::direction::Axis;

verus! {

/// Magnitude of the linear acceleration that one held movement control applies.
pub const ACCELERATION: i32 = 40;

/// Magnitude of the linear impulse that a fresh press of the jump control applies.
pub const JUMP_IMPULSE: i32 = 1;

/// The controls as sampled for one tick. The four movement controls and `reset`
/// say whether the control is held; `jump` says whether it was pressed in this
/// tick and not before.
#[derive(Clone, Copy, Debug, PartialEq, Eq, Structural)]
pub struct Controls {
    pub strafe_left: bool,
    pub strafe_right: bool,
    pub forward: bool,
    pub backward: bool,
    pub jump: bool,
    pub reset: bool,
}

/// One thing the controller asks the engine to do to a body.
#[derive(Clone, Copy, Debug, PartialEq, Eq, Structural)]
pub enum Command {
    /// Apply the linear acceleration `gain` times the unit vector of `axis`.
    Accelerate { axis: Axis, gain: i32 },
    /// Apply once the linear impulse `strength` times the unit vector of `axis`.
    Impulse { axis: Axis, strength: i32 },
}

/// The three vectors of a body's kinematic state, in the engine's vector type.
#[derive(Debug, PartialEq)]
pub struct Kinematics<V> {
    pub position: V,
    pub linear_velocity: V,
    pub angular_velocity: V,
}

/// The command of one control, where it is active, and nothing where it is not.
pub open spec fn when(active: bool, command: Command) -> Seq<Command> {
    if active {
        seq![command]
    } else {
        Seq::empty()
    }
}

/// The commands of one tick, in the order in which they are applied: strafe left,
/// strafe right, forward, backward, jump. Every active control contributes its
/// command, whatever else is active.
pub open spec fn commands(controls: Controls) -> Seq<Command> {
    when(
        controls.strafe_left,
        Command::Accelerate { axis: Axis::Tangent, gain: (-ACCELERATION) as i32 },
    )
        + when(controls.strafe_right, Command::Accelerate { axis: Axis::Tangent, gain: ACCELERATION })
        + when(controls.forward, Command::Accelerate { axis: Axis::Normal, gain: ACCELERATION })
        + when(
        controls.backward,
        Command::Accelerate { axis: Axis::Normal, gain: (-ACCELERATION) as i32 },
    )
        + when(controls.jump, Command::Impulse { axis: Axis::Up, strength: JUMP_IMPULSE })
}

/// What one command adds to the acceleration along `axis`.
pub open spec fn gain_along(command: Command, axis: Axis) -> int {
    match command {
        Command::Accelerate { axis: a, gain } => if a == axis {
            gain as int
        } else {
            0
        },
        Command::Impulse { .. } => 0,
    }
}

/// The sum of the accelerations that `list` applies along `axis`.
pub open spec fn net_acceleration(list: Seq<Command>, axis: Axis) -> int
    decreases list.len(),
{
    if list.len() == 0 {
        0
    } else {
        net_acceleration(list.drop_last(), axis) + gain_along(list.last(), axis)
    }
}

/// 1 where `held`, else 0.
pub open spec fn unit(held: bool) -> int {
    if held {
        1
    } else {
        0
    }
}

/// The commands that the controls ask for in one tick.
pub fn drive(controls: &Controls) -> (list: Vec<Command>)
    ensures
        list@ == commands(*controls),
{
    let mut list: Vec<Command> = Vec::new();
    if controls.strafe_left {
        list.push(Command::Accelerate { axis: Axis::Tangent, gain: -ACCELERATION });
    }
    if controls.strafe_right {
        list.push(Command::Accelerate { axis: Axis::Tangent, gain: ACCELERATION });
    }
    if controls.forward {
        list.push(Command::Accelerate { axis: Axis::Normal, gain: ACCELERATION });
    }
    if controls.backward {
        list.push(Command::Accelerate { axis: Axis::Normal, gain: -ACCELERATION });
    }
    if controls.jump {
        list.push(Command::Impulse { axis: Axis::Up, strength: JUMP_IMPULSE });
    }
    assert(list@ =~= commands(*controls));
    list
}

/// The body's state after the reset command: unchanged where `reset` is not held;
/// else all three vectors are `zero`.
pub open spec fn after_reset<V>(reset: bool, body: Kinematics<V>, zero: V) -> Kinematics<V> {
    if reset {
        Kinematics { position: zero, linear_velocity: zero, angular_velocity: zero }
    } else {
        body
    }
}

/// The reset command. While the reset control is held, the body's position,
/// linear velocity and angular velocity are overwritten with `zero`, the zero
/// vector of the engine, in one write; no force or impulse is involved. Without
/// the control the body is left as it is.
pub fn reset<V: Copy>(controls: &Controls, body: &mut Kinematics<V>, zero: V)
    ensures
        *final(body) == after_reset(controls.reset, *old(body), zero),
{
    if controls.reset {
        body.position = zero;
        body.linear_velocity = zero;
        body.angular_velocity = zero;
    }
}

/// The accelerations of two lists applied one after the other add up.
pub proof fn lemma_net_acceleration_concat(first: Seq<Command>, second: Seq<Command>, axis: Axis)
    ensures
        net_acceleration(first + second, axis) == net_acceleration(first, axis) + net_acceleration(
            second,
            axis,
        ),
    decreases second.len(),
{
    if second.len() == 0 {
        assert(first + second =~= first);
    } else {
        assert((first + second).drop_last() =~= first + second.drop_last());
        assert((first + second).last() == second.last());
        lemma_net_acceleration_concat(first, second.drop_last(), axis);
    }
}

/// What a single control contributes along `axis`.
proof fn lemma_net_acceleration_when(active: bool, command: Command, axis: Axis)
    ensures
        net_acceleration(when(active, command), axis) == unit(active) * gain_along(command, axis),
{
    if active {
        let list = when(active, command);
        assert(list.drop_last() =~= Seq::<Command>::empty());
        assert(list.last() == command);
        assert(net_acceleration(list.drop_last(), axis) == 0);
    }
}

/// Held controls add up, with no mutual exclusion: along the tangent the net
/// acceleration of a tick is the gain times (strafe right minus strafe left),
/// along the heading it is the gain times (forward minus backward), and along the
/// vertical it is zero.
pub proof fn lemma_net_acceleration(controls: Controls)
    ensures
        net_acceleration(commands(controls), Axis::Tangent) == ACCELERATION * (unit(
            controls.strafe_right,
        ) - unit(controls.strafe_left)),
        net_acceleration(commands(controls), Axis::Normal) == ACCELERATION * (unit(
            controls.forward,
        ) - unit(controls.backward)),
        net_acceleration(commands(controls), Axis::Up) == 0,
{
    let left = Command::Accelerate { axis: Axis::Tangent, gain: (-ACCELERATION) as i32 };
    let right = Command::Accelerate { axis: Axis::Tangent, gain: ACCELERATION };
    let ahead = Command::Accelerate { axis: Axis::Normal, gain: ACCELERATION };
    let back = Command::Accelerate { axis: Axis::Normal, gain: (-ACCELERATION) as i32 };
    let jump = Command::Impulse { axis: Axis::Up, strength: JUMP_IMPULSE };
    let a = when(controls.strafe_left, left);
    let b = when(controls.strafe_right, right);
    let c = when(controls.forward, ahead);
    let d = when(controls.backward, back);
    let e = when(controls.jump, jump);
    assert(commands(controls) == a + b + c + d + e);
    assert forall|axis: Axis|
        net_acceleration(commands(controls), axis) == net_acceleration(a, axis) + net_acceleration(
            b,
            axis,
        ) + net_acceleration(c, axis) + net_acceleration(d, axis) + net_acceleration(e, axis) by {
        lemma_net_acceleration_concat(a, b, axis);
        lemma_net_acceleration_concat(a + b, c, axis);
        lemma_net_acceleration_concat(a + b + c, d, axis);
        lemma_net_acceleration_concat(a + b + c + d, e, axis);
    }
    assert forall|axis: Axis|
        net_acceleration(a, axis) == unit(controls.strafe_left) * gain_along(left, axis)
            && net_acceleration(b, axis) == unit(controls.strafe_right) * gain_along(right, axis)
            && net_acceleration(c, axis) == unit(controls.forward) * gain_along(ahead, axis)
            && net_acceleration(d, axis) == unit(controls.backward) * gain_along(back, axis)
            && net_acceleration(e, axis) == unit(controls.jump) * gain_along(jump, axis) by {
        lemma_net_acceleration_when(controls.strafe_left, left, axis);
        lemma_net_acceleration_when(controls.strafe_right, right, axis);
        lemma_net_acceleration_when(controls.forward, ahead, axis);
        lemma_net_acceleration_when(controls.backward, back, axis);
        lemma_net_acceleration_when(controls.jump, jump, axis);
    }
}

/// Strafe left and strafe right held together cancel: the net acceleration along
/// the tangent is zero, whatever else is held.
pub proof fn lemma_opposite_strafes_cancel(controls: Controls)
    requires
        controls.strafe_left,
        controls.strafe_right,
    ensures
        net_acceleration(commands(controls), Axis::Tangent) == 0,
{
    lemma_net_acceleration(controls);
}

/// The reset command is idempotent: held for two ticks in a row it leaves the
/// state that it leaves after one.
pub proof fn lemma_reset_idempotent<V>(body: Kinematics<V>, zero: V)
    ensures
        after_reset(true, after_reset(true, body, zero), zero) == after_reset(true, body, zero),
        after_reset(true, body, zero).position == zero,
        after_reset(true, body, zero).linear_velocity == zero,
        after_reset(true, body, zero).angular_velocity == zero,
{
}

} // verus!
