//! The orbiting follow camera: which body each camera tracks, how the shared
//! registry retargets the cameras every tick, and which cameras get a new pose.
//!
//! The pose itself (target position plus orientation times distance) is computed
//! by the caller in the engine's own number type; this module decides for which
//! cameras that happens.

use vstd::prelude::*;
use bevy::ecs::entity::Entity;

verus! {

/// `bevy::ecs::entity::Entity`: an opaque handle to a body in the scene. It is only
/// stored, copied and handed back; nothing is assumed of what it holds.
#[verifier::external_type_specification]
#[verifier::external_body]
pub struct ExEntity(Entity);

/// The follow state of one orbit camera.
#[derive(Clone, Copy, Debug)]
pub struct FollowCamera {
    entity: Option<Entity>,
}

/// The process-wide slot that names the body every camera is to follow.
#[derive(Clone, Copy, Debug)]
pub struct GlobalFollow(pub Option<Entity>);

/// What pose resolution does with one camera in one tick.
#[derive(Clone, Copy, Debug, PartialEq, Eq, Structural)]
pub enum PoseStep {
    /// The camera tracks nothing: its transform is left as it is.
    Skip,
    /// The tracked body is gone: resolution ends for this tick.
    Abort,
    /// The camera is placed relative to the tracked body and turned towards it.
    Place,
}

impl Default for FollowCamera {
    /// A camera that tracks nothing yet.
    fn default() -> (camera: Self)
        ensures
            camera.followed().is_none(),
    {
        FollowCamera { entity: None }
    }
}

impl FollowCamera {
    /// The body the camera currently tracks, if any.
    pub closed spec fn followed(&self) -> Option<Entity> {
        self.entity
    }

    /// Starts tracking `entity`, whatever was tracked before.
    pub fn follow(&mut self, entity: Entity)
        ensures
            final(self).followed() == Some(entity),
    {
        self.entity = Some(entity);
    }

    /// Stops tracking.
    pub fn unfollow(&mut self)
        ensures
            final(self).followed().is_none(),
    {
        self.entity = None;
    }

    /// The body the camera currently tracks, if any.
    pub fn following(&self) -> (target: Option<Entity>)
        ensures
            target == self.followed(),
    {
        self.entity
    }

    /// What pose resolution does with this camera, given whether the engine still
    /// has a position for the body it tracks.
    pub open spec fn step(&self, target_present: bool) -> PoseStep {
        if self.followed().is_none() {
            PoseStep::Skip
        } else if target_present {
            PoseStep::Place
        } else {
            PoseStep::Abort
        }
    }

    /// Decides this camera's part in pose resolution. `target_present` says whether
    /// the engine still has a position for the tracked body; it is not looked at
    /// when the camera tracks nothing.
    pub fn pose_step(&self, target_present: bool) -> (step: PoseStep)
        ensures
            step == self.step(target_present),
            self.followed().is_none() ==> step == PoseStep::Skip,
    {
        match self.entity {
            None => PoseStep::Skip,
            Some(_) => if target_present {
                PoseStep::Place
            } else {
                PoseStep::Abort
            },
        }
    }
}

impl GlobalFollow {
    /// The body the registry names, if any.
    pub open spec fn target(&self) -> Option<Entity> {
        self.0
    }
}

/// The body that a tick assigns to every camera: the one the registry names, or
/// none where the registry is absent or empty.
pub open spec fn assigned(registry: Option<GlobalFollow>) -> Option<Entity> {
    match registry {
        Some(slot) => slot.target(),
        None => None,
    }
}

/// Reads the registry, which may be absent.
pub fn registry_target(registry: Option<GlobalFollow>) -> (target: Option<Entity>)
    ensures
        target == assigned(registry),
{
    match registry {
        Some(slot) => slot.0,
        None => None,
    }
}

/// What target resolution makes of the cameras `before` in one tick: there are
/// as many `after`; where the registry names a body, every camera tracks it;
/// where the registry is absent or empty, every camera is as it was.
pub open spec fn retargets(
    before: Seq<FollowCamera>,
    registry: Option<GlobalFollow>,
    after: Seq<FollowCamera>,
) -> bool {
    &&& after.len() == before.len()
    &&& assigned(registry).is_none() ==> after == before
    &&& assigned(registry).is_some() ==> forall|i: int|
        0 <= i < after.len() ==> (#[trigger] after[i]).followed() == assigned(registry)
}

/// Target resolution for one tick: where the registry names a body, every camera
/// is made to track it, whatever it tracked before; where the registry is absent
/// or empty, no camera changes.
pub fn update_follow(cameras: &mut Vec<FollowCamera>, registry: Option<GlobalFollow>)
    ensures
        retargets(old(cameras)@, registry, final(cameras)@),
{
    let Some(entity) = registry_target(registry) else {
        return ;
    };
    let count: usize = cameras.len();
    let mut i: usize = 0;
    while i < count
        invariant
            i <= count,
            cameras@.len() == count,
            forall|j: int| 0 <= j < i ==> (#[trigger] cameras@[j]).followed() == Some(entity),
        decreases count - i,
    {
        cameras[i].follow(entity);
        i += 1;
    }
}

/// Whether the engine still has a position for the body that camera `i` tracks.
/// A camera for which nothing was reported counts as having lost its body.
pub open spec fn present_at(present: Seq<bool>, i: int) -> bool {
    0 <= i < present.len() && present[i]
}

/// What pose resolution does with camera `i` when it comes to it.
pub open spec fn step_at(cameras: Seq<FollowCamera>, present: Seq<bool>, i: int) -> PoseStep {
    cameras[i].step(present_at(present, i))
}

/// Pose resolution comes to camera `i`: no camera before it has lost its body.
pub open spec fn reached(cameras: Seq<FollowCamera>, present: Seq<bool>, i: int) -> bool {
    forall|j: int| 0 <= j < i ==> #[trigger] step_at(cameras, present, j) != PoseStep::Abort
}

/// Camera `i` gets a new pose in this tick.
pub open spec fn placed(cameras: Seq<FollowCamera>, present: Seq<bool>, i: int) -> bool {
    &&& 0 <= i < cameras.len()
    &&& reached(cameras, present, i)
    &&& step_at(cameras, present, i) == PoseStep::Place
}

/// Pose resolution for one tick. The cameras are taken in order: one that tracks
/// nothing is passed over, one whose body is still present gets a new pose, and
/// the first whose body is gone ends the resolution, so that it and the cameras
/// after it keep their pose. `present[i]` says whether the engine still has a
/// position for the body that camera `i` tracks. The result lists, in increasing
/// order, the cameras to place.
pub fn resolve_poses(cameras: &Vec<FollowCamera>, present: &Vec<bool>) -> (moved: Vec<usize>)
    ensures
        forall|a: int, b: int| 0 <= a < b < moved@.len() ==> moved@[a] < moved@[b],
        forall|k: int| 0 <= k < moved@.len() ==> placed(cameras@, present@, #[trigger] moved@[k] as int),
        forall|i: int| #[trigger]
            placed(cameras@, present@, i) ==> exists|k: int|
                0 <= k < moved@.len() && moved@[k] == i,
        forall|k: int| 0 <= k < moved@.len() ==> cameras@[#[trigger] moved@[k] as int].followed().is_some(),
{
    let mut moved: Vec<usize> = Vec::new();
    let mut i: usize = 0;
    while i < cameras.len()
        invariant
            i <= cameras@.len(),
            reached(cameras@, present@, i as int),
            forall|a: int, b: int| 0 <= a < b < moved@.len() ==> moved@[a] < moved@[b],
            forall|k: int| 0 <= k < moved@.len() ==> moved@[k] < i,
            forall|k: int| 0 <= k < moved@.len() ==> placed(cameras@, present@, #[trigger] moved@[k] as int),
            forall|j: int| 0 <= j < i && #[trigger] placed(cameras@, present@, j) ==> exists|k: int|
                0 <= k < moved@.len() && moved@[k] == j,
        decreases cameras@.len() - i,
    {
        let target_present = i < present.len() && present[i];
        match cameras[i].pose_step(target_present) {
            PoseStep::Skip => {},
            PoseStep::Abort => {
                assert(step_at(cameras@, present@, i as int) == PoseStep::Abort);
                return moved;
            },
            PoseStep::Place => {
                let ghost before = moved@;
                moved.push(i);
                assert forall|j: int|
                    0 <= j < i + 1 && #[trigger] placed(cameras@, present@, j) implies exists|k: int|
                    0 <= k < moved@.len() && moved@[k] == j by {
                    if j < i {
                        let k = choose|k: int| 0 <= k < before.len() && before[k] == j;
                        assert(moved@[k] == j);
                    } else {
                        assert(moved@[before.len() as int] == i);
                    }
                }
            },
        }
        i += 1;
    }
    moved
}

/// The registry is not sticky: after two ticks in a row every camera tracks the
/// body that the registry names in the second, whatever it named in the first
/// and whatever the cameras tracked before.
pub proof fn lemma_registry_overwrites_every_tick(
    before: Seq<FollowCamera>,
    first: Option<GlobalFollow>,
    between: Seq<FollowCamera>,
    second: Option<GlobalFollow>,
    after: Seq<FollowCamera>,
)
    requires
        retargets(before, first, between),
        retargets(between, second, after),
        assigned(second).is_some(),
    ensures
        after.len() == before.len(),
        forall|i: int| 0 <= i < after.len() ==> (#[trigger] after[i]).followed() == assigned(second),
{
}

/// A camera that tracks nothing keeps its pose, whatever the other cameras track
/// and whatever the engine reports.
pub proof fn lemma_idle_camera_keeps_pose(cameras: Seq<FollowCamera>, present: Seq<bool>, i: int)
    requires
        0 <= i < cameras.len(),
        cameras[i].followed().is_none(),
    ensures
        !placed(cameras, present, i),
        step_at(cameras, present, i) == PoseStep::Skip,
{
}

} // verus!
