use vstd::prelude::*;
use crate::direction::Direction;

verus! {

/// Locomotion status of a character.
#[derive(Clone, Copy, Debug, PartialEq, Eq, Structural)]
pub enum Status {
    Idle,
    Walk,
}

/// The drawn pose: Left and Right share the lateral pose, told apart by
/// mirroring; Up shows the back and Down the front.
#[derive(Clone, Copy, Debug, PartialEq, Eq, Structural)]
pub enum Pose {
    Side,
    Back,
    Front,
}

/// A clip to play, and whether to mirror it horizontally.
#[derive(Clone, Copy, Debug, PartialEq, Eq, Structural)]
pub struct AnimationRequest {
    pub pose: Pose,
    pub gait: Status,
    pub mirrored: bool,
}

/// What the selector hands back: the clip request and the facing to remember.
#[derive(Clone, Copy, Debug, PartialEq, Eq, Structural)]
pub struct Selection {
    pub request: AnimationRequest,
    pub memory: Direction,
}

pub open spec fn pose_of(d: Direction) -> Pose {
    match d {
        Direction::Left | Direction::Right => Pose::Side,
        Direction::Up => Pose::Back,
        Direction::Down | Direction::Idle => Pose::Front,
    }
}

/// The remembered facing after a direction is resolved: a real facing
/// replaces it, `Idle` keeps it.
pub open spec fn next_memory(memory: Direction, d: Direction) -> Direction {
    if d == Direction::Idle {
        memory
    } else {
        d
    }
}

/// The selector's result. The character faces `d`, or the remembered facing
/// when `d` is `Idle`; it walks only when it has a real facing and is moving.
pub open spec fn selection_of(d: Direction, status: Status, memory: Direction) -> Selection {
    let facing = next_memory(memory, d);
    Selection {
        request: AnimationRequest {
            pose: pose_of(facing),
            gait: if d != Direction::Idle && status == Status::Walk {
                Status::Walk
            } else {
                Status::Idle
            },
            mirrored: facing == Direction::Left,
        },
        memory: facing,
    }
}

pub open spec fn clip_text(pose: Pose, gait: Status) -> &'static str {
    match (pose, gait) {
        (Pose::Side, Status::Idle) => "side_idle",
        (Pose::Side, Status::Walk) => "side_walk",
        (Pose::Back, Status::Idle) => "back_idle",
        (Pose::Back, Status::Walk) => "back_walk",
        (Pose::Front, Status::Idle) => "front_idle",
        (Pose::Front, Status::Walk) => "front_walk",
    }
}

fn pose_for(d: Direction) -> (p: Pose)
    ensures
        p == pose_of(d),
{
    match d {
        Direction::Left | Direction::Right => Pose::Side,
        Direction::Up => Pose::Back,
        Direction::Down | Direction::Idle => Pose::Front,
    }
}

/// Chooses the clip for a resolved direction and locomotion status, given the
/// last real facing; returns the request and the facing to remember.
pub fn select(d: Direction, status: Status, memory: Direction) -> (s: Selection)
    ensures
        s == selection_of(d, status, memory),
        d == Direction::Idle ==> s.memory == memory && s.request.gait == Status::Idle,
        d != Direction::Idle ==> s.memory == d,
{
    let facing = if d.is_facing() {
        d
    } else {
        memory
    };
    let walking = d.is_facing() && matches!(status, Status::Walk);
    Selection {
        request: AnimationRequest {
            pose: pose_for(facing),
            gait: if walking {
                Status::Walk
            } else {
                Status::Idle
            },
            mirrored: matches!(facing, Direction::Left),
        },
        memory: facing,
    }
}

impl AnimationRequest {
    /// The name of the clip to play.
    pub fn clip_name(&self) -> (name: &'static str)
        ensures
            name == clip_text(self.pose, self.gait),
    {
        match (self.pose, self.gait) {
            (Pose::Side, Status::Idle) => "side_idle",
            (Pose::Side, Status::Walk) => "side_walk",
            (Pose::Back, Status::Idle) => "back_idle",
            (Pose::Back, Status::Walk) => "back_walk",
            (Pose::Front, Status::Idle) => "front_idle",
            (Pose::Front, Status::Walk) => "front_walk",
        }
    }
}

/// The facing remembered after resolving `ds` in order, from `memory`.
pub open spec fn memory_after(memory: Direction, ds: Seq<Direction>) -> Direction
    decreases ds.len(),
{
    if ds.len() == 0 {
        memory
    } else {
        memory_after(next_memory(memory, ds[0]), ds.skip(1))
    }
}

/// The selector is a function of its inputs: two calls with the same
/// direction, status and memory give the same clip, mirroring and memory.
pub proof fn lemma_select_deterministic(d: Direction, status: Status, memory: Direction)
    ensures
        selection_of(d, status, memory) == selection_of(d, status, memory),
        selection_of(d, status, memory).memory == next_memory(memory, d),
{
}

/// Resolving a sequence remembers its last real facing; where the sequence
/// has none, the memory it started from stays.
pub proof fn lemma_memory_tracks_last_facing(memory: Direction, ds: Seq<Direction>)
    ensures
        forall|i: int|
            0 <= i < ds.len() && ds[i] != Direction::Idle && (forall|j: int|
                i < j < ds.len() ==> ds[j] == Direction::Idle) ==> memory_after(memory, ds)
                == ds[i],
        (forall|j: int| 0 <= j < ds.len() ==> ds[j] == Direction::Idle) ==> memory_after(
            memory,
            ds,
        ) == memory,
    decreases ds.len(),
{
    if ds.len() > 0 {
        let m1 = next_memory(memory, ds[0]);
        let rest = ds.skip(1);
        lemma_memory_tracks_last_facing(m1, rest);
        assert forall|i: int|
            0 <= i < ds.len() && ds[i] != Direction::Idle && (forall|j: int|
                i < j < ds.len() ==> ds[j] == Direction::Idle) implies memory_after(memory, ds)
            == ds[i] by {
            if i == 0 {
                assert forall|j: int| 0 <= j < rest.len() implies rest[j] == Direction::Idle by {
                    assert(rest[j] == ds[j + 1]);
                }
            } else {
                assert(rest[i - 1] == ds[i]);
                assert forall|j: int| i - 1 < j < rest.len() implies rest[j] == Direction::Idle by {
                    assert(rest[j] == ds[j + 1]);
                }
            }
        }
        if forall|j: int| 0 <= j < ds.len() ==> ds[j] == Direction::Idle {
            assert(ds[0] == Direction::Idle);
            assert forall|j: int| 0 <= j < rest.len() implies rest[j] == Direction::Idle by {
                assert(rest[j] == ds[j + 1]);
            }
        }
    }
}

/// After a sequence of resolved directions that ends in `Idle`, the selector
/// shows the idle clip of the last real facing in the sequence, mirrored
/// exactly when that facing is Left.
pub proof fn lemma_idle_clip_follows_last_facing(
    memory: Direction,
    ds: Seq<Direction>,
    i: int,
    status: Status,
)
    requires
        0 <= i < ds.len(),
        ds[i] != Direction::Idle,
        forall|j: int| i < j < ds.len() ==> ds[j] == Direction::Idle,
        ds.last() == Direction::Idle,
    ensures
        ({
            let s = selection_of(Direction::Idle, status, memory_after(memory, ds.drop_last()));
            s.request.pose == pose_of(ds[i]) && s.request.gait == Status::Idle
                && s.request.mirrored == (ds[i] == Direction::Left)
        }),
{
    let prefix = ds.drop_last();
    lemma_memory_tracks_last_facing(memory, prefix);
    assert(i < ds.len() - 1);
    assert(prefix[i] == ds[i]);
    assert forall|j: int| i < j < prefix.len() implies prefix[j] == Direction::Idle by {
        assert(prefix[j] == ds[j]);
    }
}

} // verus!
