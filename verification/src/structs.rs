//! The entities of the scene and their invariants.
//!
//! The scene owns every entity by value. The player refers to at most one
//! ledge through its id, never through a pointer; the id is resolved by
//! lookup each tick and a failed lookup degrades gracefully. Ledge ids are
//! unique, which the scene enforces at construction time by handing them out
//! from a counter.

use vstd::prelude::*;

use crate::vec2::Vec2;

verus! {

/// The player-controlled entity. `attach_point` caches the position of the
/// ledge currently or most recently targeted; `closest_distance` is the last
/// computed nearest-ledge distance, a scratch value.
#[derive(Clone, Copy, Debug)]
pub struct Player {
    pub position: Vec2,
    pub velocity: Vec2,
    pub attached: bool,
    pub swinging: bool,
    pub attached_ledge_id: Option<u32>,
    pub attach_point: Vec2,
    pub closest_distance: i64,
}

/// A static attachment point. `distance_from_player` is a derived cache,
/// recomputed every tick by the proximity scan.
#[derive(Clone, Copy, Debug)]
pub struct Ledge {
    pub distance_from_player: i64,
    pub id: u32,
    pub position: Vec2,
}

/// A static obstacle; `top` says which half of a gap pair it is.
#[derive(Clone, Copy, Debug)]
pub struct Pipe {
    pub top: bool,
    pub position: Vec2,
}

/// The rope's endpoints, mirrors of the player position and the active
/// attachment point.
#[derive(Clone, Copy, Debug)]
pub struct Rope {
    pub start: Vec2,
    pub end: Vec2,
}

/// The follow camera.
#[derive(Clone, Copy, Debug)]
pub struct Camera {
    pub position: Vec2,
}

/// The player's state-machine invariant: swinging implies attached, and a
/// detached player holds no ledge reference.
pub open spec fn player_inv(p: Player) -> bool {
    &&& p.swinging ==> p.attached
    &&& !p.attached ==> p.attached_ledge_id is None
}

/// Every ledge id was handed out below the scene's counter.
pub open spec fn ledge_ids_bounded(ledges: Seq<Ledge>, next: u32) -> bool {
    forall|i: int| 0 <= i < ledges.len() ==> ledges[i].id < next
}

/// Every ledge position lies within the coordinate bound a tick accepts.
pub open spec fn ledges_pos_ok(ledges: Seq<Ledge>) -> bool {
    forall|i: int| 0 <= i < ledges.len() ==> crate::vec2::pos_ok(ledges[i].position)
}

/// No two ledges share an id.
pub open spec fn ledge_ids_unique(ledges: Seq<Ledge>) -> bool {
    forall|i: int, j: int|
        0 <= i < j < ledges.len() ==> ledges[i].id != ledges[j].id
}

/// The full set of live entities. The singletons are optional so that a
/// half-bootstrapped scene is representable; every per-tick stage treats a
/// missing singleton as a no-op.
pub struct Scene {
    pub player: Option<Player>,
    pub camera: Option<Camera>,
    pub rope: Option<Rope>,
    pub rope_visible: bool,
    pub ledges: Vec<Ledge>,
    pub pipes: Vec<Pipe>,
    pub next_ledge_id: u32,
}

impl Scene {
    /// Scene well-formedness: unique ledge ids and a player that satisfies
    /// its state-machine invariant.
    pub open spec fn wf(self) -> bool {
        &&& ledge_ids_bounded(self.ledges@, self.next_ledge_id)
        &&& ledge_ids_unique(self.ledges@)
        &&& match self.player {
            Some(p) => player_inv(p) && self.rope_visible == p.attached,
            None => true,
        }
    }

    /// An empty scene, before any entity is spawned.
    pub fn new() -> (s: Scene)
        ensures
            s.wf(),
            s.player is None,
            s.camera is None,
            s.rope is None,
            !s.rope_visible,
            s.ledges@ =~= Seq::<Ledge>::empty(),
            s.pipes@ =~= Seq::<Pipe>::empty(),
            s.next_ledge_id == 0,
    {
        Scene {
            player: None,
            camera: None,
            rope: None,
            rope_visible: false,
            ledges: Vec::new(),
            pipes: Vec::new(),
            next_ledge_id: 0,
        }
    }

    /// Place the player at `position` in its initial free-fall state; the
    /// rope starts hidden because the player starts detached.
    pub fn add_player(&mut self, position: Vec2)
        requires
            old(self).wf(),
        ensures
            final(self).wf(),
            final(self).player == Some(initial_player(position)),
            final(self).camera == old(self).camera,
            final(self).rope == old(self).rope,
            !final(self).rope_visible,
            final(self).ledges@ == old(self).ledges@,
            final(self).pipes@ == old(self).pipes@,
            final(self).next_ledge_id == old(self).next_ledge_id,
    {
        self.rope_visible = false;
        self.player = Some(
            Player {
                position,
                velocity: Vec2::zero(),
                attached: false,
                swinging: false,
                attached_ledge_id: None,
                attach_point: Vec2 { x: 0, y: 0 },
                closest_distance: i64::MAX,
            },
        );
    }

    /// Spawn a ledge at `position` under a fresh id, which is returned.
    pub fn add_ledge(&mut self, position: Vec2) -> (id: u32)
        requires
            old(self).wf(),
            old(self).next_ledge_id < u32::MAX,
        ensures
            final(self).wf(),
            id == old(self).next_ledge_id,
            final(self).next_ledge_id == old(self).next_ledge_id + 1,
            final(self).ledges@ == old(self).ledges@.push(
                Ledge { distance_from_player: 0, id, position },
            ),
            final(self).player == old(self).player,
            final(self).camera == old(self).camera,
            final(self).rope == old(self).rope,
            final(self).rope_visible == old(self).rope_visible,
            final(self).pipes@ == old(self).pipes@,
    {
        let id = self.next_ledge_id;
        self.ledges.push(Ledge { distance_from_player: 0, id, position });
        self.next_ledge_id = id + 1;
        proof {
            assert forall|i: int, j: int|
                0 <= i < j < self.ledges@.len() implies self.ledges@[i].id
                != self.ledges@[j].id by {
                if j == self.ledges@.len() - 1 {
                    assert(old(self).ledges@[i].id < id);
                }
            }
        }
        id
    }

    /// Spawn a pipe half at `position`.
    pub fn add_pipe(&mut self, top: bool, position: Vec2)
        requires
            old(self).wf(),
        ensures
            final(self).wf(),
            final(self).pipes@ == old(self).pipes@.push(Pipe { top, position }),
            final(self).player == old(self).player,
            final(self).camera == old(self).camera,
            final(self).rope == old(self).rope,
            final(self).rope_visible == old(self).rope_visible,
            final(self).ledges@ == old(self).ledges@,
            final(self).next_ledge_id == old(self).next_ledge_id,
    {
        self.pipes.push(Pipe { top, position });
    }

    /// Place the camera at `position`.
    pub fn add_camera(&mut self, position: Vec2)
        requires
            old(self).wf(),
        ensures
            final(self).wf(),
            final(self).camera == Some(Camera { position }),
            final(self).player == old(self).player,
            final(self).rope == old(self).rope,
            final(self).rope_visible == old(self).rope_visible,
            final(self).ledges@ == old(self).ledges@,
            final(self).pipes@ == old(self).pipes@,
            final(self).next_ledge_id == old(self).next_ledge_id,
    {
        self.camera = Some(Camera { position });
    }

    /// Place the rope with the given endpoints; it is visible exactly if an
    /// attached player is present.
    pub fn add_rope(&mut self, start: Vec2, end: Vec2)
        requires
            old(self).wf(),
        ensures
            final(self).wf(),
            final(self).rope == Some(Rope { start, end }),
            final(self).rope_visible == (match old(self).player {
                Some(p) => p.attached,
                None => false,
            }),
            final(self).player == old(self).player,
            final(self).camera == old(self).camera,
            final(self).ledges@ == old(self).ledges@,
            final(self).pipes@ == old(self).pipes@,
            final(self).next_ledge_id == old(self).next_ledge_id,
    {
        self.rope = Some(Rope { start, end });
        let vis = match &self.player {
            Some(p) => p.attached,
            None => false,
        };
        self.rope_visible = vis;
    }
}

/// The player's state at scene start: free-falling, no target, scratch
/// distance at its sentinel maximum.
pub open spec fn initial_player(position: Vec2) -> Player {
    Player {
        position,
        velocity: Vec2 { x: 0, y: 0 },
        attached: false,
        swinging: false,
        attached_ledge_id: None,
        attach_point: Vec2 { x: 0, y: 0 },
        closest_distance: i64::MAX,
    }
}

} // verus!
