//! The entity registry: the bookkeeping that ties robot identities,
//! physics-engine body handles, and collider handles together.
//!
//! Handles are the opaque identifiers the rigid-body engine assigned when
//! the bodies and colliders were created; the registry records them all
//! at once, so a robot's body and collider are registered together or not
//! at all. Its well-formedness demands that no two entities share a
//! handle, which makes every lookup unambiguous.

use crate::field::FieldWallKind;
use vstd::prelude::*;

verus! {

/// What a collider handle observed in a contact event resolves to:
/// a robot (by its index), the ball, a field wall, or nothing known.
#[derive(Debug, Clone, Copy, PartialEq, Eq, Structural)]
pub enum ColliderRole {
    Robot(usize),
    Ball,
    Wall(FieldWallKind),
    Unknown,
}

/// The handle bookkeeping of one match: per-robot body and collider
/// handles (one pair per robot index), the ball's pair, and the wall
/// colliders with their kinds.
#[derive(Debug, Clone)]
pub struct EntityRegistry {
    pub robot_bodies: Vec<u64>,
    pub robot_colliders: Vec<u64>,
    pub ball_body: u64,
    pub ball_collider: u64,
    pub walls: Vec<(u64, FieldWallKind)>,
}

impl EntityRegistry {
    /// No two body handles coincide, the ball's included.
    pub open spec fn bodies_distinct(&self) -> bool {
        &&& forall|i: int, j: int|
            0 <= i < j < self.robot_bodies@.len() ==> self.robot_bodies@[i]
                != self.robot_bodies@[j]
        &&& forall|i: int|
            0 <= i < self.robot_bodies@.len() ==> self.robot_bodies@[i] != self.ball_body
    }

    /// No two collider handles coincide, over robots, ball and walls.
    pub open spec fn colliders_distinct(&self) -> bool {
        &&& forall|i: int, j: int|
            0 <= i < j < self.robot_colliders@.len() ==> self.robot_colliders@[i]
                != self.robot_colliders@[j]
        &&& forall|i: int|
            0 <= i < self.robot_colliders@.len() ==> self.robot_colliders@[i]
                != self.ball_collider
        &&& forall|i: int, j: int|
            0 <= i < j < self.walls@.len() ==> self.walls@[i].0 != self.walls@[j].0
        &&& forall|i: int| 0 <= i < self.walls@.len() ==> self.walls@[i].0 != self.ball_collider
        &&& forall|i: int, j: int|
            0 <= i < self.robot_colliders@.len() && 0 <= j < self.walls@.len()
                ==> self.robot_colliders@[i] != self.walls@[j].0
    }

    /// Well-formedness: one collider per body, and all handles distinct.
    pub open spec fn wf(&self) -> bool {
        &&& self.robot_bodies@.len() == self.robot_colliders@.len()
        &&& self.bodies_distinct()
        &&& self.colliders_distinct()
    }

    /// The number of robots registered.
    pub open spec fn spec_len(&self) -> nat {
        self.robot_bodies@.len()
    }

    /// `c` is registered as a wall collider of kind `k`.
    pub open spec fn is_wall_with(&self, c: u64, k: FieldWallKind) -> bool {
        exists|i: int| 0 <= i < self.walls@.len() && self.walls@[i] == (c, k)
    }

    /// `c` is the collider of the robot with index `i`.
    pub open spec fn is_robot_collider(&self, c: u64, i: int) -> bool {
        0 <= i < self.robot_colliders@.len() && self.robot_colliders@[i] == c
    }

    /// In a well-formed registry a wall collider has one kind only.
    pub proof fn lemma_wall_kind_unique(&self, c: u64, k1: FieldWallKind, k2: FieldWallKind)
        requires
            self.wf(),
            self.is_wall_with(c, k1),
            self.is_wall_with(c, k2),
        ensures
            k1 == k2,
    {
        let i1 = choose|i: int| 0 <= i < self.walls@.len() && self.walls@[i] == (c, k1);
        let i2 = choose|i: int| 0 <= i < self.walls@.len() && self.walls@[i] == (c, k2);
        if i1 < i2 {
            assert(self.walls@[i1].0 != self.walls@[i2].0);
        } else if i2 < i1 {
            assert(self.walls@[i2].0 != self.walls@[i1].0);
        }
    }

    /// The registry bijection: each registered robot resolves from its
    /// body handle back to its own index, and distinct robots never share
    /// a body handle.
    pub proof fn lemma_registry_bijection(&self, i: int, j: int)
        requires
            self.wf(),
            0 <= i < self.spec_len(),
            0 <= j < self.spec_len(),
            i != j,
        ensures
            self.robot_bodies@[i] != self.robot_bodies@[j],
            self.robot_colliders@[i] != self.robot_colliders@[j],
    {
    }

    /// Number of robots registered.
    pub fn len(&self) -> (r: usize)
        ensures
            r == self.spec_len(),
    {
        self.robot_bodies.len()
    }

    /// The body handle of the robot with index `robot_index`. An unknown
    /// index is a programmer error, ruled out by the precondition.
    pub fn body_handle_of(&self, robot_index: usize) -> (r: u64)
        requires
            robot_index < self.spec_len(),
        ensures
            r == self.robot_bodies@[robot_index as int],
    {
        self.robot_bodies[robot_index]
    }

    /// Reverse lookup: the index of the robot whose body handle is
    /// `body`, or `None` when no robot owns it.
    pub fn robot_of_body(&self, body: u64) -> (r: Option<usize>)
        ensures
            r matches Some(i) ==> i < self.spec_len() && self.robot_bodies@[i as int] == body,
            r is None ==> forall|i: int|
                0 <= i < self.spec_len() ==> self.robot_bodies@[i] != body,
            self.wf() ==> (r is Some <==> exists|i: int|
                0 <= i < self.spec_len() && self.robot_bodies@[i] == body),
    {
        let n: usize = self.robot_bodies.len();
        let mut i: usize = 0;
        while i < n
            invariant
                n == self.spec_len(),
                i <= n,
                forall|j: int| 0 <= j < i ==> self.robot_bodies@[j] != body,
            decreases n - i,
        {
            if self.robot_bodies[i] == body {
                return Some(i);
            }
            i = i + 1;
        }
        None
    }

    /// Classify a collider handle: the robot, the ball, or the wall it
    /// belongs to, or `Unknown` when the registry holds no entry for it.
    /// In a well-formed registry the classification is exact.
    pub fn role_of(&self, c: u64) -> (r: ColliderRole)
        requires
            self.wf(),
        ensures
            r matches ColliderRole::Robot(i) ==> self.is_robot_collider(c, i as int),
            r is Robot <==> exists|i: int| self.is_robot_collider(c, i),
            r is Ball <==> c == self.ball_collider,
            r matches ColliderRole::Wall(k) ==> self.is_wall_with(c, k),
            r is Wall <==> (c != self.ball_collider && !(exists|i: int|
                self.is_robot_collider(c, i)) && exists|k: FieldWallKind| self.is_wall_with(c, k)),
            r is Unknown <==> (c != self.ball_collider && !(exists|i: int|
                self.is_robot_collider(c, i)) && !(exists|k: FieldWallKind|
                self.is_wall_with(c, k))),
    {
        let n: usize = self.robot_colliders.len();
        let mut i: usize = 0;
        while i < n
            invariant
                self.wf(),
                n == self.robot_colliders@.len(),
                i <= n,
                forall|j: int| 0 <= j < i ==> self.robot_colliders@[j] != c,
            decreases n - i,
        {
            if self.robot_colliders[i] == c {
                return ColliderRole::Robot(i);
            }
            i = i + 1;
        }
        if c == self.ball_collider {
            return ColliderRole::Ball;
        }
        let m: usize = self.walls.len();
        let mut j: usize = 0;
        while j < m
            invariant
                self.wf(),
                c != self.ball_collider,
                forall|j: int|
                    0 <= j < self.robot_colliders@.len() ==> self.robot_colliders@[j] != c,
                m == self.walls@.len(),
                j <= m,
                forall|l: int| 0 <= l < j ==> self.walls@[l].0 != c,
            decreases m - j,
        {
            if self.walls[j].0 == c {
                let k: FieldWallKind = self.walls[j].1;
                proof {
                    assert(self.walls@[j as int] == (c, k));
                }
                return ColliderRole::Wall(k);
            }
            j = j + 1;
        }
        proof {
            assert(forall|k: FieldWallKind| !self.is_wall_with(c, k));
        }
        ColliderRole::Unknown
    }

    /// Build a registry from the handles the physics engine assigned.
    /// Succeeds exactly when one collider is given per body and no two
    /// handles coincide; a partial or ambiguous registration yields
    /// `None` and registers nothing.
    pub fn new(
        robot_bodies: Vec<u64>,
        robot_colliders: Vec<u64>,
        ball_body: u64,
        ball_collider: u64,
        walls: Vec<(u64, FieldWallKind)>,
    ) -> (r: Option<EntityRegistry>)
        ensures
            r matches Some(reg) ==> reg.wf() && reg.robot_bodies@ == robot_bodies@
                && reg.robot_colliders@ == robot_colliders@ && reg.ball_body == ball_body
                && reg.ball_collider == ball_collider && reg.walls@ == walls@,
            r is Some <==> (EntityRegistry {
                robot_bodies,
                robot_colliders,
                ball_body,
                ball_collider,
                walls,
            }).wf(),
    {
        let candidate = EntityRegistry {
            robot_bodies,
            robot_colliders,
            ball_body,
            ball_collider,
            walls,
        };
        if candidate.robot_bodies.len() != candidate.robot_colliders.len() {
            return None;
        }
        if !ids_distinct(&candidate.robot_bodies) {
            return None;
        }
        if contains_id(&candidate.robot_bodies, candidate.ball_body) {
            return None;
        }
        if !ids_distinct(&candidate.robot_colliders) {
            return None;
        }
        if contains_id(&candidate.robot_colliders, candidate.ball_collider) {
            return None;
        }
        let wall_ids: Vec<u64> = wall_collider_ids(&candidate.walls);
        if !ids_distinct(&wall_ids) {
            return None;
        }
        if contains_id(&wall_ids, candidate.ball_collider) {
            return None;
        }
        if ids_overlap(&candidate.robot_colliders, &wall_ids) {
            return None;
        }
        proof {
            assert(candidate.bodies_distinct());
            assert forall|i: int, j: int|
                0 <= i < j < candidate.walls@.len() implies candidate.walls@[i].0
                != candidate.walls@[j].0 by {
                assert(wall_ids@[i] == candidate.walls@[i].0);
                assert(wall_ids@[j] == candidate.walls@[j].0);
            }
            assert forall|i: int|
                0 <= i < candidate.walls@.len() implies candidate.walls@[i].0
                != candidate.ball_collider by {
                assert(wall_ids@[i] == candidate.walls@[i].0);
            }
            assert forall|i: int, j: int|
                0 <= i < candidate.robot_colliders@.len() && 0 <= j < candidate.walls@.len()
                implies candidate.robot_colliders@[i] != candidate.walls@[j].0 by {
                assert(wall_ids@[j] == candidate.walls@[j].0);
            }
            assert(candidate.colliders_distinct());
            assert(candidate.wf());
        }
        Some(candidate)
    }
}

/// The collider handles of a wall list, in order.
fn wall_collider_ids(walls: &Vec<(u64, FieldWallKind)>) -> (r: Vec<u64>)
    ensures
        r@.len() == walls@.len(),
        forall|i: int| 0 <= i < walls@.len() ==> r@[i] == walls@[i].0,
{
    let mut ids: Vec<u64> = Vec::new();
    let n: usize = walls.len();
    let mut i: usize = 0;
    while i < n
        invariant
            n == walls@.len(),
            i <= n,
            ids@.len() == i,
            forall|j: int| 0 <= j < i ==> ids@[j] == walls@[j].0,
        decreases n - i,
    {
        ids.push(walls[i].0);
        i = i + 1;
    }
    ids
}

/// Whether all handles of `v` are pairwise distinct.
fn ids_distinct(v: &Vec<u64>) -> (r: bool)
    ensures
        r <==> forall|i: int, j: int| 0 <= i < j < v@.len() ==> v@[i] != v@[j],
{
    let n: usize = v.len();
    let mut i: usize = 0;
    while i < n
        invariant
            n == v@.len(),
            i <= n,
            forall|a: int, b: int| 0 <= a < b < n && a < i ==> v@[a] != v@[b],
        decreases n - i,
    {
        let mut j: usize = i + 1;
        while j < n
            invariant
                n == v@.len(),
                i < n,
                i < j <= n,
                forall|b: int| i < b < j ==> v@[i as int] != v@[b],
            decreases n - j,
        {
            if v[i] == v[j] {
                return false;
            }
            j = j + 1;
        }
        i = i + 1;
    }
    true
}

/// Whether `v` holds the handle `x`.
fn contains_id(v: &Vec<u64>, x: u64) -> (r: bool)
    ensures
        r <==> exists|i: int| 0 <= i < v@.len() && v@[i] == x,
{
    let n: usize = v.len();
    let mut i: usize = 0;
    while i < n
        invariant
            n == v@.len(),
            i <= n,
            forall|j: int| 0 <= j < i ==> v@[j] != x,
        decreases n - i,
    {
        if v[i] == x {
            return true;
        }
        i = i + 1;
    }
    false
}

/// Whether the two handle lists share any handle.
fn ids_overlap(a: &Vec<u64>, b: &Vec<u64>) -> (r: bool)
    ensures
        r <==> exists|i: int, j: int|
            0 <= i < a@.len() && 0 <= j < b@.len() && a@[i] == b@[j],
{
    let n: usize = a.len();
    let mut i: usize = 0;
    while i < n
        invariant
            n == a@.len(),
            i <= n,
            forall|k: int, j: int| 0 <= k < i && 0 <= j < b@.len() ==> a@[k] != b@[j],
        decreases n - i,
    {
        if contains_id(b, a[i]) {
            return true;
        }
        i = i + 1;
    }
    false
}

} // verus!
