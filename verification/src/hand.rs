//! The hand cursor's grab state and the choice of which body a grab
//! picks up.
//!
//! The engine shell moves the hand to the pointer, asks the physics
//! world which bodies overlap the cursor, and spawns or despawns the
//! actual grab joint; everything it decides with is here.  Bodies are
//! identified by their entity ids.

use vstd::prelude::*;

verus! {

/// The hand cursor: whether it is holding something, and the joint and
/// body entities involved while it is.
#[derive(Debug, Clone)]
pub struct Hand {
    pub is_grabbing: bool,
    pub grab_joint_entity: Option<u64>,
    pub grabbed_body: Option<u64>,
}

/// One body the physics query reported under the cursor: its entity id
/// and whether it is a dynamic rigid body.
#[derive(Debug, Clone, Copy, PartialEq, Eq, Structural)]
pub struct GrabCandidate {
    pub entity: u64,
    pub dynamic: bool,
}

/// A grab picks up a candidate iff it is a dynamic body other than the
/// hand itself.
pub open spec fn grabbable(hand_entity: u64, c: GrabCandidate) -> bool {
    c.entity != hand_entity && c.dynamic
}

impl Hand {
    /// The hand as it is first spawned: empty.
    pub fn new() -> (r: Hand)
        ensures
            !r.is_grabbing,
            r.grab_joint_entity is None,
            r.grabbed_body is None,
    {
        Hand { is_grabbing: false, grab_joint_entity: None, grabbed_body: None }
    }

    /// Records a grab: the shell has attached `joint_entity` between the
    /// hand and `body`.
    pub fn grab(&mut self, joint_entity: u64, body: u64)
        ensures
            final(self).is_grabbing,
            final(self).grab_joint_entity == Some(joint_entity),
            final(self).grabbed_body == Some(body),
    {
        self.is_grabbing = true;
        self.grab_joint_entity = Some(joint_entity);
        self.grabbed_body = Some(body);
    }

    /// Lets go: while the hand was holding something it is emptied and
    /// the joint entity to despawn is handed back; otherwise nothing
    /// changes.
    pub fn release(&mut self) -> (r: Option<u64>)
        ensures
            old(self).is_grabbing ==> r == old(self).grab_joint_entity && !final(self).is_grabbing
                && final(self).grab_joint_entity is None && final(self).grabbed_body is None,
            !old(self).is_grabbing ==> r is None && *final(self) == *old(self),
    {
        if self.is_grabbing {
            let joint = self.grab_joint_entity;
            self.is_grabbing = false;
            self.grab_joint_entity = None;
            self.grabbed_body = None;
            joint
        } else {
            None
        }
    }
}

/// The body a grab at the cursor picks up: the first dynamic body other
/// than the hand among the reported overlaps, in the order the physics
/// query reported them.
pub fn pick_grab_target(hand_entity: u64, candidates: &Vec<GrabCandidate>) -> (r: Option<u64>)
    ensures
        match r {
            Some(e) => exists|i: int|
                0 <= i < candidates@.len() && #[trigger] grabbable(hand_entity, candidates@[i])
                    && e == candidates@[i].entity && forall|j: int|
                    0 <= j < i ==> !grabbable(hand_entity, candidates@[j]),
            None => forall|i: int|
                0 <= i < candidates@.len() ==> !grabbable(hand_entity, candidates@[i]),
        },
{
    let mut i: usize = 0;
    while i < candidates.len()
        invariant
            i <= candidates@.len(),
            forall|j: int| 0 <= j < i ==> !grabbable(hand_entity, candidates@[j]),
        decreases candidates@.len() - i,
    {
        let c = candidates[i];
        if c.entity != hand_entity && c.dynamic {
            assert(grabbable(hand_entity, candidates@[i as int]));
            return Some(c.entity);
        }
        i = i + 1;
    }
    None
}

} // verus!
