//! A playback queue of rotation events: the caller loads a sequence and
//! drains it one step at a time, applying each drawn event to the cube and
//! to whatever drives the geometry.

use vstd::prelude::*;

use crate::rotation::CubeRotationEvent;

verus! {

/// A sequence of rotation events together with the playback position.
pub struct SequenceResource {
    pub steps: Vec<CubeRotationEvent>,
    pub current_step: usize,
}

impl Default for SequenceResource {
    /// An empty queue.
    fn default() -> (r: Self)
        ensures
            r.spec_is_empty(),
    {
        SequenceResource { steps: Vec::new(), current_step: 0 }
    }
}

impl SequenceResource {
    /// The playback position: how many steps have been drawn.
    pub open spec fn spec_current_step(&self) -> int {
        self.current_step as int
    }

    /// An empty queue at playback position zero.
    pub open spec fn spec_is_empty(&self) -> bool {
        self.steps@.len() == 0 && self.spec_current_step() == 0
    }

    /// Load a new sequence and rewind the playback position.
    pub fn set(&mut self, steps: Vec<CubeRotationEvent>)
        ensures
            final(self).steps == steps,
            final(self).spec_current_step() == 0,
    {
        self.steps = steps;
        self.current_step = 0;
    }

    /// Whether every step of the sequence has been drawn.
    pub fn is_done(&self) -> (r: bool)
        ensures
            r == (self.spec_current_step() >= self.steps@.len()),
    {
        self.current_step >= self.steps.len()
    }

    /// Draw the next step: the event at the playback position, advancing
    /// the position; `None` once the sequence is exhausted.
    pub fn next_step(&mut self) -> (r: Option<CubeRotationEvent>)
        ensures
            old(self).spec_current_step() < old(self).steps@.len() ==> (r matches Some(e)
                && e@ == old(self).steps@[old(self).spec_current_step()]@
                && final(self).spec_current_step() == old(self).spec_current_step() + 1),
            old(self).spec_current_step() >= old(self).steps@.len() ==> (r is None
                && final(self).spec_current_step() == old(self).spec_current_step()),
            final(self).steps == old(self).steps,
    {
        if self.current_step < self.steps.len() {
            let event = self.steps[self.current_step].clone();
            self.current_step = self.current_step + 1;
            Some(event)
        } else {
            None
        }
    }
}

} // verus!
