//! Rules for despawning entities: after a time, after a number of frames,
//! or when the state they belong to is left.
use vstd::prelude::*;
use vstd::laws_eq::obeys_concrete_eq;
use vstd::std_specs::cmp::PartialEqSpec;

verus! {

/// A one-shot timer counting microseconds.
#[derive(Debug, Clone, Copy, PartialEq, Eq, Structural)]
pub struct DespawnTimer {
    pub duration: u64,
    pub elapsed: u64,
    pub finished: bool,
}

impl DespawnTimer {
    /// A timer of `duration` microseconds that has not started.
    pub fn new(duration: u64) -> (r: DespawnTimer)
        ensures
            r == (DespawnTimer { duration, elapsed: 0, finished: false }),
    {
        DespawnTimer { duration, elapsed: 0, finished: false }
    }

    /// Let `delta` microseconds pass. Returns whether the timer finished in
    /// this tick; a finished timer stays finished and does not count on.
    pub fn tick(&mut self, delta: u64) -> (r: bool)
        ensures
            final(self).duration == old(self).duration,
            old(self).finished ==> !r && *final(self) == *old(self),
            !old(self).finished ==> {
                &&& r == (old(self).elapsed + delta >= old(self).duration)
                &&& final(self).finished == r
                &&& final(self).elapsed == if r {
                    old(self).duration as int
                } else {
                    old(self).elapsed + delta
                }
            },
    {
        if self.finished {
            return false;
        }
        if self.elapsed >= self.duration || delta >= self.duration - self.elapsed {
            self.elapsed = self.duration;
            self.finished = true;
            true
        } else {
            self.elapsed = self.elapsed + delta;
            false
        }
    }
}

/// When an entity is despawned: when a timer finishes, or after a number
/// of frames.
#[derive(Debug, Clone, Copy, PartialEq, Eq, Structural)]
pub enum AutoDespawn {
    Timer(DespawnTimer),
    Frames(u32),
}

impl AutoDespawn {
    /// Despawn after `duration` microseconds; the same as `with_duration`.
    pub fn new(duration: u64) -> (r: AutoDespawn)
        ensures
            r == AutoDespawn::Timer(DespawnTimer { duration, elapsed: 0, finished: false }),
    {
        AutoDespawn::with_duration(duration)
    }

    /// Despawn after `duration` microseconds.
    pub fn with_duration(duration: u64) -> (r: AutoDespawn)
        ensures
            r == AutoDespawn::Timer(DespawnTimer { duration, elapsed: 0, finished: false }),
    {
        AutoDespawn::Timer(DespawnTimer::new(duration))
    }

    /// Despawn once `frames` frames have passed.
    pub fn with_frames(frames: u32) -> (r: AutoDespawn)
        ensures
            r == AutoDespawn::Frames(frames),
    {
        AutoDespawn::Frames(frames)
    }

    /// Advance by one frame that lasted `delta` microseconds. Returns
    /// whether the entity is to be despawned now: a timer despawns in the
    /// frame it finishes; a frame count despawns when it is zero, and
    /// otherwise counts down by one.
    pub fn tick(&mut self, delta: u64) -> (r: bool)
        ensures
            match *old(self) {
                AutoDespawn::Timer(t) => {
                    &&& *final(self) is Timer
                    &&& (*final(self))->Timer_0.duration == t.duration
                    &&& t.finished ==> !r && (*final(self))->Timer_0 == t
                    &&& !t.finished ==> {
                        &&& r == (t.elapsed + delta >= t.duration)
                        &&& (*final(self))->Timer_0.finished == r
                        &&& (*final(self))->Timer_0.elapsed == if r {
                            t.duration as int
                        } else {
                            t.elapsed + delta
                        }
                    }
                },
                AutoDespawn::Frames(n) => {
                    &&& r == (n == 0)
                    &&& *final(self) == AutoDespawn::Frames(if n == 0 { 0 } else { (n - 1) as u32 })
                },
            },
    {
        match self {
            AutoDespawn::Timer(t) => t.tick(delta),
            AutoDespawn::Frames(n) => {
                if *n == 0 {
                    true
                } else {
                    *n = *n - 1;
                    false
                }
            },
        }
    }
}

/// Marks an entity to be despawned when the state `0` is left.
pub struct Cleanup<S>(pub S);

impl<S: PartialEq> Cleanup<S> {
    /// Whether leaving `state` despawns the entity.
    pub fn applies_to(&self, state: &S) -> (r: bool)
        requires
            obeys_concrete_eq::<S>(),
        ensures
            r == (self.0 == *state),
    {
        proof {
            reveal(obeys_concrete_eq);
        }
        self.0.eq(state)
    }
}

} // verus!
