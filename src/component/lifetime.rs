//! Lifetimes of entities: by duration and by penetration. Entities are not
//! removed when a lifetime expires; that is left to the caller.

use crate::component::health::Health;
use vstd::prelude::*;

verus! {

/// Something that expires and can be restored to its first state.
pub trait Lifetime {
    /// Whether the lifetime has expired.
    fn is_expired(&self) -> bool;

    /// Restores the lifetime to the state it was created in.
    fn reset(&mut self);
}

/// Expires once a duration, in microseconds, has gone by.
pub struct DurationLifetime {
    duration: u64,
    elapsed: u64,
}

impl DurationLifetime {
    #[verifier::type_invariant]
    spec fn inv(self) -> bool {
        self.elapsed <= self.duration
    }

    /// The full duration.
    pub closed spec fn duration(&self) -> nat {
        self.duration as nat
    }

    /// The time that has gone by, which stops at the duration.
    pub closed spec fn elapsed(&self) -> nat {
        self.elapsed as nat
    }

    /// A lifetime of `max_duration` microseconds, none of which has gone by.
    pub fn new(max_duration: u64) -> (r: DurationLifetime)
        ensures
            r.duration() == max_duration,
            r.elapsed() == 0,
    {
        DurationLifetime { duration: max_duration, elapsed: 0 }
    }

    /// Lets `dt` microseconds go by.
    pub fn tick(&mut self, dt: u64)
        ensures
            final(self).duration() == old(self).duration(),
            final(self).elapsed() == if old(self).elapsed() + dt < old(self).duration() {
                old(self).elapsed() + dt
            } else {
                old(self).duration() as int
            },
    {
        proof {
            use_type_invariant(&*self);
        }
        if dt < self.duration - self.elapsed {
            self.elapsed = self.elapsed + dt;
        } else {
            self.elapsed = self.duration;
        }
    }
}

impl Lifetime for DurationLifetime {
    fn is_expired(&self) -> (r: bool)
        ensures
            r == (self.elapsed() >= self.duration()),
    {
        self.elapsed >= self.duration
    }

    fn reset(&mut self)
        ensures
            final(self).duration() == old(self).duration(),
            final(self).elapsed() == 0,
    {
        proof {
            use_type_invariant(&*self);
        }
        self.elapsed = 0;
    }
}

/// Expires after a number of hits; for bullets that pass through a few
/// enemies before they are spent.
pub struct PenetrationLifetime {
    health: Health,
}

impl PenetrationLifetime {
    /// The hits left.
    pub closed spec fn hits_left(&self) -> nat {
        self.health.current()
    }

    /// The hits it was created with.
    pub closed spec fn penetration(&self) -> nat {
        self.health.original()
    }

    /// A lifetime of `penetration` hits.
    pub fn new(penetration: u32) -> (r: PenetrationLifetime)
        ensures
            r.penetration() == penetration,
            r.hits_left() == penetration,
    {
        PenetrationLifetime { health: Health::new(penetration) }
    }

    /// Counts one hit; the count stops at zero.
    pub fn tick(&mut self)
        ensures
            final(self).penetration() == old(self).penetration(),
            final(self).hits_left() == if old(self).hits_left() > 0 {
                old(self).hits_left() - 1
            } else {
                0
            },
    {
        self.health.take(1);
    }
}

impl Lifetime for PenetrationLifetime {
    fn is_expired(&self) -> (r: bool)
        ensures
            r == (self.hits_left() == 0),
    {
        self.health.is_zero()
    }

    fn reset(&mut self)
        ensures
            final(self).penetration() == old(self).penetration(),
            final(self).hits_left() == old(self).penetration(),
    {
        self.health.reset();
    }
}

} // verus!
