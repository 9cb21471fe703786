//! Reference-counted activation: a shared `UseCounter` aggregates
//! "who wants this stream on"; each interested party holds a
//! `Permit` that it may activate and deactivate. Watchers are only
//! woken on crossings of zero, and the ghost crossing counters
//! witness that none of those wake-ups is ever lost.

use vstd::prelude::*;

verus! {

/// A party's handle on the counter. While `active`, it contributes
/// one to the shared count.
pub struct Permit {
    pub active: bool,
}

/// The shared activation counter with its zero-crossing history.
pub struct UseCounter {
    /// Number of currently activated permits.
    pub count: u32,
    /// How often the count rose above zero.
    pub rises: Ghost<nat>,
    /// How often the count fell back to zero.
    pub falls: Ghost<nat>,
}

impl UseCounter {
    /// Zero-crossing parity: every rise above zero is eventually
    /// paired with a fall to zero, and the two differ by exactly one
    /// while the count is positive. This is the "no missed wake-up"
    /// invariant the watchers rely on.
    pub open spec fn wf(&self) -> bool {
        self.rises@ == self.falls@ + (if self.count > 0 {
            1nat
        } else {
            0nat
        })
    }

    /// A fresh counter: nobody wants the stream yet.
    pub fn new() -> (r: Self)
        ensures
            r.wf(),
            r.count == 0,
            r.rises@ == 0,
            r.falls@ == 0,
    {
        UseCounter { count: 0, rises: Ghost(0nat), falls: Ghost(0nat) }
    }

    /// Hands out a new permit, starting inactive.
    pub fn subscribe(&self) -> (p: Permit)
        ensures
            !p.active,
    {
        Permit { active: false }
    }

    /// The current count, as the watch channel reports it.
    pub fn get_counter(&self) -> (r: u32)
        ensures
            r == self.count,
    {
        self.count
    }

    /// Whether anybody holds the stream active right now.
    pub fn has_users(&self) -> (r: bool)
        ensures
            r == (self.count > 0),
    {
        self.count > 0
    }

    /// Activates a permit. Idempotent: an already-active permit
    /// changes nothing. The count rises by one otherwise, and the
    /// rise is recorded exactly when zero is crossed.
    pub fn activate(&mut self, p: &mut Permit)
        requires
            old(self).wf(),
            !old(p).active ==> old(self).count < u32::MAX,
        ensures
            final(self).wf(),
            final(p).active,
            old(p).active ==> *final(self) == *old(self),
            !old(p).active ==> {
                &&& final(self).count == old(self).count + 1
                &&& final(self).falls@ == old(self).falls@
                &&& final(self).rises@ == old(self).rises@ + (if old(self).count == 0 {
                    1nat
                } else {
                    0nat
                })
            },
    {
        if !p.active {
            if self.count == 0 {
                self.rises = Ghost(self.rises@ + 1);
            }
            self.count = self.count + 1;
            p.active = true;
        } else {
            p.active = true;
        }
    }

    /// Deactivates a permit. Idempotent: an inactive permit changes
    /// nothing. The count drops by one otherwise, and the fall is
    /// recorded exactly when zero is reached.
    pub fn deactivate(&mut self, p: &mut Permit)
        requires
            old(self).wf(),
            old(p).active ==> old(self).count > 0,
        ensures
            final(self).wf(),
            !final(p).active,
            !old(p).active ==> *final(self) == *old(self),
            old(p).active ==> {
                &&& final(self).count == old(self).count - 1
                &&& final(self).rises@ == old(self).rises@
                &&& final(self).falls@ == old(self).falls@ + (if old(self).count == 1 {
                    1nat
                } else {
                    0nat
                })
            },
    {
        if p.active {
            if self.count == 1 {
                self.falls = Ghost(self.falls@ + 1);
            }
            self.count = self.count - 1;
            p.active = false;
        } else {
            p.active = false;
        }
    }

    /// Dropping a permit deactivates it first; the permit is gone
    /// afterwards.
    pub fn release(&mut self, p: Permit)
        requires
            old(self).wf(),
            p.active ==> old(self).count > 0,
        ensures
            final(self).wf(),
            !p.active ==> *final(self) == *old(self),
            p.active ==> final(self).count == old(self).count - 1,
    {
        let mut p = p;
        self.deactivate(&mut p);
    }
}

/// Zero-crossing parity: at steady state the watchers saw exactly as
/// many rises as falls when nobody holds the stream, and exactly one
/// more rise while somebody does — no wake-up is ever missed.
pub proof fn lemma_crossing_parity(c: UseCounter)
    requires
        c.wf(),
    ensures
        c.count == 0 ==> c.rises@ == c.falls@,
        c.count > 0 ==> c.rises@ == c.falls@ + 1,
{
}

/// Count after one `activate` on a permit in the given state.
pub open spec fn spec_count_after_activate(count: int, active: bool) -> int {
    if active {
        count
    } else {
        count + 1
    }
}

/// Count after one `deactivate` on a permit in the given state.
pub open spec fn spec_count_after_deactivate(count: int, active: bool) -> int {
    if active {
        count - 1
    } else {
        count
    }
}

/// Activation is ref-counted per permit, not per call: activating a
/// permit twice and then deactivating it leaves the count exactly
/// where a single activate-deactivate pair would, whatever state the
/// permit started in.
pub proof fn lemma_activate_idempotent(count: int, active: bool)
    ensures
        spec_count_after_deactivate(
            spec_count_after_activate(spec_count_after_activate(count, active), true),
            true,
        ) == spec_count_after_deactivate(spec_count_after_activate(count, active), true),
        spec_count_after_activate(spec_count_after_activate(count, active), true)
            == spec_count_after_activate(count, active),
{
}

} // verus!
