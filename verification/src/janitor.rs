//! The janitor: the background task that trims the reserve to its capacity.
//!
//! The task itself runs outside this library. It hands each thing that
//! happens to it to `monitoring_process`, and carries out what that decides.

use crate::reserve::{evicted, CacheReserve};
use std::hash::Hash;
use vstd::prelude::*;
use vstd::std_specs::hash::*;

verus! {

/// Seconds between two ticks of the janitor.
pub const TICK_SECONDS: u64 = 1;

/// Where the janitor of a reserve stands in its life.
#[derive(Clone, Copy, Debug, PartialEq, Eq, Structural)]
pub enum JanitorState {
    /// No janitor was ever started.
    NotStarted,
    /// The janitor was started, and no shutdown has completed since.
    Running,
    /// A shutdown completed after the janitor was started.
    Stopped,
}

/// What wakes the janitor.
#[derive(Clone, Copy, Debug, PartialEq, Eq, Structural)]
pub enum JanitorEvent {
    /// The tick interval has passed.
    Tick,
    /// The shutdown signal has arrived.
    Shutdown,
}

/// What the janitor does next.
#[derive(Clone, Copy, Debug, PartialEq, Eq, Structural)]
pub enum JanitorAction {
    /// Evict this many entries, then wait for the next event.
    Evict(usize),
    /// Wait for the next event.
    Idle,
    /// Leave the loop: the task ends.
    Stop,
}

/// The decision of the janitor on an event, for a reserve that holds
/// `entries` entries under the bound `capacity`: a tick evicts the excess
/// where there is one, the shutdown signal ends the task.
pub open spec fn janitor_action(entries: nat, capacity: nat, event: JanitorEvent) -> JanitorAction {
    match event {
        JanitorEvent::Shutdown => JanitorAction::Stop,
        JanitorEvent::Tick => if entries > capacity {
            JanitorAction::Evict((entries - capacity) as usize)
        } else {
            JanitorAction::Idle
        },
    }
}

impl<PK, T> CacheReserve<PK, T> where PK: Eq + Hash + Copy {
    /// Records that the janitor was started.
    pub fn initiate(&mut self)
        ensures
            final(self).janitor() == JanitorState::Running,
            final(self)@ == old(self)@,
            final(self).capacity() == old(self).capacity(),
    {
        self.mark_janitor(JanitorState::Running);
    }

    /// One step of the janitor's loop: what to do on `event`, given the
    /// number of entries that the reserve holds now.
    pub fn monitoring_process(&self, event: JanitorEvent) -> (action: JanitorAction)
        requires
            obeys_key_model::<PK>(),
        ensures
            action == janitor_action(self@.len(), self.capacity() as nat, event),
    {
        match event {
            JanitorEvent::Shutdown => JanitorAction::Stop,
            JanitorEvent::Tick => {
                let size_of_storage = self.len();
                let limit = self.capacity();
                if size_of_storage > limit {
                    JanitorAction::Evict(size_of_storage - limit)
                } else {
                    JanitorAction::Idle
                }
            },
        }
    }
}

/// A tick trims the reserve to its capacity and no further: where a tick
/// asks for an eviction, it asks for the number by which the entries exceed
/// the capacity, and whichever entries an eviction of that number picks, it
/// removes exactly that many, leaves exactly the capacity, and leaves each
/// remaining entry as it was.
pub proof fn lemma_tick_trims_to_capacity<PK, T>(
    before: Map<PK, T>,
    after: Map<PK, T>,
    capacity: usize,
    excess: usize,
)
    requires
        before.dom().finite(),
        before.len() <= usize::MAX,
        janitor_action(before.len(), capacity as nat, JanitorEvent::Tick) == JanitorAction::Evict(
            excess,
        ),
        evicted(before, after, excess as nat),
    ensures
        excess == before.len() - capacity,
        excess == vstd::math::min(excess as int, before.len() as int),
        before.len() - after.len() == excess,
        after.len() == capacity,
        after.submap_of(before),
{
}

/// A tick asks for an eviction exactly where the entries exceed the
/// capacity; a reserve within its capacity is left alone.
pub proof fn lemma_tick_evicts_only_excess(entries: nat, capacity: nat)
    ensures
        entries <= capacity <==> janitor_action(entries, capacity, JanitorEvent::Tick)
            == JanitorAction::Idle,
        entries > capacity <==> janitor_action(entries, capacity, JanitorEvent::Tick) is Evict,
{
}

} // verus!
