use vstd::prelude::*;

use crate::component::Component;
use crate::world::World;
use crate::UpdateStatus;

verus! {

/// A unit of per-tick behavior.
///
/// A system queries the world for the masks and storages of the component
/// types it cares about, filters the entity table by mask, and applies its
/// logic to each match. Systems run one at a time, in registration order,
/// and hold no entity state of their own between ticks beyond what they
/// store in components.
pub trait System<C: Component> {
    /// The external events a system consumes; the engine passes each tick's
    /// batch through without looking at it.
    type Event;

    /// Called once per tick. Returning `Ok(UpdateStatus::Exit)` asks the
    /// engine to stop after this tick; an `Err` aborts the tick at once and
    /// propagates to the engine's caller.
    fn update(&self, world: &mut World<C>, events: &[Self::Event]) -> Result<
        UpdateStatus,
        String,
    >;
}

} // verus!
