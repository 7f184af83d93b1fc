//! The state that the C interface keeps between calls: the active tunnel
//! and the handle of the running I/O loop. (The caller keeps one registry
//! for the process, behind a lock.)

use vstd::prelude::*;

verus! {

/// The two slots of the C interface: the tunnel that `wg_init_tunnel`
/// installed, and the loop that `wg_start_loop` started.
pub struct Registry<T, L> {
    tunnel: Option<T>,
    loop_handle: Option<L>,
}

impl<T, L> Registry<T, L> {
    /// What the tunnel slot holds.
    pub closed spec fn tunnel_slot(&self) -> Option<T> {
        self.tunnel
    }

    /// What the loop slot holds.
    pub closed spec fn loop_slot(&self) -> Option<L> {
        self.loop_handle
    }

    /// A registry with both slots empty.
    pub fn new() -> (res: Self)
        ensures
            res.tunnel_slot() is None,
            res.loop_slot() is None,
    {
        Registry { tunnel: None, loop_handle: None }
    }

    /// The slot of the active tunnel; writing through it changes only that
    /// slot.
    pub fn get_tunnel(&mut self) -> (slot: &mut Option<T>)
        ensures
            *slot == old(self).tunnel_slot(),
            final(self).tunnel_slot() == *final(slot),
            final(self).loop_slot() == old(self).loop_slot(),
    {
        &mut self.tunnel
    }

    /// The slot of the running loop's handle; writing through it changes
    /// only that slot.
    pub fn get_loop_handle(&mut self) -> (slot: &mut Option<L>)
        ensures
            *slot == old(self).loop_slot(),
            final(self).loop_slot() == *final(slot),
            final(self).tunnel_slot() == old(self).tunnel_slot(),
    {
        &mut self.loop_handle
    }
}

} // verus!
