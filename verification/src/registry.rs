//! Single-slot registry of the active local build handle.
//!
//! At most one local build is in flight at a time. Registering a new
//! handle hands the previous occupant back to the caller, which must
//! terminate it before the new build is considered accepted; aborting
//! takes the occupant out, so a second abort finds the slot empty and is
//! a no-op. The embedding application guards a registry value with its
//! own lock and performs the actual process kill on whatever handle
//! these methods hand back.

use vstd::prelude::*;

verus! {

/// The single slot holding the handle of the build now in flight, if any.
pub struct ActiveBuildRegistry<H> {
    slot: Option<H>,
}

impl<H> ActiveBuildRegistry<H> {
    /// The handle now occupying the slot.
    pub closed spec fn occupant(&self) -> Option<H> {
        self.slot
    }

    /// An empty registry: no build in flight.
    pub fn new() -> (r: Self)
        ensures
            r.occupant() is None,
    {
        ActiveBuildRegistry { slot: None }
    }

    /// Swaps the new handle in and hands any previous occupant back; the
    /// caller must terminate the returned handle, so no two live builds
    /// coexist.
    pub fn register(&mut self, handle: H) -> (evicted: Option<H>)
        ensures
            final(self).occupant() == Some(handle),
            evicted == old(self).occupant(),
    {
        let evicted = self.slot.take();
        self.slot = Some(handle);
        evicted
    }

    /// Takes the occupant out, leaving the slot empty. `None` means no
    /// build was registered, which is a valid outcome, not an error.
    pub fn abort(&mut self) -> (taken: Option<H>)
        ensures
            final(self).occupant() is None,
            taken == old(self).occupant(),
    {
        self.slot.take()
    }

    /// Whether a build is registered now.
    pub fn is_occupied(&self) -> (r: bool)
        ensures
            r == (self.occupant() is Some),
    {
        self.slot.is_some()
    }
}

/// The user-visible answer to an abort request: "Build Aborted" when a
/// handle was taken and killed, "No active build" when the slot was
/// already empty.
pub fn abort_message(had_build: bool) -> (r: String)
    ensures
        had_build ==> r@ == "Build Aborted"@,
        !had_build ==> r@ == "No active build"@,
{
    if had_build {
        String::from_str("Build Aborted")
    } else {
        String::from_str("No active build")
    }
}

} // verus!
