//! The pause gate: a boolean flag plus the single address permitted
//! to toggle it directly.

use vstd::prelude::*;
use crate::types::Address;

verus! {

/// Pause state of the bridge with its designated pauser.
pub struct Pausable {
    paused: bool,
    pauser: Address,
}

impl Pausable {
    /// Whether transfers are currently paused.
    pub closed spec fn is_paused_spec(&self) -> bool {
        self.paused
    }

    /// The single address that may pause and unpause.
    pub closed spec fn pauser_spec(&self) -> Seq<u8> {
        self.pauser@
    }

    /// A gate with the given pauser and initial state.
    pub fn new(initial_pauser: Address, initial_state: bool) -> (r: Pausable)
        ensures
            r.is_paused_spec() == initial_state,
            r.pauser_spec() == initial_pauser@,
    {
        Pausable { paused: initial_state, pauser: initial_pauser }
    }

    /// Reads the flag.
    pub fn is_paused(&self) -> (r: bool)
        ensures
            r == self.is_paused_spec(),
    {
        self.paused
    }

    /// Sets the flag; rejects any actor other than the pauser.
    pub fn pause(&mut self, actor: Address) -> (r: Result<(), &'static str>)
        ensures
            actor@ == old(self).pauser_spec() ==> r is Ok && final(self).is_paused_spec(),
            actor@ != old(self).pauser_spec() ==> (r matches Err(m) && m@
                == "Only pauser can pause"@ && *final(self) == *old(self)),
            final(self).pauser_spec() == old(self).pauser_spec(),
    {
        if !actor.eq_bytes(&self.pauser) {
            return Err("Only pauser can pause");
        }
        self.paused = true;
        Ok(())
    }

    /// Clears the flag; rejects any actor other than the pauser.
    pub fn unpause(&mut self, actor: Address) -> (r: Result<(), &'static str>)
        ensures
            actor@ == old(self).pauser_spec() ==> r is Ok && !final(self).is_paused_spec(),
            actor@ != old(self).pauser_spec() ==> (r matches Err(m) && m@
                == "Only pauser can unpause"@ && *final(self) == *old(self)),
            final(self).pauser_spec() == old(self).pauser_spec(),
    {
        if !actor.eq_bytes(&self.pauser) {
            return Err("Only pauser can unpause");
        }
        self.paused = false;
        Ok(())
    }

    /// Clears the flag without consulting the pauser; reserved for the
    /// coordinator's atomic install-and-unpause step at the end of keygen.
    pub(crate) fn force_unpause(&mut self)
        ensures
            !final(self).is_paused_spec(),
            final(self).pauser_spec() == old(self).pauser_spec(),
    {
        self.paused = false;
    }

    /// Replaces the pauser identity.
    pub fn set_pauser(&mut self, new_pauser: Address)
        ensures
            final(self).pauser_spec() == new_pauser@,
            final(self).is_paused_spec() == old(self).is_paused_spec(),
    {
        self.pauser = new_pauser;
    }
}

} // verus!
