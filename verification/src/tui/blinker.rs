use vstd::prelude::*;

verus! {

/// A strip that changes colour each time it is drawn, to show that the
/// screen is being redrawn.
pub struct Blinker {
    pub last_state: bool,
}

impl Blinker {
    pub fn new() -> (r: Blinker)
        ensures
            !r.last_state,
    {
        Blinker { last_state: false }
    }

    /// Hands back the state to draw now (white when true, red when false)
    /// and flips it for the next time.
    pub fn blink(&mut self) -> (r: bool)
        ensures
            r == old(self).last_state,
            final(self).last_state == !old(self).last_state,
    {
        let state = self.last_state;
        self.last_state = !state;
        state
    }
}

} // verus!
