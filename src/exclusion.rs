//! The main context's exclusion of the timer interrupt: delivery is switched
//! off for the length of a section and the prior state is restored after it,
//! so sections nest.
use vstd::prelude::*;

use crate::board::Board;

verus! {

/// Whether the interrupt line may currently be delivered.
#[derive(Clone, Copy, Debug, PartialEq, Eq, Structural)]
pub struct InterruptLine {
    pub enabled: bool,
}

impl InterruptLine {
    /// A line with delivery in the given state.
    pub fn new(enabled: bool) -> (r: Self)
        ensures
            r.enabled == enabled,
    {
        InterruptLine { enabled }
    }

    /// Opens a section: switches delivery off and returns the state it had,
    /// which the matching `exit` restores.
    pub fn enter(&mut self) -> (prior: bool)
        ensures
            prior == old(self).enabled,
            !final(self).enabled,
    {
        let prior = self.enabled;
        self.enabled = false;
        prior
    }

    /// Closes a section opened by `enter`, restoring the state it returned.
    pub fn exit(&mut self, prior: bool)
        ensures
            final(self).enabled == prior,
    {
        self.enabled = prior;
    }

    /// Whether the handler may preempt the main context now.
    pub fn can_deliver(&self) -> (r: bool)
        ensures
            r == self.enabled,
    {
        self.enabled
    }
}

/// Reads the counter from the main context inside a section, so that the
/// handler cannot update it halfway through; the line's prior state is
/// restored afterwards.
pub fn read_counter_excluded(line: &mut InterruptLine, board: &Board) -> (r: u32)
    ensures
        r == board.counter,
        *final(line) == *old(line),
{
    let prior = line.enter();
    let counter = board.counter;
    line.exit(prior);
    counter
}

} // verus!
