//! The change gate: one slot holding the most recently emitted indicator
//! command. A freshly computed command is dispatched only when it differs
//! from that slot, so downstream sinks see each distinct command once.

use vstd::prelude::*;

use crate::command::IndicatorCommand;

verus! {

/// Holds the most recently emitted command, or nothing before the first
/// tick. Owned exclusively by the dispatch logic of one keyboard half.
pub struct ChangeGate {
    /// The last command actually handed to the sinks, once any was.
    pub last_emitted: Option<IndicatorCommand>,
}

/// The state of a gate before its first tick.
pub open spec fn spec_gate_init() -> ChangeGate {
    ChangeGate { last_emitted: None }
}

/// Whether offering `cmd` to the change gate `g` emits: it does iff the
/// slot holds no value yet, or holds a command structurally unequal to
/// `cmd`.
pub open spec fn spec_accept_emits(g: ChangeGate, cmd: IndicatorCommand) -> bool {
    g.last_emitted != Some(cmd)
}

/// The change gate's state after `cmd` has been offered: the slot
/// unconditionally holds that command.
pub open spec fn spec_accept_next(g: ChangeGate, cmd: IndicatorCommand) -> ChangeGate {
    ChangeGate { last_emitted: Some(cmd) }
}

impl ChangeGate {
    /// A gate that has emitted nothing yet.
    pub fn new() -> (g: Self)
        ensures
            g == spec_gate_init(),
    {
        ChangeGate { last_emitted: None }
    }

    /// Decides, once per tick, whether `cmd` differs from the last emitted
    /// command and should be dispatched. On emission the stored value is
    /// replaced before the caller proceeds to dispatch, so a failed
    /// downstream send never makes the same command look new again.
    pub fn accept(&mut self, cmd: IndicatorCommand) -> (emit: bool)
        ensures
            emit == spec_accept_emits(*old(self), cmd),
            *final(self) == spec_accept_next(*old(self), cmd),
    {
        let emit = match &self.last_emitted {
            None => true,
            Some(prev) => *prev != cmd,
        };
        self.last_emitted = Some(cmd);
        emit
    }
}

/// Change-gate idempotence: once a command is in the slot, offering the
/// same command again does not emit and leaves the stored state unchanged.
pub proof fn lemma_accept_idempotent(g: ChangeGate, cmd: IndicatorCommand)
    ensures
        !spec_accept_emits(spec_accept_next(g, cmd), cmd),
        spec_accept_next(spec_accept_next(g, cmd), cmd) == spec_accept_next(g, cmd),
{
}

/// The very first offer always emits, whatever the command — `Reset`
/// included: an empty gate holds nothing equal to the new command.
pub proof fn lemma_first_accept_emits(cmd: IndicatorCommand)
    ensures
        spec_accept_emits(spec_gate_init(), cmd),
{
}

} // verus!
