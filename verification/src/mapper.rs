//! The indicator mapper: a pure, total function from the keyboard state
//! summary to exactly one indicator command.

use vstd::prelude::*;

use crate::command::{IndicatorCommand, KeyboardStateSummary, Pattern};

verus! {

/// The fixed mapping table from the active layer index to the indicator
/// command: layer 1 is blue, 2 is red, 3 is green, 4 is yellow, and every
/// other layer (the base layer included) resets the indicator.
pub open spec fn spec_map_layer(layer: u8) -> IndicatorCommand {
    if layer == 1 {
        IndicatorCommand::Start(Pattern::SolidColor(0, 0, 10))
    } else if layer == 2 {
        IndicatorCommand::Start(Pattern::SolidColor(10, 0, 0))
    } else if layer == 3 {
        IndicatorCommand::Start(Pattern::SolidColor(0, 10, 0))
    } else if layer == 4 {
        IndicatorCommand::Start(Pattern::SolidColor(10, 10, 0))
    } else {
        IndicatorCommand::Reset
    }
}

/// Maps a state summary to its indicator command. Pure lookup on the
/// highest active layer; no side effects and no failure mode.
pub fn map_indicator(summary: &KeyboardStateSummary) -> (cmd: IndicatorCommand)
    ensures
        cmd == spec_map_layer(summary.highest_layer),
{
    match summary.highest_layer {
        1 => IndicatorCommand::Start(Pattern::SolidColor(0, 0, 10)),
        2 => IndicatorCommand::Start(Pattern::SolidColor(10, 0, 0)),
        3 => IndicatorCommand::Start(Pattern::SolidColor(0, 10, 0)),
        4 => IndicatorCommand::Start(Pattern::SolidColor(10, 10, 0)),
        _ => IndicatorCommand::Reset,
    }
}

/// The mapping is deterministic: summaries with the same layer index map to
/// the same command.
pub proof fn lemma_mapper_deterministic(s1: KeyboardStateSummary, s2: KeyboardStateSummary)
    requires
        s1.highest_layer == s2.highest_layer,
    ensures
        spec_map_layer(s1.highest_layer) == spec_map_layer(s2.highest_layer),
{
}

/// The mapping is total with `Reset` as the default: any layer index
/// outside the mapped set {1, 2, 3, 4} yields `Reset`.
pub proof fn lemma_mapper_default_reset(layer: u8)
    requires
        layer != 1,
        layer != 2,
        layer != 3,
        layer != 4,
    ensures
        spec_map_layer(layer) == IndicatorCommand::Reset,
{
}

} // verus!
