//! How far back a layer attends.

use crate::config::ModelConfig;
use vstd::prelude::*;

verus! {

/// The number of tokens that a layer attends to: without a window, all of them
/// (`u32::MAX`); with interleaved windows, all of them on even layers; and
/// otherwise the window.
pub open spec fn attention_span(window: Option<u32>, interleaved: bool, layer: nat) -> u32 {
    match window {
        None => u32::MAX,
        Some(w) => if interleaved && layer % 2 == 0 {
            u32::MAX
        } else {
            w
        },
    }
}

/// The number of tokens that a layer attends to.
pub fn effective_attention_span(config: &ModelConfig, layer_idx: usize) -> (span: u32)
    ensures
        span == attention_span(config.swa_window, config.swa_interleaved, layer_idx as nat),
{
    match config.swa_window {
        None => u32::MAX,
        Some(w) => {
            if config.swa_interleaved && layer_idx % 2 == 0 {
                u32::MAX
            } else {
                w
            }
        },
    }
}

/// Without interleaving every layer has the same span; with it, layers two
/// apart have.
pub proof fn law_span_repeats(window: Option<u32>, interleaved: bool, layer: nat)
    ensures
        attention_span(window, interleaved, layer + 2) == attention_span(
            window,
            interleaved,
            layer,
        ),
        !interleaved ==> attention_span(window, interleaved, layer + 1) == attention_span(
            window,
            interleaved,
            layer,
        ),
{
}

/// A layer attends to everything where there is no window, and on even layers
/// where windows are interleaved; every other layer attends to its window.
pub proof fn law_window_limits_odd_or_all_layers(window: Option<u32>, interleaved: bool, layer: nat)
    ensures
        window is None ==> attention_span(window, interleaved, layer) == 0xFFFF_FFFF,
        window matches Some(w) ==> {
            &&& !interleaved ==> attention_span(window, interleaved, layer) == w
            &&& interleaved ==> attention_span(window, interleaved, 2 * layer) == 0xFFFF_FFFF
            &&& interleaved ==> attention_span(window, interleaved, 2 * layer + 1) == w
        },
{
}

} // verus!
