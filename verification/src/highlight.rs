//! The decisions of showing a highlight: which panel work comes next, and
//! what the command answers once the panels have reported back.
//!
//! The caller performs each action on the panels and feeds the outcome back
//! as the next step, until the machine finishes.

use vstd::prelude::*;

verus! {

/// What the caller reports to the machine.
pub enum HighlightStep {
    /// A highlight was requested; `drawable` says whether the element's frame
    /// is at least one point wide and one point tall.
    Requested { drawable: bool },
    /// Both panels were hidden, with this outcome.
    Hidden(Result<(), String>),
    /// The overlay rectangle was shown, with this outcome.
    OverlayShown(Result<(), String>),
    /// The tooltip was shown, with this outcome.
    TooltipShown(Result<(), String>),
}

/// What the machine asks the caller to do next.
pub enum HighlightAction {
    /// Hide the overlay and the tooltip.
    HidePanels,
    /// Show the overlay rectangle over the element.
    ShowOverlay,
    /// Show the tooltip beside the element.
    ShowTooltip,
    /// Answer the command with `result`; `warning`, when present, is a
    /// failure that does not fail the command and is only reported.
    Finish { result: Result<(), String>, warning: Option<String> },
}

/// The next action after a step.
pub open spec fn spec_next_highlight_action(step: HighlightStep) -> HighlightAction {
    match step {
        HighlightStep::Requested { drawable } => if drawable {
            HighlightAction::ShowOverlay
        } else {
            HighlightAction::HidePanels
        },
        HighlightStep::Hidden(r) => HighlightAction::Finish { result: r, warning: None },
        HighlightStep::OverlayShown(r) => match r {
            Ok(()) => HighlightAction::ShowTooltip,
            Err(e) => HighlightAction::Finish { result: Err(e), warning: None },
        },
        HighlightStep::TooltipShown(r) => match r {
            Ok(()) => HighlightAction::Finish { result: Ok(()), warning: None },
            Err(e) => HighlightAction::Finish { result: Ok(()), warning: Some(e) },
        },
    }
}

/// Decides the next action from the step just reported.
pub fn next_highlight_action(step: HighlightStep) -> (a: HighlightAction)
    ensures
        a == spec_next_highlight_action(step),
{
    match step {
        HighlightStep::Requested { drawable } => if drawable {
            HighlightAction::ShowOverlay
        } else {
            HighlightAction::HidePanels
        },
        HighlightStep::Hidden(r) => HighlightAction::Finish { result: r, warning: None },
        HighlightStep::OverlayShown(r) => match r {
            Ok(()) => HighlightAction::ShowTooltip,
            Err(e) => HighlightAction::Finish { result: Err(e), warning: None },
        },
        HighlightStep::TooltipShown(r) => match r {
            Ok(()) => HighlightAction::Finish { result: Ok(()), warning: None },
            Err(e) => HighlightAction::Finish { result: Ok(()), warning: Some(e) },
        },
    }
}

/// The action after feeding the outcome of `action` back, where the panel
/// work of hiding, showing the overlay and showing the tooltip has the given
/// outcomes.
pub open spec fn highlight_after(
    action: HighlightAction,
    hidden: Result<(), String>,
    overlay: Result<(), String>,
    tooltip: Result<(), String>,
) -> HighlightAction {
    match action {
        HighlightAction::HidePanels => spec_next_highlight_action(HighlightStep::Hidden(hidden)),
        HighlightAction::ShowOverlay => spec_next_highlight_action(
            HighlightStep::OverlayShown(overlay),
        ),
        HighlightAction::ShowTooltip => spec_next_highlight_action(
            HighlightStep::TooltipShown(tooltip),
        ),
        HighlightAction::Finish { result, warning } => action,
    }
}

/// The action reached from a request after `n` rounds of panel work.
pub open spec fn highlight_run(
    drawable: bool,
    hidden: Result<(), String>,
    overlay: Result<(), String>,
    tooltip: Result<(), String>,
    n: nat,
) -> HighlightAction
    decreases n,
{
    if n == 0 {
        spec_next_highlight_action(HighlightStep::Requested { drawable })
    } else {
        highlight_after(highlight_run(drawable, hidden, overlay, tooltip, (n - 1) as nat), hidden, overlay, tooltip)
    }
}

/// Driven from a request, the machine finishes within three rounds of panel
/// work and then stays finished. A frame that is too small only hides the
/// panels and answers as hiding did; otherwise a failure of the overlay is
/// the answer, and the tooltip never fails the command: its failure is only
/// a warning.
pub proof fn lemma_highlight_outcome(
    drawable: bool,
    hidden: Result<(), String>,
    overlay: Result<(), String>,
    tooltip: Result<(), String>,
    n: nat,
)
    requires
        n >= 3,
    ensures
        highlight_run(drawable, hidden, overlay, tooltip, n) == (if !drawable {
            HighlightAction::Finish { result: hidden, warning: None }
        } else {
            match overlay {
                Err(e) => HighlightAction::Finish { result: Err(e), warning: None },
                Ok(()) => match tooltip {
                    Ok(()) => HighlightAction::Finish { result: Ok(()), warning: None },
                    Err(e) => HighlightAction::Finish { result: Ok(()), warning: Some(e) },
                },
            }
        }),
    decreases n,
{
    reveal_with_fuel(highlight_run, 4);
    if n > 3 {
        lemma_highlight_outcome(drawable, hidden, overlay, tooltip, (n - 1) as nat);
    }
}

} // verus!
