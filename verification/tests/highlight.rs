use claw_kernel::highlight::{next_highlight_action, HighlightAction, HighlightStep};

fn run(
    drawable: bool,
    hidden: Result<(), String>,
    overlay: Result<(), String>,
    tooltip: Result<(), String>,
) -> (Vec<&'static str>, Result<(), String>, Option<String>) {
    let mut done = Vec::new();
    let mut action = next_highlight_action(HighlightStep::Requested { drawable });
    loop {
        action = match action {
            HighlightAction::HidePanels => {
                done.push("hide");
                next_highlight_action(HighlightStep::Hidden(hidden.clone()))
            }
            HighlightAction::ShowOverlay => {
                done.push("overlay");
                next_highlight_action(HighlightStep::OverlayShown(overlay.clone()))
            }
            HighlightAction::ShowTooltip => {
                done.push("tooltip");
                next_highlight_action(HighlightStep::TooltipShown(tooltip.clone()))
            }
            HighlightAction::Finish { result, warning } => return (done, result, warning),
        }
    }
}

#[test]
fn highlight_small_frame_only_hides() {
    let (done, result, warning) = run(false, Ok(()), Err("x".into()), Err("y".into()));
    assert_eq!(done, vec!["hide"]);
    assert_eq!(result, Ok(()));
    assert_eq!(warning, None);
}

#[test]
fn highlight_shows_overlay_then_tooltip() {
    let (done, result, warning) = run(true, Ok(()), Ok(()), Ok(()));
    assert_eq!(done, vec!["overlay", "tooltip"]);
    assert_eq!(result, Ok(()));
    assert_eq!(warning, None);
}

#[test]
fn highlight_overlay_failure_fails_command() {
    let (done, result, warning) =
        run(true, Ok(()), Err("Overlay panel not found".into()), Ok(()));
    assert_eq!(done, vec!["overlay"]);
    assert_eq!(result, Err("Overlay panel not found".to_string()));
    assert_eq!(warning, None);
}

#[test]
fn highlight_tooltip_failure_is_only_a_warning() {
    let (done, result, warning) =
        run(true, Ok(()), Ok(()), Err("Tooltip webview window not found".into()));
    assert_eq!(done, vec!["overlay", "tooltip"]);
    assert_eq!(result, Ok(()));
    assert_eq!(warning, Some("Tooltip webview window not found".to_string()));
}

#[test]
fn highlight_single_steps() {
    assert!(matches!(
        next_highlight_action(HighlightStep::Requested { drawable: true }),
        HighlightAction::ShowOverlay
    ));
    assert!(matches!(
        next_highlight_action(HighlightStep::Requested { drawable: false }),
        HighlightAction::HidePanels
    ));
    assert!(matches!(
        next_highlight_action(HighlightStep::Hidden(Err("h".into()))),
        HighlightAction::Finish { result: Err(ref e), warning: None } if e == "h"
    ));
}
