//! What the global shortcut does with the current selection.

use vstd::prelude::*;
use crate::settings::{stored_or_spec, DEFAULT_WINDOW_TYPE};
use crate::text::same_text;

verus! {

/// Window type that stands for the compact popup.
pub const POPUP_WINDOW_TYPE: &'static str = "popup";

/// What precedes the text in the payload sent to the window.
pub const PAYLOAD_PREFIX: &'static str = "text:";

/// The window in which a shortcut shows its result.
#[derive(Clone, Copy, Debug, PartialEq, Eq, Structural)]
pub enum ShortcutWindow {
    /// The compact popup at the pointer.
    Popup,
    /// The main window.
    Main,
}

/// What to do on a shortcut: show `payload` in `window`.
#[derive(Debug, PartialEq, Eq)]
pub struct ShortcutPlan {
    pub window: ShortcutWindow,
    pub payload: String,
}

/// The window that a window type names, if it names one.
pub open spec fn window_named(window_type: Seq<char>) -> Option<ShortcutWindow> {
    if window_type == POPUP_WINDOW_TYPE@ {
        Some(ShortcutWindow::Popup)
    } else if window_type == DEFAULT_WINDOW_TYPE@ {
        Some(ShortcutWindow::Main)
    } else {
        None
    }
}

/// Looks up the window for a window type: `popup` or `main`, exactly so.
pub fn shortcut_window(window_type: &str) -> (window: Option<ShortcutWindow>)
    ensures
        window == window_named(window_type@),
{
    if same_text(window_type, POPUP_WINDOW_TYPE) {
        Some(ShortcutWindow::Popup)
    } else if same_text(window_type, DEFAULT_WINDOW_TYPE) {
        Some(ShortcutWindow::Main)
    } else {
        None
    }
}

/// The text that `str::trim` returns for `text`.
pub uninterp spec fn trimmed(text: Seq<char>) -> Seq<char>;

/// `str::trim`: the slice of `text` without leading and trailing white
/// space. The contract only names that slice's text; it is the same for the
/// same text.
#[verifier::external_body]
fn trim<'a>(text: &'a str) -> (out: &'a str)
    ensures
        out@ == trimmed(text@),
{
    text.trim()
}

/// The plan for a shortcut, given the window type in force and the selected
/// text with the white space around it already removed: none when there is
/// no text left or the window type names no window, else the text, behind
/// its prefix, for the window named.
pub open spec fn plan_for(window_type: Seq<char>, text: Seq<char>) -> Option<
    (ShortcutWindow, Seq<char>),
> {
    match window_named(window_type) {
        Some(window) if text.len() > 0 => Some((window, PAYLOAD_PREFIX@ + text)),
        _ => None,
    }
}

/// The content of a plan, if there is one.
pub open spec fn plan_view(plan: Option<ShortcutPlan>) -> Option<(ShortcutWindow, Seq<char>)> {
    match plan {
        Some(p) => Some((p.window, p.payload@)),
        None => None,
    }
}

/// Decides what a shortcut does with selected text that was already
/// stripped of surrounding white space.
pub fn plan_shortcut(window_type: &str, text: &str) -> (plan: Option<ShortcutPlan>)
    ensures
        plan_view(plan) == plan_for(window_type@, text@),
{
    if text.is_empty() {
        return None;
    }
    match shortcut_window(window_type) {
        Some(window) => {
            let mut payload = PAYLOAD_PREFIX.to_owned();
            payload.append(text);
            Some(ShortcutPlan { window, payload })
        },
        None => None,
    }
}

/// Decides what a shortcut does, given what the application read: the
/// stored window type and the current selection.
///
/// A window type that could not be read counts as `main`. A selection that
/// could not be read gives no plan; otherwise the plan is the one for the
/// selection without its surrounding white space.
pub fn handle_shortcut_common(
    window_type: Result<String, String>,
    selection: Result<String, String>,
) -> (plan: Option<ShortcutPlan>)
    ensures
        plan_view(plan) == match selection {
            Ok(text) => plan_for(
                stored_or_spec(window_type.ok(), DEFAULT_WINDOW_TYPE),
                trimmed(text@),
            ),
            Err(_) => None,
        },
{
    let window_type = match window_type {
        Ok(stored) => stored,
        Err(_) => DEFAULT_WINDOW_TYPE.to_owned(),
    };
    match selection {
        Ok(text) => plan_shortcut(window_type.as_str(), trim(text.as_str())),
        Err(_) => None,
    }
}

} // verus!
