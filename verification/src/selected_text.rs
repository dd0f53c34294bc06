//! What the outcome of copying the selection to the clipboard means.

use vstd::prelude::*;
use crate::replies::outcome_view;

verus! {

/// The platforms on which the selection can be copied.
#[derive(Clone, Copy, Debug, PartialEq, Eq, Structural)]
pub enum Platform {
    MacOs,
    Windows,
}

/// Message when the copy script could not be run on macOS.
pub const SCRIPT_FAILED: &'static str = "Failed to execute AppleScript command";

/// What precedes the system's message when the copy keys could not be sent
/// on Windows.
pub const KEYS_FAILED_PREFIX: &'static str = "Failed to send Ctrl+C: ";

/// Message when the clipboard could not be read.
pub const CLIPBOARD_UNREADABLE: &'static str = "Failed to read from clipboard";

/// Message when the clipboard is empty after copying: nothing was selected.
pub const NOTHING_SELECTED: &'static str = "No text selection detected";

/// The message for a failed attempt to send the copy command; `detail` is
/// what the operating system said.
pub fn copy_failure(platform: Platform, detail: &str) -> (message: String)
    ensures
        message@ == match platform {
            Platform::MacOs => SCRIPT_FAILED@,
            Platform::Windows => KEYS_FAILED_PREFIX@ + detail@,
        },
{
    match platform {
        Platform::MacOs => SCRIPT_FAILED.to_owned(),
        Platform::Windows => {
            let mut message = KEYS_FAILED_PREFIX.to_owned();
            message.append(detail);
            message
        },
    }
}

/// What an attempt to send the copy command means: a failed attempt is a
/// failure of reading the selection, with the platform's message.
pub open spec fn copy_outcome_of(platform: Platform, sent: Result<(), String>) -> Result<
    (),
    Seq<char>,
> {
    match sent {
        Ok(_) => Ok(()),
        Err(detail) => Err(
            match platform {
                Platform::MacOs => SCRIPT_FAILED@,
                Platform::Windows => KEYS_FAILED_PREFIX@ + detail@,
            },
        ),
    }
}

/// Reads the outcome of sending the copy command: the clipboard is worth
/// looking at only if this is `Ok`.
pub fn copy_outcome(platform: Platform, sent: Result<(), String>) -> (outcome: Result<(), String>)
    ensures
        match outcome {
            Ok(_) => copy_outcome_of(platform, sent).is_ok(),
            Err(message) => copy_outcome_of(platform, sent) == Err::<(), Seq<char>>(message@),
        },
{
    match sent {
        Ok(_) => Ok(()),
        Err(detail) => Err(copy_failure(platform, detail.as_str())),
    }
}

/// What the clipboard's content means once the copy command was sent: an
/// unreadable clipboard and an empty one are failures, on every platform;
/// any other content is the selected text itself.
pub open spec fn selection_of(clipboard: Result<String, String>) -> Result<Seq<char>, Seq<char>> {
    match clipboard {
        Ok(text) => {
            if text@.len() == 0 {
                Err(NOTHING_SELECTED@)
            } else {
                Ok(text@)
            }
        },
        Err(_) => Err(CLIPBOARD_UNREADABLE@),
    }
}

/// Reads the selection off the clipboard's content after the copy command
/// was sent. Nothing selected is a failure, never an empty selection.
pub fn get_selected_text(clipboard: Result<String, String>) -> (selection: Result<String, String>)
    ensures
        outcome_view(selection) == selection_of(clipboard),
{
    match clipboard {
        Ok(text) => {
            if text.as_str().is_empty() {
                Err(NOTHING_SELECTED.to_owned())
            } else {
                Ok(text)
            }
        },
        Err(_) => Err(CLIPBOARD_UNREADABLE.to_owned()),
    }
}

/// A selection that was read is the text that the clipboard held, and is
/// never empty.
pub proof fn lemma_selection_is_the_clipboard_text(clipboard: Result<String, String>)
    ensures
        selection_of(clipboard) matches Ok(text) ==> text.len() > 0,
        selection_of(clipboard) matches Ok(text) ==> (clipboard matches Ok(held) && text
            == held@),
{
}

} // verus!
