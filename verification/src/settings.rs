//! Rules for reading and writing the persisted settings.
//!
//! The store itself is the application's business; this module decides which
//! value stands for a missing one and which submitted values are written.

use vstd::prelude::*;
use crate::text::same_text;

verus! {

/// Provider used when none is stored.
pub const DEFAULT_PROVIDER: &'static str = "ollama";

/// Model used when none is stored.
pub const DEFAULT_MODEL: &'static str = "gemma3";

/// Window that a shortcut opens when no preference is stored.
pub const DEFAULT_WINDOW_TYPE: &'static str = "main";

/// The text of `stored`, or of `fallback` when nothing is stored.
pub open spec fn stored_or_spec(stored: Option<String>, fallback: &str) -> Seq<char> {
    match stored {
        Some(value) => value@,
        None => fallback@,
    }
}

/// A stored string, or `fallback` when the key is missing or holds something
/// that is not a string.
pub fn stored_or(stored: Option<String>, fallback: &str) -> (value: String)
    ensures
        value@ == stored_or_spec(stored, fallback),
{
    match stored {
        Some(value) => value,
        None => fallback.to_owned(),
    }
}

/// The provider and the model to use when a request names none.
pub fn get_default_settings(provider: Option<String>, model: Option<String>) -> (defaults: (
    String,
    String,
))
    ensures
        defaults.0@ == stored_or_spec(provider, DEFAULT_PROVIDER),
        defaults.1@ == stored_or_spec(model, DEFAULT_MODEL),
{
    (stored_or(provider, DEFAULT_PROVIDER), stored_or(model, DEFAULT_MODEL))
}

/// The window that a shortcut opens: the stored preference, the main window
/// without one.
pub fn get_shortcut_window_type(stored: Option<String>) -> (window_type: String)
    ensures
        window_type@ == stored_or_spec(stored, DEFAULT_WINDOW_TYPE),
{
    stored_or(stored, DEFAULT_WINDOW_TYPE)
}

/// The text of `requested` if it is there and not empty, else of `fallback`.
pub open spec fn requested_or_spec(requested: Option<&str>, fallback: &str) -> Seq<char> {
    match requested {
        Some(value) if value@.len() > 0 => value@,
        _ => fallback@,
    }
}

/// What a request asked for, or `fallback` when it asked for nothing or for
/// the empty string.
pub fn requested_or<'a>(requested: Option<&'a str>, fallback: &'a str) -> (value: &'a str)
    ensures
        value@ == requested_or_spec(requested, fallback),
{
    match requested {
        Some(value) => {
            if value.is_empty() {
                fallback
            } else {
                value
            }
        },
        None => fallback,
    }
}

/// The keys under which settings are written.
#[derive(Clone, Copy, Debug, PartialEq, Eq, Structural)]
pub enum SettingKey {
    ApiKey,
    ShortcutWindowType,
    Provider,
    Model,
    Prompt,
}

impl SettingKey {
    /// The key's name in the store.
    pub fn name(self) -> (name: &'static str)
        ensures
            name@ == match self {
                SettingKey::ApiKey => "OPENAI_API_KEY"@,
                SettingKey::ShortcutWindowType => "SHORTCUT_WINDOW_TYPE"@,
                SettingKey::Provider => "PROVIDER"@,
                SettingKey::Model => "MODEL"@,
                SettingKey::Prompt => "PROMPT"@,
            },
    {
        match self {
            SettingKey::ApiKey => "OPENAI_API_KEY",
            SettingKey::ShortcutWindowType => "SHORTCUT_WINDOW_TYPE",
            SettingKey::Provider => "PROVIDER",
            SettingKey::Model => "MODEL",
            SettingKey::Prompt => "PROMPT",
        }
    }
}

/// One value to write to the store.
#[derive(Debug, PartialEq, Eq)]
pub struct SettingWrite {
    pub key: SettingKey,
    pub value: String,
}

/// The mathematical content of a [`SettingWrite`].
pub struct SettingWriteView {
    pub key: SettingKey,
    pub value: Seq<char>,
}

impl View for SettingWrite {
    type V = SettingWriteView;

    open spec fn view(&self) -> SettingWriteView {
        SettingWriteView { key: self.key, value: self.value@ }
    }
}

/// The settings as submitted by the user, each of them optional.
#[derive(Debug)]
pub struct SettingsUpdate {
    pub api_key: Option<String>,
    pub shortcut_window_type: Option<String>,
    pub provider: Option<String>,
    pub model: Option<String>,
    pub prompt: Option<String>,
}

/// Whether a submitted value is written: it is there and not empty.
pub open spec fn is_submitted(value: Option<String>) -> bool {
    value matches Some(text) && text@.len() > 0
}

/// Whether a submitted prompt is written: it is there, not empty, and not
/// the text that a user interface leaves behind for a missing value.
pub open spec fn is_submitted_prompt(value: Option<String>) -> bool {
    is_submitted(value) && value.unwrap()@ != "undefined"@ && value.unwrap()@ != "null"@
}

/// The write for `value` under `key` if `wanted`, as a list of at most one.
pub open spec fn write_if(wanted: bool, key: SettingKey, value: Option<String>) -> Seq<
    SettingWriteView,
> {
    if wanted {
        seq![SettingWriteView { key, value: value.unwrap()@ }]
    } else {
        Seq::empty()
    }
}

/// The writes that an update amounts to, in the order in which they are
/// made: API key, shortcut window type, provider, model, prompt.
pub open spec fn writes_of(update: SettingsUpdate) -> Seq<SettingWriteView> {
    write_if(is_submitted(update.api_key), SettingKey::ApiKey, update.api_key) + write_if(
        is_submitted(update.shortcut_window_type),
        SettingKey::ShortcutWindowType,
        update.shortcut_window_type,
    ) + write_if(is_submitted(update.provider), SettingKey::Provider, update.provider) + write_if(
        is_submitted(update.model),
        SettingKey::Model,
        update.model,
    ) + write_if(is_submitted_prompt(update.prompt), SettingKey::Prompt, update.prompt)
}

/// The contents of a list of writes, in order.
pub open spec fn write_views(writes: Seq<SettingWrite>) -> Seq<SettingWriteView> {
    writes.map_values(|w: SettingWrite| w@)
}

fn push_if_submitted(writes: &mut Vec<SettingWrite>, key: SettingKey, value: Option<String>)
    ensures
        write_views(final(writes)@) == write_views(old(writes)@) + write_if(
            is_submitted(value),
            key,
            value,
        ),
{
    let ghost before = writes@;
    if let Some(text) = value {
        if !text.as_str().is_empty() {
            writes.push(SettingWrite { key, value: text });
            assert(write_views(writes@) == write_views(before) + write_if(true, key, value));
            return;
        }
    }
    assert(write_views(writes@) == write_views(before) + write_if(false, key, value));
}

/// Decides which of the submitted settings are written to the store, and in
/// which order. Missing and empty values are skipped, and so is a prompt
/// that reads `undefined` or `null`.
pub fn save_settings(update: SettingsUpdate) -> (writes: Vec<SettingWrite>)
    ensures
        write_views(writes@) == writes_of(update),
{
    let mut writes: Vec<SettingWrite> = Vec::new();
    assert(write_views(writes@) == Seq::<SettingWriteView>::empty());
    push_if_submitted(&mut writes, SettingKey::ApiKey, update.api_key);
    push_if_submitted(&mut writes, SettingKey::ShortcutWindowType, update.shortcut_window_type);
    push_if_submitted(&mut writes, SettingKey::Provider, update.provider);
    push_if_submitted(&mut writes, SettingKey::Model, update.model);
    let prompt = match update.prompt {
        Some(text) => {
            if same_text(text.as_str(), "undefined") || same_text(text.as_str(), "null") {
                None
            } else {
                Some(text)
            }
        },
        None => None,
    };
    let ghost before = writes@;
    push_if_submitted(&mut writes, SettingKey::Prompt, prompt);
    assert(write_if(is_submitted(prompt), SettingKey::Prompt, prompt) == write_if(
        is_submitted_prompt(update.prompt),
        SettingKey::Prompt,
        update.prompt,
    ));
    assert(write_views(writes@) == writes_of(update));
    writes
}

} // verus!
