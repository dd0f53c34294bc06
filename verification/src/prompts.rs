//! Turning a user's request into the prompt sent to a completion provider.

use vstd::prelude::*;
use crate::settings::{requested_or, requested_or_spec};

verus! {

/// Instructions for translating when the request brings none.
pub const DEFAULT_TRANSLATION_PROMPT: &'static str =
    "You are an expert translator. Translate the following text from {original_lang} to {target_lang}. Provide only the translated text, without any additional explanations or formatting.";

/// Instructions for correcting grammar when the request brings none.
pub const DEFAULT_CORRECTION_PROMPT: &'static str =
    "You are an expert in grammar. Correct the grammar of the following text in {target_lang}. Provide only the corrected text, without any additional explanations or formatting.";

/// Instructions for rewriting when the request brings none.
pub const DEFAULT_REFINE_PROMPT: &'static str =
    "You are an expert editor. Rewrite the following text in a more conversational style, in {target_lang}. Provide only the rewritten text, without any additional explanations or formatting.";

/// Placeholder for the language of the text as it is.
pub const ORIGINAL_LANG_PLACEHOLDER: &'static str = "{original_lang}";

/// Placeholder for the language asked for.
pub const TARGET_LANG_PLACEHOLDER: &'static str = "{target_lang}";

/// Language assumed when the request names none.
pub const DEFAULT_LANGUAGE: &'static str = "English";

/// What opens the user's turn.
pub const TURN_OPENING: &'static str = "<start_of_turn>user\n";

/// What closes the user's turn and opens the model's.
pub const TURN_CLOSING: &'static str = "\n<end_of_turn>\n<start_of_turn>model";

/// Answer shown when the provider could not complete the request.
pub const PROVIDER_APOLOGY: &'static str =
    "Something wrong with LLM provider API. Please check the config and try again!";

/// What the user wants done with the text.
#[derive(Clone, Copy, Debug, PartialEq, Eq, Structural)]
pub enum Task {
    Translate,
    Correct,
    Refine,
}

impl Task {
    /// The instructions used when the request brings none.
    pub open spec fn default_prompt_spec(self) -> &'static str {
        match self {
            Task::Translate => DEFAULT_TRANSLATION_PROMPT,
            Task::Correct => DEFAULT_CORRECTION_PROMPT,
            Task::Refine => DEFAULT_REFINE_PROMPT,
        }
    }

    /// The line that introduces the text within the turn.
    pub open spec fn label_spec(self) -> &'static str {
        match self {
            Task::Translate => "\n\nText to translate: ",
            Task::Correct => "\n\nText to correct: ",
            Task::Refine => "\n\nText to refine: ",
        }
    }

    /// The instructions used when the request brings none.
    #[verifier::when_used_as_spec(default_prompt_spec)]
    pub fn default_prompt(self) -> (prompt: &'static str)
        ensures
            prompt == self.default_prompt_spec(),
    {
        match self {
            Task::Translate => DEFAULT_TRANSLATION_PROMPT,
            Task::Correct => DEFAULT_CORRECTION_PROMPT,
            Task::Refine => DEFAULT_REFINE_PROMPT,
        }
    }

    /// The line that introduces the text within the turn.
    #[verifier::when_used_as_spec(label_spec)]
    pub fn label(self) -> (label: &'static str)
        ensures
            label == self.label_spec(),
    {
        match self {
            Task::Translate => "\n\nText to translate: ",
            Task::Correct => "\n\nText to correct: ",
            Task::Refine => "\n\nText to refine: ",
        }
    }
}

/// The text that `str::replace` returns for `text`, `pattern` and
/// `replacement`.
pub uninterp spec fn replaced(text: Seq<char>, pattern: Seq<char>, replacement: Seq<char>) -> Seq<
    char,
>;

/// `str::replace` with a string pattern: a new string in which every match
/// of `pattern` in `text` is replaced by `replacement`. The contract only
/// names that string; it is the same for the same three texts.
#[verifier::external_body]
fn replace_all(text: &str, pattern: &str, replacement: &str) -> (out: String)
    ensures
        out@ == replaced(text@, pattern@, replacement@),
{
    text.replace(pattern, replacement)
}

/// The instructions with both language placeholders filled in, a missing
/// language standing as English.
pub open spec fn filled_template(
    template: &str,
    original_lang: Option<&str>,
    target_lang: Option<&str>,
) -> Seq<char> {
    replaced(
        replaced(
            template@,
            ORIGINAL_LANG_PLACEHOLDER@,
            match original_lang {
                Some(lang) => lang@,
                None => DEFAULT_LANGUAGE@,
            },
        ),
        TARGET_LANG_PLACEHOLDER@,
        match target_lang {
            Some(lang) => lang@,
            None => DEFAULT_LANGUAGE@,
        },
    )
}

/// Fills the language placeholders of `template`: first the original
/// language, then the target language.
pub fn fill_template(template: &str, original_lang: Option<&str>, target_lang: Option<&str>) -> (out:
    String)
    ensures
        out@ == filled_template(template, original_lang, target_lang),
{
    let original = match original_lang {
        Some(lang) => lang,
        None => DEFAULT_LANGUAGE,
    };
    let target = match target_lang {
        Some(lang) => lang,
        None => DEFAULT_LANGUAGE,
    };
    let first = replace_all(template, ORIGINAL_LANG_PLACEHOLDER, original);
    replace_all(first.as_str(), TARGET_LANG_PLACEHOLDER, target)
}

/// The user's turn: opening, instructions, the task's label, the text,
/// closing.
pub open spec fn turn_of(task: Task, instructions: Seq<char>, text: Seq<char>) -> Seq<char> {
    TURN_OPENING@ + instructions + task.label_spec()@ + text + TURN_CLOSING@
}

/// Wraps instructions and text into the turn that is sent to the provider.
pub fn compose_turn(task: Task, instructions: &str, text: &str) -> (turn: String)
    ensures
        turn@ == turn_of(task, instructions@, text@),
{
    let mut turn = TURN_OPENING.to_owned();
    turn.append(instructions);
    turn.append(task.label());
    turn.append(text);
    turn.append(TURN_CLOSING);
    turn
}

/// What the application asks of a provider.
#[derive(Debug, PartialEq, Eq)]
pub struct CompletionRequest {
    pub provider: String,
    pub model: String,
    pub prompt: String,
}

/// The user's request as it arrives, everything but the text optional.
#[derive(Debug)]
pub struct TaskRequest<'a> {
    pub provider: Option<&'a str>,
    pub model: Option<&'a str>,
    pub text: &'a str,
    pub source_lang: Option<&'a str>,
    pub target_lang: Option<&'a str>,
    pub prompt: Option<&'a str>,
}

/// The instructions a request goes by: its own, or the task's default.
pub open spec fn instructions_of(task: Task, prompt: Option<&str>) -> &str {
    match prompt {
        Some(own) => own,
        None => task.default_prompt_spec(),
    }
}

/// Works out what to ask of which provider: the provider and model named by
/// the request, or the defaults where it names none or an empty one, and the
/// turn made of the filled-in instructions and the text.
pub fn prepare(task: Task, request: &TaskRequest, default_provider: &str, default_model: &str) -> (out:
    CompletionRequest)
    ensures
        out.provider@ == requested_or_spec(request.provider, default_provider),
        out.model@ == requested_or_spec(request.model, default_model),
        out.prompt@ == turn_of(
            task,
            filled_template(
                instructions_of(task, request.prompt),
                request.source_lang,
                request.target_lang,
            ),
            request.text@,
        ),
{
    let provider = requested_or(request.provider, default_provider);
    let model = requested_or(request.model, default_model);
    let instructions = match request.prompt {
        Some(own) => own,
        None => task.default_prompt(),
    };
    let filled = fill_template(instructions, request.source_lang, request.target_lang);
    CompletionRequest {
        provider: provider.to_owned(),
        model: model.to_owned(),
        prompt: compose_turn(task, filled.as_str(), request.text),
    }
}

/// The answer shown to the user: the provider's completion, or an apology
/// when the provider failed.
pub fn answer_or_apology(completion: Result<String, String>) -> (answer: String)
    ensures
        answer@ == match completion {
            Ok(text) => text@,
            Err(_) => PROVIDER_APOLOGY@,
        },
{
    match completion {
        Ok(text) => text,
        Err(_) => PROVIDER_APOLOGY.to_owned(),
    }
}

} // verus!
