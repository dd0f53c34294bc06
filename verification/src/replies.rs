//! What a provider's reply to a completion request means.

use vstd::prelude::*;
use crate::providers::{GeminiProvider, GroqProvider, OllamaProvider, OpenAIProvider, ProviderKind};

verus! {

/// The outcome of one completion request, decoded as far as the transport
/// allows. `T` is the provider's own shape of a decoded answer.
#[derive(Debug)]
pub enum Reply<T> {
    /// The request could not be sent or no response came; holds the
    /// transport's message.
    Unsent(String),
    /// The provider answered with a status other than success; holds the
    /// response's text.
    Refused(String),
    /// The response could not be decoded; holds the decoder's message.
    Garbled(String),
    /// The decoded answer.
    Parsed(T),
}

/// Answer when an OpenAI-style response holds no choice.
pub open spec fn no_content_message(kind: ProviderKind) -> Seq<char> {
    "No content in "@ + kind.label_spec()@ + " response"@
}

/// Answer when a Gemini response holds no candidate with a part.
pub const GEMINI_NO_CONTENT: &'static str = "Failed to parse response from Gemini API";

/// The message for a reply that holds no decoded answer.
pub open spec fn failure_message<T>(kind: ProviderKind, reply: Reply<T>) -> Seq<char> {
    match reply {
        Reply::Unsent(message) => message@,
        Reply::Refused(body) => kind.label_spec()@ + " API request failed: "@ + body@,
        Reply::Garbled(message) => "Failed to deserialize "@ + kind.label_spec()@ + " response: "@
            + message@,
        Reply::Parsed(_) => Seq::empty(),
    }
}

/// A completion or the message that explains its absence, as texts.
pub open spec fn outcome_view(outcome: Result<String, String>) -> Result<Seq<char>, Seq<char>> {
    match outcome {
        Ok(text) => Ok(text@),
        Err(message) => Err(message@),
    }
}

fn refused(kind: ProviderKind, body: &str) -> (message: String)
    ensures
        message@ == kind.label_spec()@ + " API request failed: "@ + body@,
{
    let mut message = kind.label().to_owned();
    message.append(" API request failed: ");
    message.append(body);
    message
}

fn garbled(kind: ProviderKind, detail: &str) -> (message: String)
    ensures
        message@ == "Failed to deserialize "@ + kind.label_spec()@ + " response: "@ + detail@,
{
    let mut message = "Failed to deserialize ".to_owned();
    message.append(kind.label());
    message.append(" response: ");
    message.append(detail);
    message
}

fn no_content(kind: ProviderKind) -> (message: String)
    ensures
        message@ == no_content_message(kind),
{
    let mut message = "No content in ".to_owned();
    message.append(kind.label());
    message.append(" response");
    message
}

/// What an Ollama reply means: the decoded response is the completion.
pub open spec fn ollama_outcome(reply: Reply<String>) -> Result<Seq<char>, Seq<char>> {
    match reply {
        Reply::Parsed(response) => Ok(response@),
        _ => Err(failure_message(ProviderKind::Ollama, reply)),
    }
}

/// Reads an Ollama reply.
pub fn read_ollama_reply(reply: Reply<String>) -> (outcome: Result<String, String>)
    ensures
        outcome_view(outcome) == ollama_outcome(reply),
{
    match reply {
        Reply::Unsent(message) => Err(message),
        Reply::Refused(body) => Err(refused(ProviderKind::Ollama, body.as_str())),
        Reply::Garbled(detail) => Err(garbled(ProviderKind::Ollama, detail.as_str())),
        Reply::Parsed(response) => Ok(response),
    }
}

/// What a chat reply of OpenAI's shape means: the content of the first
/// choice is the completion, and a reply without choices is a failure.
pub open spec fn chat_outcome(kind: ProviderKind, reply: Reply<Vec<String>>) -> Result<
    Seq<char>,
    Seq<char>,
> {
    match reply {
        Reply::Parsed(choices) => {
            if choices@.len() > 0 {
                Ok(choices@[0]@)
            } else {
                Err(no_content_message(kind))
            }
        },
        _ => Err(failure_message(kind, reply)),
    }
}

/// Reads a chat reply of OpenAI's shape, as OpenAI and Groq send it. The
/// decoded answer holds the content of each choice, in order.
pub fn read_chat_reply(kind: ProviderKind, reply: Reply<Vec<String>>) -> (outcome: Result<
    String,
    String,
>)
    ensures
        outcome_view(outcome) == chat_outcome(kind, reply),
{
    match reply {
        Reply::Unsent(message) => Err(message),
        Reply::Refused(body) => Err(refused(kind, body.as_str())),
        Reply::Garbled(detail) => Err(garbled(kind, detail.as_str())),
        Reply::Parsed(choices) => {
            if choices.len() > 0 {
                Ok(choices[0].clone())
            } else {
                Err(no_content(kind))
            }
        },
    }
}

/// What a Gemini reply means: the text of the first part of the first
/// candidate is the completion; a reply without candidates, or whose first
/// candidate has no part, is a failure.
pub open spec fn gemini_outcome(reply: Reply<Vec<Vec<String>>>) -> Result<Seq<char>, Seq<char>> {
    match reply {
        Reply::Parsed(candidates) => {
            if candidates@.len() > 0 && candidates@[0]@.len() > 0 {
                Ok(candidates@[0]@[0]@)
            } else {
                Err(GEMINI_NO_CONTENT@)
            }
        },
        _ => Err(failure_message(ProviderKind::Gemini, reply)),
    }
}

/// Reads a Gemini reply. The decoded answer holds, for each candidate in
/// order, the texts of its parts in order.
pub fn read_gemini_reply(reply: Reply<Vec<Vec<String>>>) -> (outcome: Result<String, String>)
    ensures
        outcome_view(outcome) == gemini_outcome(reply),
{
    match reply {
        Reply::Unsent(message) => Err(message),
        Reply::Refused(body) => Err(refused(ProviderKind::Gemini, body.as_str())),
        Reply::Garbled(detail) => Err(garbled(ProviderKind::Gemini, detail.as_str())),
        Reply::Parsed(candidates) => {
            if candidates.len() > 0 && candidates[0].len() > 0 {
                Ok(candidates[0][0].clone())
            } else {
                Err(GEMINI_NO_CONTENT.to_owned())
            }
        },
    }
}

/// A provider of completions, as far as its replies go: it knows the shape
/// of its decoded answers and what a reply amounts to.
pub trait Provider {
    /// The provider's own shape of a decoded answer.
    type Answer;

    /// The completion that `reply` amounts to, or the message that explains
    /// why there is none.
    spec fn completion_of(&self, reply: Reply<Self::Answer>) -> Result<Seq<char>, Seq<char>>;

    /// Reads the reply to a completion request.
    fn completion(&self, reply: Reply<Self::Answer>) -> (outcome: Result<String, String>)
        ensures
            outcome_view(outcome) == self.completion_of(reply),
    ;
}

impl Provider for OllamaProvider {
    type Answer = String;

    open spec fn completion_of(&self, reply: Reply<String>) -> Result<Seq<char>, Seq<char>> {
        ollama_outcome(reply)
    }

    fn completion(&self, reply: Reply<String>) -> (outcome: Result<String, String>) {
        read_ollama_reply(reply)
    }
}

impl Provider for OpenAIProvider {
    type Answer = Vec<String>;

    open spec fn completion_of(&self, reply: Reply<Vec<String>>) -> Result<Seq<char>, Seq<char>> {
        chat_outcome(ProviderKind::OpenAI, reply)
    }

    fn completion(&self, reply: Reply<Vec<String>>) -> (outcome: Result<String, String>) {
        read_chat_reply(ProviderKind::OpenAI, reply)
    }
}

impl Provider for GroqProvider {
    type Answer = Vec<String>;

    open spec fn completion_of(&self, reply: Reply<Vec<String>>) -> Result<Seq<char>, Seq<char>> {
        chat_outcome(ProviderKind::Groq, reply)
    }

    fn completion(&self, reply: Reply<Vec<String>>) -> (outcome: Result<String, String>) {
        read_chat_reply(ProviderKind::Groq, reply)
    }
}

impl Provider for GeminiProvider {
    type Answer = Vec<Vec<String>>;

    open spec fn completion_of(&self, reply: Reply<Vec<Vec<String>>>) -> Result<
        Seq<char>,
        Seq<char>,
    > {
        gemini_outcome(reply)
    }

    fn completion(&self, reply: Reply<Vec<Vec<String>>>) -> (outcome: Result<String, String>) {
        read_gemini_reply(reply)
    }
}

} // verus!
