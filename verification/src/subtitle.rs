//! What the translation worker publishes for the outcome of one chunk.

use crate::pipeline::{error_message, outcome_view, ErrorModel, PipelineError};
use crate::text::{trim, trimmed};
use vstd::prelude::*;

verus! {

/// One line of subtitle text for the listener.
#[derive(Clone, Debug, PartialEq, Eq)]
pub struct SubtitleEvent {
    pub text: String,
}

/// An optional event as a mathematical value: its text.
pub open spec fn event_view(event: Option<SubtitleEvent>) -> Option<Seq<char>> {
    match event {
        Some(event) => Some(event.text@),
        None => None,
    }
}

/// The bracketed text under which an error reaches the listener.
pub open spec fn error_text(error: ErrorModel) -> Seq<char> {
    "[API Error: "@ + error_message(error) + "]"@
}

/// The text published for an outcome: a translation without the white space
/// around it, and nothing if nothing is left of it; an error in brackets.
pub open spec fn subtitle_text(outcome: Result<Seq<char>, ErrorModel>) -> Option<Seq<char>> {
    match outcome {
        Ok(text) => if trimmed(text).len() == 0 {
            None
        } else {
            Some(trimmed(text))
        },
        Err(error) => Some(error_text(error)),
    }
}

/// The event to publish for the outcome of one chunk, if any.
pub fn subtitle_for(outcome: &Result<String, PipelineError>) -> (event: Option<SubtitleEvent>)
    ensures
        event_view(event) == subtitle_text(outcome_view(*outcome)),
{
    match outcome {
        Ok(text) => {
            let shown = trim(text.as_str());
            if shown.as_str().unicode_len() == 0 {
                None
            } else {
                Some(SubtitleEvent { text: shown })
            }
        },
        Err(error) => {
            let mut text = "[API Error: ".to_owned();
            text.append(error.message().as_str());
            text.append("]");
            Some(SubtitleEvent { text })
        },
    }
}

/// Every error is published, and so is every translation that holds more
/// than white space; only a blank translation is left out.
pub proof fn lemma_only_blank_text_is_dropped(outcome: Result<Seq<char>, ErrorModel>)
    ensures
        subtitle_text(outcome) is None <==> (outcome matches Ok(text) && crate::text::is_blank(
            text,
        )),
{
    if let Ok(text) = outcome {
        crate::text::lemma_trimmed_empty_iff_blank(text);
    }
}

} // verus!
