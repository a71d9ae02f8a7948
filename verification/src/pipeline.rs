//! The hybrid translation pipeline as a step function.
//!
//! A chunk of speech becomes subtitle text by one remote call when the target
//! language is English (speech to English text), and by two otherwise (speech
//! to a transcript in the spoken language, then text to text). The caller
//! makes the calls; this module says which call comes first, and what each
//! reply leads to: one more call, or the end with a text or an error. Nothing
//! is tried twice: a call that fails ends the run.

use crate::json::{
    array_value, element, element_of, integer_value, json_parse, json_view, member, member_of,
    members_of, models_of, object_value, parse_document, text_in, text_of, text_value, JsonModel,
};
use crate::text::{
    ascii_folded, equals_ignoring_ascii_case, is_blank, lemma_trimmed_empty_iff_blank,
    same_ignoring_ascii_case, trim, trimmed,
};
use vstd::prelude::*;

verus! {

/// The remote calls, which are also the stages at which a run can fail.
#[derive(Clone, Copy, Debug, PartialEq, Eq, Structural)]
pub enum Stage {
    /// Speech to English text.
    Translation,
    /// Speech to a transcript in the spoken language.
    Transcription,
    /// Text to text in the target language.
    Completion,
}

/// What came back from a remote call.
#[derive(Debug, PartialEq, Eq)]
pub enum RemoteReply {
    /// A success status with this body.
    Success { body: String },
    /// Any other status with this body.
    Rejected { body: String },
    /// No reply: the request could not be sent or the reply not be read.
    Unreachable { detail: String },
}

/// A reply as a mathematical value.
pub enum ReplyModel {
    Success { body: Seq<char> },
    Rejected { body: Seq<char> },
    Unreachable { detail: Seq<char> },
}

impl View for RemoteReply {
    type V = ReplyModel;

    open spec fn view(&self) -> ReplyModel {
        match *self {
            RemoteReply::Success { body } => ReplyModel::Success { body: body@ },
            RemoteReply::Rejected { body } => ReplyModel::Rejected { body: body@ },
            RemoteReply::Unreachable { detail } => ReplyModel::Unreachable { detail: detail@ },
        }
    }
}

/// Why a run of the pipeline produced no text.
#[derive(Debug, PartialEq, Eq)]
pub enum PipelineError {
    /// The service answered the call of `stage` with a non-success status.
    Api { stage: Stage, body: String },
    /// The service answered the call of `stage` with success, but the reply
    /// does not hold the expected field.
    MalformedResponse { stage: Stage },
    /// The call of `stage` got no reply.
    Transport { stage: Stage, detail: String },
}

/// An error as a mathematical value.
pub enum ErrorModel {
    Api { stage: Stage, body: Seq<char> },
    MalformedResponse { stage: Stage },
    Transport { stage: Stage, detail: Seq<char> },
}

impl View for PipelineError {
    type V = ErrorModel;

    open spec fn view(&self) -> ErrorModel {
        match *self {
            PipelineError::Api { stage, body } => ErrorModel::Api { stage, body: body@ },
            PipelineError::MalformedResponse { stage } => ErrorModel::MalformedResponse { stage },
            PipelineError::Transport { stage, detail } => ErrorModel::Transport {
                stage,
                detail: detail@,
            },
        }
    }
}

/// What the pipeline asks for after a reply.
#[derive(Debug, PartialEq)]
pub enum PipelineStep {
    /// Make the call of `stage` with this request body and hand its reply
    /// back at that stage.
    Call { stage: Stage, request: serde_json::Value },
    /// The run is over, with this text or this error.
    Finished { outcome: Result<String, PipelineError> },
}

/// A step as a mathematical value.
pub enum StepModel {
    Call { stage: Stage, request: JsonModel },
    Finished { outcome: Result<Seq<char>, ErrorModel> },
}

/// An outcome as a mathematical value.
pub open spec fn outcome_view(outcome: Result<String, PipelineError>) -> Result<
    Seq<char>,
    ErrorModel,
> {
    match outcome {
        Ok(text) => Ok(text@),
        Err(error) => Err(error@),
    }
}

impl View for PipelineStep {
    type V = StepModel;

    open spec fn view(&self) -> StepModel {
        match *self {
            PipelineStep::Call { stage, request } => StepModel::Call {
                stage,
                request: json_view(request),
            },
            PipelineStep::Finished { outcome } => StepModel::Finished {
                outcome: outcome_view(outcome),
            },
        }
    }
}

/// An optional text as a mathematical value.
pub open spec fn text_view(text: Option<String>) -> Option<Seq<char>> {
    match text {
        Some(text) => Some(text@),
        None => None,
    }
}

/// The document held by an optional value.
pub open spec fn document_view(document: Option<&serde_json::Value>) -> Option<JsonModel> {
    match document {
        Some(value) => Some(json_view(*value)),
        None => None,
    }
}

/// Whether `language` names English, in any mix of upper and lower case.
pub open spec fn is_english(language: Seq<char>) -> bool {
    same_ignoring_ascii_case(language, "English"@)
}

/// The call that a run for `language` begins with.
pub open spec fn first_stage(language: Seq<char>) -> Stage {
    if is_english(language) {
        Stage::Translation
    } else {
        Stage::Transcription
    }
}

/// The string under `"text"` at the top of `document`.
pub open spec fn text_field(document: JsonModel) -> Option<Seq<char>> {
    match member(document, "text"@) {
        Some(field) => text_of(field),
        None => None,
    }
}

/// The string at `choices[0].message.content` in `document`.
pub open spec fn completion_content(document: JsonModel) -> Option<Seq<char>> {
    match member(document, "choices"@) {
        Some(choices) => match element(choices, 0) {
            Some(choice) => match member(choice, "message"@) {
                Some(message) => match member(message, "content"@) {
                    Some(content) => text_of(content),
                    None => None,
                },
                None => None,
            },
            None => None,
        },
        None => None,
    }
}

/// The instruction that tells the remote model what to do with the transcript.
pub open spec fn system_instruction(language: Seq<char>) -> Seq<char> {
    "You are a fast, cinematic subtitle translator. Translate the following text into "@
        + language
        + ". ONLY output the raw translation, without quotes, notes, or descriptions."@
}

/// One chat message: who speaks and what is said.
pub open spec fn message_model(role: Seq<char>, content: Seq<char>) -> JsonModel {
    JsonModel::Object(
        Map::empty().insert("role"@, JsonModel::Text(role)).insert(
            "content"@,
            JsonModel::Text(content),
        ),
    )
}

/// The body of the text-to-text request that translates `transcript` into
/// `language`.
pub open spec fn completion_request(language: Seq<char>, transcript: Seq<char>) -> JsonModel {
    JsonModel::Object(
        Map::empty().insert("model"@, JsonModel::Text("gpt-4o-mini"@)).insert(
            "messages"@,
            JsonModel::Array(
                seq![
                    message_model("system"@, system_instruction(language)),
                    message_model("user"@, transcript),
                ],
            ),
        ).insert("max_tokens"@, JsonModel::Integer(100)),
    )
}

/// The step after a success reply to the call of `stage`, whose body was read
/// as `document` (nothing, if it is not JSON).
pub open spec fn success_step(
    stage: Stage,
    language: Seq<char>,
    document: Option<JsonModel>,
) -> StepModel {
    let malformed = StepModel::Finished {
        outcome: Err(ErrorModel::MalformedResponse { stage }),
    };
    match document {
        None => malformed,
        Some(document) => match stage {
            Stage::Translation => match text_field(document) {
                Some(text) => StepModel::Finished { outcome: Ok(text) },
                None => malformed,
            },
            Stage::Transcription => match text_field(document) {
                Some(text) => if trimmed(text).len() == 0 {
                    StepModel::Finished { outcome: Ok(Seq::empty()) }
                } else {
                    StepModel::Call {
                        stage: Stage::Completion,
                        request: completion_request(language, trimmed(text)),
                    }
                },
                None => malformed,
            },
            Stage::Completion => match completion_content(document) {
                Some(content) => StepModel::Finished { outcome: Ok(content) },
                None => malformed,
            },
        },
    }
}

/// The step after `reply` to the call of `stage`, in a run for `language`.
pub open spec fn next_step(stage: Stage, language: Seq<char>, reply: ReplyModel) -> StepModel {
    match reply {
        ReplyModel::Unreachable { detail } => StepModel::Finished {
            outcome: Err(ErrorModel::Transport { stage, detail }),
        },
        ReplyModel::Rejected { body } => StepModel::Finished {
            outcome: Err(ErrorModel::Api { stage, body }),
        },
        ReplyModel::Success { body } => success_step(stage, language, json_parse(body)),
    }
}

/// The model that the two speech calls name in their form.
pub const SPEECH_MODEL: &'static str = "whisper-1";

/// The file name under which a chunk is uploaded.
pub const UPLOAD_FILE_NAME: &'static str = "audio.wav";

/// The media type under which a chunk is uploaded.
pub const UPLOAD_MEDIA_TYPE: &'static str = "audio/wav";

/// The address that the call of `stage` is sent to.
pub open spec fn stage_endpoint(stage: Stage) -> Seq<char> {
    match stage {
        Stage::Translation => "https://api.openai.com/v1/audio/translations"@,
        Stage::Transcription => "https://api.openai.com/v1/audio/transcriptions"@,
        Stage::Completion => "https://api.openai.com/v1/chat/completions"@,
    }
}

/// How `stage` is called in messages.
pub open spec fn stage_name(stage: Stage) -> Seq<char> {
    match stage {
        Stage::Translation => "translation"@,
        Stage::Transcription => "transcription"@,
        Stage::Completion => "completion"@,
    }
}

/// What an error says of itself: the body the service sent, the missing reply's
/// detail, or which reply was malformed.
pub open spec fn error_message(error: ErrorModel) -> Seq<char> {
    match error {
        ErrorModel::Api { stage, body } => body,
        ErrorModel::MalformedResponse { stage } => "Invalid response from "@ + stage_name(stage)
            + " API"@,
        ErrorModel::Transport { stage, detail } => detail,
    }
}

/// A run for English begins with the translation call, and whatever the reply
/// to that call is, the run ends there: neither of the other calls is made.
pub proof fn lemma_english_takes_one_call(language: Seq<char>, reply: ReplyModel)
    requires
        same_ignoring_ascii_case(language, "english"@),
    ensures
        first_stage(language) == Stage::Translation,
        next_step(Stage::Translation, language, reply) is Finished,
{
    reveal_strlit("english");
    reveal_strlit("English");
    let lower = "english"@;
    let upper = "English"@;
    assert forall|i: int| 0 <= i < language.len() implies ascii_folded(#[trigger] language[i])
        == ascii_folded(upper[i]) by {
        assert(ascii_folded(language[i]) == ascii_folded(lower[i]));
        assert(ascii_folded(lower[i]) == ascii_folded(upper[i]));
    }
}

/// A run for any other language begins with the transcription call, and a
/// transcript that holds nothing but white space ends it with an empty text:
/// the text-to-text call is not made.
pub proof fn lemma_blank_transcript_ends_run(
    language: Seq<char>,
    body: Seq<char>,
    document: JsonModel,
    transcript: Seq<char>,
)
    requires
        !is_english(language),
        json_parse(body) == Some(document),
        text_field(document) == Some(transcript),
        is_blank(transcript),
    ensures
        first_stage(language) == Stage::Transcription,
        next_step(Stage::Transcription, language, ReplyModel::Success { body })
            == (StepModel::Finished { outcome: Ok(Seq::empty()) }),
{
    lemma_trimmed_empty_iff_blank(transcript);
}

/// A step that asks for another call comes only from a success reply to the
/// transcription call, and the call it asks for is the text-to-text call. So
/// a run makes two calls at most, and its second call is never followed by a
/// third.
pub proof fn lemma_only_transcription_is_followed(
    stage: Stage,
    language: Seq<char>,
    reply: ReplyModel,
)
    requires
        next_step(stage, language, reply) is Call,
    ensures
        stage == Stage::Transcription,
        reply is Success,
        next_step(stage, language, reply)->stage == Stage::Completion,
{
}

impl Stage {
    /// The call that a run for `language` begins with: the translation call
    /// for English, the transcription call for any other language.
    pub fn first(language: &str) -> (stage: Stage)
        ensures
            stage == first_stage(language@),
    {
        if equals_ignoring_ascii_case(language, "English") {
            Stage::Translation
        } else {
            Stage::Transcription
        }
    }

    /// The address that the call of this stage is sent to.
    pub fn endpoint(&self) -> (address: &'static str)
        ensures
            address@ == stage_endpoint(*self),
    {
        match self {
            Stage::Translation => "https://api.openai.com/v1/audio/translations",
            Stage::Transcription => "https://api.openai.com/v1/audio/transcriptions",
            Stage::Completion => "https://api.openai.com/v1/chat/completions",
        }
    }

    /// How this stage is called in messages.
    pub fn name(&self) -> (name: &'static str)
        ensures
            name@ == stage_name(*self),
    {
        match self {
            Stage::Translation => "translation",
            Stage::Transcription => "transcription",
            Stage::Completion => "completion",
        }
    }
}

impl PipelineError {
    /// What this error says of itself.
    pub fn message(&self) -> (message: String)
        ensures
            message@ == error_message(self@),
    {
        match self {
            PipelineError::Api { stage, body } => body.clone(),
            PipelineError::MalformedResponse { stage } => {
                let mut message = "Invalid response from ".to_owned();
                message.append(stage.name());
                message.append(" API");
                message
            },
            PipelineError::Transport { stage, detail } => detail.clone(),
        }
    }
}

/// Reads the string under `"text"` at the top of `document`.
pub fn read_text_field(document: &serde_json::Value) -> (text: Option<String>)
    ensures
        text_view(text) == text_field(json_view(*document)),
{
    match member_of(document, "text") {
        Some(field) => match text_in(field) {
            Some(text) => Some(text.to_owned()),
            None => None,
        },
        None => None,
    }
}

/// Reads the string at `choices[0].message.content` in `document`.
pub fn read_completion_content(document: &serde_json::Value) -> (content: Option<String>)
    ensures
        text_view(content) == completion_content(json_view(*document)),
{
    let choices = match member_of(document, "choices") {
        Some(choices) => choices,
        None => { return None; },
    };
    let choice = match element_of(choices, 0) {
        Some(choice) => choice,
        None => { return None; },
    };
    let message = match member_of(choice, "message") {
        Some(message) => message,
        None => { return None; },
    };
    let content = match member_of(message, "content") {
        Some(content) => content,
        None => { return None; },
    };
    match text_in(content) {
        Some(text) => Some(text.to_owned()),
        None => None,
    }
}

/// Builds one chat message.
fn message_value(role: &str, content: String) -> (message: serde_json::Value)
    ensures
        json_view(message) == message_model(role@, content@),
{
    let mut entries: Vec<(String, serde_json::Value)> = Vec::new();
    entries.push(("role".to_owned(), text_value(role.to_owned())));
    entries.push(("content".to_owned(), text_value(content)));
    proof {
        reveal_strlit("role");
        reveal_strlit("content");
        reveal_with_fuel(members_of, 3);
        assert(entries@.drop_last().drop_last().len() == 0);
        assert(entries@[0].0@.len() == 4 && entries@[1].0@.len() == 7);
    }
    object_value(entries)
}

/// Builds the body of the text-to-text request that translates `transcript`
/// into `language`.
pub fn build_completion_request(language: &str, transcript: &str) -> (request: serde_json::Value)
    ensures
        json_view(request) == completion_request(language@, transcript@),
{
    let mut instruction =
        "You are a fast, cinematic subtitle translator. Translate the following text into ".to_owned();
    instruction.append(language);
    instruction.append(". ONLY output the raw translation, without quotes, notes, or descriptions.");
    let mut messages: Vec<serde_json::Value> = Vec::new();
    messages.push(message_value("system", instruction));
    messages.push(message_value("user", transcript.to_owned()));
    assert(models_of(messages@) =~= seq![
        message_model("system"@, system_instruction(language@)),
        message_model("user"@, transcript@),
    ]);
    let mut entries: Vec<(String, serde_json::Value)> = Vec::new();
    entries.push(("model".to_owned(), text_value("gpt-4o-mini".to_owned())));
    entries.push(("messages".to_owned(), array_value(messages)));
    entries.push(("max_tokens".to_owned(), integer_value(100)));
    proof {
        reveal_strlit("model");
        reveal_strlit("messages");
        reveal_strlit("max_tokens");
        reveal_with_fuel(members_of, 4);
        assert(entries@.drop_last().drop_last().drop_last().len() == 0);
        assert(entries@[0].0@.len() == 5 && entries@[1].0@.len() == 8 && entries@[2].0@.len()
            == 10);
    }
    object_value(entries)
}

/// The step after a success reply to the call of `stage` in a run for
/// `language`, given the document read from the reply's body (nothing, if the
/// body is not JSON).
pub fn step_after_success(
    stage: Stage,
    language: &str,
    document: Option<&serde_json::Value>,
) -> (step: PipelineStep)
    ensures
        step@ == success_step(stage, language@, document_view(document)),
{
    let document = match document {
        Some(document) => document,
        None => {
            return PipelineStep::Finished {
                outcome: Err(PipelineError::MalformedResponse { stage }),
            };
        },
    };
    let found = match stage {
        Stage::Translation => read_text_field(document),
        Stage::Transcription => read_text_field(document),
        Stage::Completion => read_completion_content(document),
    };
    let text = match found {
        Some(text) => text,
        None => {
            return PipelineStep::Finished {
                outcome: Err(PipelineError::MalformedResponse { stage }),
            };
        },
    };
    match stage {
        Stage::Transcription => {
            let transcript = trim(text.as_str());
            if transcript.as_str().unicode_len() == 0 {
                PipelineStep::Finished { outcome: Ok(String::new()) }
            } else {
                PipelineStep::Call {
                    stage: Stage::Completion,
                    request: build_completion_request(language, transcript.as_str()),
                }
            }
        },
        _ => PipelineStep::Finished { outcome: Ok(text) },
    }
}

/// The step after `reply` to the call of `stage` in a run for `language`.
pub fn advance(stage: Stage, language: &str, reply: RemoteReply) -> (step: PipelineStep)
    ensures
        step@ == next_step(stage, language@, reply@),
{
    match reply {
        RemoteReply::Unreachable { detail } => PipelineStep::Finished {
            outcome: Err(PipelineError::Transport { stage, detail }),
        },
        RemoteReply::Rejected { body } => PipelineStep::Finished {
            outcome: Err(PipelineError::Api { stage, body }),
        },
        RemoteReply::Success { body } => match parse_document(body.as_str()) {
            Ok(document) => step_after_success(stage, language, Some(&document)),
            Err(_) => step_after_success(stage, language, None),
        },
    }
}

} // verus!
