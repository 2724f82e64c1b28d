//! The chat-completion exchange with an OpenAI-compatible provider: its wire
//! values, its settings, and the decisions taken between its network steps.

use vstd::prelude::*;

use crate::ai::error::AiError;
use crate::domain::entities::AiProfile;
use crate::text::{chars_of, string_from_chars};

verus! {

broadcast use vstd::string::group_string_axioms;

/// A single message in the chat conversation.
#[derive(Debug, Clone)]
pub struct ChatMessage {
    pub role: String,
    pub content: String,
}

/// Token usage statistics returned by the API.
#[derive(Debug, Clone, Copy)]
pub struct Usage {
    pub prompt_tokens: u32,
    pub completion_tokens: u32,
    pub total_tokens: u32,
}

/// The result of a chat completion request.
#[derive(Debug, Clone)]
pub struct ChatResponse {
    pub content: String,
    pub usage: Option<Usage>,
}

/// `s` without its trailing slashes, as `trim_end_matches('/')` gives it.
pub open spec fn trim_trailing_slashes(s: Seq<char>) -> Seq<char>
    decreases s.len(),
{
    if s.len() > 0 && s.last() == '/' {
        trim_trailing_slashes(s.drop_last())
    } else {
        s
    }
}

/// The chat-completions endpoint under a base URL.
pub open spec fn completions_url_text(base_url: Seq<char>) -> Seq<char> {
    base_url + "/v1/chat/completions"@
}

/// The settings of a client for one provider profile.
pub struct ClientSettings {
    /// The provider's base URL, without trailing slashes.
    pub base_url: String,
    pub api_key: String,
    pub model: String,
    pub max_tokens: Option<u32>,
    /// Sampling temperature, held as the bits of its `f32`.
    pub temperature: Option<u32>,
}

/// Remove every trailing `/` of `s`.
pub fn trim_trailing_slashes_of(s: &str) -> (r: String)
    ensures
        r@ == trim_trailing_slashes(s@),
{
    let mut cs = chars_of(s);
    while cs.len() > 0 && cs[cs.len() - 1] == '/'
        invariant
            trim_trailing_slashes(cs@) == trim_trailing_slashes(s@),
        decreases cs.len(),
    {
        let ghost before = cs@;
        cs.pop();
        assert(cs@ =~= before.drop_last());
    }
    string_from_chars(&cs)
}

/// Whether `c` are the settings for the profile `p`: its key, model, token
/// limit and temperature, and its base URL without trailing slashes.
pub open spec fn settings_for(c: ClientSettings, p: AiProfile) -> bool {
    &&& c.base_url@ == trim_trailing_slashes(p.base_url@)
    &&& c.api_key == p.api_key
    &&& c.model == p.model
    &&& c.max_tokens == p.max_tokens
    &&& c.temperature == p.temperature
}

impl ClientSettings {
    /// The settings for a provider profile: its key, model, token limit and
    /// temperature, and its base URL without trailing slashes.
    pub fn from_profile(profile: &AiProfile) -> (r: Self)
        ensures
            settings_for(r, *profile),
    {
        ClientSettings {
            base_url: trim_trailing_slashes_of(profile.base_url.as_str()),
            api_key: profile.api_key.clone(),
            model: profile.model.clone(),
            max_tokens: profile.max_tokens,
            temperature: profile.temperature,
        }
    }

    /// The URL the chat completions are posted to.
    pub fn completions_url(&self) -> (r: String)
        ensures
            r@ == completions_url_text(self.base_url@),
    {
        let mut url = self.base_url.clone();
        url.append("/v1/chat/completions");
        url
    }
}

/// Where a chat exchange stands.
pub enum ChatStage {
    /// The request has been sent; the answer's status is awaited.
    AwaitingStatus,
    /// The provider refused the request with the given status; its body is awaited.
    ReadingErrorBody { status: String },
    /// The provider accepted the request; its decoded body is awaited.
    Decoding,
    /// The exchange is over.
    Finished,
}

/// What happened in the network step just taken.
pub enum ChatEvent {
    /// Sending the request failed; the text says why.
    SendFailed(String),
    /// The provider answered: whether the status is a success, and the status as text.
    Status { success: bool, status: String },
    /// The body of a refused request (empty when it could not be read).
    ErrorBody(String),
    /// The body of an accepted request, decoded: the message content of each
    /// choice, in order, and the usage statistics.
    Decoded { contents: Vec<String>, usage: Option<Usage> },
    /// The body of an accepted request could not be decoded; the text says why.
    DecodeFailed(String),
}

/// The next network step, or the end of the exchange.
pub enum ChatAction {
    /// Read the body of the refused request as text.
    ReadErrorBody,
    /// Read and decode the body of the accepted request.
    DecodeBody,
    /// The exchange ends with this result.
    Finish(Result<ChatResponse, AiError>),
}

/// Whether `event` is one that can follow the stage `stage`.
pub open spec fn event_fits(stage: ChatStage, event: ChatEvent) -> bool {
    match stage {
        ChatStage::AwaitingStatus => event is SendFailed || event is Status,
        ChatStage::ReadingErrorBody { .. } => event is ErrorBody,
        ChatStage::Decoding => event is Decoded || event is DecodeFailed,
        ChatStage::Finished => false,
    }
}

/// The message of a refused request.
pub open spec fn refused_text(status: Seq<char>, body: Seq<char>) -> Seq<char> {
    "HTTP "@ + status + ": "@ + body
}

/// The message of an undecodable answer.
pub open spec fn undecodable_text(why: Seq<char>) -> Seq<char> {
    "Failed to parse response: "@ + why
}

/// The reply text of a decoded answer: the content of its first choice, or
/// nothing when it has no choice.
pub open spec fn first_content(contents: Seq<String>) -> Seq<char> {
    if contents.len() > 0 {
        contents[0]@
    } else {
        Seq::empty()
    }
}

/// The reply of a decoded answer is the content of its first choice, whatever
/// the other choices hold, and nothing when there is no choice.
pub proof fn lemma_reply_is_first_choice(contents: Seq<String>, more: Seq<String>)
    ensures
        contents.len() > 0 ==> first_content(contents) == contents[0]@,
        contents.len() > 0 ==> first_content(contents + more) == first_content(contents),
        first_content(Seq::<String>::empty()) == Seq::<char>::empty(),
{
    if contents.len() > 0 {
        assert((contents + more)[0] == contents[0]);
    }
}

/// Whether `action` finishes with a request failure whose text is `text`.
pub open spec fn fails_with(action: ChatAction, text: Seq<char>) -> bool {
    action matches ChatAction::Finish(Err(AiError::RequestFailed(m))) && m@ == text
}

/// Decide what follows `event` in a chat exchange at stage `stage`.
///
/// A failed send, a refused request (once its body is read) and an
/// undecodable answer each end the exchange with a request failure; an
/// accepted request ends, once decoded, with the content of the first choice
/// (or nothing) and the usage statistics.
pub fn chat_step(stage: ChatStage, event: ChatEvent) -> (r: (ChatStage, ChatAction))
    requires
        event_fits(stage, event),
    ensures
        event matches ChatEvent::SendFailed(why) ==> r.0 is Finished && fails_with(r.1, why@),
        event matches ChatEvent::Status { success, status } ==> if success {
            r.0 is Decoding && r.1 is DecodeBody
        } else {
            r.0 matches ChatStage::ReadingErrorBody { status: s } && s == status && r.1 is ReadErrorBody
        },
        event matches ChatEvent::ErrorBody(body) ==> r.0 is Finished && (stage matches ChatStage::ReadingErrorBody { status }
            && fails_with(r.1, refused_text(status@, body@))),
        event matches ChatEvent::Decoded { contents, usage } ==> r.0 is Finished && (r.1 matches ChatAction::Finish(
            Ok(resp),
        ) && resp.content@ == first_content(contents@) && resp.usage == usage),
        event matches ChatEvent::Decoded { contents, .. } ==> (contents.len() > 0 ==> (r.1 matches ChatAction::Finish(
            Ok(resp),
        ) && resp.content@ == contents[0]@)),
        event matches ChatEvent::Decoded { contents, .. } ==> (contents.len() == 0 ==> (r.1 matches ChatAction::Finish(
            Ok(resp),
        ) && resp.content@.len() == 0)),
        event matches ChatEvent::DecodeFailed(why) ==> r.0 is Finished && fails_with(r.1, undecodable_text(why@)),
{
    match event {
        ChatEvent::SendFailed(why) => (ChatStage::Finished, ChatAction::Finish(Err(AiError::RequestFailed(why)))),
        ChatEvent::Status { success, status } => {
            if success {
                (ChatStage::Decoding, ChatAction::DecodeBody)
            } else {
                (ChatStage::ReadingErrorBody { status }, ChatAction::ReadErrorBody)
            }
        },
        ChatEvent::ErrorBody(body) => {
            match stage {
                ChatStage::ReadingErrorBody { status } => {
                    let mut msg = String::from_str("HTTP ");
                    msg.append(status.as_str());
                    msg.append(": ");
                    msg.append(body.as_str());
                    (ChatStage::Finished, ChatAction::Finish(Err(AiError::RequestFailed(msg))))
                },
                _ => {
                    assert(false);
                    (ChatStage::Finished, ChatAction::ReadErrorBody)
                },
            }
        },
        ChatEvent::Decoded { contents, usage } => {
            let content = if contents.len() > 0 {
                contents[0].clone()
            } else {
                String::new()
            };
            (ChatStage::Finished, ChatAction::Finish(Ok(ChatResponse { content, usage })))
        },
        ChatEvent::DecodeFailed(why) => {
            let mut msg = String::from_str("Failed to parse response: ");
            msg.append(why.as_str());
            (ChatStage::Finished, ChatAction::Finish(Err(AiError::RequestFailed(msg))))
        },
    }
}

} // verus!
