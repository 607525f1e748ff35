use vstd::prelude::*;
use async_openai::error::OpenAIError;
use async_openai::types::{
    ChatCompletionRequestMessage, ChatCompletionRequestMessageArgs, CreateChatCompletionRequest,
    CreateChatCompletionRequestArgs, Role,
};
use crate::brief::PeerRole;

verus! {

#[verifier::external_type_specification]
#[verifier::external_body]
pub struct ExOpenAIError(OpenAIError);

#[verifier::external_type_specification]
#[verifier::external_body]
pub struct ExChatCompletionRequestMessage(ChatCompletionRequestMessage);

#[verifier::external_type_specification]
#[verifier::external_body]
pub struct ExCreateChatCompletionRequest(CreateChatCompletionRequest);

/// The chat model that every personality is asked through.
pub const MODEL: &'static str = "gpt-3.5-turbo";

/// The output-token bound of a panel peer.
pub const PEER_MAX_TOKENS: u16 = 128;

/// The output-token bound of the synthesizer, which reads the whole panel.
pub const SYNTHESIZER_MAX_TOKENS: u16 = 384;

/// Who speaks a turn of a chat request.
#[derive(PartialEq, Eq, Structural, Clone, Copy, Debug)]
pub enum Speaker {
    /// The personality's fixed instruction.
    System,
    /// The caller's prompt.
    User,
}

/// Relies on async_openai's `ChatCompletionRequestMessageArgs` builder to make
/// one message turn from a role and a content. Every field of the message has
/// a default and the builder validates nothing, so building succeeds.
#[verifier::external_body]
fn chat_message(speaker: Speaker, content: &str) -> (r: Result<ChatCompletionRequestMessage, OpenAIError>)
    ensures
        r is Ok,
{
    let role = match speaker {
        Speaker::System => Role::System,
        Speaker::User => Role::User,
    };
    ChatCompletionRequestMessageArgs::default().role(role).content(content).build()
}

/// Relies on async_openai's `CreateChatCompletionRequestArgs` builder to make a
/// chat request from a model, an output-token bound, the streamed flag and the
/// turns. Every field of the request has a default and the builder validates
/// nothing, so building succeeds.
#[verifier::external_body]
fn chat_request(
    model: &str,
    max_tokens: u16,
    stream: bool,
    turns: Vec<ChatCompletionRequestMessage>,
) -> (r: Result<CreateChatCompletionRequest, OpenAIError>)
    ensures
        r is Ok,
{
    CreateChatCompletionRequestArgs::default()
        .model(model)
        .max_tokens(max_tokens)
        .messages(turns)
        .stream(stream)
        .build()
}

/// What a chat request asks, as plain values: the model, the output-token
/// bound, whether the answer is streamed, and the turns in order.
pub struct ChatPlan {
    pub model: String,
    pub max_tokens: u16,
    pub stream: bool,
    pub turns: Vec<(Speaker, String)>,
}

/// The request that carries a plan: the plan's model, bound and streamed flag,
/// and one message for each of its turns, in order.
pub fn to_request(plan: &ChatPlan) -> (r: Result<CreateChatCompletionRequest, OpenAIError>)
    ensures
        r is Ok,
{
    let mut turns: Vec<ChatCompletionRequestMessage> = Vec::new();
    let mut i: usize = 0;
    while i < plan.turns.len()
        invariant
            i <= plan.turns@.len(),
            turns@.len() == i,
        decreases plan.turns@.len() - i,
    {
        let (speaker, content) = &plan.turns[i];
        match chat_message(*speaker, content.as_str()) {
            Ok(m) => turns.push(m),
            Err(e) => return Err(e),
        }
        i = i + 1;
    }
    chat_request(plan.model.as_str(), plan.max_tokens, plan.stream, turns)
}

/// One personality: a fixed instruction that conditions the model's answers,
/// and the bound on the length of those answers.
pub struct OneSelf {
    personality: String,
    max_tokens: u16,
}

impl OneSelf {
    pub fn new(personality: String, max_tokens: u16) -> (r: OneSelf)
        ensures
            r.personality()@ == personality@,
            r.max_tokens() == max_tokens,
    {
        OneSelf { personality, max_tokens }
    }

    pub closed spec fn personality(&self) -> String {
        self.personality
    }

    pub closed spec fn max_tokens(&self) -> u16 {
        self.max_tokens
    }

    /// The personality's instruction.
    pub fn instruction(&self) -> (r: &String)
        ensures
            r@ == self.personality()@,
    {
        &self.personality
    }

    /// The bound on the length of the personality's answers, in tokens.
    pub fn token_bound(&self) -> (r: u16)
        ensures
            r == self.max_tokens(),
    {
        self.max_tokens
    }

    /// The personality that answers alone, and that concludes for the panel.
    pub fn synthesizer() -> (r: OneSelf)
        ensures
            r.personality()@ == "Please always answer within 50 words."@,
            r.max_tokens() == SYNTHESIZER_MAX_TOKENS,
    {
        OneSelf::new("Please always answer within 50 words.".to_owned(), SYNTHESIZER_MAX_TOKENS)
    }

    /// The panel's peer of the given role.
    pub fn peer(role: PeerRole) -> (r: OneSelf)
        ensures
            r.personality()@ == peer_instruction(role),
            r.max_tokens() == PEER_MAX_TOKENS,
    {
        let text = match role {
            PeerRole::Social => "Please answer as an expert of intuitive Psychology, always within 50 words.",
            PeerRole::Narrative => "Please answer with solid causal modelling, always within 50 words.",
            PeerRole::Volitional => "Please answer by your own will, always within 50 words.",
            PeerRole::Physical => "Please answer as expert in intuitive Physics, always within 50 words.",
            PeerRole::Embodied => "Please answer as a down-to-earth Artisan, always within 50 words.",
        };
        OneSelf::new(text.to_owned(), PEER_MAX_TOKENS)
    }

    /// What asking this personality the prompt sends: the model, the
    /// personality's output-token bound, a streamed answer, and two turns,
    /// the personality's instruction as the system turn, then the prompt,
    /// unaltered, as the user turn.
    pub fn plan(&self, prompt: &str) -> (r: ChatPlan)
        ensures
            r.model@ == MODEL@,
            r.max_tokens == self.max_tokens(),
            r.stream,
            r.turns@.len() == 2,
            r.turns@[0].0 == Speaker::System,
            r.turns@[0].1@ == self.personality()@,
            r.turns@[1].0 == Speaker::User,
            r.turns@[1].1@ == prompt@,
    {
        let mut turns: Vec<(Speaker, String)> = Vec::new();
        turns.push((Speaker::System, self.personality.clone()));
        turns.push((Speaker::User, prompt.to_owned()));
        ChatPlan { model: MODEL.to_owned(), max_tokens: self.max_tokens, stream: true, turns }
    }

    /// The streamed request that asks this personality the prompt: the
    /// request that carries `plan(prompt)`.
    pub fn request(&self, prompt: &str) -> (r: Result<CreateChatCompletionRequest, OpenAIError>)
        ensures
            r is Ok,
    {
        to_request(&self.plan(prompt))
    }
}

/// The instruction of the panel's peer of the given role.
pub open spec fn peer_instruction(role: PeerRole) -> Seq<char> {
    match role {
        PeerRole::Social => "Please answer as an expert of intuitive Psychology, always within 50 words."@,
        PeerRole::Narrative => "Please answer with solid causal modelling, always within 50 words."@,
        PeerRole::Volitional => "Please answer by your own will, always within 50 words."@,
        PeerRole::Physical => "Please answer as expert in intuitive Physics, always within 50 words."@,
        PeerRole::Embodied => "Please answer as a down-to-earth Artisan, always within 50 words."@,
    }
}

} // verus!
