//! The chat-completion request: a model name and two role-tagged messages.
use crate::error::{kind_message, ErrorKind, TranslationError};
use crate::text::{is_blank, lemma_trimmed_empty_iff_blank, trim_whitespace};
use vstd::prelude::*;
use vstd::string::*;

verus! {

/// Who a message speaks for.
#[derive(Debug, Clone, Copy, PartialEq, Eq, Structural)]
pub enum Role {
    /// Instructions to the model.
    System,
    /// What the end user typed.
    User,
}

/// One role-tagged message of a chat request.
#[derive(Debug, Clone)]
pub struct ChatMessage {
    pub role: Role,
    pub content: String,
}

/// A chat-completion request as the provider's API takes it.
#[derive(Debug, Clone)]
pub struct ChatRequest {
    pub model: String,
    pub messages: Vec<ChatMessage>,
}

/// Model asked for translations into both languages with labelled lines.
pub const DUAL_MODEL: &'static str = "gpt-4o";

/// Instruction asking for a Chinese and an English translation, each on a line
/// of its own behind its label.
pub const DUAL_INSTRUCTION: &'static str =
    "你是一个翻译助手。请将用户输入的文本翻译成中文和英文。请使用以下格式返回：\n中文：[中文翻译]\n英文：[英文翻译]";

/// Model asked for a single translation between Chinese and English.
pub const SINGLE_MODEL: &'static str = "gpt-4";

/// Instruction asking for the translation alone.
pub const SINGLE_INSTRUCTION: &'static str =
    "You are a professional translator. Translate between Chinese and English. Provide only the translation without any explanations or notes.";

/// `q` asks `model` to follow `instruction` on `text`: a system message with the
/// instruction, then a user message with the text as given.
pub open spec fn is_request_for(
    q: ChatRequest,
    model: Seq<char>,
    instruction: Seq<char>,
    text: Seq<char>,
) -> bool {
    &&& q.model@ == model
    &&& q.messages.len() == 2
    &&& q.messages[0].role == Role::System
    &&& q.messages[0].content@ == instruction
    &&& q.messages[1].role == Role::User
    &&& q.messages[1].content@ == text
}

/// The request asking `model` to follow `instruction` on `text`, or an
/// `InvalidInput` error when `text` holds nothing but whitespace.
pub fn build_request(model: &str, instruction: &str, text: &str) -> (r: Result<
    ChatRequest,
    TranslationError,
>)
    ensures
        r is Err <==> is_blank(text@),
        r matches Ok(q) ==> is_request_for(q, model@, instruction@, text@),
        r matches Err(e) ==> e.kind == ErrorKind::InvalidInput && e.message@ == kind_message(
            ErrorKind::InvalidInput,
        ),
{
    proof {
        lemma_trimmed_empty_iff_blank(text@);
    }
    if trim_whitespace(text).is_empty() {
        return Err(TranslationError::from_kind(ErrorKind::InvalidInput));
    }
    let system = ChatMessage { role: Role::System, content: String::from_str(instruction) };
    let user = ChatMessage { role: Role::User, content: String::from_str(text) };
    let mut messages: Vec<ChatMessage> = Vec::new();
    messages.push(system);
    messages.push(user);
    Ok(ChatRequest { model: String::from_str(model), messages })
}

/// The request for a Chinese and an English translation of `text`, to be read
/// back with the labelled-line parser.
pub fn build_dual_request(text: &str) -> (r: Result<ChatRequest, TranslationError>)
    ensures
        r is Err <==> is_blank(text@),
        r matches Ok(q) ==> is_request_for(q, DUAL_MODEL@, DUAL_INSTRUCTION@, text@),
        r matches Err(e) ==> e.kind == ErrorKind::InvalidInput,
{
    build_request(DUAL_MODEL, DUAL_INSTRUCTION, text)
}

/// The request for a single translation of `text`, to be read back whole.
pub fn build_single_request(text: &str) -> (r: Result<ChatRequest, TranslationError>)
    ensures
        r is Err <==> is_blank(text@),
        r matches Ok(q) ==> is_request_for(q, SINGLE_MODEL@, SINGLE_INSTRUCTION@, text@),
        r matches Err(e) ==> e.kind == ErrorKind::InvalidInput,
{
    build_request(SINGLE_MODEL, SINGLE_INSTRUCTION, text)
}

} // verus!
