//! Building chat-completion requests for a Chinese/English translator and
//! reading the translation out of the provider's reply.
pub mod error;
pub mod input;
pub mod request;
pub mod response;
pub mod text;

pub use error::{ErrorKind, TranslationError};
pub use input::{classify_input, InputAction};
pub use request::{
    build_dual_request, build_request, build_single_request, ChatMessage, ChatRequest, Role,
};
pub use response::{
    parse_dual_content, parse_dual_response, parse_single_content, parse_single_response,
    ChatResponse, Choice, DualTranslation, MessageContent,
};
