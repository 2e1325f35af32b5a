use zh_en_translator::error::{
    require_credential, EMPTY_INPUT_MESSAGE, EMPTY_RESPONSE_MESSAGE, MALFORMED_RESPONSE_MESSAGE,
    MISSING_CREDENTIAL_MESSAGE,
};
use zh_en_translator::request::{DUAL_INSTRUCTION, DUAL_MODEL, SINGLE_INSTRUCTION, SINGLE_MODEL};
use zh_en_translator::{
    build_dual_request, build_request, build_single_request, classify_input, parse_dual_content,
    parse_dual_response, parse_single_content, parse_single_response, ChatResponse, Choice,
    ErrorKind, InputAction, MessageContent, Role, TranslationError,
};

fn reply(content: MessageContent) -> ChatResponse {
    ChatResponse { choices: vec![Choice { content }] }
}

fn text_reply(content: &str) -> ChatResponse {
    reply(MessageContent::Text(content.to_string()))
}

#[test]
fn request_has_system_then_user_message() {
    let q = build_request("gpt-4o", "translate this", "  你好 world ").unwrap();
    assert_eq!(q.model, "gpt-4o");
    assert_eq!(q.messages.len(), 2);
    assert_eq!(q.messages[0].role, Role::System);
    assert_eq!(q.messages[0].content, "translate this");
    assert_eq!(q.messages[1].role, Role::User);
    // the user's text goes out as typed, surrounding spaces included
    assert_eq!(q.messages[1].content, "  你好 world ");
}

#[test]
fn dual_and_single_requests_use_their_instructions() {
    let d = build_dual_request("hello").unwrap();
    assert_eq!(d.model, DUAL_MODEL);
    assert_eq!(d.messages[0].content, DUAL_INSTRUCTION);
    assert_eq!(d.messages[1].content, "hello");
    let s = build_single_request("你好").unwrap();
    assert_eq!(s.model, SINGLE_MODEL);
    assert_eq!(s.messages[0].content, SINGLE_INSTRUCTION);
    assert_eq!(s.messages[1].content, "你好");
}

#[test]
fn blank_input_is_invalid() {
    for text in ["", "   ", "\t\n", "\u{3000}\u{a0}"] {
        let e = build_request("m", "i", text).unwrap_err();
        assert_eq!(e.kind, ErrorKind::InvalidInput);
        assert_eq!(e.to_string(), EMPTY_INPUT_MESSAGE);
    }
    assert!(build_dual_request(" ").is_err());
    assert!(build_single_request("").is_err());
}

#[test]
fn dual_labels_are_read() {
    let r = parse_dual_content("中文：你好\n英文：Hello");
    assert_eq!(r.chinese, "你好");
    assert_eq!(r.english, "Hello");
}

#[test]
fn missing_label_gives_empty_field() {
    let r = parse_dual_content("英文：Hello");
    assert_eq!(r.chinese, "");
    assert_eq!(r.english, "Hello");
}

#[test]
fn dual_labels_any_order_last_wins_and_trimmed() {
    let r = parse_dual_content("英文： first \r\nnoise\n中文：  你好  \r\n英文：second\n");
    assert_eq!(r.chinese, "你好");
    assert_eq!(r.english, "second");
    let none = parse_dual_content("");
    assert_eq!(none.chinese, "");
    assert_eq!(none.english, "");
    // a label that is not at the start of its line does not count
    let inner = parse_dual_content("x 中文：no");
    assert_eq!(inner.chinese, "");
}

#[test]
fn dual_response_reads_first_choice() {
    let resp = ChatResponse {
        choices: vec![
            Choice { content: MessageContent::Text("中文：一\n英文：one".to_string()) },
            Choice { content: MessageContent::Text("中文：二\n英文：two".to_string()) },
        ],
    };
    let r = parse_dual_response(&resp).unwrap();
    assert_eq!(r.chinese, "一");
    assert_eq!(r.english, "one");
}

#[test]
fn empty_choices_is_empty_response() {
    let resp = ChatResponse { choices: vec![] };
    let e = parse_dual_response(&resp).unwrap_err();
    assert_eq!(e.kind, ErrorKind::EmptyResponse);
    assert_eq!(e.message, EMPTY_RESPONSE_MESSAGE);
    assert_eq!(parse_single_response(&resp).unwrap_err().kind, ErrorKind::EmptyResponse);
}

#[test]
fn non_text_content_is_malformed() {
    let e = parse_dual_response(&reply(MessageContent::NotText)).unwrap_err();
    assert_eq!(e.kind, ErrorKind::MalformedResponse);
    assert_eq!(e.message, MALFORMED_RESPONSE_MESSAGE);
    let e = parse_single_response(&reply(MessageContent::Absent)).unwrap_err();
    assert_eq!(e.kind, ErrorKind::MalformedResponse);
}

#[test]
fn parsing_twice_gives_the_same_result() {
    let resp = text_reply("中文：你好\n英文：Hello");
    let a = parse_dual_response(&resp).unwrap();
    let b = parse_dual_response(&resp).unwrap();
    assert_eq!(a.chinese, b.chinese);
    assert_eq!(a.english, b.english);
    let s1 = parse_single_response(&resp).unwrap();
    let s2 = parse_single_response(&resp).unwrap();
    assert_eq!(s1, s2);
}

#[test]
fn single_content_is_trimmed() {
    assert_eq!(parse_single_content("  Bonjour le monde  "), "Bonjour le monde");
    let r = parse_single_response(&text_reply("\n 你好，世界 \t")).unwrap();
    assert_eq!(r, "你好，世界");
}

#[test]
fn input_lines_are_classified() {
    assert_eq!(classify_input("  QuIt \n"), InputAction::Quit);
    assert_eq!(classify_input("quit"), InputAction::Quit);
    assert_eq!(classify_input("   \n"), InputAction::Skip);
    assert_eq!(classify_input(" quit now\n"), InputAction::Translate("quit now".to_string()));
    assert_eq!(classify_input("你好\r\n"), InputAction::Translate("你好".to_string()));
}

#[test]
fn credential_and_transport_errors() {
    assert_eq!(require_credential(Some("test-key".to_string())).unwrap(), "test-key");
    let e = require_credential(None).unwrap_err();
    assert_eq!(e.kind, ErrorKind::MissingCredential);
    assert_eq!(e.message, MISSING_CREDENTIAL_MESSAGE);
    let t = TranslationError::transport_failure("connection refused");
    assert_eq!(t.kind, ErrorKind::TransportFailure);
    assert_eq!(t.to_string(), "Translation failed: connection refused");
}
