use std::cell::{Cell, RefCell};

use pam::{Conv, ItemType, Message, MessageStyle, Reply, ResultCode, SendError, PAM_SUCCESS};

const ALL_STYLES: [MessageStyle; 6] = [
    MessageStyle::PromptEchoOff,
    MessageStyle::PromptEchoOn,
    MessageStyle::ErrorMsg,
    MessageStyle::TextInfo,
    MessageStyle::RadioType,
    MessageStyle::BinaryPrompt,
];

fn reply(status: i32, text: Option<&[u8]>) -> Reply {
    Reply { status: ResultCode(status), text: text.map(|t| t.to_vec()) }
}

#[test]
fn display_only_styles_get_no_response() {
    for style in [MessageStyle::ErrorMsg, MessageStyle::TextInfo] {
        let conv = Conv::new(|_: &Message| reply(PAM_SUCCESS, None));
        assert_eq!(conv.send(style, "Login incorrect"), Ok(None));
    }
}

#[test]
fn any_style_with_null_response_gets_no_response() {
    for style in ALL_STYLES {
        let conv = Conv::new(|_: &Message| reply(PAM_SUCCESS, None));
        assert_eq!(conv.send(style, "hello"), Ok(None));
    }
}

#[test]
fn response_text_is_returned_exactly() {
    for style in ALL_STYLES {
        let conv = Conv::new(|_: &Message| reply(PAM_SUCCESS, Some(b"a b\x01\xffz\0")));
        assert_eq!(conv.send(style, "Question?"), Ok(Some(b"a b\x01\xffz".to_vec())));
    }
}

#[test]
fn empty_response_text_is_some_empty() {
    let conv = Conv::new(|_: &Message| reply(PAM_SUCCESS, Some(b"\0")));
    assert_eq!(conv.send(MessageStyle::PromptEchoOn, "login:"), Ok(Some(Vec::new())));
}

#[test]
fn response_text_stops_at_first_null_byte() {
    let conv = Conv::new(|_: &Message| reply(PAM_SUCCESS, Some(b"yes\0no\0")));
    assert_eq!(conv.send(MessageStyle::RadioType, "Continue?"), Ok(Some(b"yes".to_vec())));
}

#[test]
fn response_text_without_terminator_is_read_whole() {
    let conv = Conv::new(|_: &Message| reply(PAM_SUCCESS, Some(b"abc")));
    assert_eq!(conv.send(MessageStyle::PromptEchoOn, "login:"), Ok(Some(b"abc".to_vec())));
}

#[test]
fn failure_status_is_returned_unchanged() {
    for code in [1, 7, 19, 25, 31, -1, i32::MAX, i32::MIN] {
        let conv = Conv::new(move |_: &Message| reply(code, Some(b"ignored\0")));
        assert_eq!(
            conv.send(MessageStyle::PromptEchoOff, "Password:"),
            Err(SendError::Failed(ResultCode(code)))
        );
        let conv = Conv::new(move |_: &Message| reply(code, None));
        assert_eq!(
            conv.send(MessageStyle::TextInfo, "note"),
            Err(SendError::Failed(ResultCode(code)))
        );
    }
}

#[test]
fn delivered_text_is_null_terminated_copy() {
    for text in ["", "hello", "Pässwörd ✓:", "tab\there"] {
        let seen: RefCell<Vec<Vec<u8>>> = RefCell::new(Vec::new());
        let conv = Conv::new(|m: &Message| {
            seen.borrow_mut().push(m.text.clone());
            reply(PAM_SUCCESS, None)
        });
        assert_eq!(conv.send(MessageStyle::PromptEchoOn, text), Ok(None));
        let mut expected = text.as_bytes().to_vec();
        expected.push(0);
        assert_eq!(*seen.borrow(), vec![expected]);
    }
}

#[test]
fn embedded_null_fails_without_calling_back() {
    for text in ["\0", "a\0b", "end\0"] {
        let calls = Cell::new(0u32);
        let conv = Conv::new(|_: &Message| {
            calls.set(calls.get() + 1);
            reply(PAM_SUCCESS, Some(b"x\0"))
        });
        assert_eq!(conv.send(MessageStyle::PromptEchoOff, text), Err(SendError::InteriorNul));
        assert_eq!(calls.get(), 0);
    }
}

#[test]
fn password_prompt_scenario() {
    let seen: RefCell<Vec<(i32, Vec<u8>)>> = RefCell::new(Vec::new());
    let conv = Conv::new(|m: &Message| {
        seen.borrow_mut().push((m.style.code(), m.text.clone()));
        reply(PAM_SUCCESS, Some(b"secret123\0"))
    });
    let r = conv.send(MessageStyle::PromptEchoOff, "Password:");
    assert_eq!(r, Ok(Some(b"secret123".to_vec())));
    let seen = seen.borrow();
    assert_eq!(seen.len(), 1);
    assert_eq!(seen[0].0, MessageStyle::PromptEchoOff.code());
    assert_eq!(seen[0].1, b"Password:\0".to_vec());
}

#[test]
fn each_send_calls_back_once() {
    let calls = Cell::new(0u32);
    let conv = Conv::new(|_: &Message| {
        calls.set(calls.get() + 1);
        reply(PAM_SUCCESS, None)
    });
    assert_eq!(conv.send(MessageStyle::TextInfo, "one"), Ok(None));
    assert_eq!(conv.send(MessageStyle::TextInfo, "two"), Ok(None));
    assert_eq!(calls.get(), 2);
}

#[test]
fn style_codes_match_the_wire_values() {
    assert_eq!(MessageStyle::PromptEchoOff.code(), 1);
    assert_eq!(MessageStyle::PromptEchoOn.code(), 2);
    assert_eq!(MessageStyle::ErrorMsg.code(), 3);
    assert_eq!(MessageStyle::TextInfo.code(), 4);
    assert_eq!(MessageStyle::RadioType.code(), 5);
    assert_eq!(MessageStyle::BinaryPrompt.code(), 7);
}

#[test]
fn conversation_item_tag_is_five() {
    assert_eq!(Conv::<fn(&Message) -> Reply>::type_id(), ItemType::Conv);
    assert_eq!(ItemType::Conv.code(), 5);
}

#[test]
fn success_code_is_zero() {
    assert!(ResultCode(PAM_SUCCESS).is_success());
    assert!(ResultCode(0).is_success());
    assert!(!ResultCode(7).is_success());
    assert!(!ResultCode(-1).is_success());
}
