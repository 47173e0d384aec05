use ru_bot::chat::{
    chat_request, new_init_message, relay_report, reply_of, response_from_chatgpt, ChatCall,
    ChatError, GPTMessage, GPTRequest, GPTRole,
};
use ru_bot::client::{init_client, ClientSetup, StartupError};
use ru_bot::reply::{Outgoing, Report};

fn text(s: &str) -> Option<String> {
    Some(s.to_string())
}

#[test]
fn new_init_message_holds_the_system_prompt() {
    assert_eq!(
        new_init_message("You are Ru.".to_string()),
        vec![GPTMessage { role: GPTRole::System, content: "You are Ru.".to_string() }]
    );
}

#[test]
fn a_request_holds_the_prompt_and_the_message() {
    let call = chat_request(text("You are Ru."), text("sk-test"), "hi".to_string()).unwrap();
    assert_eq!(
        call,
        ChatCall {
            url: "https://api.openai.com/v1/chat/completions".to_string(),
            authorization: "Bearer sk-test".to_string(),
            content_type: "application/json".to_string(),
            request: GPTRequest {
                model: "gpt-3.5-turbo".to_string(),
                messages: vec![
                    GPTMessage { role: GPTRole::System, content: "You are Ru.".to_string() },
                    GPTMessage { role: GPTRole::User, content: "hi".to_string() },
                ],
            },
        }
    );
}

#[test]
fn requests_do_not_pile_up() {
    for content in ["one", "two", "three"] {
        let call = chat_request(text("p"), text("k"), content.to_string()).unwrap();
        assert_eq!(call.request.messages.len(), 2);
        assert_eq!(call.request.messages[0].role, GPTRole::System);
        assert_eq!(call.request.messages[0].content, "p");
        assert_eq!(call.request.messages[1].role, GPTRole::User);
        assert_eq!(call.request.messages[1].content, content);
    }
}

#[test]
fn a_request_needs_prompt_and_key() {
    assert_eq!(chat_request(None, text("k"), "hi".to_string()), Err(ChatError::MissingPrompt));
    assert_eq!(chat_request(text("p"), None, "hi".to_string()), Err(ChatError::MissingKey));
    assert_eq!(chat_request(None, None, "hi".to_string()), Err(ChatError::MissingPrompt));
}

#[test]
fn the_reply_is_the_content_of_the_first_choice() {
    let body = "{\"id\":\"x\",\"choices\":[{\"index\":0,\"message\":{\"role\":\"assistant\",\
                \"content\":\"Hello \\\"there\\\"\\n\"}},{\"message\":{\"content\":\"second\"}}]}";
    assert_eq!(response_from_chatgpt(body), Ok("Hello \"there\"\n".to_string()));
}

#[test]
fn a_response_that_is_not_json() {
    assert_eq!(response_from_chatgpt("Bad Gateway"), Err(ChatError::MalformedJson));
    assert_eq!(response_from_chatgpt(""), Err(ChatError::MalformedJson));
}

#[test]
fn a_response_without_a_reply() {
    for body in [
        "{}",
        "{\"error\":{\"message\":\"quota\"}}",
        "{\"choices\":[]}",
        "{\"choices\":[{\"message\":{}}]}",
        "{\"choices\":[{\"message\":{\"content\":null}}]}",
        "{\"choices\":[{\"message\":{\"content\":5}}]}",
        "{\"choices\":{\"0\":{\"message\":{\"content\":\"x\"}}}}",
        "[]",
    ] {
        assert_eq!(response_from_chatgpt(body), Err(ChatError::NoReply), "{}", body);
    }
}

#[test]
fn reply_of_reads_a_document() {
    let doc: serde_json::Value =
        serde_json::from_str("{\"choices\":[{\"message\":{\"content\":\"ok\"}}]}").unwrap();
    assert_eq!(reply_of(&doc), Ok("ok".to_string()));
    let doc: serde_json::Value = serde_json::from_str("{\"choices\":[1]}").unwrap();
    assert_eq!(reply_of(&doc), Err(ChatError::NoReply));
}

#[test]
fn relay_report_sends_the_reply() {
    assert_eq!(
        relay_report(&Ok("Rust is a language.".to_string())),
        Report { reply: Outgoing::Say("Rust is a language.".to_string()), log: None }
    );
}

#[test]
fn relay_report_words_each_error() {
    let cases = [
        (ChatError::MissingPrompt, "the system prompt is missing"),
        (ChatError::MissingKey, "the API key is missing"),
        (ChatError::Transport("timed out".to_string()), "timed out"),
        (ChatError::MalformedJson, "malformed JSON"),
        (ChatError::NoReply, "the response holds no reply"),
    ];
    for (error, detail) in cases {
        assert_eq!(
            relay_report(&Err(error)),
            Report {
                reply: Outgoing::Say(format!("Failed: {}", detail)),
                log: Some(format!("[ ERROR ] {}", detail)),
            }
        );
    }
}

#[test]
fn init_client_needs_the_token() {
    assert_eq!(init_client(None, text("k")), Err(StartupError::MissingToken));
    assert_eq!(init_client(None, None), Err(StartupError::MissingToken));
}

#[test]
fn init_client_settles_the_setup() {
    assert_eq!(
        init_client(text("token"), text("key")),
        Ok(ClientSetup {
            discord_token: "token".to_string(),
            openai_key: text("key"),
            prefix: "Ru ".to_string(),
            with_whitespace: true,
        })
    );
    assert_eq!(
        init_client(text("token"), None),
        Ok(ClientSetup {
            discord_token: "token".to_string(),
            openai_key: None,
            prefix: "Ru ".to_string(),
            with_whitespace: true,
        })
    );
}
