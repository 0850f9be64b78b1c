use social_forge::daemons::{
    chat_kind, ipc_result, json_candidate, send_text_params, IpcError, IpcResponse, RequestIds,
    TelegramCommand,
};
use social_forge::json::Json;

#[test]
fn telegram_command_lines() {
    assert_eq!(TelegramCommand::GetSelf.line(), "get_self");
    assert_eq!(TelegramCommand::DialogList.line(), "dialog_list");
    assert_eq!(TelegramCommand::ContactList.line(), "contact_list");
    let msg = TelegramCommand::Message { peer: "alice".to_string(), text: "hi\nthere\r\n!".to_string() };
    assert_eq!(msg.line(), "msg alice hi there  !");
    assert_eq!(TelegramCommand::Search { query: "rust lang".to_string() }.line(), "search rust lang");
    assert_eq!(TelegramCommand::UserInfo { peer: "@bob".to_string() }.line(), "user_info @bob");
    assert_eq!(TelegramCommand::History { peer: "chat".to_string(), count: 10 }.line(), "history chat 10");
}

#[test]
fn json_candidates_skip_prompts() {
    assert_eq!(json_candidate("  {\"id\": 1}  "), Some("{\"id\": 1}".to_string()));
    assert_eq!(json_candidate("[1,2]"), Some("[1,2]".to_string()));
    assert_eq!(json_candidate("> "), None);
    assert_eq!(json_candidate("   "), None);
    assert_eq!(json_candidate("status: ok"), None);
}

#[test]
fn telegram_chat_kinds() {
    assert_eq!(chat_kind(-1_001_234_567_890), "channel");
    assert_eq!(chat_kind(-1_000_000_000_000), "group");
    assert_eq!(chat_kind(-42), "group");
    assert_eq!(chat_kind(0), "peer");
    assert_eq!(chat_kind(12345), "peer");
}

#[test]
fn whatsapp_responses() {
    let err = IpcResponse { id: Some(1), result: None, error: Some(IpcError { code: -32601, message: "no such method".to_string() }) };
    assert_eq!(ipc_result(err).err(), Some("wacli error (-32601): no such method".to_string()));
    let ok = IpcResponse { id: Some(2), result: Some(Json::Bool(true)), error: None };
    assert!(matches!(ipc_result(ok), Ok(Json::Bool(true))));
    let empty = IpcResponse { id: None, result: None, error: None };
    assert!(matches!(ipc_result(empty), Ok(Json::Null)));
    let min = IpcResponse { id: None, result: None, error: Some(IpcError { code: i32::MIN, message: "m".to_string() }) };
    assert_eq!(ipc_result(min).err(), Some("wacli error (-2147483648): m".to_string()));
}

#[test]
fn request_ids_count_up() {
    let mut ids = RequestIds::new();
    assert_eq!(ids.take(), 1);
    assert_eq!(ids.take(), 2);
    let mut last = RequestIds { next: u64::MAX };
    assert_eq!(last.take(), u64::MAX);
    assert_eq!(last.next, 0);
}

#[test]
fn text_message_params() {
    match send_text_params("123@s.whatsapp.net", "hello") {
        Json::Object(f) => {
            assert_eq!(f[0].0, "to");
            assert!(matches!(&f[0].1, Json::Str(v) if v == "123@s.whatsapp.net"));
            assert_eq!(f[1].0, "text");
        }
        _ => panic!("object"),
    }
}
