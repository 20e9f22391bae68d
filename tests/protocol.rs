use slackbot::blocks::{
    add_service, build_response_payload, decode_response_frame, decode_response_text, encode_message, encode_response, Block,
    BlockPayload, MessagePayload, OptionObject, Response, StaticSelect, TextBlock,
};
use slackbot::dispatch::{dispatch, handle_interactive, handle_slash_command, publish_message, Action};
use slackbot::error::SlackErr;
use slackbot::event::{
    parse_message, InteractiveAction, Interactive, SelectedOption, SlashCommand, SocketEvent,
};
use slackbot::handshake::{check_handshake, handshake_url, HandshakeResponse};
use slackbot::json::{str_eq, Json};
use slackbot::session::{Client, FrameKind, SessionState, StepAction};

fn slash(command: &str, text: &str) -> SlashCommand {
    SlashCommand {
        token: "t".to_string(),
        team_id: "T1".to_string(),
        team_domain: "d".to_string(),
        channel_id: "C1".to_string(),
        channel_name: "general".to_string(),
        user_id: "U1".to_string(),
        user_name: "ann".to_string(),
        command: command.to_string(),
        text: text.to_string(),
        api_app_id: "A1".to_string(),
        is_enterprise_install: "false".to_string(),
        response_url: "https://hooks/x".to_string(),
        trigger_id: "tr".to_string(),
    }
}

fn action(text: &str) -> InteractiveAction {
    InteractiveAction {
        action_type: "static_select".to_string(),
        action_id: "a1".to_string(),
        block_id: "b1".to_string(),
        action_ts: "1".to_string(),
        selected_option: SelectedOption {
            text: TextBlock::new_plain(text.to_string()),
            value: "v".to_string(),
        },
    }
}

const SLASH_FRAME: &str = r#"{"type":"slash_commands","envelope_id":"env-1","accepts_response_payload":true,
"payload":{"token":"t","team_id":"T1","team_domain":"d","channel_id":"C1","channel_name":"general",
"user_id":"U1","user_name":"ann","command":"/approve","text":"dns prod","api_app_id":"A1",
"is_enterprise_install":"false","response_url":"https://hooks/x","trigger_id":"tr"}}"#;

#[test]
fn command_strips_one_leading_slash() {
    assert_eq!(slash("/addservice", "").get_command(), "addservice");
    assert_eq!(slash("addservice", "").get_command(), "");
    assert_eq!(slash("/", "").get_command(), "");
    assert_eq!(slash("", "").get_command(), "");
    assert_eq!(slash("//x", "").get_command(), "/x");
}

#[test]
fn approve_publishes_on_approval_subject() {
    match handle_slash_command(slash("/approve", "dns prod"), "env-9".to_string()) {
        Action::Publish { subject, message, ack } => {
            assert_eq!(subject, "slackbot.approve");
            assert_eq!(message, "approve::dns prod");
            assert_eq!(ack.envelope_id, "env-9");
            assert_eq!(ack.payload.blocks.len(), 1);
            assert_eq!(ack.payload.blocks[0].text.text, "Request submitted for approval");
        }
        _ => panic!("approve must publish"),
    }
}

#[test]
fn provisioning_commands_publish_on_command_subject() {
    for c in ["/addservice", "/addsubnet", "/addsegment"] {
        match handle_slash_command(slash(c, "x y"), "e".to_string()) {
            Action::Publish { subject, message, .. } => {
                assert_eq!(subject, "slackbot.command");
                assert_eq!(message, format!("{}::x y", &c[1..]));
            }
            _ => panic!("{} must publish", c),
        }
    }
}

#[test]
fn unknown_and_empty_commands_are_ignored() {
    assert!(matches!(handle_slash_command(slash("/bogus", "x"), "e".to_string()), Action::Ignore { .. }));
    assert!(matches!(handle_slash_command(slash("approve", "x"), "e".to_string()), Action::Ignore { .. }));
    assert!(matches!(handle_slash_command(slash("/", "x"), "e".to_string()), Action::Ignore { .. }));
}

#[test]
fn publish_message_joins_command_and_text() {
    assert_eq!(publish_message(&slash("/addsubnet", "10.0.0.0/24")), "addsubnet::10.0.0.0/24");
}

#[test]
fn interactive_answers_first_action_by_callback() {
    let p = Interactive {
        interactive_type: "block_actions".to_string(),
        actions: vec![action("East"), action("West")],
        response_url: "https://x/y".to_string(),
    };
    match handle_interactive(p) {
        Action::Post { url, body } => {
            assert_eq!(url, "https://x/y");
            assert_eq!(body.text, "Updated with segement ID East");
            assert!(body.blocks.is_none());
            assert!(!body.mrkdwn);
        }
        _ => panic!("must post"),
    }
}

#[test]
fn interactive_without_actions_is_skipped() {
    let p = Interactive {
        interactive_type: "block_actions".to_string(),
        actions: vec![],
        response_url: "https://x/y".to_string(),
    };
    assert!(matches!(handle_interactive(p), Action::Skip));
}

#[test]
fn slash_frame_decodes_and_routes() {
    let ev = parse_message(SLASH_FRAME).ok().expect("decodes");
    assert_eq!(ev.get_envelope_id(), "env-1");
    match ev {
        SocketEvent::SlashCommands { ref payload, accepts_response_payload, .. } => {
            assert_eq!(payload.command, "/approve");
            assert_eq!(payload.text, "dns prod");
            assert!(accepts_response_payload);
        }
        _ => panic!("wrong kind"),
    }
    match dispatch(ev) {
        Action::Publish { subject, message, ack } => {
            assert_eq!(subject, "slackbot.approve");
            assert_eq!(message, "approve::dns prod");
            assert_eq!(ack.envelope_id, "env-1");
        }
        _ => panic!("must publish"),
    }
}

#[test]
fn interactive_frame_decodes_and_posts() {
    let frame = r#"{"type":"interactive","envelope_id":"env-2","accepts_response_payload":false,
    "payload":{"type":"block_actions","response_url":"https://x/y","actions":[{"type":"static_select",
    "action_id":"a","block_id":"b","action_ts":"1.2","selected_option":{"text":{"type":"plain_text",
    "text":"East"},"value":"east"}}]}}"#;
    let ev = parse_message(frame).ok().expect("decodes");
    match dispatch(ev) {
        Action::Post { url, body } => {
            assert_eq!(url, "https://x/y");
            assert_eq!(body.text, "Updated with segement ID East");
        }
        _ => panic!("must post"),
    }
}

#[test]
fn events_api_frame_is_forwarded() {
    let frame = r#"{"type":"events_api","envelope_id":"env-3","accepts_response_payload":false,
    "payload":{"token":"t","team_id":"T","event_id":"E1","event":{"type":"app_mention","user":"U",
    "text":"hi","ts":"1","channel":"C","event_ts":"1"},"extra":5}}"#;
    let ev = parse_message(frame).ok().expect("decodes");
    match dispatch(ev) {
        Action::Forward { payload } => {
            assert_eq!(payload.event.text, "hi");
            assert_eq!(payload.event_id, "E1");
        }
        _ => panic!("must forward"),
    }
}

#[test]
fn missing_or_unknown_tag_is_a_decode_error() {
    let no_tag = r#"{"envelope_id":"e","accepts_response_payload":true,"payload":{}}"#;
    let bad_tag = r#"{"type":"hello","envelope_id":"e","accepts_response_payload":true,"payload":{}}"#;
    assert!(matches!(parse_message(no_tag), Err(SlackErr::Decode(_))));
    assert!(matches!(parse_message(bad_tag), Err(SlackErr::Decode(_))));
    assert!(matches!(parse_message("not json"), Err(SlackErr::Decode(_))));
    let missing_member = SLASH_FRAME.replace("\"trigger_id\":\"tr\"", "\"trigger\":\"tr\"");
    assert!(matches!(parse_message(&missing_member), Err(SlackErr::Decode(_))));
    // the session goes on to the next frame
    let mut c = Client::new("tok".to_string());
    c.connected();
    assert_eq!(c.on_frame(FrameKind::Text), StepAction::SwallowHello);
    assert_eq!(c.on_frame(FrameKind::Text), StepAction::Dispatch);
    c.frame_done();
    assert_eq!(c.on_frame(FrameKind::Text), StepAction::Dispatch);
}

#[test]
fn response_round_trips_through_json_text() {
    let mut blocks = build_response_payload("first").blocks;
    blocks.push(Block::new_section(TextBlock::new_plain("second \"quoted\" ü".to_string())));
    let r = Response::new("env-42".to_string(), BlockPayload::new(blocks));
    let text = encode_response(&r);
    let (id, texts) = decode_response_text(&text).expect("frame reads back");
    assert_eq!(id, "env-42");
    assert_eq!(texts, vec!["first".to_string(), "second \"quoted\" ü".to_string()]);
}

#[test]
fn response_frame_has_expected_shape() {
    let r = Response::new("e1".to_string(), build_response_payload("hi"));
    assert_eq!(
        encode_response(&r),
        r#"{"envelope_id":"e1","payload":{"blocks":[{"text":{"text":"hi","type":"mrkdwn"},"type":"section"}]}}"#
    );
}

#[test]
fn message_body_has_expected_shape() {
    let m = MessagePayload { text: "Updated with segement ID East".to_string(), blocks: None, thread_ts: None, mrkdwn: false };
    assert_eq!(encode_message(&m), r#"{"mrkdwn":false,"text":"Updated with segement ID East"}"#);
}

#[test]
fn block_with_accessory_encodes_select() {
    let opts = vec![OptionObject::new(TextBlock::new_plain("East".to_string()), "east".to_string())];
    let mut b = Block::new_section(TextBlock::new_mrkdwn("pick".to_string()));
    b.add_accessory(StaticSelect::new(TextBlock::new_plain("segment".to_string()), "seg".to_string(), opts));
    let r = Response::new("e".to_string(), BlockPayload::new(vec![b]));
    let text = encode_response(&r);
    assert!(text.contains(r#""accessory":{"action_id":"seg","focus_on_load":false"#));
    assert!(text.contains(r#""options":[{"text":{"text":"East","type":"plain_text"},"value":"east"}]"#));
}

#[test]
fn frame_without_blocks_does_not_read_back() {
    assert!(decode_response_text(r#"{"envelope_id":"e","payload":{}}"#).is_none());
    assert!(decode_response_text(r#"{"envelope_id":"e","payload":{"blocks":[{"type":"section"}]}}"#).is_none());
    assert!(decode_response_text("[1, 2").is_none());
    let tree = Json::Object(vec![
        ("envelope_id".to_string(), Json::Str("e".to_string())),
        ("payload".to_string(), Json::Object(vec![("blocks".to_string(), Json::Array(vec![]))])),
    ]);
    let (id, texts) = decode_response_frame(&tree).unwrap();
    assert_eq!(id, "e");
    assert!(texts.is_empty());
}

#[test]
fn accepted_handshake_yields_url() {
    let url = handshake_url(r#"{"ok":true,"url":"wss://wss.example.com/link/?ticket=abc"}"#).ok().expect("ok");
    assert_eq!(url.as_str(), "wss://wss.example.com/link/?ticket=abc");
}

#[test]
fn rejected_handshake_carries_reason_verbatim() {
    match handshake_url(r#"{"ok":false,"url":"","error":"invalid_auth"}"#) {
        Err(SlackErr::HandshakeRejected(m)) => assert_eq!(m, "invalid_auth"),
        _ => panic!("must be rejected"),
    }
    let h = HandshakeResponse { ok: false, url: None, error: None };
    assert!(matches!(check_handshake(&h), Err(SlackErr::HandshakeRejected(m)) if m.is_empty()));
}

#[test]
fn malformed_endpoint_is_reported() {
    assert!(matches!(handshake_url(r#"{"ok":true,"url":"not a url"}"#), Err(SlackErr::MalformedEndpoint(_))));
    assert!(matches!(handshake_url(r#"{"ok":true}"#), Err(SlackErr::MalformedEndpoint(_))));
    assert!(matches!(handshake_url(r#"{"url":"wss://x"}"#), Err(SlackErr::Decode(_))));
    assert!(matches!(handshake_url("<html>"), Err(SlackErr::Decode(_))));
}

#[test]
fn session_swallows_hello_then_dispatches() {
    let mut c = Client::new("xapp-1".to_string());
    assert_eq!(c.state, SessionState::Idle);
    assert!(!c.connected());
    assert_eq!(c.on_frame(FrameKind::Text), StepAction::SwallowHello);
    assert_eq!(c.on_frame(FrameKind::Ping), StepAction::Ignore);
    assert_eq!(c.on_frame(FrameKind::Text), StepAction::Dispatch);
    assert_eq!(c.state, SessionState::Busy);
    assert_eq!(c.token, "xapp-1");
}

#[test]
fn second_frame_waits_for_first() {
    let mut c = Client::new("t".to_string());
    c.connected();
    c.on_frame(FrameKind::Text);
    assert_eq!(c.on_frame(FrameKind::Text), StepAction::Dispatch);
    assert_eq!(c.on_frame(FrameKind::Text), StepAction::Defer);
    c.frame_done();
    assert_eq!(c.on_frame(FrameKind::Text), StepAction::Dispatch);
}

#[test]
fn reconnect_closes_old_socket_and_close_stops() {
    let mut c = Client::new("t".to_string());
    c.connected();
    assert!(c.connected());
    assert_eq!(c.on_frame(FrameKind::Close), StepAction::Stop);
    assert_eq!(c.state, SessionState::Closed);
    assert!(!c.connected());
    c.lost();
    assert_eq!(c.state, SessionState::Closed);
}

#[test]
fn send_response_frames_envelope_id() {
    let c = Client::new("t".to_string());
    let frame = c.send_response("env-5", build_response_payload("ok"));
    let (id, texts) = decode_response_text(&frame).unwrap();
    assert_eq!(id, "env-5");
    assert_eq!(texts, vec!["ok".to_string()]);
}

#[test]
fn json_members_read_last_occurrence() {
    let j = Json::Object(vec![
        ("k".to_string(), Json::Str("a".to_string())),
        ("k".to_string(), Json::Str("b".to_string())),
    ]);
    assert!(matches!(slackbot::json::get_str(&j, "k"), Some(s) if s == "b"));
    assert!(str_eq("ab", "ab"));
    assert!(!str_eq("ab", "ac"));
    assert!(!str_eq("ab", "abc"));
}

#[test]
fn add_service_answers_with_one_section() {
    let r = add_service("env-7");
    assert_eq!(r.envelope_id, "env-7");
    assert_eq!(r.payload.blocks.len(), 1);
    assert_eq!(r.payload.blocks[0].text.text, "Adding service dns, requesting approval");
    assert_eq!(r.payload.blocks[0].block_type, "section");
}
