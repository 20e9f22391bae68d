use vstd::prelude::*;
use vstd::string::*;
use crate::blocks::{BlockPayload, MessagePayload, Response, build_response_payload};
use crate::event::{EventCallback, Interactive, SlashCommand, SocketEvent, normalized};

verus! {

/// What the socket loop must do for one envelope.
pub enum Action {
    /// A generic event: hand its payload to the event handler; nothing is sent.
    Forward { payload: EventCallback },
    /// A supported command: publish `message` on `subject`, then send `ack`
    /// over the socket.
    Publish { subject: String, message: String, ack: Response },
    /// An unsupported command: log it; nothing is published or sent.
    Ignore { command: String },
    /// An interactive action: post `body` to `url`, never over the socket.
    Post { url: String, body: MessagePayload },
    /// An interactive event without actions: nothing to do.
    Skip,
}

/// The subject a command is published on; `None` for an unsupported command.
pub open spec fn command_subject(c: Seq<char>) -> Option<Seq<char>> {
    if c == "addservice"@ || c == "addsubnet"@ || c == "addsegment"@ {
        Some("slackbot.command"@)
    } else if c == "approve"@ {
        Some("slackbot.approve"@)
    } else {
        None
    }
}

/// The text published for a command: `<command>::<argument text>`.
pub open spec fn command_message(c: SlashCommand) -> Seq<char> {
    normalized(c.command@) + "::"@ + c.text@
}

/// The text acknowledging a published command.
pub open spec fn ack_text() -> Seq<char> {
    "Request submitted for approval"@
}

/// The text answering an interactive action whose option reads `t`.
pub open spec fn selection_text(t: Seq<char>) -> Seq<char> {
    "Updated with segement ID "@ + t
}

/// `p` is one `mrkdwn` section holding `t`.
pub open spec fn single_section(p: BlockPayload, t: Seq<char>) -> bool {
    &&& p.blocks@.len() == 1
    &&& p.blocks@[0].block_type@ == "section"@
    &&& p.blocks@[0].text.text_type@ == "mrkdwn"@
    &&& p.blocks@[0].text.text@ == t
    &&& p.blocks@[0].fields is None
    &&& p.blocks@[0].accessory is None
}

/// The subject for a normalized command name.
pub fn command_subject_of(c: &str) -> (r: Option<String>)
    ensures
        match r {
            Some(s) => command_subject(c@) == Some(s@),
            None => command_subject(c@) is None,
        },
{
    if crate::json::str_eq(c, "addservice") || crate::json::str_eq(c, "addsubnet")
        || crate::json::str_eq(c, "addsegment") {
        Some(String::from_str("slackbot.command"))
    } else if crate::json::str_eq(c, "approve") {
        Some(String::from_str("slackbot.approve"))
    } else {
        None
    }
}

/// The text published for a command.
pub fn publish_message(payload: &SlashCommand) -> (r: String)
    ensures
        r@ == command_message(*payload),
{
    let mut m = payload.get_command();
    m.append("::");
    m.append(payload.text.as_str());
    m
}

/// Routes a slash command by its normalized name.
pub fn handle_slash_command(payload: SlashCommand, envelope_id: String) -> (r: Action)
    ensures
        match command_subject(normalized(payload.command@)) {
            Some(subj) => r matches Action::Publish { subject, message, ack }
                && subject@ == subj
                && message@ == command_message(payload)
                && ack.envelope_id == envelope_id
                && single_section(ack.payload, ack_text()),
            None => r matches Action::Ignore { command } && command@ == normalized(payload.command@),
        },
{
    let command = payload.get_command();
    match command_subject_of(command.as_str()) {
        Some(subject) => {
            let message = publish_message(&payload);
            let ack = Response::new(envelope_id, build_response_payload("Request submitted for approval"));
            Action::Publish { subject, message, ack }
        },
        None => Action::Ignore { command },
    }
}

/// Answers the first action of an interactive event through its callback URL.
/// Only the first action is acted on; an empty list gives `Skip`.
pub fn handle_interactive(payload: Interactive) -> (r: Action)
    ensures
        payload.actions@.len() == 0 ==> r is Skip,
        payload.actions@.len() > 0 ==> (r matches Action::Post { url, body }
            && url == payload.response_url
            && body.text@ == selection_text(payload.actions@[0].selected_option.text.text@)
            && body.blocks is None
            && body.thread_ts is None
            && !body.mrkdwn),
{
    if payload.actions.len() == 0 {
        return Action::Skip;
    }
    let mut text = String::from_str("Updated with segement ID ");
    text.append(payload.actions[0].selected_option.text.text.as_str());
    let body = MessagePayload { text, blocks: None, thread_ts: None, mrkdwn: false };
    Action::Post { url: payload.response_url, body }
}

/// Routes an envelope by its kind.
pub fn dispatch(event: SocketEvent) -> (r: Action)
    ensures
        match event {
            SocketEvent::EventsApi { payload, .. } => r == (Action::Forward { payload }),
            SocketEvent::SlashCommands { payload, envelope_id, .. } =>
                match command_subject(normalized(payload.command@)) {
                    Some(subj) => r matches Action::Publish { subject, message, ack }
                        && subject@ == subj
                        && message@ == command_message(payload)
                        && ack.envelope_id == envelope_id
                        && single_section(ack.payload, ack_text()),
                    None => r is Ignore,
                },
            SocketEvent::Interactive { payload, .. } =>
                if payload.actions@.len() == 0 {
                    r is Skip
                } else {
                    r matches Action::Post { url, body }
                        && url == payload.response_url
                        && body.text@ == selection_text(payload.actions@[0].selected_option.text.text@)
                        && !body.mrkdwn
                },
        },
{
    match event {
        SocketEvent::EventsApi { payload, .. } => Action::Forward { payload },
        SocketEvent::SlashCommands { payload, envelope_id, .. } => handle_slash_command(payload, envelope_id),
        SocketEvent::Interactive { payload, .. } => handle_interactive(payload),
    }
}

/// A command sent as `/approve` goes to the approval subject and publishes
/// `approve::<text>`; one sent as `/bogus`, or one whose name is empty after
/// normalizing, is unsupported: nothing is published or sent for it.
pub proof fn approval_and_unknown_routing(c: SlashCommand)
    ensures
        c.command@ == "/approve"@ ==> command_subject(normalized(c.command@)) == Some("slackbot.approve"@)
            && command_message(c) == "approve::"@ + c.text@,
        c.command@ == "/bogus"@ ==> command_subject(normalized(c.command@)) is None,
        normalized(c.command@).len() == 0 ==> command_subject(normalized(c.command@)) is None,
{
    reveal_strlit("/approve");
    reveal_strlit("approve");
    reveal_strlit("/bogus");
    reveal_strlit("addservice");
    reveal_strlit("addsubnet");
    reveal_strlit("addsegment");
    reveal_strlit("approve::");
    reveal_strlit("::");
    if c.command@ == "/approve"@ {
        assert(normalized(c.command@) =~= "approve"@);
        assert("approve"@ + "::"@ =~= "approve::"@);
        assert(command_message(c) =~= "approve::"@ + c.text@);
    }
    if c.command@ == "/bogus"@ {
        let n = normalized(c.command@);
        assert(n.len() == 5);
        assert(n[0] == 'b');
    }
}

} // verus!
