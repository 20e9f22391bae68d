use vstd::prelude::*;
use vstd::string::*;
use crate::blocks::TextBlock;
use crate::error::SlackErr;
use crate::json::{Json, field, str_field, bool_field, get_field, get_str, get_bool, parse_json, json_accepts, json_tree};

verus! {

/// The payload of a slash command. `command` keeps its leading `/`.
pub struct SlashCommand {
    pub token: String,
    pub team_id: String,
    pub team_domain: String,
    pub channel_id: String,
    pub channel_name: String,
    pub user_id: String,
    pub user_name: String,
    pub command: String,
    pub text: String,
    pub api_app_id: String,
    pub is_enterprise_install: String,
    pub response_url: String,
    pub trigger_id: String,
}

/// The option picked in a select control.
pub struct SelectedOption {
    pub text: TextBlock,
    pub value: String,
}

/// One user action on a rendered element.
pub struct InteractiveAction {
    pub action_type: String,
    pub action_id: String,
    pub block_id: String,
    pub action_ts: String,
    pub selected_option: SelectedOption,
}

/// The payload of an interactive event.
pub struct Interactive {
    pub interactive_type: String,
    pub actions: Vec<InteractiveAction>,
    pub response_url: String,
}

/// A mention of the app in a channel.
pub struct AppMention {
    pub event_type: String,
    pub user: String,
    pub text: String,
    pub ts: String,
    pub channel: String,
    pub event_ts: String,
}

/// The payload of a generic event.
pub struct EventCallback {
    pub token: String,
    pub team_id: String,
    pub event: AppMention,
    pub event_id: String,
}

/// An envelope received over the socket, by kind.
#[allow(inconsistent_fields)]
pub enum SocketEvent {
    EventsApi { payload: EventCallback, envelope_id: String, accepts_response_payload: bool },
    SlashCommands { payload: SlashCommand, envelope_id: String, accepts_response_payload: bool },
    Interactive { payload: Interactive, envelope_id: String, accepts_response_payload: bool },
}

/// The three kinds of envelope.
#[derive(PartialEq, Eq, Structural, Clone, Copy, Debug)]
pub enum EventKind {
    EventsApi,
    SlashCommands,
    Interactive,
}

/// A command name with exactly one leading `/` removed; empty where there is none.
pub open spec fn normalized(c: Seq<char>) -> Seq<char> {
    if c.len() > 0 && c[0] == '/' {
        c.drop_first()
    } else {
        Seq::empty()
    }
}

impl SlashCommand {
    /// The command's name without its leading `/`.
    pub fn get_command(&self) -> (r: String)
        ensures
            r@ == normalized(self.command@),
    {
        let c = self.command.as_str();
        let n = c.unicode_len();
        if n > 0 && c.get_char(0) == '/' {
            let rest = c.substring_char(1, n);
            assert(rest@ =~= self.command@.drop_first());
            rest.to_owned()
        } else {
            String::new()
        }
    }
}

impl SocketEvent {
    /// The identifier of the envelope.
    pub fn get_envelope_id(&self) -> (r: String)
        ensures
            r@ == self.envelope_id()@,
    {
        match self {
            SocketEvent::EventsApi { envelope_id, .. } => envelope_id.clone(),
            SocketEvent::SlashCommands { envelope_id, .. } => envelope_id.clone(),
            SocketEvent::Interactive { envelope_id, .. } => envelope_id.clone(),
        }
    }

    pub open spec fn envelope_id(self) -> String {
        match self {
            SocketEvent::EventsApi { envelope_id, .. } => envelope_id,
            SocketEvent::SlashCommands { envelope_id, .. } => envelope_id,
            SocketEvent::Interactive { envelope_id, .. } => envelope_id,
        }
    }

    pub open spec fn accepts_response_payload(self) -> bool {
        match self {
            SocketEvent::EventsApi { accepts_response_payload, .. } => accepts_response_payload,
            SocketEvent::SlashCommands { accepts_response_payload, .. } => accepts_response_payload,
            SocketEvent::Interactive { accepts_response_payload, .. } => accepts_response_payload,
        }
    }

    pub open spec fn kind(self) -> EventKind {
        match self {
            SocketEvent::EventsApi { .. } => EventKind::EventsApi,
            SocketEvent::SlashCommands { .. } => EventKind::SlashCommands,
            SocketEvent::Interactive { .. } => EventKind::Interactive,
        }
    }
}

// ---- what a tree must hold, and what is read from it ----

/// The kind named by the `type` member; `None` for a missing or unknown tag.
pub open spec fn event_kind(j: Json) -> Option<EventKind> {
    match str_field(j, "type"@) {
        Some(t) => if t == "events_api"@ {
            Some(EventKind::EventsApi)
        } else if t == "slash_commands"@ {
            Some(EventKind::SlashCommands)
        } else if t == "interactive"@ {
            Some(EventKind::Interactive)
        } else {
            None
        },
        None => None,
    }
}

pub open spec fn text_matches(j: Json, t: TextBlock) -> bool {
    &&& str_field(j, "type"@) == Some(t.text_type@)
    &&& str_field(j, "text"@) == Some(t.text@)
}

pub open spec fn text_decodes(j: Json) -> bool {
    &&& str_field(j, "type"@) is Some
    &&& str_field(j, "text"@) is Some
}

pub open spec fn option_decodes(j: Json) -> bool {
    &&& field(j, "text"@) matches Some(t) && text_decodes(t)
    &&& str_field(j, "value"@) is Some
}

pub open spec fn option_matches(j: Json, o: SelectedOption) -> bool {
    &&& field(j, "text"@) matches Some(t) && text_matches(t, o.text)
    &&& str_field(j, "value"@) == Some(o.value@)
}

pub open spec fn action_decodes(j: Json) -> bool {
    &&& str_field(j, "type"@) is Some
    &&& str_field(j, "action_id"@) is Some
    &&& str_field(j, "block_id"@) is Some
    &&& str_field(j, "action_ts"@) is Some
    &&& field(j, "selected_option"@) matches Some(o) && option_decodes(o)
}

pub open spec fn action_matches(j: Json, a: InteractiveAction) -> bool {
    &&& str_field(j, "type"@) == Some(a.action_type@)
    &&& str_field(j, "action_id"@) == Some(a.action_id@)
    &&& str_field(j, "block_id"@) == Some(a.block_id@)
    &&& str_field(j, "action_ts"@) == Some(a.action_ts@)
    &&& field(j, "selected_option"@) matches Some(o) && option_matches(o, a.selected_option)
}

pub open spec fn interactive_decodes(j: Json) -> bool {
    &&& str_field(j, "type"@) is Some
    &&& str_field(j, "response_url"@) is Some
    &&& field(j, "actions"@) matches Some(Json::Array(a))
        && forall|i: int| 0 <= i < a@.len() ==> action_decodes(#[trigger] a@[i])
}

pub open spec fn interactive_matches(j: Json, p: Interactive) -> bool {
    &&& str_field(j, "type"@) == Some(p.interactive_type@)
    &&& str_field(j, "response_url"@) == Some(p.response_url@)
    &&& field(j, "actions"@) matches Some(Json::Array(a))
        && a@.len() == p.actions@.len()
        && forall|i: int| 0 <= i < a@.len() ==> action_matches(#[trigger] a@[i], p.actions@[i])
}

pub open spec fn slash_decodes(j: Json) -> bool {
    &&& str_field(j, "token"@) is Some
    &&& str_field(j, "team_id"@) is Some
    &&& str_field(j, "team_domain"@) is Some
    &&& str_field(j, "channel_id"@) is Some
    &&& str_field(j, "channel_name"@) is Some
    &&& str_field(j, "user_id"@) is Some
    &&& str_field(j, "user_name"@) is Some
    &&& str_field(j, "command"@) is Some
    &&& str_field(j, "text"@) is Some
    &&& str_field(j, "api_app_id"@) is Some
    &&& str_field(j, "is_enterprise_install"@) is Some
    &&& str_field(j, "response_url"@) is Some
    &&& str_field(j, "trigger_id"@) is Some
}

pub open spec fn slash_matches(j: Json, c: SlashCommand) -> bool {
    &&& str_field(j, "token"@) == Some(c.token@)
    &&& str_field(j, "team_id"@) == Some(c.team_id@)
    &&& str_field(j, "team_domain"@) == Some(c.team_domain@)
    &&& str_field(j, "channel_id"@) == Some(c.channel_id@)
    &&& str_field(j, "channel_name"@) == Some(c.channel_name@)
    &&& str_field(j, "user_id"@) == Some(c.user_id@)
    &&& str_field(j, "user_name"@) == Some(c.user_name@)
    &&& str_field(j, "command"@) == Some(c.command@)
    &&& str_field(j, "text"@) == Some(c.text@)
    &&& str_field(j, "api_app_id"@) == Some(c.api_app_id@)
    &&& str_field(j, "is_enterprise_install"@) == Some(c.is_enterprise_install@)
    &&& str_field(j, "response_url"@) == Some(c.response_url@)
    &&& str_field(j, "trigger_id"@) == Some(c.trigger_id@)
}

pub open spec fn mention_decodes(j: Json) -> bool {
    &&& str_field(j, "type"@) is Some
    &&& str_field(j, "user"@) is Some
    &&& str_field(j, "text"@) is Some
    &&& str_field(j, "ts"@) is Some
    &&& str_field(j, "channel"@) is Some
    &&& str_field(j, "event_ts"@) is Some
}

pub open spec fn mention_matches(j: Json, m: AppMention) -> bool {
    &&& str_field(j, "type"@) == Some(m.event_type@)
    &&& str_field(j, "user"@) == Some(m.user@)
    &&& str_field(j, "text"@) == Some(m.text@)
    &&& str_field(j, "ts"@) == Some(m.ts@)
    &&& str_field(j, "channel"@) == Some(m.channel@)
    &&& str_field(j, "event_ts"@) == Some(m.event_ts@)
}

pub open spec fn callback_decodes(j: Json) -> bool {
    &&& str_field(j, "token"@) is Some
    &&& str_field(j, "team_id"@) is Some
    &&& field(j, "event"@) matches Some(e) && mention_decodes(e)
    &&& str_field(j, "event_id"@) is Some
}

pub open spec fn callback_matches(j: Json, c: EventCallback) -> bool {
    &&& str_field(j, "token"@) == Some(c.token@)
    &&& str_field(j, "team_id"@) == Some(c.team_id@)
    &&& field(j, "event"@) matches Some(e) && mention_matches(e, c.event)
    &&& str_field(j, "event_id"@) == Some(c.event_id@)
}

/// The tree is an envelope of a known kind with every member its kind needs.
pub open spec fn event_decodes(j: Json) -> bool {
    &&& event_kind(j) is Some
    &&& str_field(j, "envelope_id"@) is Some
    &&& bool_field(j, "accepts_response_payload"@) is Some
    &&& field(j, "payload"@) matches Some(p) && match event_kind(j)->Some_0 {
        EventKind::EventsApi => callback_decodes(p),
        EventKind::SlashCommands => slash_decodes(p),
        EventKind::Interactive => interactive_decodes(p),
    }
}

/// `e` holds what the tree `j` holds.
pub open spec fn event_matches(j: Json, e: SocketEvent) -> bool {
    &&& event_kind(j) == Some(e.kind())
    &&& str_field(j, "envelope_id"@) == Some(e.envelope_id()@)
    &&& bool_field(j, "accepts_response_payload"@) == Some(e.accepts_response_payload())
    &&& field(j, "payload"@) matches Some(p) && match e {
        SocketEvent::EventsApi { payload, .. } => callback_matches(p, payload),
        SocketEvent::SlashCommands { payload, .. } => slash_matches(p, payload),
        SocketEvent::Interactive { payload, .. } => interactive_matches(p, payload),
    }
}

// ---- decoding ----

fn missing(name: &str) -> (r: SlackErr)
    ensures
        r is Decode,
{
    let mut detail = String::from_str("missing or mistyped member: ");
    detail.append(name);
    SlackErr::Decode(detail)
}

fn need_str(j: &Json, k: &str) -> (r: Result<String, SlackErr>)
    ensures
        match r {
            Ok(s) => str_field(*j, k@) == Some(s@),
            Err(e) => str_field(*j, k@) is None && e is Decode,
        },
{
    match get_str(j, k) {
        Some(s) => Ok(s),
        None => Err(missing(k)),
    }
}

fn need_bool(j: &Json, k: &str) -> (r: Result<bool, SlackErr>)
    ensures
        match r {
            Ok(b) => bool_field(*j, k@) == Some(b),
            Err(e) => bool_field(*j, k@) is None && e is Decode,
        },
{
    match get_bool(j, k) {
        Some(b) => Ok(b),
        None => Err(missing(k)),
    }
}

fn need_field<'a>(j: &'a Json, k: &str) -> (r: Result<&'a Json, SlackErr>)
    ensures
        match r {
            Ok(v) => field(*j, k@) == Some(*v),
            Err(e) => field(*j, k@) is None && e is Decode,
        },
{
    match get_field(j, k) {
        Some(v) => Ok(v),
        None => Err(missing(k)),
    }
}

pub fn decode_text(j: &Json) -> (r: Result<TextBlock, SlackErr>)
    ensures
        r is Ok <==> text_decodes(*j),
        r matches Ok(t) ==> text_matches(*j, t),
        r matches Err(e) ==> e is Decode,
{
    let text_type = need_str(j, "type")?;
    let text = need_str(j, "text")?;
    Ok(TextBlock { text_type, text })
}

pub fn decode_selected_option(j: &Json) -> (r: Result<SelectedOption, SlackErr>)
    ensures
        r is Ok <==> option_decodes(*j),
        r matches Ok(o) ==> option_matches(*j, o),
        r matches Err(e) ==> e is Decode,
{
    let text = decode_text(need_field(j, "text")?)?;
    let value = need_str(j, "value")?;
    Ok(SelectedOption { text, value })
}

pub fn decode_action(j: &Json) -> (r: Result<InteractiveAction, SlackErr>)
    ensures
        r is Ok <==> action_decodes(*j),
        r matches Ok(a) ==> action_matches(*j, a),
        r matches Err(e) ==> e is Decode,
{
    let action_type = need_str(j, "type")?;
    let action_id = need_str(j, "action_id")?;
    let block_id = need_str(j, "block_id")?;
    let action_ts = need_str(j, "action_ts")?;
    let selected_option = decode_selected_option(need_field(j, "selected_option")?)?;
    Ok(InteractiveAction { action_type, action_id, block_id, action_ts, selected_option })
}

pub fn decode_interactive(j: &Json) -> (r: Result<Interactive, SlackErr>)
    ensures
        r is Ok <==> interactive_decodes(*j),
        r matches Ok(p) ==> interactive_matches(*j, p),
        r matches Err(e) ==> e is Decode,
{
    let interactive_type = need_str(j, "type")?;
    let list = need_field(j, "actions")?;
    let a = match list {
        Json::Array(a) => a,
        _ => { return Err(missing("actions")); },
    };
    let mut actions: Vec<InteractiveAction> = Vec::new();
    let mut i: usize = 0;
    while i < a.len()
        invariant
            field(*j, "actions"@) == Some(Json::Array(*a)),
            i <= a@.len(),
            actions@.len() == i,
            forall|k: int| 0 <= k < i ==> action_decodes(#[trigger] a@[k]),
            forall|k: int| 0 <= k < i ==> action_matches(#[trigger] a@[k], actions@[k]),
        decreases a@.len() - i,
    {
        let act = match decode_action(&a[i]) {
            Ok(act) => act,
            Err(e) => {
                assert(!action_decodes(a@[i as int]));
                assert(field(*j, "actions"@)->Some_0->Array_0@[i as int] == a@[i as int]);
                return Err(e);
            },
        };
        actions.push(act);
        i = i + 1;
    }
    let response_url = need_str(j, "response_url")?;
    Ok(Interactive { interactive_type, actions, response_url })
}

pub fn decode_slash_command(j: &Json) -> (r: Result<SlashCommand, SlackErr>)
    ensures
        r is Ok <==> slash_decodes(*j),
        r matches Ok(c) ==> slash_matches(*j, c),
        r matches Err(e) ==> e is Decode,
{
    let token = need_str(j, "token")?;
    let team_id = need_str(j, "team_id")?;
    let team_domain = need_str(j, "team_domain")?;
    let channel_id = need_str(j, "channel_id")?;
    let channel_name = need_str(j, "channel_name")?;
    let user_id = need_str(j, "user_id")?;
    let user_name = need_str(j, "user_name")?;
    let command = need_str(j, "command")?;
    let text = need_str(j, "text")?;
    let api_app_id = need_str(j, "api_app_id")?;
    let is_enterprise_install = need_str(j, "is_enterprise_install")?;
    let response_url = need_str(j, "response_url")?;
    let trigger_id = need_str(j, "trigger_id")?;
    Ok(SlashCommand {
        token,
        team_id,
        team_domain,
        channel_id,
        channel_name,
        user_id,
        user_name,
        command,
        text,
        api_app_id,
        is_enterprise_install,
        response_url,
        trigger_id,
    })
}

pub fn decode_mention(j: &Json) -> (r: Result<AppMention, SlackErr>)
    ensures
        r is Ok <==> mention_decodes(*j),
        r matches Ok(m) ==> mention_matches(*j, m),
        r matches Err(e) ==> e is Decode,
{
    let event_type = need_str(j, "type")?;
    let user = need_str(j, "user")?;
    let text = need_str(j, "text")?;
    let ts = need_str(j, "ts")?;
    let channel = need_str(j, "channel")?;
    let event_ts = need_str(j, "event_ts")?;
    Ok(AppMention { event_type, user, text, ts, channel, event_ts })
}

pub fn decode_callback(j: &Json) -> (r: Result<EventCallback, SlackErr>)
    ensures
        r is Ok <==> callback_decodes(*j),
        r matches Ok(c) ==> callback_matches(*j, c),
        r matches Err(e) ==> e is Decode,
{
    let token = need_str(j, "token")?;
    let team_id = need_str(j, "team_id")?;
    let event = decode_mention(need_field(j, "event")?)?;
    let event_id = need_str(j, "event_id")?;
    Ok(EventCallback { token, team_id, event, event_id })
}

/// The kind named by the envelope's `type` tag.
pub fn decode_kind(j: &Json) -> (r: Result<EventKind, SlackErr>)
    ensures
        match r {
            Ok(k) => event_kind(*j) == Some(k),
            Err(e) => event_kind(*j) is None && e is Decode,
        },
{
    let tag = need_str(j, "type")?;
    let t = tag.as_str();
    if crate::json::str_eq(t, "events_api") {
        Ok(EventKind::EventsApi)
    } else if crate::json::str_eq(t, "slash_commands") {
        Ok(EventKind::SlashCommands)
    } else if crate::json::str_eq(t, "interactive") {
        Ok(EventKind::Interactive)
    } else {
        let mut detail = String::from_str("unknown envelope type: ");
        detail.append(t);
        Err(SlackErr::Decode(detail))
    }
}

/// Reads an envelope from its JSON tree. Unknown and missing tags are errors.
pub fn decode_event(j: &Json) -> (r: Result<SocketEvent, SlackErr>)
    ensures
        r is Ok <==> event_decodes(*j),
        r matches Ok(e) ==> event_matches(*j, e),
        r matches Err(e) ==> e is Decode,
{
    let kind = decode_kind(j)?;
    let envelope_id = need_str(j, "envelope_id")?;
    let accepts_response_payload = need_bool(j, "accepts_response_payload")?;
    let p = need_field(j, "payload")?;
    match kind {
        EventKind::EventsApi => {
            let payload = decode_callback(p)?;
            Ok(SocketEvent::EventsApi { payload, envelope_id, accepts_response_payload })
        },
        EventKind::SlashCommands => {
            let payload = decode_slash_command(p)?;
            Ok(SocketEvent::SlashCommands { payload, envelope_id, accepts_response_payload })
        },
        EventKind::Interactive => {
            let payload = decode_interactive(p)?;
            Ok(SocketEvent::Interactive { payload, envelope_id, accepts_response_payload })
        },
    }
}

/// Reads an envelope from a text frame: the text must be JSON, and its tree
/// an envelope.
pub fn parse_message(s: &str) -> (r: Result<SocketEvent, SlackErr>)
    ensures
        r is Ok <==> json_accepts(s@) && event_decodes(json_tree(s@)),
        r matches Ok(e) ==> event_matches(json_tree(s@), e),
        r matches Err(e) ==> e is Decode,
{
    match parse_json(s) {
        Some(j) => decode_event(&j),
        None => Err(SlackErr::Decode(String::from_str("frame is not JSON"))),
    }
}

/// An envelope whose `type` tag is missing or names no known kind never
/// decodes; the frame is dropped with a decode error, and the session, back
/// from the frame it was handling, dispatches the next text frame.
pub proof fn unknown_kind_is_rejected(j: Json)
    requires
        event_kind(j) is None,
    ensures
        !event_decodes(j),
        crate::session::step(crate::session::finish(crate::session::SessionState::Busy), crate::session::FrameKind::Text).1
            == crate::session::StepAction::Dispatch,
{
}

} // verus!
