use vstd::prelude::*;
use crate::json::{Json, field, str_field, bool_field, lookup, get_field, get_str, json_text, to_json_text, parse_json, json_accepts, json_tree};

verus! {

/// A text object: its kind (`plain_text` or `mrkdwn`) and its text.
pub struct TextBlock {
    pub text_type: String,
    pub text: String,
}

/// A placeholder for a confirmation dialog; carries nothing.
pub struct ConfirmObject {}

/// A placeholder for an element; carries nothing.
pub struct Element {}

/// One entry of a select control.
pub struct OptionObject {
    pub text: TextBlock,
    pub value: String,
    pub description: Option<String>,
    pub url: Option<String>,
}

/// A static select control, shown as a section's accessory.
pub struct StaticSelect {
    pub element_type: String,
    pub placeholder: TextBlock,
    pub action_id: String,
    pub options: Vec<OptionObject>,
    pub option_groups: Option<Vec<OptionObject>>,
    pub initial_option: Option<OptionObject>,
    pub confirm: Option<ConfirmObject>,
    pub focus_on_load: bool,
}

/// A block of message content.
pub struct Block {
    pub block_type: String,
    pub text: TextBlock,
    pub fields: Option<Vec<TextBlock>>,
    pub accessory: Option<StaticSelect>,
}

/// The blocks of a response.
pub struct BlockPayload {
    pub blocks: Vec<Block>,
}

/// A response sent back over the socket, tied to the envelope it answers.
pub struct Response {
    pub envelope_id: String,
    pub payload: BlockPayload,
}

/// A message posted to a callback URL.
pub struct MessagePayload {
    pub text: String,
    pub blocks: Option<Vec<Block>>,
    pub thread_ts: Option<String>,
    pub mrkdwn: bool,
}

impl TextBlock {
    pub fn new_plain(text: String) -> (r: TextBlock)
        ensures
            r.text_type@ == "plain_text"@,
            r.text == text,
    {
        TextBlock { text_type: "plain_text".to_owned(), text }
    }

    pub fn new_mrkdwn(text: String) -> (r: TextBlock)
        ensures
            r.text_type@ == "mrkdwn"@,
            r.text == text,
    {
        TextBlock { text_type: "mrkdwn".to_owned(), text }
    }
}

impl OptionObject {
    pub fn new(text: TextBlock, value: String) -> (r: OptionObject)
        ensures
            r.text == text,
            r.value == value,
            r.description is None,
            r.url is None,
    {
        OptionObject { text, value, description: None, url: None }
    }
}

impl StaticSelect {
    pub fn new(placeholder: TextBlock, action_id: String, options: Vec<OptionObject>) -> (r: StaticSelect)
        ensures
            r.element_type@ == "static_select"@,
            r.placeholder == placeholder,
            r.action_id == action_id,
            r.options == options,
            r.option_groups is None,
            r.initial_option is None,
            r.confirm is None,
            !r.focus_on_load,
    {
        StaticSelect {
            element_type: "static_select".to_owned(),
            placeholder,
            action_id,
            options,
            option_groups: None,
            initial_option: None,
            confirm: None,
            focus_on_load: false,
        }
    }
}

impl Block {
    pub fn new_section(text: TextBlock) -> (r: Block)
        ensures
            r.block_type@ == "section"@,
            r.text == text,
            r.fields is None,
            r.accessory is None,
    {
        Block { block_type: "section".to_owned(), text, fields: None, accessory: None }
    }

    pub fn add_accessory(&mut self, element: StaticSelect)
        ensures
            final(self).block_type == old(self).block_type,
            final(self).text == old(self).text,
            final(self).fields == old(self).fields,
            final(self).accessory == Some(element),
    {
        self.accessory = Some(element);
    }
}

impl BlockPayload {
    pub fn new(blocks: Vec<Block>) -> (r: BlockPayload)
        ensures
            r.blocks == blocks,
    {
        BlockPayload { blocks }
    }
}

impl Response {
    pub fn new(envelope_id: String, payload: BlockPayload) -> (r: Response)
        ensures
            r.envelope_id == envelope_id,
            r.payload == payload,
    {
        Response { envelope_id, payload }
    }
}

/// A payload of one `mrkdwn` section holding `text`.
pub fn build_response_payload(text: &str) -> (r: BlockPayload)
    ensures
        r.blocks@.len() == 1,
        r.blocks@[0].block_type@ == "section"@,
        r.blocks@[0].text.text_type@ == "mrkdwn"@,
        r.blocks@[0].text.text@ == text@,
        r.blocks@[0].fields is None,
        r.blocks@[0].accessory is None,
{
    let block = Block::new_section(TextBlock::new_mrkdwn(text.to_owned()));
    let mut blocks: Vec<Block> = Vec::new();
    blocks.push(block);
    BlockPayload::new(blocks)
}

// ---- the JSON form of content ----

/// Unfolding `lookup` at the last member.
pub proof fn lemma_lookup_last(es: Seq<(String, Json)>, k: Seq<char>)
    requires
        es.len() > 0,
    ensures
        lookup(es, k) == if es.last().0@ == k { Some(es.last().1) } else { lookup(es.drop_last(), k) },
{
}

/// The member names used below differ from one another.
proof fn lemma_member_names_differ()
    ensures
        "type"@ != "text"@,
        "text"@ != "value"@, "text"@ != "description"@, "text"@ != "url"@,
        "value"@ != "description"@, "value"@ != "url"@,
        "type"@ != "placeholder"@, "type"@ != "action_id"@, "type"@ != "options"@,
        "type"@ != "option_groups"@, "type"@ != "initial_option"@, "type"@ != "confirm"@,
        "type"@ != "focus_on_load"@,
        "action_id"@ != "options"@, "action_id"@ != "option_groups"@,
        "action_id"@ != "initial_option"@, "action_id"@ != "confirm"@,
        "action_id"@ != "focus_on_load"@,
        "options"@ != "option_groups"@, "options"@ != "initial_option"@,
        "options"@ != "confirm"@, "options"@ != "focus_on_load"@,
        "type"@ != "fields"@, "type"@ != "accessory"@,
        "text"@ != "fields"@, "text"@ != "accessory"@, "fields"@ != "accessory"@,
        "envelope_id"@ != "payload"@,
        "text"@ != "mrkdwn"@, "text"@ != "blocks"@, "text"@ != "thread_ts"@,
        "mrkdwn"@ != "blocks"@, "mrkdwn"@ != "thread_ts"@, "blocks"@ != "thread_ts"@,
{
    reveal_strlit("type");
    reveal_strlit("text");
    reveal_strlit("value");
    reveal_strlit("description");
    reveal_strlit("url");
    reveal_strlit("placeholder");
    reveal_strlit("action_id");
    reveal_strlit("options");
    reveal_strlit("option_groups");
    reveal_strlit("initial_option");
    reveal_strlit("confirm");
    reveal_strlit("focus_on_load");
    reveal_strlit("fields");
    reveal_strlit("accessory");
    reveal_strlit("envelope_id");
    reveal_strlit("payload");
    reveal_strlit("mrkdwn");
    reveal_strlit("blocks");
    reveal_strlit("thread_ts");
    assert("type"@.len() == 4);
    assert("text"@.len() == 4);
    assert("value"@.len() == 5);
    assert("description"@.len() == 11);
    assert("url"@.len() == 3);
    assert("placeholder"@.len() == 11);
    assert("action_id"@.len() == 9);
    assert("options"@.len() == 7);
    assert("option_groups"@.len() == 13);
    assert("initial_option"@.len() == 14);
    assert("confirm"@.len() == 7);
    assert("focus_on_load"@.len() == 13);
    assert("fields"@.len() == 6);
    assert("accessory"@.len() == 9);
    assert("envelope_id"@.len() == 11);
    assert("payload"@.len() == 7);
    assert("mrkdwn"@.len() == 6);
    assert("blocks"@.len() == 6);
    assert("thread_ts"@.len() == 9);
    assert("type"@[1] != "text"@[1]);
    assert("options"@[0] != "confirm"@[0]);
    assert("mrkdwn"@[0] != "blocks"@[0]);
    assert("options"@.len() != "option_groups"@.len());
    assert("text"@.len() != "value"@.len());
    assert("action_id"@.len() != "initial_option"@.len());
    assert("action_id"@.len() != "focus_on_load"@.len());
}

/// Appends the member `k: v`.
fn push_member(es: &mut Vec<(String, Json)>, k: &str, v: Json)
    ensures
        final(es)@.len() == old(es)@.len() + 1,
        final(es)@.drop_last() == old(es)@,
        final(es)@.last().0@ == k@,
        final(es)@.last().1 == v,
{
    es.push((k.to_owned(), v));
    assert(final(es)@.drop_last() =~= old(es)@);
}

/// `j` is the JSON form of the text object `t`.
pub open spec fn text_tree(j: Json, t: TextBlock) -> bool {
    &&& str_field(j, "type"@) == Some(t.text_type@)
    &&& str_field(j, "text"@) == Some(t.text@)
}

/// `j` is the JSON form of the block `b`, as far as its kind and text go, and
/// holds `fields` and `accessory` exactly when `b` has them.
pub open spec fn block_tree(j: Json, b: Block) -> bool {
    &&& str_field(j, "type"@) == Some(b.block_type@)
    &&& field(j, "text"@) matches Some(t) && text_tree(t, b.text)
    &&& (field(j, "fields"@) is Some <==> b.fields is Some)
    &&& (field(j, "accessory"@) is Some <==> b.accessory is Some)
}

/// `j` is a JSON array of the forms of `bs`, in order.
pub open spec fn blocks_tree(j: Json, bs: Seq<Block>) -> bool {
    match j {
        Json::Array(a) => a@.len() == bs.len() && forall|i: int| 0 <= i < bs.len() ==> block_tree(#[trigger] a@[i], bs[i]),
        _ => false,
    }
}

/// `j` is the socket frame for the response `r`.
pub open spec fn response_tree(j: Json, r: Response) -> bool {
    &&& str_field(j, "envelope_id"@) == Some(r.envelope_id@)
    &&& field(j, "payload"@) matches Some(p) && field(p, "blocks"@) matches Some(bs) && blocks_tree(bs, r.payload.blocks@)
}

/// `j` is the callback body for the message `m`.
pub open spec fn message_tree(j: Json, m: MessagePayload) -> bool {
    &&& str_field(j, "text"@) == Some(m.text@)
    &&& bool_field(j, "mrkdwn"@) == Some(m.mrkdwn)
    &&& (field(j, "blocks"@) is Some <==> m.blocks is Some)
    &&& (m.blocks matches Some(bs) ==> field(j, "blocks"@) matches Some(a) && blocks_tree(a, bs@))
    &&& (m.thread_ts matches Some(t) ==> str_field(j, "thread_ts"@) == Some(t@))
    &&& (m.thread_ts is None ==> field(j, "thread_ts"@) is None)
}

fn string_tree(s: &String) -> (r: Json)
    ensures
        r matches Json::Str(x) && x@ == s@,
{
    Json::Str(s.clone())
}

fn text_json(t: &TextBlock) -> (r: Json)
    ensures
        text_tree(r, *t),
{
    let mut es: Vec<(String, Json)> = Vec::new();
    push_member(&mut es, "type", string_tree(&t.text_type));
    push_member(&mut es, "text", string_tree(&t.text));
    proof {
        lemma_member_names_differ();
        reveal_strlit("type");
        reveal_strlit("text");
        lemma_lookup_last(es@, "type"@);
        lemma_lookup_last(es@.drop_last(), "type"@);
        lemma_lookup_last(es@, "text"@);
    }
    Json::Object(es)
}

fn texts_json(ts: &Vec<TextBlock>) -> (r: Json)
    ensures
        r matches Json::Array(a) && a@.len() == ts@.len() && forall|i: int| 0 <= i < ts@.len() ==> text_tree(#[trigger] a@[i], ts@[i]),
{
    let mut a: Vec<Json> = Vec::new();
    let mut i: usize = 0;
    while i < ts.len()
        invariant
            i <= ts@.len(),
            a@.len() == i,
            forall|k: int| 0 <= k < i ==> text_tree(#[trigger] a@[k], ts@[k]),
        decreases ts@.len() - i,
    {
        a.push(text_json(&ts[i]));
        i = i + 1;
    }
    Json::Array(a)
}

fn option_json(o: &OptionObject) -> (r: Json)
    ensures
        field(r, "text"@) matches Some(t) && text_tree(t, o.text),
        str_field(r, "value"@) == Some(o.value@),
{
    let mut es: Vec<(String, Json)> = Vec::new();
    push_member(&mut es, "text", text_json(&o.text));
    push_member(&mut es, "value", string_tree(&o.value));
    let ghost base = es@;
    if let Some(d) = &o.description {
        push_member(&mut es, "description", string_tree(d));
    }
    let ghost mid = es@;
    if let Some(u) = &o.url {
        push_member(&mut es, "url", string_tree(u));
    }
    proof {
        lemma_member_names_differ();
        reveal_strlit("text");
        reveal_strlit("value");
        reveal_strlit("description");
        reveal_strlit("url");
        if o.url is Some {
            lemma_lookup_last(es@, "text"@);
            lemma_lookup_last(es@, "value"@);
        }
        if o.description is Some {
            lemma_lookup_last(mid, "text"@);
            lemma_lookup_last(mid, "value"@);
        }
        lemma_lookup_last(base, "text"@);
        lemma_lookup_last(base, "value"@);
        lemma_lookup_last(base.drop_last(), "text"@);
    }
    Json::Object(es)
}

fn options_json(os: &Vec<OptionObject>) -> (r: Json)
    ensures
        r matches Json::Array(a) && a@.len() == os@.len(),
{
    let mut a: Vec<Json> = Vec::new();
    let mut i: usize = 0;
    while i < os.len()
        invariant
            i <= os@.len(),
            a@.len() == i,
        decreases os@.len() - i,
    {
        a.push(option_json(&os[i]));
        i = i + 1;
    }
    Json::Array(a)
}

fn select_json(s: &StaticSelect) -> (r: Json)
    ensures
        str_field(r, "type"@) == Some(s.element_type@),
        str_field(r, "action_id"@) == Some(s.action_id@),
        field(r, "options"@) matches Some(Json::Array(a)) && a@.len() == s.options@.len(),
{
    let mut es: Vec<(String, Json)> = Vec::new();
    push_member(&mut es, "type", string_tree(&s.element_type));
    push_member(&mut es, "placeholder", text_json(&s.placeholder));
    push_member(&mut es, "action_id", string_tree(&s.action_id));
    push_member(&mut es, "options", options_json(&s.options));
    let ghost base = es@;
    if let Some(g) = &s.option_groups {
        push_member(&mut es, "option_groups", options_json(g));
    }
    let ghost e1 = es@;
    if let Some(o) = &s.initial_option {
        push_member(&mut es, "initial_option", option_json(o));
    }
    let ghost e2 = es@;
    if let Some(_) = &s.confirm {
        push_member(&mut es, "confirm", Json::Object(Vec::new()));
    }
    let ghost e3 = es@;
    push_member(&mut es, "focus_on_load", Json::Bool(s.focus_on_load));
    proof {
        lemma_member_names_differ();
        reveal_strlit("type");
        reveal_strlit("placeholder");
        reveal_strlit("action_id");
        reveal_strlit("options");
        reveal_strlit("option_groups");
        reveal_strlit("initial_option");
        reveal_strlit("confirm");
        reveal_strlit("focus_on_load");
        let keys = seq!["type"@, "action_id"@, "options"@];
        assert forall|n: int| 0 <= n < 3 implies lookup(es@, #[trigger] keys[n]) == lookup(base, keys[n]) by {
            lemma_lookup_last(es@, keys[n]);
            if s.confirm is Some {
                lemma_lookup_last(e3, keys[n]);
            }
            if s.initial_option is Some {
                lemma_lookup_last(e2, keys[n]);
            }
            if s.option_groups is Some {
                lemma_lookup_last(e1, keys[n]);
            }
        }
        assert(lookup(es@, keys[0]) == lookup(base, keys[0]));
        assert(lookup(es@, keys[1]) == lookup(base, keys[1]));
        assert(lookup(es@, keys[2]) == lookup(base, keys[2]));
        lemma_lookup_last(base, "type"@);
        lemma_lookup_last(base.drop_last(), "type"@);
        lemma_lookup_last(base.drop_last().drop_last(), "type"@);
        lemma_lookup_last(base.drop_last().drop_last().drop_last(), "type"@);
        lemma_lookup_last(base, "action_id"@);
        lemma_lookup_last(base.drop_last(), "action_id"@);
        lemma_lookup_last(base, "options"@);
    }
    Json::Object(es)
}

fn block_json(b: &Block) -> (r: Json)
    ensures
        block_tree(r, *b),
{
    let mut es: Vec<(String, Json)> = Vec::new();
    push_member(&mut es, "type", string_tree(&b.block_type));
    push_member(&mut es, "text", text_json(&b.text));
    let ghost base = es@;
    if let Some(fs) = &b.fields {
        push_member(&mut es, "fields", texts_json(fs));
    }
    let ghost mid = es@;
    if let Some(acc) = &b.accessory {
        push_member(&mut es, "accessory", select_json(acc));
    }
    proof {
        lemma_member_names_differ();
        reveal_strlit("type");
        reveal_strlit("text");
        reveal_strlit("fields");
        reveal_strlit("accessory");
        let keys = seq!["type"@, "text"@, "fields"@, "accessory"@];
        assert forall|n: int| 0 <= n < 2 implies lookup(es@, #[trigger] keys[n]) == lookup(base, keys[n]) by {
            if b.accessory is Some {
                lemma_lookup_last(es@, keys[n]);
            }
            if b.fields is Some {
                lemma_lookup_last(mid, keys[n]);
            }
        }
        assert(lookup(es@, keys[0]) == lookup(base, keys[0]));
        assert(lookup(es@, keys[1]) == lookup(base, keys[1]));
        lemma_lookup_last(base, "type"@);
        lemma_lookup_last(base.drop_last(), "type"@);
        lemma_lookup_last(base, "text"@);
        lemma_lookup_last(base, "fields"@);
        lemma_lookup_last(base.drop_last(), "fields"@);
        lemma_lookup_last(base, "accessory"@);
        lemma_lookup_last(base.drop_last(), "accessory"@);
        lemma_lookup_last(mid, "fields"@);
        lemma_lookup_last(mid, "accessory"@);
        if b.fields is Some {
            lemma_lookup_last(mid.drop_last(), "accessory"@);
        }
        if b.accessory is Some {
            lemma_lookup_last(es@, "fields"@);
            lemma_lookup_last(es@, "accessory"@);
        }
    }
    Json::Object(es)
}

fn blocks_json(bs: &Vec<Block>) -> (r: Json)
    ensures
        blocks_tree(r, bs@),
{
    let mut a: Vec<Json> = Vec::new();
    let mut i: usize = 0;
    while i < bs.len()
        invariant
            i <= bs@.len(),
            a@.len() == i,
            forall|k: int| 0 <= k < i ==> block_tree(#[trigger] a@[k], bs@[k]),
        decreases bs@.len() - i,
    {
        a.push(block_json(&bs[i]));
        i = i + 1;
    }
    Json::Array(a)
}

/// The JSON tree of the frame that answers an envelope: `envelope_id` and
/// `payload.blocks`.
pub fn response_json(r: &Response) -> (j: Json)
    ensures
        response_tree(j, *r),
{
    let mut p: Vec<(String, Json)> = Vec::new();
    push_member(&mut p, "blocks", blocks_json(&r.payload.blocks));
    let mut es: Vec<(String, Json)> = Vec::new();
    push_member(&mut es, "envelope_id", string_tree(&r.envelope_id));
    push_member(&mut es, "payload", Json::Object(p));
    proof {
        lemma_member_names_differ();
        reveal_strlit("envelope_id");
        reveal_strlit("payload");
        lemma_lookup_last(es@, "envelope_id"@);
        lemma_lookup_last(es@.drop_last(), "envelope_id"@);
        lemma_lookup_last(es@, "payload"@);
        lemma_lookup_last(p@, "blocks"@);
    }
    Json::Object(es)
}

/// The JSON tree of a callback body.
pub fn message_json(m: &MessagePayload) -> (j: Json)
    ensures
        message_tree(j, *m),
{
    let mut es: Vec<(String, Json)> = Vec::new();
    push_member(&mut es, "text", string_tree(&m.text));
    push_member(&mut es, "mrkdwn", Json::Bool(m.mrkdwn));
    let ghost base = es@;
    if let Some(bs) = &m.blocks {
        push_member(&mut es, "blocks", blocks_json(bs));
    }
    let ghost mid = es@;
    if let Some(t) = &m.thread_ts {
        push_member(&mut es, "thread_ts", string_tree(t));
    }
    proof {
        lemma_member_names_differ();
        reveal_strlit("text");
        reveal_strlit("mrkdwn");
        reveal_strlit("blocks");
        reveal_strlit("thread_ts");
        let keys = seq!["text"@, "mrkdwn"@, "blocks"@, "thread_ts"@];
        assert forall|n: int| 0 <= n < 3 implies lookup(es@, #[trigger] keys[n]) == lookup(mid, keys[n]) by {
            if m.thread_ts is Some {
                lemma_lookup_last(es@, keys[n]);
            }
        }
        assert forall|n: int| 0 <= n < 2 implies lookup(mid, #[trigger] keys[n]) == lookup(base, keys[n]) by {
            if m.blocks is Some {
                lemma_lookup_last(mid, keys[n]);
            }
        }
        assert(lookup(es@, keys[0]) == lookup(base, keys[0]));
        assert(lookup(es@, keys[1]) == lookup(base, keys[1]));
        assert(lookup(es@, keys[2]) == lookup(mid, keys[2]));
        lemma_lookup_last(base, "text"@);
        lemma_lookup_last(base.drop_last(), "text"@);
        lemma_lookup_last(base, "mrkdwn"@);
        lemma_lookup_last(base, "blocks"@);
        lemma_lookup_last(base.drop_last(), "blocks"@);
        lemma_lookup_last(base, "thread_ts"@);
        lemma_lookup_last(base.drop_last(), "thread_ts"@);
        lemma_lookup_last(mid, "blocks"@);
        lemma_lookup_last(mid, "thread_ts"@);
        if m.blocks is Some {
            lemma_lookup_last(mid.drop_last(), "thread_ts"@);
        }
        lemma_lookup_last(es@, "thread_ts"@);
    }
    Json::Object(es)
}

/// The text frame that answers an envelope.
pub fn encode_response(r: &Response) -> (s: String)
    ensures
        exists|j: Json| response_tree(j, *r) && s@ == json_text(j),
{
    let j = response_json(r);
    to_json_text(&j)
}

/// The body posted to a callback URL.
pub fn encode_message(m: &MessagePayload) -> (s: String)
    ensures
        exists|j: Json| message_tree(j, *m) && s@ == json_text(j),
{
    let j = message_json(m);
    to_json_text(&j)
}

// ---- reading a response frame back ----

/// The text of a block's text object.
pub open spec fn block_text_of(b: Json) -> Option<Seq<char>> {
    match field(b, "text"@) {
        Some(t) => str_field(t, "text"@),
        None => None,
    }
}

/// The blocks of a response frame.
pub open spec fn frame_blocks(j: Json) -> Option<Seq<Json>> {
    match field(j, "payload"@) {
        Some(p) => match field(p, "blocks"@) {
            Some(Json::Array(a)) => Some(a@),
            _ => None,
        },
        None => None,
    }
}

/// The frame has an envelope id and blocks that each carry a text.
pub open spec fn frame_decodes(j: Json) -> bool {
    &&& str_field(j, "envelope_id"@) is Some
    &&& frame_blocks(j) matches Some(a) && forall|i: int| 0 <= i < a.len() ==> (#[trigger] block_text_of(a[i])) is Some
}

/// The texts of the blocks in `bs`, in order.
pub open spec fn block_texts(bs: Seq<Block>) -> Seq<Seq<char>> {
    Seq::new(bs.len(), |i: int| bs[i].text.text@)
}

/// Reads a response frame as its receiver does: its envelope id and the text
/// of each block.
pub fn decode_response_frame(j: &Json) -> (r: Option<(String, Vec<String>)>)
    ensures
        r is Some <==> frame_decodes(*j),
        r matches Some((e, ts)) ==> str_field(*j, "envelope_id"@) == Some(e@)
            && ts@.len() == frame_blocks(*j)->Some_0.len()
            && forall|i: int| 0 <= i < ts@.len() ==> block_text_of(frame_blocks(*j)->Some_0[i]) == Some(#[trigger] ts@[i]@),
{
    let e = match get_str(j, "envelope_id") {
        Some(e) => e,
        None => { return None; },
    };
    let p = match get_field(j, "payload") {
        Some(p) => p,
        None => { return None; },
    };
    let a = match get_field(p, "blocks") {
        Some(Json::Array(a)) => a,
        _ => { return None; },
    };
    let mut ts: Vec<String> = Vec::new();
    let mut i: usize = 0;
    while i < a.len()
        invariant
            frame_blocks(*j) == Some(a@),
            str_field(*j, "envelope_id"@) == Some(e@),
            i <= a@.len(),
            ts@.len() == i,
            forall|k: int| 0 <= k < i ==> block_text_of(a@[k]) == Some(#[trigger] ts@[k]@),
        decreases a@.len() - i,
    {
        let t = match get_field(&a[i], "text") {
            Some(t) => t,
            None => {
                assert(block_text_of(a@[i as int]) is None);
                return None;
            },
        };
        let x = match get_str(t, "text") {
            Some(x) => x,
            None => {
                assert(block_text_of(a@[i as int]) is None);
                return None;
            },
        };
        ts.push(x);
        i = i + 1;
    }
    proof {
        assert forall|k: int| 0 <= k < a@.len() implies (#[trigger] block_text_of(a@[k])) is Some by {
            assert(block_text_of(a@[k]) == Some(ts@[k]@));
        }
    }
    Some((e, ts))
}

/// Reads a response frame from its text.
pub fn decode_response_text(s: &str) -> (r: Option<(String, Vec<String>)>)
    ensures
        r is Some <==> json_accepts(s@) && frame_decodes(json_tree(s@)),
        r matches Some((e, ts)) ==> str_field(json_tree(s@), "envelope_id"@) == Some(e@)
            && ts@.len() == frame_blocks(json_tree(s@))->Some_0.len()
            && forall|i: int| 0 <= i < ts@.len() ==> block_text_of(frame_blocks(json_tree(s@))->Some_0[i]) == Some(#[trigger] ts@[i]@),
{
    match parse_json(s) {
        Some(j) => decode_response_frame(&j),
        None => None,
    }
}

/// The answer to an `addservice` request: one section saying that the
/// service is being added and awaits approval.
pub fn add_service(envelope_id: &str) -> (r: Response)
    ensures
        r.envelope_id@ == envelope_id@,
        r.payload.blocks@.len() == 1,
        r.payload.blocks@[0].text.text@ == "Adding service dns, requesting approval"@,
        r.payload.blocks@[0].text.text_type@ == "mrkdwn"@,
{
    Response::new(envelope_id.to_owned(), build_response_payload("Adding service dns, requesting approval"))
}

/// Encoding a response and reading the frame back gives its envelope id and
/// the text of each of its blocks, exactly and in order.
pub proof fn response_round_trip(r: Response, j: Json)
    requires
        response_tree(j, r),
    ensures
        frame_decodes(j),
        str_field(j, "envelope_id"@) == Some(r.envelope_id@),
        frame_blocks(j) matches Some(a) && a.len() == r.payload.blocks@.len()
            && forall|i: int| 0 <= i < a.len() ==> #[trigger] block_text_of(a[i]) == Some(block_texts(r.payload.blocks@)[i]),
{
    let a = frame_blocks(j)->Some_0;
    assert forall|i: int| 0 <= i < a.len() implies #[trigger] block_text_of(a[i]) == Some(block_texts(r.payload.blocks@)[i]) by {
        assert(block_tree(a[i], r.payload.blocks@[i]));
    }
}

} // verus!
