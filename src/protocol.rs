//! Framing of protocol lines and the shapes of inbound commands and outbound
//! messages.
use vstd::prelude::*;
use vstd::string::StrSliceExecFns;
use vstd::string::StringExecFns;
use crate::json::{Json, get_spec, get_or_null, position, lemma_member_at, lemma_member_absent};

verus! {

/// Marks a line of standard input or output as protocol traffic.
pub const IO_CHANNEL_PREFIX: &'static str = "_ioc:";

/// The text after the prefix, for a line that carries it.
pub open spec fn payload_spec(line: Seq<char>) -> Option<Seq<char>> {
    let p = IO_CHANNEL_PREFIX@;
    if p.len() <= line.len() && line.subrange(0, p.len() as int) == p {
        Some(line.subrange(p.len() as int, line.len() as int))
    } else {
        None
    }
}

/// The JSON text of a protocol line; nothing for a line without the prefix.
pub fn line_payload(line: &str) -> (r: Option<String>)
    ensures
        match r {
            Some(s) => payload_spec(line@) == Some(s@),
            None => payload_spec(line@) is None,
        },
{
    let p = IO_CHANNEL_PREFIX;
    let plen = p.unicode_len();
    let llen = line.unicode_len();
    if llen < plen {
        return None;
    }
    let mut i: usize = 0;
    while i < plen
        invariant
            plen == p@.len(),
            p == IO_CHANNEL_PREFIX,
            llen == line@.len(),
            plen <= llen,
            i <= plen,
            forall|k: int| 0 <= k < i ==> line@[k] == p@[k],
        decreases plen - i,
    {
        if line.get_char(i) != p.get_char(i) {
            assert(line@.subrange(0, plen as int)[i as int] != p@[i as int]);
            return None;
        }
        i = i + 1;
    }
    assert(line@.subrange(0, plen as int) =~= p@);
    Some(String::from_str(line.substring_char(plen, llen)))
}

/// What the input listener hands to the UI loop.
pub enum Action {
    /// The JSON text of one protocol line.
    ForwardMessage(String),
    /// The result of the script evaluation waiting under a token.
    ScriptResult(u64, String),
}

impl Action {
    /// The action for one line read from the input: protocol lines are
    /// forwarded without their prefix, other lines are not protocol input.
    pub fn from_line(line: &str) -> (r: Option<Action>)
        ensures
            match r {
                Some(Action::ForwardMessage(s)) => payload_spec(line@) == Some(s@),
                Some(Action::ScriptResult(_, _)) => false,
                None => payload_spec(line@) is None,
            },
    {
        match line_payload(line) {
            Some(s) => Some(Action::ForwardMessage(s)),
            None => None,
        }
    }
}

/// One outbound line: the prefix, the JSON text and a line break.
pub fn frame_line(json_text: &str) -> (r: String)
    ensures
        r@ == IO_CHANNEL_PREFIX@ + json_text@ + "\n"@,
{
    let mut s = String::from_str(IO_CHANNEL_PREFIX);
    s.append(json_text);
    s.append("\n");
    s
}

/// One inbound request.
pub struct Command {
    pub id: String,
    pub label: String,
    pub method: String,
    pub data: Json,
}

/// A string member of a message.
pub open spec fn str_member(m: Json, key: Seq<char>) -> Option<String> {
    match get_spec(m, key) {
        Some(Json::Str(s)) => Some(s),
        _ => None,
    }
}

/// Whether a decoded message carries the three fields that every command needs.
pub open spec fn is_command(m: Json) -> bool {
    &&& str_member(m, "id"@) is Some
    &&& str_member(m, "label"@) is Some
    &&& str_member(m, "method"@) is Some
}

/// The command that a decoded message carries, if it is one.
pub open spec fn command_spec(m: Json) -> Option<Command> {
    if is_command(m) {
        Some(Command {
            id: str_member(m, "id"@)->Some_0,
            label: str_member(m, "label"@)->Some_0,
            method: str_member(m, "method"@)->Some_0,
            data: get_or_null(m, "data"@),
        })
    } else {
        None
    }
}

fn string_member(fields: &Vec<(String, Json)>, key: &str) -> (r: Option<String>)
    ensures
        r == str_member(Json::Object(*fields), key@),
{
    match position(fields, key) {
        Some(i) => match &fields[i].1 {
            Json::Str(s) => Some(s.clone()),
            _ => None,
        },
        None => None,
    }
}

/// Reads `id`, `label`, `method` and `data` out of a decoded message. A
/// message without a string `id`, `label` or `method` is no command; an
/// absent `data` reads as `null`.
pub fn decode_command(message: Json) -> (r: Option<Command>)
    ensures
        r == command_spec(message),
{
    match message {
        Json::Object(mut fields) => {
            let ghost old_fields = fields@;
            let id = string_member(&fields, "id");
            let label = string_member(&fields, "label");
            let method = string_member(&fields, "method");
            match (id, label, method) {
                (Some(id), Some(label), Some(method)) => {
                    let data = match position(&fields, "data") {
                        Some(i) => fields.remove(i).1,
                        None => Json::Null,
                    };
                    assert(old_fields == message->Object_0@);
                    Some(Command { id, label, method, data })
                },
                _ => None,
            }
        },
        _ => None,
    }
}

/// One outbound message: a response when it carries the request's `id`, an
/// unsolicited window event when it does not.
pub struct Message {
    pub id: Option<String>,
    pub label: String,
    pub method: String,
    pub data: Option<Json>,
}

/// The `type` member that goes with a message.
pub open spec fn type_tag(id: Option<String>) -> Seq<char> {
    if id is Some { "response"@ } else { "windowEvent"@ }
}

/// The members of the object that carries a message.
pub open spec fn members_of(m: Message) -> nat {
    2 + 1 + (if m.id is Some { 1nat } else { 0nat }) + (if m.data is Some { 1nat } else { 0nat })
}

/// What an object that encodes `m` holds: `id` for a response, `label`,
/// `method`, `type`, and `data` when there is any; and nothing else.
pub open spec fn encodes(j: Json, m: Message) -> bool {
    &&& j is Object
    &&& j->Object_0@.len() == members_of(m)
    &&& get_spec(j, "id"@) == (match m.id { Some(i) => Some(Json::Str(i)), None => None })
    &&& get_spec(j, "label"@) == Some(Json::Str(m.label))
    &&& get_spec(j, "method"@) == Some(Json::Str(m.method))
    &&& (match get_spec(j, "type"@) { Some(Json::Str(t)) => t@ == type_tag(m.id), _ => false })
    &&& get_spec(j, "data"@) == m.data
}

impl Message {
    /// The response to `cmd`, with `data` when the operation reports a value.
    pub fn response(cmd: &Command, data: Option<Json>) -> (r: Message)
        ensures
            r == (Message { id: Some(cmd.id), label: cmd.label, method: cmd.method, data }),
    {
        Message { id: Some(cmd.id.clone()), label: cmd.label.clone(), method: cmd.method.clone(), data }
    }

    /// The JSON object written out for this message.
    pub fn to_json(self) -> (r: Json)
        ensures
            encodes(r, self),
    {
        let ghost m = self;
        let mut fields: Vec<(String, Json)> = Vec::new();
        let is_response = self.id.is_some();
        match self.id {
            Some(id) => fields.push((String::from_str("id"), Json::Str(id))),
            None => {},
        }
        fields.push((String::from_str("label"), Json::Str(self.label)));
        fields.push((String::from_str("method"), Json::Str(self.method)));
        let tag = if is_response { String::from_str("response") } else { String::from_str("windowEvent") };
        fields.push((String::from_str("type"), Json::Str(tag)));
        match self.data {
            Some(d) => fields.push((String::from_str("data"), d)),
            None => {},
        }
        proof {
            reveal_strlit("id");
            reveal_strlit("label");
            reveal_strlit("method");
            reveal_strlit("type");
            reveal_strlit("data");
            reveal_strlit("response");
            reveal_strlit("windowEvent");
            let f = fields@;
            assert("id"@.len() == 2 && "label"@.len() == 5 && "method"@.len() == 6);
            assert("type"@.len() == 4 && "data"@.len() == 4 && "type"@[0] != "data"@[0]);
            let o: int = if m.id is Some { 1 } else { 0 };
            if m.id is Some {
                lemma_member_at(f, "id"@, 0);
            } else {
                lemma_member_absent(f, "id"@);
            }
            lemma_member_at(f, "label"@, o);
            lemma_member_at(f, "method"@, o + 1);
            lemma_member_at(f, "type"@, o + 2);
            if m.data is Some {
                lemma_member_at(f, "data"@, o + 3);
            } else {
                lemma_member_absent(f, "data"@);
            }
        }
        Json::Object(fields)
    }
}

} // verus!
