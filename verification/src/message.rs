//! The wire envelope: a `{type, data}` pair, with an open-ended type tag.
//!
//! An unrecognized tag never fails to decode; it is kept as an `Unknown`
//! variant carrying the original tag, and only rejected if it is dispatched
//! as a command.

use vstd::prelude::*;

use crate::json::Json;
use crate::json::JsonV;
use crate::json::spec_field;

verus! {

/// Ghost mirror of [`MsgType`].
#[verifier::ext_equal]
pub enum MsgTypeV {
    AddPlugin,
    RemovePlugin,
    ConfigPlugin,
    ListPlugins,
    Error,
    PluginMessage,
    SetStyle,
    RemoveStyle,
    GetStyle,
    Unknown(Seq<char>),
}

/// The tag of an envelope: one of the recognized commands, or any other tag
/// kept as it came.
#[derive(PartialEq, Eq)]
pub enum MsgType {
    AddPlugin,
    RemovePlugin,
    ConfigPlugin,
    ListPlugins,
    Error,
    PluginMessage,
    SetStyle,
    RemoveStyle,
    GetStyle,
    Unknown(String),
}

impl View for MsgType {
    type V = MsgTypeV;

    open spec fn view(&self) -> MsgTypeV {
        match self {
            MsgType::AddPlugin => MsgTypeV::AddPlugin,
            MsgType::RemovePlugin => MsgTypeV::RemovePlugin,
            MsgType::ConfigPlugin => MsgTypeV::ConfigPlugin,
            MsgType::ListPlugins => MsgTypeV::ListPlugins,
            MsgType::Error => MsgTypeV::Error,
            MsgType::PluginMessage => MsgTypeV::PluginMessage,
            MsgType::SetStyle => MsgTypeV::SetStyle,
            MsgType::RemoveStyle => MsgTypeV::RemoveStyle,
            MsgType::GetStyle => MsgTypeV::GetStyle,
            MsgType::Unknown(s) => MsgTypeV::Unknown(s@),
        }
    }
}

/// The wire tag of each recognized type.
pub open spec fn spec_tag_of(t: MsgTypeV) -> Seq<char> {
    match t {
        MsgTypeV::AddPlugin => "addPlugin"@,
        MsgTypeV::RemovePlugin => "removePlugin"@,
        MsgTypeV::ConfigPlugin => "configPlugin"@,
        MsgTypeV::ListPlugins => "listPlugins"@,
        MsgTypeV::Error => "error"@,
        MsgTypeV::PluginMessage => "pluginMessage"@,
        MsgTypeV::SetStyle => "setStyle"@,
        MsgTypeV::RemoveStyle => "removeStyle"@,
        MsgTypeV::GetStyle => "getStyle"@,
        MsgTypeV::Unknown(s) => s,
    }
}

/// The type a wire tag decodes to: a recognized command for its own tag,
/// `Unknown` with the tag kept for every other string.
pub open spec fn spec_type_of_tag(tag: Seq<char>) -> MsgTypeV {
    if tag == "addPlugin"@ {
        MsgTypeV::AddPlugin
    } else if tag == "removePlugin"@ {
        MsgTypeV::RemovePlugin
    } else if tag == "configPlugin"@ {
        MsgTypeV::ConfigPlugin
    } else if tag == "listPlugins"@ {
        MsgTypeV::ListPlugins
    } else if tag == "error"@ {
        MsgTypeV::Error
    } else if tag == "pluginMessage"@ {
        MsgTypeV::PluginMessage
    } else if tag == "setStyle"@ {
        MsgTypeV::SetStyle
    } else if tag == "removeStyle"@ {
        MsgTypeV::RemoveStyle
    } else if tag == "getStyle"@ {
        MsgTypeV::GetStyle
    } else {
        MsgTypeV::Unknown(tag)
    }
}

/// Whether `s` has the characters of `lit`.
fn str_is(s: &String, lit: &str) -> (r: bool)
    ensures
        r == (s@ == lit@),
{
    *s == lit.to_owned()
}

/// The type a wire tag decodes to.
pub fn type_of_tag(tag: String) -> (r: MsgType)
    ensures
        r@ == spec_type_of_tag(tag@),
{
    if str_is(&tag, "addPlugin") {
        MsgType::AddPlugin
    } else if str_is(&tag, "removePlugin") {
        MsgType::RemovePlugin
    } else if str_is(&tag, "configPlugin") {
        MsgType::ConfigPlugin
    } else if str_is(&tag, "listPlugins") {
        MsgType::ListPlugins
    } else if str_is(&tag, "error") {
        MsgType::Error
    } else if str_is(&tag, "pluginMessage") {
        MsgType::PluginMessage
    } else if str_is(&tag, "setStyle") {
        MsgType::SetStyle
    } else if str_is(&tag, "removeStyle") {
        MsgType::RemoveStyle
    } else if str_is(&tag, "getStyle") {
        MsgType::GetStyle
    } else {
        MsgType::Unknown(tag)
    }
}

/// The wire tag of a type.
pub fn tag_of(t: &MsgType) -> (r: String)
    ensures
        r@ == spec_tag_of(t@),
{
    match t {
        MsgType::AddPlugin => "addPlugin".to_owned(),
        MsgType::RemovePlugin => "removePlugin".to_owned(),
        MsgType::ConfigPlugin => "configPlugin".to_owned(),
        MsgType::ListPlugins => "listPlugins".to_owned(),
        MsgType::Error => "error".to_owned(),
        MsgType::PluginMessage => "pluginMessage".to_owned(),
        MsgType::SetStyle => "setStyle".to_owned(),
        MsgType::RemoveStyle => "removeStyle".to_owned(),
        MsgType::GetStyle => "getStyle".to_owned(),
        MsgType::Unknown(s) => s.clone(),
    }
}

/// Decoding a recognized type's own tag gives that type back, never
/// `Unknown`: the nine wire tags are pairwise distinct.
pub proof fn lemma_tag_round_trip(t: MsgTypeV)
    requires
        !(t matches MsgTypeV::Unknown(_)),
    ensures
        spec_type_of_tag(spec_tag_of(t)) == t,
{
    reveal_strlit("addPlugin");
    reveal_strlit("removePlugin");
    reveal_strlit("configPlugin");
    reveal_strlit("listPlugins");
    reveal_strlit("error");
    reveal_strlit("pluginMessage");
    reveal_strlit("setStyle");
    reveal_strlit("removeStyle");
    reveal_strlit("getStyle");
    assert("addPlugin"@.len() == 9);
    assert("removePlugin"@.len() == 12);
    assert("configPlugin"@.len() == 12);
    assert("listPlugins"@.len() == 11);
    assert("error"@.len() == 5);
    assert("pluginMessage"@.len() == 13);
    assert("setStyle"@.len() == 8);
    assert("removeStyle"@.len() == 11);
    assert("getStyle"@.len() == 8);
    assert("removePlugin"@[0] == 'r');
    assert("configPlugin"@[0] == 'c');
    assert("setStyle"@[0] == 's');
    assert("getStyle"@[0] == 'g');
    assert("removeStyle"@[0] == 'r');
    assert("listPlugins"@[0] == 'l');
}

/// Ghost mirror of [`Message`].
#[verifier::ext_equal]
pub struct MessageV {
    pub ty: MsgTypeV,
    pub data: JsonV,
}

/// One wire envelope: a type tag and an opaque payload.
pub struct Message {
    pub ty: MsgType,
    pub data: Json,
}

impl View for Message {
    type V = MessageV;

    open spec fn view(&self) -> MessageV {
        MessageV { ty: self.ty@, data: self.data@ }
    }
}

/// What a decoded JSON value means as an envelope: the `type` field must be
/// a string; a missing `data` field defaults to null; any other shape is
/// rejected.
pub open spec fn spec_decode(v: JsonV) -> Option<MessageV> {
    match spec_field(v, "type"@) {
        Some(JsonV::Text(tag)) => Some(
            MessageV {
                ty: spec_type_of_tag(tag),
                data: match spec_field(v, "data"@) {
                    Some(d) => d,
                    None => JsonV::Null,
                },
            },
        ),
        _ => None,
    }
}

/// The wire form of an envelope.
pub open spec fn spec_encode(m: MessageV) -> JsonV {
    JsonV::Obj(seq![("type"@, JsonV::Text(spec_tag_of(m.ty))), ("data"@, m.data)])
}

impl Message {
    /// An error envelope carrying `msg` as its payload.
    pub fn error(msg: &str) -> (r: Message)
        ensures
            r@ == (MessageV { ty: MsgTypeV::Error, data: JsonV::Text(msg@) }),
    {
        Message { ty: MsgType::Error, data: Json::Text(msg.to_owned()) }
    }

    /// Reads an envelope out of a decoded JSON value.
    pub fn decode(v: &Json) -> (r: Option<Message>)
        ensures
            match r {
                Some(m) => spec_decode(v@) == Some(m@),
                None => spec_decode(v@) is None,
            },
    {
        let tag = match v.get(&"type".to_owned()) {
            Some(t) => match t.as_text() {
                Some(s) => s.clone(),
                None => {
                    return None;
                },
            },
            None => {
                return None;
            },
        };
        let data = match v.get(&"data".to_owned()) {
            Some(d) => d.clone(),
            None => Json::Null,
        };
        Some(Message { ty: type_of_tag(tag), data })
    }

    /// Writes this envelope back as a JSON value.
    pub fn encode(self) -> (r: Json)
        ensures
            r@ == spec_encode(self@),
    {
        let ghost m = self@;
        let tag = tag_of(&self.ty);
        let mut entries: Vec<(String, Json)> = Vec::new();
        entries.push(("type".to_owned(), Json::Text(tag)));
        entries.push(("data".to_owned(), self.data));
        let r = Json::Obj(entries);
        proof {
            assert(entries@.len() == 2);
            assert(entries@[0].0@ == "type"@);
            assert(entries@[0].1@ == JsonV::Text(spec_tag_of(m.ty)));
            assert(entries@[1].0@ == "data"@);
            assert(entries@[1].1@ == m.data);
            assert(r@->Obj_0 =~= spec_encode(m)->Obj_0);
        }
        r
    }
}

} // verus!
