//! The data model and codec on concrete values: the envelope, the JSON
//! tree, and the connection set.

use pluginhub::conns::Connection;
use pluginhub::plugin::apply_values;
use pluginhub::plugin::prepare_configs;
use pluginhub::plugin::Config;
use pluginhub::plugin::ConfigValue;
use pluginhub::plugin::PluginMeta;
use pluginhub::plugin::Script;
use pluginhub::conns::Connections;
use pluginhub::json::Json;
use pluginhub::message::tag_of;
use pluginhub::message::type_of_tag;
use pluginhub::message::Message;
use pluginhub::message::MsgType;
use pluginhub::ops::Reply;

fn text(s: &str) -> Json {
    Json::Text(s.to_string())
}

fn obj(entries: Vec<(&str, Json)>) -> Json {
    Json::Obj(entries.into_iter().map(|(k, v)| (k.to_string(), v)).collect())
}

#[test]
fn tag_codec_round_trips() {
    let known = vec![
        (MsgType::AddPlugin, "addPlugin"),
        (MsgType::RemovePlugin, "removePlugin"),
        (MsgType::ConfigPlugin, "configPlugin"),
        (MsgType::ListPlugins, "listPlugins"),
        (MsgType::Error, "error"),
        (MsgType::PluginMessage, "pluginMessage"),
        (MsgType::SetStyle, "setStyle"),
        (MsgType::RemoveStyle, "removeStyle"),
        (MsgType::GetStyle, "getStyle"),
    ];
    for (ty, tag) in known {
        assert_eq!(tag_of(&ty), tag);
        assert!(type_of_tag(tag.to_string()) == ty);
    }
    assert!(type_of_tag("zzz".to_string()) == MsgType::Unknown("zzz".to_string()));
}

#[test]
fn envelope_decodes_with_default_data() {
    let m = Message::decode(&obj(vec![("type", text("addPlugin"))])).expect("decodes");
    assert!(m.ty == MsgType::AddPlugin);
    assert_eq!(m.data, Json::Null);
}

#[test]
fn envelope_keeps_unknown_tags() {
    let m = Message::decode(&obj(vec![("type", text("zzz")), ("data", Json::Bool(true))]))
        .expect("decodes");
    assert!(m.ty == MsgType::Unknown("zzz".to_string()));
    assert_eq!(m.data, Json::Bool(true));
}

#[test]
fn envelope_rejects_bad_shapes() {
    assert!(Message::decode(&Json::Null).is_none());
    assert!(Message::decode(&obj(vec![("data", Json::Null)])).is_none());
    assert!(Message::decode(&obj(vec![("type", Json::Bool(true))])).is_none());
}

#[test]
fn envelope_encodes_tag_and_data() {
    let m = Message { ty: MsgType::SetStyle, data: Json::Bool(true) };
    let expected = obj(vec![("type", text("setStyle")), ("data", Json::Bool(true))]);
    assert_eq!(m.encode(), expected);

    let e = Message::error("nope");
    assert_eq!(e.encode(), obj(vec![("type", text("error")), ("data", text("nope"))]));
}

#[test]
fn json_get_finds_first_match() {
    let j = obj(vec![("a", Json::Bool(true)), ("b", text("x")), ("a", Json::Null)]);
    assert_eq!(j.get(&"a".to_string()), Some(&Json::Bool(true)));
    assert_eq!(j.get(&"b".to_string()), Some(&text("x")));
    assert!(j.get(&"c".to_string()).is_none());
    assert!(Json::Null.get(&"a".to_string()).is_none());
}

#[test]
fn json_clone_is_deep() {
    let j = obj(vec![
        ("a", Json::Arr(vec![Json::Num("1".to_string()), text("two")])),
        ("b", obj(vec![("c", Json::Null)])),
    ]);
    assert_eq!(j.clone(), j);
}

#[test]
fn prepared_configs_head_and_fill() {
    let supplied = vec![
        Config {
            name: "color".to_string(),
            ty: "text".to_string(),
            default: text("red"),
            value: None,
        },
        Config {
            name: "size".to_string(),
            ty: "number".to_string(),
            default: Json::Num("4".to_string()),
            value: Some(Json::Num("7".to_string())),
        },
    ];
    let prepared = prepare_configs(Some(supplied));
    assert_eq!(prepared.len(), 3);
    assert_eq!(prepared[0].name, "enabled");
    assert_eq!(prepared[0].ty, "checkbox");
    assert_eq!(prepared[0].default, Json::Bool(false));
    assert_eq!(prepared[0].value, Some(Json::Bool(false)));
    assert_eq!(prepared[1].value, Some(text("red")));
    assert_eq!(prepared[2].value, Some(Json::Num("7".to_string())));

    let empty = prepare_configs(None);
    assert_eq!(empty.len(), 1);
    assert_eq!(empty[0].name, "enabled");
}

#[test]
fn applied_values_take_the_last_override() {
    let configs = prepare_configs(Some(vec![Config {
        name: "color".to_string(),
        ty: "text".to_string(),
        default: text("red"),
        value: None,
    }]));
    let overrides = vec![
        ConfigValue { name: "color".to_string(), value: text("green") },
        ConfigValue { name: "missing".to_string(), value: Json::Null },
        ConfigValue { name: "color".to_string(), value: text("blue") },
    ];
    let applied = apply_values(configs, &overrides);
    assert_eq!(applied.len(), 2);
    assert_eq!(applied[0].name, "enabled");
    assert_eq!(applied[0].value, Some(Json::Bool(false)));
    assert_eq!(applied[1].name, "color");
    assert_eq!(applied[1].value, Some(text("blue")));
}

#[test]
fn meta_record_round_trips_through_json() {
    let meta = PluginMeta {
        name: "foo".to_string(),
        version: "1".to_string(),
        url: Some("http://p".to_string()),
        description: None,
        configs: Some(prepare_configs(None)),
        script: Script { url: None, inline: Some("x".to_string()) },
    };
    let stored = meta.to_json();
    let read = PluginMeta::of_json(&stored).expect("the stored record parses");
    assert_eq!(read.to_json(), stored);
    assert_eq!(read.name, "foo");
    assert_eq!(read.version, "1");
    assert_eq!(read.url, Some("http://p".to_string()));
    assert_eq!(read.description, None);
    assert_eq!(read.script.inline, Some("x".to_string()));
}

#[test]
fn recipients_follow_the_reply_kind() {
    let mut conns = Connections::new();
    conns.open(Connection { id: 7, remote: Some("10.0.0.1:4".to_string()) });
    conns.open(Connection { id: 9, remote: None });
    conns.open(Connection { id: 12, remote: None });

    let unicast = Reply::Unicast(Message::error("x"));
    assert_eq!(conns.recipients(&unicast, 9), vec![9]);

    let broadcast = Reply::Broadcast(Message::error("x"));
    assert_eq!(conns.recipients(&broadcast, 9), vec![7, 9, 12]);

    conns.close(9);
    assert_eq!(conns.recipients(&broadcast, 7), vec![7, 12]);

    conns.close(7);
    conns.close(12);
    assert_eq!(conns.recipients(&broadcast, 1), Vec::<u64>::new());
}
