//! End-to-end runs of the dispatcher's state machines: each test drives a
//! request through `on_frame` and `on_event`, standing in for the host
//! program that performs the store actions.

use pluginhub::json::Json;
use pluginhub::message::MsgType;
use pluginhub::ops::on_event;
use pluginhub::ops::on_frame;
use pluginhub::ops::Inbound;
use pluginhub::ops::Pending;
use pluginhub::ops::ReadResult;
use pluginhub::ops::Reply;
use pluginhub::ops::StoreAction;
use pluginhub::ops::StoreEvent;
use pluginhub::ops::Turn;
use pluginhub::ops::WriteOutcome;

fn text(s: &str) -> Json {
    Json::Text(s.to_string())
}

fn obj(entries: Vec<(&str, Json)>) -> Json {
    Json::Obj(entries.into_iter().map(|(k, v)| (k.to_string(), v)).collect())
}

fn envelope(ty: &str, data: Json) -> Inbound {
    Inbound::Payload(obj(vec![("type", text(ty)), ("data", data)]))
}

fn unicast_error(t: Turn) -> String {
    match t {
        Turn::Done(Reply::Unicast(m)) => {
            assert!(matches!(m.ty, MsgType::Error));
            match m.data {
                Json::Text(s) => s,
                _ => panic!("error payload is not text"),
            }
        }
        _ => panic!("not a unicast reply"),
    }
}

fn act(t: Turn) -> (Pending, StoreAction) {
    match t {
        Turn::Act(p, a) => (p, a),
        _ => panic!("expected a store action"),
    }
}

fn field(j: &Json, key: &str) -> Json {
    j.get(&key.to_string()).expect("missing field").clone()
}

/// Drives an inline-script add for `name` to its broadcast, returning the
/// record written to the store and the broadcast payload.
fn run_add(meta: Json, existed: bool) -> (Json, Json) {
    let (p, a) = act(on_frame(&envelope("addPlugin", obj(vec![("meta", meta)]))));
    assert!(matches!(a, StoreAction::CheckPluginDir(_)));
    let (p, a) = if existed {
        let (p, a) = act(on_event(p, StoreEvent::Exists(true)));
        assert!(matches!(a, StoreAction::RemovePluginDir(_)));
        act(on_event(p, StoreEvent::Acted(true)))
    } else {
        act(on_event(p, StoreEvent::Exists(false)))
    };
    assert!(matches!(a, StoreAction::CreatePluginDir(_)));
    let (p, a) = act(on_event(p, StoreEvent::Acted(true)));
    let record = match a {
        StoreAction::WritePluginMeta(_, r) => r,
        _ => panic!("expected the metadata write"),
    };
    let (p, a) = act(on_event(p, StoreEvent::Wrote(WriteOutcome::Done)));
    assert!(matches!(a, StoreAction::WritePluginScript(_, _)));
    match on_event(p, StoreEvent::Wrote(WriteOutcome::Done)) {
        Turn::Done(Reply::Broadcast(m)) => {
            assert!(matches!(m.ty, MsgType::AddPlugin));
            (record, m.data)
        }
        _ => panic!("expected the add broadcast"),
    }
}

fn inline_meta(name: &str, version: &str, configs: Option<Json>) -> Json {
    let mut entries = vec![("name", text(name)), ("version", text(version))];
    if let Some(c) = configs {
        entries.push(("configs", c));
    }
    entries.push(("script", obj(vec![("inline", text("x"))])));
    obj(entries)
}

#[test]
fn binary_frame_is_rejected() {
    let msg = unicast_error(on_frame(&Inbound::Binary(vec![0, 159, 146, 150])));
    assert_eq!(msg, "Binary format is not supported.");
    let msg = unicast_error(on_frame(&Inbound::Binary(Vec::new())));
    assert_eq!(msg, "Binary format is not supported.");
}

#[test]
fn malformed_text_is_rejected() {
    assert_eq!(unicast_error(on_frame(&Inbound::Malformed)), "Failed to parse message.");
}

#[test]
fn missing_type_is_rejected() {
    let f = Inbound::Payload(obj(vec![("data", Json::Null)]));
    assert_eq!(unicast_error(on_frame(&f)), "Failed to parse message.");
}

#[test]
fn unknown_type_is_unsupported() {
    assert_eq!(unicast_error(on_frame(&envelope("zzz", Json::Null))), "Unsupported type.");
    assert_eq!(unicast_error(on_frame(&envelope("error", Json::Null))), "Unsupported type.");
}

#[test]
fn plugin_message_is_relayed_verbatim() {
    let payload = obj(vec![("anything", text("at all"))]);
    match on_frame(&envelope("pluginMessage", payload.clone())) {
        Turn::Done(Reply::Broadcast(m)) => {
            assert!(matches!(m.ty, MsgType::PluginMessage));
            assert_eq!(m.data, payload);
        }
        _ => panic!("expected a broadcast"),
    }
}

#[test]
fn remove_missing_plugin_is_error_without_broadcast() {
    let (p, a) = act(on_frame(&envelope("removePlugin", obj(vec![("name", text("ghost"))]))));
    match a {
        StoreAction::CheckPluginDir(n) => assert_eq!(n, "ghost"),
        _ => panic!("expected the directory check"),
    }
    assert_eq!(unicast_error(on_event(p, StoreEvent::Exists(false))), "Plugin not found.");
}

#[test]
fn remove_plugin_broadcasts_name() {
    let (p, _) = act(on_frame(&envelope("removePlugin", obj(vec![("name", text("foo"))]))));
    let (p, a) = act(on_event(p, StoreEvent::Exists(true)));
    assert!(matches!(a, StoreAction::RemovePluginDir(_)));
    match on_event(p, StoreEvent::Acted(true)) {
        Turn::Done(Reply::Broadcast(m)) => {
            assert!(matches!(m.ty, MsgType::RemovePlugin));
            assert_eq!(field(&m.data, "name"), text("foo"));
        }
        _ => panic!("expected the removal broadcast"),
    }
}

#[test]
fn remove_plugin_failure_is_unicast() {
    let (p, _) = act(on_frame(&envelope("removePlugin", obj(vec![("name", text("foo"))]))));
    let (p, _) = act(on_event(p, StoreEvent::Exists(true)));
    assert_eq!(unicast_error(on_event(p, StoreEvent::Acted(false))), "Failed to remove plugin.");
}

#[test]
fn add_then_list_serves_canonical_record() {
    let (record, broadcast) = run_add(inline_meta("foo", "1", None), false);

    let script = field(&broadcast, "script");
    assert_eq!(field(&script, "url"), text("/script/foo.js"));
    assert_eq!(field(&script, "inline"), Json::Null);

    let configs = match field(&broadcast, "configs") {
        Json::Arr(items) => items,
        _ => panic!("configs is not an array"),
    };
    assert_eq!(configs.len(), 1);
    assert_eq!(field(&configs[0], "name"), text("enabled"));
    assert_eq!(field(&configs[0], "type"), text("checkbox"));
    assert_eq!(field(&configs[0], "default"), Json::Bool(false));
    assert_eq!(field(&configs[0], "value"), Json::Bool(false));

    let (p, a) = act(on_frame(&envelope("listPlugins", Json::Null)));
    assert!(matches!(a, StoreAction::ReadPluginList));
    match on_event(p, StoreEvent::Listed(vec![ReadResult::Value(record)])) {
        Turn::Done(Reply::Unicast(m)) => {
            assert!(matches!(m.ty, MsgType::ListPlugins));
            let listed = match m.data {
                Json::Arr(items) => items,
                _ => panic!("list payload is not an array"),
            };
            assert_eq!(listed.len(), 1);
            let entry = &listed[0];
            assert_eq!(field(&field(entry, "script"), "url"), text("/script/foo.js"));
            let configs = match field(entry, "configs") {
                Json::Arr(items) => items,
                _ => panic!("configs is not an array"),
            };
            assert_eq!(field(&configs[0], "name"), text("enabled"));
            assert_eq!(field(&configs[0], "value"), Json::Bool(false));
        }
        _ => panic!("expected the list reply"),
    }
}

#[test]
fn list_skips_corrupt_entries() {
    let (record, _) = run_add(inline_meta("foo", "1", None), false);
    let (p, _) = act(on_frame(&envelope("listPlugins", Json::Null)));
    let entries = vec![
        ReadResult::Unreadable,
        ReadResult::Unparsable,
        ReadResult::Value(Json::Bool(true)),
        ReadResult::Value(record),
    ];
    match on_event(p, StoreEvent::Listed(entries)) {
        Turn::Done(Reply::Unicast(m)) => match m.data {
            Json::Arr(items) => assert_eq!(items.len(), 1),
            _ => panic!("list payload is not an array"),
        },
        _ => panic!("expected the list reply"),
    }
}

#[test]
fn add_fills_config_values_from_defaults() {
    let configs = Json::Arr(vec![
        obj(vec![("name", text("color")), ("type", text("text")), ("default", text("red"))]),
        obj(vec![
            ("name", text("size")),
            ("type", text("number")),
            ("default", Json::Num("4".to_string())),
            ("value", Json::Num("7".to_string())),
        ]),
    ]);
    let (_, broadcast) = run_add(inline_meta("foo", "1", Some(configs)), false);
    let configs = match field(&broadcast, "configs") {
        Json::Arr(items) => items,
        _ => panic!("configs is not an array"),
    };
    assert_eq!(configs.len(), 3);
    assert_eq!(field(&configs[0], "name"), text("enabled"));
    assert_eq!(field(&configs[1], "name"), text("color"));
    assert_eq!(field(&configs[1], "value"), text("red"));
    assert_eq!(field(&configs[2], "name"), text("size"));
    assert_eq!(field(&configs[2], "value"), Json::Num("7".to_string()));
}

#[test]
fn add_twice_replaces_the_record() {
    let first_configs = Json::Arr(vec![obj(vec![
        ("name", text("color")),
        ("type", text("text")),
        ("default", text("red")),
        ("value", text("blue")),
    ])]);
    let (_, _) = run_add(inline_meta("foo", "1", Some(first_configs)), false);

    let second_configs = Json::Arr(vec![obj(vec![
        ("name", text("color")),
        ("type", text("text")),
        ("default", text("red")),
    ])]);
    let (record, broadcast) = run_add(inline_meta("foo", "2", Some(second_configs)), true);
    assert_eq!(field(&broadcast, "version"), text("2"));
    let configs = match field(&broadcast, "configs") {
        Json::Arr(items) => items,
        _ => panic!("configs is not an array"),
    };
    assert_eq!(configs.len(), 2);
    assert_eq!(field(&configs[1], "value"), text("red"));
    assert_eq!(field(&record, "version"), text("2"));
}

#[test]
fn add_without_meta_fails() {
    let t = on_frame(&envelope("addPlugin", obj(vec![])));
    assert_eq!(unicast_error(t), "Failed to get meta.");
}

#[test]
fn add_with_bad_meta_fails() {
    let meta = obj(vec![("name", text("foo"))]);
    let t = on_frame(&envelope("addPlugin", obj(vec![("meta", meta)])));
    assert_eq!(unicast_error(t), "Failed to parse meta.");
}

#[test]
fn add_without_script_source_fails() {
    let meta = obj(vec![
        ("name", text("foo")),
        ("version", text("1")),
        ("script", obj(vec![])),
    ]);
    let t = on_frame(&envelope("addPlugin", obj(vec![("meta", meta)])));
    assert_eq!(unicast_error(t), "Failed to get script.");
}

#[test]
fn add_meta_fetch_failure_fails() {
    let (p, a) = act(on_frame(&envelope("addPlugin", obj(vec![("url", text("http://m"))]))));
    match a {
        StoreAction::FetchJson(u) => assert_eq!(u, "http://m"),
        _ => panic!("expected the metadata fetch"),
    }
    assert_eq!(unicast_error(on_event(p, StoreEvent::Read(ReadResult::Unreadable))), "Failed to get meta.");
}

#[test]
fn add_script_fetch_failure_rolls_back() {
    let meta = obj(vec![
        ("name", text("foo")),
        ("version", text("1")),
        ("script", obj(vec![("url", text("http://x/y.js"))])),
    ]);
    let (p, _) = act(on_frame(&envelope("addPlugin", obj(vec![("meta", meta)]))));
    let (p, _) = act(on_event(p, StoreEvent::Exists(false)));
    let (p, _) = act(on_event(p, StoreEvent::Acted(true)));
    let (p, a) = act(on_event(p, StoreEvent::Wrote(WriteOutcome::Done)));
    match a {
        StoreAction::FetchText(u) => assert_eq!(u, "http://x/y.js"),
        _ => panic!("expected the script fetch"),
    }
    let (p, a) = act(on_event(p, StoreEvent::Got(None)));
    match a {
        StoreAction::RemovePluginDir(n) => assert_eq!(n, "foo"),
        _ => panic!("expected the compensating removal"),
    }
    assert_eq!(unicast_error(on_event(p, StoreEvent::Acted(true))), "Failed to get the script file.");
}

#[test]
fn add_meta_write_failure_rolls_back() {
    let (p, _) = act(on_frame(&envelope("addPlugin", obj(vec![("meta", inline_meta("foo", "1", None))]))));
    let (p, _) = act(on_event(p, StoreEvent::Exists(false)));
    let (p, _) = act(on_event(p, StoreEvent::Acted(true)));
    let (p, a) = act(on_event(p, StoreEvent::Wrote(WriteOutcome::WriteFailed)));
    assert!(matches!(a, StoreAction::RemovePluginDir(_)));
    assert_eq!(unicast_error(on_event(p, StoreEvent::Acted(false))), "Failed to write to meta file.");
}

#[test]
fn add_remove_old_failure_fails() {
    let (p, _) = act(on_frame(&envelope("addPlugin", obj(vec![("meta", inline_meta("foo", "1", None))]))));
    let (p, _) = act(on_event(p, StoreEvent::Exists(true)));
    assert_eq!(unicast_error(on_event(p, StoreEvent::Acted(false))), "Failed to remove old plugin.");
}

#[test]
fn add_create_dir_failure_fails() {
    let (p, _) = act(on_frame(&envelope("addPlugin", obj(vec![("meta", inline_meta("foo", "1", None))]))));
    let (p, _) = act(on_event(p, StoreEvent::Exists(false)));
    assert_eq!(unicast_error(on_event(p, StoreEvent::Acted(false))), "Failed to create plugin directory.");
}

#[test]
fn configure_updates_only_named_values() {
    let configs = Json::Arr(vec![obj(vec![
        ("name", text("color")),
        ("type", text("text")),
        ("default", text("red")),
        ("value", text("blue")),
    ])]);
    let (record, _) = run_add(inline_meta("foo", "1", Some(configs)), false);

    let overrides = Json::Arr(vec![obj(vec![("name", text("enabled")), ("value", Json::Bool(true))])]);
    let data = obj(vec![("name", text("foo")), ("configs", overrides)]);
    let (p, a) = act(on_frame(&envelope("configPlugin", data)));
    match a {
        StoreAction::ReadPluginMeta(n) => assert_eq!(n, "foo"),
        _ => panic!("expected the metadata read"),
    }
    let (p, a) = act(on_event(p, StoreEvent::Read(ReadResult::Value(record))));
    assert!(matches!(a, StoreAction::WritePluginMeta(_, _)));
    match on_event(p, StoreEvent::Wrote(WriteOutcome::Done)) {
        Turn::Done(Reply::Broadcast(m)) => {
            assert!(matches!(m.ty, MsgType::ConfigPlugin));
            let configs = match field(&m.data, "configs") {
                Json::Arr(items) => items,
                _ => panic!("configs is not an array"),
            };
            assert_eq!(field(&configs[0], "name"), text("enabled"));
            assert_eq!(field(&configs[0], "value"), Json::Bool(true));
            assert_eq!(field(&configs[1], "name"), text("color"));
            assert_eq!(field(&configs[1], "value"), text("blue"));
            assert_eq!(field(&field(&m.data, "script"), "url"), text("/script/foo.js"));
        }
        _ => panic!("expected the configure broadcast"),
    }
}

#[test]
fn configure_without_name_fails() {
    let t = on_frame(&envelope("configPlugin", obj(vec![])));
    assert_eq!(unicast_error(t), "Failed to get plugin.");
}

#[test]
fn configure_without_configs_fails() {
    let t = on_frame(&envelope("configPlugin", obj(vec![("name", text("foo"))])));
    assert_eq!(unicast_error(t), "Failed to parse configs.");
}

#[test]
fn configure_read_failures() {
    let overrides = Json::Arr(vec![]);
    let data = obj(vec![("name", text("foo")), ("configs", overrides.clone())]);
    let (p, _) = act(on_frame(&envelope("configPlugin", data.clone())));
    assert_eq!(unicast_error(on_event(p, StoreEvent::Read(ReadResult::Unreadable))), "Failed to read meta file.");

    let (p, _) = act(on_frame(&envelope("configPlugin", data.clone())));
    assert_eq!(unicast_error(on_event(p, StoreEvent::Read(ReadResult::Unparsable))), "Failed to parse meta file.");

    let (p, _) = act(on_frame(&envelope("configPlugin", data)));
    assert_eq!(
        unicast_error(on_event(p, StoreEvent::Read(ReadResult::Value(Json::Bool(true))))),
        "Failed to parse meta file."
    );
}

#[test]
fn configure_write_failure_is_unicast() {
    let (record, _) = run_add(inline_meta("foo", "1", None), false);
    let data = obj(vec![("name", text("foo")), ("configs", Json::Arr(vec![]))]);
    let (p, _) = act(on_frame(&envelope("configPlugin", data)));
    let (p, _) = act(on_event(p, StoreEvent::Read(ReadResult::Value(record))));
    assert_eq!(unicast_error(on_event(p, StoreEvent::Wrote(WriteOutcome::WriteFailed))), "Failed to update meta file.");
}

#[test]
fn style_lifecycle() {
    // Before any set: no url.
    let (p, a) = act(on_frame(&envelope("getStyle", Json::Null)));
    assert!(matches!(a, StoreAction::CheckStyleFile));
    match on_event(p, StoreEvent::Exists(false)) {
        Turn::Done(Reply::Unicast(m)) => {
            assert!(matches!(m.ty, MsgType::GetStyle));
            match m.data {
                Json::Obj(entries) => assert!(entries.is_empty()),
                _ => panic!("style payload is not an object"),
            }
        }
        _ => panic!("expected the style reply"),
    }

    // Set an inline stylesheet.
    let (p, a) = act(on_frame(&envelope("setStyle", obj(vec![("inline", text("body{}"))]))));
    match a {
        StoreAction::WriteStyleFile(t) => assert_eq!(t, "body{}"),
        _ => panic!("expected the style write"),
    }
    match on_event(p, StoreEvent::Wrote(WriteOutcome::Done)) {
        Turn::Done(Reply::Broadcast(m)) => {
            assert!(matches!(m.ty, MsgType::SetStyle));
            assert_eq!(field(&m.data, "url"), text("/custom/style.css"));
            assert!(m.data.get(&"inline".to_string()).is_none());
        }
        _ => panic!("expected the style broadcast"),
    }

    // Now a get serves the canonical path.
    let (p, _) = act(on_frame(&envelope("getStyle", Json::Null)));
    match on_event(p, StoreEvent::Exists(true)) {
        Turn::Done(Reply::Unicast(m)) => {
            assert_eq!(field(&m.data, "url"), text("/custom/style.css"));
        }
        _ => panic!("expected the style reply"),
    }

    // Remove it: a null payload is broadcast.
    let (p, _) = act(on_frame(&envelope("removeStyle", Json::Null)));
    let (p, a) = act(on_event(p, StoreEvent::Exists(true)));
    assert!(matches!(a, StoreAction::RemoveStyleFile));
    match on_event(p, StoreEvent::Acted(true)) {
        Turn::Done(Reply::Broadcast(m)) => {
            assert!(matches!(m.ty, MsgType::RemoveStyle));
            assert_eq!(m.data, Json::Null);
        }
        _ => panic!("expected the removal broadcast"),
    }

    // And a get again serves no url.
    let (p, _) = act(on_frame(&envelope("getStyle", Json::Null)));
    match on_event(p, StoreEvent::Exists(false)) {
        Turn::Done(Reply::Unicast(m)) => match m.data {
            Json::Obj(entries) => assert!(entries.is_empty()),
            _ => panic!("style payload is not an object"),
        },
        _ => panic!("expected the style reply"),
    }
}

#[test]
fn set_style_failures() {
    assert_eq!(unicast_error(on_frame(&envelope("setStyle", Json::Bool(true)))), "Failed to parse data.");
    assert_eq!(unicast_error(on_frame(&envelope("setStyle", obj(vec![])))), "Failed to get style.");

    let (p, a) = act(on_frame(&envelope("setStyle", obj(vec![("url", text("http://s"))]))));
    match a {
        StoreAction::FetchText(u) => assert_eq!(u, "http://s"),
        _ => panic!("expected the style fetch"),
    }
    assert_eq!(unicast_error(on_event(p, StoreEvent::Got(None))), "Failed to get style.");

    let (p, _) = act(on_frame(&envelope("setStyle", obj(vec![("inline", text("x"))]))));
    assert_eq!(unicast_error(on_event(p, StoreEvent::Wrote(WriteOutcome::CreateFailed))), "Failed to open style file.");

    let (p, _) = act(on_frame(&envelope("setStyle", obj(vec![("inline", text("x"))]))));
    assert_eq!(unicast_error(on_event(p, StoreEvent::Wrote(WriteOutcome::WriteFailed))), "Failed to write style.");
}

#[test]
fn remove_style_failures() {
    let (p, _) = act(on_frame(&envelope("removeStyle", Json::Null)));
    assert_eq!(unicast_error(on_event(p, StoreEvent::Exists(false))), "Failed to remove style.");

    let (p, _) = act(on_frame(&envelope("removeStyle", Json::Null)));
    let (p, _) = act(on_event(p, StoreEvent::Exists(true)));
    assert_eq!(unicast_error(on_event(p, StoreEvent::Acted(false))), "Failed to remove style.");
}
