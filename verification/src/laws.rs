//! Protocol laws: what holds of every request, stated over the same spec
//! functions the dispatcher's contracts use, and proved once for all
//! inputs.

use vstd::prelude::*;

use crate::json::spec_field;
use crate::json::JsonV;
use crate::message::MessageV;
use crate::message::MsgTypeV;
use crate::ops::InboundV;
use crate::ops::PendingV;
use crate::ops::ReplyV;
use crate::ops::StoreActionV;
use crate::ops::StoreEventV;
use crate::ops::TurnV;
use crate::ops::WriteOutcome;
use crate::ops::spec_canonical;
use crate::ops::spec_err;
use crate::ops::spec_on_event;
use crate::ops::spec_on_frame;
use crate::plugin::ConfigV;
use crate::plugin::ConfigValueV;
use crate::plugin::spec_applied;
use crate::plugin::spec_enabled_config;
use crate::plugin::spec_fill;
use crate::plugin::spec_last_value;
use crate::plugin::spec_config_json;
use crate::plugin::spec_json_of_opt;
use crate::plugin::spec_meta_json;
use crate::plugin::spec_opt_text_field;
use crate::plugin::spec_parse_config;
use crate::plugin::spec_parse_config_items;
use crate::plugin::spec_parse_meta;
use crate::plugin::spec_parse_script;
use crate::plugin::spec_prepared;
use crate::plugin::spec_req_text_field;
use crate::plugin::spec_script_json;
use crate::plugin::MetaV;
use crate::plugin::ScriptV;
use crate::style::spec_style_json;
use crate::style::spec_style_path;
use crate::style::StyleV;

verus! {

/// An error reply is always unicast to the requester, carrying the message
/// text: no failure is ever broadcast.
pub proof fn lemma_error_is_unicast(msg: Seq<char>)
    ensures
        spec_err(msg) == TurnV::Done(
            ReplyV::Unicast(MessageV { ty: MsgTypeV::Error, data: JsonV::Text(msg) }),
        ),
{
}

/// A binary frame always draws the unicast "Binary format is not
/// supported." error, whatever bytes it carries; nothing is broadcast and
/// no operation is started.
pub proof fn lemma_binary_frame_is_unicast_error(payload: Seq<u8>)
    ensures
        spec_on_frame(InboundV::Binary(payload)) == spec_err("Binary format is not supported."@),
{
}

/// Removing a plugin whose directory does not exist yields the unicast
/// "Plugin not found." error, for every name: no removal is attempted and
/// nothing is broadcast.
pub proof fn lemma_remove_missing_plugin(name: Seq<char>)
    ensures
        spec_on_event(PendingV::RemoveChecking(name), StoreEventV::Exists(false)) == spec_err(
            "Plugin not found."@,
        ),
{
}

/// When the script fetch of an add fails, the created directory is removed
/// before anything is reported, and the flow then ends in the single
/// unicast "Failed to get the script file." error — whether or not the
/// compensating removal itself succeeded.  Nothing is broadcast.
pub proof fn lemma_add_script_fetch_failure(m: MetaV, cleanup_ok: bool)
    ensures
        spec_on_event(PendingV::AddFetchingScript(m), StoreEventV::Got(None)) == TurnV::Act(
            PendingV::AddCleaning("Failed to get the script file."@),
            StoreActionV::RemovePluginDir(m.name),
        ),
        spec_on_event(
            PendingV::AddCleaning("Failed to get the script file."@),
            StoreEventV::Acted(cleanup_ok),
        ) == spec_err("Failed to get the script file."@),
{
}

/// An add carries one record through its whole flow: whether or not an old
/// directory existed — and was removed whole — the same fresh record is
/// created, and the final broadcast carries exactly that record,
/// canonicalized.  Nothing of an earlier version is merged in.
pub proof fn lemma_add_replaces_whole(m: MetaV)
    ensures
        spec_on_event(PendingV::AddCheckingOld(m), StoreEventV::Exists(true)) == TurnV::Act(
            PendingV::AddRemovingOld(m),
            StoreActionV::RemovePluginDir(m.name),
        ),
        spec_on_event(PendingV::AddRemovingOld(m), StoreEventV::Acted(true)) == TurnV::Act(
            PendingV::AddCreatingDir(m),
            StoreActionV::CreatePluginDir(m.name),
        ),
        spec_on_event(PendingV::AddCheckingOld(m), StoreEventV::Exists(false)) == TurnV::Act(
            PendingV::AddCreatingDir(m),
            StoreActionV::CreatePluginDir(m.name),
        ),
        spec_on_event(
            PendingV::AddWritingScript(m),
            StoreEventV::Wrote(WriteOutcome::Done),
        ) == TurnV::Done(
            ReplyV::Broadcast(
                MessageV { ty: MsgTypeV::AddPlugin, data: spec_meta_json(spec_canonical(m)) },
            ),
        ),
{
}

/// A persisted config list always begins with the synthetic `enabled`
/// config, keeps every supplied config in order with its name, kind and
/// default untouched, and leaves no config without a value.
pub proof fn lemma_prepared_configs(orig: Seq<ConfigV>)
    ensures
        spec_prepared(orig).len() == orig.len() + 1,
        spec_prepared(orig)[0] == spec_enabled_config(),
        forall|i: int| #![auto] 0 <= i < orig.len() ==> spec_prepared(orig)[i + 1] == spec_fill(
            orig[i],
        ),
        forall|i: int| #![auto]
            0 <= i < spec_prepared(orig).len() ==> spec_prepared(orig)[i].value is Some,
{
}

/// Applying an override list touches nothing but values: every config
/// keeps its place, name, kind and default; one named by an override takes
/// the last such override's value; every other keeps its own.
pub proof fn lemma_applied_configs(cs: Seq<ConfigV>, vs: Seq<ConfigValueV>, i: int)
    requires
        0 <= i < cs.len(),
    ensures
        spec_applied(cs, vs).len() == cs.len(),
        spec_applied(cs, vs)[i].name == cs[i].name,
        spec_applied(cs, vs)[i].ty == cs[i].ty,
        spec_applied(cs, vs)[i].default == cs[i].default,
        spec_last_value(vs, cs[i].name) is None ==> spec_applied(cs, vs)[i].value == cs[i].value,
        spec_last_value(vs, cs[i].name) matches Some(v) ==> spec_applied(cs, vs)[i].value == Some(
            v,
        ),
{
}

/// The style lifecycle: while no stylesheet exists a get serves a style
/// with no url; once one is written the canonical path is broadcast and
/// served; a removal broadcasts a null payload.  Each reply here is the
/// only one of its request.
pub proof fn lemma_style_lifecycle()
    ensures
        spec_on_event(PendingV::GetStyleChecking, StoreEventV::Exists(false)) == TurnV::Done(
            ReplyV::Unicast(
                MessageV {
                    ty: MsgTypeV::GetStyle,
                    data: spec_style_json(StyleV { url: None, inline: None }),
                },
            ),
        ),
        spec_style_json(StyleV { url: None, inline: None }) == JsonV::Obj(Seq::empty()),
        spec_on_event(PendingV::GetStyleChecking, StoreEventV::Exists(true)) == TurnV::Done(
            ReplyV::Unicast(
                MessageV {
                    ty: MsgTypeV::GetStyle,
                    data: spec_style_json(StyleV { url: Some(spec_style_path()), inline: None }),
                },
            ),
        ),
        spec_on_event(
            PendingV::StyleWriting,
            StoreEventV::Wrote(WriteOutcome::Done),
        ) == TurnV::Done(
            ReplyV::Broadcast(
                MessageV {
                    ty: MsgTypeV::SetStyle,
                    data: spec_style_json(StyleV { url: Some(spec_style_path()), inline: None }),
                },
            ),
        ),
        spec_on_event(PendingV::RemoveStyleRemoving, StoreEventV::Acted(true)) == TurnV::Done(
            ReplyV::Broadcast(MessageV { ty: MsgTypeV::RemoveStyle, data: JsonV::Null }),
        ),
{
    assert(spec_style_json(StyleV { url: None, inline: None })->Obj_0 =~= Seq::empty());
}

/// Query operations never broadcast: a list or a style read is answered to
/// the requester alone, whatever the store said.
pub proof fn lemma_queries_are_unicast(ev: StoreEventV)
    ensures
        (spec_on_event(PendingV::Listing, ev) matches TurnV::Done(ReplyV::Unicast(m)) && m.ty
            == MsgTypeV::ListPlugins),
        (spec_on_event(PendingV::GetStyleChecking, ev) matches TurnV::Done(ReplyV::Unicast(m))
            && m.ty == MsgTypeV::GetStyle),
{
}

// ------------------------------------------------------------------
// The stored form reads back as itself.
// ------------------------------------------------------------------

/// A script reference reads back from its JSON form unchanged.
pub proof fn lemma_script_round_trip(s: ScriptV)
    ensures
        spec_parse_script(spec_script_json(s)) == Some(s),
{
    reveal_with_fuel(crate::json::spec_lookup, 4);
    reveal_strlit("url");
    reveal_strlit("inline");
    assert("url"@.len() == 3);
    assert("inline"@.len() == 6);
    let e = spec_script_json(s)->Obj_0;
    assert(e.drop_first() =~= seq![("inline"@, spec_json_of_opt(s.inline))]);
    assert("url"@ != "inline"@);
}

/// A config reads back from its JSON form unchanged, as long as its value
/// is not literally null: a stored null value reads back as unset.
pub proof fn lemma_config_round_trip(c: ConfigV)
    requires
        c.value != Some(JsonV::Null),
    ensures
        spec_parse_config(spec_config_json(c)) == Some(c),
{
    reveal_with_fuel(crate::json::spec_lookup, 6);
    reveal_strlit("name");
    reveal_strlit("type");
    reveal_strlit("default");
    reveal_strlit("value");
    let e = spec_config_json(c)->Obj_0;
    let e1 = seq![
        ("type"@, JsonV::Text(c.ty)),
        ("default"@, c.default),
        (
            "value"@,
            match c.value {
                Some(v) => v,
                None => JsonV::Null,
            },
        ),
    ];
    assert(e.drop_first() =~= e1);
    assert(e1.drop_first() =~= e1.subrange(1, 3));
    assert(e1.subrange(1, 3).drop_first() =~= e1.subrange(2, 3));
    assert("name"@.len() == 4 && "type"@.len() == 4 && "default"@.len() == 7 && "value"@.len()
        == 5);
    assert("name"@[0] == 'n' && "type"@[0] == 't');
    assert("name"@ != "type"@ && "name"@ != "default"@ && "name"@ != "value"@);
    assert("type"@ != "default"@ && "type"@ != "value"@ && "default"@ != "value"@);
}

/// A whole record reads back from its stored JSON form unchanged, as long
/// as no config value is literally null.  What an add writes is what a
/// later list or configure loads.
pub proof fn lemma_meta_round_trip(m: MetaV)
    requires
        match m.configs {
            Some(cs) => forall|i: int| #![auto]
                0 <= i < cs.len() ==> cs[i].value != Some(JsonV::Null),
            None => true,
        },
    ensures
        spec_parse_meta(spec_meta_json(m)) == Some(m),
{
    reveal_with_fuel(crate::json::spec_lookup, 8);
    reveal_strlit("name");
    reveal_strlit("version");
    reveal_strlit("url");
    reveal_strlit("description");
    reveal_strlit("configs");
    reveal_strlit("script");
    let j = spec_meta_json(m);
    let e = j->Obj_0;
    let configs_json = e[4].1;
    let e1 = seq![
        ("version"@, JsonV::Text(m.version)),
        ("url"@, spec_json_of_opt(m.url)),
        ("description"@, spec_json_of_opt(m.description)),
        ("configs"@, configs_json),
        ("script"@, spec_script_json(m.script)),
    ];
    assert(e.drop_first() =~= e1);
    assert(e1.drop_first() =~= e1.subrange(1, 5));
    assert(e1.subrange(1, 5).drop_first() =~= e1.subrange(2, 5));
    assert(e1.subrange(2, 5).drop_first() =~= e1.subrange(3, 5));
    assert(e1.subrange(3, 5).drop_first() =~= e1.subrange(4, 5));
    assert("name"@.len() == 4 && "version"@.len() == 7 && "url"@.len() == 3
        && "description"@.len() == 11 && "configs"@.len() == 7 && "script"@.len() == 6);
    assert("version"@[0] == 'v' && "configs"@[0] == 'c');
    assert("name"@ != "version"@ && "name"@ != "url"@ && "name"@ != "description"@ && "name"@
        != "configs"@ && "name"@ != "script"@);
    assert("version"@ != "url"@ && "version"@ != "description"@ && "version"@ != "configs"@
        && "version"@ != "script"@);
    assert("url"@ != "description"@ && "url"@ != "configs"@ && "url"@ != "script"@);
    assert("description"@ != "configs"@ && "description"@ != "script"@);
    assert("configs"@ != "script"@);
    assert(spec_req_text_field(j, "name"@) == Some(m.name));
    assert(spec_req_text_field(j, "version"@) == Some(m.version));
    assert(spec_opt_text_field(j, "url"@) == Some(m.url));
    assert(spec_opt_text_field(j, "description"@) == Some(m.description));
    assert(spec_field(j, "script"@) == Some(spec_script_json(m.script)));
    lemma_script_round_trip(m.script);
    match m.configs {
        Some(cs) => {
            let items = configs_json->Arr_0;
            assert forall|i: int| 0 <= i < items.len() implies spec_parse_config(items[i])
                == Some(cs[i]) by {
                lemma_config_round_trip(cs[i]);
            }
            assert(spec_parse_config_items(items) matches Some(parsed) && parsed =~= cs);
        },
        None => {
            assert(spec_field(j, "configs"@) == Some(JsonV::Null));
        },
    }
}

// ------------------------------------------------------------------
// The add flow is transactional.
// ------------------------------------------------------------------

/// What `plugins/<name>` holds for the record being added, abstractly.
#[verifier::ext_equal]
pub enum DirContents {
    /// No directory.
    Missing,
    /// The directory, with no file yet.
    Empty,
    /// The directory and a whole metadata file.
    MetaOnly(JsonV),
    /// The directory, the metadata file and a whole script file.
    Complete(JsonV, Seq<char>),
    /// A half-written file is inside.
    Garbage,
}

/// How a store action, with its outcome, changes the directory: a failed
/// removal or creation leaves it as it was, a failed write may leave a
/// half-written file, a successful step leaves whole files only.
pub open spec fn spec_apply_action(d: DirContents, a: StoreActionV, ev: StoreEventV) -> DirContents {
    match a {
        StoreActionV::RemovePluginDir(_) => match ev {
            StoreEventV::Acted(true) => DirContents::Missing,
            _ => d,
        },
        StoreActionV::CreatePluginDir(_) => match ev {
            StoreEventV::Acted(true) => DirContents::Empty,
            _ => d,
        },
        StoreActionV::WritePluginMeta(_, j) => match ev {
            StoreEventV::Wrote(WriteOutcome::Done) => DirContents::MetaOnly(j),
            StoreEventV::Wrote(WriteOutcome::WriteFailed) => DirContents::Garbage,
            _ => d,
        },
        StoreActionV::WritePluginScript(_, t) => match ev {
            StoreEventV::Wrote(WriteOutcome::Done) => match d {
                DirContents::MetaOnly(j) => DirContents::Complete(j, t),
                _ => DirContents::Garbage,
            },
            StoreEventV::Wrote(WriteOutcome::WriteFailed) => DirContents::Garbage,
            _ => d,
        },
        _ => d,
    }
}

/// A run of a pending operation: each event answers the issued action,
/// moving the directory by `spec_apply_action` and the machine by
/// `spec_on_event`, until a reply ends it.  `None` when the events run out
/// first.
pub open spec fn spec_add_run(
    p: PendingV,
    a: StoreActionV,
    d: DirContents,
    evs: Seq<StoreEventV>,
) -> Option<(ReplyV, DirContents)>
    decreases evs.len(),
{
    if evs.len() == 0 {
        None
    } else {
        let ev = evs.first();
        let d2 = spec_apply_action(d, a, ev);
        match spec_on_event(p, ev) {
            TurnV::Done(r) => Some((r, d2)),
            TurnV::Act(p2, a2) => spec_add_run(p2, a2, d2, evs.drop_first()),
        }
    }
}

/// Whether every compensating removal in the run succeeds.
pub open spec fn spec_cleanups_ok(p: PendingV, evs: Seq<StoreEventV>) -> bool
    decreases evs.len(),
{
    if evs.len() == 0 {
        true
    } else {
        let ev = evs.first();
        (match p {
            PendingV::AddCleaning(_) => ev == StoreEventV::Acted(true),
            _ => true,
        }) && match spec_on_event(p, ev) {
            TurnV::Done(_) => true,
            TurnV::Act(p2, _) => spec_cleanups_ok(p2, evs.drop_first()),
        }
    }
}

/// The states an add passes through, with what the directory then holds:
/// the record is untouched until the old directory goes, and from the
/// first write on, only whole files of the new record are inside.
pub open spec fn spec_add_inv(
    p: PendingV,
    a: StoreActionV,
    d: DirContents,
    d0: DirContents,
    m: MetaV,
) -> bool {
    match p {
        PendingV::AddCheckingOld(m2) => m2 == m && a == StoreActionV::CheckPluginDir(m.name) && d
            == d0,
        PendingV::AddRemovingOld(m2) => m2 == m && a == StoreActionV::RemovePluginDir(m.name) && d
            == d0,
        PendingV::AddCreatingDir(m2) => m2 == m && a == StoreActionV::CreatePluginDir(m.name) && (d
            == d0 || d == DirContents::Missing),
        PendingV::AddWritingMeta(m2) => m2 == m && a == StoreActionV::WritePluginMeta(
            m.name,
            spec_meta_json(m),
        ) && d == DirContents::Empty,
        PendingV::AddFetchingScript(m2) => m2 == m && (a matches StoreActionV::FetchText(_)) && d
            == DirContents::MetaOnly(spec_meta_json(m)),
        PendingV::AddWritingScript(m2) => m2 == m && (a matches StoreActionV::WritePluginScript(
            n,
            _,
        ) && n == m.name) && d == DirContents::MetaOnly(spec_meta_json(m)),
        PendingV::AddCleaning(_) => a == StoreActionV::RemovePluginDir(m.name),
        _ => false,
    }
}

/// From any reachable point of an add, a run that ends did one of two
/// things.  On a broadcast, the directory holds the whole new record: the
/// metadata written is the broadcast record before canonicalization, and a
/// whole script file stands beside it.  On a unicast error — with the
/// compensating removals succeeding — the directory is exactly as the run
/// found it, or gone; never half-written, and nothing was broadcast.
pub proof fn lemma_add_run_transactional(
    p: PendingV,
    a: StoreActionV,
    d: DirContents,
    d0: DirContents,
    m: MetaV,
    evs: Seq<StoreEventV>,
)
    requires
        m.script.inline is Some || m.script.url is Some,
        spec_add_inv(p, a, d, d0, m),
        spec_cleanups_ok(p, evs),
    ensures
        match spec_add_run(p, a, d, evs) {
            Some((r, d_end)) => {
                &&& (r matches ReplyV::Broadcast(msg) ==> msg == (MessageV {
                    ty: MsgTypeV::AddPlugin,
                    data: spec_meta_json(spec_canonical(m)),
                }) && (d_end matches DirContents::Complete(j, _) && j == spec_meta_json(m)))
                &&& (r matches ReplyV::Unicast(msg) ==> msg.ty == MsgTypeV::Error && (d_end == d0
                    || d_end == DirContents::Missing))
            },
            None => true,
        },
    decreases evs.len(),
{
    if evs.len() > 0 {
        let ev = evs.first();
        let d2 = spec_apply_action(d, a, ev);
        match spec_on_event(p, ev) {
            TurnV::Done(_) => {},
            TurnV::Act(p2, a2) => {
                lemma_add_run_transactional(p2, a2, d2, d0, m, evs.drop_first());
            },
        }
    }
}

/// The whole-flow statement: an add observed from its first directory
/// check is transactional, for every record, every starting directory
/// state and every interleaving of outcomes.
pub proof fn theorem_add_transactional(m: MetaV, d0: DirContents, evs: Seq<StoreEventV>)
    requires
        m.script.inline is Some || m.script.url is Some,
        spec_cleanups_ok(PendingV::AddCheckingOld(m), evs),
    ensures
        match spec_add_run(
            PendingV::AddCheckingOld(m),
            StoreActionV::CheckPluginDir(m.name),
            d0,
            evs,
        ) {
            Some((r, d_end)) => {
                &&& (r matches ReplyV::Broadcast(msg) ==> msg == (MessageV {
                    ty: MsgTypeV::AddPlugin,
                    data: spec_meta_json(spec_canonical(m)),
                }) && (d_end matches DirContents::Complete(j, _) && j == spec_meta_json(m)))
                &&& (r matches ReplyV::Unicast(msg) ==> msg.ty == MsgTypeV::Error && (d_end == d0
                    || d_end == DirContents::Missing))
            },
            None => true,
        },
{
    lemma_add_run_transactional(
        PendingV::AddCheckingOld(m),
        StoreActionV::CheckPluginDir(m.name),
        d0,
        d0,
        m,
        evs,
    );
}

} // verus!
