//! The dispatcher and the registry operations.
//!
//! Every inbound frame is answered by exactly one reply: a unicast error or
//! query result to the requester, or a broadcast of the mutated state to
//! every open connection.  A mutating operation runs as a state machine:
//! the library decides, the host program performs the store action it is
//! handed (a directory check, a file write, a remote fetch) and feeds the
//! outcome back as an event, until a reply comes out.  A failed mutation
//! compensates: a partially created plugin directory is removed before the
//! error is reported, so no half-written plugin is ever left behind.

use vstd::prelude::*;

use crate::json::Json;
use crate::json::JsonV;
use crate::json::obj_model;
use crate::json::arr_model;
use crate::json::spec_field;
use crate::message::Message;
use crate::message::MessageV;
use crate::message::MsgType;
use crate::message::MsgTypeV;
use crate::message::spec_decode;
use crate::plugin::PluginMeta;
use crate::plugin::MetaV;
use crate::plugin::ScriptV;
use crate::plugin::ConfigValue;
use crate::plugin::ConfigValueV;
use crate::plugin::spec_parse_meta;
use crate::plugin::spec_parse_values;
use crate::plugin::spec_prepared;
use crate::plugin::spec_applied;
use crate::plugin::spec_meta_json;
use crate::plugin::spec_script_path;
use crate::plugin::prepare_configs;
use crate::plugin::apply_values;
use crate::plugin::parse_values;
use crate::plugin::values_model;
use crate::style::Style;
use crate::style::spec_parse_style;
use crate::style::spec_style_json;
use crate::style::StyleV;
use crate::style::spec_style_path;

verus! {

/// One inbound frame, after the host program has read the socket and
/// decoded any text as JSON.
pub enum Inbound {
    /// A binary frame: never supported, whatever it carries.
    Binary(Vec<u8>),
    /// A text frame whose body is not valid JSON.
    Malformed,
    /// A text frame's decoded JSON body.
    Payload(Json),
}

/// Ghost mirror of [`Inbound`].
#[verifier::ext_equal]
pub enum InboundV {
    Binary(Seq<u8>),
    Malformed,
    Payload(JsonV),
}

impl View for Inbound {
    type V = InboundV;

    open spec fn view(&self) -> InboundV {
        match self {
            Inbound::Binary(b) => InboundV::Binary(b@),
            Inbound::Malformed => InboundV::Malformed,
            Inbound::Payload(j) => InboundV::Payload(j@),
        }
    }
}

/// The outcome of reading a JSON document: a plugin's stored metadata, or a
/// remote metadata fetch.
pub enum ReadResult {
    /// The file could not be read, or the fetch failed.
    Unreadable,
    /// The text was read but is not valid JSON.
    Unparsable,
    /// The decoded document.
    Value(Json),
}

/// Ghost mirror of [`ReadResult`].
#[verifier::ext_equal]
pub enum ReadResultV {
    Unreadable,
    Unparsable,
    Value(JsonV),
}

impl View for ReadResult {
    type V = ReadResultV;

    open spec fn view(&self) -> ReadResultV {
        match self {
            ReadResult::Unreadable => ReadResultV::Unreadable,
            ReadResult::Unparsable => ReadResultV::Unparsable,
            ReadResult::Value(j) => ReadResultV::Value(j@),
        }
    }
}

/// The ghost form of a list of read documents.
pub open spec fn reads_model(es: Seq<ReadResult>) -> Seq<ReadResultV> {
    Seq::new(
        es.len(),
        |i: int|
            if 0 <= i < es.len() {
                es[i]@
            } else {
                ReadResultV::Unreadable
            },
    )
}

/// How a file write ended.  A write that found nothing to create and
/// nothing to serialize simply succeeds or fails to write.
#[derive(PartialEq, Eq, Structural, Clone, Copy)]
pub enum WriteOutcome {
    /// The file holds the full content.
    Done,
    /// The file could not be created or opened.
    CreateFailed,
    /// The content could not be rendered as text.
    SerializeFailed,
    /// The content could not be written out in full.
    WriteFailed,
}

/// A store action the host program is asked to perform before feeding the
/// outcome back as the matching [`StoreEvent`].
pub enum StoreAction {
    /// Does `plugins/<name>` exist?  Answer with `Exists`.
    CheckPluginDir(String),
    /// Delete `plugins/<name>` and all it holds.  Answer with `Acted`.
    RemovePluginDir(String),
    /// Create `plugins/<name>`.  Answer with `Acted`.
    CreatePluginDir(String),
    /// Write the record to `plugins/<name>/meta.json`.  Answer with `Wrote`.
    WritePluginMeta(String, Json),
    /// Write the text to `plugins/<name>/script.js`.  Answer with `Wrote`.
    WritePluginScript(String, String),
    /// Read and decode `plugins/<name>/meta.json`.  Answer with `Read`.
    ReadPluginMeta(String),
    /// Read and decode every plugin directory's metadata file.  Answer with
    /// `Listed`, one entry per directory.
    ReadPluginList,
    /// Fetch the URL and decode the body as JSON.  Answer with `Read`,
    /// where any network or HTTP failure reads as `Unreadable`.
    FetchJson(String),
    /// Fetch the URL's body as text.  Answer with `Got`.
    FetchText(String),
    /// Does the stylesheet file exist?  Answer with `Exists`.
    CheckStyleFile,
    /// Overwrite the stylesheet file in full.  Answer with `Wrote`.
    WriteStyleFile(String),
    /// Delete the stylesheet file.  Answer with `Acted`.
    RemoveStyleFile,
}

/// Ghost mirror of [`StoreAction`].
#[verifier::ext_equal]
pub enum StoreActionV {
    CheckPluginDir(Seq<char>),
    RemovePluginDir(Seq<char>),
    CreatePluginDir(Seq<char>),
    WritePluginMeta(Seq<char>, JsonV),
    WritePluginScript(Seq<char>, Seq<char>),
    ReadPluginMeta(Seq<char>),
    ReadPluginList,
    FetchJson(Seq<char>),
    FetchText(Seq<char>),
    CheckStyleFile,
    WriteStyleFile(Seq<char>),
    RemoveStyleFile,
}

impl View for StoreAction {
    type V = StoreActionV;

    open spec fn view(&self) -> StoreActionV {
        match self {
            StoreAction::CheckPluginDir(n) => StoreActionV::CheckPluginDir(n@),
            StoreAction::RemovePluginDir(n) => StoreActionV::RemovePluginDir(n@),
            StoreAction::CreatePluginDir(n) => StoreActionV::CreatePluginDir(n@),
            StoreAction::WritePluginMeta(n, j) => StoreActionV::WritePluginMeta(n@, j@),
            StoreAction::WritePluginScript(n, t) => StoreActionV::WritePluginScript(n@, t@),
            StoreAction::ReadPluginMeta(n) => StoreActionV::ReadPluginMeta(n@),
            StoreAction::ReadPluginList => StoreActionV::ReadPluginList,
            StoreAction::FetchJson(u) => StoreActionV::FetchJson(u@),
            StoreAction::FetchText(u) => StoreActionV::FetchText(u@),
            StoreAction::CheckStyleFile => StoreActionV::CheckStyleFile,
            StoreAction::WriteStyleFile(t) => StoreActionV::WriteStyleFile(t@),
            StoreAction::RemoveStyleFile => StoreActionV::RemoveStyleFile,
        }
    }
}

/// The outcome of a store action, fed back to the machine.
pub enum StoreEvent {
    /// Whether the checked directory or file exists.
    Exists(bool),
    /// Whether the removal or creation succeeded.
    Acted(bool),
    /// How a file write ended.
    Wrote(WriteOutcome),
    /// A JSON document read from disk or fetched.
    Read(ReadResult),
    /// A remote text body, or `None` on any fetch failure.
    Got(Option<String>),
    /// Every plugin directory's metadata document.
    Listed(Vec<ReadResult>),
}

/// Ghost mirror of [`StoreEvent`].
#[verifier::ext_equal]
pub enum StoreEventV {
    Exists(bool),
    Acted(bool),
    Wrote(WriteOutcome),
    Read(ReadResultV),
    Got(Option<Seq<char>>),
    Listed(Seq<ReadResultV>),
}

impl View for StoreEvent {
    type V = StoreEventV;

    open spec fn view(&self) -> StoreEventV {
        match self {
            StoreEvent::Exists(b) => StoreEventV::Exists(*b),
            StoreEvent::Acted(b) => StoreEventV::Acted(*b),
            StoreEvent::Wrote(w) => StoreEventV::Wrote(*w),
            StoreEvent::Read(r) => StoreEventV::Read(r@),
            StoreEvent::Got(o) => StoreEventV::Got(
                match o {
                    Some(s) => Some(s@),
                    None => None,
                },
            ),
            StoreEvent::Listed(es) => StoreEventV::Listed(reads_model(es@)),
        }
    }
}

/// A reply, and who receives it: the requester alone, or every open
/// connection.
pub enum Reply {
    Unicast(Message),
    Broadcast(Message),
}

/// Ghost mirror of [`Reply`].
#[verifier::ext_equal]
pub enum ReplyV {
    Unicast(MessageV),
    Broadcast(MessageV),
}

impl View for Reply {
    type V = ReplyV;

    open spec fn view(&self) -> ReplyV {
        match self {
            Reply::Unicast(m) => ReplyV::Unicast(m@),
            Reply::Broadcast(m) => ReplyV::Broadcast(m@),
        }
    }
}

/// Where a running operation stands: which outcome it is waiting for, and
/// what it still carries.
pub enum Pending {
    /// Add: the metadata is being fetched from the supplied URL.
    AddFetchingMeta,
    /// Add: does a directory for this name already exist?
    AddCheckingOld(PluginMeta),
    /// Add: the old directory is being removed.
    AddRemovingOld(PluginMeta),
    /// Add: the fresh directory is being created.
    AddCreatingDir(PluginMeta),
    /// Add: the metadata file is being written.
    AddWritingMeta(PluginMeta),
    /// Add: the script body is being fetched from its URL.
    AddFetchingScript(PluginMeta),
    /// Add: the script file is being written.
    AddWritingScript(PluginMeta),
    /// Add: a step failed and the directory is being removed before the
    /// carried error is reported.
    AddCleaning(String),
    /// Remove: does the named directory exist?
    RemoveChecking(String),
    /// Remove: the directory is being removed.
    RemoveRemoving(String),
    /// Configure: the stored record is being read.
    ConfigReading(String, Vec<ConfigValue>),
    /// Configure: the updated record is being written back.
    ConfigWriting(PluginMeta),
    /// Set style: the stylesheet body is being fetched from its URL.
    StyleFetching,
    /// Set style: the stylesheet file is being written.
    StyleWriting,
    /// Get style: does the stylesheet file exist?
    GetStyleChecking,
    /// Remove style: does the stylesheet file exist?
    RemoveStyleChecking,
    /// Remove style: the stylesheet file is being removed.
    RemoveStyleRemoving,
    /// List: every stored record is being read.
    Listing,
}

/// Ghost mirror of [`Pending`].
#[verifier::ext_equal]
pub enum PendingV {
    AddFetchingMeta,
    AddCheckingOld(MetaV),
    AddRemovingOld(MetaV),
    AddCreatingDir(MetaV),
    AddWritingMeta(MetaV),
    AddFetchingScript(MetaV),
    AddWritingScript(MetaV),
    AddCleaning(Seq<char>),
    RemoveChecking(Seq<char>),
    RemoveRemoving(Seq<char>),
    ConfigReading(Seq<char>, Seq<ConfigValueV>),
    ConfigWriting(MetaV),
    StyleFetching,
    StyleWriting,
    GetStyleChecking,
    RemoveStyleChecking,
    RemoveStyleRemoving,
    Listing,
}

impl View for Pending {
    type V = PendingV;

    open spec fn view(&self) -> PendingV {
        match self {
            Pending::AddFetchingMeta => PendingV::AddFetchingMeta,
            Pending::AddCheckingOld(m) => PendingV::AddCheckingOld(m@),
            Pending::AddRemovingOld(m) => PendingV::AddRemovingOld(m@),
            Pending::AddCreatingDir(m) => PendingV::AddCreatingDir(m@),
            Pending::AddWritingMeta(m) => PendingV::AddWritingMeta(m@),
            Pending::AddFetchingScript(m) => PendingV::AddFetchingScript(m@),
            Pending::AddWritingScript(m) => PendingV::AddWritingScript(m@),
            Pending::AddCleaning(s) => PendingV::AddCleaning(s@),
            Pending::RemoveChecking(n) => PendingV::RemoveChecking(n@),
            Pending::RemoveRemoving(n) => PendingV::RemoveRemoving(n@),
            Pending::ConfigReading(n, vs) => PendingV::ConfigReading(n@, values_model(vs@)),
            Pending::ConfigWriting(m) => PendingV::ConfigWriting(m@),
            Pending::StyleFetching => PendingV::StyleFetching,
            Pending::StyleWriting => PendingV::StyleWriting,
            Pending::GetStyleChecking => PendingV::GetStyleChecking,
            Pending::RemoveStyleChecking => PendingV::RemoveStyleChecking,
            Pending::RemoveStyleRemoving => PendingV::RemoveStyleRemoving,
            Pending::Listing => PendingV::Listing,
        }
    }
}

/// What the dispatcher hands back for a frame or an event: the next store
/// action to perform, with the state to resume from, or the one reply that
/// ends the request.
pub enum Turn {
    Act(Pending, StoreAction),
    Done(Reply),
}

/// Ghost mirror of [`Turn`].
#[verifier::ext_equal]
pub enum TurnV {
    Act(PendingV, StoreActionV),
    Done(ReplyV),
}

impl View for Turn {
    type V = TurnV;

    open spec fn view(&self) -> TurnV {
        match self {
            Turn::Act(p, a) => TurnV::Act(p@, a@),
            Turn::Done(r) => TurnV::Done(r@),
        }
    }
}

// ------------------------------------------------------------------
// The transition relation, as spec functions.
// ------------------------------------------------------------------

/// A request that ends at once, with an error unicast to the requester.
pub open spec fn spec_err(msg: Seq<char>) -> TurnV {
    TurnV::Done(ReplyV::Unicast(MessageV { ty: MsgTypeV::Error, data: JsonV::Text(msg) }))
}

/// A record with its script reference rewritten to the canonical served
/// path, as every broadcast and listed record carries it.
pub open spec fn spec_canonical(m: MetaV) -> MetaV {
    MetaV {
        script: ScriptV { url: Some(spec_script_path(m.name)), inline: None },
        ..m
    }
}

/// The event kind each pending state waits for.  The host program answers
/// the action it was handed, so it always feeds the matching kind.
pub open spec fn spec_expects(p: PendingV, ev: StoreEventV) -> bool {
    match p {
        PendingV::AddFetchingMeta => ev matches StoreEventV::Read(_),
        PendingV::AddCheckingOld(_) => ev matches StoreEventV::Exists(_),
        PendingV::AddRemovingOld(_) => ev matches StoreEventV::Acted(_),
        PendingV::AddCreatingDir(_) => ev matches StoreEventV::Acted(_),
        PendingV::AddWritingMeta(_) => ev matches StoreEventV::Wrote(_),
        PendingV::AddFetchingScript(_) => ev matches StoreEventV::Got(_),
        PendingV::AddWritingScript(_) => ev matches StoreEventV::Wrote(_),
        PendingV::AddCleaning(_) => ev matches StoreEventV::Acted(_),
        PendingV::RemoveChecking(_) => ev matches StoreEventV::Exists(_),
        PendingV::RemoveRemoving(_) => ev matches StoreEventV::Acted(_),
        PendingV::ConfigReading(_, _) => ev matches StoreEventV::Read(_),
        PendingV::ConfigWriting(_) => ev matches StoreEventV::Wrote(_),
        PendingV::StyleFetching => ev matches StoreEventV::Got(_),
        PendingV::StyleWriting => ev matches StoreEventV::Wrote(_),
        PendingV::GetStyleChecking => ev matches StoreEventV::Exists(_),
        PendingV::RemoveStyleChecking => ev matches StoreEventV::Exists(_),
        PendingV::RemoveStyleRemoving => ev matches StoreEventV::Acted(_),
        PendingV::Listing => ev matches StoreEventV::Listed(_),
    }
}

/// What a pending state guarantees about what it carries: an add in flight
/// always holds a script source, so the machine never runs out of a script
/// to write.
pub open spec fn spec_pending_wf(p: PendingV) -> bool {
    match p {
        PendingV::AddCheckingOld(m) => m.script.inline is Some || m.script.url is Some,
        PendingV::AddRemovingOld(m) => m.script.inline is Some || m.script.url is Some,
        PendingV::AddCreatingDir(m) => m.script.inline is Some || m.script.url is Some,
        PendingV::AddWritingMeta(m) => m.script.inline is Some || m.script.url is Some,
        _ => true,
    }
}

/// Validation of an add request's metadata document: it must parse as a
/// record and name a script source; the synthetic `enabled` config is
/// prepended and every missing config value is filled from its default.
pub open spec fn spec_add_validate(m: JsonV) -> TurnV {
    match spec_parse_meta(m) {
        None => spec_err("Failed to parse meta."@),
        Some(meta) => {
            if meta.script.inline is None && meta.script.url is None {
                spec_err("Failed to get script."@)
            } else {
                let prepared = MetaV {
                    configs: Some(
                        spec_prepared(
                            match meta.configs {
                                Some(cs) => cs,
                                None => Seq::empty(),
                            },
                        ),
                    ),
                    ..meta
                };
                TurnV::Act(
                    PendingV::AddCheckingOld(prepared),
                    StoreActionV::CheckPluginDir(prepared.name),
                )
            }
        },
    }
}

/// The first turn of an add request: fetch the metadata if a URL is given,
/// else take the inline `meta` field.
pub open spec fn spec_add_start(data: JsonV) -> TurnV {
    match spec_field(data, "url"@) {
        Some(JsonV::Text(u)) => TurnV::Act(PendingV::AddFetchingMeta, StoreActionV::FetchJson(u)),
        _ => match spec_field(data, "meta"@) {
            Some(m) => spec_add_validate(m),
            None => spec_err("Failed to get meta."@),
        },
    }
}

/// The first turn of a remove request.
pub open spec fn spec_remove_start(data: JsonV) -> TurnV {
    match spec_field(data, "name"@) {
        Some(JsonV::Text(n)) => TurnV::Act(
            PendingV::RemoveChecking(n),
            StoreActionV::CheckPluginDir(n),
        ),
        _ => spec_err("Failed to get plugin."@),
    }
}

/// The first turn of a configure request.
pub open spec fn spec_config_start(data: JsonV) -> TurnV {
    match spec_field(data, "name"@) {
        Some(JsonV::Text(n)) => {
            let overrides = match spec_field(data, "configs"@) {
                Some(c) => spec_parse_values(c),
                None => None,
            };
            match overrides {
                Some(vs) => TurnV::Act(
                    PendingV::ConfigReading(n, vs),
                    StoreActionV::ReadPluginMeta(n),
                ),
                None => spec_err("Failed to parse configs."@),
            }
        },
        _ => spec_err("Failed to get plugin."@),
    }
}

/// The first turn of a set-style request: the request must parse as a
/// style and name an inline body or a URL; an inline body is written at
/// once, a URL is fetched first.
pub open spec fn spec_set_style_start(data: JsonV) -> TurnV {
    match spec_parse_style(data) {
        None => spec_err("Failed to parse data."@),
        Some(s) => match s.inline {
            Some(body) => TurnV::Act(PendingV::StyleWriting, StoreActionV::WriteStyleFile(body)),
            None => match s.url {
                Some(u) => TurnV::Act(PendingV::StyleFetching, StoreActionV::FetchText(u)),
                None => spec_err("Failed to get style."@),
            },
        },
    }
}

/// The records served by a list request: each readable, parsable record,
/// canonicalized; unreadable and corrupt entries are silently skipped.
pub open spec fn spec_listed(entries: Seq<ReadResultV>) -> Seq<JsonV>
    decreases entries.len(),
{
    if entries.len() == 0 {
        Seq::empty()
    } else {
        spec_listed(entries.drop_last()) + (match entries.last() {
            ReadResultV::Value(j) => match spec_parse_meta(j) {
                Some(m) => seq![spec_meta_json(spec_canonical(m))],
                None => Seq::empty(),
            },
            _ => Seq::empty(),
        })
    }
}

/// The one turn a frame gives: binary and malformed frames fail at once;
/// a known command starts its operation; the relay type broadcasts its
/// payload verbatim; anything else is unsupported.
pub open spec fn spec_on_frame(f: InboundV) -> TurnV {
    match f {
        InboundV::Binary(_) => spec_err("Binary format is not supported."@),
        InboundV::Malformed => spec_err("Failed to parse message."@),
        InboundV::Payload(j) => match spec_decode(j) {
            None => spec_err("Failed to parse message."@),
            Some(env) => match env.ty {
                MsgTypeV::ListPlugins => TurnV::Act(PendingV::Listing, StoreActionV::ReadPluginList),
                MsgTypeV::AddPlugin => spec_add_start(env.data),
                MsgTypeV::RemovePlugin => spec_remove_start(env.data),
                MsgTypeV::ConfigPlugin => spec_config_start(env.data),
                MsgTypeV::PluginMessage => TurnV::Done(
                    ReplyV::Broadcast(MessageV { ty: MsgTypeV::PluginMessage, data: env.data }),
                ),
                MsgTypeV::GetStyle => TurnV::Act(
                    PendingV::GetStyleChecking,
                    StoreActionV::CheckStyleFile,
                ),
                MsgTypeV::SetStyle => spec_set_style_start(env.data),
                MsgTypeV::RemoveStyle => TurnV::Act(
                    PendingV::RemoveStyleChecking,
                    StoreActionV::CheckStyleFile,
                ),
                MsgTypeV::Error => spec_err("Unsupported type."@),
                MsgTypeV::Unknown(_) => spec_err("Unsupported type."@),
            },
        },
    }
}

/// The turn an event gives to a pending operation.
pub open spec fn spec_on_event(p: PendingV, ev: StoreEventV) -> TurnV {
    match p {
        PendingV::AddFetchingMeta => match ev {
            StoreEventV::Read(ReadResultV::Value(j)) => spec_add_validate(j),
            _ => spec_err("Failed to get meta."@),
        },
        PendingV::AddCheckingOld(m) => match ev {
            StoreEventV::Exists(true) => TurnV::Act(
                PendingV::AddRemovingOld(m),
                StoreActionV::RemovePluginDir(m.name),
            ),
            _ => TurnV::Act(PendingV::AddCreatingDir(m), StoreActionV::CreatePluginDir(m.name)),
        },
        PendingV::AddRemovingOld(m) => match ev {
            StoreEventV::Acted(true) => TurnV::Act(
                PendingV::AddCreatingDir(m),
                StoreActionV::CreatePluginDir(m.name),
            ),
            _ => spec_err("Failed to remove old plugin."@),
        },
        PendingV::AddCreatingDir(m) => match ev {
            StoreEventV::Acted(true) => TurnV::Act(
                PendingV::AddWritingMeta(m),
                StoreActionV::WritePluginMeta(m.name, spec_meta_json(m)),
            ),
            _ => spec_err("Failed to create plugin directory."@),
        },
        PendingV::AddWritingMeta(m) => match ev {
            StoreEventV::Wrote(WriteOutcome::Done) => match m.script.inline {
                Some(body) => TurnV::Act(
                    PendingV::AddWritingScript(m),
                    StoreActionV::WritePluginScript(m.name, body),
                ),
                None => TurnV::Act(
                    PendingV::AddFetchingScript(m),
                    StoreActionV::FetchText(m.script.url->Some_0),
                ),
            },
            StoreEventV::Wrote(WriteOutcome::CreateFailed) => TurnV::Act(
                PendingV::AddCleaning("Failed to create meta file."@),
                StoreActionV::RemovePluginDir(m.name),
            ),
            StoreEventV::Wrote(WriteOutcome::SerializeFailed) => TurnV::Act(
                PendingV::AddCleaning("Failed to serialize meta."@),
                StoreActionV::RemovePluginDir(m.name),
            ),
            _ => TurnV::Act(
                PendingV::AddCleaning("Failed to write to meta file."@),
                StoreActionV::RemovePluginDir(m.name),
            ),
        },
        PendingV::AddFetchingScript(m) => match ev {
            StoreEventV::Got(Some(body)) => TurnV::Act(
                PendingV::AddWritingScript(m),
                StoreActionV::WritePluginScript(m.name, body),
            ),
            _ => TurnV::Act(
                PendingV::AddCleaning("Failed to get the script file."@),
                StoreActionV::RemovePluginDir(m.name),
            ),
        },
        PendingV::AddWritingScript(m) => match ev {
            StoreEventV::Wrote(WriteOutcome::Done) => TurnV::Done(
                ReplyV::Broadcast(
                    MessageV {
                        ty: MsgTypeV::AddPlugin,
                        data: spec_meta_json(spec_canonical(m)),
                    },
                ),
            ),
            StoreEventV::Wrote(WriteOutcome::CreateFailed) => TurnV::Act(
                PendingV::AddCleaning("Failed to create script file."@),
                StoreActionV::RemovePluginDir(m.name),
            ),
            _ => TurnV::Act(
                PendingV::AddCleaning("Failed to write to script file."@),
                StoreActionV::RemovePluginDir(m.name),
            ),
        },
        PendingV::AddCleaning(msg) => spec_err(msg),
        PendingV::RemoveChecking(n) => match ev {
            StoreEventV::Exists(true) => TurnV::Act(
                PendingV::RemoveRemoving(n),
                StoreActionV::RemovePluginDir(n),
            ),
            _ => spec_err("Plugin not found."@),
        },
        PendingV::RemoveRemoving(n) => match ev {
            StoreEventV::Acted(true) => TurnV::Done(
                ReplyV::Broadcast(
                    MessageV {
                        ty: MsgTypeV::RemovePlugin,
                        data: JsonV::Obj(seq![("name"@, JsonV::Text(n))]),
                    },
                ),
            ),
            _ => spec_err("Failed to remove plugin."@),
        },
        PendingV::ConfigReading(n, vs) => match ev {
            StoreEventV::Read(ReadResultV::Unreadable) => spec_err("Failed to read meta file."@),
            StoreEventV::Read(ReadResultV::Value(j)) => match spec_parse_meta(j) {
                None => spec_err("Failed to parse meta file."@),
                Some(meta) => {
                    let applied = MetaV {
                        configs: match meta.configs {
                            Some(cs) => Some(spec_applied(cs, vs)),
                            None => None,
                        },
                        ..meta
                    };
                    TurnV::Act(
                        PendingV::ConfigWriting(applied),
                        StoreActionV::WritePluginMeta(n, spec_meta_json(applied)),
                    )
                },
            },
            _ => spec_err("Failed to parse meta file."@),
        },
        PendingV::ConfigWriting(m) => match ev {
            StoreEventV::Wrote(WriteOutcome::Done) => TurnV::Done(
                ReplyV::Broadcast(
                    MessageV {
                        ty: MsgTypeV::ConfigPlugin,
                        data: spec_meta_json(spec_canonical(m)),
                    },
                ),
            ),
            StoreEventV::Wrote(WriteOutcome::SerializeFailed) => spec_err(
                "Failed to serialize meta."@,
            ),
            _ => spec_err("Failed to update meta file."@),
        },
        PendingV::StyleFetching => match ev {
            StoreEventV::Got(Some(body)) => TurnV::Act(
                PendingV::StyleWriting,
                StoreActionV::WriteStyleFile(body),
            ),
            _ => spec_err("Failed to get style."@),
        },
        PendingV::StyleWriting => match ev {
            StoreEventV::Wrote(WriteOutcome::Done) => TurnV::Done(
                ReplyV::Broadcast(
                    MessageV {
                        ty: MsgTypeV::SetStyle,
                        data: spec_style_json(
                            StyleV { url: Some(spec_style_path()), inline: None },
                        ),
                    },
                ),
            ),
            StoreEventV::Wrote(WriteOutcome::CreateFailed) => spec_err(
                "Failed to open style file."@,
            ),
            _ => spec_err("Failed to write style."@),
        },
        PendingV::GetStyleChecking => match ev {
            StoreEventV::Exists(true) => TurnV::Done(
                ReplyV::Unicast(
                    MessageV {
                        ty: MsgTypeV::GetStyle,
                        data: spec_style_json(
                            StyleV { url: Some(spec_style_path()), inline: None },
                        ),
                    },
                ),
            ),
            _ => TurnV::Done(
                ReplyV::Unicast(
                    MessageV {
                        ty: MsgTypeV::GetStyle,
                        data: spec_style_json(StyleV { url: None, inline: None }),
                    },
                ),
            ),
        },
        PendingV::RemoveStyleChecking => match ev {
            StoreEventV::Exists(true) => TurnV::Act(
                PendingV::RemoveStyleRemoving,
                StoreActionV::RemoveStyleFile,
            ),
            _ => spec_err("Failed to remove style."@),
        },
        PendingV::RemoveStyleRemoving => match ev {
            StoreEventV::Acted(true) => TurnV::Done(
                ReplyV::Broadcast(MessageV { ty: MsgTypeV::RemoveStyle, data: JsonV::Null }),
            ),
            _ => spec_err("Failed to remove style."@),
        },
        PendingV::Listing => match ev {
            StoreEventV::Listed(entries) => TurnV::Done(
                ReplyV::Unicast(
                    MessageV { ty: MsgTypeV::ListPlugins, data: JsonV::Arr(spec_listed(entries)) },
                ),
            ),
            _ => TurnV::Done(
                ReplyV::Unicast(
                    MessageV {
                        ty: MsgTypeV::ListPlugins,
                        data: JsonV::Arr(Seq::empty()),
                    },
                ),
            ),
        },
    }
}

// ------------------------------------------------------------------
// The executable dispatcher.
// ------------------------------------------------------------------

/// A request that ends at once with a unicast error.
fn err_turn(msg: &str) -> (r: Turn)
    ensures
        r@ == spec_err(msg@),
{
    Turn::Done(Reply::Unicast(Message::error(msg)))
}

/// Validates an add request's metadata document and opens the add flow.
fn add_validate(m: &Json) -> (r: Turn)
    ensures
        r@ == spec_add_validate(m@),
        r@ matches TurnV::Act(p, _) ==> spec_pending_wf(p),
{
    let meta = match PluginMeta::of_json(m) {
        Some(meta) => meta,
        None => {
            return err_turn("Failed to parse meta.");
        },
    };
    if meta.script.inline.is_none() && meta.script.url.is_none() {
        return err_turn("Failed to get script.");
    }
    let PluginMeta { name, version, url, description, configs, script } = meta;
    let prepared = PluginMeta {
        name,
        version,
        url,
        description,
        configs: Some(prepare_configs(configs)),
        script,
    };
    let act = StoreAction::CheckPluginDir(prepared.name.clone());
    Turn::Act(Pending::AddCheckingOld(prepared), act)
}

/// Opens an add flow from a request payload.
fn add_start(data: &Json) -> (r: Turn)
    ensures
        r@ == spec_add_start(data@),
        r@ matches TurnV::Act(p, _) ==> spec_pending_wf(p),
{
    match data.get(&"url".to_owned()) {
        Some(v) => match v.as_text() {
            Some(u) => {
                return Turn::Act(Pending::AddFetchingMeta, StoreAction::FetchJson(u.clone()));
            },
            None => {},
        },
        None => {},
    }
    match data.get(&"meta".to_owned()) {
        Some(m) => add_validate(m),
        None => err_turn("Failed to get meta."),
    }
}

/// Opens a remove flow from a request payload.
fn remove_start(data: &Json) -> (r: Turn)
    ensures
        r@ == spec_remove_start(data@),
{
    match data.get(&"name".to_owned()) {
        Some(v) => match v.as_text() {
            Some(n) => Turn::Act(
                Pending::RemoveChecking(n.clone()),
                StoreAction::CheckPluginDir(n.clone()),
            ),
            None => err_turn("Failed to get plugin."),
        },
        None => err_turn("Failed to get plugin."),
    }
}

/// Opens a configure flow from a request payload.
fn config_start(data: &Json) -> (r: Turn)
    ensures
        r@ == spec_config_start(data@),
{
    let name = match data.get(&"name".to_owned()) {
        Some(v) => match v.as_text() {
            Some(n) => n.clone(),
            None => {
                return err_turn("Failed to get plugin.");
            },
        },
        None => {
            return err_turn("Failed to get plugin.");
        },
    };
    let overrides = match data.get(&"configs".to_owned()) {
        Some(c) => match parse_values(c) {
            Some(vs) => vs,
            None => {
                return err_turn("Failed to parse configs.");
            },
        },
        None => {
            return err_turn("Failed to parse configs.");
        },
    };
    let act = StoreAction::ReadPluginMeta(name.clone());
    Turn::Act(Pending::ConfigReading(name, overrides), act)
}

/// Opens a set-style flow from a request payload.
fn set_style_start(data: &Json) -> (r: Turn)
    ensures
        r@ == spec_set_style_start(data@),
{
    let style = match Style::of_json(data) {
        Some(s) => s,
        None => {
            return err_turn("Failed to parse data.");
        },
    };
    match style.inline {
        Some(body) => Turn::Act(Pending::StyleWriting, StoreAction::WriteStyleFile(body)),
        None => match style.url {
            Some(u) => Turn::Act(Pending::StyleFetching, StoreAction::FetchText(u)),
            None => err_turn("Failed to get style."),
        },
    }
}

/// The list reply: every readable, parsable record, canonicalized;
/// unreadable and corrupt entries are skipped, never an error.
#[verifier::loop_isolation(false)]
fn list_reply(entries: &Vec<ReadResult>) -> (r: Message)
    ensures
        r@ == (MessageV {
            ty: MsgTypeV::ListPlugins,
            data: JsonV::Arr(spec_listed(reads_model(entries@))),
        }),
{
    let ghost em = reads_model(entries@);
    let mut items: Vec<Json> = Vec::new();
    let n = entries.len();
    let mut i: usize = 0;
    proof {
        assert(em.take(0) =~= Seq::<ReadResultV>::empty());
    }
    while i < n
        invariant
            n == entries@.len(),
            i <= n,
            em == reads_model(entries@),
            arr_model(items@) == spec_listed(em.take(i as int)),
        decreases n - i,
    {
        let ghost before = arr_model(items@);
        match &entries[i] {
            ReadResult::Value(j) => match PluginMeta::of_json(j) {
                Some(m) => {
                    let mut canonical = m;
                    canonical.update_script();
                    items.push(canonical.to_json());
                },
                None => {},
            },
            _ => {},
        }
        proof {
            assert(em.take(i as int + 1).drop_last() =~= em.take(i as int));
            assert(em.take(i as int + 1).last() == em[i as int]);
            assert(arr_model(items@) =~= spec_listed(em.take(i as int + 1)));
        }
        i = i + 1;
    }
    proof {
        assert(em.take(n as int) =~= em);
    }
    let data = Json::Arr(items);
    proof {
        assert(data@ == JsonV::Arr(arr_model(items@)));
    }
    Message { ty: MsgType::ListPlugins, data }
}

/// Answers one inbound frame: the reply that ends it, or the first store
/// action of the operation it starts.
pub fn on_frame(f: &Inbound) -> (r: Turn)
    ensures
        r@ == spec_on_frame(f@),
        r@ matches TurnV::Act(p, _) ==> spec_pending_wf(p),
{
    let j = match f {
        Inbound::Binary(_) => {
            return err_turn("Binary format is not supported.");
        },
        Inbound::Malformed => {
            return err_turn("Failed to parse message.");
        },
        Inbound::Payload(j) => j,
    };
    let env = match Message::decode(j) {
        Some(env) => env,
        None => {
            return err_turn("Failed to parse message.");
        },
    };
    match env.ty {
        MsgType::ListPlugins => Turn::Act(Pending::Listing, StoreAction::ReadPluginList),
        MsgType::AddPlugin => add_start(&env.data),
        MsgType::RemovePlugin => remove_start(&env.data),
        MsgType::ConfigPlugin => config_start(&env.data),
        MsgType::PluginMessage => Turn::Done(
            Reply::Broadcast(Message { ty: MsgType::PluginMessage, data: env.data }),
        ),
        MsgType::GetStyle => Turn::Act(Pending::GetStyleChecking, StoreAction::CheckStyleFile),
        MsgType::SetStyle => set_style_start(&env.data),
        MsgType::RemoveStyle => Turn::Act(
            Pending::RemoveStyleChecking,
            StoreAction::CheckStyleFile,
        ),
        MsgType::Error => err_turn("Unsupported type."),
        MsgType::Unknown(_) => err_turn("Unsupported type."),
    }
}

/// Feeds a store action's outcome to the pending operation it answers.
/// The caller answers the action it was handed, so the event kind matches
/// what the state waits for.
pub fn on_event(p: Pending, ev: StoreEvent) -> (r: Turn)
    requires
        spec_pending_wf(p@),
        spec_expects(p@, ev@),
    ensures
        r@ == spec_on_event(p@, ev@),
        r@ matches TurnV::Act(p2, _) ==> spec_pending_wf(p2),
{
    match p {
        Pending::AddFetchingMeta => match ev {
            StoreEvent::Read(ReadResult::Value(j)) => add_validate(&j),
            _ => err_turn("Failed to get meta."),
        },
        Pending::AddCheckingOld(m) => match ev {
            StoreEvent::Exists(true) => {
                let name = m.name.clone();
                Turn::Act(Pending::AddRemovingOld(m), StoreAction::RemovePluginDir(name))
            },
            _ => {
                let name = m.name.clone();
                Turn::Act(Pending::AddCreatingDir(m), StoreAction::CreatePluginDir(name))
            },
        },
        Pending::AddRemovingOld(m) => match ev {
            StoreEvent::Acted(true) => {
                let name = m.name.clone();
                Turn::Act(Pending::AddCreatingDir(m), StoreAction::CreatePluginDir(name))
            },
            _ => err_turn("Failed to remove old plugin."),
        },
        Pending::AddCreatingDir(m) => match ev {
            StoreEvent::Acted(true) => {
                let name = m.name.clone();
                let record = m.to_json();
                Turn::Act(Pending::AddWritingMeta(m), StoreAction::WritePluginMeta(name, record))
            },
            _ => err_turn("Failed to create plugin directory."),
        },
        Pending::AddWritingMeta(m) => match ev {
            StoreEvent::Wrote(WriteOutcome::Done) => match &m.script.inline {
                Some(body) => {
                    let b = body.clone();
                    let name = m.name.clone();
                    Turn::Act(
                        Pending::AddWritingScript(m),
                        StoreAction::WritePluginScript(name, b),
                    )
                },
                None => {
                    let u = match &m.script.url {
                        Some(u) => u.clone(),
                        None => unreached(),
                    };
                    Turn::Act(Pending::AddFetchingScript(m), StoreAction::FetchText(u))
                },
            },
            StoreEvent::Wrote(WriteOutcome::CreateFailed) => {
                let name = m.name.clone();
                Turn::Act(
                    Pending::AddCleaning("Failed to create meta file.".to_owned()),
                    StoreAction::RemovePluginDir(name),
                )
            },
            StoreEvent::Wrote(WriteOutcome::SerializeFailed) => {
                let name = m.name.clone();
                Turn::Act(
                    Pending::AddCleaning("Failed to serialize meta.".to_owned()),
                    StoreAction::RemovePluginDir(name),
                )
            },
            _ => {
                let name = m.name.clone();
                Turn::Act(
                    Pending::AddCleaning("Failed to write to meta file.".to_owned()),
                    StoreAction::RemovePluginDir(name),
                )
            },
        },
        Pending::AddFetchingScript(m) => match ev {
            StoreEvent::Got(Some(body)) => {
                let name = m.name.clone();
                Turn::Act(
                    Pending::AddWritingScript(m),
                    StoreAction::WritePluginScript(name, body),
                )
            },
            _ => {
                let name = m.name.clone();
                Turn::Act(
                    Pending::AddCleaning("Failed to get the script file.".to_owned()),
                    StoreAction::RemovePluginDir(name),
                )
            },
        },
        Pending::AddWritingScript(m) => match ev {
            StoreEvent::Wrote(WriteOutcome::Done) => {
                let mut canonical = m;
                canonical.update_script();
                Turn::Done(
                    Reply::Broadcast(
                        Message { ty: MsgType::AddPlugin, data: canonical.to_json() },
                    ),
                )
            },
            StoreEvent::Wrote(WriteOutcome::CreateFailed) => {
                let name = m.name.clone();
                Turn::Act(
                    Pending::AddCleaning("Failed to create script file.".to_owned()),
                    StoreAction::RemovePluginDir(name),
                )
            },
            _ => {
                let name = m.name.clone();
                Turn::Act(
                    Pending::AddCleaning("Failed to write to script file.".to_owned()),
                    StoreAction::RemovePluginDir(name),
                )
            },
        },
        Pending::AddCleaning(msg) => Turn::Done(
            Reply::Unicast(Message { ty: MsgType::Error, data: Json::Text(msg) }),
        ),
        Pending::RemoveChecking(n) => match ev {
            StoreEvent::Exists(true) => {
                let name = n.clone();
                Turn::Act(Pending::RemoveRemoving(n), StoreAction::RemovePluginDir(name))
            },
            _ => err_turn("Plugin not found."),
        },
        Pending::RemoveRemoving(n) => match ev {
            StoreEvent::Acted(true) => {
                let ghost nv = n@;
                let mut entries: Vec<(String, Json)> = Vec::new();
                entries.push(("name".to_owned(), Json::Text(n)));
                let data = Json::Obj(entries);
                proof {
                    assert(entries@.len() == 1);
                    assert(data@ == JsonV::Obj(obj_model(entries@)));
                    let s1 = data@->Obj_0;
                    let s2 = seq![("name"@, JsonV::Text(nv))];
                    assert(s1[0].0 == s2[0].0 && s1[0].1 == s2[0].1);
                    assert(s1 =~= s2);
                }
                Turn::Done(Reply::Broadcast(Message { ty: MsgType::RemovePlugin, data }))
            },
            _ => err_turn("Failed to remove plugin."),
        },
        Pending::ConfigReading(n, vs) => match ev {
            StoreEvent::Read(ReadResult::Unreadable) => err_turn("Failed to read meta file."),
            StoreEvent::Read(ReadResult::Value(j)) => match PluginMeta::of_json(&j) {
                None => err_turn("Failed to parse meta file."),
                Some(meta) => {
                    let PluginMeta { name, version, url, description, configs, script } = meta;
                    let configs = match configs {
                        Some(cs) => Some(apply_values(cs, &vs)),
                        None => None,
                    };
                    let applied = PluginMeta { name, version, url, description, configs, script };
                    let record = applied.to_json();
                    Turn::Act(
                        Pending::ConfigWriting(applied),
                        StoreAction::WritePluginMeta(n, record),
                    )
                },
            },
            _ => err_turn("Failed to parse meta file."),
        },
        Pending::ConfigWriting(m) => match ev {
            StoreEvent::Wrote(WriteOutcome::Done) => {
                let mut canonical = m;
                canonical.update_script();
                Turn::Done(
                    Reply::Broadcast(
                        Message { ty: MsgType::ConfigPlugin, data: canonical.to_json() },
                    ),
                )
            },
            StoreEvent::Wrote(WriteOutcome::SerializeFailed) => err_turn(
                "Failed to serialize meta.",
            ),
            _ => err_turn("Failed to update meta file."),
        },
        Pending::StyleFetching => match ev {
            StoreEvent::Got(Some(body)) => Turn::Act(
                Pending::StyleWriting,
                StoreAction::WriteStyleFile(body),
            ),
            _ => err_turn("Failed to get style."),
        },
        Pending::StyleWriting => match ev {
            StoreEvent::Wrote(WriteOutcome::Done) => Turn::Done(
                Reply::Broadcast(
                    Message { ty: MsgType::SetStyle, data: Style::canonical().to_json() },
                ),
            ),
            StoreEvent::Wrote(WriteOutcome::CreateFailed) => err_turn("Failed to open style file."),
            _ => err_turn("Failed to write style."),
        },
        Pending::GetStyleChecking => match ev {
            StoreEvent::Exists(true) => Turn::Done(
                Reply::Unicast(
                    Message { ty: MsgType::GetStyle, data: Style::canonical().to_json() },
                ),
            ),
            _ => Turn::Done(
                Reply::Unicast(Message { ty: MsgType::GetStyle, data: Style::empty().to_json() }),
            ),
        },
        Pending::RemoveStyleChecking => match ev {
            StoreEvent::Exists(true) => Turn::Act(
                Pending::RemoveStyleRemoving,
                StoreAction::RemoveStyleFile,
            ),
            _ => err_turn("Failed to remove style."),
        },
        Pending::RemoveStyleRemoving => match ev {
            StoreEvent::Acted(true) => Turn::Done(
                Reply::Broadcast(Message { ty: MsgType::RemoveStyle, data: Json::Null }),
            ),
            _ => err_turn("Failed to remove style."),
        },
        Pending::Listing => match ev {
            StoreEvent::Listed(entries) => Turn::Done(Reply::Unicast(list_reply(&entries))),
            _ => {
                let empty: Vec<Json> = Vec::new();
                let data = Json::Arr(empty);
                proof {
                    assert(data@->Arr_0 =~= Seq::<JsonV>::empty());
                }
                Turn::Done(Reply::Unicast(Message { ty: MsgType::ListPlugins, data }))
            },
        },
    }
}

} // verus!
