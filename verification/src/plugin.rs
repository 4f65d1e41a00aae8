//! The plugin model: metadata, configuration schema and script reference,
//! with the readers and writers between it and its JSON wire/storage form,
//! the synthesis of the `enabled` config, default filling, override
//! application, and the canonical served script path.

use vstd::prelude::*;
use vstd::string::StringExecFns;

use crate::json::Json;
use crate::json::JsonV;
use crate::json::spec_field;
use crate::json::arr_model;
use crate::json::obj_model;

verus! {

/// A plugin's script source: an inline body, a remote URL, or — once
/// persisted — the canonical served path.
pub struct Script {
    pub url: Option<String>,
    pub inline: Option<String>,
}

/// Ghost mirror of [`Script`].
#[verifier::ext_equal]
pub struct ScriptV {
    pub url: Option<Seq<char>>,
    pub inline: Option<Seq<char>>,
}

/// The ghost form of an optional string.
pub open spec fn opt_str(o: Option<String>) -> Option<Seq<char>> {
    match o {
        Some(s) => Some(s@),
        None => None,
    }
}

impl View for Script {
    type V = ScriptV;

    open spec fn view(&self) -> ScriptV {
        ScriptV { url: opt_str(self.url), inline: opt_str(self.inline) }
    }
}

/// One named, typed, defaulted setting of a plugin.
pub struct Config {
    pub name: String,
    pub ty: String,
    pub default: Json,
    pub value: Option<Json>,
}

/// Ghost mirror of [`Config`].
#[verifier::ext_equal]
pub struct ConfigV {
    pub name: Seq<char>,
    pub ty: Seq<char>,
    pub default: JsonV,
    pub value: Option<JsonV>,
}

impl View for Config {
    type V = ConfigV;

    open spec fn view(&self) -> ConfigV {
        ConfigV {
            name: self.name@,
            ty: self.ty@,
            default: self.default@,
            value: match self.value {
                Some(v) => Some(v@),
                None => None,
            },
        }
    }
}

/// The ghost form of a config list.
pub open spec fn configs_model(cs: Seq<Config>) -> Seq<ConfigV> {
    Seq::new(
        cs.len(),
        |i: int|
            if 0 <= i < cs.len() {
                cs[i]@
            } else {
                ConfigV { name: Seq::empty(), ty: Seq::empty(), default: JsonV::Null, value: None }
            },
    )
}

/// A transient override handed to a configure request.
pub struct ConfigValue {
    pub name: String,
    pub value: Json,
}

/// Ghost mirror of [`ConfigValue`].
#[verifier::ext_equal]
pub struct ConfigValueV {
    pub name: Seq<char>,
    pub value: JsonV,
}

impl View for ConfigValue {
    type V = ConfigValueV;

    open spec fn view(&self) -> ConfigValueV {
        ConfigValueV { name: self.name@, value: self.value@ }
    }
}

/// The ghost form of an override list.
pub open spec fn values_model(vs: Seq<ConfigValue>) -> Seq<ConfigValueV> {
    Seq::new(
        vs.len(),
        |i: int|
            if 0 <= i < vs.len() {
                vs[i]@
            } else {
                ConfigValueV { name: Seq::empty(), value: JsonV::Null }
            },
    )
}

/// A plugin's metadata record, as stored and as served.
pub struct PluginMeta {
    pub name: String,
    pub version: String,
    pub url: Option<String>,
    pub description: Option<String>,
    pub configs: Option<Vec<Config>>,
    pub script: Script,
}

/// Ghost mirror of [`PluginMeta`].
#[verifier::ext_equal]
pub struct MetaV {
    pub name: Seq<char>,
    pub version: Seq<char>,
    pub url: Option<Seq<char>>,
    pub description: Option<Seq<char>>,
    pub configs: Option<Seq<ConfigV>>,
    pub script: ScriptV,
}

impl View for PluginMeta {
    type V = MetaV;

    open spec fn view(&self) -> MetaV {
        MetaV {
            name: self.name@,
            version: self.version@,
            url: opt_str(self.url),
            description: opt_str(self.description),
            configs: match self.configs {
                Some(cs) => Some(configs_model(cs@)),
                None => None,
            },
            script: self.script@,
        }
    }
}

// ------------------------------------------------------------------
// Reading the model out of a JSON value.
// ------------------------------------------------------------------

/// An optional string field: absent or null reads as `None`, a string as
/// `Some`, anything else is a schema mismatch (outer `None`).
pub open spec fn spec_opt_text_field(j: JsonV, key: Seq<char>) -> Option<Option<Seq<char>>> {
    match spec_field(j, key) {
        None => Some(None),
        Some(JsonV::Null) => Some(None),
        Some(JsonV::Text(s)) => Some(Some(s)),
        Some(_) => None,
    }
}

/// A required string field.
pub open spec fn spec_req_text_field(j: JsonV, key: Seq<char>) -> Option<Seq<char>> {
    match spec_field(j, key) {
        Some(JsonV::Text(s)) => Some(s),
        _ => None,
    }
}

/// An optional opaque field: absent or null reads as `None`.
pub open spec fn spec_opt_value_field(j: JsonV, key: Seq<char>) -> Option<JsonV> {
    match spec_field(j, key) {
        None => None,
        Some(JsonV::Null) => None,
        Some(v) => Some(v),
    }
}

/// What a JSON value means as a [`Script`]: an object whose `url` and
/// `inline` fields, when present, are strings or null.
pub open spec fn spec_parse_script(j: JsonV) -> Option<ScriptV> {
    if !(j matches JsonV::Obj(_)) {
        None
    } else {
        match (spec_opt_text_field(j, "url"@), spec_opt_text_field(j, "inline"@)) {
            (Some(u), Some(i)) => Some(ScriptV { url: u, inline: i }),
            _ => None,
        }
    }
}

/// What a JSON value means as a [`Config`]: `name` and `type` strings and a
/// `default` are required; a missing or null `value` reads as unset.
pub open spec fn spec_parse_config(j: JsonV) -> Option<ConfigV> {
    if !(j matches JsonV::Obj(_)) {
        None
    } else {
        match (spec_req_text_field(j, "name"@), spec_req_text_field(j, "type"@)) {
            (Some(n), Some(t)) => match spec_field(j, "default"@) {
                Some(d) => Some(
                    ConfigV {
                        name: n,
                        ty: t,
                        default: d,
                        value: spec_opt_value_field(j, "value"@),
                    },
                ),
                None => None,
            },
            _ => None,
        }
    }
}

/// What a JSON array means as a config list: every item must read as a
/// [`Config`].
pub open spec fn spec_parse_config_items(items: Seq<JsonV>) -> Option<Seq<ConfigV>> {
    if forall|i: int| 0 <= i < items.len() ==> spec_parse_config(items[i]) is Some {
        Some(
            Seq::new(
                items.len(),
                |i: int|
                    if 0 <= i < items.len() {
                        spec_parse_config(items[i])->Some_0
                    } else {
                        ConfigV {
                            name: Seq::empty(),
                            ty: Seq::empty(),
                            default: JsonV::Null,
                            value: None,
                        }
                    },
            ),
        )
    } else {
        None
    }
}

/// What a JSON value means as a whole metadata record.
pub open spec fn spec_parse_meta(j: JsonV) -> Option<MetaV> {
    if !(j matches JsonV::Obj(_)) {
        None
    } else {
        match (spec_req_text_field(j, "name"@), spec_req_text_field(j, "version"@)) {
            (Some(n), Some(ver)) => match (
                spec_opt_text_field(j, "url"@),
                spec_opt_text_field(j, "description"@),
            ) {
                (Some(u), Some(d)) => {
                    let cfgs = match spec_field(j, "configs"@) {
                        None => Some(None),
                        Some(JsonV::Null) => Some(None),
                        Some(JsonV::Arr(items)) => match spec_parse_config_items(items) {
                            Some(cs) => Some(Some(cs)),
                            None => None,
                        },
                        Some(_) => None,
                    };
                    match cfgs {
                        Some(cs) => match spec_field(j, "script"@) {
                            Some(s) => match spec_parse_script(s) {
                                Some(sc) => Some(
                                    MetaV {
                                        name: n,
                                        version: ver,
                                        url: u,
                                        description: d,
                                        configs: cs,
                                        script: sc,
                                    },
                                ),
                                None => None,
                            },
                            None => None,
                        },
                        None => None,
                    }
                },
                _ => None,
            },
            _ => None,
        }
    }
}

/// Reads an optional string field of `j`.
pub(crate) fn opt_text_field(j: &Json, key: &str) -> (r: Result<Option<String>, ()>)
    ensures
        match r {
            Ok(o) => spec_opt_text_field(j@, key@) == Some(opt_str(o)),
            Err(_) => spec_opt_text_field(j@, key@) is None,
        },
{
    match j.get(&key.to_owned()) {
        None => Ok(None),
        Some(v) => match v {
            Json::Null => Ok(None),
            Json::Text(s) => Ok(Some(s.clone())),
            _ => Err(()),
        },
    }
}

/// Reads a required string field of `j`.
fn req_text_field(j: &Json, key: &str) -> (r: Result<String, ()>)
    ensures
        match r {
            Ok(s) => spec_req_text_field(j@, key@) == Some(s@),
            Err(_) => spec_req_text_field(j@, key@) is None,
        },
{
    match j.get(&key.to_owned()) {
        Some(v) => match v {
            Json::Text(s) => Ok(s.clone()),
            _ => Err(()),
        },
        None => Err(()),
    }
}

impl Script {
    /// Reads a script reference out of a JSON value.
    pub fn of_json(j: &Json) -> (r: Option<Script>)
        ensures
            match r {
                Some(s) => spec_parse_script(j@) == Some(s@),
                None => spec_parse_script(j@) is None,
            },
    {
        match j {
            Json::Obj(_) => {},
            _ => {
                return None;
            },
        }
        let url = match opt_text_field(j, "url") {
            Ok(u) => u,
            Err(_) => {
                return None;
            },
        };
        let inline = match opt_text_field(j, "inline") {
            Ok(i) => i,
            Err(_) => {
                return None;
            },
        };
        Some(Script { url, inline })
    }
}

impl Config {
    /// Reads one config out of a JSON value.
    pub fn of_json(j: &Json) -> (r: Option<Config>)
        ensures
            match r {
                Some(c) => spec_parse_config(j@) == Some(c@),
                None => spec_parse_config(j@) is None,
            },
    {
        match j {
            Json::Obj(_) => {},
            _ => {
                return None;
            },
        }
        let name = match req_text_field(j, "name") {
            Ok(n) => n,
            Err(_) => {
                return None;
            },
        };
        let ty = match req_text_field(j, "type") {
            Ok(t) => t,
            Err(_) => {
                return None;
            },
        };
        let default = match j.get(&"default".to_owned()) {
            Some(d) => d.clone(),
            None => {
                return None;
            },
        };
        let value = match j.get(&"value".to_owned()) {
            Some(v) => match v {
                Json::Null => None,
                _ => Some(v.clone()),
            },
            None => None,
        };
        Some(Config { name, ty, default, value })
    }
}

impl PluginMeta {
    /// Reads a whole metadata record out of a JSON value, as stored in a
    /// plugin's metadata file or supplied to an add request.
    #[verifier::loop_isolation(false)]
    pub fn of_json(j: &Json) -> (r: Option<PluginMeta>)
        ensures
            match r {
                Some(m) => spec_parse_meta(j@) == Some(m@),
                None => spec_parse_meta(j@) is None,
            },
    {
        match j {
            Json::Obj(_) => {},
            _ => {
                return None;
            },
        }
        let name = match req_text_field(j, "name") {
            Ok(n) => n,
            Err(_) => {
                return None;
            },
        };
        let version = match req_text_field(j, "version") {
            Ok(v) => v,
            Err(_) => {
                return None;
            },
        };
        let url = match opt_text_field(j, "url") {
            Ok(u) => u,
            Err(_) => {
                return None;
            },
        };
        let description = match opt_text_field(j, "description") {
            Ok(d) => d,
            Err(_) => {
                return None;
            },
        };
        let configs: Option<Vec<Config>> = match j.get(&"configs".to_owned()) {
            None => None,
            Some(c) => match c {
                Json::Null => None,
                Json::Arr(items) => {
                    let mut out: Vec<Config> = Vec::new();
                    let n = items.len();
                    let mut i: usize = 0;
                    while i < n
                        invariant
                            n == items@.len(),
                            i <= n,
                            out@.len() == i as int,
                            forall|k: int| #![auto]
                                0 <= k < i ==> spec_parse_config(arr_model(items@)[k])
                                    == Some(out@[k]@),
                        decreases n - i,
                    {
                        match Config::of_json(&items[i]) {
                            Some(c) => out.push(c),
                            None => {
                                proof {
                                    assert(spec_parse_config(arr_model(items@)[i as int])
                                        is None);
                                }
                                return None;
                            },
                        }
                        i = i + 1;
                    }
                    proof {
                        assert(spec_parse_config_items(arr_model(items@)) matches Some(cs)
                            && cs =~= configs_model(out@));
                    }
                    Some(out)
                },
                _ => {
                    return None;
                },
            },
        };
        let script = match j.get(&"script".to_owned()) {
            Some(s) => match Script::of_json(s) {
                Some(sc) => sc,
                None => {
                    return None;
                },
            },
            None => {
                return None;
            },
        };
        Some(PluginMeta { name, version, url, description, configs, script })
    }
}

// ------------------------------------------------------------------
// Writing the model back as a JSON value.
// ------------------------------------------------------------------

/// An optional string as a JSON value: null when absent.
pub open spec fn spec_json_of_opt(o: Option<Seq<char>>) -> JsonV {
    match o {
        Some(s) => JsonV::Text(s),
        None => JsonV::Null,
    }
}

/// The JSON form of a script reference.
pub open spec fn spec_script_json(s: ScriptV) -> JsonV {
    JsonV::Obj(seq![("url"@, spec_json_of_opt(s.url)), ("inline"@, spec_json_of_opt(s.inline))])
}

/// The JSON form of one config.
pub open spec fn spec_config_json(c: ConfigV) -> JsonV {
    JsonV::Obj(
        seq![
            ("name"@, JsonV::Text(c.name)),
            ("type"@, JsonV::Text(c.ty)),
            ("default"@, c.default),
            (
                "value"@,
                match c.value {
                    Some(v) => v,
                    None => JsonV::Null,
                },
            ),
        ],
    )
}

/// The JSON form of a whole metadata record.
pub open spec fn spec_meta_json(m: MetaV) -> JsonV {
    JsonV::Obj(
        seq![
            ("name"@, JsonV::Text(m.name)),
            ("version"@, JsonV::Text(m.version)),
            ("url"@, spec_json_of_opt(m.url)),
            ("description"@, spec_json_of_opt(m.description)),
            (
                "configs"@,
                match m.configs {
                    Some(cs) => JsonV::Arr(
                        Seq::new(
                            cs.len(),
                            |i: int|
                                if 0 <= i < cs.len() {
                                    spec_config_json(cs[i])
                                } else {
                                    JsonV::Null
                                },
                        ),
                    ),
                    None => JsonV::Null,
                },
            ),
            ("script"@, spec_script_json(m.script)),
        ],
    )
}

/// The JSON value of an optional string field.
fn json_of_opt(o: &Option<String>) -> (r: Json)
    ensures
        r@ == spec_json_of_opt(opt_str(*o)),
{
    match o {
        Some(s) => Json::Text(s.clone()),
        None => Json::Null,
    }
}

impl Script {
    /// Writes this script reference as a JSON value.
    pub fn to_json(&self) -> (r: Json)
        ensures
            r@ == spec_script_json(self@),
    {
        let mut entries: Vec<(String, Json)> = Vec::new();
        entries.push(("url".to_owned(), json_of_opt(&self.url)));
        entries.push(("inline".to_owned(), json_of_opt(&self.inline)));
        let r = Json::Obj(entries);
        proof {
            assert(r@->Obj_0 =~= spec_script_json(self@)->Obj_0);
        }
        r
    }
}

impl Config {
    /// Writes this config as a JSON value.
    pub fn to_json(&self) -> (r: Json)
        ensures
            r@ == spec_config_json(self@),
    {
        let mut entries: Vec<(String, Json)> = Vec::new();
        entries.push(("name".to_owned(), Json::Text(self.name.clone())));
        entries.push(("type".to_owned(), Json::Text(self.ty.clone())));
        entries.push(("default".to_owned(), self.default.clone()));
        let value = match &self.value {
            Some(v) => v.clone(),
            None => Json::Null,
        };
        entries.push(("value".to_owned(), value));
        let r = Json::Obj(entries);
        proof {
            assert(entries@.len() == 4);
            assert(r@ == JsonV::Obj(obj_model(entries@)));
            let s1 = r@->Obj_0;
            let s2 = spec_config_json(self@)->Obj_0;
            assert(s1.len() == 4 && s2.len() == 4);
            assert(s1[0].0 == s2[0].0 && s1[0].1 == s2[0].1);
            assert(s1[1].0 == s2[1].0 && s1[1].1 == s2[1].1);
            assert(s1[2].0 == s2[2].0 && s1[2].1 == s2[2].1);
            assert(s1[3].0 == s2[3].0 && s1[3].1 == s2[3].1);
            assert(s1 =~= s2);
        }
        r
    }
}

impl PluginMeta {
    /// Writes this record as a JSON value, the form it is stored and
    /// broadcast in.
    #[verifier::loop_isolation(false)]
    pub fn to_json(&self) -> (r: Json)
        ensures
            r@ == spec_meta_json(self@),
    {
        let configs: Json = match &self.configs {
            Some(cs) => {
                let mut items: Vec<Json> = Vec::new();
                let n = cs.len();
                let mut i: usize = 0;
                while i < n
                    invariant
                        n == cs@.len(),
                        i <= n,
                        items@.len() == i as int,
                        forall|k: int| #![auto]
                            0 <= k < i ==> items@[k]@ == spec_config_json(configs_model(cs@)[k]),
                    decreases n - i,
                {
                    items.push(cs[i].to_json());
                    i = i + 1;
                }
                let arr = Json::Arr(items);
                proof {
                    assert(arr@->Arr_0 =~= spec_meta_json(self@)->Obj_0[4].1->Arr_0);
                }
                arr
            },
            None => Json::Null,
        };
        let mut entries: Vec<(String, Json)> = Vec::new();
        entries.push(("name".to_owned(), Json::Text(self.name.clone())));
        entries.push(("version".to_owned(), Json::Text(self.version.clone())));
        entries.push(("url".to_owned(), json_of_opt(&self.url)));
        entries.push(("description".to_owned(), json_of_opt(&self.description)));
        entries.push(("configs".to_owned(), configs));
        entries.push(("script".to_owned(), self.script.to_json()));
        let r = Json::Obj(entries);
        proof {
            assert(entries@.len() == 6);
            assert(r@ == JsonV::Obj(obj_model(entries@)));
            let s1 = r@->Obj_0;
            let s2 = spec_meta_json(self@)->Obj_0;
            assert(s1.len() == 6 && s2.len() == 6);
            assert(s1[0].0 == s2[0].0 && s1[0].1 == s2[0].1);
            assert(s1[1].0 == s2[1].0 && s1[1].1 == s2[1].1);
            assert(s1[2].0 == s2[2].0 && s1[2].1 == s2[2].1);
            assert(s1[3].0 == s2[3].0 && s1[3].1 == s2[3].1);
            assert(s1[4].0 == s2[4].0 && s1[4].1 == s2[4].1);
            assert(s1[5].0 == s2[5].0 && s1[5].1 == s2[5].1);
            assert(s1 =~= s2);
        }
        r
    }
}

// ------------------------------------------------------------------
// Canonicalization, config synthesis and override application.
// ------------------------------------------------------------------

/// The canonical served path of a plugin's script.
pub open spec fn spec_script_path(name: Seq<char>) -> Seq<char> {
    "/script/"@ + name + ".js"@
}

impl PluginMeta {
    /// Rewrites the script reference to its canonical served path and drops
    /// any inline source; every other field is kept.
    pub fn update_script(&mut self)
        ensures
            final(self)@ == (MetaV {
                script: ScriptV { url: Some(spec_script_path(old(self)@.name)), inline: None },
                ..old(self)@
            }),
    {
        let mut path = "/script/".to_owned();
        path.append(self.name.as_str());
        path.append(".js");
        self.script.url = Some(path);
        self.script.inline = None;
    }
}

/// The synthetic `enabled` config that heads every persisted config list,
/// with its value already filled from its default.
pub open spec fn spec_enabled_config() -> ConfigV {
    ConfigV {
        name: "enabled"@,
        ty: "checkbox"@,
        default: JsonV::Bool(false),
        value: Some(JsonV::Bool(false)),
    }
}

/// A config with its value filled from its default when unset.
pub open spec fn spec_fill(c: ConfigV) -> ConfigV {
    ConfigV {
        value: Some(
            match c.value {
                Some(v) => v,
                None => c.default,
            },
        ),
        ..c
    }
}

/// A caller-supplied config list as it is persisted: the synthetic
/// `enabled` config first, then every supplied config with its value
/// filled from its default when unset.
pub open spec fn spec_prepared(orig: Seq<ConfigV>) -> Seq<ConfigV> {
    Seq::new(
        orig.len() + 1,
        |i: int|
            if i == 0 {
                spec_enabled_config()
            } else if 1 <= i <= orig.len() {
                spec_fill(orig[i - 1])
            } else {
                spec_enabled_config()
            },
    )
}

/// The config list of an add request as it is persisted: prepends the
/// synthetic `enabled` config and fills every missing value from its
/// default.  A missing list reads as empty.
#[verifier::loop_isolation(false)]
pub fn prepare_configs(orig: Option<Vec<Config>>) -> (r: Vec<Config>)
    ensures
        configs_model(r@) == spec_prepared(
            match orig {
                Some(cs) => configs_model(cs@),
                None => Seq::empty(),
            },
        ),
{
    let mut out: Vec<Config> = Vec::new();
    out.push(
        Config {
            name: "enabled".to_owned(),
            ty: "checkbox".to_owned(),
            default: Json::Bool(false),
            value: Some(Json::Bool(false)),
        },
    );
    match orig {
        Some(cs) => {
            let n = cs.len();
            let mut i: usize = 0;
            while i < n
                invariant
                    n == cs@.len(),
                    i <= n,
                    out@.len() == i + 1,
                    out@[0]@ == spec_enabled_config(),
                    forall|k: int| #![auto]
                        0 <= k < i ==> out@[k + 1]@ == spec_fill(configs_model(cs@)[k]),
                decreases n - i,
            {
                let c = &cs[i];
                let value = match &c.value {
                    Some(v) => Some(v.clone()),
                    None => Some(c.default.clone()),
                };
                out.push(
                    Config {
                        name: c.name.clone(),
                        ty: c.ty.clone(),
                        default: c.default.clone(),
                        value,
                    },
                );
                i = i + 1;
            }
            proof {
                assert(configs_model(out@) =~= spec_prepared(configs_model(cs@)));
            }
            out
        },
        None => {
            proof {
                assert(configs_model(out@) =~= spec_prepared(Seq::<ConfigV>::empty()));
            }
            out
        },
    }
}

/// The last override for `name` in `vs`, if any: later overrides win.
pub open spec fn spec_last_value(vs: Seq<ConfigValueV>, name: Seq<char>) -> Option<JsonV>
    decreases vs.len(),
{
    if vs.len() == 0 {
        None
    } else if vs.last().name == name {
        Some(vs.last().value)
    } else {
        spec_last_value(vs.drop_last(), name)
    }
}

/// A config list after an override list is applied: a config named by some
/// override takes the last such override's value; every other config, and
/// every other field, is unchanged.  Overrides naming no config are ignored.
pub open spec fn spec_applied(cs: Seq<ConfigV>, vs: Seq<ConfigValueV>) -> Seq<ConfigV> {
    Seq::new(
        cs.len(),
        |i: int|
            if 0 <= i < cs.len() {
                ConfigV {
                    value: match spec_last_value(vs, cs[i].name) {
                        Some(v) => Some(v),
                        None => cs[i].value,
                    },
                    ..cs[i]
                }
            } else {
                spec_enabled_config()
            },
    )
}

/// Applies an override list to a config list, by name match.
#[verifier::loop_isolation(false)]
pub fn apply_values(configs: Vec<Config>, values: &Vec<ConfigValue>) -> (r: Vec<Config>)
    ensures
        configs_model(r@) == spec_applied(configs_model(configs@), values_model(values@)),
{
    let ghost vm = values_model(values@);
    let mut out: Vec<Config> = Vec::new();
    let n = configs.len();
    let mut i: usize = 0;
    while i < n
        invariant
            n == configs@.len(),
            i <= n,
            out@.len() == i as int,
            forall|k: int| #![auto]
                0 <= k < i ==> out@[k]@ == spec_applied(configs_model(configs@), vm)[k],
        decreases n - i,
    {
        let c = &configs[i];
        let mut found: Option<Json> = None;
        let m = values.len();
        let mut j: usize = m;
        proof {
            assert(vm.take(m as int) =~= vm);
        }
        while j > 0 && found.is_none()
            invariant
                j <= m,
                m == values@.len(),
                match found {
                    Some(v) => spec_last_value(vm, c.name@) == Some(v@),
                    None => spec_last_value(vm, c.name@) == spec_last_value(
                        vm.take(j as int),
                        c.name@,
                    ),
                },
            decreases j,
        {
            let v = &values[j - 1];
            proof {
                assert(vm.take(j as int).last() == vm[j as int - 1]);
                assert(vm.take(j as int).drop_last() =~= vm.take(j as int - 1));
            }
            if v.name == c.name {
                found = Some(v.value.clone());
            }
            j = j - 1;
        }
        let value = match found {
            Some(v) => Some(v),
            None => {
                proof {
                    assert(vm.take(0) =~= Seq::<ConfigValueV>::empty());
                }
                match &c.value {
                    Some(v) => Some(v.clone()),
                    None => None,
                }
            },
        };
        out.push(Config { name: c.name.clone(), ty: c.ty.clone(), default: c.default.clone(), value });
        i = i + 1;
    }
    proof {
        assert(configs_model(out@) =~= spec_applied(configs_model(configs@), vm));
    }
    out
}

// ------------------------------------------------------------------
// Reading an override list out of a JSON value.
// ------------------------------------------------------------------

/// What a JSON value means as one override: `name` must be a string and
/// `value` must be present; a null value is kept as null.
pub open spec fn spec_parse_value(j: JsonV) -> Option<ConfigValueV> {
    if !(j matches JsonV::Obj(_)) {
        None
    } else {
        match (spec_req_text_field(j, "name"@), spec_field(j, "value"@)) {
            (Some(n), Some(v)) => Some(ConfigValueV { name: n, value: v }),
            _ => None,
        }
    }
}

/// What a JSON value means as an override list: an array each of whose
/// items reads as an override.
pub open spec fn spec_parse_values(j: JsonV) -> Option<Seq<ConfigValueV>> {
    match j {
        JsonV::Arr(items) => {
            if forall|i: int| 0 <= i < items.len() ==> spec_parse_value(items[i]) is Some {
                Some(
                    Seq::new(
                        items.len(),
                        |i: int|
                            if 0 <= i < items.len() {
                                spec_parse_value(items[i])->Some_0
                            } else {
                                ConfigValueV { name: Seq::empty(), value: JsonV::Null }
                            },
                    ),
                )
            } else {
                None
            }
        },
        _ => None,
    }
}

impl ConfigValue {
    /// Reads one override out of a JSON value.
    pub fn of_json(j: &Json) -> (r: Option<ConfigValue>)
        ensures
            match r {
                Some(v) => spec_parse_value(j@) == Some(v@),
                None => spec_parse_value(j@) is None,
            },
    {
        match j {
            Json::Obj(_) => {},
            _ => {
                return None;
            },
        }
        let name = match req_text_field(j, "name") {
            Ok(n) => n,
            Err(_) => {
                return None;
            },
        };
        let value = match j.get(&"value".to_owned()) {
            Some(v) => v.clone(),
            None => {
                return None;
            },
        };
        Some(ConfigValue { name, value })
    }
}

/// Reads an override list out of a JSON value.
#[verifier::loop_isolation(false)]
pub fn parse_values(j: &Json) -> (r: Option<Vec<ConfigValue>>)
    ensures
        match r {
            Some(vs) => spec_parse_values(j@) == Some(values_model(vs@)),
            None => spec_parse_values(j@) is None,
        },
{
    match j {
        Json::Arr(items) => {
            let mut out: Vec<ConfigValue> = Vec::new();
            let n = items.len();
            let mut i: usize = 0;
            while i < n
                invariant
                    n == items@.len(),
                    i <= n,
                    out@.len() == i as int,
                    forall|k: int| #![auto]
                        0 <= k < i ==> spec_parse_value(arr_model(items@)[k]) == Some(out@[k]@),
                decreases n - i,
            {
                match ConfigValue::of_json(&items[i]) {
                    Some(v) => out.push(v),
                    None => {
                        proof {
                            assert(spec_parse_value(arr_model(items@)[i as int]) is None);
                        }
                        return None;
                    },
                }
                i = i + 1;
            }
            proof {
                assert(spec_parse_values(j@) matches Some(vs) && vs =~= values_model(out@));
            }
            Some(out)
        },
        _ => None,
    }
}

} // verus!
