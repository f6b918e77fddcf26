use vstd::prelude::*;
use vstd::string::*;
use crate::ai_config::{SupportedFunctions, SelectionView, selection_from_node, position_of, string_keys_unique, put_entry};
use crate::assoc::{keys_unique, to_map, lemma_to_map_push, lemma_to_map_dom, lemma_to_map_index, lemma_to_map_update};
use crate::config_node::{ConfigNode, first_entry, or_null, text_or, text_or_default};
use crate::parameter_names::{FRAMEWORK_MODEL_DISABLE_GPU, SAMPLER_PENALTY_LAST_N, SAMPLER_SEED, SAMPLER_TOP_K};
use crate::text::{lower_of, trim_of, lowercase, trimmed};

verus! {

pub const DEFAULT_ROOT_MODEL_FOLDER: &'static str = "models";

// ---------------------------------------------------------------------------
// Trusted calls
// ---------------------------------------------------------------------------

/// What `bt_string_utils::cleanser::remove_char` with `RemoveLocationEnum::End`
/// makes of a text and a character.
pub uninterp spec fn trailing_removed(s: Seq<char>, c: char) -> Seq<char>;

/// Relies on `bt_string_utils::cleanser::remove_char` with
/// `RemoveLocationEnum::End`: a text that does not end with `target` comes
/// back unchanged; an ASCII text that does loses its last character.
#[verifier::external_body]
fn remove_trailing(input: &String, target: char) -> (r: String)
    ensures
        r@ == trailing_removed(input@, target),
        !(input@.len() > 0 && input@.last() == target) ==> r@ == input@,
        input@.len() > 0 && input@.last() == target && ascii_text(input@) ==> r@
            == input@.drop_last(),
{
    bt_string_utils::cleanser::remove_char(
        bt_string_utils::cleanser::RemoveLocationEnum::End,
        input,
        target,
    )
}

/// Relies on `rand::Rng::random_range` over `1..=u32::MAX` with the thread
/// generator of `rand::rng`: a value drawn from that range.
#[verifier::external_body]
fn random_seed() -> (r: u32)
    ensures
        r >= 1,
{
    let mut rng = rand::rng();
    rand::Rng::random_range(&mut rng, 1..=u32::MAX)
}

/// Lets `std::path::PathBuf` stand in signatures.
#[verifier::external_type_specification]
#[verifier::external_body]
pub struct ExPathBuf(std::path::PathBuf);

/// Relies on `From<String> for PathBuf`: a path made of the text.
#[verifier::external_body]
fn path_from(s: String) -> std::path::PathBuf {
    std::path::PathBuf::from(s)
}

/// Every character is ASCII.
pub open spec fn ascii_text(s: Seq<char>) -> bool {
    forall|i: int| 0 <= i < s.len() ==> (s[i] as u32) < 128
}

// ---------------------------------------------------------------------------
// Moving children out of a document
// ---------------------------------------------------------------------------

proof fn lemma_first_entry_at(s: Seq<(String, ConfigNode)>, key: Seq<char>, i: int)
    requires
        0 <= i < s.len(),
        s[i].0@ == key,
        forall|j: int| 0 <= j < i ==> s[j].0@ != key,
    ensures
        first_entry(s, key) == Some(s[i].1),
    decreases i,
{
    if i > 0 {
        assert forall|j: int| 0 <= j < i - 1 implies s.drop_first()[j].0@ != key by {
            assert(s.drop_first()[j] == s[j + 1]);
        }
        lemma_first_entry_at(s.drop_first(), key, i - 1);
    }
}

proof fn lemma_first_entry_absent(s: Seq<(String, ConfigNode)>, key: Seq<char>)
    requires
        forall|j: int| 0 <= j < s.len() ==> s[j].0@ != key,
    ensures
        first_entry(s, key) is None,
    decreases s.len(),
{
    if s.len() > 0 {
        assert forall|j: int| 0 <= j < s.len() - 1 implies s.drop_first()[j].0@ != key by {
            assert(s.drop_first()[j] == s[j + 1]);
        }
        lemma_first_entry_absent(s.drop_first(), key);
    }
}

proof fn lemma_first_entry_other(
    s: Seq<(String, ConfigNode)>,
    i: int,
    e: (String, ConfigNode),
    key: Seq<char>,
)
    requires
        0 <= i < s.len(),
        e.0@ == s[i].0@,
        s[i].0@ != key,
    ensures
        first_entry(s.update(i, e), key) == first_entry(s, key),
    decreases s.len(),
{
    let t = s.update(i, e);
    if i == 0 {
        assert(t.drop_first() =~= s.drop_first());
    } else {
        assert(t.drop_first() =~= s.drop_first().update(i - 1, e));
        if s[0].0@ != key {
            lemma_first_entry_other(s.drop_first(), i - 1, e, key);
        }
    }
}

/// Moves the child `key` out of a node; the rest keeps every other child.
fn take_child(node: ConfigNode, key: &str) -> (r: (ConfigNode, ConfigNode))
    ensures
        r.0 == node.at(key@),
        forall|k: Seq<char>| k != key@ ==> #[trigger] r.1.at(k) == node.at(k),
{
    match node {
        ConfigNode::Table(entries) => {
            let mut entries = entries;
            let wanted = String::from_str(key);
            let found = position_of(&entries, &wanted);
            match found {
                Some(j) => {
                    proof {
                        lemma_first_entry_at(entries@, key@, j as int);
                    }
                    let ghost before = entries@;
                    let mut slot = (entries[j].0.clone(), ConfigNode::Null);
                    entries.set_and_swap(j, &mut slot);
                    proof {
                        assert forall|k: Seq<char>| k != key@ implies #[trigger] first_entry(
                            entries@,
                            k,
                        ) == first_entry(before, k) by {
                            lemma_first_entry_other(
                                before,
                                j as int,
                                (before[j as int].0, ConfigNode::Null),
                                k,
                            );
                        }
                    }
                    (slot.1, ConfigNode::Table(entries))
                },
                None => {
                    proof {
                        lemma_first_entry_absent(entries@, key@);
                    }
                    (ConfigNode::Null, ConfigNode::Table(entries))
                },
            }
        },
        other => (ConfigNode::Null, other),
    }
}

/// The items of a list node, moved out; nothing for any other node.
fn into_items(node: ConfigNode) -> (r: Vec<ConfigNode>)
    ensures
        r@ == node.items(),
{
    match node {
        ConfigNode::List(items) => items,
        _ => Vec::new(),
    }
}

// ---------------------------------------------------------------------------
// Model configurations
// ---------------------------------------------------------------------------

/// The configuration of one model served by the application itself: where
/// its file lies, its system prompt, its tools, and its parameters by name.
pub struct ModelConfig {
    model_root_folder: String,
    model_path: String,
    system: String,
    tools: SupportedFunctions,
    ctx_params: Vec<(String, ConfigNode)>,
    model_params: Vec<(String, ConfigNode)>,
    sampler_params: Vec<(String, ConfigNode)>,
    model_cfg_parms: Vec<(String, String)>,
}

pub struct ModelConfigView {
    pub root_folder: Seq<char>,
    pub path: Seq<char>,
    pub system: Seq<char>,
    pub tools: SelectionView,
    pub ctx_params: Map<Seq<char>, ConfigNode>,
    pub model_params: Map<Seq<char>, ConfigNode>,
    pub sampler_params: Map<Seq<char>, ConfigNode>,
    pub custom: Map<Seq<char>, Seq<char>>,
}

pub open spec fn param_entries(s: Seq<(String, ConfigNode)>) -> Seq<(Seq<char>, ConfigNode)> {
    s.map_values(|e: (String, ConfigNode)| (e.0@, e.1))
}

pub open spec fn custom_entries(s: Seq<(String, String)>) -> Seq<(Seq<char>, Seq<char>)> {
    s.map_values(|e: (String, String)| (e.0@, e.1@))
}

impl View for ModelConfig {
    type V = ModelConfigView;

    closed spec fn view(&self) -> ModelConfigView {
        ModelConfigView {
            root_folder: self.model_root_folder@,
            path: self.model_path@,
            system: self.system@,
            tools: self.tools@,
            ctx_params: to_map(param_entries(self.ctx_params@)),
            model_params: to_map(param_entries(self.model_params@)),
            sampler_params: to_map(param_entries(self.sampler_params@)),
            custom: to_map(custom_entries(self.model_cfg_parms@)),
        }
    }
}

/// The parameters that a list of `param_id` / `param_value` entries sets; an
/// entry without an id sets `UNKNOWN`.
pub open spec fn param_settings(items: Seq<ConfigNode>) -> Seq<(Seq<char>, ConfigNode)> {
    items.map_values(
        |cp: ConfigNode| (text_or_default(cp.at("param_id"@), "UNKNOWN"@), cp.at("param_value"@)),
    )
}

/// The folder of the model files: the configured one, or `models`, without
/// a trailing slash.
pub open spec fn root_setting(section: ConfigNode) -> Seq<char> {
    trailing_removed(text_or_default(section.at("root_folder"@), DEFAULT_ROOT_MODEL_FOLDER@), '/')
}

pub open spec fn model_config_setting(m: ConfigNode, root: Seq<char>) -> ModelConfigView {
    ModelConfigView {
        root_folder: root,
        path: text_or_default(m.at("model_path"@), "qwen3:latest"@),
        system: text_or_default(m.at("system"@), Seq::empty()),
        tools: selection_from_node(m.at("tools"@)),
        ctx_params: to_map(param_settings(m.at("ctx_params"@).items())),
        model_params: to_map(param_settings(m.at("model_params"@).items())),
        sampler_params: to_map(param_settings(m.at("sampler_params"@).items())),
        custom: Map::empty(),
    }
}

pub open spec fn model_config_settings(items: Seq<ConfigNode>, root: Seq<char>) -> Seq<
    (Seq<char>, ModelConfigView),
> {
    items.map_values(
        |m: ConfigNode| (text_or_default(m.at("model_id"@), "default"@), model_config_setting(m, root)),
    )
}

/// What the section `env` of a document configures, model by model.
pub open spec fn model_configs_setting(doc: ConfigNode, env: Seq<char>) -> Map<
    Seq<char>,
    ModelConfigView,
> {
    let section = doc.at(env);
    to_map(model_config_settings(section.at("models"@).items(), root_setting(section)))
}

/// An integer clamped into `u32`.
pub open spec fn clamp_u32(n: i64) -> u32 {
    if n < 0 {
        0
    } else if n > u32::MAX {
        u32::MAX
    } else {
        n as u32
    }
}

/// An integer clamped into `usize`.
pub open spec fn clamp_usize(n: i64) -> usize {
    if n < 0 {
        0
    } else if n > usize::MAX {
        usize::MAX
    } else {
        n as usize
    }
}

/// The entry `key` of a parameter list with unique keys, as its map says.
fn param_lookup<'a>(params: &'a Vec<(String, ConfigNode)>, key: &str) -> (r: Option<
    &'a ConfigNode,
>)
    requires
        keys_unique(param_entries(params@)),
    ensures
        match r {
            Some(n) => to_map(param_entries(params@)).contains_key(key@) && *n == to_map(
                param_entries(params@),
            )[key@],
            None => !to_map(param_entries(params@)).contains_key(key@),
        },
{
    let wanted = String::from_str(key);
    let e = Ghost(param_entries(params@));
    match position_of(params, &wanted) {
        Some(i) => {
            proof {
                lemma_to_map_index(e@, i as int);
            }
            Some(&params[i].1)
        },
        None => {
            proof {
                lemma_to_map_dom(e@, key@);
                if to_map(e@).contains_key(key@) {
                    let j = choose|j: int| 0 <= j < e@.len() && #[trigger] e@[j].0 == key@;
                    assert(params@[j].0@ == key@);
                }
            }
            None
        },
    }
}

/// Reads a list of `param_id` / `param_value` entries; a later entry for an
/// id replaces an earlier one.
fn read_params(list: ConfigNode) -> (r: Vec<(String, ConfigNode)>)
    ensures
        keys_unique(param_entries(r@)),
        to_map(param_entries(r@)) == to_map(param_settings(list.items())),
{
    let mut items = into_items(list);
    let ghost orig = items@;
    let mut params: Vec<(String, ConfigNode)> = Vec::new();
    let mut i: usize = 0;
    proof {
        assert(param_settings(orig).take(0) =~= Seq::<(Seq<char>, ConfigNode)>::empty());
        assert(param_entries(params@) =~= Seq::<(Seq<char>, ConfigNode)>::empty());
    }
    while i < items.len()
        invariant
            i <= items@.len(),
            items@.len() == orig.len(),
            orig == list.items(),
            forall|j: int| i <= j < orig.len() ==> #[trigger] items@[j] == orig[j],
            string_keys_unique(params@),
            keys_unique(param_entries(params@)),
            to_map(param_entries(params@)) == to_map(param_settings(orig).take(i as int)),
        decreases items@.len() - i,
    {
        let mut cp = ConfigNode::Null;
        items.set_and_swap(i, &mut cp);
        let key = text_or(cp.child("param_id"), "UNKNOWN");
        let (value, _rest) = take_child(cp, "param_value");
        let ghost k = key@;
        let ghost before = params@;
        let ghost gk = key;
        let ghost gv = value;
        put_entry(&mut params, key, value);
        proof {
            assert(param_settings(orig).take(i + 1) =~= param_settings(orig).take(i as int).push(
                (k, gv),
            ));
            lemma_to_map_push(param_settings(orig).take(i as int), k, gv);
            if exists|j: int| 0 <= j < before.len() && before[j].0@ == k {
                let j = choose|j: int| 0 <= j < before.len() && before[j].0@ == k;
                assert(params@ == before.update(j, (gk, gv)));
                assert(param_entries(params@) =~= param_entries(before).update(j, (k, gv)));
                lemma_to_map_update(param_entries(before), j, gv);
            } else {
                assert(params@ == before.push((gk, gv)));
                assert(param_entries(params@) =~= param_entries(before).push((k, gv)));
                lemma_to_map_push(param_entries(before), k, gv);
            }
        }
        i += 1;
    }
    proof {
        assert(param_settings(orig).take(orig.len() as int) =~= param_settings(orig));
    }
    params
}

impl ModelConfig {
    /// Parameter lists have unique keys.
    pub closed spec fn wf(&self) -> bool {
        &&& keys_unique(param_entries(self.ctx_params@))
        &&& keys_unique(param_entries(self.model_params@))
        &&& keys_unique(param_entries(self.sampler_params@))
        &&& string_keys_unique(self.model_cfg_parms@)
        &&& keys_unique(custom_entries(self.model_cfg_parms@))
    }

    /// Sets a parameter of the application's own, under its id trimmed and in
    /// lower case; gives back the value it replaces.
    pub fn set_custom_model_cfg_param(&mut self, parameter_id: &str, parameter_value: String) -> (r:
        Option<String>)
        requires
            old(self).wf(),
        ensures
            final(self).wf(),
            ({
                let key = lower_of(trim_of(parameter_id@));
                &&& final(self)@ == ModelConfigView {
                    custom: old(self)@.custom.insert(key, parameter_value@),
                    ..old(self)@
                }
                &&& match r {
                    Some(v) => old(self)@.custom.contains_key(key) && old(self)@.custom[key] == v@,
                    None => !old(self)@.custom.contains_key(key),
                }
            }),
    {
        let key = lowercase(trimmed(parameter_id));
        let ghost k = key@;
        let ghost w = parameter_value@;
        let ghost before = self.model_cfg_parms@;
        let e = Ghost(custom_entries(before));
        let found = position_of(&self.model_cfg_parms, &key);
        let previous = match found {
            Some(i) => {
                proof {
                    lemma_to_map_index(e@, i as int);
                }
                Some(self.model_cfg_parms[i].1.clone())
            },
            None => {
                proof {
                    lemma_to_map_dom(e@, k);
                    if to_map(e@).contains_key(k) {
                        let j = choose|j: int| 0 <= j < e@.len() && #[trigger] e@[j].0 == k;
                        assert(before[j].0@ == k);
                    }
                }
                None
            },
        };
        let ghost gk = key;
        let ghost gv = parameter_value;
        put_entry(&mut self.model_cfg_parms, key, parameter_value);
        proof {
            match found {
                Some(i) => {
                    assert(self.model_cfg_parms@ == before.update(i as int, (gk, gv)));
                    assert(custom_entries(self.model_cfg_parms@) =~= e@.update(i as int, (k, w)));
                    lemma_to_map_update(e@, i as int, w);
                },
                None => {
                    assert(self.model_cfg_parms@ == before.push((gk, gv)));
                    assert(custom_entries(self.model_cfg_parms@) =~= e@.push((k, w)));
                    lemma_to_map_push(e@, k, w);
                },
            }
        }
        previous
    }

    /// The path of the model file: the root folder and the model path.
    pub fn model_file_location(&self) -> (r: String)
        ensures
            r@ == self@.root_folder + "/"@ + self@.path,
    {
        let mut location = self.model_root_folder.clone();
        location.append("/");
        location.append(self.model_path.as_str());
        location
    }

    /// The path of the model file, as [`ModelConfig::model_file_location`]
    /// writes it.
    pub fn get_model_file_path(&self) -> std::path::PathBuf {
        path_from(self.model_file_location())
    }

    /// A parameter of the application's own, by its exact id.
    pub fn get_custom_model_cfg_param(&self, parameter_id: &str) -> (r: Option<&String>)
        requires
            self.wf(),
        ensures
            match r {
                Some(v) => self@.custom.contains_key(parameter_id@) && self@.custom[parameter_id@]
                    == v@,
                None => !self@.custom.contains_key(parameter_id@),
            },
    {
        let wanted = String::from_str(parameter_id);
        let e = Ghost(custom_entries(self.model_cfg_parms@));
        match position_of(&self.model_cfg_parms, &wanted) {
            Some(i) => {
                proof {
                    lemma_to_map_index(e@, i as int);
                }
                Some(&self.model_cfg_parms[i].1)
            },
            None => {
                proof {
                    lemma_to_map_dom(e@, parameter_id@);
                    if to_map(e@).contains_key(parameter_id@) {
                        let j = choose|j: int|
                            0 <= j < e@.len() && #[trigger] e@[j].0 == parameter_id@;
                        assert(self.model_cfg_parms@[j].0@ == parameter_id@);
                    }
                }
                None
            },
        }
    }

    pub fn get_path(&self) -> (r: String)
        ensures
            r@ == self@.path,
    {
        self.model_path.clone()
    }

    pub fn get_system(&self) -> (r: Option<String>)
        ensures
            r matches Some(s) && s@ == self@.system,
    {
        Some(self.system.clone())
    }

    pub fn get_tools(&self) -> (r: &SupportedFunctions)
        ensures
            r@ == self@.tools,
    {
        &self.tools
    }

    pub fn get_ctx_parameters(&self) -> (r: &Vec<(String, ConfigNode)>)
        requires
            self.wf(),
        ensures
            keys_unique(param_entries(r@)),
            to_map(param_entries(r@)) == self@.ctx_params,
    {
        &self.ctx_params
    }

    pub fn get_ctx_param(&self, param_id: &str) -> (r: Option<&ConfigNode>)
        requires
            self.wf(),
        ensures
            or_null(r) == (if self@.ctx_params.contains_key(param_id@) {
                self@.ctx_params[param_id@]
            } else {
                ConfigNode::Null
            }),
            r is Some <==> self@.ctx_params.contains_key(param_id@),
    {
        param_lookup(&self.ctx_params, param_id)
    }

    pub fn get_model_parameters(&self) -> (r: &Vec<(String, ConfigNode)>)
        requires
            self.wf(),
        ensures
            keys_unique(param_entries(r@)),
            to_map(param_entries(r@)) == self@.model_params,
    {
        &self.model_params
    }

    pub fn get_model_param(&self, param_id: &str) -> (r: Option<&ConfigNode>)
        requires
            self.wf(),
        ensures
            or_null(r) == (if self@.model_params.contains_key(param_id@) {
                self@.model_params[param_id@]
            } else {
                ConfigNode::Null
            }),
            r is Some <==> self@.model_params.contains_key(param_id@),
    {
        param_lookup(&self.model_params, param_id)
    }

    pub fn get_sampler_parameters(&self) -> (r: &Vec<(String, ConfigNode)>)
        requires
            self.wf(),
        ensures
            keys_unique(param_entries(r@)),
            to_map(param_entries(r@)) == self@.sampler_params,
    {
        &self.sampler_params
    }

    pub fn get_sampler_param(&self, param_id: &str) -> (r: Option<&ConfigNode>)
        requires
            self.wf(),
        ensures
            or_null(r) == (if self@.sampler_params.contains_key(param_id@) {
                self@.sampler_params[param_id@]
            } else {
                ConfigNode::Null
            }),
            r is Some <==> self@.sampler_params.contains_key(param_id@),
    {
        param_lookup(&self.sampler_params, param_id)
    }

    /// The sampler's top-k, when it is set as an integer; a negative one
    /// wraps around as a machine cast does.
    pub fn get_sampler_top_k(&self) -> (r: Option<usize>)
        requires
            self.wf(),
        ensures
            ({
                let p = if self@.sampler_params.contains_key(SAMPLER_TOP_K@) {
                    self@.sampler_params[SAMPLER_TOP_K@]
                } else {
                    ConfigNode::Null
                };
                match p.integer() {
                    Some(n) => r is Some && (n >= 0 ==> r == Some(n as usize)),
                    None => r is None,
                }
            }),
    {
        match self.get_sampler_param(SAMPLER_TOP_K) {
            Some(n) => match n.as_integer() {
                Some(tk) => Some(#[verifier::truncate] (tk as usize)),
                None => None,
            },
            None => None,
        }
    }

    /// The sampler's seed, clamped into `u32`; a random one from 1 up when it
    /// is not set as an integer.
    pub fn get_sampler_seed(&self) -> (r: u32)
        requires
            self.wf(),
        ensures
            ({
                let p = if self@.sampler_params.contains_key(SAMPLER_SEED@) {
                    self@.sampler_params[SAMPLER_SEED@]
                } else {
                    ConfigNode::Null
                };
                match p.integer() {
                    Some(n) => r == clamp_u32(n),
                    None => r >= 1,
                }
            }),
    {
        let fallback = random_seed();
        match self.get_sampler_param(SAMPLER_SEED) {
            Some(n) => match n.as_integer() {
                Some(v) => if v < 0 {
                    0
                } else if v > u32::MAX as i64 {
                    u32::MAX
                } else {
                    v as u32
                },
                None => fallback,
            },
            None => fallback,
        }
    }

    /// How many recent tokens the repetition penalty considers, clamped into
    /// `usize`; 128 when it is not set as an integer.
    pub fn get_sampler_repeat_last_n(&self) -> (r: usize)
        requires
            self.wf(),
        ensures
            ({
                let p = if self@.sampler_params.contains_key(SAMPLER_PENALTY_LAST_N@) {
                    self@.sampler_params[SAMPLER_PENALTY_LAST_N@]
                } else {
                    ConfigNode::Null
                };
                match p.integer() {
                    Some(n) => r == clamp_usize(n),
                    None => r == 128,
                }
            }),
    {
        match self.get_sampler_param(SAMPLER_PENALTY_LAST_N) {
            Some(n) => match n.as_integer() {
                Some(v) => if v < 0 {
                    0
                } else if v as u64 > usize::MAX as u64 {
                    usize::MAX
                } else {
                    v as usize
                },
                None => 128,
            },
            None => 128,
        }
    }

    /// Whether the model runs without a GPU; false unless set as a boolean.
    pub fn get_model_disbale_gpu(&self) -> (r: bool)
        requires
            self.wf(),
        ensures
            r == (self@.model_params.contains_key(FRAMEWORK_MODEL_DISABLE_GPU@)
                && self@.model_params[FRAMEWORK_MODEL_DISABLE_GPU@].boolean() == Some(true)),
    {
        match self.get_model_param(FRAMEWORK_MODEL_DISABLE_GPU) {
            Some(n) => match n.as_boolean() {
                Some(b) => b,
                None => false,
            },
            None => false,
        }
    }
}

/// The models of one environment, by id.
pub struct ModelConfigs {
    models: Vec<(String, ModelConfig)>,
}

pub open spec fn config_entries(s: Seq<(String, ModelConfig)>) -> Seq<(Seq<char>, ModelConfigView)> {
    s.map_values(|e: (String, ModelConfig)| (e.0@, e.1@))
}

impl View for ModelConfigs {
    type V = Map<Seq<char>, ModelConfigView>;

    closed spec fn view(&self) -> Map<Seq<char>, ModelConfigView> {
        to_map(config_entries(self.models@))
    }
}

fn read_model_config(m: ConfigNode, root: &String) -> (r: (String, ModelConfig))
    ensures
        r.0@ == text_or_default(m.at("model_id"@), "default"@),
        r.1@ == model_config_setting(m, root@),
        r.1.wf(),
{
    let id = text_or(m.child("model_id"), "default");
    let path = text_or(m.child("model_path"), "qwen3:latest");
    let system = text_or(m.child("system"), "");
    let tools = match m.child("tools") {
        Some(t) => SupportedFunctions::from_config(t),
        None => SupportedFunctions::from_config(&ConfigNode::Null),
    };
    proof {
        reveal_strlit("ctx_params");
        reveal_strlit("model_params");
        reveal_strlit("sampler_params");
        reveal_strlit("");
        assert("ctx_params"@[0] != "model_params"@[0]);
        assert("ctx_params"@[0] != "sampler_params"@[0]);
        assert("model_params"@[0] != "sampler_params"@[0]);
    }
    let (ctx, rest) = take_child(m, "ctx_params");
    let (model_list, rest) = take_child(rest, "model_params");
    let (sampler_list, _rest) = take_child(rest, "sampler_params");
    let config = ModelConfig {
        model_root_folder: root.clone(),
        model_path: path,
        system,
        tools,
        ctx_params: read_params(ctx),
        model_params: read_params(model_list),
        sampler_params: read_params(sampler_list),
        model_cfg_parms: Vec::new(),
    };
    proof {
        assert(custom_entries(config.model_cfg_parms@) =~= Seq::<(Seq<char>, Seq<char>)>::empty());
        let want = model_config_setting(m, root@);
        assert(config@.root_folder == want.root_folder);
        assert(config@.path == want.path);
        assert(config@.system == want.system);
        assert(config@.tools == want.tools);
        assert(config@.ctx_params == want.ctx_params);
        assert(config@.model_params == want.model_params);
        assert(config@.sampler_params == want.sampler_params);
        assert(config@.custom == want.custom);
    }
    (id, config)
}

impl ModelConfigs {
    #[verifier::type_invariant]
    closed spec fn inv(&self) -> bool {
        &&& string_keys_unique(self.models@)
        &&& keys_unique(config_entries(self.models@))
        &&& forall|i: int| 0 <= i < self.models@.len() ==> (#[trigger] self.models@[i]).1.wf()
    }

    /// Reads the models of the section `run_env` of a document; a later model
    /// with an already used id replaces the earlier one.
    pub fn new(document: ConfigNode, run_env: &str) -> (r: Self)
        ensures
            r@ == model_configs_setting(document, run_env@),
    {
        let (section, _rest) = take_child(document, run_env);
        let root = remove_trailing(
            &text_or(section.child("root_folder"), DEFAULT_ROOT_MODEL_FOLDER),
            '/',
        );
        ModelConfigs::with_root(section, &root)
    }

    /// Reads the models of an environment's section, their files under
    /// `root`.
    pub fn with_root(section: ConfigNode, root: &String) -> (r: Self)
        ensures
            r@ == to_map(model_config_settings(section.at("models"@).items(), root@)),
    {
        let (listed, _rest) = take_child(section, "models");
        let mut items = into_items(listed);
        let ghost orig = items@;
        let ghost settings = model_config_settings(orig, root@);
        let mut models: Vec<(String, ModelConfig)> = Vec::new();
        let mut i: usize = 0;
        proof {
            assert(settings.take(0) =~= Seq::<(Seq<char>, ModelConfigView)>::empty());
            assert(config_entries(models@) =~= Seq::<(Seq<char>, ModelConfigView)>::empty());
        }
        while i < items.len()
            invariant
                i <= items@.len(),
                items@.len() == orig.len(),
                settings == model_config_settings(orig, root@),
                forall|j: int| i <= j < orig.len() ==> #[trigger] items@[j] == orig[j],
                string_keys_unique(models@),
                keys_unique(config_entries(models@)),
                forall|j: int| 0 <= j < models@.len() ==> (#[trigger] models@[j]).1.wf(),
                to_map(config_entries(models@)) == to_map(settings.take(i as int)),
            decreases items@.len() - i,
        {
            let mut m = ConfigNode::Null;
            items.set_and_swap(i, &mut m);
            let (key, config) = read_model_config(m, root);
            let ghost k = key@;
            let ghost w = config@;
            let ghost before = models@;
            let ghost gk = key;
            let ghost gc = config;
            put_entry(&mut models, key, config);
            proof {
                assert(settings.take(i + 1) =~= settings.take(i as int).push((k, w)));
                lemma_to_map_push(settings.take(i as int), k, w);
                if exists|j: int| 0 <= j < before.len() && before[j].0@ == k {
                    let j = choose|j: int| 0 <= j < before.len() && before[j].0@ == k;
                    assert(models@ == before.update(j, (gk, gc)));
                    assert(config_entries(models@) =~= config_entries(before).update(j, (k, w)));
                    lemma_to_map_update(config_entries(before), j, w);
                } else {
                    assert(models@ == before.push((gk, gc)));
                    assert(config_entries(models@) =~= config_entries(before).push((k, w)));
                    lemma_to_map_push(config_entries(before), k, w);
                }
                assert forall|j: int| 0 <= j < models@.len() implies (#[trigger] models@[j]).1.wf() by {
                    if j < before.len() && models@[j] == before[j] {
                    } else {
                        assert(models@[j].1 == gc);
                    }
                }
            }
            i += 1;
        }
        proof {
            assert(settings.take(orig.len() as int) =~= settings);
        }
        ModelConfigs { models }
    }

    /// The configuration of a model, when it is configured.
    pub fn get_model_configs(&self, model_id: &str) -> (r: Option<&ModelConfig>)
        ensures
            match r {
                Some(c) => self@.contains_key(model_id@) && c@ == self@[model_id@] && c.wf(),
                None => !self@.contains_key(model_id@),
            },
    {
        proof {
            use_type_invariant(self);
        }
        let wanted = String::from_str(model_id);
        let e = Ghost(config_entries(self.models@));
        match position_of(&self.models, &wanted) {
            Some(i) => {
                proof {
                    lemma_to_map_index(e@, i as int);
                }
                Some(&self.models[i].1)
            },
            None => {
                proof {
                    lemma_to_map_dom(e@, model_id@);
                    if to_map(e@).contains_key(model_id@) {
                        let j = choose|j: int| 0 <= j < e@.len() && #[trigger] e@[j].0 == model_id@;
                        assert(self.models@[j].0@ == model_id@);
                    }
                }
                None
            },
        }
    }

    /// The configuration of a model, taken out of the set, when it is
    /// configured.
    pub fn into_model_config(self, model_id: &str) -> (r: Option<ModelConfig>)
        ensures
            match r {
                Some(c) => self@.contains_key(model_id@) && c@ == self@[model_id@] && c.wf(),
                None => !self@.contains_key(model_id@),
            },
    {
        proof {
            use_type_invariant(&self);
        }
        let wanted = String::from_str(model_id);
        let e = Ghost(config_entries(self.models@));
        let ModelConfigs { models } = self;
        let mut models = models;
        match position_of(&models, &wanted) {
            Some(i) => {
                proof {
                    lemma_to_map_index(e@, i as int);
                }
                let entry = models.swap_remove(i);
                Some(entry.1)
            },
            None => {
                proof {
                    lemma_to_map_dom(e@, model_id@);
                    if to_map(e@).contains_key(model_id@) {
                        let j = choose|j: int| 0 <= j < e@.len() && #[trigger] e@[j].0 == model_id@;
                        assert(models@[j].0@ == model_id@);
                    }
                }
                None
            },
        }
    }
}

} // verus!
