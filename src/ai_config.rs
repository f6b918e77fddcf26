use vstd::prelude::*;
use vstd::string::*;
use crate::assoc::{keys_unique, to_map, lemma_to_map_push, lemma_to_map_dom, lemma_to_map_index, lemma_to_map_update};
use crate::config_node::{ConfigNode, or_null, text_or, text_or_default, bool_or, child_of, integer_of};
use crate::text::{upper_of, trim_of, split_on, text_views, uppercase, trimmed, split_text};

verus! {

pub const DEFAULT_NAME: &'static str = "BachuetechAI";

pub const DEFAULT_PORT: u16 = 11434;

pub const DEFAULT_MAX_CTX_SIZE: usize = 5;

// ---------------------------------------------------------------------------
// Tool selection
// ---------------------------------------------------------------------------

/// Which tools of the catalog a model may use.
#[derive(Debug, PartialEq, Clone)]
pub enum SupportedFunctions {
    ALL,
    NONE,
    Functions(Vec<String>),
}

/// A tool selection over mathematical values.
pub enum SelectionView {
    Every,
    Nothing,
    Named(Seq<Seq<char>>),
}

impl View for SupportedFunctions {
    type V = SelectionView;

    open spec fn view(&self) -> SelectionView {
        match self {
            SupportedFunctions::ALL => SelectionView::Every,
            SupportedFunctions::NONE => SelectionView::Nothing,
            SupportedFunctions::Functions(names) => SelectionView::Named(text_views(names@)),
        }
    }
}

/// The texts of `s` with later repetitions left out.
pub open spec fn dedup(s: Seq<Seq<char>>) -> Seq<Seq<char>>
    decreases s.len(),
{
    if s.len() == 0 {
        s
    } else {
        let d = dedup(s.drop_last());
        if d.contains(s.last()) {
            d
        } else {
            d.push(s.last())
        }
    }
}

pub proof fn lemma_dedup_no_duplicates(s: Seq<Seq<char>>)
    ensures
        dedup(s).no_duplicates(),
    decreases s.len(),
{
    if s.len() > 0 {
        lemma_dedup_no_duplicates(s.drop_last());
    }
}

/// Each text trimmed.
pub open spec fn trim_all(s: Seq<Seq<char>>) -> Seq<Seq<char>> {
    s.map_values(|t: Seq<char>| trim_of(t))
}

/// The names of a comma-separated list: each piece trimmed, repetitions
/// left out.
pub open spec fn names_from_list(s: Seq<char>) -> Seq<Seq<char>> {
    dedup(trim_all(split_on(s, ',')))
}

/// A selection written as text: `ALL` or `NONE` in any case (`upper` is the
/// text in upper case), otherwise a comma-separated list of names.
pub open spec fn selection_from_text(upper: Seq<char>, s: Seq<char>) -> SelectionView {
    if upper == "ALL"@ {
        SelectionView::Every
    } else if upper == "NONE"@ {
        SelectionView::Nothing
    } else {
        SelectionView::Named(names_from_list(s))
    }
}

/// The texts among a list's items, in order.
pub open spec fn list_texts(items: Seq<ConfigNode>) -> Seq<Seq<char>>
    decreases items.len(),
{
    if items.len() == 0 {
        Seq::empty()
    } else {
        let rest = list_texts(items.drop_last());
        match items.last() {
            ConfigNode::Text(t) => rest.push(t@),
            _ => rest,
        }
    }
}

/// A selection in a configuration document: the text `ALL` or `NONE`, or a
/// list of names; any other node names no tool.
pub open spec fn selection_from_node(n: ConfigNode) -> SelectionView {
    if n.text() == Some("ALL"@) {
        SelectionView::Every
    } else if n.text() == Some("NONE"@) {
        SelectionView::Nothing
    } else {
        SelectionView::Named(dedup(trim_all(list_texts(n.items()))))
    }
}

/// Whether `x` is one of the texts of `v`.
pub(crate) fn contains_text(v: &Vec<String>, x: &String) -> (r: bool)
    ensures
        r == text_views(v@).contains(x@),
{
    let mut i: usize = 0;
    while i < v.len()
        invariant
            i <= v@.len(),
            forall|j: int| 0 <= j < i ==> v@[j]@ != x@,
        decreases v@.len() - i,
    {
        if v[i] == *x {
            assert(text_views(v@)[i as int] == x@);
            return true;
        }
        i += 1;
    }
    proof {
        if text_views(v@).contains(x@) {
            let k = choose|k: int| 0 <= k < text_views(v@).len() && text_views(v@)[k] == x@;
            assert(v@[k]@ == x@);
        }
    }
    false
}

/// Leaves out repeated names, keeping the first of each, in order.
pub fn dedup_names(names: &Vec<String>) -> (r: Vec<String>)
    ensures
        text_views(r@) == dedup(text_views(names@)),
        text_views(r@).no_duplicates(),
{
    let mut out: Vec<String> = Vec::new();
    let mut i: usize = 0;
    proof {
        assert(text_views(names@).take(0) =~= Seq::<Seq<char>>::empty());
        assert(text_views(out@) =~= Seq::<Seq<char>>::empty());
    }
    while i < names.len()
        invariant
            i <= names@.len(),
            text_views(out@) == dedup(text_views(names@).take(i as int)),
        decreases names@.len() - i,
    {
        let ghost prefix = text_views(names@).take(i + 1);
        proof {
            assert(prefix.drop_last() =~= text_views(names@).take(i as int));
            assert(prefix.last() == names@[i as int]@);
        }
        if !contains_text(&out, &names[i]) {
            let ghost before = out@;
            out.push(names[i].clone());
            proof {
                assert(text_views(out@) =~= text_views(before).push(names@[i as int]@));
            }
        }
        i += 1;
    }
    proof {
        assert(text_views(names@).take(names@.len() as int) =~= text_views(names@));
        lemma_dedup_no_duplicates(text_views(names@));
    }
    out
}

/// Each name trimmed.
fn trim_names(raw: &Vec<String>) -> (r: Vec<String>)
    ensures
        text_views(r@) == trim_all(text_views(raw@)),
{
    let mut out: Vec<String> = Vec::new();
    let mut i: usize = 0;
    while i < raw.len()
        invariant
            i <= raw@.len(),
            out@.len() == i,
            forall|j: int| 0 <= j < i ==> #[trigger] out@[j]@ == trim_of(raw@[j]@),
        decreases raw@.len() - i,
    {
        out.push(trimmed(raw[i].as_str()).to_owned());
        i += 1;
    }
    assert(text_views(out@) =~= trim_all(text_views(raw@)));
    out
}

/// Trims each name and leaves out repetitions, keeping the first of each.
pub fn normalize_names(raw: &Vec<String>) -> (r: Vec<String>)
    ensures
        text_views(r@) == dedup(trim_all(text_views(raw@))),
        text_views(r@).no_duplicates(),
{
    dedup_names(&trim_names(raw))
}

impl SupportedFunctions {
    /// The names of a comma-separated list.
    pub fn from_str_list(s: &str) -> (r: Self)
        ensures
            r@ == SelectionView::Named(names_from_list(s@)),
            names_from_list(s@).no_duplicates(),
    {
        let pieces = split_text(s, ',');
        SupportedFunctions::Functions(normalize_names(&pieces))
    }

    /// The selection that the text `s` writes, given `upper`, the text in
    /// upper case.
    pub fn from_folded(upper: &String, s: &String) -> (r: Self)
        ensures
            r@ == selection_from_text(upper@, s@),
            r@ matches SelectionView::Named(names) ==> names.no_duplicates(),
    {
        let all = String::from_str("ALL");
        let none = String::from_str("NONE");
        if *upper == all {
            SupportedFunctions::ALL
        } else if *upper == none {
            SupportedFunctions::NONE
        } else {
            SupportedFunctions::from_str_list(s.as_str())
        }
    }

    /// The selection that a configuration node writes.
    pub fn from_config(node: &ConfigNode) -> (r: Self)
        ensures
            r@ == selection_from_node(*node),
            r@ matches SelectionView::Named(names) ==> names.no_duplicates(),
    {
        match node {
            ConfigNode::Text(t) => {
                let all = String::from_str("ALL");
                let none = String::from_str("NONE");
                if *t == all {
                    return SupportedFunctions::ALL;
                } else if *t == none {
                    return SupportedFunctions::NONE;
                }
            },
            _ => {},
        }
        let raw = texts_of_list(node);
        SupportedFunctions::Functions(normalize_names(&raw))
    }

    /// A copy of the selection.
    pub fn duplicate(&self) -> (r: Self)
        ensures
            r@ == self@,
    {
        match self {
            SupportedFunctions::ALL => SupportedFunctions::ALL,
            SupportedFunctions::NONE => SupportedFunctions::NONE,
            SupportedFunctions::Functions(names) => {
                let mut out: Vec<String> = Vec::new();
                let mut i: usize = 0;
                while i < names.len()
                    invariant
                        i <= names@.len(),
                        out@.len() == i,
                        forall|j: int| 0 <= j < i ==> #[trigger] out@[j]@ == names@[j]@,
                    decreases names@.len() - i,
                {
                    out.push(names[i].clone());
                    i += 1;
                }
                assert(text_views(out@) =~= text_views(names@));
                SupportedFunctions::Functions(out)
            },
        }
    }
}

impl From<String> for SupportedFunctions {
    /// `ALL` and `NONE` in any case, otherwise a comma-separated list.
    fn from(s: String) -> (r: Self)
        ensures
            r@ == selection_from_text(upper_of(s@), s@),
            r@ matches SelectionView::Named(names) ==> names.no_duplicates(),
    {
        let upper = uppercase(s.as_str());
        SupportedFunctions::from_folded(&upper, &s)
    }
}

impl vstd::std_specs::convert::FromSpecImpl<String> for SupportedFunctions {
    /// The result holds a `Vec`, which no spec value pins down: `from`
    /// states it through the view instead.
    open spec fn obeys_from_spec() -> bool {
        false
    }

    open spec fn from_spec(v: String) -> Self {
        SupportedFunctions::NONE
    }
}

/// The texts among the items of a list node.
fn texts_of_list(node: &ConfigNode) -> (r: Vec<String>)
    ensures
        text_views(r@) == list_texts(node.items()),
{
    let mut out: Vec<String> = Vec::new();
    match node {
        ConfigNode::List(items) => {
            let mut i: usize = 0;
            proof {
                assert(items@.take(0) =~= Seq::<ConfigNode>::empty());
                assert(text_views(out@) =~= Seq::<Seq<char>>::empty());
            }
            while i < items.len()
                invariant
                    i <= items@.len(),
                    text_views(out@) == list_texts(items@.take(i as int)),
                decreases items@.len() - i,
            {
                proof {
                    assert(items@.take(i + 1).drop_last() =~= items@.take(i as int));
                }
                match &items[i] {
                    ConfigNode::Text(t) => {
                        let ghost before = out@;
                        out.push(t.clone());
                        proof {
                            assert(text_views(out@) =~= text_views(before).push(t@));
                        }
                    },
                    _ => {},
                }
                i += 1;
            }
            proof {
                assert(items@.take(items@.len() as int) =~= items@);
            }
        },
        _ => {},
    }
    out
}

// ---------------------------------------------------------------------------
// Platforms and models
// ---------------------------------------------------------------------------

/// The configuration of one model of a platform.
pub struct Model {
    pub model: String,
    pub tool_support: bool,
    pub system: String,
    pub tools: SupportedFunctions,
}

pub struct ModelView {
    pub model: Seq<char>,
    pub tool_support: bool,
    pub system: Seq<char>,
    pub tools: SelectionView,
}

impl View for Model {
    type V = ModelView;

    open spec fn view(&self) -> ModelView {
        ModelView {
            model: self.model@,
            tool_support: self.tool_support,
            system: self.system@,
            tools: self.tools@,
        }
    }
}

/// The API settings of a platform.
pub struct AIApis {
    pub ctx_max: usize,
    pub path: String,
    pub chat: String,
    pub generate: String,
    pub models: String,
}

pub struct ApisView {
    pub ctx_max: usize,
    pub path: Seq<char>,
    pub chat: Seq<char>,
    pub generate: Seq<char>,
    pub models: Seq<char>,
}

/// A backend deployment: its API settings, its base URL and its models by id.
pub struct Platform {
    pub api: AIApis,
    pub ai_url: String,
    pub models: Vec<(String, Model)>,
}

pub struct PlatformView {
    pub api: ApisView,
    pub url: Seq<char>,
    pub models: Map<Seq<char>, ModelView>,
}

pub open spec fn model_entries(s: Seq<(String, Model)>) -> Seq<(Seq<char>, ModelView)> {
    s.map_values(|e: (String, Model)| (e.0@, e.1@))
}

impl View for Platform {
    type V = PlatformView;

    open spec fn view(&self) -> PlatformView {
        PlatformView {
            api: ApisView {
                ctx_max: self.api.ctx_max,
                path: self.api.path@,
                chat: self.api.chat@,
                generate: self.api.generate@,
                models: self.api.models@,
            },
            url: self.ai_url@,
            models: to_map(model_entries(self.models@)),
        }
    }
}

/// The kinds of interaction a platform serves, each at its own endpoint.
pub enum InteractionType {
    Chat,
    Generate,
    Models,
}

/// The platforms of one environment, by name.
pub struct AIConfig {
    name: String,
    platforms: Vec<(String, Platform)>,
}

pub struct AIConfigView {
    pub name: Seq<char>,
    pub platforms: Map<Seq<char>, PlatformView>,
}

pub open spec fn platform_entries(s: Seq<(String, Platform)>) -> Seq<(Seq<char>, PlatformView)> {
    s.map_values(|e: (String, Platform)| (e.0@, e.1@))
}

impl View for AIConfig {
    type V = AIConfigView;

    closed spec fn view(&self) -> AIConfigView {
        AIConfigView { name: self.name@, platforms: to_map(platform_entries(self.platforms@)) }
    }
}

// --- what a configuration document says -----------------------------------

pub open spec fn digit_char(d: nat) -> char {
    if d == 0 {
        '0'
    } else if d == 1 {
        '1'
    } else if d == 2 {
        '2'
    } else if d == 3 {
        '3'
    } else if d == 4 {
        '4'
    } else if d == 5 {
        '5'
    } else if d == 6 {
        '6'
    } else if d == 7 {
        '7'
    } else if d == 8 {
        '8'
    } else {
        '9'
    }
}

/// The decimal digits of `n`, without leading zeros.
pub open spec fn decimal(n: nat) -> Seq<char>
    decreases n,
{
    if n < 10 {
        seq![digit_char(n)]
    } else {
        decimal(n / 10).push(digit_char(n % 10))
    }
}

/// The port of a platform: the configured one when it is an integer in
/// `0..=65535`, the default port otherwise.
pub open spec fn port_setting(p: ConfigNode) -> u16 {
    match p.at("server"@).at("port"@).integer() {
        Some(n) => if 0 <= n <= 65535 {
            n as u16
        } else {
            DEFAULT_PORT
        },
        None => DEFAULT_PORT,
    }
}

/// The context limit of a platform: the configured one when it is a positive
/// integer that fits, the default otherwise.
pub open spec fn ctx_max_setting(p: ConfigNode) -> usize {
    match p.at("api"@).at("ctx_max"@).integer() {
        Some(c) => if 0 < c && c <= usize::MAX {
            c as usize
        } else {
            DEFAULT_MAX_CTX_SIZE
        },
        None => DEFAULT_MAX_CTX_SIZE,
    }
}

/// `scheme://host:port/path/`, the scheme `https` when `secure`.
pub open spec fn base_url(host: Seq<char>, port: u16, secure: bool, path: Seq<char>) -> Seq<char> {
    (if secure {
        "https://"@
    } else {
        "http://"@
    }) + host + ":"@ + decimal(port as nat) + "/"@ + path + "/"@
}

pub open spec fn api_setting(p: ConfigNode) -> ApisView {
    let api = p.at("api"@);
    ApisView {
        ctx_max: ctx_max_setting(p),
        path: text_or_default(api.at("path"@), "api"@),
        chat: text_or_default(api.at("chat"@), "chat"@),
        generate: text_or_default(api.at("generate"@), "generate"@),
        models: text_or_default(api.at("models"@), "models"@),
    }
}

pub open spec fn model_key(m: ConfigNode) -> Seq<char> {
    text_or_default(m.at("model_id"@), "default"@)
}

pub open spec fn model_setting(m: ConfigNode) -> ModelView {
    ModelView {
        model: text_or_default(m.at("model"@), model_key(m)),
        tool_support: match m.at("tool_support"@).boolean() {
            Some(b) => b,
            None => false,
        },
        system: text_or_default(m.at("system"@), "You are an AI assistance"@),
        tools: selection_from_node(m.at("tools"@)),
    }
}

pub open spec fn model_settings(items: Seq<ConfigNode>) -> Seq<(Seq<char>, ModelView)> {
    items.map_values(|m: ConfigNode| (model_key(m), model_setting(m)))
}

pub open spec fn platform_key(p: ConfigNode) -> Seq<char> {
    text_or_default(p.at("name"@), "default"@)
}

pub open spec fn platform_setting(p: ConfigNode) -> PlatformView {
    let server = p.at("server"@);
    let api = api_setting(p);
    PlatformView {
        api,
        url: base_url(
            text_or_default(server.at("host"@), "localhost"@),
            port_setting(p),
            match server.at("secure"@).boolean() {
                Some(b) => b,
                None => true,
            },
            api.path,
        ),
        models: to_map(model_settings(p.at("models"@).items())),
    }
}

pub open spec fn platform_settings(items: Seq<ConfigNode>) -> Seq<(Seq<char>, PlatformView)> {
    items.map_values(|p: ConfigNode| (platform_key(p), platform_setting(p)))
}

/// The configuration that the section `env` of a document describes.
pub open spec fn config_setting(doc: ConfigNode, env: Seq<char>) -> AIConfigView {
    AIConfigView {
        name: text_or_default(doc.at("name"@), DEFAULT_NAME@),
        platforms: to_map(platform_settings(doc.at(env).at("platforms"@).items())),
    }
}

/// The URL of an interaction: the platform's base URL and endpoint, or a
/// fixed fallback for a platform that is not configured.
pub open spec fn url_for(cfg: AIConfigView, name: Seq<char>, kind: InteractionType) -> Seq<char> {
    if cfg.platforms.contains_key(name) {
        let p = cfg.platforms[name];
        p.url + match kind {
            InteractionType::Chat => p.api.chat,
            InteractionType::Generate => p.api.generate,
            InteractionType::Models => p.api.models,
        }
    } else {
        match kind {
            InteractionType::Chat => "http://localhost/default/chat"@,
            InteractionType::Generate => "http://localhost/default/generate"@,
            InteractionType::Models => "http://localhost/default/models"@,
        }
    }
}

// --- reading a document ------------------------------------------------------

/// No two entries share a key.
pub open spec fn string_keys_unique<V>(s: Seq<(String, V)>) -> bool {
    forall|i: int, j: int| 0 <= i < j < s.len() ==> #[trigger] s[i].0@ != #[trigger] s[j].0@
}

/// Relies on `String::push`: appends one character.
#[verifier::external_body]
fn push_char(s: &mut String, c: char)
    ensures
        final(s)@ == old(s)@.push(c),
{
    s.push(c)
}

fn digit(d: u16) -> (c: char)
    requires
        d < 10,
    ensures
        c == digit_char(d as nat),
{
    match d {
        0 => '0',
        1 => '1',
        2 => '2',
        3 => '3',
        4 => '4',
        5 => '5',
        6 => '6',
        7 => '7',
        8 => '8',
        _ => '9',
    }
}

fn push_decimal(out: &mut String, n: u16)
    ensures
        final(out)@ == old(out)@ + decimal(n as nat),
    decreases n,
{
    if n >= 10 {
        push_decimal(out, n / 10);
    }
    push_char(out, digit(n % 10));
    proof {
        if n >= 10 {
            assert(decimal(n as nat) == decimal((n / 10) as nat).push(digit_char((n % 10) as nat)));
        }
    }
}

/// Assembles `scheme://host:port/path/`.
pub fn build_base_url(host: &String, port: u16, secure: bool, path: &String) -> (r: String)
    ensures
        r@ == base_url(host@, port, secure, path@),
{
    let mut url = if secure {
        String::from_str("https://")
    } else {
        String::from_str("http://")
    };
    url.append(host.as_str());
    url.append(":");
    push_decimal(&mut url, port);
    url.append("/");
    url.append(path.as_str());
    url.append("/");
    url
}

fn read_port(p: &ConfigNode) -> (r: u16)
    ensures
        r == port_setting(*p),
{
    match integer_of(child_of(p.child("server"), "port")) {
        Some(n) => if 0 <= n && n <= 65535 {
            n as u16
        } else {
            DEFAULT_PORT
        },
        None => DEFAULT_PORT,
    }
}

fn read_ctx_max(p: &ConfigNode) -> (r: usize)
    ensures
        r == ctx_max_setting(*p),
{
    match integer_of(child_of(p.child("api"), "ctx_max")) {
        Some(c) => if c > 0 && c as u64 <= usize::MAX as u64 {
            c as usize
        } else {
            DEFAULT_MAX_CTX_SIZE
        },
        None => DEFAULT_MAX_CTX_SIZE,
    }
}

fn read_model(m: &ConfigNode) -> (r: (String, Model))
    ensures
        r.0@ == model_key(*m),
        r.1@ == model_setting(*m),
{
    let id = text_or(m.child("model_id"), "default");
    let shown = match m.child("model") {
        Some(n) => match n.as_text() {
            Some(t) => t.clone(),
            None => id.clone(),
        },
        None => id.clone(),
    };
    let model = Model {
        model: shown,
        tool_support: bool_or(m.child("tool_support"), false),
        system: text_or(m.child("system"), "You are an AI assistance"),
        tools: match m.child("tools") {
            Some(t) => SupportedFunctions::from_config(t),
            None => SupportedFunctions::from_config(&ConfigNode::Null),
        },
    };
    (id, model)
}

/// Sets the value under `key`: replaces the entry that has that key, or adds
/// one at the end.
pub(crate) fn put_entry<V>(entries: &mut Vec<(String, V)>, key: String, value: V)
    requires
        string_keys_unique(old(entries)@),
    ensures
        string_keys_unique(final(entries)@),
        (forall|j: int| 0 <= j < old(entries)@.len() ==> old(entries)@[j].0@ != key@)
            ==> final(entries)@ == old(entries)@.push((key, value)),
        forall|j: int|
            0 <= j < old(entries)@.len() && old(entries)@[j].0@ == key@ ==> final(entries)@
                == old(entries)@.update(j, (key, value)),
{
    let mut i: usize = 0;
    while i < entries.len()
        invariant
            i <= entries@.len(),
            entries@ == old(entries)@,
            string_keys_unique(old(entries)@),
            forall|j: int| 0 <= j < i ==> entries@[j].0@ != key@,
        decreases entries@.len() - i,
    {
        if entries[i].0 == key {
            let ghost k = key@;
            entries.set(i, (key, value));
            proof {
                assert forall|j: int|
                    0 <= j < old(entries)@.len() && old(entries)@[j].0@ == k implies j == i by {
                    if j != i {
                        assert(old(entries)@[j].0@ != old(entries)@[i as int].0@);
                    }
                }
                assert forall|a: int, b: int|
                    0 <= a < b < final(entries)@.len() implies #[trigger] final(entries)@[a].0@
                    != #[trigger] final(entries)@[b].0@ by {
                    assert(old(entries)@[a].0@ != old(entries)@[b].0@);
                }
            }
            return;
        }
        i += 1;
    }
    entries.push((key, value));
}

fn read_platform(p: &ConfigNode) -> (r: (String, Platform))
    ensures
        r.1.api.ctx_max >= 1,
        r.0@ == platform_key(*p),
        r.1@ == platform_setting(*p),
        keys_unique(model_entries(r.1.models@)),
{
    let server = p.child("server");
    let api_node = p.child("api");
    let api = AIApis {
        ctx_max: read_ctx_max(p),
        path: text_or(child_of(api_node, "path"), "api"),
        chat: text_or(child_of(api_node, "chat"), "chat"),
        generate: text_or(child_of(api_node, "generate"), "generate"),
        models: text_or(child_of(api_node, "models"), "models"),
    };
    let host = text_or(child_of(server, "host"), "localhost");
    let secure = bool_or(child_of(server, "secure"), true);
    let url = build_base_url(&host, read_port(p), secure, &api.path);
    let mut models: Vec<(String, Model)> = Vec::new();
    let listed = p.child("models");
    match listed {
        Some(ConfigNode::List(items)) => {
            let mut i: usize = 0;
            proof {
                assert(model_settings(items@).take(0) =~= Seq::<(Seq<char>, ModelView)>::empty());
                assert(model_entries(models@) =~= Seq::<(Seq<char>, ModelView)>::empty());
            }
            while i < items.len()
                invariant
                    i <= items@.len(),
                    string_keys_unique(models@),
                    keys_unique(model_entries(models@)),
                    to_map(model_entries(models@)) == to_map(model_settings(items@).take(i as int)),
                decreases items@.len() - i,
            {
                let (key, model) = read_model(&items[i]);
                let ghost before = models@;
                let ghost k = key@;
                let ghost w = model@;
                let ghost gk = key;
                let ghost gm = model;
                put_entry(&mut models, key, model);
                proof {
                    let prefix = model_settings(items@).take(i + 1);
                    assert(prefix.drop_last() =~= model_settings(items@).take(i as int));
                    assert(prefix.last() == (k, w));
                    lemma_to_map_push(model_settings(items@).take(i as int), k, w);
                    assert(prefix =~= model_settings(items@).take(i as int).push((k, w)));
                    if exists|j: int| 0 <= j < before.len() && before[j].0@ == k {
                        let j = choose|j: int| 0 <= j < before.len() && before[j].0@ == k;
                        assert(models@ == before.update(j, (gk, gm)));
                        assert(model_entries(models@) =~= model_entries(before).update(j, (k, w)));
                        lemma_to_map_update(model_entries(before), j, w);
                    } else {
                        assert(model_entries(models@) =~= model_entries(before).push((k, w)));
                        lemma_to_map_push(model_entries(before), k, w);
                    }
                }
                i += 1;
            }
            proof {
                assert(model_settings(items@).take(items@.len() as int) =~= model_settings(items@));
            }
        },
        _ => {
            proof {
                assert(model_settings(or_null(listed).items()) =~= Seq::<(Seq<char>, ModelView)>::empty());
            }
        },
    }
    let name = text_or(p.child("name"), "default");
    (name, Platform { api, ai_url: url, models })
}

/// The index of the entry with key `key`, if there is one.
pub fn position_of<V>(entries: &Vec<(String, V)>, key: &String) -> (r: Option<usize>)
    ensures
        match r {
            Some(i) => i < entries@.len() && entries@[i as int].0@ == key@ && forall|j: int|
                0 <= j < i ==> entries@[j].0@ != key@,
            None => forall|j: int| 0 <= j < entries@.len() ==> entries@[j].0@ != key@,
        },
{
    let mut i: usize = 0;
    while i < entries.len()
        invariant
            i <= entries@.len(),
            forall|j: int| 0 <= j < i ==> entries@[j].0@ != key@,
        decreases entries@.len() - i,
    {
        if entries[i].0 == *key {
            return Some(i);
        }
        i += 1;
    }
    None
}

/// The model entries of a platform's list, as a map, when their keys are
/// unique: looking a key up finds its entry, and a key that no entry has is
/// not in the map.
pub proof fn lemma_model_lookup(models: Seq<(String, Model)>, key: Seq<char>, found: Option<usize>)
    requires
        keys_unique(model_entries(models)),
        match found {
            Some(i) => i < models.len() && models[i as int].0@ == key,
            None => forall|j: int| 0 <= j < models.len() ==> models[j].0@ != key,
        },
    ensures
        match found {
            Some(i) => to_map(model_entries(models)).contains_key(key) && to_map(
                model_entries(models),
            )[key] == models[i as int].1@,
            None => !to_map(model_entries(models)).contains_key(key),
        },
{
    let e = model_entries(models);
    match found {
        Some(i) => {
            lemma_to_map_index(e, i as int);
        },
        None => {
            lemma_to_map_dom(e, key);
            if to_map(e).contains_key(key) {
                let j = choose|j: int| 0 <= j < e.len() && #[trigger] e[j].0 == key;
                assert(models[j].0@ == key);
            }
        },
    }
}

impl AIConfig {
    #[verifier::type_invariant]
    closed spec fn inv(&self) -> bool {
        &&& string_keys_unique(self.platforms@)
        &&& keys_unique(platform_entries(self.platforms@))
        &&& forall|i: int|
            0 <= i < self.platforms@.len() ==> keys_unique(
                model_entries(#[trigger] self.platforms@[i].1.models@),
            ) && self.platforms@[i].1.api.ctx_max >= 1
    }

    /// Reads the section `run_env` of a configuration document: its platforms
    /// with their models, each field with its default where it is missing or
    /// malformed. A later platform or model with an already used name
    /// replaces the earlier one.
    pub fn new(document: &ConfigNode, run_env: &String) -> (r: Self)
        ensures
            r@ == config_setting(*document, run_env@),
    {
        let section = document.child(run_env.as_str());
        let listed = child_of(section, "platforms");
        let mut platforms: Vec<(String, Platform)> = Vec::new();
        match listed {
            Some(ConfigNode::List(items)) => {
                let mut i: usize = 0;
                proof {
                    assert(platform_settings(items@).take(0) =~= Seq::<
                        (Seq<char>, PlatformView),
                    >::empty());
                    assert(platform_entries(platforms@) =~= Seq::<(Seq<char>, PlatformView)>::empty());
                }
                while i < items.len()
                    invariant
                        i <= items@.len(),
                        string_keys_unique(platforms@),
                        keys_unique(platform_entries(platforms@)),
                        forall|j: int|
                            0 <= j < platforms@.len() ==> keys_unique(
                                model_entries(#[trigger] platforms@[j].1.models@),
                            ) && platforms@[j].1.api.ctx_max >= 1,
                        to_map(platform_entries(platforms@)) == to_map(
                            platform_settings(items@).take(i as int),
                        ),
                    decreases items@.len() - i,
                {
                    let (key, platform) = read_platform(&items[i]);
                    let ghost before = platforms@;
                    let ghost k = key@;
                    let ghost w = platform@;
                    let ghost gk = key;
                    let ghost gp = platform;
                    put_entry(&mut platforms, key, platform);
                    proof {
                        let prefix = platform_settings(items@).take(i + 1);
                        assert(prefix =~= platform_settings(items@).take(i as int).push((k, w)));
                        lemma_to_map_push(platform_settings(items@).take(i as int), k, w);
                        if exists|j: int| 0 <= j < before.len() && before[j].0@ == k {
                            let j = choose|j: int| 0 <= j < before.len() && before[j].0@ == k;
                            assert(platforms@ == before.update(j, (gk, gp)));
                            assert(platform_entries(platforms@) =~= platform_entries(before).update(
                                j,
                                (k, w),
                            ));
                            lemma_to_map_update(platform_entries(before), j, w);
                        } else {
                            assert(platforms@ == before.push((gk, gp)));
                            assert(platform_entries(platforms@) =~= platform_entries(before).push(
                                (k, w),
                            ));
                            lemma_to_map_push(platform_entries(before), k, w);
                        }
                        assert forall|j: int| 0 <= j < platforms@.len() implies keys_unique(
                            model_entries(#[trigger] platforms@[j].1.models@),
                        ) && platforms@[j].1.api.ctx_max >= 1 by {
                            if j < before.len() && platforms@[j] == before[j] {
                            } else {
                                assert(platforms@[j].1 == gp);
                            }
                        }
                    }
                    i += 1;
                }
                proof {
                    assert(platform_settings(items@).take(items@.len() as int) =~= platform_settings(
                        items@,
                    ));
                    assert(forall|j: int|
                        0 <= j < platforms@.len() ==> keys_unique(model_entries(#[trigger] platforms@[j].1.models@))
                            && platforms@[j].1.api.ctx_max >= 1);
                }
            },
            _ => {
                proof {
                    assert(platform_settings(or_null(listed).items()) =~= Seq::<
                        (Seq<char>, PlatformView),
                    >::empty());
                }
            },
        }
        AIConfig { name: text_or(document.child("name"), DEFAULT_NAME), platforms }
    }

    /// The platform of that name, when it is configured.
    pub fn get_platform(&self, name: &String) -> (r: Option<&Platform>)
        ensures
            match r {
                Some(p) => self@.platforms.contains_key(name@) && p@ == self@.platforms[name@]
                    && keys_unique(model_entries(p.models@)) && p.api.ctx_max >= 1,
                None => !self@.platforms.contains_key(name@),
            },
    {
        proof {
            use_type_invariant(self);
        }
        let e = Ghost(platform_entries(self.platforms@));
        match position_of(&self.platforms, name) {
            Some(i) => {
                proof {
                    lemma_to_map_index(e@, i as int);
                }
                Some(&self.platforms[i].1)
            },
            None => {
                proof {
                    lemma_to_map_dom(e@, name@);
                    if to_map(e@).contains_key(name@) {
                        let j = choose|j: int| 0 <= j < e@.len() && #[trigger] e@[j].0 == name@;
                        assert(self.platforms@[j].0@ == name@);
                    }
                }
                None
            },
        }
    }

    pub fn get_name(&self) -> (r: &String)
        ensures
            r@ == self@.name,
    {
        &self.name
    }

    /// The URL of an interaction with a platform; a fixed fallback URL for a
    /// platform that is not configured.
    pub fn get_url(&self, platform_name: String, int_type: InteractionType) -> (r: String)
        ensures
            r@ == url_for(self@, platform_name@, int_type),
    {
        match self.get_platform(&platform_name) {
            Some(p) => {
                let mut url = p.ai_url.clone();
                match int_type {
                    InteractionType::Chat => url.append(p.api.chat.as_str()),
                    InteractionType::Generate => url.append(p.api.generate.as_str()),
                    InteractionType::Models => url.append(p.api.models.as_str()),
                }
                url
            },
            None => match int_type {
                InteractionType::Chat => String::from_str("http://localhost/default/chat"),
                InteractionType::Generate => String::from_str("http://localhost/default/generate"),
                InteractionType::Models => String::from_str("http://localhost/default/models"),
            },
        }
    }

    /// The names of the configured platforms, each once.
    pub fn get_platform_list(&self) -> (r: Vec<String>)
        ensures
            text_views(r@).no_duplicates(),
            forall|k: Seq<char>| #[trigger]
                text_views(r@).contains(k) <==> self@.platforms.contains_key(k),
    {
        proof {
            use_type_invariant(self);
        }
        let mut out: Vec<String> = Vec::new();
        let mut i: usize = 0;
        while i < self.platforms.len()
            invariant
                i <= self.platforms@.len(),
                out@.len() == i,
                forall|j: int| 0 <= j < i ==> #[trigger] out@[j]@ == self.platforms@[j].0@,
            decreases self.platforms@.len() - i,
        {
            out.push(self.platforms[i].0.clone());
            i += 1;
        }
        proof {
            let e = platform_entries(self.platforms@);
            assert(text_views(out@) =~= e.map_values(|p: (Seq<char>, PlatformView)| p.0));
            assert forall|k: Seq<char>| #[trigger]
                text_views(out@).contains(k) <==> self@.platforms.contains_key(k) by {
                lemma_to_map_dom(e, k);
                if text_views(out@).contains(k) {
                    let j = choose|j: int| 0 <= j < out@.len() && text_views(out@)[j] == k;
                    assert(e[j].0 == k);
                }
                if self@.platforms.contains_key(k) {
                    let j = choose|j: int| 0 <= j < e.len() && #[trigger] e[j].0 == k;
                    assert(text_views(out@)[j] == k);
                }
            }
            assert forall|a: int, b: int|
                0 <= a < text_views(out@).len() && 0 <= b < text_views(out@).len() && a != b
                    implies text_views(out@)[a] != text_views(out@)[b] by {
                if a < b {
                    assert(e[a].0 != e[b].0);
                } else {
                    assert(e[b].0 != e[a].0);
                }
            }
        }
        out
    }

    /// The models of a platform, when it is configured.
    pub fn get_models(&self, platform_name: &String) -> (r: Option<&Vec<(String, Model)>>)
        ensures
            match r {
                Some(m) => self@.platforms.contains_key(platform_name@) && to_map(
                    model_entries(m@),
                ) == self@.platforms[platform_name@].models && keys_unique(model_entries(m@)),
                None => !self@.platforms.contains_key(platform_name@),
            },
    {
        match self.get_platform(platform_name) {
            Some(p) => Some(&p.models),
            None => None,
        }
    }

    /// The context limit of a platform; 1 for a platform that is not
    /// configured.
    pub fn get_max_ctx_size(&self, platform_name: &String) -> (r: usize)
        ensures
            r >= 1,
            r == if self@.platforms.contains_key(platform_name@) {
                self@.platforms[platform_name@].api.ctx_max
            } else {
                1
            },
    {
        match self.get_platform(platform_name) {
            Some(p) => p.api.ctx_max,
            None => 1,
        }
    }
}

/// A platform whose port is not an integer in `0..=65535` (such as -1 or
/// 70000) is served on the default port.
pub proof fn lemma_malformed_port(p: ConfigNode)
    requires
        match p.at("server"@).at("port"@).integer() {
            Some(n) => n < 0 || n > 65535,
            None => true,
        },
    ensures
        port_setting(p) == DEFAULT_PORT,
        platform_setting(p).url == base_url(
            text_or_default(p.at("server"@).at("host"@), "localhost"@),
            DEFAULT_PORT,
            match p.at("server"@).at("secure"@).boolean() {
                Some(b) => b,
                None => true,
            },
            api_setting(p).path,
        ),
{
}

} // verus!
