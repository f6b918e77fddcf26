use vstd::prelude::*;
use vstd::string::*;
use crate::ai_config::{AIConfig, AIConfigView, SupportedFunctions, SelectionView, position_of, contains_text, lemma_model_lookup};
use crate::text::{lower_of, text_views, lowercase};

verus! {

/// One parameter of a tool: its JSON type and what it means.
pub struct ToolParamProperty {
    pub type_: String,
    pub description: String,
}

/// The parameters a tool function takes.
pub struct FunctionParameters {
    pub type_: String,
    pub properties: Vec<(String, ToolParamProperty)>,
    pub required: Vec<String>,
}

pub struct Function {
    pub name: String,
    pub description: String,
    pub parameters: FunctionParameters,
}

/// A callable tool that can be advertised to a backend.
pub struct Tool {
    pub type_: String,
    pub function: Function,
}

/// The tool catalog, in its declared order.
pub struct Tools {
    pub tools: Vec<Tool>,
}

/// A tool over mathematical values; each property is its name, type and
/// description.
pub struct ToolView {
    pub kind: Seq<char>,
    pub name: Seq<char>,
    pub description: Seq<char>,
    pub parameters_kind: Seq<char>,
    pub properties: Seq<(Seq<char>, Seq<char>, Seq<char>)>,
    pub required: Seq<Seq<char>>,
}

pub open spec fn property_views(p: Seq<(String, ToolParamProperty)>) -> Seq<
    (Seq<char>, Seq<char>, Seq<char>),
> {
    p.map_values(|e: (String, ToolParamProperty)| (e.0@, e.1.type_@, e.1.description@))
}

impl View for Tool {
    type V = ToolView;

    open spec fn view(&self) -> ToolView {
        ToolView {
            kind: self.type_@,
            name: self.function.name@,
            description: self.function.description@,
            parameters_kind: self.function.parameters.type_@,
            properties: property_views(self.function.parameters.properties@),
            required: text_views(self.function.parameters.required@),
        }
    }
}

pub open spec fn tool_views(s: Seq<Tool>) -> Seq<ToolView> {
    s.map_values(|t: Tool| t@)
}

pub open spec fn opt_tool_views(t: Option<Vec<Tool>>) -> Option<Seq<ToolView>> {
    match t {
        Some(v) => Some(tool_views(v@)),
        None => None,
    }
}

fn copy_texts(v: &Vec<String>) -> (r: Vec<String>)
    ensures
        text_views(r@) == text_views(v@),
{
    let mut out: Vec<String> = Vec::new();
    let mut i: usize = 0;
    while i < v.len()
        invariant
            i <= v@.len(),
            out@.len() == i,
            forall|j: int| 0 <= j < i ==> #[trigger] out@[j]@ == v@[j]@,
        decreases v@.len() - i,
    {
        out.push(v[i].clone());
        i += 1;
    }
    assert(text_views(out@) =~= text_views(v@));
    out
}

impl Tool {
    /// A copy of the tool.
    pub fn duplicate(&self) -> (r: Self)
        ensures
            r@ == self@,
    {
        let props = &self.function.parameters.properties;
        let mut out: Vec<(String, ToolParamProperty)> = Vec::new();
        let mut i: usize = 0;
        while i < props.len()
            invariant
                i <= props@.len(),
                out@.len() == i,
                forall|j: int|
                    0 <= j < i ==> (#[trigger] out@[j]).0@ == props@[j].0@ && out@[j].1.type_@
                        == props@[j].1.type_@ && out@[j].1.description@ == props@[j].1.description@,
            decreases props@.len() - i,
        {
            let p = &props[i];
            out.push(
                (
                    p.0.clone(),
                    ToolParamProperty {
                        type_: p.1.type_.clone(),
                        description: p.1.description.clone(),
                    },
                ),
            );
            i += 1;
        }
        assert(property_views(out@) =~= property_views(props@));
        Tool {
            type_: self.type_.clone(),
            function: Function {
                name: self.function.name.clone(),
                description: self.function.description.clone(),
                parameters: FunctionParameters {
                    type_: self.function.parameters.type_.clone(),
                    properties: out,
                    required: copy_texts(&self.function.parameters.required),
                },
            },
        }
    }
}

/// The tools of the catalog whose name is among `names`, in catalog order.
pub open spec fn tools_named(catalog: Seq<ToolView>, names: Seq<Seq<char>>) -> Seq<ToolView>
    decreases catalog.len(),
{
    if catalog.len() == 0 {
        Seq::empty()
    } else {
        let rest = tools_named(catalog.drop_last(), names);
        if names.contains(catalog.last().name) {
            rest.push(catalog.last())
        } else {
            rest
        }
    }
}

/// The tools that a selection attaches: nothing for `NONE`, the whole catalog
/// for `ALL`, the named ones for a list; nothing where the catalog is missing.
pub open spec fn common_tools(catalog: Option<Seq<ToolView>>, sel: SelectionView) -> Option<
    Seq<ToolView>,
> {
    match sel {
        SelectionView::Nothing => None,
        SelectionView::Every => catalog,
        SelectionView::Named(names) => match catalog {
            Some(c) => Some(tools_named(c, names)),
            None => None,
        },
    }
}

pub struct ToolManagerView {
    pub catalog: Option<Seq<ToolView>>,
    pub config: AIConfigView,
}

/// The tools that a model of a platform may use. An unknown platform gets
/// none; an unknown model falls back once to the model `default`, unless its
/// id, in lower case (`folded`), is `default` already.
pub open spec fn resolved_tools(
    m: ToolManagerView,
    platform: Seq<char>,
    model: Seq<char>,
    folded: Seq<char>,
) -> Option<Seq<ToolView>> {
    if !m.config.platforms.contains_key(platform) {
        None
    } else {
        let models = m.config.platforms[platform].models;
        if models.contains_key(model) {
            common_tools(m.catalog, models[model].tools)
        } else if folded == "default"@ {
            None
        } else if models.contains_key("default"@) {
            common_tools(m.catalog, models["default"@].tools)
        } else {
            None
        }
    }
}

/// A model id that a platform does not list resolves as `default` does, when
/// the platform lists `default` and the id is not `default` in lower case;
/// when the platform lists neither, it resolves to nothing.
pub proof fn lemma_default_fallback(m: ToolManagerView, platform: Seq<char>, model: Seq<char>)
    requires
        m.config.platforms.contains_key(platform),
        !m.config.platforms[platform].models.contains_key(model),
    ensures
        m.config.platforms[platform].models.contains_key("default"@) && lower_of(model)
            != "default"@ ==> resolved_tools(m, platform, model, lower_of(model)) == resolved_tools(
            m,
            platform,
            "default"@,
            lower_of("default"@),
        ),
        !m.config.platforms[platform].models.contains_key("default"@) ==> resolved_tools(
            m,
            platform,
            model,
            lower_of(model),
        ) is None,
{
}

/// The tool catalog together with the platform configuration.
pub struct AIToolManager {
    tools: Option<Tools>,
    ai_config: AIConfig,
}

impl View for AIToolManager {
    type V = ToolManagerView;

    closed spec fn view(&self) -> ToolManagerView {
        ToolManagerView {
            catalog: match self.tools {
                Some(t) => Some(tool_views(t.tools@)),
                None => None,
            },
            config: self.ai_config@,
        }
    }
}

impl AIToolManager {
    /// A manager over a catalog (`None` when it could not be loaded) and a
    /// configuration.
    pub fn new(tools: Option<Tools>, ai_config: AIConfig) -> (r: Self)
        ensures
            r@.catalog == match tools {
                Some(t) => Some(tool_views(t.tools@)),
                None => None,
            },
            r@.config == ai_config@,
    {
        AIToolManager { tools, ai_config }
    }

    /// The catalog's tools, when it was loaded.
    pub fn get_catalog(&self) -> (r: Option<&Vec<Tool>>)
        ensures
            match r {
                Some(v) => self@.catalog == Some(tool_views(v@)),
                None => self@.catalog is None,
            },
    {
        match &self.tools {
            Some(t) => Some(&t.tools),
            None => None,
        }
    }

    /// The tools that a model of a platform may use.
    pub fn get_tools(&self, platform_name: &String, model_id: &String) -> (r: Option<Vec<Tool>>)
        ensures
            opt_tool_views(r) == resolved_tools(self@, platform_name@, model_id@, lower_of(model_id@)),
    {
        let folded = lowercase(model_id.as_str());
        self.get_tools_folded(platform_name, model_id, &folded)
    }

    /// The tools that a model of a platform may use, given `folded_model_id`,
    /// the model id in lower case.
    pub fn get_tools_folded(
        &self,
        platform_name: &String,
        model_id: &String,
        folded_model_id: &String,
    ) -> (r: Option<Vec<Tool>>)
        ensures
            opt_tool_views(r) == resolved_tools(
                self@,
                platform_name@,
                model_id@,
                folded_model_id@,
            ),
    {
        match self.ai_config.get_models(platform_name) {
            None => None,
            Some(models) => {
                let found = position_of(models, model_id);
                proof {
                    lemma_model_lookup(models@, model_id@, found);
                }
                match found {
                    Some(i) => self.get_common_tools(models[i].1.tools.duplicate()),
                    None => {
                        let fallback = String::from_str("default");
                        if *folded_model_id == fallback {
                            None
                        } else {
                            let found_default = position_of(models, &fallback);
                            proof {
                                lemma_model_lookup(models@, fallback@, found_default);
                            }
                            match found_default {
                                Some(j) => self.get_common_tools(models[j].1.tools.duplicate()),
                                None => None,
                            }
                        }
                    },
                }
            },
        }
    }

    /// The catalog's tools that a selection attaches, in catalog order.
    pub fn get_common_tools(&self, functions: SupportedFunctions) -> (r: Option<Vec<Tool>>)
        ensures
            opt_tool_views(r) == common_tools(self@.catalog, functions@),
    {
        let catalog = match &self.tools {
            Some(t) => &t.tools,
            None => {
                return None;
            },
        };
        let mut out: Vec<Tool> = Vec::new();
        let mut i: usize = 0;
        match &functions {
            SupportedFunctions::NONE => {
                return None;
            },
            _ => {},
        }
        let ghost wanted = match functions@ {
            SelectionView::Named(n) => n,
            _ => Seq::empty(),
        };
        proof {
            assert(tool_views(catalog@).take(0) =~= Seq::<ToolView>::empty());
            assert(tool_views(out@) =~= Seq::<ToolView>::empty());
        }
        while i < catalog.len()
            invariant
                i <= catalog@.len(),
                functions@ != SelectionView::Nothing,
                functions@ == SelectionView::Every ==> tool_views(out@) == tool_views(catalog@).take(
                    i as int,
                ),
                functions@ == SelectionView::Named(wanted) || functions@ == SelectionView::Every,
                functions@ == SelectionView::Named(wanted) ==> tool_views(out@) == tools_named(
                    tool_views(catalog@).take(i as int),
                    wanted,
                ),
            decreases catalog@.len() - i,
        {
            let keep = match &functions {
                SupportedFunctions::Functions(names) => contains_text(
                    names,
                    &catalog[i].function.name,
                ),
                _ => true,
            };
            let ghost before = out@;
            if keep {
                out.push(catalog[i].duplicate());
                proof {
                    assert(tool_views(out@) =~= tool_views(before).push(catalog@[i as int]@));
                }
            }
            proof {
                assert(tool_views(catalog@).take(i + 1) =~= tool_views(catalog@).take(i as int).push(
                    catalog@[i as int]@,
                ));
                if functions@ == SelectionView::Named(wanted) {
                    assert(keep == wanted.contains(catalog@[i as int]@.name));
                }
                assert(tool_views(catalog@).take(i + 1).drop_last() =~= tool_views(catalog@).take(
                    i as int,
                ));
            }
            i += 1;
        }
        proof {
            assert(tool_views(catalog@).take(catalog@.len() as int) =~= tool_views(catalog@));
        }
        Some(out)
    }
}

} // verus!
