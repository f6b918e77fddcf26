use bt_ai_core::ai_config::{AIConfig, SupportedFunctions};
use bt_ai_core::ai_tools::{AIToolManager, Function, FunctionParameters, Tool, ToolParamProperty, Tools};
use bt_ai_core::config_node::ConfigNode;

fn text(s: &str) -> ConfigNode {
    ConfigNode::Text(s.to_owned())
}

fn table(entries: Vec<(&str, ConfigNode)>) -> ConfigNode {
    ConfigNode::Table(entries.into_iter().map(|(k, v)| (k.to_owned(), v)).collect())
}

fn model(id: &str, tools: ConfigNode) -> ConfigNode {
    table(vec![("model_id", text(id)), ("tools", tools)])
}

fn tool(name: &str) -> Tool {
    Tool {
        type_: "function".to_owned(),
        function: Function {
            name: name.to_owned(),
            description: format!("{} tool", name),
            parameters: FunctionParameters {
                type_: "object".to_owned(),
                properties: vec![(
                    "expression".to_owned(),
                    ToolParamProperty { type_: "string".to_owned(), description: "input".to_owned() },
                )],
                required: vec!["expression".to_owned()],
            },
        },
    }
}

fn catalog() -> Tools {
    Tools { tools: vec![tool("get_current_weather"), tool("do_basic_math"), tool("do_math_expressions")] }
}

fn document(extra_models: Vec<ConfigNode>) -> ConfigNode {
    let mut models = vec![
        model("llama3.1", text("ALL")),
        model("tlist", ConfigNode::List(vec![text("do_basic_math")])),
        model("guardian", text("NONE")),
    ];
    models.extend(extra_models);
    let local = table(vec![("name", text("OLLAMALOCAL")), ("models", ConfigNode::List(models))]);
    table(vec![("dev", table(vec![("platforms", ConfigNode::List(vec![local]))]))])
}

fn manager(env: &str) -> AIToolManager {
    AIToolManager::new(Some(catalog()), AIConfig::new(&document(vec![]), &env.to_owned()))
}

fn names(tools: &[Tool]) -> Vec<String> {
    tools.iter().map(|t| t.function.name.clone()).collect()
}

#[test]
fn test_ai_get_tools_ok() {
    let aitm = manager("dev");
    let t = aitm.get_tools(&"OLLAMALOCAL".to_owned(), &"llama3.1".to_owned());
    assert_eq!(t.unwrap().len(), 3);
}

#[test]
fn test_ai_get_tools_list() {
    let aitm = manager("dev");
    let t = aitm.get_tools(&"OLLAMALOCAL".to_owned(), &"tlist".to_owned());
    assert_eq!(t.as_ref().unwrap().len(), 1);
    assert_eq!(t.unwrap()[0].function.name, "do_basic_math");
}

#[test]
fn test_ai_get_tools_none() {
    let aitm = manager("dev");
    let t = aitm.get_tools(&"OLLAMALOCAL".to_owned(), &"guardian".to_owned());
    assert!(t.is_none());
}

#[test]
fn test_ai_get_tools_fakemodel() {
    let aitm = manager("dev");
    let t = aitm.get_tools(&"OLLAMALOCAL".to_owned(), &"FAKEMODEL:ver123".to_owned());
    assert!(t.is_none());
}

#[test]
fn test_ai_get_tools_invplatf() {
    let aitm = manager("dev");
    let t = aitm.get_tools(&"INVALID".to_owned(), &"llama3.1".to_owned());
    assert!(t.is_none());
}

#[test]
fn test_ai_get_tools_unknowenv() {
    let aitm = manager("UNKNOWN");
    let t = aitm.get_tools(&"OLLAMALOCAL".to_owned(), &"llama3.1".to_owned());
    assert!(t.is_none());
}

#[test]
fn test_ai_toolmgr_success() {
    let aitm = manager("dev");
    assert_eq!(aitm.get_catalog().unwrap().len(), 3);
}

#[test]
fn test_ai_toolmgr_common_success() {
    let aitm = manager("dev");
    let sf = SupportedFunctions::Functions(vec!["do_math_expressions".to_string()]);
    assert_eq!(aitm.get_common_tools(sf).unwrap()[0].function.name, "do_math_expressions");
}

#[test]
fn test_ai_toolmgr_common_all() {
    let aitm = manager("dev");
    let sf = SupportedFunctions::ALL;
    assert_eq!(aitm.get_common_tools(sf.clone()).unwrap()[0].function.name, "get_current_weather");
    assert_eq!(aitm.get_common_tools(sf).unwrap()[2].function.name, "do_math_expressions");
}

#[test]
fn test_ai_toolmgr_common_none() {
    let aitm = manager("dev");
    let sf = SupportedFunctions::NONE;
    assert!(aitm.get_common_tools(sf.clone()).is_none());
}

#[test]
fn test_ai_toolmgr_nocommon() {
    let aitm = manager("dev");
    let sf = SupportedFunctions::Functions(vec!["do_nothing".to_string()]);
    assert_eq!(aitm.get_common_tools(sf).unwrap().len(), 0);
}

#[test]
fn all_keeps_catalog_order_and_content() {
    let aitm = manager("dev");
    let all = aitm.get_common_tools(SupportedFunctions::ALL).unwrap();
    assert_eq!(names(&all), vec!["get_current_weather", "do_basic_math", "do_math_expressions"]);
    assert_eq!(all[1].type_, "function");
    assert_eq!(all[1].function.description, "do_basic_math tool");
    assert_eq!(all[1].function.parameters.type_, "object");
    assert_eq!(all[1].function.parameters.properties[0].0, "expression");
    assert_eq!(all[1].function.parameters.properties[0].1.type_, "string");
    assert_eq!(all[1].function.parameters.required, vec!["expression".to_string()]);
}

#[test]
fn named_selection_follows_catalog_order() {
    let aitm = manager("dev");
    let sf = SupportedFunctions::Functions(vec!["do_math_expressions".to_string(), "get_current_weather".to_string()]);
    assert_eq!(names(&aitm.get_common_tools(sf).unwrap()), vec!["get_current_weather", "do_math_expressions"]);
}

#[test]
fn missing_catalog_gives_no_tools() {
    let aitm = AIToolManager::new(None, AIConfig::new(&document(vec![]), &"dev".to_owned()));
    assert!(aitm.get_catalog().is_none());
    assert!(aitm.get_common_tools(SupportedFunctions::ALL).is_none());
    assert!(aitm.get_tools(&"OLLAMALOCAL".to_owned(), &"llama3.1".to_owned()).is_none());
}

#[test]
fn unknown_model_falls_back_to_default() {
    let doc = document(vec![model("default", ConfigNode::List(vec![text("do_basic_math")]))]);
    let aitm = AIToolManager::new(Some(catalog()), AIConfig::new(&doc, &"dev".to_owned()));
    let platform = "OLLAMALOCAL".to_owned();
    let direct = aitm.get_tools(&platform, &"default".to_owned()).unwrap();
    let fallback = aitm.get_tools(&platform, &"unknown-model".to_owned()).unwrap();
    assert_eq!(names(&fallback), names(&direct));
    assert_eq!(names(&fallback), vec!["do_basic_math"]);
}

#[test]
fn default_in_other_case_does_not_fall_back() {
    let doc = document(vec![model("default", text("ALL"))]);
    let aitm = AIToolManager::new(Some(catalog()), AIConfig::new(&doc, &"dev".to_owned()));
    assert!(aitm.get_tools(&"OLLAMALOCAL".to_owned(), &"DEFAULT".to_owned()).is_none());
}

#[test]
fn folded_model_id_is_taken_as_given() {
    let doc = document(vec![model("default", text("ALL"))]);
    let aitm = AIToolManager::new(Some(catalog()), AIConfig::new(&doc, &"dev".to_owned()));
    let platform = "OLLAMALOCAL".to_owned();
    let id = "Other".to_owned();
    assert!(aitm.get_tools_folded(&platform, &id, &"default".to_owned()).is_none());
    assert_eq!(aitm.get_tools_folded(&platform, &id, &"other".to_owned()).unwrap().len(), 3);
}
