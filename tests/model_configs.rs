use bt_ai_core::ai_config::SupportedFunctions;
use bt_ai_core::config_node::ConfigNode;
use bt_ai_core::model_configs::ModelConfigs;

const VALID_ENV: &str = "dev";
const VALID_MODEL_ID: &str = "llama3.1:latest";

fn text(s: &str) -> ConfigNode {
    ConfigNode::Text(s.to_owned())
}

fn table(entries: Vec<(&str, ConfigNode)>) -> ConfigNode {
    ConfigNode::Table(entries.into_iter().map(|(k, v)| (k.to_owned(), v)).collect())
}

fn param(id: &str, value: ConfigNode) -> ConfigNode {
    table(vec![("param_id", text(id)), ("param_value", value)])
}

fn document() -> ConfigNode {
    let model = table(vec![
        ("model_id", text(VALID_MODEL_ID)),
        (
            "model_path",
            text("/home/super/.ollama/models/blobs/sha256-e2f46f5b501c2982b2c495a4694cb4e620aabfa2c37ebb23a90ffc8cce93854b"),
        ),
        ("system", text("You are Jeremy. You are an AI assistant with tool calling capabilities")),
        ("tools", text("ALL")),
        (
            "ctx_params",
            ConfigNode::List(vec![
                param("n_ctx", ConfigNode::Integer(4096)),
                param("n_batch", ConfigNode::Integer(2048)),
                param("n_threads", ConfigNode::Integer(8)),
            ]),
        ),
        (
            "model_params",
            ConfigNode::List(vec![
                param("disable_gpu", ConfigNode::Boolean(false)),
                param("max_msg_history", ConfigNode::Integer(10)),
                param("always_add_system", ConfigNode::Boolean(true)),
                param("enable_thinking", ConfigNode::Boolean(false)),
            ]),
        ),
        (
            "sampler_params",
            ConfigNode::List(vec![
                param("temperature", ConfigNode::Real("1.0".to_owned())),
                param("top_p", ConfigNode::Real("0.95".to_owned())),
                param("top_k", ConfigNode::Integer(40)),
                param("seed", ConfigNode::Integer(1234)),
                param("penalty_last_n", ConfigNode::Integer(64)),
                param("penalty_repeat", ConfigNode::Real("1.1".to_owned())),
                param("min_p", ConfigNode::Real("0.05".to_owned())),
                param("typ_p", ConfigNode::Real("1.0".to_owned())),
            ]),
        ),
    ]);
    table(vec![(
        VALID_ENV,
        table(vec![("root_folder", text("/models/")), ("models", ConfigNode::List(vec![model]))]),
    )])
}

fn as_real(n: &ConfigNode) -> f64 {
    match n {
        ConfigNode::Real(t) => t.parse::<f64>().unwrap(),
        _ => panic!("not a real number"),
    }
}

#[test]
fn test_get_model_path() {
    let cfgs = ModelConfigs::new(document(), VALID_ENV);
    let c = cfgs.get_model_configs(VALID_MODEL_ID).unwrap();
    let p = c.get_path();
    assert_eq!(p, "/home/super/.ollama/models/blobs/sha256-e2f46f5b501c2982b2c495a4694cb4e620aabfa2c37ebb23a90ffc8cce93854b");
}

#[test]
fn test_get_system() {
    let cfgs = ModelConfigs::new(document(), VALID_ENV);
    let c = cfgs.get_model_configs(VALID_MODEL_ID).unwrap();
    let p = c.get_system().unwrap();
    assert_eq!(p, "You are Jeremy. You are an AI assistant with tool calling capabilities");
}

#[test]
fn test_get_ctx_parameters() {
    let cfgs = ModelConfigs::new(document(), VALID_ENV);
    let c = cfgs.get_model_configs(VALID_MODEL_ID).unwrap();
    let p = c.get_ctx_parameters();
    let n_ctx = &p.iter().find(|(k, _)| k == "n_ctx").unwrap().1;
    assert_eq!(n_ctx.as_integer().unwrap(), 4096);
    assert_eq!(p.len(), 3);
}

#[test]
fn test_get_ctx_param() {
    let cfgs = ModelConfigs::new(document(), VALID_ENV);
    let c = cfgs.get_model_configs(VALID_MODEL_ID).unwrap();
    let p = c.get_ctx_param("n_ctx").unwrap();
    assert_eq!(p.as_integer().unwrap(), 4096);
}

#[test]
fn test_get_model_parameters() {
    let cfgs = ModelConfigs::new(document(), VALID_ENV);
    let c = cfgs.get_model_configs(VALID_MODEL_ID).unwrap();
    let p = c.get_model_parameters();
    let gpu = &p.iter().find(|(k, _)| k == "disable_gpu").unwrap().1;
    assert_eq!(gpu.as_boolean().unwrap(), false);
    assert_eq!(p.len(), 4);
}

#[test]
fn test_model_ctx_param() {
    let cfgs = ModelConfigs::new(document(), VALID_ENV);
    let c = cfgs.get_model_configs(VALID_MODEL_ID).unwrap();
    let p = c.get_model_param("disable_gpu").unwrap();
    assert_eq!(p.as_boolean().unwrap(), false);
}

#[test]
fn test_get_sampler_parameters() {
    let cfgs = ModelConfigs::new(document(), VALID_ENV);
    let c = cfgs.get_model_configs(VALID_MODEL_ID).unwrap();
    let p = c.get_sampler_parameters();
    let temperature = &p.iter().find(|(k, _)| k == "temperature").unwrap().1;
    assert_eq!(as_real(temperature), 1.0);
    assert_eq!(p.len(), 8);
}

#[test]
fn test_sampler_ctx_param() {
    let cfgs = ModelConfigs::new(document(), VALID_ENV);
    let c = cfgs.get_model_configs(VALID_MODEL_ID).unwrap();
    let p = c.get_sampler_param("temperature").unwrap();
    assert_eq!(as_real(p), 1.0);
}

#[test]
fn sampler_values_read_from_parameters() {
    let cfgs = ModelConfigs::new(document(), VALID_ENV);
    let c = cfgs.get_model_configs(VALID_MODEL_ID).unwrap();
    assert_eq!(c.get_sampler_top_k(), Some(40));
    assert_eq!(c.get_sampler_seed(), 1234);
    assert_eq!(c.get_sampler_repeat_last_n(), 64);
    assert!(!c.get_model_disbale_gpu());
    assert_eq!(c.get_tools().clone(), SupportedFunctions::ALL);
}

#[test]
fn model_file_path_drops_trailing_slash_of_root() {
    let cfgs = ModelConfigs::new(document(), VALID_ENV);
    let c = cfgs.get_model_configs(VALID_MODEL_ID).unwrap();
    assert_eq!(
        c.model_file_location(),
        "/models//home/super/.ollama/models/blobs/sha256-e2f46f5b501c2982b2c495a4694cb4e620aabfa2c37ebb23a90ffc8cce93854b"
    );
    assert_eq!(c.get_model_file_path(), std::path::PathBuf::from(c.model_file_location()));
}

fn bare_model(entries: Vec<(&str, ConfigNode)>) -> ConfigNode {
    table(vec![(VALID_ENV, table(vec![("models", ConfigNode::List(vec![table(entries)]))]))])
}

#[test]
fn missing_fields_take_defaults() {
    let cfgs = ModelConfigs::new(bare_model(vec![]), VALID_ENV);
    let c = cfgs.get_model_configs("default").unwrap();
    assert_eq!(c.get_path(), "qwen3:latest");
    assert_eq!(c.get_system().unwrap(), "");
    assert_eq!(c.model_file_location(), "models/qwen3:latest");
    assert!(c.get_ctx_parameters().is_empty());
    assert_eq!(c.get_sampler_top_k(), None);
    assert!(c.get_sampler_seed() >= 1);
    assert_eq!(c.get_sampler_repeat_last_n(), 128);
    assert!(!c.get_model_disbale_gpu());
    assert!(cfgs.get_model_configs("other").is_none());
}

#[test]
fn seed_and_last_n_are_clamped() {
    let doc = bare_model(vec![(
        "sampler_params",
        ConfigNode::List(vec![
            param("seed", ConfigNode::Integer(5_000_000_000)),
            param("penalty_last_n", ConfigNode::Integer(-1)),
        ]),
    )]);
    let cfgs = ModelConfigs::new(doc, VALID_ENV);
    let c = cfgs.get_model_configs("default").unwrap();
    assert_eq!(c.get_sampler_seed(), u32::MAX);
    assert_eq!(c.get_sampler_repeat_last_n(), 0);
    let doc = bare_model(vec![("sampler_params", ConfigNode::List(vec![param("seed", ConfigNode::Integer(-5))]))]);
    let cfgs = ModelConfigs::new(doc, VALID_ENV);
    assert_eq!(cfgs.get_model_configs("default").unwrap().get_sampler_seed(), 0);
}

#[test]
fn later_parameter_replaces_earlier_and_unnamed_is_unknown() {
    let doc = bare_model(vec![(
        "ctx_params",
        ConfigNode::List(vec![
            param("n_ctx", ConfigNode::Integer(1)),
            param("n_ctx", ConfigNode::Integer(2)),
            table(vec![("param_value", ConfigNode::Integer(3))]),
        ]),
    )]);
    let cfgs = ModelConfigs::new(doc, VALID_ENV);
    let c = cfgs.get_model_configs("default").unwrap();
    assert_eq!(c.get_ctx_parameters().len(), 2);
    assert_eq!(c.get_ctx_param("n_ctx").unwrap().as_integer(), Some(2));
    assert_eq!(c.get_ctx_param("UNKNOWN").unwrap().as_integer(), Some(3));
}

#[test]
fn disable_gpu_reads_boolean() {
    let doc = bare_model(vec![("model_params", ConfigNode::List(vec![param("disable_gpu", ConfigNode::Boolean(true))]))]);
    let cfgs = ModelConfigs::new(doc, VALID_ENV);
    assert!(cfgs.get_model_configs("default").unwrap().get_model_disbale_gpu());
}

#[test]
fn custom_parameters_use_trimmed_lower_case_ids() {
    let mut c = ModelConfigs::new(bare_model(vec![]), VALID_ENV).into_model_config("default").unwrap();
    assert!(c.get_custom_model_cfg_param("mode").is_none());
    assert_eq!(c.set_custom_model_cfg_param("  MoDe ", "fast".to_owned()), None);
    assert_eq!(c.get_custom_model_cfg_param("mode").unwrap(), "fast");
    assert!(c.get_custom_model_cfg_param("  MoDe ").is_none());
    assert_eq!(c.set_custom_model_cfg_param("mode", "slow".to_owned()), Some("fast".to_owned()));
    assert_eq!(c.get_custom_model_cfg_param("mode").unwrap(), "slow");
}

#[test]
fn into_model_config_of_unknown_model_is_none() {
    assert!(ModelConfigs::new(bare_model(vec![]), VALID_ENV).into_model_config("x").is_none());
}

#[test]
fn with_root_uses_the_given_folder() {
    let section = table(vec![("models", ConfigNode::List(vec![table(vec![("model_id", text("m"))])]))]);
    let cfgs = ModelConfigs::with_root(section, &"base/".to_owned());
    assert_eq!(cfgs.get_model_configs("m").unwrap().model_file_location(), "base//qwen3:latest");
}
