use sui_invariant_monitor::llm::{
    analysis_summary, build_prompt, create_llm_client, AnalysisResult, LlmConfig, LlmEndpoint, LlmProvider, SuggestedInvariant,
};
use sui_invariant_monitor::metadata::{render_type, FieldMetadata, ModuleMetadata, StructMetadata, TypeTag};
use sui_invariant_monitor::network::get_rpc_url;
use sui_invariant_monitor::service::MonitorState;
use sui_invariant_monitor::{InvariantEngine, InvariantStatus, MonitorError, ProtocolState};

#[test]
fn test_mainnet() {
    assert_eq!(get_rpc_url(Some("mainnet"), None), "https://fullnode.mainnet.sui.io:443");
}

#[test]
fn test_testnet() {
    assert_eq!(get_rpc_url(Some("testnet"), None), "https://fullnode.testnet.sui.io:443");
}

#[test]
fn test_none_defaults_to_mainnet() {
    assert_eq!(get_rpc_url(None, None), "https://fullnode.mainnet.sui.io:443");
}

#[test]
fn rpc_url_falls_back_to_configured() {
    assert_eq!(get_rpc_url(Some("devnet"), Some("http://node:9000".to_string())), "http://node:9000");
    assert_eq!(get_rpc_url(Some("mainnet"), Some("http://node:9000".to_string())), "https://fullnode.mainnet.sui.io:443");
}

fn object_id(last: char) -> String {
    let mut id = "0x".to_string();
    for _ in 0..63 {
        id.push('a');
    }
    id.push(last);
    id
}

#[test]
fn monitored_objects_are_validated_and_deduplicated() {
    let mut state = MonitorState::new(vec![], "url".to_string());
    let bad = state.add_monitored_object("0x1234");
    assert!(!bad.success);
    assert_eq!(bad.message, "Invalid object ID format. Should be 0x followed by 64 hex characters.");
    assert!(state.monitored_objects.is_empty());

    let padded = format!("  {}\n", object_id('b'));
    let added = state.add_monitored_object(&padded);
    assert!(added.success);
    assert_eq!(added.object_id, object_id('b'));
    assert_eq!(added.message, format!("Added object {} to monitoring. Will evaluate on next cycle.", object_id('b')));
    assert!(state.pending_evaluation);
    assert_eq!(state.monitored_objects, vec![object_id('b')]);

    let again = state.add_monitored_object(&object_id('b'));
    assert!(again.success);
    assert_eq!(again.message, "Object is already being monitored.");
    assert_eq!(state.monitored_objects.len(), 1);

    let no_prefix = state.add_trimmed_object(format!("1x{}", &object_id('c')[2..]));
    assert!(!no_prefix.success);
}

fn suggestion(id: &str) -> SuggestedInvariant {
    SuggestedInvariant {
        id: id.to_string(),
        name: format!("name {}", id),
        description: "desc".to_string(),
        formula: "a <= b".to_string(),
        severity: "high".to_string(),
        fields_used: vec!["a".to_string(), "b".to_string()],
    }
}

#[test]
fn suggestions_are_listed_once_and_removed_by_id() {
    let mut engine = InvariantEngine::new();
    let mut state = MonitorState::new(vec![], "url".to_string());
    state.update(engine.evaluate_all(&ProtocolState::default()));
    assert!(state.last_check.is_some());
    assert_eq!(state.results.len(), 5);

    let response = state.add_suggested_invariants(vec![suggestion("S-1"), suggestion("INV-001"), suggestion("S-1")]);
    assert!(response.success);
    assert_eq!(response.added_count, 1);
    assert_eq!(response.message, "Added 1 new invariant(s) to monitoring");
    assert!(state.pending_evaluation);
    let last = state.results.last().unwrap();
    assert_eq!(last.id, "S-1");
    assert_eq!(last.status, InvariantStatus::Holds);
    assert_eq!(last.computation.formula, "a <= b");
    assert_eq!(last.computation.result, "Pending evaluation");
    assert_eq!(state.find_invariant("S-1"), Some(5));
    assert_eq!(state.find_invariant("nope"), None);

    let removed = state.remove_invariant("S-1");
    assert!(removed.success);
    assert_eq!(removed.message, "Removed invariant S-1");
    assert_eq!(state.results.len(), 5);
    let missing = state.remove_invariant("S-1");
    assert!(!missing.success);
    assert_eq!(missing.message, "Invariant S-1 not found");
}

#[test]
fn status_counts_violations_and_health() {
    let mut engine = InvariantEngine::new();
    let mut state = MonitorState::new(vec!["x".to_string()], "url".to_string());
    let empty = state.status();
    assert!(!empty.all_ok);
    assert_eq!(empty.total_invariants, 0);
    let broken = ProtocolState { total_supply: 1, ..Default::default() };
    state.update(engine.evaluate_all(&broken));
    let status = state.status();
    assert_eq!(status.total_invariants, 5);
    assert_eq!(status.violations, 1);
    assert!(!status.all_ok);
    assert_eq!(status.monitored_objects, vec!["x".to_string()]);
    assert_eq!(status.last_check, state.last_check);
}

#[test]
fn llm_config_resolution() {
    let default = LlmConfig::default();
    assert_eq!(default.provider, LlmProvider::Ollama);
    assert_eq!(default.model, "llama3.2");
    match create_llm_client(&default) {
        Ok(LlmEndpoint::Ollama { base_url, model }) => {
            assert_eq!(base_url, "http://localhost:11434");
            assert_eq!(model, "llama3.2");
        }
        other => panic!("unexpected {:?}", other),
    }
    let no_url = LlmConfig { base_url: None, model: "m".to_string(), ..LlmConfig::default() };
    assert!(matches!(create_llm_client(&no_url), Ok(LlmEndpoint::Ollama { base_url, .. }) if base_url == "http://localhost:11434"));
    let keyless = LlmConfig { provider: LlmProvider::OpenRouter, api_key: None, model: "m".to_string(), base_url: None };
    assert!(matches!(create_llm_client(&keyless), Err(MonitorError::ConfigError(m)) if m == "OpenRouter API key required"));
    let keyed = LlmConfig { api_key: Some("k".to_string()), ..keyless };
    assert!(matches!(create_llm_client(&keyed), Ok(LlmEndpoint::OpenRouter { api_key, model }) if api_key == "k" && model == "m"));
}

#[test]
fn prompt_lists_structs_and_fields() {
    let metadata = ModuleMetadata {
        package_id: "0x2".to_string(),
        module_name: "pool".to_string(),
        structs: vec![StructMetadata {
            name: "Pool".to_string(),
            abilities: vec!["key".to_string()],
            fields: vec![
                FieldMetadata { name: "supply".to_string(), type_: "u64".to_string() },
                FieldMetadata { name: "owner".to_string(), type_: "address".to_string() },
            ],
        }],
        functions: vec![],
    };
    let prompt = build_prompt(&metadata);
    assert!(prompt.starts_with(
        "You are a smart contract security expert analyzing a Sui Move module.\n\nPackage: 0x2\nModule: pool\n\nStructs:\n\nstruct Pool {\n  supply: u64,\n  owner: address,\n}\n\n\nAnalyze this module"
    ));
    assert!(prompt.ends_with("\"analysis_notes\": \"Brief analysis summary\"\n}"));
    let analysis = AnalysisResult {
        package_id: "0x2".to_string(),
        module_name: "pool".to_string(),
        suggested_invariants: vec![suggestion("S")],
        analysis_notes: String::new(),
    };
    assert_eq!(analysis.suggested_invariants.len(), 1);
}

#[test]
fn type_tags_render_as_move_source() {
    let coin = TypeTag::Struct { address: "0x2".to_string(), module: "coin".to_string(), name: "Coin".to_string() };
    assert_eq!(render_type(&coin), "0x2::coin::Coin");
    let nested = TypeTag::MutableReference(Box::new(TypeTag::Vector(Box::new(TypeTag::Named("U64".to_string())))));
    assert_eq!(render_type(&nested), "&mut vector<U64>");
    assert_eq!(render_type(&TypeTag::Reference(Box::new(TypeTag::TypeParameter("0".to_string())))), "&T0");
    assert_eq!(render_type(&TypeTag::Unknown("Object {}".to_string())), "Object {}");
}

#[test]
fn analysis_summary_counts_suggestions() {
    let analysis = |n: usize| AnalysisResult {
        package_id: "p".to_string(),
        module_name: "m".to_string(),
        suggested_invariants: (0..n).map(|i| suggestion(&format!("S-{}", i))).collect(),
        analysis_notes: String::new(),
    };
    assert_eq!(analysis_summary(&vec![]).as_deref(), Some("Analyzed 0 module(s), found 0 invariants"));
    assert_eq!(
        analysis_summary(&vec![analysis(2), analysis(0), analysis(3)]).as_deref(),
        Some("Analyzed 3 module(s), found 5 invariants")
    );
}
