use minicode::records::{CodeExploreMatch, ModelInfo, Stack};
use minicode::ui::modal;
use minicode::ui::modals::command_catalog::command_catalog_items;
use minicode::ui::modals::context_diagnostics::{
    provider_cache_kind, rules_token_estimate, sample_memory_keys, MemoryEntry,
};
use minicode::ui::modals::ModalState;

fn model(id: &str, name: &str) -> ModelInfo {
    ModelInfo {
        id: id.to_string(),
        name: name.to_string(),
        description: None,
        context_length: None,
        is_free: false,
    }
}

fn models() -> Vec<ModelInfo> {
    vec![
        model("openai/gpt-4o", "GPT-4o"),
        model("deepseek/deepseek-r1", "DeepSeek R1"),
        model("openai/gpt-4o-mini", "GPT-4o mini"),
    ]
}

#[test]
fn provider_picker_lists_every_provider() {
    match ModalState::new_provider_select() {
        ModalState::ProviderSelect { providers, selected_index } => {
            assert_eq!(selected_index, 0);
            assert_eq!(providers.len(), 14);
            assert_eq!(providers[0], "anthropic");
            assert_eq!(providers[13], "localhost");
        }
        other => panic!("unexpected modal {:?}", other),
    }
    match modal::ModalState::new_provider_select() {
        modal::ModalState::ProviderSelect { providers, .. } => {
            assert_eq!(
                providers,
                vec!["openrouter", "gemini", "openai", "deepseek", "groq", "together", "ollama"]
            );
        }
        other => panic!("unexpected modal {:?}", other),
    }
}

#[test]
fn model_filter_is_case_insensitive_and_clamps_selection() {
    let mut m = ModalState::new_model_select("openai".to_string(), models());
    match &m {
        ModalState::ModelSelect { filtered_indices, .. } => assert_eq!(filtered_indices, &vec![0, 1, 2]),
        _ => panic!("not a model picker"),
    }
    if let ModalState::ModelSelect { filter, selected_index, .. } = &mut m {
        *filter = "GPT".to_string();
        *selected_index = 2;
    }
    m.update_filter();
    match &m {
        ModalState::ModelSelect { filtered_indices, selected_index, .. } => {
            assert_eq!(filtered_indices, &vec![0, 2]);
            assert_eq!(*selected_index, 1);
        }
        _ => panic!("not a model picker"),
    }
    if let ModalState::ModelSelect { filter, .. } = &mut m {
        *filter = "nothing-matches".to_string();
    }
    m.update_filter();
    match &m {
        ModalState::ModelSelect { filtered_indices, selected_index, .. } => {
            assert!(filtered_indices.is_empty());
            assert_eq!(*selected_index, 0);
        }
        _ => panic!("not a model picker"),
    }
}

#[test]
fn catalog_filter_matches_any_field() {
    let mut m = ModalState::new_command_catalog();
    if let ModalState::CommandCatalog { filter, .. } = &mut m {
        *filter = "  UNDO ".to_string();
    }
    m.update_filter();
    let expected: Vec<usize> = command_catalog_items()
        .iter()
        .enumerate()
        .filter(|(_, c)| {
            [c.name, c.category, c.description, c.shortcut]
                .iter()
                .any(|f| f.to_lowercase().contains("undo"))
        })
        .map(|(i, _)| i)
        .collect();
    assert!(!expected.is_empty());
    match &m {
        ModalState::CommandCatalog { filtered_indices, .. } => assert_eq!(filtered_indices, &expected),
        _ => panic!("not the catalog"),
    }
}

#[test]
fn stack_and_symbol_filters() {
    let stacks = vec![
        Stack {
            name: "Axum API".to_string(),
            runtime: "rust".to_string(),
            description: "HTTP service".to_string(),
            packages: vec!["tokio".to_string()],
            files: vec![],
        },
        Stack {
            name: "Next.js".to_string(),
            runtime: "node".to_string(),
            description: "Web app".to_string(),
            packages: vec!["react".to_string()],
            files: vec![],
        },
    ];
    let mut m = modal::ModalState::new_stack_select(stacks);
    if let modal::ModalState::StackSelect { filter, .. } = &mut m {
        *filter = "REACT".to_string();
    }
    m.update_filter();
    match &m {
        modal::ModalState::StackSelect { filtered_indices, .. } => assert_eq!(filtered_indices, &vec![1]),
        _ => panic!("not the stack picker"),
    }

    let symbols = vec![
        CodeExploreMatch {
            symbol_name: "render".to_string(),
            kind: "fn".to_string(),
            file_path: "src/ui/markdown.rs".to_string(),
            signature: "fn render(text: &str)".to_string(),
            layer_name: "UI".to_string(),
            layer_badge: "[UI]".to_string(),
            line_start: 1,
            line_end: 3,
            doc_comment: None,
            source_code: None,
            callers: vec![],
            callees: vec![],
            blast_radius_files: vec![],
        },
        CodeExploreMatch {
            symbol_name: "Config".to_string(),
            kind: "struct".to_string(),
            file_path: "src/config.rs".to_string(),
            signature: "pub struct Config".to_string(),
            layer_name: "Core".to_string(),
            layer_badge: "[CORE]".to_string(),
            line_start: 1,
            line_end: 3,
            doc_comment: None,
            source_code: None,
            callers: vec![],
            callees: vec![],
            blast_radius_files: vec![],
        },
    ];
    let mut e = ModalState::new_code_explorer(symbols);
    if let ModalState::CodeExplorer { filter, selected_index, .. } = &mut e {
        *filter = " core ".to_string();
        *selected_index = 1;
    }
    e.update_filter();
    match &e {
        ModalState::CodeExplorer { filtered_indices, selected_index, .. } => {
            assert_eq!(filtered_indices, &vec![1]);
            assert_eq!(*selected_index, 0);
        }
        _ => panic!("not the explorer"),
    }
}

#[test]
fn other_modals_are_left_alone_by_the_filter() {
    let mut m = ModalState::new_provider_select();
    m.update_filter();
    assert!(matches!(m, ModalState::ProviderSelect { selected_index: 0, .. }));
    let mut closed = ModalState::Closed;
    closed.update_filter();
    assert!(!closed.is_active());
}

#[test]
fn context_diagnostics_pieces() {
    assert_eq!(
        provider_cache_kind("Anthropic"),
        "Anthropic Ephemeral Cache Breakpoints (System Prompt + Tools)"
    );
    assert_eq!(
        provider_cache_kind("openrouter"),
        "OpenAI / DeepSeek Automatic 1024-Token Aligned Prefix Cache"
    );
    assert_eq!(provider_cache_kind("GEMINI"), "Google Gemini Explicit Context Caching");
    assert_eq!(provider_cache_kind("local"), "Local Runtime / LMCache KV-Cache Tensor Reuse");
    assert_eq!(provider_cache_kind("groq"), "Standard Provider Prefix Cache");
    assert_eq!(rules_token_estimate(0), 0);
    assert_eq!(rules_token_estimate(4099), 1024);

    let working = vec!["task".to_string(), "plan".to_string()];
    let tiers: Vec<MemoryEntry> = (0..6)
        .map(|i| MemoryEntry { badge: "[L2 Project]".to_string(), key: format!("fact{}", i) })
        .collect();
    let keys = sample_memory_keys(&working, &tiers);
    assert_eq!(
        keys,
        vec![
            "[L0 Working]: task",
            "[L0 Working]: plan",
            "[L2 Project]: fact0",
            "[L2 Project]: fact1",
            "[L2 Project]: fact2",
            "[L2 Project]: fact3",
        ]
    );
    assert!(sample_memory_keys(&vec![], &vec![]).is_empty());
}
