use minicode::records::{
    DevProcessStatus, DevProcessSummary, DevProcessType, ModelInfo, RestartPolicy,
};
use minicode::ui::modals::blocks::BlocksTab;
use minicode::ui::modals::minipower::{MiniPowerModalState, MiniPowerTab};
use minicode::ui::modals::processes::{ProcessesModalState, ProcessesTab};
use minicode::ui::modals::settings::{
    format_context_tokens, truncate_middle, ConfigSnapshot, SettingsModalState, SettingsTab,
    SUPPORTED_PROVIDERS,
};
use minicode::ui::modals::ModalState;

fn sample_processes() -> Vec<DevProcessSummary> {
    vec![
        DevProcessSummary {
            id: "vite-web".to_string(),
            name: "Vite Web Server".to_string(),
            process_type: DevProcessType::Frontend,
            status: DevProcessStatus::Running,
            degraded_reason: String::new(),
            pid: Some(12345),
            ports: vec![5173],
            url: Some("http://localhost:5173".to_string()),
            uptime_secs: 120,
            restart_count: 0,
            port_resolution: None,
            restart_policy: RestartPolicy::Never,
        },
        DevProcessSummary {
            id: "backend-api".to_string(),
            name: "Axum API Backend".to_string(),
            process_type: DevProcessType::Backend,
            status: DevProcessStatus::Running,
            degraded_reason: String::new(),
            pid: Some(12346),
            ports: vec![8080],
            url: Some("http://localhost:8080".to_string()),
            uptime_secs: 240,
            restart_count: 1,
            port_resolution: None,
            restart_policy: RestartPolicy::Never,
        },
        DevProcessSummary {
            id: "worker-task".to_string(),
            name: "Autonomous Subagent Worker".to_string(),
            process_type: DevProcessType::Worker,
            status: DevProcessStatus::Running,
            degraded_reason: String::new(),
            pid: Some(12347),
            ports: vec![],
            url: None,
            uptime_secs: 45,
            restart_count: 0,
            port_resolution: None,
            restart_policy: RestartPolicy::Never,
        },
    ]
}

fn default_config() -> ConfigSnapshot {
    ConfigSnapshot {
        provider: "openrouter".to_string(),
        model: "anthropic/sonnet-3.7".to_string(),
        auto_approve: false,
        thinking_budget: None,
        approval_policy: "strict".to_string(),
    }
}

#[test]
fn test_blocks_tab_methods() {
    let tabs = BlocksTab::all();
    assert_eq!(tabs.len(), 4);
    assert_eq!(BlocksTab::Components.next(), BlocksTab::Palettes);
    assert_eq!(BlocksTab::Palettes.next(), BlocksTab::Gradients);
    assert_eq!(BlocksTab::Gradients.next(), BlocksTab::Templates);
    assert_eq!(BlocksTab::Templates.next(), BlocksTab::Components);

    assert_eq!(BlocksTab::Components.prev(), BlocksTab::Templates);
    assert_eq!(BlocksTab::Palettes.prev(), BlocksTab::Components);
    assert_eq!(BlocksTab::Gradients.prev(), BlocksTab::Palettes);
    assert_eq!(BlocksTab::Templates.prev(), BlocksTab::Gradients);
}

#[test]
fn test_minipower_tab_transitions() {
    let tab = MiniPowerTab::Pillars;
    assert_eq!(tab.next(), MiniPowerTab::RedFlags);
    assert_eq!(tab.next().next(), MiniPowerTab::VerificationBarrier);
    assert_eq!(tab.next().next().next(), MiniPowerTab::Pillars);

    assert_eq!(tab.prev(), MiniPowerTab::VerificationBarrier);
}

#[test]
fn test_modal_state_creation() {
    let mut state = MiniPowerModalState::new("/tmp/test");
    assert_eq!(state.active_tab, MiniPowerTab::Pillars);
    assert_eq!(state.scroll_offset, 0);

    state.next_tab();
    assert_eq!(state.active_tab, MiniPowerTab::RedFlags);

    state.scroll_down();
    assert_eq!(state.scroll_offset, 1);
    state.scroll_up();
    assert_eq!(state.scroll_offset, 0);
}

#[test]
fn test_new_workspace_analysis_unindexed() {
    let modal = ModalState::new_workspace_analysis("/tmp/ws-unindexed", None, false, None);
    match modal {
        ModalState::WorkspaceAnalysis {
            is_indexed,
            selected_index,
            ..
        } => {
            assert!(!is_indexed);
            assert_eq!(selected_index, 0);
        }
        _ => panic!("Expected WorkspaceAnalysis variant"),
    }
}

#[test]
fn test_exit_confirm_initial_state_and_render() {
    let modal = ModalState::new_exit_confirm("/tmp/some-workspace");
    match modal {
        ModalState::ExitConfirm {
            selected_yes,
            ref workspace_name,
        } => {
            assert!(!selected_yes, "Default should be Nope for safety");
            assert!(!workspace_name.is_empty());
            assert_eq!(workspace_name, "some-workspace");
        }
        _ => panic!("Expected ExitConfirm variant"),
    }
    match ModalState::new_exit_confirm("/") {
        ModalState::ExitConfirm { workspace_name, .. } => assert_eq!(workspace_name, "minicode"),
        _ => panic!("Expected ExitConfirm variant"),
    }
}

#[test]
fn test_processes_tab_cycling() {
    let tab = ProcessesTab::All;
    assert_eq!(tab.next(), ProcessesTab::Servers);
    assert_eq!(tab.next().next(), ProcessesTab::Workers);
    assert_eq!(tab.next().next().next(), ProcessesTab::Logs);
    assert_eq!(tab.next().next().next().next(), ProcessesTab::Telemetry);
    assert_eq!(tab.next().next().next().next().next(), ProcessesTab::All);

    assert_eq!(tab.prev(), ProcessesTab::Telemetry);
}

#[test]
fn test_processes_filtering_by_tab() {
    let mut state = ProcessesModalState::with_data(
        "/tmp/procs",
        sample_processes(),
        None,
        vec!["Log line 1".to_string(), "Log line 2".to_string()],
    );

    assert_eq!(state.filtered_indices.len(), 3);

    state.next_tab();
    assert_eq!(state.active_tab, ProcessesTab::Servers);
    assert_eq!(state.filtered_indices.len(), 2);

    state.next_tab();
    assert_eq!(state.active_tab, ProcessesTab::Workers);
    assert_eq!(state.filtered_indices.len(), 1);
    assert_eq!(
        state.selected_process().map(|p| p.name.as_str()),
        Some("Autonomous Subagent Worker")
    );
}

#[test]
fn test_processes_search_query_filtering() {
    let mut state = ProcessesModalState::with_data(
        "/tmp/procs",
        sample_processes(),
        None,
        vec!["Server listening on port 5173".into()],
    );

    state.search_query = "axum".to_string();
    state.refresh_filtered();
    assert_eq!(state.filtered_indices.len(), 1);
    assert_eq!(
        state.selected_process().map(|p| p.name.as_str()),
        Some("Axum API Backend")
    );

    state.search_query = "5173".to_string();
    state.refresh_filtered();
    assert_eq!(state.filtered_indices.len(), 1);
    assert_eq!(
        state.selected_process().map(|p| p.name.as_str()),
        Some("Vite Web Server")
    );
}

#[test]
fn test_processes_log_scrolling() {
    let logs: Vec<String> = (0..50).map(|i| format!("Line {}", i)).collect();
    let mut state = ProcessesModalState::with_data("/tmp/procs", sample_processes(), None, logs.clone());

    state.set_tab(ProcessesTab::Logs);
    assert_eq!(state.selected_logs.len(), 50);

    state.scroll_logs_up(10);
    assert!(!state.auto_scroll_logs);
    assert!(state.log_scroll_offset < 49);

    state.scroll_logs_down(50);
    assert_eq!(state.log_scroll_offset, 49);
    assert!(state.auto_scroll_logs);
}

#[test]
fn test_settings_modal_state_initialization_and_tab_switching() {
    let config = default_config();
    let mut state = SettingsModalState::from_config(&config, "/tmp/ws", None, false, false);

    assert_eq!(state.active_tab, SettingsTab::Providers);
    assert_eq!(state.selected_index, 0);

    state.next_tab();
    assert_eq!(state.active_tab, SettingsTab::Workspace);
    assert_eq!(state.selected_index, 0);

    state.next_tab();
    assert_eq!(state.active_tab, SettingsTab::Autonomy);
    assert_eq!(state.selected_index, 0);

    state.next_tab();
    assert_eq!(state.active_tab, SettingsTab::Probes);
    assert_eq!(state.selected_index, 0);

    state.next_tab();
    assert_eq!(state.active_tab, SettingsTab::Providers);

    state.prev_tab();
    assert_eq!(state.active_tab, SettingsTab::Probes);

    state.prev_tab();
    assert_eq!(state.active_tab, SettingsTab::Autonomy);
}

#[test]
fn test_settings_modal_navigation_bounds() {
    let config = default_config();
    let mut state = SettingsModalState::from_config(&config, "/tmp/ws", None, false, false);

    assert_eq!(state.selected_index, 0);
    state.prev_item();
    assert_eq!(state.selected_index, 0);

    let max = state.max_items();
    for _ in 0..max + 5 {
        state.next_item();
    }
    assert_eq!(state.selected_index, max.saturating_sub(1));
}

#[test]
fn test_settings_modal_model_drilldown_navigation() {
    let config = default_config();
    let mut state = SettingsModalState::from_config(&config, "/tmp/ws", None, false, false);

    assert!(state.selecting_model_for_provider.is_none());
    assert_eq!(state.max_items(), SUPPORTED_PROVIDERS.len());

    state.selecting_model_for_provider = Some("anthropic".to_string());
    state.provider_models = vec![
        ModelInfo {
            id: "sonnet-3-7-20250219".to_string(),
            name: "Sonnet 3.7".to_string(),
            description: None,
            context_length: Some(200_000),
            is_free: false,
        },
        ModelInfo {
            id: "sonnet-3-5-20241022".to_string(),
            name: "Sonnet 3.5".to_string(),
            description: None,
            context_length: Some(200_000),
            is_free: false,
        },
    ];
    state.model_selected_index = 0;

    assert_eq!(state.max_items(), 2);
    state.next_item();
    assert_eq!(state.model_selected_index, 1);
    state.next_item();
    assert_eq!(state.model_selected_index, 1);
    state.prev_item();
    assert_eq!(state.model_selected_index, 0);

    state.next_tab();
    assert_eq!(state.active_tab, SettingsTab::Workspace);
    assert!(state.selecting_model_for_provider.is_none());
    assert!(state.provider_models.is_empty());
}

#[test]
fn test_truncate_middle_and_format_tokens() {
    assert_eq!(truncate_middle("hello", 10), "hello");
    assert_eq!(
        truncate_middle("/home/user/super/long/workspace/path/to/project", 25),
        "/home/user/.../to/project"
    );
    assert_eq!(format_context_tokens(Some(2_000_000)), "2M");
    assert_eq!(format_context_tokens(Some(128_000)), "128k");
    assert_eq!(format_context_tokens(Some(512)), "512");
    assert_eq!(format_context_tokens(None), "-");
}
