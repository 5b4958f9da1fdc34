use minicode::records::ModelInfo;
use minicode::ui::configure::{
    update_dotenv_content, ConfigMenu, KeyEdit, KeysPick, MenuChoice, ModelPick, ProviderPick,
};

#[test]
fn main_menu_entries_are_read_after_trimming() {
    assert_eq!(ConfigMenu::main_choice(" 1 "), MenuChoice::SetupProvider);
    assert_eq!(ConfigMenu::main_choice("2"), MenuChoice::ManageKeys);
    assert_eq!(ConfigMenu::main_choice("3"), MenuChoice::AddCustomProvider);
    assert_eq!(ConfigMenu::main_choice("4\n"), MenuChoice::SelectModel);
    assert_eq!(ConfigMenu::main_choice("5"), MenuChoice::TogglePolicy);
    assert_eq!(ConfigMenu::main_choice("6"), MenuChoice::ToggleCost);
    for exit in ["0", "exit", "quit", "q"] {
        assert_eq!(ConfigMenu::main_choice(exit), MenuChoice::SaveAndExit);
    }
    assert_eq!(ConfigMenu::main_choice("7"), MenuChoice::Invalid);
    assert_eq!(ConfigMenu::main_choice("Q"), MenuChoice::Invalid);
}

#[test]
fn provider_menu_names_provider_and_key_variable() {
    assert_eq!(
        ConfigMenu::provider_choice("1"),
        ProviderPick::Provider { name: "openrouter", env_var: "OPENROUTER_API_KEY" }
    );
    assert_eq!(
        ConfigMenu::provider_choice(" 7 "),
        ProviderPick::Provider { name: "z.ai", env_var: "ZHIPU_API_KEY" }
    );
    assert_eq!(
        ConfigMenu::provider_choice("10"),
        ProviderPick::Provider { name: "ollama", env_var: "OLLAMA_API_KEY" }
    );
    assert_eq!(ConfigMenu::provider_choice("11"), ProviderPick::Custom);
    assert_eq!(ConfigMenu::provider_choice("back"), ProviderPick::Back);
    assert_eq!(ConfigMenu::provider_choice("12"), ProviderPick::Invalid);
}

#[test]
fn key_prompt_answers() {
    assert_eq!(ConfigMenu::key_edit("0"), KeyEdit::Back);
    assert_eq!(ConfigMenu::key_edit("b"), KeyEdit::Back);
    assert_eq!(ConfigMenu::key_edit(" DEL "), KeyEdit::Clear);
    assert_eq!(ConfigMenu::key_edit("  sk-abc  "), KeyEdit::Replace("sk-abc".to_string()));
    assert_eq!(ConfigMenu::key_edit("   "), KeyEdit::Keep);
    assert!(ConfigMenu::fetch_requested("y"));
    assert!(ConfigMenu::fetch_requested(""));
    assert!(!ConfigMenu::fetch_requested("N"));
    assert!(!ConfigMenu::fetch_requested("0"));
}

#[test]
fn key_manager_picks() {
    assert_eq!(ConfigMenu::keys_pick("q"), KeysPick::Back);
    assert_eq!(ConfigMenu::keys_pick("1"), KeysPick::Provider(0));
    assert_eq!(ConfigMenu::keys_pick(" 9 "), KeysPick::Provider(8));
    assert_eq!(ConfigMenu::keys_pick("10"), KeysPick::Ignore);
    assert_eq!(ConfigMenu::keys_pick("x"), KeysPick::Ignore);
    assert_eq!(ConfigMenu::keys_pick("+3"), KeysPick::Provider(2));
}

#[test]
fn model_list_picks() {
    assert_eq!(ConfigMenu::model_pick("back", 5), ModelPick::Keep);
    assert_eq!(ConfigMenu::model_pick("M", 5), ModelPick::Manual);
    assert_eq!(ConfigMenu::model_pick("3", 5), ModelPick::Index(2));
    assert_eq!(ConfigMenu::model_pick("6", 5), ModelPick::Typed("6".to_string()));
    assert_eq!(
        ConfigMenu::model_pick(" openai/gpt-4o ", 5),
        ModelPick::Typed("openai/gpt-4o".to_string())
    );
    assert_eq!(ConfigMenu::model_pick("", 5), ModelPick::Nothing);
    assert_eq!(ConfigMenu::shown_models(3), 3);
    assert_eq!(ConfigMenu::shown_models(40), 25);
}

#[test]
fn keys_are_masked_for_display() {
    assert_eq!(ConfigMenu::masked_key(""), "None configured");
    assert_eq!(ConfigMenu::masked_key("0123456789"), "********");
    assert_eq!(ConfigMenu::masked_key("sk-or-v1-abcdefXYZW"), "sk-or-...XYZW");
    assert_eq!(ConfigMenu::key_status(""), "\x1b[90m[NOT SET]\x1b[0m");
    assert_eq!(ConfigMenu::key_status("12345678"), "\x1b[32m[CONFIGURED]\x1b[0m");
    assert_eq!(
        ConfigMenu::key_status("abcdefghijk"),
        "\x1b[32m[CONFIGURED: abcd...ijk]\x1b[0m"
    );
}

#[test]
fn custom_providers_and_key_variables() {
    assert_eq!(ConfigMenu::custom_provider_name("  My-Cloud "), Some("my-cloud".to_string()));
    assert_eq!(ConfigMenu::custom_provider_name(" B "), None);
    assert_eq!(ConfigMenu::custom_provider_name("   "), None);
    assert_eq!(ConfigMenu::custom_env_var("my-cloud"), "MY_CLOUD_API_KEY");
    assert_eq!(ConfigMenu::custom_env_var("x.ai"), "X.AI_API_KEY");
    assert_eq!(ConfigMenu::env_var_for_provider("google"), "GEMINI_API_KEY");
    assert_eq!(ConfigMenu::env_var_for_provider("glm"), "ZHIPU_API_KEY");
    assert_eq!(ConfigMenu::env_var_for_provider("x.ai"), "X_AI_API_KEY");
    assert_eq!(ConfigMenu::env_var_for_provider("my-cloud"), "MY_CLOUD_API_KEY");
    assert_eq!(ConfigMenu::policy_pick("1"), Some("strict"));
    assert_eq!(ConfigMenu::policy_pick(" 2 "), Some("auto-approve"));
    assert_eq!(ConfigMenu::policy_pick("3"), None);
}

#[test]
fn model_lines_show_number_flags_and_context() {
    let m = ModelInfo {
        id: "deepseek/deepseek-r1:free".to_string(),
        name: "R1".to_string(),
        description: None,
        context_length: Some(163_840),
        is_free: true,
    };
    assert_eq!(
        ConfigMenu::model_line(0, &m),
        "  \x1b[1m[ 1]\x1b[0m deepseek/deepseek-r1:free \x1b[1;32m[FREE]\x1b[0m \x1b[90m(163k ctx)\x1b[0m"
    );
    let plain = ModelInfo {
        id: "gpt-4o".to_string(),
        name: "GPT-4o".to_string(),
        description: None,
        context_length: None,
        is_free: false,
    };
    assert_eq!(ConfigMenu::model_line(11, &plain), "  \x1b[1m[12]\x1b[0m gpt-4o");
}

#[test]
fn dotenv_updates_replace_or_append() {
    assert_eq!(update_dotenv_content(None, "A_KEY", "1"), "A_KEY=1\n");
    assert_eq!(
        update_dotenv_content(Some("X=1\nA_KEY=old\nY=2"), "A_KEY", "new"),
        "X=1\nA_KEY=new\nY=2\n"
    );
    assert_eq!(
        update_dotenv_content(Some("X=1\n"), "A_KEY", "v"),
        "X=1\nA_KEY=v\n"
    );
    assert_eq!(
        update_dotenv_content(Some("A_KEY=1\nA_KEY=2"), "A_KEY", "3"),
        "A_KEY=3\nA_KEY=3\n"
    );
    assert_eq!(
        update_dotenv_content(Some("A_KEYS=1"), "A_KEY", "3"),
        "A_KEYS=1\nA_KEY=3\n"
    );
}
