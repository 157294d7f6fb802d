use popup_view::detail::{
    provider_status_message, should_show_login_required_settings_action, zai_coding_plan_absent,
};
use popup_view::model::{
    AccountSelectionStatus, AppState, AuthState, DetectionSnapshot, ProviderAccountRuntimeState,
    ProviderHealth, ProviderId, ProviderRuntimeState, UsageWindow,
};
use popup_view::phrases::{phrase, Phrase};
use popup_view::popup::detected_without_accounts;

#[test]
fn zai_coding_plan_notice_only_for_mcp_only_usage() {
    let mut windows = vec![UsageWindow {
        label: "MCP".to_string(),
        reset_at: None,
        window_seconds: None,
        reset_description: None,
        group: None,
    }];
    assert!(zai_coding_plan_absent(ProviderId::Zai, &windows));
    assert_eq!(
        phrase(Phrase::ZaiCodingPlanUnavailableDetail),
        "Coding Plan quotas were not reported by Z.AI."
    );
    assert!(!zai_coding_plan_absent(ProviderId::Minimax, &windows));
    assert!(!zai_coding_plan_absent(ProviderId::Zai, &[]));

    let mut coding_plan = windows[0].clone();
    coding_plan.label = "Weekly".to_string();
    windows.push(coding_plan);
    assert!(!zai_coding_plan_absent(ProviderId::Zai, &windows));
    windows[1].label = "5 Hour".to_string();
    assert!(!zai_coding_plan_absent(ProviderId::Zai, &windows));
    windows.remove(0);
    assert!(!zai_coding_plan_absent(ProviderId::Zai, &windows));
}

#[test]
fn action_required_account_reports_reauth_message() {
    let provider = ProviderRuntimeState {
        provider: ProviderId::Claude,
        enabled: true,
        selected_account_ids: vec!["chat-1".to_string()],
        active_account_id: Some("chat-1".to_string()),
        system_active_account_id: None,
        account_status: AccountSelectionStatus::Ready,
        is_refreshing: false,
        refresh_started_at: None,
        legacy_display_snapshot: None,
        error: None,
    };
    let mut account =
        ProviderAccountRuntimeState::empty(ProviderId::Claude, "chat-1", "Chat account");
    account.health = ProviderHealth::Error;
    account.auth_state = AuthState::ActionRequired;
    account.error = Some("token refresh returned http 400".to_string());
    let state = AppState::empty();

    let message = provider_status_message(&provider, &state, Some(&account));
    assert!(
        !message.contains("http 400"),
        "status message must not contain raw error: {message}"
    );
    assert!(
        message.contains("Re-authenticate") || message.contains("Settings"),
        "status message should be action-oriented: {message}"
    );
}

#[test]
fn cursor_action_required_account_reports_reauth_needed_message() {
    let provider = ProviderRuntimeState {
        provider: ProviderId::Cursor,
        enabled: true,
        selected_account_ids: vec!["cursor-1".to_string()],
        active_account_id: Some("cursor-1".to_string()),
        system_active_account_id: Some("cursor-1".to_string()),
        account_status: AccountSelectionStatus::Ready,
        is_refreshing: false,
        refresh_started_at: None,
        legacy_display_snapshot: None,
        error: None,
    };
    let mut account =
        ProviderAccountRuntimeState::empty(ProviderId::Cursor, "cursor-1", "user@example.com");
    account.health = ProviderHealth::Error;
    account.auth_state = AuthState::ActionRequired;
    account.error = Some("Unauthorized".to_string());
    let state = AppState::empty();

    let message = provider_status_message(&provider, &state, Some(&account));

    assert!(
        message.contains("Re-authenticate") || message.contains("rescan"),
        "status message should explain the Cursor recovery path: {message}"
    );
    assert!(
        !message.contains("Inactive") && !message.contains("inactive"),
        "status message must not describe auth failures as inactive: {message}"
    );
}

#[test]
fn cursor_action_required_badge_copy_uses_reauth_needed() {
    assert_eq!(phrase(Phrase::BadgeCursorReauthNeeded), "Re-auth needed");
    assert!(!phrase(Phrase::BadgeCursorReauthNeededTooltip).contains("inactive"));
}

#[test]
fn codex_without_accounts_reports_login_required() {
    let provider = ProviderRuntimeState {
        provider: ProviderId::Codex,
        enabled: true,
        selected_account_ids: Vec::new(),
        active_account_id: None,
        system_active_account_id: None,
        account_status: AccountSelectionStatus::LoginRequired,
        is_refreshing: false,
        refresh_started_at: None,
        legacy_display_snapshot: None,
        error: Some("Login required".to_string()),
    };
    let state = AppState::empty();

    assert_eq!(
        provider_status_message(&provider, &state, None),
        "Login required"
    );
}

#[test]
fn login_required_empty_state_links_to_each_provider_settings_page() {
    for provider_id in ProviderId::all() {
        let provider = ProviderRuntimeState {
            provider: provider_id,
            enabled: true,
            selected_account_ids: Vec::new(),
            active_account_id: None,
            system_active_account_id: None,
            account_status: AccountSelectionStatus::LoginRequired,
            is_refreshing: false,
            refresh_started_at: None,
            legacy_display_snapshot: None,
            error: Some("Login required".to_string()),
        };
        let state = AppState::empty();

        assert!(should_show_login_required_settings_action(
            &provider, &state, None
        ));
    }
}

#[test]
fn login_required_settings_action_hides_when_account_exists() {
    let provider = ProviderRuntimeState {
        provider: ProviderId::Codex,
        enabled: true,
        selected_account_ids: Vec::new(),
        active_account_id: None,
        system_active_account_id: None,
        account_status: AccountSelectionStatus::LoginRequired,
        is_refreshing: false,
        refresh_started_at: None,
        legacy_display_snapshot: None,
        error: Some("Login required".to_string()),
    };
    let mut state = AppState::empty();
    state
        .provider_accounts
        .push(ProviderAccountRuntimeState::empty(
            ProviderId::Codex,
            "codex-test",
            "test@example.com",
        ));

    assert!(!should_show_login_required_settings_action(
        &provider, &state, None
    ));
}

#[test]
fn detected_provider_without_accounts_shows_detected_cta() {
    // A home directory holding a `.codex` marker is detected as Codex.
    let detection = DetectionSnapshot::new(vec![ProviderId::Codex]);
    let state = AppState::empty();

    assert!(detected_without_accounts(
        &state,
        &detection,
        ProviderId::Codex
    ));
    assert!(!detected_without_accounts(
        &state,
        &detection,
        ProviderId::Claude
    ));

    let mut with_account = state.clone();
    with_account
        .provider_accounts
        .push(ProviderAccountRuntimeState::empty(
            ProviderId::Codex,
            "codex-test",
            "test@example.com",
        ));
    assert!(!detected_without_accounts(
        &with_account,
        &detection,
        ProviderId::Codex
    ));
}
