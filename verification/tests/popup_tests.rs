use popup_view::model::{AppState, DetectionSnapshot, ProviderAccountRuntimeState, ProviderId};
use popup_view::paging::provider_viewport_portions;
use popup_view::popup::{detected_without_accounts, popup_empty_state_active};

#[test]
fn partial_provider_viewport_is_centered_with_equal_side_space() {
    for provider_count in 2..=5 {
        let (side_portion, provider_portion) = provider_viewport_portions(provider_count);

        assert_eq!(
            side_portion * 2 + provider_portion * provider_count as u16,
            12
        );
    }
}

#[test]
fn empty_state_is_active_without_enabled_provider_tabs() {
    let mut state = AppState::empty();
    for provider in ProviderId::all() {
        state.provider_mut(provider).unwrap().enabled = false;
    }

    assert!(popup_empty_state_active(&state));
    state.provider_mut(ProviderId::Codex).unwrap().enabled = true;

    assert!(!popup_empty_state_active(&state));
}

#[test]
fn detected_settings_hint_ignores_explicit_disablement_but_hides_after_account_added() {
    // A home directory holding a `.codex` marker is detected as Codex.
    let detection = DetectionSnapshot::new(vec![ProviderId::Codex]);
    let mut state = AppState::empty();
    state.provider_mut(ProviderId::Codex).unwrap().enabled = false;

    assert!(detected_without_accounts(
        &state,
        &detection,
        ProviderId::Codex
    ));

    state
        .provider_accounts
        .push(ProviderAccountRuntimeState::empty(
            ProviderId::Codex,
            "codex-test",
            "test@example.com",
        ));
    assert!(!detected_without_accounts(
        &state,
        &detection,
        ProviderId::Codex
    ));
}
