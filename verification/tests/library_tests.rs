use popup_view::detail::{
    account_body_items, account_header_content_at, account_pager, account_status_badge_at,
    dedup_status_messages, format_updated_label_at, overage_text, provider_status_info,
    secondary_cost_text, selected_provider_view, status_badge_for, updated_label_for,
    window_display_label, window_sections, BadgeTone, BodyItem, ProviderDetailView,
    SecondaryText, StatusBadge, StatusInfo, WindowSection,
};
use popup_view::model::{
    AccountIdentity, AppState, AuthState, DetectionSnapshot, ExtraUsage,
    ProviderAccountRuntimeState, ProviderHealth, ProviderId, ProviderRuntimeState, UpdateStatus,
    UsageSnapshot, UsageWindow, UtcInstant,
};
use popup_view::paging::{
    account_page_next, account_page_previous, clamp_account_page, provider_viewport,
    provider_viewport_max_offset, provider_viewport_navigation_visible,
};
use popup_view::popup::{
    enabled_provider_count, pager_account_label, popup_body_is_scrollable, popup_content,
    popup_header, provider_tab_rows, provider_viewport_max_offset_for, selected_state,
    tab_button_style, update_available, ButtonInteraction, DetailSelection, PopupBody,
    PopupHeader, PopupRoute, TabFill, ViewportNavigation,
};

fn window(label: &str, group: Option<&str>) -> UsageWindow {
    UsageWindow {
        label: label.to_string(),
        reset_at: None,
        window_seconds: None,
        reset_description: None,
        group: group.map(|g| g.to_string()),
    }
}

fn snapshot(provider: ProviderId, windows: Vec<UsageWindow>) -> UsageSnapshot {
    UsageSnapshot {
        provider,
        windows,
        identity: AccountIdentity { email: None, plan: None },
        extra_usage: None,
        has_provider_cost: false,
    }
}

fn state_with_enabled(enabled: &[ProviderId]) -> AppState {
    let mut state = AppState::empty();
    for provider in ProviderId::all() {
        state.provider_mut(provider).unwrap().enabled = enabled.contains(&provider);
    }
    state
}

// 2024-01-02 03:04:00 UTC
const JAN_2_0304: i64 = 1_704_164_640;

fn at(secs: i64) -> UtcInstant {
    UtcInstant { secs, nanos: 0 }
}

#[test]
fn account_paging_wraps_in_both_directions() {
    assert_eq!(account_page_next(2, 3), 0);
    assert_eq!(account_page_next(0, 3), 1);
    assert_eq!(account_page_previous(0, 3), 2);
    assert_eq!(account_page_previous(2, 3), 1);
    assert_eq!(account_page_next(4, 0), 0);
    assert_eq!(account_page_previous(4, 0), 0);
}

#[test]
fn account_paging_round_trips() {
    for count in 1..6usize {
        for page in 0..count {
            assert_eq!(account_page_previous(account_page_next(page, count), count), page);
            assert_eq!(account_page_next(account_page_previous(page, count), count), page);
        }
    }
}

#[test]
fn account_page_is_clamped_to_existing_accounts() {
    assert_eq!(clamp_account_page(7, 3), 2);
    assert_eq!(clamp_account_page(1, 3), 1);
    assert_eq!(clamp_account_page(5, 0), 0);
    assert_eq!(clamp_account_page(clamp_account_page(9, 4), 4), clamp_account_page(9, 4));
}

#[test]
fn viewport_shows_a_full_strip_clamped_to_the_end() {
    let ids = ProviderId::all();
    assert_eq!(provider_viewport(&ids, 0), ids[0..6].to_vec());
    assert_eq!(provider_viewport(&ids, 3), ids[3..9].to_vec());
    assert_eq!(provider_viewport(&ids, 40), ids[5..11].to_vec());
    assert_eq!(provider_viewport(&ids[0..3], 2), ids[0..3].to_vec());
    assert_eq!(provider_viewport_max_offset(11), 5);
    assert_eq!(provider_viewport_max_offset(4), 0);
    assert!(provider_viewport_navigation_visible(7));
    assert!(!provider_viewport_navigation_visible(6));
}

#[test]
fn tab_strip_pages_through_enabled_providers() {
    let state = AppState::empty();
    assert_eq!(enabled_provider_count(&state), 11);
    assert_eq!(provider_viewport_max_offset_for(&state), 5);
    let rows = provider_tab_rows(&state, ProviderId::Grok, 100);
    assert_eq!(rows.offset, 5);
    let shown: Vec<ProviderId> = rows.tabs.iter().map(|t| t.provider).collect();
    assert_eq!(shown, ProviderId::all()[5..11].to_vec());
    let selected: Vec<bool> = rows.tabs.iter().map(|t| t.selected).collect();
    assert_eq!(selected, vec![false, false, false, false, true, false]);
    assert_eq!((rows.side_portion, rows.provider_portion), (0, 1));
    assert_eq!(rows.trailing_spacers, 0);
    assert_eq!(
        rows.navigation,
        Some(ViewportNavigation { previous_enabled: true, next_enabled: false })
    );
    let first = provider_tab_rows(&state, ProviderId::Codex, 0);
    assert_eq!(
        first.navigation,
        Some(ViewportNavigation { previous_enabled: false, next_enabled: true })
    );
}

#[test]
fn short_tab_strip_is_centered_without_arrows() {
    let state = state_with_enabled(&[ProviderId::Codex, ProviderId::Kimi, ProviderId::Zai]);
    let rows = provider_tab_rows(&state, ProviderId::Kimi, 4);
    assert_eq!(rows.offset, 0);
    assert_eq!(rows.tabs.len(), 3);
    assert!(rows.tabs[1].selected);
    assert_eq!((rows.side_portion, rows.provider_portion), (3, 2));
    assert_eq!(rows.trailing_spacers, 0);
    assert_eq!(rows.navigation, None);
}

#[test]
fn tab_look_follows_selection_and_interaction() {
    let look = tab_button_style(true, ButtonInteraction::idle(true));
    assert_eq!(look.fill, Some(TabFill::Selection));
    assert!(look.outline);
    let look = tab_button_style(true, ButtonInteraction::press(false));
    assert_eq!(look.fill, Some(TabFill::Divider));
    assert!(!look.outline);
    let look = tab_button_style(false, ButtonInteraction::hover(true));
    assert_eq!(look.fill, Some(TabFill::Hover));
    assert!(!look.outline);
    let look = tab_button_style(false, ButtonInteraction::idle(false));
    assert_eq!(look.fill, None);
}

#[test]
fn header_shows_back_button_away_from_provider_page() {
    let idle = UpdateStatus::Idle;
    let newer = UpdateStatus::UpdateAvailable { version: "1.2.3".to_string() };
    assert_eq!(popup_header(&PopupRoute::Settings, false, &newer), PopupHeader::Back);
    assert_eq!(
        popup_header(&PopupRoute::ManageAccounts(ProviderId::Gemini), true, &idle),
        PopupHeader::Back
    );
    assert_eq!(
        popup_header(&PopupRoute::ProviderDetail, false, &newer),
        PopupHeader::Main { about_dot: true, refresh_button: true }
    );
    assert_eq!(
        popup_header(&PopupRoute::ProviderDetail, true, &idle),
        PopupHeader::Main { about_dot: false, refresh_button: false }
    );
    assert!(update_available(&newer));
    assert!(!update_available(&UpdateStatus::Checking));
}

#[test]
fn only_settings_and_about_do_not_scroll() {
    assert!(!popup_body_is_scrollable(&PopupRoute::Settings));
    assert!(!popup_body_is_scrollable(&PopupRoute::About));
    assert!(popup_body_is_scrollable(&PopupRoute::ProviderDetail));
    assert!(popup_body_is_scrollable(&PopupRoute::ManageProviders));
    assert!(popup_body_is_scrollable(&PopupRoute::ManageAccounts(ProviderId::Kimi)));
}

#[test]
fn selected_state_falls_back_to_first_enabled_provider() {
    let state = state_with_enabled(&[ProviderId::Cursor, ProviderId::Grok]);
    assert_eq!(selected_state(&state, ProviderId::Grok).unwrap().provider, ProviderId::Grok);
    assert_eq!(selected_state(&state, ProviderId::Codex).unwrap().provider, ProviderId::Cursor);
    let none = state_with_enabled(&[]);
    assert!(selected_state(&none, ProviderId::Codex).is_none());
}

#[test]
fn popup_content_for_settings_page() {
    let state = AppState::empty();
    let detection = DetectionSnapshot::new(Vec::new());
    let selection = DetailSelection {
        provider: ProviderId::Codex,
        account_page: 0,
        provider_viewport_offset: 0,
    };
    let content =
        popup_content(&state, &detection, selection, &PopupRoute::Settings, &UpdateStatus::Idle);
    assert_eq!(content.header, PopupHeader::Back);
    assert!(content.nav_row.is_none());
    assert!(matches!(content.body, PopupBody::Settings));
    assert!(!content.body_scrollable);
    assert_eq!(content.body_spacing, 14);
}

#[test]
fn popup_content_for_provider_page() {
    let detection = DetectionSnapshot::new(Vec::new());
    let selection = DetailSelection {
        provider: ProviderId::Gemini,
        account_page: 0,
        provider_viewport_offset: 0,
    };
    let single = state_with_enabled(&[ProviderId::Gemini]);
    let content = popup_content(
        &single,
        &detection,
        selection,
        &PopupRoute::ProviderDetail,
        &UpdateStatus::Idle,
    );
    assert!(content.nav_row.is_none());
    assert!(content.body_scrollable);
    assert_eq!(content.body_spacing, 6);
    match content.body {
        PopupBody::ProviderDetail(ProviderDetailView::NoAccounts { provider, .. }) => {
            assert_eq!(provider, ProviderId::Gemini)
        }
        other => panic!("unexpected body {other:?}"),
    }

    let two = state_with_enabled(&[ProviderId::Gemini, ProviderId::Kimi]);
    let content =
        popup_content(&two, &detection, selection, &PopupRoute::ProviderDetail, &UpdateStatus::Idle);
    assert_eq!(content.nav_row.unwrap().tabs.len(), 2);

    let empty = state_with_enabled(&[]);
    let content = popup_content(
        &empty,
        &detection,
        selection,
        &PopupRoute::ProviderDetail,
        &UpdateStatus::Idle,
    );
    assert!(matches!(content.body, PopupBody::EmptyState));
    assert_eq!(content.header, PopupHeader::Main { about_dot: false, refresh_button: false });
}

#[test]
fn provider_view_clamps_account_page_and_shows_pager() {
    let mut state = AppState::empty();
    state.provider_accounts.push(ProviderAccountRuntimeState::empty(ProviderId::Kimi, "k1", "one"));
    state.provider_accounts.push(ProviderAccountRuntimeState::empty(ProviderId::Zai, "z1", "other"));
    state.provider_accounts.push(ProviderAccountRuntimeState::empty(ProviderId::Kimi, "k2", "two"));
    state.provider_accounts.push(ProviderAccountRuntimeState::empty(ProviderId::Kimi, "k3", "three"));
    let detection = DetectionSnapshot::new(vec![ProviderId::Kimi]);
    let provider = selected_state(&state, ProviderId::Kimi);
    match selected_provider_view(provider, &state, &detection, 7) {
        ProviderDetailView::Account { provider, detected_without_accounts, account, pager, .. } => {
            assert_eq!(provider, ProviderId::Kimi);
            assert!(!detected_without_accounts);
            assert_eq!(account, 3);
            assert_eq!(pager, Some((2, 3)));
        }
        other => panic!("unexpected view {other:?}"),
    }
    match selected_provider_view(selected_state(&state, ProviderId::Zai), &state, &detection, 0) {
        ProviderDetailView::Account { account, pager, .. } => {
            assert_eq!(account, 1);
            assert_eq!(pager, None);
        }
        other => panic!("unexpected view {other:?}"),
    }
    assert!(matches!(
        selected_provider_view(None, &state, &detection, 0),
        ProviderDetailView::Empty
    ));
}

#[test]
fn body_items_follow_snapshot_and_health() {
    let state = AppState::empty();
    let detection = DetectionSnapshot::new(Vec::new());
    let provider = ProviderRuntimeState::new(ProviderId::Claude, true);

    let mut account = ProviderAccountRuntimeState::empty(ProviderId::Claude, "c1", "a");
    let mut snap = snapshot(ProviderId::Claude, Vec::new());
    snap.extra_usage = Some(ExtraUsage::Disabled);
    account.snapshot = Some(snap.clone());
    assert_eq!(
        account_body_items(Some(&account), &provider, &state, &detection),
        vec![BodyItem::UsageWindows, BodyItem::ExtraUsageDisabled]
    );

    snap.extra_usage = None;
    snap.has_provider_cost = true;
    account.snapshot = Some(snap.clone());
    account.health = ProviderHealth::Error;
    account.error = Some("quota endpoint failed".to_string());
    assert_eq!(
        account_body_items(Some(&account), &provider, &state, &detection),
        vec![BodyItem::StatusInfo, BodyItem::UsageWindows, BodyItem::ExtraUsageCostBar]
    );

    let kimi = ProviderRuntimeState::new(ProviderId::Kimi, true);
    let mut kimi_snap = snapshot(ProviderId::Kimi, Vec::new());
    kimi_snap.has_provider_cost = true;
    let mut kimi_account = ProviderAccountRuntimeState::empty(ProviderId::Kimi, "k", "k");
    kimi_account.snapshot = Some(kimi_snap);
    assert_eq!(
        account_body_items(Some(&kimi_account), &kimi, &state, &detection),
        vec![BodyItem::UsageWindows, BodyItem::Credit]
    );

    let mut gemini = ProviderRuntimeState::new(ProviderId::Gemini, true);
    let mut gemini_snap = snapshot(ProviderId::Gemini, Vec::new());
    gemini_snap.has_provider_cost = true;
    gemini.legacy_display_snapshot = Some(gemini_snap);
    assert_eq!(
        account_body_items(None, &gemini, &state, &detection),
        vec![BodyItem::UsageWindows, BodyItem::Cost]
    );

    let mut codex = ProviderRuntimeState::new(ProviderId::Codex, true);
    let mut codex_snap = snapshot(ProviderId::Codex, Vec::new());
    codex_snap.has_provider_cost = true;
    codex.legacy_display_snapshot = Some(codex_snap);
    assert_eq!(
        account_body_items(None, &codex, &state, &detection),
        vec![BodyItem::UsageWindows, BodyItem::Credit]
    );

    let quiet = ProviderRuntimeState::new(ProviderId::Grok, true);
    assert_eq!(account_body_items(None, &quiet, &state, &detection), Vec::new());
    let mut failing = ProviderRuntimeState::new(ProviderId::Grok, true);
    failing.error = Some("Login required".to_string());
    assert_eq!(
        account_body_items(None, &failing, &state, &detection),
        vec![BodyItem::StatusInfo]
    );
}

#[test]
fn status_info_prefers_detected_provider_offer() {
    let state = AppState::empty();
    let provider = ProviderRuntimeState::new(ProviderId::Gemini, true);
    let detected = DetectionSnapshot::new(vec![ProviderId::Gemini]);
    assert!(matches!(
        provider_status_info(&provider, &state, None, &detected),
        Some(StatusInfo::DetectedProvider(ProviderId::Gemini))
    ));
    let nothing = DetectionSnapshot::new(Vec::new());
    assert!(provider_status_info(&provider, &state, None, &nothing).is_none());
    let mut login = ProviderRuntimeState::new(ProviderId::Gemini, true);
    login.error = Some("Login required".to_string());
    match provider_status_info(&login, &state, None, &nothing) {
        Some(StatusInfo::Message { text, settings_action }) => {
            assert_eq!(text, "Login required");
            assert!(settings_action);
        }
        other => panic!("unexpected status {other:?}"),
    }
}

#[test]
fn windows_are_grouped_in_consecutive_runs() {
    let windows = vec![
        window("5 Hour", None),
        window("Gemini Pro", Some("Gemini")),
        window("Gemini Flash", Some("Gemini")),
        window("GPT", Some("Other")),
        window("Weekly", None),
        window("Gemini Lite", Some("Gemini")),
    ];
    let sections = window_sections(&snapshot(ProviderId::Antigravity, windows));
    assert_eq!(
        sections,
        vec![
            WindowSection::Single(0),
            WindowSection::Group { start: 1, end: 3 },
            WindowSection::Group { start: 3, end: 4 },
            WindowSection::Single(4),
            WindowSection::Group { start: 5, end: 6 },
        ]
    );
    let zai = window_sections(&snapshot(ProviderId::Zai, vec![window("MCP", None)]));
    assert_eq!(zai, vec![WindowSection::ZaiCodingPlanNotice, WindowSection::Single(0)]);
    assert_eq!(window_sections(&snapshot(ProviderId::Zai, Vec::new())), Vec::new());
}

#[test]
fn status_messages_are_deduplicated_in_order() {
    let messages = vec![
        "a".to_string(),
        String::new(),
        "b".to_string(),
        "a".to_string(),
        "c".to_string(),
        "b".to_string(),
    ];
    let once = dedup_status_messages(messages);
    assert_eq!(once, vec!["a".to_string(), "b".to_string(), "c".to_string()]);
    assert_eq!(dedup_status_messages(once.clone()), once);
}

#[test]
fn copilot_windows_get_readable_titles() {
    assert_eq!(window_display_label(ProviderId::Copilot, "chat"), "Chat");
    assert_eq!(window_display_label(ProviderId::Copilot, "completions"), "Completions");
    assert_eq!(
        window_display_label(ProviderId::Copilot, "premium_interactions"),
        "Premium requests"
    );
    assert_eq!(window_display_label(ProviderId::Copilot, "credits"), "Credits");
    assert_eq!(window_display_label(ProviderId::Copilot, "Weekly"), "Weekly");
    assert_eq!(window_display_label(ProviderId::Codex, "chat"), "chat");
}

#[test]
fn overage_text_only_for_premium_and_credit_windows() {
    let mut premium = window("premium_interactions", None);
    premium.reset_description = Some("12 over quota".to_string());
    assert_eq!(overage_text(&premium), Some("12 over quota".to_string()));
    let mut credits = window("credits", None);
    credits.reset_description = None;
    assert_eq!(overage_text(&credits), None);
    let mut chat = window("chat", None);
    chat.reset_description = Some("resets tomorrow".to_string());
    assert_eq!(overage_text(&chat), None);
}

#[test]
fn secondary_text_kind() {
    assert_eq!(secondary_cost_text("", &Some("tip".to_string())), SecondaryText::Hidden);
    assert_eq!(secondary_cost_text("$3", &Some("USD".to_string())), SecondaryText::WithTooltip);
    assert_eq!(secondary_cost_text("$3", &None), SecondaryText::Plain);
}

#[test]
fn pager_label_falls_back_to_position() {
    assert_eq!(pager_account_label(2, ""), "Account 3");
    assert_eq!(pager_account_label(0, " \t\u{3000}"), "Account 1");
    assert_eq!(pager_account_label(11, "  work "), "  work ");
    let account = ProviderAccountRuntimeState::empty(ProviderId::Codex, "c", "");
    let pager = account_pager(&account, 1, 3);
    assert_eq!(pager.name, "Account 2");
    assert_eq!(pager.dots, vec![false, true, false]);
}

#[test]
fn updated_label_by_age() {
    assert_eq!(updated_label_for(Some(-3), None), "Updated just now");
    assert_eq!(updated_label_for(Some(9), None), "Updated just now");
    assert_eq!(updated_label_for(Some(42), None), "Updated 42s ago");
    assert_eq!(updated_label_for(Some(3599), None), "Updated 59m ago");
    assert_eq!(updated_label_for(Some(7200), None), "Updated 2h ago");
    assert_eq!(
        updated_label_for(Some(90_000), Some("2024-01-02 03:04".to_string())),
        "Updated 2024-01-02 03:04"
    );
    assert_eq!(updated_label_for(None, None), "Updated ");
}

#[test]
fn updated_label_uses_chrono_time_difference_and_format() {
    let last = at(JAN_2_0304);
    assert_eq!(format_updated_label_at(last, at(JAN_2_0304 + 42)), "Updated 42s ago");
    assert_eq!(format_updated_label_at(last, at(JAN_2_0304 + 3 * 3600 + 5)), "Updated 3h ago");
    assert_eq!(
        format_updated_label_at(last, at(JAN_2_0304 + 2 * 86_400)),
        "Updated 2024-01-02 03:04"
    );
    // 9.5 seconds count as 9 whole seconds.
    let half = UtcInstant { secs: JAN_2_0304, nanos: 500_000_000 };
    assert_eq!(format_updated_label_at(half, at(JAN_2_0304 + 10)), "Updated just now");
    assert_eq!(format_updated_label_at(half, at(JAN_2_0304 + 11)), "Updated 10s ago");
}

#[test]
fn badges_follow_refresh_state() {
    let provider = ProviderRuntimeState::new(ProviderId::Gemini, true);
    let mut account = ProviderAccountRuntimeState::empty(ProviderId::Gemini, "g", "g");
    assert_eq!(status_badge_for(&account, &provider, None), StatusBadge::Loading);
    account.snapshot = Some(snapshot(ProviderId::Gemini, Vec::new()));
    account.health = ProviderHealth::Healthy;
    account.last_success_at = Some(at(JAN_2_0304));
    assert_eq!(
        account_status_badge_at(&account, &provider, at(JAN_2_0304 + 600)),
        StatusBadge::Live
    );
    assert_eq!(
        account_status_badge_at(&account, &provider, at(JAN_2_0304 + 1200)),
        StatusBadge::Stale
    );
    account.health = ProviderHealth::Error;
    assert_eq!(status_badge_for(&account, &provider, Some(1)), StatusBadge::Error);
    account.auth_state = AuthState::ActionRequired;
    assert_eq!(status_badge_for(&account, &provider, Some(1)), StatusBadge::LoginRequired);
    let mut cursor = ProviderAccountRuntimeState::empty(ProviderId::Cursor, "c", "c");
    cursor.auth_state = AuthState::ActionRequired;
    assert_eq!(status_badge_for(&cursor, &provider, None), StatusBadge::CursorReauthNeeded);
    let mut refreshing = ProviderRuntimeState::new(ProviderId::Cursor, true);
    refreshing.is_refreshing = true;
    assert_eq!(status_badge_for(&cursor, &refreshing, None), StatusBadge::Refreshing);
    assert_eq!(StatusBadge::Live.label(), "Live");
    assert_eq!(StatusBadge::Error.tone(), BadgeTone::Destructive);
    assert_eq!(StatusBadge::CursorReauthNeeded.label(), "Re-auth needed");
}

#[test]
fn account_header_prefers_email_and_hides_blank_plan() {
    let mut provider = ProviderRuntimeState::new(ProviderId::Codex, true);
    provider.system_active_account_id = Some("acct".to_string());
    let mut account = ProviderAccountRuntimeState::empty(ProviderId::Codex, "acct", "Work");
    let mut snap = snapshot(ProviderId::Codex, Vec::new());
    snap.identity = AccountIdentity {
        email: Some("me@example.com".to_string()),
        plan: Some("  ".to_string()),
    };
    account.snapshot = Some(snap.clone());
    account.health = ProviderHealth::Healthy;
    account.last_success_at = Some(at(JAN_2_0304));
    let header = account_header_content_at(&account, &provider, at(JAN_2_0304 + 120));
    assert_eq!(header.label, "me@example.com");
    assert_eq!(header.plan, None);
    assert!(header.system_active);
    assert_eq!(header.status, StatusBadge::Live);
    assert_eq!(header.updated, Some("Updated 2m ago".to_string()));

    snap.identity = AccountIdentity { email: Some(String::new()), plan: Some("Pro".to_string()) };
    account.snapshot = Some(snap);
    account.account_id = "other".to_string();
    let header = account_header_content_at(&account, &provider, at(JAN_2_0304 + 120));
    assert_eq!(header.label, "Work");
    assert_eq!(header.plan, Some("Pro".to_string()));
    assert!(!header.system_active);
}

#[test]
fn provider_list_has_every_provider_once() {
    let all = ProviderId::all();
    assert_eq!(all.len(), 11);
    for (i, a) in all.iter().enumerate() {
        for b in &all[i + 1..] {
            assert_ne!(a, b);
        }
    }
}

fn instant_of(time: chrono::DateTime<chrono::Utc>) -> UtcInstant {
    UtcInstant { secs: time.timestamp(), nanos: time.timestamp_subsec_nanos() }
}

#[test]
fn clock_based_labels_read_the_system_clock() {
    let recent = instant_of(chrono::Utc::now() - chrono::TimeDelta::seconds(3));
    assert_eq!(popup_view::detail::format_updated_label(recent), "Updated just now");
    let old = instant_of(chrono::Utc::now() - chrono::TimeDelta::hours(5));
    assert_eq!(popup_view::detail::format_updated_label(old), "Updated 5h ago");

    let provider = ProviderRuntimeState::new(ProviderId::Gemini, true);
    let mut account = ProviderAccountRuntimeState::empty(ProviderId::Gemini, "g", "g");
    account.snapshot = Some(snapshot(ProviderId::Gemini, Vec::new()));
    account.health = ProviderHealth::Healthy;
    account.last_success_at = Some(instant_of(chrono::Utc::now() - chrono::TimeDelta::minutes(1)));
    assert_eq!(popup_view::detail::account_status_badge(&account, &provider), StatusBadge::Live);
    account.last_success_at = Some(instant_of(chrono::Utc::now() - chrono::TimeDelta::hours(2)));
    assert_eq!(popup_view::detail::account_status_badge(&account, &provider), StatusBadge::Stale);
    let header = popup_view::detail::account_header_content(&account, &provider);
    assert_eq!(header.updated, Some("Updated 2h ago".to_string()));
}

#[test]
fn badge_turns_stale_at_the_threshold() {
    let provider = ProviderRuntimeState::new(ProviderId::Gemini, true);
    let mut account = ProviderAccountRuntimeState::empty(ProviderId::Gemini, "g", "g");
    account.snapshot = Some(snapshot(ProviderId::Gemini, Vec::new()));
    account.health = ProviderHealth::Healthy;
    let last = UtcInstant { secs: JAN_2_0304, nanos: 250_000_000 };
    account.last_success_at = Some(last);
    assert_eq!(account_status_badge_at(&account, &provider, last), StatusBadge::Live);
    let almost = UtcInstant { secs: JAN_2_0304 + 900, nanos: 249_999_999 };
    assert_eq!(account_status_badge_at(&account, &provider, almost), StatusBadge::Live);
    let exactly = UtcInstant { secs: JAN_2_0304 + 900, nanos: 250_000_000 };
    assert_eq!(account_status_badge_at(&account, &provider, exactly), StatusBadge::Stale);
    let earlier = UtcInstant { secs: JAN_2_0304 - 30, nanos: 0 };
    assert_eq!(account_status_badge_at(&account, &provider, earlier), StatusBadge::Live);
}
