use crate::clock::{
    chrono_minute_stamp, is_ordinary_instant, minute_stamp, nanos_between, seconds_between,
    utc_now, whole_seconds_between, whole_seconds_of,
};
use crate::model::{
    account_positions, has_account, lemma_account_positions_exact, status_line_text,
    AccountSelectionStatus, AppState, AuthState, DetectionSnapshot, ExtraUsage,
    ProviderAccountRuntimeState, ProviderHealth, ProviderId, ProviderRuntimeState, UsageSnapshot,
    UsageWindow, UtcInstant, STALE_THRESHOLD_SECONDS,
};
use crate::paging::{clamp_account_page, clamped_page};
use crate::phrases::{phrase, phrase_text, Phrase};
use crate::popup::{detected_without_accounts, pager_account_label, pager_label_text};
use crate::text::{
    decimal_text, is_blank, is_blank_text, is_white_space, join_with_spaces, joined_with_spaces,
    push_decimal, same_str, same_text,
};
use vstd::prelude::*;

verus! {

/// The provider state a reference points to, if any.
pub open spec fn provider_state(p: Option<&ProviderRuntimeState>) -> Option<ProviderRuntimeState> {
    match p {
        Some(x) => Some(*x),
        None => None,
    }
}

/// The account a reference points to, if any.
pub open spec fn deref_account(a: Option<&ProviderAccountRuntimeState>) -> Option<ProviderAccountRuntimeState> {
    match a {
        Some(x) => Some(*x),
        None => None,
    }
}

/// `messages` without empty texts and without repeats, first occurrences kept
/// in order.
pub open spec fn deduped(messages: Seq<Seq<char>>) -> Seq<Seq<char>>
    decreases messages.len(),
{
    if messages.len() == 0 {
        Seq::empty()
    } else {
        let rest = deduped(messages.drop_last());
        let m = messages.last();
        if m.len() > 0 && !rest.contains(m) {
            rest.push(m)
        } else {
            rest
        }
    }
}

/// Dropping empty and repeated messages leaves no empty message, no message
/// twice, every non-empty message of the input, and nothing else.
pub proof fn lemma_deduped_keeps_each_message_once(messages: Seq<Seq<char>>)
    ensures
        forall|i: int| 0 <= i < deduped(messages).len() ==> #[trigger] deduped(messages)[i].len() > 0,
        forall|i: int, j: int|
            0 <= i < j < deduped(messages).len() ==> deduped(messages)[i] != deduped(messages)[j],
        forall|i: int|
            0 <= i < messages.len() && #[trigger] messages[i].len() > 0 ==> deduped(
                messages,
            ).contains(messages[i]),
        forall|i: int|
            0 <= i < deduped(messages).len() ==> messages.contains(#[trigger] deduped(messages)[i]),
    decreases messages.len(),
{
    if messages.len() > 0 {
        let rest = messages.drop_last();
        lemma_deduped_keeps_each_message_once(rest);
        let d = deduped(messages);
        let dr = deduped(rest);
        assert forall|i: int| 0 <= i < messages.len() && #[trigger] messages[i].len() > 0 implies d.contains(messages[i]) by {
            if i < messages.len() - 1 {
                assert(rest[i] == messages[i]);
                assert(dr.contains(rest[i]));
                let j = choose|j: int| 0 <= j < dr.len() && dr[j] == rest[i];
                if d.len() > dr.len() {
                    assert(d[j] == dr[j]);
                } else {
                    assert(d[j] == dr[j]);
                }
            } else {
                if !dr.contains(messages.last()) {
                    assert(d[d.len() - 1] == messages.last());
                }
            }
        }
        assert forall|i: int| 0 <= i < d.len() implies messages.contains(#[trigger] d[i]) by {
            if i < dr.len() {
                assert(d[i] == dr[i]);
                assert(rest.contains(dr[i]));
                let j = choose|j: int| 0 <= j < rest.len() && rest[j] == dr[i];
                assert(messages[j] == rest[j]);
            } else {
                assert(messages[messages.len() - 1] == d[i]);
            }
        }
    }
}

/// Messages that are already non-empty and distinct pass through unchanged;
/// so dropping empty and repeated messages a second time changes nothing.
pub proof fn lemma_deduped_idempotent(messages: Seq<Seq<char>>)
    ensures
        deduped(deduped(messages)) == deduped(messages),
{
    lemma_deduped_keeps_each_message_once(messages);
    lemma_deduped_distinct_unchanged(deduped(messages));
}

/// Non-empty, pairwise distinct messages are left as they are.
pub proof fn lemma_deduped_distinct_unchanged(messages: Seq<Seq<char>>)
    requires
        forall|i: int| 0 <= i < messages.len() ==> #[trigger] messages[i].len() > 0,
        forall|i: int, j: int| 0 <= i < j < messages.len() ==> messages[i] != messages[j],
    ensures
        deduped(messages) == messages,
    decreases messages.len(),
{
    if messages.len() > 0 {
        let rest = messages.drop_last();
        lemma_deduped_distinct_unchanged(rest);
        assert(!rest.contains(messages.last())) by {
            if rest.contains(messages.last()) {
                let j = choose|j: int| 0 <= j < rest.len() && rest[j] == messages.last();
                assert(messages[j] == messages[messages.len() - 1]);
            }
        }
        assert(messages.last().len() > 0) by {
            assert(messages[messages.len() - 1].len() > 0);
        }
        assert(rest.push(messages.last()) =~= messages);
    }
}

/// Whether `texts` holds the text `t`.
fn contains_text(texts: &Vec<String>, t: &String) -> (r: bool)
    ensures
        r == texts.deep_view().contains(t@),
{
    let n = texts.len();
    for k in 0..n
        invariant
            n == texts@.len(),
            forall|j: int| 0 <= j < k ==> texts.deep_view()[j] != t@,
    {
        assert(texts.deep_view()[k as int] == texts@[k as int]@);
        if texts[k] == *t {
            assert(texts.deep_view()[k as int] == t@);
            return true;
        }
    }
    false
}

/// Drops empty and repeated status messages, keeping first occurrences in order.
pub fn dedup_status_messages(messages: Vec<String>) -> (r: Vec<String>)
    ensures
        r.deep_view() == deduped(messages.deep_view()),
{
    let ghost input = messages.deep_view();
    let mut deduped_messages: Vec<String> = Vec::new();
    let n = messages.len();
    for k in 0..n
        invariant
            n == messages@.len(),
            input == messages.deep_view(),
            deduped_messages.deep_view() == deduped(input.take(k as int)),
    {
        assert(input.take(k + 1).drop_last() =~= input.take(k as int));
        assert(input[k as int] == messages@[k as int]@);
        let message = messages[k].clone();
        if !message.as_str().is_empty() && !contains_text(&deduped_messages, &message) {
            let ghost before = deduped_messages.deep_view();
            deduped_messages.push(message);
            assert(deduped_messages.deep_view() =~= before.push(input[k as int]));
        }
    }
    assert(input.take(n as int) =~= input);
    deduped_messages
}


/// Whether the account shown is a Cursor account whose sign-in must be renewed.
pub open spec fn cursor_reauth_needed(active: Option<ProviderAccountRuntimeState>) -> bool {
    active matches Some(a) && a.provider == ProviderId::Cursor && a.auth_state
        == AuthState::ActionRequired
}

/// The status messages, before empty and repeated ones are dropped.
pub open spec fn status_messages(
    provider: ProviderRuntimeState,
    active: Option<ProviderAccountRuntimeState>,
) -> Seq<Seq<char>> {
    if cursor_reauth_needed(active) {
        seq![phrase_text(Phrase::CursorAccountReauthDetail)]
    } else if active matches Some(a) && a.health == ProviderHealth::Error {
        let a = active.unwrap();
        if a.auth_state == AuthState::ActionRequired {
            seq![phrase_text(Phrase::AccountReauthSummary)]
        } else {
            match a.error {
                Some(e) => seq![e@],
                None => Seq::empty(),
            }
        }
    } else {
        seq![status_line_text(provider)]
    }
}

/// The status text shown for a provider and the account shown.
pub open spec fn status_message_text(
    provider: ProviderRuntimeState,
    active: Option<ProviderAccountRuntimeState>,
) -> Seq<char> {
    joined_with_spaces(deduped(status_messages(provider, active)))
}

/// The status text for a provider: a re-authentication hint when the
/// account's sign-in must be renewed, the account's own error when its last
/// refresh failed, and otherwise the provider's status line.
pub fn provider_status_message(
    provider: &ProviderRuntimeState,
    _state: &AppState,
    active_account: Option<&ProviderAccountRuntimeState>,
) -> (r: String)
    ensures
        r@ == status_message_text(*provider, deref_account(active_account)),
{
    let mut messages: Vec<String> = Vec::new();
    let cursor_reauth = match active_account {
        Some(a) => a.provider == ProviderId::Cursor && a.auth_state == AuthState::ActionRequired,
        None => false,
    };
    if cursor_reauth {
        messages.push(phrase(Phrase::CursorAccountReauthDetail));
    } else if active_account.is_some() && active_account.unwrap().health == ProviderHealth::Error {
        let account = active_account.unwrap();
        if account.auth_state == AuthState::ActionRequired {
            messages.push(phrase(Phrase::AccountReauthSummary));
        } else if let Some(error) = &account.error {
            messages.push(error.clone());
        }
    } else {
        messages.push(provider.status_line(active_account));
    }
    assert(messages.deep_view() =~= status_messages(*provider, deref_account(active_account)));
    let deduped_messages = dedup_status_messages(messages);
    join_with_spaces(&deduped_messages)
}

/// When the account shown must sign in again and its last refresh failed,
/// the status text is the re-authentication hint alone: the raw error of the
/// failed refresh is never shown.
pub proof fn lemma_reauth_hides_raw_error(
    provider: ProviderRuntimeState,
    account: ProviderAccountRuntimeState,
)
    requires
        account.health == ProviderHealth::Error,
        account.auth_state == AuthState::ActionRequired,
    ensures
        status_message_text(provider, Some(account)) == if account.provider == ProviderId::Cursor {
            phrase_text(Phrase::CursorAccountReauthDetail)
        } else {
            phrase_text(Phrase::AccountReauthSummary)
        },
{
    reveal_strlit("Cursor needs a fresh sign-in. Re-authenticate in Cursor, then rescan from Settings.");
    reveal_strlit("This account's sign-in has expired. Re-authenticate it in Settings.");
    let ms = status_messages(provider, Some(account));
    assert(ms.drop_last() =~= Seq::<Seq<char>>::empty());
    assert(deduped(ms.drop_last()) =~= Seq::<Seq<char>>::empty());
    assert(deduped(ms) =~= ms);
}

/// Whether the status card offers a link to the provider's account settings:
/// no account is shown, the provider has no account at all, and it needs a
/// sign-in.
pub fn should_show_login_required_settings_action(
    provider: &ProviderRuntimeState,
    state: &AppState,
    active_account: Option<&ProviderAccountRuntimeState>,
) -> (r: bool)
    ensures
        r == (active_account is None && !has_account(state.provider_accounts@, provider.provider)
            && provider.account_status == AccountSelectionStatus::LoginRequired),
{
    active_account.is_none() && !state.has_accounts_for(provider.provider)
        && provider.account_status == AccountSelectionStatus::LoginRequired
}


/// What the status card of a provider says.
#[derive(Debug)]
pub enum StatusInfo {
    /// The provider was found on this machine but has no account: offer to add one.
    DetectedProvider(ProviderId),
    /// A status text, with a link to the provider's account settings when asked.
    Message { text: String, settings_action: bool },
}

/// Whether a provider was found on this machine but has no account yet.
pub open spec fn detected_without_account(
    provider: ProviderId,
    accounts: Seq<ProviderAccountRuntimeState>,
    detected: Seq<ProviderId>,
) -> bool {
    detected.contains(provider) && !has_account(accounts, provider)
}

/// Once an account of a provider is added, the provider no longer counts as
/// detected without accounts, and the status card no longer links to its
/// account settings.
pub proof fn lemma_added_account_hides_hints(
    accounts: Seq<ProviderAccountRuntimeState>,
    detected: Seq<ProviderId>,
    added: ProviderAccountRuntimeState,
)
    ensures
        !detected_without_account(added.provider, accounts.push(added), detected),
        has_account(accounts.push(added), added.provider),
{
    let extended = accounts.push(added);
    assert(extended[extended.len() - 1].provider == added.provider);
}

/// Whether the provider's status card is shown at all.
pub open spec fn status_info_present(
    provider: ProviderRuntimeState,
    accounts: Seq<ProviderAccountRuntimeState>,
    active: Option<ProviderAccountRuntimeState>,
    detected: Seq<ProviderId>,
) -> bool {
    detected_without_account(provider.provider, accounts, detected) || status_message_text(
        provider,
        active,
    ).len() > 0
}

/// The status card of a provider: an offer to add an account when the
/// provider was detected without one, otherwise its status text (if any),
/// with the settings link when a sign-in is needed and no account exists.
pub fn provider_status_info(
    provider: &ProviderRuntimeState,
    state: &AppState,
    active_account: Option<&ProviderAccountRuntimeState>,
    detection: &DetectionSnapshot,
) -> (r: Option<StatusInfo>)
    ensures
        r is Some == status_info_present(
            *provider,
            state.provider_accounts@,
            deref_account(active_account),
            detection.detected_providers@,
        ),
        detected_without_account(
            provider.provider,
            state.provider_accounts@,
            detection.detected_providers@,
        ) ==> r == Some(StatusInfo::DetectedProvider(provider.provider)),
        !detected_without_account(
            provider.provider,
            state.provider_accounts@,
            detection.detected_providers@,
        ) ==> match r {
            Some(StatusInfo::Message { text, settings_action }) => text@ == status_message_text(
                *provider,
                deref_account(active_account),
            ) && settings_action == (active_account is None && !has_account(
                state.provider_accounts@,
                provider.provider,
            ) && provider.account_status == AccountSelectionStatus::LoginRequired),
            Some(StatusInfo::DetectedProvider(_)) => false,
            None => true,
        },
{
    if detected_without_accounts(state, detection, provider.provider) {
        return Some(StatusInfo::DetectedProvider(provider.provider));
    }
    let message = provider_status_message(provider, state, active_account);
    if message.as_str().is_empty() {
        return None;
    }
    let settings_action = should_show_login_required_settings_action(provider, state, active_account);
    Some(StatusInfo::Message { text: message, settings_action })
}

/// The usage the detail page shows: the account's own snapshot, else the
/// provider's snapshot from before accounts were tracked.
pub open spec fn active_snapshot(
    account: Option<ProviderAccountRuntimeState>,
    provider: ProviderRuntimeState,
) -> Option<UsageSnapshot> {
    match account {
        Some(a) => match a.snapshot {
            Some(s) => Some(s),
            None => provider.legacy_display_snapshot,
        },
        None => provider.legacy_display_snapshot,
    }
}

/// The usage the detail page shows for an account of a provider.
pub fn active_snapshot_for_account<'a>(
    account: Option<&'a ProviderAccountRuntimeState>,
    provider: &'a ProviderRuntimeState,
) -> (r: Option<&'a UsageSnapshot>)
    ensures
        match active_snapshot(deref_account(account), *provider) {
            Some(s) => r is Some && *r.unwrap() == s,
            None => r is None,
        },
{
    match account {
        Some(a) => match &a.snapshot {
            Some(s) => Some(s),
            None => provider.legacy_display_snapshot.as_ref(),
        },
        None => provider.legacy_display_snapshot.as_ref(),
    }
}


/// How a provider's cost is shown: as a credit balance or as spending.
#[derive(Clone, Copy, Debug, PartialEq, Eq, Structural)]
pub enum CostSection {
    Credit,
    Cost,
}

/// How a provider's cost is shown: Codex and Grok report credit balances.
pub open spec fn cost_section_for(provider: ProviderId) -> CostSection {
    if provider == ProviderId::Codex || provider == ProviderId::Grok {
        CostSection::Credit
    } else {
        CostSection::Cost
    }
}

/// How a provider's cost is shown.
pub fn cost_section(provider: ProviderId) -> (r: CostSection)
    ensures
        r == cost_section_for(provider),
{
    if provider == ProviderId::Codex || provider == ProviderId::Grok {
        CostSection::Credit
    } else {
        CostSection::Cost
    }
}

/// One card of the usage section of the detail page.
#[derive(Clone, Copy, Debug, PartialEq, Eq, Structural)]
pub enum BodyItem {
    /// The provider's status card (see [`provider_status_info`]).
    StatusInfo,
    /// The usage windows of the snapshot (see [`window_sections`]).
    UsageWindows,
    /// Extra usage is switched off.
    ExtraUsageDisabled,
    /// Extra usage is on, with its own percentage.
    ExtraUsageActive,
    /// Extra usage as a bar computed from the cost alone.
    ExtraUsageCostBar,
    /// The provider's credit balance.
    Credit,
    /// The provider's spending.
    Cost,
}

/// The cards shown after the usage windows of a snapshot.
pub open spec fn cost_items(snapshot: UsageSnapshot) -> Seq<BodyItem> {
    if snapshot.provider == ProviderId::Claude {
        match snapshot.extra_usage {
            Some(ExtraUsage::Disabled) => seq![BodyItem::ExtraUsageDisabled],
            Some(ExtraUsage::Active) => seq![BodyItem::ExtraUsageActive],
            None => if snapshot.has_provider_cost {
                seq![BodyItem::ExtraUsageCostBar]
            } else {
                Seq::empty()
            },
        }
    } else if snapshot.has_provider_cost {
        if snapshot.provider == ProviderId::Kimi {
            seq![BodyItem::Credit]
        } else if cost_section_for(snapshot.provider) == CostSection::Credit {
            seq![BodyItem::Credit]
        } else {
            seq![BodyItem::Cost]
        }
    } else {
        Seq::empty()
    }
}

/// The cards of the usage section of the detail page, in order.
pub open spec fn body_items(
    account: Option<ProviderAccountRuntimeState>,
    provider: ProviderRuntimeState,
    accounts: Seq<ProviderAccountRuntimeState>,
    detected: Seq<ProviderId>,
) -> Seq<BodyItem> {
    let status = if status_info_present(provider, accounts, account, detected) {
        seq![BodyItem::StatusInfo]
    } else {
        Seq::empty()
    };
    match active_snapshot(account, provider) {
        Some(snapshot) => {
            let failed = account matches Some(a) && a.health == ProviderHealth::Error;
            (if failed {
                status
            } else {
                Seq::empty()
            }) + seq![BodyItem::UsageWindows] + cost_items(snapshot)
        },
        None => status,
    }
}

/// The cards of the usage section of the detail page: with usage to show,
/// the status card when the account's refresh failed, the usage windows and
/// the cost cards; without usage, the status card alone.
pub fn account_body_items(
    account: Option<&ProviderAccountRuntimeState>,
    provider: &ProviderRuntimeState,
    state: &AppState,
    detection: &DetectionSnapshot,
) -> (r: Vec<BodyItem>)
    ensures
        r@ == body_items(
            deref_account(account),
            *provider,
            state.provider_accounts@,
            detection.detected_providers@,
        ),
{
    let mut items: Vec<BodyItem> = Vec::new();
    let snapshot = active_snapshot_for_account(account, provider);
    if let Some(snapshot) = snapshot {
        let failed = match account {
            Some(a) => a.health == ProviderHealth::Error,
            None => false,
        };
        if failed && provider_status_info(provider, state, account, detection).is_some() {
            items.push(BodyItem::StatusInfo);
        }
        items.push(BodyItem::UsageWindows);
        if snapshot.provider == ProviderId::Claude {
            match snapshot.extra_usage {
                Some(ExtraUsage::Disabled) => items.push(BodyItem::ExtraUsageDisabled),
                Some(ExtraUsage::Active) => items.push(BodyItem::ExtraUsageActive),
                None => {
                    if snapshot.has_provider_cost {
                        items.push(BodyItem::ExtraUsageCostBar);
                    }
                },
            }
        } else if snapshot.has_provider_cost {
            if snapshot.provider == ProviderId::Kimi {
                items.push(BodyItem::Credit);
            } else {
                match cost_section(snapshot.provider) {
                    CostSection::Credit => items.push(BodyItem::Credit),
                    CostSection::Cost => items.push(BodyItem::Cost),
                }
            }
        }
    } else if provider_status_info(provider, state, account, detection).is_some() {
        items.push(BodyItem::StatusInfo);
    }
    let ghost expected = body_items(
        deref_account(account),
        *provider,
        state.provider_accounts@,
        detection.detected_providers@,
    );
    assert(items@ =~= expected);
    items
}

/// Whether the snapshot a usage section shows belongs to the provider that
/// reports extra usage, and reports it as `state`.
pub open spec fn shows_reported_extra_usage(
    account: Option<ProviderAccountRuntimeState>,
    provider: ProviderRuntimeState,
    state: ExtraUsage,
) -> bool {
    active_snapshot(account, provider) matches Some(s) && s.provider == ProviderId::Claude
        && s.extra_usage == Some(state)
}

/// The extra-usage card of a usage section follows what the shown snapshot
/// reports: the active card appears exactly when the extra-usage provider's
/// snapshot reports extra usage on, the disabled card exactly when it reports
/// it off, so the two never appear together and neither appears for any
/// other snapshot.
pub proof fn lemma_extra_usage_card_follows_snapshot(
    account: Option<ProviderAccountRuntimeState>,
    provider: ProviderRuntimeState,
    accounts: Seq<ProviderAccountRuntimeState>,
    detected: Seq<ProviderId>,
)
    ensures
        body_items(account, provider, accounts, detected).contains(BodyItem::ExtraUsageActive)
            <==> shows_reported_extra_usage(account, provider, ExtraUsage::Active),
        body_items(account, provider, accounts, detected).contains(BodyItem::ExtraUsageDisabled)
            <==> shows_reported_extra_usage(account, provider, ExtraUsage::Disabled),
{
    let items = body_items(account, provider, accounts, detected);
    let status = if status_info_present(provider, accounts, account, detected) {
        seq![BodyItem::StatusInfo]
    } else {
        Seq::empty()
    };
    match active_snapshot(account, provider) {
        Some(snap) => {
            let failed = account matches Some(a) && a.health == ProviderHealth::Error;
            let pre = (if failed {
                status
            } else {
                Seq::empty()
            }) + seq![BodyItem::UsageWindows];
            let c = cost_items(snap);
            assert(items == pre + c);
            assert(forall|i: int| 0 <= i < pre.len() ==> #[trigger] pre[i] == BodyItem::StatusInfo
                || pre[i] == BodyItem::UsageWindows);
            assert forall|i: int| 0 <= i < items.len() implies (#[trigger] items[i] == if i
                < pre.len() {
                pre[i]
            } else {
                c[i - pre.len()]
            }) by {}
            if c.len() > 0 {
                assert(items[pre.len() as int] == c[0]);
            }
        },
        None => {
            assert(items == status);
        },
    }
}

/// Whether the provider of a snapshot reports its cost as a credit balance:
/// Codex, Grok and Kimi.
pub open spec fn reports_credit_balance(provider: ProviderId) -> bool {
    provider == ProviderId::Codex || provider == ProviderId::Grok || provider == ProviderId::Kimi
}

/// The cards of a usage section follow the shown snapshot and the account:
/// the usage windows appear exactly when there is a snapshot to show; the
/// status card appears when the provider has a status to report and either
/// no snapshot is shown or the account's last refresh failed; a snapshot of
/// the extra-usage provider without an extra-usage report but with a cost
/// gets the cost bar; any other snapshot with a cost gets the credit card when its provider
/// reports credit balances and the spending card otherwise.
pub proof fn lemma_usage_section_cards(
    account: Option<ProviderAccountRuntimeState>,
    provider: ProviderRuntimeState,
    accounts: Seq<ProviderAccountRuntimeState>,
    detected: Seq<ProviderId>,
)
    ensures
        ({
            let items = body_items(account, provider, accounts, detected);
            let shown = active_snapshot(account, provider);
            let failed = account matches Some(a) && a.health == ProviderHealth::Error;
            &&& items.contains(BodyItem::UsageWindows) <==> shown is Some
            &&& items.contains(BodyItem::StatusInfo) <==> status_info_present(
                provider,
                accounts,
                account,
                detected,
            ) && (shown is None || failed)
            &&& items.contains(BodyItem::ExtraUsageCostBar) <==> (shown matches Some(s)
                && s.provider == ProviderId::Claude && s.extra_usage is None
                && s.has_provider_cost)
            &&& items.contains(BodyItem::Credit) <==> (shown matches Some(s) && s.provider
                != ProviderId::Claude && s.has_provider_cost && reports_credit_balance(s.provider))
            &&& items.contains(BodyItem::Cost) <==> (shown matches Some(s) && s.provider
                != ProviderId::Claude && s.has_provider_cost && !reports_credit_balance(
                s.provider,
            ))
        }),
{
    let items = body_items(account, provider, accounts, detected);
    let present = status_info_present(provider, accounts, account, detected);
    let status = if present {
        seq![BodyItem::StatusInfo]
    } else {
        Seq::empty()
    };
    match active_snapshot(account, provider) {
        Some(snap) => {
            let failed = account matches Some(a) && a.health == ProviderHealth::Error;
            let pre = (if failed {
                status
            } else {
                Seq::empty()
            }) + seq![BodyItem::UsageWindows];
            let c = cost_items(snap);
            assert(items == pre + c);
            assert(forall|i: int| 0 <= i < c.len() ==> #[trigger] c[i] != BodyItem::StatusInfo
                && c[i] != BodyItem::UsageWindows);
            assert(forall|i: int| 0 <= i < pre.len() ==> #[trigger] pre[i] == BodyItem::StatusInfo
                || pre[i] == BodyItem::UsageWindows);
            assert(pre[pre.len() - 1] == BodyItem::UsageWindows);
            assert(items[pre.len() - 1] == BodyItem::UsageWindows);
            if failed && present {
                assert(items[0] == BodyItem::StatusInfo);
            } else {
                assert(pre == seq![BodyItem::UsageWindows]);
            }
            assert forall|i: int| 0 <= i < items.len() implies (#[trigger] items[i] == if i
                < pre.len() {
                pre[i]
            } else {
                c[i - pre.len()]
            }) by {}
            if c.len() > 0 {
                assert(items[pre.len() as int] == c[0]);
            }
        },
        None => {
            assert(items == status);
            if present {
                assert(items[0] == BodyItem::StatusInfo);
            }
        },
    }
}

/// Whether every usage window of a Z.AI snapshot is the MCP window, that is,
/// Z.AI reported no Coding Plan quota.
pub open spec fn zai_plan_absent(provider: ProviderId, windows: Seq<UsageWindow>) -> bool {
    provider == ProviderId::Zai && windows.len() > 0 && forall|i: int|
        0 <= i < windows.len() ==> #[trigger] windows[i].label@ == "MCP"@
}

/// Whether a Z.AI snapshot holds nothing but the MCP window, so the page
/// notes that the Coding Plan quotas are missing.
pub fn zai_coding_plan_absent(provider: ProviderId, windows: &[UsageWindow]) -> (r: bool)
    ensures
        r == zai_plan_absent(provider, windows@),
{
    if provider != ProviderId::Zai || windows.len() == 0 {
        return false;
    }
    let n = windows.len();
    for k in 0..n
        invariant
            n == windows@.len(),
            forall|i: int| 0 <= i < k ==> #[trigger] windows@[i].label@ == "MCP"@,
    {
        if !same_text(&windows[k].label, "MCP") {
            return false;
        }
    }
    true
}


/// One card of the usage windows of a snapshot.
#[derive(Clone, Copy, Debug, PartialEq, Eq, Structural)]
pub enum WindowSection {
    /// The note that Z.AI reported no Coding Plan quota.
    ZaiCodingPlanNotice,
    /// A window outside any group, by its position.
    Single(usize),
    /// The windows at positions `start..end`, which share one group name.
    Group { start: usize, end: usize },
}

/// Whether a window belongs to the group named `group`.
pub open spec fn in_group(window: UsageWindow, group: Seq<char>) -> bool {
    window.group matches Some(g) && g@ == group
}

/// The end of the run of windows of group `group` that goes on from `j`.
pub open spec fn group_run_end(windows: Seq<UsageWindow>, group: Seq<char>, j: int) -> int
    decreases windows.len() - j,
{
    if 0 <= j < windows.len() && in_group(windows[j], group) {
        group_run_end(windows, group, j + 1)
    } else {
        j
    }
}

/// A run of one group ends no earlier than it starts and no later than the
/// windows, covers only that group, and stops at the first window of
/// another group or of none.
pub proof fn lemma_group_run_end(windows: Seq<UsageWindow>, group: Seq<char>, j: int)
    requires
        0 <= j <= windows.len(),
    ensures
        j <= group_run_end(windows, group, j) <= windows.len(),
        forall|k: int| j <= k < group_run_end(windows, group, j) ==> in_group(#[trigger] windows[k], group),
        group_run_end(windows, group, j) == windows.len() || !in_group(
            windows[group_run_end(windows, group, j)],
            group,
        ),
    decreases windows.len() - j,
{
    if j < windows.len() && in_group(windows[j], group) {
        lemma_group_run_end(windows, group, j + 1);
    }
}

/// The cards of the windows from position `start` on: a window without a
/// group is a card of its own; a window with a group starts a card that
/// gathers it and the windows right after it with the same group.
pub open spec fn sections_from(windows: Seq<UsageWindow>, start: int) -> Seq<WindowSection>
    decreases windows.len() - start,
{
    if start < 0 || start >= windows.len() {
        Seq::empty()
    } else {
        match windows[start].group {
            None => seq![WindowSection::Single(start as usize)] + sections_from(windows, start + 1),
            Some(g) => {
                let end = group_run_end(windows, g@, start + 1);
                proof {
                    lemma_group_run_end(windows, g@, start + 1);
                }
                seq![WindowSection::Group { start: start as usize, end: end as usize }]
                    + sections_from(windows, end)
            },
        }
    }
}

/// The first window position a card covers.
pub open spec fn section_start(section: WindowSection) -> int {
    match section {
        WindowSection::ZaiCodingPlanNotice => 0,
        WindowSection::Single(i) => i as int,
        WindowSection::Group { start, end } => start as int,
    }
}

/// One past the last window position a card covers.
pub open spec fn section_end(section: WindowSection) -> int {
    match section {
        WindowSection::ZaiCodingPlanNotice => 0,
        WindowSection::Single(i) => i + 1,
        WindowSection::Group { start, end } => end as int,
    }
}

/// Whether a card is well placed: a single card holds a window without a
/// group; a group card holds a run of windows of its first window's group
/// that the next window (if any) does not continue.
pub open spec fn section_fits(windows: Seq<UsageWindow>, section: WindowSection) -> bool {
    match section {
        WindowSection::ZaiCodingPlanNotice => false,
        WindowSection::Single(i) => 0 <= i < windows.len() && windows[i as int].group is None,
        WindowSection::Group { start, end } => {
            &&& 0 <= start < end <= windows.len()
            &&& windows[start as int].group is Some
            &&& forall|k: int|
                start <= k < end ==> in_group(
                    #[trigger] windows[k],
                    windows[start as int].group->0@,
                )
            &&& (end == windows.len() || !in_group(
                windows[end as int],
                windows[start as int].group->0@,
            ))
        },
    }
}

/// The cards from `start` on cover the windows from `start` to the last one,
/// each window exactly once and in order: each card starts where the one
/// before it ends, and each card is well placed.
pub proof fn lemma_sections_partition(windows: Seq<UsageWindow>, start: int)
    requires
        0 <= start <= windows.len(),
        windows.len() <= usize::MAX,
    ensures
        sections_from(windows, start).len() == 0 <==> start == windows.len(),
        sections_from(windows, start).len() > 0 ==> section_start(sections_from(windows, start)[0])
            == start && section_end(sections_from(windows, start).last()) == windows.len(),
        forall|k: int|
            0 <= k < sections_from(windows, start).len() - 1 ==> section_end(
                #[trigger] sections_from(windows, start)[k],
            ) == section_start(sections_from(windows, start)[k + 1]),
        forall|k: int|
            0 <= k < sections_from(windows, start).len() ==> section_fits(
                windows,
                #[trigger] sections_from(windows, start)[k],
            ),
    decreases windows.len() - start,
{
    if start < windows.len() {
        let secs = sections_from(windows, start);
        match windows[start].group {
            None => {
                lemma_sections_partition(windows, start + 1);
                let rest = sections_from(windows, start + 1);
                assert(secs =~= seq![WindowSection::Single(start as usize)] + rest);
                assert forall|k: int| 0 <= k < secs.len() - 1 implies section_end(#[trigger] secs[k])
                    == section_start(secs[k + 1]) by {
                    if k > 0 {
                        assert(secs[k] == rest[k - 1]);
                        assert(secs[k + 1] == rest[k]);
                    }
                }
                assert forall|k: int| 0 <= k < secs.len() implies section_fits(windows, #[trigger] secs[k]) by {
                    if k > 0 {
                        assert(secs[k] == rest[k - 1]);
                    }
                }
            },
            Some(g) => {
                let end = group_run_end(windows, g@, start + 1);
                lemma_group_run_end(windows, g@, start + 1);
                lemma_sections_partition(windows, end);
                let rest = sections_from(windows, end);
                let head = WindowSection::Group { start: start as usize, end: end as usize };
                assert(secs =~= seq![head] + rest);
                assert(section_fits(windows, head)) by {
                    assert(in_group(windows[start], g@));
                }
                assert forall|k: int| 0 <= k < secs.len() - 1 implies section_end(#[trigger] secs[k])
                    == section_start(secs[k + 1]) by {
                    if k > 0 {
                        assert(secs[k] == rest[k - 1]);
                        assert(secs[k + 1] == rest[k]);
                    }
                }
                assert forall|k: int| 0 <= k < secs.len() implies section_fits(windows, #[trigger] secs[k]) by {
                    if k > 0 {
                        assert(secs[k] == rest[k - 1]);
                    }
                }
            },
        }
    }
}

/// The cards of the usage windows of a snapshot, in order.
pub open spec fn window_section_plan(snapshot: UsageSnapshot) -> Seq<WindowSection> {
    (if zai_plan_absent(snapshot.provider, snapshot.windows@) {
        seq![WindowSection::ZaiCodingPlanNotice]
    } else {
        Seq::empty()
    }) + sections_from(snapshot.windows@, 0)
}

/// Whether an optional group name equals `group`.
fn group_is(group: &Option<String>, name: &String) -> (r: bool)
    ensures
        r == (*group matches Some(g) && g@ == name@),
{
    match group {
        Some(g) => *g == *name,
        None => false,
    }
}

/// The cards of the usage windows of a snapshot: the Z.AI note when it
/// applies, then each window on its own or gathered with the windows right
/// after it that share its group.
pub fn window_sections(snapshot: &UsageSnapshot) -> (r: Vec<WindowSection>)
    ensures
        r@ == window_section_plan(*snapshot),
{
    let windows = &snapshot.windows;
    let ghost ws = windows@;
    let mut items: Vec<WindowSection> = Vec::new();
    if zai_coding_plan_absent(snapshot.provider, windows.as_slice()) {
        items.push(WindowSection::ZaiCodingPlanNotice);
    }
    let n = windows.len();
    let mut i: usize = 0;
    while i < n
        invariant
            n == ws.len(),
            ws == windows@,
            i <= n,
            items@ + sections_from(ws, i as int) == window_section_plan(*snapshot),
        decreases n - i,
    {
        match &windows[i].group {
            None => {
                let ghost before = items@;
                items.push(WindowSection::Single(i));
                assert(before + sections_from(ws, i as int) =~= items@ + sections_from(ws, i + 1));
                i = i + 1;
            },
            Some(g) => {
                let mut j: usize = i + 1;
                proof {
                    lemma_group_run_end(ws, g@, i + 1);
                }
                while j < n && group_is(&windows[j].group, g)
                    invariant
                        n == ws.len(),
                        ws == windows@,
                        i < j <= n,
                        group_run_end(ws, g@, j as int) == group_run_end(ws, g@, i + 1),
                    decreases n - j,
                {
                    j = j + 1;
                }
                let ghost before = items@;
                items.push(WindowSection::Group { start: i, end: j });
                assert(before + sections_from(ws, i as int) =~= items@ + sections_from(ws, j as int));
                i = j;
            },
        }
    }
    assert(items@ =~= window_section_plan(*snapshot));
    items
}


/// No card laid out for the windows is the Z.AI note.
proof fn lemma_sections_hold_no_notice(windows: Seq<UsageWindow>, start: int)
    ensures
        !sections_from(windows, start).contains(WindowSection::ZaiCodingPlanNotice),
    decreases windows.len() - start,
{
    if 0 <= start < windows.len() {
        let secs = sections_from(windows, start);
        match windows[start].group {
            None => {
                lemma_sections_hold_no_notice(windows, start + 1);
                let rest = sections_from(windows, start + 1);
                assert forall|k: int| 0 <= k < secs.len() implies #[trigger] secs[k]
                    != WindowSection::ZaiCodingPlanNotice by {
                    if k > 0 {
                        assert(secs[k] == rest[k - 1]);
                    }
                }
            },
            Some(g) => {
                let end = group_run_end(windows, g@, start + 1);
                lemma_group_run_end(windows, g@, start + 1);
                lemma_sections_hold_no_notice(windows, end);
                let rest = sections_from(windows, end);
                assert forall|k: int| 0 <= k < secs.len() implies #[trigger] secs[k]
                    != WindowSection::ZaiCodingPlanNotice by {
                    if k > 0 {
                        assert(secs[k] == rest[k - 1]);
                    }
                }
            },
        }
    }
}

/// The note that Z.AI reported no Coding Plan quota is shown exactly when
/// the snapshot is Z.AI's, reports at least one window, and every window it
/// reports is the MCP window: one window with another label, wherever it
/// stands, rules the note out. When shown, the note comes first.
pub proof fn lemma_zai_notice_only_for_mcp_only_usage(snapshot: UsageSnapshot)
    ensures
        window_section_plan(snapshot).contains(WindowSection::ZaiCodingPlanNotice) <==> {
            &&& snapshot.provider == ProviderId::Zai
            &&& snapshot.windows@.len() > 0
            &&& forall|i: int|
                0 <= i < snapshot.windows@.len() ==> #[trigger] snapshot.windows@[i].label@
                    == "MCP"@
        },
        (exists|i: int|
            0 <= i < snapshot.windows@.len() && #[trigger] snapshot.windows@[i].label@ != "MCP"@)
            ==> !window_section_plan(snapshot).contains(WindowSection::ZaiCodingPlanNotice),
        window_section_plan(snapshot).contains(WindowSection::ZaiCodingPlanNotice)
            ==> window_section_plan(snapshot)[0] == WindowSection::ZaiCodingPlanNotice,
{
    let plan = window_section_plan(snapshot);
    let rest = sections_from(snapshot.windows@, 0);
    lemma_sections_hold_no_notice(snapshot.windows@, 0);
    if zai_plan_absent(snapshot.provider, snapshot.windows@) {
        assert(plan[0] == WindowSection::ZaiCodingPlanNotice);
        assert forall|k: int| 1 <= k < plan.len() implies #[trigger] plan[k] == rest[k - 1] by {}
    } else {
        assert(plan == rest);
    }
}

/// The title of a usage window: Copilot's raw window names get readable
/// titles; every other label is shown as it is.
pub open spec fn display_label_text(provider: ProviderId, label: Seq<char>) -> Seq<char> {
    if provider == ProviderId::Copilot && label == "chat"@ {
        phrase_text(Phrase::CopilotWindowChat)
    } else if provider == ProviderId::Copilot && label == "completions"@ {
        phrase_text(Phrase::CopilotWindowCompletions)
    } else if provider == ProviderId::Copilot && label == "premium_interactions"@ {
        phrase_text(Phrase::CopilotWindowPremium)
    } else if provider == ProviderId::Copilot && label == "credits"@ {
        phrase_text(Phrase::CopilotWindowCredits)
    } else {
        label
    }
}

/// The title of a usage window.
pub fn window_display_label(provider: ProviderId, label: &str) -> (r: String)
    ensures
        r@ == display_label_text(provider, label@),
{
    if provider == ProviderId::Copilot {
        if same_str(label, "chat") {
            return phrase(Phrase::CopilotWindowChat);
        } else if same_str(label, "completions") {
            return phrase(Phrase::CopilotWindowCompletions);
        } else if same_str(label, "premium_interactions") {
            return phrase(Phrase::CopilotWindowPremium);
        } else if same_str(label, "credits") {
            return phrase(Phrase::CopilotWindowCredits);
        }
    }
    String::from_str(label)
}

/// Whether a window is one whose reset description tells of overage:
/// Copilot's premium requests and credits.
pub open spec fn has_overage(window: UsageWindow) -> bool {
    window.label@ == "premium_interactions"@ || window.label@ == "credits"@
}

/// The overage line of a usage window: its reset description, for the
/// windows that tell of overage.
pub fn overage_text(window: &UsageWindow) -> (r: Option<String>)
    ensures
        r.deep_view() == if has_overage(*window) {
            window.reset_description.deep_view()
        } else {
            None
        },
{
    if same_text(&window.label, "premium_interactions") || same_text(&window.label, "credits") {
        return match &window.reset_description {
            Some(d) => Some(d.clone()),
            None => None,
        };
    }
    None
}

/// Copilot's four raw window names get four different readable titles
/// ("Chat", "Completions", "Premium requests", "Credits"); every other window
/// name, and every window of another provider, keeps its own name.
pub proof fn lemma_window_titles(provider: ProviderId, label: Seq<char>)
    ensures
        provider != ProviderId::Copilot ==> display_label_text(provider, label) == label,
        !(label == "chat"@ || label == "completions"@ || label == "premium_interactions"@ || label
            == "credits"@) ==> display_label_text(provider, label) == label,
        display_label_text(ProviderId::Copilot, "chat"@) == "Chat"@,
        display_label_text(ProviderId::Copilot, "completions"@) == "Completions"@,
        display_label_text(ProviderId::Copilot, "premium_interactions"@) == "Premium requests"@,
        display_label_text(ProviderId::Copilot, "credits"@) == "Credits"@,
{
    reveal_strlit("chat");
    reveal_strlit("completions");
    reveal_strlit("premium_interactions");
    reveal_strlit("credits");
    assert("chat"@.len() == 4 && "completions"@.len() == 11);
    assert("premium_interactions"@.len() == 20 && "credits"@.len() == 7);
}

/// A window shows an overage line only when it is a premium-request or
/// credit window and reports a reset description, and the line is that
/// description.
pub proof fn lemma_overage_only_for_premium_and_credits(window: UsageWindow)
    ensures
        (if has_overage(window) {
            window.reset_description.deep_view()
        } else {
            None
        }) is Some <==> (window.label@ == "premium_interactions"@ || window.label@ == "credits"@)
            && window.reset_description is Some,
{
}

/// How the secondary text under a usage bar is shown.
#[derive(Clone, Copy, Debug, PartialEq, Eq, Structural)]
pub enum SecondaryText {
    /// Nothing to show.
    Hidden,
    /// The text, with its tooltip.
    WithTooltip,
    /// The text alone.
    Plain,
}

/// How the secondary text under a usage bar is shown: not at all when empty,
/// with its tooltip when there is one, else alone.
pub fn secondary_cost_text(text: &str, tooltip: &Option<String>) -> (r: SecondaryText)
    ensures
        r == if text@.len() == 0 {
            SecondaryText::Hidden
        } else if tooltip is Some {
            SecondaryText::WithTooltip
        } else {
            SecondaryText::Plain
        },
{
    if text.is_empty() {
        SecondaryText::Hidden
    } else if tooltip.is_some() {
        SecondaryText::WithTooltip
    } else {
        SecondaryText::Plain
    }
}


/// The badge beside an account's name.
#[derive(Clone, Copy, Debug, PartialEq, Eq, Structural)]
pub enum StatusBadge {
    Refreshing,
    CursorReauthNeeded,
    LoginRequired,
    Error,
    Live,
    Stale,
    Loading,
}

/// The colour family of a badge.
#[derive(Clone, Copy, Debug, PartialEq, Eq, Structural)]
pub enum BadgeTone {
    Neutral,
    Success,
    Warning,
    Destructive,
}

/// The badge of an account, given the whole seconds since its last
/// successful refresh: refreshing first, then a needed sign-in, a failed
/// refresh, fresh usage, old usage, and no usage yet.
pub open spec fn badge_for(
    account: ProviderAccountRuntimeState,
    provider: ProviderRuntimeState,
    elapsed: Option<i64>,
) -> StatusBadge {
    if provider.is_refreshing {
        StatusBadge::Refreshing
    } else if account.auth_state == AuthState::ActionRequired {
        if account.provider == ProviderId::Cursor {
            StatusBadge::CursorReauthNeeded
        } else {
            StatusBadge::LoginRequired
        }
    } else if account.health == ProviderHealth::Error {
        StatusBadge::Error
    } else if account.health == ProviderHealth::Healthy && account.snapshot is Some
        && account.last_success_at is Some && (elapsed matches Some(s) && s
        < STALE_THRESHOLD_SECONDS) {
        StatusBadge::Live
    } else if account.snapshot is Some {
        StatusBadge::Stale
    } else {
        StatusBadge::Loading
    }
}

/// The whole seconds chrono counts from `last` (if any) to `now`.
pub open spec fn elapsed_since(now: UtcInstant, last: Option<UtcInstant>) -> Option<i64> {
    match last {
        Some(u) => seconds_between(now, u),
        None => None,
    }
}

/// The badge of an account, given the whole seconds since its last
/// successful refresh. Usage refreshed less than the stale threshold ago is
/// live; the time difference is compared in whole seconds, which orders it
/// against a whole-second threshold exactly as the time difference itself.
pub fn status_badge_for(
    account: &ProviderAccountRuntimeState,
    provider: &ProviderRuntimeState,
    elapsed: Option<i64>,
) -> (r: StatusBadge)
    ensures
        r == badge_for(*account, *provider, elapsed),
{
    if provider.is_refreshing {
        return StatusBadge::Refreshing;
    }
    if account.auth_state == AuthState::ActionRequired {
        if account.provider == ProviderId::Cursor {
            return StatusBadge::CursorReauthNeeded;
        }
        return StatusBadge::LoginRequired;
    }
    if account.health == ProviderHealth::Error {
        return StatusBadge::Error;
    }
    let fresh = match elapsed {
        Some(s) => s < STALE_THRESHOLD_SECONDS,
        None => false,
    };
    if account.health == ProviderHealth::Healthy && account.snapshot.is_some()
        && account.last_success_at.is_some() && fresh {
        return StatusBadge::Live;
    }
    if account.snapshot.is_some() {
        return StatusBadge::Stale;
    }
    StatusBadge::Loading
}

/// The whole seconds from `last` to `now`, for ordinary instants.
pub open spec fn exact_seconds_between(now: UtcInstant, last: UtcInstant) -> i64 {
    whole_seconds_of(nanos_between(now, last)) as i64
}

/// Whether the badge needs no clock: the provider is refreshing, or the
/// account must sign in again, or its last refresh failed.
pub open spec fn badge_without_clock(
    account: ProviderAccountRuntimeState,
    provider: ProviderRuntimeState,
) -> bool {
    provider.is_refreshing || account.auth_state == AuthState::ActionRequired || account.health
        == ProviderHealth::Error
}

/// The badge of an account at the instant `now`. For ordinary instants the
/// time since the last refresh is the difference in whole seconds.
pub fn account_status_badge_at(
    account: &ProviderAccountRuntimeState,
    provider: &ProviderRuntimeState,
    now: UtcInstant,
) -> (r: StatusBadge)
    ensures
        r == badge_for(*account, *provider, elapsed_since(now, account.last_success_at)),
        is_ordinary_instant(now) && (account.last_success_at matches Some(u)
            && is_ordinary_instant(u)) ==> r == badge_for(
            *account,
            *provider,
            Some(exact_seconds_between(now, account.last_success_at.unwrap())),
        ),
{
    let elapsed = match account.last_success_at {
        Some(last) => whole_seconds_between(now, last),
        None => None,
    };
    status_badge_for(account, provider, elapsed)
}

/// The badge of an account now, by the system clock. The clock is read only
/// when the badge depends on it: not while refreshing, when the account must
/// sign in again, or when its last refresh failed.
pub fn account_status_badge(
    account: &ProviderAccountRuntimeState,
    provider: &ProviderRuntimeState,
) -> (r: StatusBadge)
    ensures
        badge_without_clock(*account, *provider) ==> r == badge_for(*account, *provider, None),
        exists|now: UtcInstant|
            now.nanos < 1_000_000_000 && r == badge_for(
                *account,
                *provider,
                #[trigger] elapsed_since(now, account.last_success_at),
            ),
{
    if provider.is_refreshing || account.auth_state == AuthState::ActionRequired || account.health
        == ProviderHealth::Error {
        let r = status_badge_for(account, provider, None);
        let ghost epoch = UtcInstant { secs: 0, nanos: 0 };
        assert(r == badge_for(*account, *provider, elapsed_since(epoch, account.last_success_at)));
        return r;
    }
    let now = utc_now();
    account_status_badge_at(account, provider, now)
}

/// An account whose usage was refreshed successfully, with nothing else to
/// report, is live exactly when its last refresh is less than the stale
/// threshold old, and stale otherwise.
pub proof fn lemma_badge_live_exactly_when_fresh(
    account: ProviderAccountRuntimeState,
    provider: ProviderRuntimeState,
    elapsed: i64,
)
    requires
        !badge_without_clock(account, provider),
        account.health == ProviderHealth::Healthy,
        account.snapshot is Some,
        account.last_success_at is Some,
    ensures
        badge_for(account, provider, Some(elapsed)) == if elapsed < STALE_THRESHOLD_SECONDS {
            StatusBadge::Live
        } else {
            StatusBadge::Stale
        },
{
}

/// An account asked about at the very instant of its last successful refresh
/// is live, whenever that instant is an ordinary one.
pub proof fn lemma_just_refreshed_is_live(
    account: ProviderAccountRuntimeState,
    provider: ProviderRuntimeState,
)
    requires
        !badge_without_clock(account, provider),
        account.health == ProviderHealth::Healthy,
        account.snapshot is Some,
        account.last_success_at matches Some(u) && is_ordinary_instant(u),
    ensures
        badge_for(
            account,
            provider,
            Some(exact_seconds_between(account.last_success_at.unwrap(), account.last_success_at.unwrap())),
        ) == StatusBadge::Live,
{
    let u = account.last_success_at.unwrap();
    assert(nanos_between(u, u) == 0);
    assert(whole_seconds_of(0) == 0);
}

/// What each badge says of the account: "refreshing" exactly while the
/// provider refreshes; otherwise a sign-in badge exactly when the account must
/// sign in again (the re-auth badge for Cursor accounts, the login badge for
/// the others); otherwise "error" exactly when its last refresh failed;
/// otherwise "loading" exactly when it has no usage yet. "Live" needs a
/// healthy account with usage refreshed less than the stale threshold ago,
/// and every other account with usage is "stale".
pub proof fn lemma_badge_meanings(
    account: ProviderAccountRuntimeState,
    provider: ProviderRuntimeState,
    elapsed: Option<i64>,
)
    ensures
        ({
            let b = badge_for(account, provider, elapsed);
            let quiet = !provider.is_refreshing;
            let signed_in = account.auth_state != AuthState::ActionRequired;
            let fresh = account.health == ProviderHealth::Healthy && account.last_success_at
                is Some && (elapsed matches Some(s) && s < STALE_THRESHOLD_SECONDS);
            &&& (b == StatusBadge::Refreshing <==> provider.is_refreshing)
            &&& (b == StatusBadge::CursorReauthNeeded <==> quiet && !signed_in && account.provider
                == ProviderId::Cursor)
            &&& (b == StatusBadge::LoginRequired <==> quiet && !signed_in && account.provider
                != ProviderId::Cursor)
            &&& (b == StatusBadge::Error <==> quiet && signed_in && account.health
                == ProviderHealth::Error)
            &&& (b == StatusBadge::Loading <==> quiet && signed_in && account.health
                != ProviderHealth::Error && account.snapshot is None)
            &&& (b == StatusBadge::Live <==> quiet && signed_in && account.snapshot is Some
                && fresh)
            &&& (b == StatusBadge::Stale <==> quiet && signed_in && account.health
                != ProviderHealth::Error && account.snapshot is Some && !fresh)
        }),
{
}

/// The colour of a badge tells its news: green for live usage and for the
/// system's signed-in account, amber for stale usage and a needed login, red
/// for an error, and neutral for the rest.
pub proof fn lemma_badge_tones(b: StatusBadge)
    ensures
        badge_tone_of(b) == BadgeTone::Success <==> b == StatusBadge::Live,
        badge_tone_of(b) == BadgeTone::Warning <==> (b == StatusBadge::Stale || b
            == StatusBadge::LoginRequired),
        badge_tone_of(b) == BadgeTone::Destructive <==> b == StatusBadge::Error,
{
}

/// The label of a badge.
pub open spec fn badge_label_phrase(badge: StatusBadge) -> Phrase {
    match badge {
        StatusBadge::Refreshing => Phrase::BadgeRefreshing,
        StatusBadge::CursorReauthNeeded => Phrase::BadgeCursorReauthNeeded,
        StatusBadge::LoginRequired => Phrase::BadgeLoginRequired,
        StatusBadge::Error => Phrase::BadgeError,
        StatusBadge::Live => Phrase::BadgeLive,
        StatusBadge::Stale => Phrase::BadgeStale,
        StatusBadge::Loading => Phrase::BadgeLoading,
    }
}

/// The tooltip of a badge.
pub open spec fn badge_tooltip_phrase(badge: StatusBadge) -> Phrase {
    match badge {
        StatusBadge::Refreshing => Phrase::BadgeRefreshingTooltip,
        StatusBadge::CursorReauthNeeded => Phrase::BadgeCursorReauthNeededTooltip,
        StatusBadge::LoginRequired => Phrase::BadgeLoginRequiredTooltip,
        StatusBadge::Error => Phrase::BadgeErrorTooltip,
        StatusBadge::Live => Phrase::BadgeLiveTooltip,
        StatusBadge::Stale => Phrase::BadgeStaleTooltip,
        StatusBadge::Loading => Phrase::BadgeLoadingTooltip,
    }
}

/// The colour family of a badge.
pub open spec fn badge_tone_of(badge: StatusBadge) -> BadgeTone {
    match badge {
        StatusBadge::Refreshing => BadgeTone::Neutral,
        StatusBadge::CursorReauthNeeded => BadgeTone::Neutral,
        StatusBadge::LoginRequired => BadgeTone::Warning,
        StatusBadge::Error => BadgeTone::Destructive,
        StatusBadge::Live => BadgeTone::Success,
        StatusBadge::Stale => BadgeTone::Warning,
        StatusBadge::Loading => BadgeTone::Neutral,
    }
}

impl StatusBadge {
    /// The label of the badge.
    pub fn label(&self) -> (r: String)
        ensures
            r@ == phrase_text(badge_label_phrase(*self)),
    {
        let p = match self {
            StatusBadge::Refreshing => Phrase::BadgeRefreshing,
            StatusBadge::CursorReauthNeeded => Phrase::BadgeCursorReauthNeeded,
            StatusBadge::LoginRequired => Phrase::BadgeLoginRequired,
            StatusBadge::Error => Phrase::BadgeError,
            StatusBadge::Live => Phrase::BadgeLive,
            StatusBadge::Stale => Phrase::BadgeStale,
            StatusBadge::Loading => Phrase::BadgeLoading,
        };
        phrase(p)
    }

    /// The tooltip of the badge.
    pub fn tooltip(&self) -> (r: String)
        ensures
            r@ == phrase_text(badge_tooltip_phrase(*self)),
    {
        let p = match self {
            StatusBadge::Refreshing => Phrase::BadgeRefreshingTooltip,
            StatusBadge::CursorReauthNeeded => Phrase::BadgeCursorReauthNeededTooltip,
            StatusBadge::LoginRequired => Phrase::BadgeLoginRequiredTooltip,
            StatusBadge::Error => Phrase::BadgeErrorTooltip,
            StatusBadge::Live => Phrase::BadgeLiveTooltip,
            StatusBadge::Stale => Phrase::BadgeStaleTooltip,
            StatusBadge::Loading => Phrase::BadgeLoadingTooltip,
        };
        phrase(p)
    }

    /// The colour family of the badge.
    pub fn tone(&self) -> (r: BadgeTone)
        ensures
            r == badge_tone_of(*self),
    {
        match self {
            StatusBadge::Refreshing => BadgeTone::Neutral,
            StatusBadge::CursorReauthNeeded => BadgeTone::Neutral,
            StatusBadge::LoginRequired => BadgeTone::Warning,
            StatusBadge::Error => BadgeTone::Destructive,
            StatusBadge::Live => BadgeTone::Success,
            StatusBadge::Stale => BadgeTone::Warning,
            StatusBadge::Loading => BadgeTone::Neutral,
        }
    }
}

/// Each badge reads its own name and explains itself in its own words:
/// "Refreshing", "Re-auth needed", "Login required", "Error", "Live",
/// "Stale" and "Loading", so no two badges read alike or share a tooltip.
pub proof fn lemma_badges_read_their_own_names(b1: StatusBadge, b2: StatusBadge)
    ensures
        b1 != b2 ==> phrase_text(badge_label_phrase(b1)) != phrase_text(badge_label_phrase(b2)),
        b1 != b2 ==> phrase_text(badge_tooltip_phrase(b1)) != phrase_text(
            badge_tooltip_phrase(b2),
        ),
        phrase_text(badge_label_phrase(StatusBadge::Refreshing)) == "Refreshing"@,
        phrase_text(badge_label_phrase(StatusBadge::CursorReauthNeeded)) == "Re-auth needed"@,
        phrase_text(badge_label_phrase(StatusBadge::LoginRequired)) == "Login required"@,
        phrase_text(badge_label_phrase(StatusBadge::Error)) == "Error"@,
        phrase_text(badge_label_phrase(StatusBadge::Live)) == "Live"@,
        phrase_text(badge_label_phrase(StatusBadge::Stale)) == "Stale"@,
        phrase_text(badge_label_phrase(StatusBadge::Loading)) == "Loading"@,
{
    reveal_strlit("Refreshing");
    reveal_strlit("Re-auth needed");
    reveal_strlit("Login required");
    reveal_strlit("Error");
    reveal_strlit("Live");
    reveal_strlit("Stale");
    reveal_strlit("Loading");
    reveal_strlit("Usage is being refreshed");
    reveal_strlit("Cursor needs a fresh sign-in. Re-authenticate in Cursor, then rescan");
    reveal_strlit("Sign in again to keep tracking this account");
    reveal_strlit("The last refresh failed");
    reveal_strlit("Usage was refreshed recently");
    reveal_strlit("Usage has not been refreshed recently");
    reveal_strlit("Waiting for the first usage report");
    let l1 = phrase_text(badge_label_phrase(b1));
    let l2 = phrase_text(badge_label_phrase(b2));
    assert(b1 != b2 ==> l1.len() != l2.len() || l1[0] != l2[0]);
    let t1 = phrase_text(badge_tooltip_phrase(b1));
    let t2 = phrase_text(badge_tooltip_phrase(b2));
    assert(b1 != b2 ==> t1.len() != t2.len());
}

/// The "updated" line of an account, given the whole seconds since its last
/// successful refresh and the minute stamp of that refresh: "just now" under
/// ten seconds, then seconds, minutes and hours ago, and the date and time
/// from a day on (or when the time difference is unknown).
pub open spec fn updated_label_text(elapsed: Option<i64>, stamp: Option<Seq<char>>) -> Seq<char> {
    match elapsed {
        Some(s) => if s < 10 {
            phrase_text(Phrase::UpdatedJustNow)
        } else if s / 60 < 1 {
            "Updated "@ + decimal_text(s as nat) + "s ago"@
        } else if s / 3600 < 1 {
            "Updated "@ + decimal_text((s / 60) as nat) + "m ago"@
        } else if s / 86400 < 1 {
            "Updated "@ + decimal_text((s / 3600) as nat) + "h ago"@
        } else {
            "Updated "@ + stamp.unwrap_or(Seq::empty())
        },
        None => "Updated "@ + stamp.unwrap_or(Seq::empty()),
    }
}

/// Whether the "updated" line shows the date and time of the refresh.
pub open spec fn updated_label_shows_stamp(elapsed: Option<i64>) -> bool {
    match elapsed {
        Some(s) => s >= 86400,
        None => true,
    }
}

/// The "updated" line of an account, given the whole seconds since its last
/// successful refresh and the minute stamp of that refresh.
pub fn updated_label_for(elapsed: Option<i64>, stamp: Option<String>) -> (r: String)
    ensures
        r@ == updated_label_text(elapsed, stamp.deep_view()),
{
    let stamp_text = match stamp {
        Some(s) => s,
        None => String::new(),
    };
    match elapsed {
        Some(s) => {
            if s < 10 {
                return phrase(Phrase::UpdatedJustNow);
            }
            let mut label = String::from_str("Updated ");
            if s / 60 < 1 {
                push_decimal(&mut label, s as u64);
                label.append("s ago");
            } else if s / 3600 < 1 {
                push_decimal(&mut label, (s / 60) as u64);
                label.append("m ago");
            } else if s / 86400 < 1 {
                push_decimal(&mut label, (s / 3600) as u64);
                label.append("h ago");
            } else {
                label.append(stamp_text.as_str());
            }
            label
        },
        None => String::from_str("Updated ").concat(stamp_text.as_str()),
    }
}

/// Whether a refresh at `last`, `elapsed` seconds ago, has its date and time
/// to show when the "updated" line asks for them: always, for an ordinary
/// instant.
pub open spec fn stamp_present_when_shown(elapsed: Option<i64>, last: UtcInstant) -> bool {
    is_ordinary_instant(last) && updated_label_shows_stamp(elapsed) ==> chrono_minute_stamp(
        last.secs,
        last.nanos,
    ) is Some
}

/// The "updated" line for a refresh at `last`, seen at the instant `now`. For
/// ordinary instants the time since the refresh is the difference in whole
/// seconds, and a line that shows the date and time has them.
pub fn format_updated_label_at(last: UtcInstant, now: UtcInstant) -> (r: String)
    ensures
        r@ == updated_label_text(
            seconds_between(now, last),
            chrono_minute_stamp(last.secs, last.nanos),
        ),
        stamp_present_when_shown(seconds_between(now, last), last),
        is_ordinary_instant(now) && is_ordinary_instant(last) ==> r@ == updated_label_text(
            Some(exact_seconds_between(now, last)),
            chrono_minute_stamp(last.secs, last.nanos),
        ) && stamp_present_when_shown(Some(exact_seconds_between(now, last)), last),
{
    let elapsed = whole_seconds_between(now, last);
    let shows_stamp = match elapsed {
        Some(s) => s >= 86400,
        None => true,
    };
    let stamp = if shows_stamp {
        minute_stamp(last)
    } else {
        None
    };
    updated_label_for(elapsed, stamp)
}

/// The "updated" line for a refresh at `last`, now, by the system clock.
pub fn format_updated_label(last: UtcInstant) -> (r: String)
    ensures
        exists|now: UtcInstant|
            now.nanos < 1_000_000_000 && r@ == updated_label_text(
                #[trigger] seconds_between(now, last),
                chrono_minute_stamp(last.secs, last.nanos),
            ) && stamp_present_when_shown(seconds_between(now, last), last),
{
    let now = utc_now();
    format_updated_label_at(last, now)
}

/// For ordinary instants, a refresh between ten seconds and a minute ago
/// reads "Updated n s ago" with n the whole seconds elapsed.
pub proof fn lemma_updated_seconds_ago(elapsed: i64, stamp: Option<Seq<char>>)
    requires
        10 <= elapsed < 60,
    ensures
        updated_label_text(Some(elapsed), stamp) == "Updated "@ + decimal_text(elapsed as nat)
            + "s ago"@,
{
}

/// The "updated" line by the age of the refresh: "Updated just now" under
/// ten seconds (a refresh stamped in the future included), whole seconds
/// under a minute, whole minutes under an hour, whole hours under a day, and
/// from a day on, or with no known age, the date and time of the refresh.
pub proof fn lemma_updated_label_by_age(elapsed: Option<i64>, stamp: Option<Seq<char>>)
    ensures
        elapsed matches Some(s) && s < 10 ==> updated_label_text(elapsed, stamp)
            == "Updated just now"@,
        elapsed matches Some(s) && 10 <= s < 60 ==> updated_label_text(elapsed, stamp)
            == "Updated "@ + decimal_text(elapsed->0 as nat) + "s ago"@,
        elapsed matches Some(s) && 60 <= s < 3600 ==> updated_label_text(elapsed, stamp)
            == "Updated "@ + decimal_text((elapsed->0 / 60) as nat) + "m ago"@,
        elapsed matches Some(s) && 3600 <= s < 86400 ==> updated_label_text(elapsed, stamp)
            == "Updated "@ + decimal_text((elapsed->0 / 3600) as nat) + "h ago"@,
        (elapsed matches Some(s) && s >= 86400) || elapsed is None ==> updated_label_text(
            elapsed,
            stamp,
        ) == "Updated "@ + stamp.unwrap_or(Seq::empty()),
{
}

/// The header of the account card.
#[derive(Debug)]
pub struct AccountHeader {
    /// The account's e-mail address, or its label when it has none.
    pub label: String,
    /// The plan the provider reports, unless blank.
    pub plan: Option<String>,
    /// The account's badge.
    pub status: StatusBadge,
    /// Whether this account is the one signed in on this system.
    pub system_active: bool,
    /// When the account was last refreshed successfully.
    pub updated: Option<String>,
}

/// The name shown for an account: the e-mail address its snapshot reports,
/// unless missing or empty, else its label.
pub open spec fn account_label_text(account: ProviderAccountRuntimeState) -> Seq<char> {
    match account.snapshot {
        Some(s) => match s.identity.email {
            Some(e) => if e@.len() > 0 {
                e@
            } else {
                account.label@
            },
            None => account.label@,
        },
        None => account.label@,
    }
}

/// The plan shown for an account: the plan its snapshot reports, unless
/// missing or blank.
pub open spec fn account_plan_text(account: ProviderAccountRuntimeState) -> Option<Seq<char>> {
    match account.snapshot {
        Some(s) => match s.identity.plan {
            Some(p) => if is_blank_text(p@) {
                None
            } else {
                Some(p@)
            },
            None => None,
        },
        None => None,
    }
}

/// Whether the account is the one signed in on this system.
pub open spec fn is_system_active(
    account: ProviderAccountRuntimeState,
    provider: ProviderRuntimeState,
) -> bool {
    provider.system_active_account_id matches Some(id) && id@ == account.account_id@
}

/// The label, plan and system-active flag of an account card.
fn header_identity(
    account: &ProviderAccountRuntimeState,
    provider: &ProviderRuntimeState,
) -> (r: (String, Option<String>, bool))
    ensures
        r.0@ == account_label_text(*account),
        r.1.deep_view() == account_plan_text(*account),
        r.2 == is_system_active(*account, *provider),
{
    let mut label = account.label.clone();
    let mut plan: Option<String> = None;
    if let Some(snapshot) = &account.snapshot {
        if let Some(email) = &snapshot.identity.email {
            if !email.as_str().is_empty() {
                label = email.clone();
            }
        }
        if let Some(p) = &snapshot.identity.plan {
            if !is_blank(p.as_str()) {
                plan = Some(p.clone());
            }
        }
    }
    let system_active = match &provider.system_active_account_id {
        Some(id) => *id == account.account_id,
        None => false,
    };
    (label, plan, system_active)
}

/// The name on an account card is the e-mail address the provider reports
/// for the account when it reports a non-empty one, and the account's own
/// label otherwise: with no snapshot, no e-mail address or an empty one.
pub proof fn lemma_card_name_is_email_or_label(account: ProviderAccountRuntimeState)
    ensures
        account.snapshot matches Some(s) && s.identity.email matches Some(e) && e@.len() > 0
            ==> account_label_text(account) == account.snapshot->0.identity.email->0@,
        !(account.snapshot matches Some(s) && s.identity.email matches Some(e) && e@.len() > 0)
            ==> account_label_text(account) == account.label@,
{
}

/// An account card shows the plan the provider reports unless it is missing
/// or holds nothing but white space, and marks the account as the system's
/// signed-in one exactly when the provider names it by its id.
pub proof fn lemma_card_plan_and_active_mark(
    account: ProviderAccountRuntimeState,
    provider: ProviderRuntimeState,
)
    ensures
        account_plan_text(account) matches Some(p) ==> account.snapshot matches Some(s)
            && s.identity.plan matches Some(q) && q@ == p && exists|i: int|
            0 <= i < p.len() && !is_white_space(#[trigger] p[i]),
        (account.snapshot matches Some(s) && s.identity.plan matches Some(q) && exists|i: int|
            0 <= i < q@.len() && !is_white_space(#[trigger] q@[i])) ==> account_plan_text(account)
            == Some(account.snapshot->0.identity.plan->0@),
        is_system_active(account, provider) <==> (provider.system_active_account_id matches Some(
            id,
        ) && id@ == account.account_id@),
{
}

/// The header of an account card at the instant `now`.
pub fn account_header_content_at(
    account: &ProviderAccountRuntimeState,
    provider: &ProviderRuntimeState,
    now: UtcInstant,
) -> (r: AccountHeader)
    ensures
        r.label@ == account_label_text(*account),
        r.plan.deep_view() == account_plan_text(*account),
        r.status == badge_for(*account, *provider, elapsed_since(now, account.last_success_at)),
        r.system_active == is_system_active(*account, *provider),
        match account.last_success_at {
            Some(last) => r.updated is Some && r.updated.unwrap()@ == updated_label_text(
                seconds_between(now, last),
                chrono_minute_stamp(last.secs, last.nanos),
            ) && stamp_present_when_shown(seconds_between(now, last), last),
            None => r.updated is None,
        },
        is_ordinary_instant(now) && (account.last_success_at matches Some(u)
            && is_ordinary_instant(u)) ==> {
            let u = account.last_success_at.unwrap();
            &&& r.status == badge_for(*account, *provider, Some(exact_seconds_between(now, u)))
            &&& r.updated.unwrap()@ == updated_label_text(
                Some(exact_seconds_between(now, u)),
                chrono_minute_stamp(u.secs, u.nanos),
            )
            &&& stamp_present_when_shown(Some(exact_seconds_between(now, u)), u)
        },
{
    let (label, plan, system_active) = header_identity(account, provider);
    let status = account_status_badge_at(account, provider, now);
    let updated = match account.last_success_at {
        Some(last) => Some(format_updated_label_at(last, now)),
        None => None,
    };
    AccountHeader { label, plan, status, system_active, updated }
}

/// The header of an account card now, by the system clock, which is read
/// only for the badge when it depends on the time and for the "updated" line
/// when there was a successful refresh.
pub fn account_header_content(
    account: &ProviderAccountRuntimeState,
    provider: &ProviderRuntimeState,
) -> (r: AccountHeader)
    ensures
        r.label@ == account_label_text(*account),
        r.plan.deep_view() == account_plan_text(*account),
        r.system_active == is_system_active(*account, *provider),
        badge_without_clock(*account, *provider) ==> r.status == badge_for(
            *account,
            *provider,
            None,
        ),
        exists|now: UtcInstant|
            now.nanos < 1_000_000_000 && r.status == badge_for(
                *account,
                *provider,
                #[trigger] elapsed_since(now, account.last_success_at),
            ),
        match account.last_success_at {
            Some(last) => r.updated is Some && exists|now: UtcInstant|
                now.nanos < 1_000_000_000 && r.updated.unwrap()@ == updated_label_text(
                    #[trigger] seconds_between(now, last),
                    chrono_minute_stamp(last.secs, last.nanos),
                ) && stamp_present_when_shown(seconds_between(now, last), last),
            None => r.updated is None,
        },
{
    let (label, plan, system_active) = header_identity(account, provider);
    let status = account_status_badge(account, provider);
    let updated = match account.last_success_at {
        Some(last) => Some(format_updated_label(last)),
        None => None,
    };
    AccountHeader { label, plan, status, system_active, updated }
}

/// The pager under an account card: the shown account's name and one dot per
/// account, the shown one lit.
#[derive(Debug)]
pub struct AccountPager {
    pub name: String,
    pub dots: Vec<bool>,
}

/// The pager for the account at page `active` of `total` accounts.
pub fn account_pager(account: &ProviderAccountRuntimeState, active: usize, total: usize) -> (r: AccountPager)
    requires
        active < usize::MAX,
    ensures
        r.name@ == pager_label_text(active as int, account.label@),
        r.dots@.len() == total,
        forall|i: int| 0 <= i < total ==> #[trigger] r.dots@[i] == (i == active),
{
    let name = pager_account_label(active, account.label.as_str());
    let mut dots: Vec<bool> = Vec::new();
    for page in 0..total
        invariant
            dots@.len() == page,
            forall|i: int| 0 <= i < page ==> #[trigger] dots@[i] == (i == active),
    {
        dots.push(page == active);
    }
    AccountPager { name, dots }
}


/// What the provider page shows below the provider's summary.
#[derive(Debug)]
pub enum ProviderDetailView {
    /// No provider is switched on.
    Empty,
    /// The provider has no account: its usage section alone.
    NoAccounts { provider: ProviderId, detected_without_accounts: bool, body: Vec<BodyItem> },
    /// The account card of the account at position `account` in the
    /// application's accounts, with a pager (page, count) when the provider
    /// has more than one account, and its usage section.
    Account {
        provider: ProviderId,
        detected_without_accounts: bool,
        account: usize,
        pager: Option<(usize, usize)>,
        body: Vec<BodyItem>,
    },
}

/// Whether `r` is the provider page for the provider shown (if any), the
/// accounts, the detected providers and the requested account page.
pub open spec fn is_detail_view_for(
    r: ProviderDetailView,
    provider: Option<ProviderRuntimeState>,
    accounts: Seq<ProviderAccountRuntimeState>,
    detected: Seq<ProviderId>,
    account_page: int,
) -> bool {
    match provider {
        None => r is Empty,
        Some(p) => {
            let positions = account_positions(accounts, p.provider);
            if positions.len() == 0 {
                &&& r matches ProviderDetailView::NoAccounts {
                    provider: id,
                    detected_without_accounts: d,
                    body,
                }
                &&& id == p.provider
                &&& d == detected_without_account(p.provider, accounts, detected)
                &&& body@ == body_items(None, p, accounts, detected)
            } else {
                let active = clamped_page(account_page, positions.len() as int);
                &&& r matches ProviderDetailView::Account {
                    provider: id,
                    detected_without_accounts: d,
                    account,
                    pager,
                    body,
                }
                &&& id == p.provider
                &&& d == detected_without_account(p.provider, accounts, detected)
                &&& account == positions[active]
                &&& pager == if positions.len() > 1 {
                    Some((active as usize, positions.len() as usize))
                } else {
                    None
                }
                &&& body@ == body_items(Some(accounts[positions[active]]), p, accounts, detected)
            }
        },
    }
}

/// The provider page for the provider shown (if any) and the requested
/// account page: the usage section alone when the provider has no account,
/// else the account at the requested page, clamped to the accounts there are.
pub fn selected_provider_view(
    provider: Option<&ProviderRuntimeState>,
    state: &AppState,
    detection: &DetectionSnapshot,
    account_page: usize,
) -> (r: ProviderDetailView)
    ensures
        is_detail_view_for(
            r,
            provider_state(provider),
            state.provider_accounts@,
            detection.detected_providers@,
            account_page as int,
        ),
{
    let p = match provider {
        Some(p) => p,
        None => {
            return ProviderDetailView::Empty;
        },
    };
    let positions = state.account_positions_for(p.provider);
    let detected = detected_without_accounts(state, detection, p.provider);
    if positions.len() == 0 {
        let body = account_body_items(None, p, state, detection);
        ProviderDetailView::NoAccounts { provider: p.provider, detected_without_accounts: detected, body }
    } else {
        proof {
            lemma_account_positions_exact(state.provider_accounts@, p.provider);
        }
        let total = positions.len();
        let active = clamp_account_page(account_page, total);
        let account = positions[active];
        let pager = if total > 1 {
            Some((active, total))
        } else {
            None
        };
        let body = account_body_items(Some(&state.provider_accounts[account]), p, state, detection);
        ProviderDetailView::Account {
            provider: p.provider,
            detected_without_accounts: detected,
            account,
            pager,
            body,
        }
    }
}

} // verus!
