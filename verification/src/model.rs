use vstd::prelude::*;

verus! {

/// A usage provider the popup can show a tab for.
#[derive(Clone, Copy, Debug, PartialEq, Eq, Structural, Hash)]
pub enum ProviderId {
    Codex,
    Claude,
    Cursor,
    Gemini,
    Copilot,
    Minimax,
    Kimi,
    Antigravity,
    OpenCodeGo,
    Grok,
    Zai,
}

/// Every provider, in tab order.
pub open spec fn all_providers() -> Seq<ProviderId> {
    seq![
        ProviderId::Codex,
        ProviderId::Claude,
        ProviderId::Cursor,
        ProviderId::Gemini,
        ProviderId::Copilot,
        ProviderId::Minimax,
        ProviderId::Kimi,
        ProviderId::Antigravity,
        ProviderId::OpenCodeGo,
        ProviderId::Grok,
        ProviderId::Zai,
    ]
}

impl ProviderId {
    /// Every provider, in tab order.
    pub fn all() -> (r: Vec<ProviderId>)
        ensures
            r@ == all_providers(),
    {
        let r = vec![
            ProviderId::Codex,
            ProviderId::Claude,
            ProviderId::Cursor,
            ProviderId::Gemini,
            ProviderId::Copilot,
            ProviderId::Minimax,
            ProviderId::Kimi,
            ProviderId::Antigravity,
            ProviderId::OpenCodeGo,
            ProviderId::Grok,
            ProviderId::Zai,
        ];
        assert(r@ =~= all_providers());
        r
    }
}

/// Outcome of the last refresh of an account.
#[derive(Clone, Copy, Debug, PartialEq, Eq, Structural)]
pub enum ProviderHealth {
    Unknown,
    Healthy,
    Error,
}

/// Whether an account's credentials can still be used.
#[derive(Clone, Copy, Debug, PartialEq, Eq, Structural)]
pub enum AuthState {
    Unknown,
    Ready,
    ActionRequired,
}

/// Whether a provider has an account it can track.
#[derive(Clone, Copy, Debug, PartialEq, Eq, Structural)]
pub enum AccountSelectionStatus {
    Ready,
    LoginRequired,
}

/// Usage refreshed longer ago than this many seconds counts as stale.
pub const STALE_THRESHOLD_SECONDS: i64 = 900;

/// A point in time, as the seconds and sub-second nanoseconds since the Unix
/// epoch in UTC (a leap second is a nanosecond count of a billion or more).
#[derive(Clone, Copy, Debug, PartialEq, Eq, Structural)]
pub struct UtcInstant {
    pub secs: i64,
    pub nanos: u32,
}

/// One usage window of a provider, such as a five-hour or weekly quota.
#[derive(Clone, Debug)]
pub struct UsageWindow {
    pub label: String,
    pub reset_at: Option<UtcInstant>,
    pub window_seconds: Option<i64>,
    pub reset_description: Option<String>,
    pub group: Option<String>,
}

/// Who an account belongs to, as the provider reports it.
#[derive(Clone, Debug)]
pub struct AccountIdentity {
    pub email: Option<String>,
    pub plan: Option<String>,
}

/// The state of the pay-as-you-go extra usage that one provider offers.
#[derive(Clone, Copy, Debug, PartialEq, Eq, Structural)]
pub enum ExtraUsage {
    Disabled,
    Active,
}

/// The usage a provider last reported for one account.
#[derive(Clone, Debug)]
pub struct UsageSnapshot {
    pub provider: ProviderId,
    pub windows: Vec<UsageWindow>,
    pub identity: AccountIdentity,
    pub extra_usage: Option<ExtraUsage>,
    pub has_provider_cost: bool,
}

/// The runtime state of one account of a provider.
#[derive(Clone, Debug)]
pub struct ProviderAccountRuntimeState {
    pub provider: ProviderId,
    pub account_id: String,
    pub label: String,
    pub health: ProviderHealth,
    pub auth_state: AuthState,
    pub error: Option<String>,
    pub snapshot: Option<UsageSnapshot>,
    pub last_success_at: Option<UtcInstant>,
}

impl ProviderAccountRuntimeState {
    /// An account that has not been refreshed yet.
    pub fn empty(provider: ProviderId, account_id: &str, label: &str) -> (r: Self)
        ensures
            r.provider == provider,
            r.account_id@ == account_id@,
            r.label@ == label@,
            r.health == ProviderHealth::Unknown,
            r.auth_state == AuthState::Unknown,
            r.error is None,
            r.snapshot is None,
            r.last_success_at is None,
    {
        ProviderAccountRuntimeState {
            provider,
            account_id: String::from_str(account_id),
            label: String::from_str(label),
            health: ProviderHealth::Unknown,
            auth_state: AuthState::Unknown,
            error: None,
            snapshot: None,
            last_success_at: None,
        }
    }
}

/// The runtime state of one provider.
#[derive(Clone, Debug)]
pub struct ProviderRuntimeState {
    pub provider: ProviderId,
    pub enabled: bool,
    pub selected_account_ids: Vec<String>,
    pub active_account_id: Option<String>,
    pub system_active_account_id: Option<String>,
    pub account_status: AccountSelectionStatus,
    pub is_refreshing: bool,
    pub refresh_started_at: Option<UtcInstant>,
    pub legacy_display_snapshot: Option<UsageSnapshot>,
    pub error: Option<String>,
}

/// The provider's one-line status: its error text, or nothing.
pub open spec fn status_line_text(provider: ProviderRuntimeState) -> Seq<char> {
    match provider.error {
        Some(e) => e@,
        None => Seq::empty(),
    }
}

impl ProviderRuntimeState {
    /// A provider with no accounts yet.
    pub fn new(provider: ProviderId, enabled: bool) -> (r: Self)
        ensures
            r.provider == provider,
            r.enabled == enabled,
            r.selected_account_ids@.len() == 0,
            r.active_account_id is None,
            r.system_active_account_id is None,
            r.account_status == AccountSelectionStatus::LoginRequired,
            !r.is_refreshing,
            r.refresh_started_at is None,
            r.legacy_display_snapshot is None,
            r.error is None,
    {
        ProviderRuntimeState {
            provider,
            enabled,
            selected_account_ids: Vec::new(),
            active_account_id: None,
            system_active_account_id: None,
            account_status: AccountSelectionStatus::LoginRequired,
            is_refreshing: false,
            refresh_started_at: None,
            legacy_display_snapshot: None,
            error: None,
        }
    }

    /// The one-line status of the provider: its error text, or nothing. The
    /// account shown does not change it.
    pub fn status_line(&self, _active_account: Option<&ProviderAccountRuntimeState>) -> (r: String)
        ensures
            r@ == status_line_text(*self),
    {
        match &self.error {
            Some(e) => e.clone(),
            None => String::new(),
        }
    }
}


/// The providers that are switched on, in tab order.
pub open spec fn enabled_providers(providers: Seq<ProviderRuntimeState>) -> Seq<ProviderId>
    decreases providers.len(),
{
    if providers.len() == 0 {
        Seq::empty()
    } else {
        let rest = enabled_providers(providers.drop_last());
        if providers.last().enabled {
            rest.push(providers.last().provider)
        } else {
            rest
        }
    }
}

/// The first position of `provider` among `providers`, if it is there.
pub open spec fn first_position_of(providers: Seq<ProviderRuntimeState>, provider: ProviderId) -> Option<int> {
    if exists|i: int| 0 <= i < providers.len() && providers[i].provider == provider {
        let i = choose|i: int|
            0 <= i < providers.len() && providers[i].provider == provider && forall|j: int|
                0 <= j < i ==> providers[j].provider != provider;
        Some(i)
    } else {
        None
    }
}

/// The positions, in order, of the accounts that belong to `provider`.
pub open spec fn account_positions(accounts: Seq<ProviderAccountRuntimeState>, provider: ProviderId) -> Seq<int>
    decreases accounts.len(),
{
    if accounts.len() == 0 {
        Seq::empty()
    } else {
        let rest = account_positions(accounts.drop_last(), provider);
        if accounts.last().provider == provider {
            rest.push(accounts.len() - 1)
        } else {
            rest
        }
    }
}

/// Whether some account belongs to `provider`.
pub open spec fn has_account(accounts: Seq<ProviderAccountRuntimeState>, provider: ProviderId) -> bool {
    exists|i: int| 0 <= i < accounts.len() && accounts[i].provider == provider
}

/// Over a prefix of the accounts, the positions grow by the next account's
/// position exactly when it belongs to `provider`.
pub proof fn lemma_account_positions_step(
    accounts: Seq<ProviderAccountRuntimeState>,
    provider: ProviderId,
    k: int,
)
    requires
        0 <= k < accounts.len(),
    ensures
        account_positions(accounts.take(k + 1), provider) == if accounts[k].provider == provider {
            account_positions(accounts.take(k), provider).push(k)
        } else {
            account_positions(accounts.take(k), provider)
        },
{
    assert(accounts.take(k + 1).drop_last() =~= accounts.take(k));
}

/// Every listed position is a valid account of `provider`, listed in
/// increasing order, and every account of `provider` is listed.
pub proof fn lemma_account_positions_exact(
    accounts: Seq<ProviderAccountRuntimeState>,
    provider: ProviderId,
)
    ensures
        forall|i: int|
            0 <= i < account_positions(accounts, provider).len() ==> 0
                <= #[trigger] account_positions(accounts, provider)[i] < accounts.len()
                && accounts[account_positions(accounts, provider)[i]].provider == provider,
        forall|i: int, j: int|
            0 <= i < j < account_positions(accounts, provider).len() ==> account_positions(
                accounts,
                provider,
            )[i] < account_positions(accounts, provider)[j],
        forall|p: int|
            0 <= p < accounts.len() && accounts[p].provider == provider ==> account_positions(
                accounts,
                provider,
            ).contains(p),
        account_positions(accounts, provider).len() == 0 <==> !has_account(accounts, provider),
    decreases accounts.len(),
{
    if accounts.len() > 0 {
        let rest = accounts.drop_last();
        lemma_account_positions_exact(rest, provider);
        let ps = account_positions(accounts, provider);
        let rs = account_positions(rest, provider);
        assert forall|p: int|
            0 <= p < accounts.len() && accounts[p].provider == provider implies ps.contains(p) by {
            if p < accounts.len() - 1 {
                assert(rest[p] == accounts[p]);
                assert(rs.contains(p));
                let j = choose|j: int| 0 <= j < rs.len() && rs[j] == p;
                if accounts.last().provider == provider {
                    assert(ps =~= rs.push(accounts.len() - 1));
                } else {
                    assert(ps =~= rs);
                }
                assert(ps[j] == p);
            } else {
                assert(ps[ps.len() - 1] == p);
            }
        }
        if !has_account(accounts, provider) {
            assert(!has_account(rest, provider)) by {
                if has_account(rest, provider) {
                    let i = choose|i: int| 0 <= i < rest.len() && rest[i].provider == provider;
                    assert(accounts[i] == rest[i]);
                }
            }
        } else {
            let i = choose|i: int| 0 <= i < accounts.len() && accounts[i].provider == provider;
            assert(ps.contains(i));
        }
    }
}

/// Whether a provider is switched on and has not been used yet: no account,
/// no selection, no refresh, no usage and no error, and a sign-in needed.
pub open spec fn is_fresh_provider(p: ProviderRuntimeState) -> bool {
    &&& p.enabled
    &&& p.selected_account_ids@.len() == 0
    &&& p.active_account_id is None
    &&& p.system_active_account_id is None
    &&& p.account_status == AccountSelectionStatus::LoginRequired
    &&& !p.is_refreshing
    &&& p.refresh_started_at is None
    &&& p.legacy_display_snapshot is None
    &&& p.error is None
}

/// Everything the popup reads of the application.
#[derive(Clone, Debug)]
pub struct AppState {
    pub providers: Vec<ProviderRuntimeState>,
    pub provider_accounts: Vec<ProviderAccountRuntimeState>,
}

impl AppState {
    /// Every provider, switched on, with no accounts.
    pub fn empty() -> (r: Self)
        ensures
            r.providers@.len() == all_providers().len(),
            forall|i: int|
                0 <= i < r.providers@.len() ==> #[trigger] r.providers@[i].provider == all_providers()[i]
                    && is_fresh_provider(r.providers@[i]),
            r.provider_accounts@.len() == 0,
    {
        let ids = ProviderId::all();
        let mut providers: Vec<ProviderRuntimeState> = Vec::new();
        let n = ids.len();
        for k in 0..n
            invariant
                n == ids@.len(),
                ids@ == all_providers(),
                providers@.len() == k,
                forall|i: int|
                    0 <= i < k ==> #[trigger] providers@[i].provider == all_providers()[i]
                        && is_fresh_provider(providers@[i]),
        {
            providers.push(ProviderRuntimeState::new(ids[k], true));
        }
        AppState { providers, provider_accounts: Vec::new() }
    }

    /// The state of `provider`, to change it in place.
    pub fn provider_mut(&mut self, provider: ProviderId) -> (r: Option<&mut ProviderRuntimeState>)
        ensures
            match first_position_of(old(self).providers@, provider) {
                None => r is None && *final(self) == *old(self),
                Some(i) => r is Some && *r.unwrap() == old(self).providers@[i]
                    && final(self).providers@ == old(self).providers@.update(i, *final(r.unwrap()))
                    && final(self).provider_accounts == old(self).provider_accounts,
            },
    {
        let n = self.providers.len();
        let mut k: usize = 0;
        while k < n
            invariant
                n == self.providers@.len(),
                k <= n,
                *self == *old(self),
                forall|j: int| 0 <= j < k ==> self.providers@[j].provider != provider,
            decreases n - k,
        {
            if self.providers[k].provider == provider {
                return Some(&mut self.providers[k]);
            }
            k = k + 1;
        }
        assert(first_position_of(self.providers@, provider) is None);
        None
    }

    /// The positions in `provider_accounts` of the accounts of `provider`.
    pub fn account_positions_for(&self, provider: ProviderId) -> (r: Vec<usize>)
        ensures
            r@.len() == account_positions(self.provider_accounts@, provider).len(),
            forall|i: int|
                0 <= i < r@.len() ==> #[trigger] r@[i] as int == account_positions(
                    self.provider_accounts@,
                    provider,
                )[i],
    {
        let ghost accounts = self.provider_accounts@;
        let n = self.provider_accounts.len();
        let mut r: Vec<usize> = Vec::new();
        for k in 0..n
            invariant
                n == accounts.len(),
                accounts == self.provider_accounts@,
                r@.len() == account_positions(accounts.take(k as int), provider).len(),
                forall|i: int|
                    0 <= i < r@.len() ==> #[trigger] r@[i] as int == account_positions(
                        accounts.take(k as int),
                        provider,
                    )[i],
        {
            proof {
                lemma_account_positions_step(accounts, provider, k as int);
            }
            if self.provider_accounts[k].provider == provider {
                r.push(k);
            }
        }
        assert(accounts.take(n as int) =~= accounts);
        r
    }

    /// The accounts of `provider`, in the order they were added.
    pub fn accounts_for(&self, provider: ProviderId) -> (r: Vec<&ProviderAccountRuntimeState>)
        ensures
            r@.len() == account_positions(self.provider_accounts@, provider).len(),
            forall|i: int|
                0 <= i < r@.len() ==> *#[trigger] r@[i] == self.provider_accounts@[account_positions(
                    self.provider_accounts@,
                    provider,
                )[i]],
    {
        let positions = self.account_positions_for(provider);
        proof {
            lemma_account_positions_exact(self.provider_accounts@, provider);
        }
        let mut r: Vec<&ProviderAccountRuntimeState> = Vec::new();
        let n = positions.len();
        for k in 0..n
            invariant
                n == positions@.len(),
                positions@.len() == account_positions(self.provider_accounts@, provider).len(),
                forall|i: int|
                    0 <= i < positions@.len() ==> #[trigger] positions@[i] as int
                        == account_positions(self.provider_accounts@, provider)[i],
                forall|i: int|
                    0 <= i < account_positions(self.provider_accounts@, provider).len() ==> 0
                        <= #[trigger] account_positions(self.provider_accounts@, provider)[i]
                        < self.provider_accounts@.len(),
                r@.len() == k,
                forall|i: int|
                    0 <= i < k ==> *#[trigger] r@[i] == self.provider_accounts@[account_positions(
                        self.provider_accounts@,
                        provider,
                    )[i]],
        {
            let p = positions[k];
            r.push(&self.provider_accounts[p]);
        }
        r
    }

    /// Whether some account belongs to `provider`.
    pub fn has_accounts_for(&self, provider: ProviderId) -> (r: bool)
        ensures
            r == has_account(self.provider_accounts@, provider),
    {
        let n = self.provider_accounts.len();
        for k in 0..n
            invariant
                n == self.provider_accounts@.len(),
                forall|j: int| 0 <= j < k ==> self.provider_accounts@[j].provider != provider,
        {
            if self.provider_accounts[k].provider == provider {
                return true;
            }
        }
        false
    }
}


/// Which providers were found installed on this machine.
#[derive(Clone, Debug)]
pub struct DetectionSnapshot {
    pub detected_providers: Vec<ProviderId>,
}

impl DetectionSnapshot {
    /// A snapshot in which exactly `detected_providers` were found.
    pub fn new(detected_providers: Vec<ProviderId>) -> (r: Self)
        ensures
            r.detected_providers@ == detected_providers@,
    {
        DetectionSnapshot { detected_providers }
    }

    /// Whether `provider` was found on this machine.
    pub fn detected(&self, provider: ProviderId) -> (r: bool)
        ensures
            r == self.detected_providers@.contains(provider),
    {
        let n = self.detected_providers.len();
        for k in 0..n
            invariant
                n == self.detected_providers@.len(),
                forall|j: int| 0 <= j < k ==> self.detected_providers@[j] != provider,
        {
            if self.detected_providers[k] == provider {
                return true;
            }
        }
        false
    }
}

/// What the updater knows about newer releases.
#[derive(Clone, Debug)]
pub enum UpdateStatus {
    Idle,
    Checking,
    UpToDate,
    UpdateAvailable { version: String },
    Failed { reason: String },
}

} // verus!
