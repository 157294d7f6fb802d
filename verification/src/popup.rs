use crate::detail::{is_detail_view_for, selected_provider_view, ProviderDetailView};
use crate::model::{
    enabled_providers, has_account, AppState, DetectionSnapshot, ProviderId,
    ProviderRuntimeState, UpdateStatus,
};
use crate::paging::{
    clamped_viewport_offset, max_viewport_offset, provider_viewport,
    provider_viewport_max_offset, provider_viewport_navigation_visible, provider_viewport_portions,
    viewport_end, viewport_portions, PROVIDER_VIEWPORT_SIZE,
};
use crate::text::{decimal_text, is_blank, is_blank_text, is_white_space, push_decimal};
use vstd::prelude::*;

verus! {

/// The page the popup shows.
#[derive(Clone, Copy, Debug, PartialEq, Eq, Structural)]
pub enum PopupRoute {
    ProviderDetail,
    Settings,
    ManageProviders,
    ManageAccounts(ProviderId),
    About,
}

/// What the provider page is pointed at: the provider tab, the account page
/// within it, and the first tab of the tab strip.
#[derive(Clone, Copy, Debug, PartialEq, Eq, Structural)]
pub struct DetailSelection {
    pub provider: ProviderId,
    pub account_page: usize,
    pub provider_viewport_offset: usize,
}

/// Where a sign-in or scan flow of a provider stands.
#[derive(Clone, Copy, Debug, PartialEq, Eq, Structural)]
pub enum LoginFlowState {
    Idle,
    InProgress,
    Succeeded,
    Failed,
}

/// The sign-in flows of the providers that have one, handed to the account
/// settings pages.
#[derive(Clone, Copy)]
pub struct ProviderLoginStates<'a> {
    pub codex: Option<&'a LoginFlowState>,
    pub claude: Option<&'a LoginFlowState>,
    pub cursor_scan: &'a LoginFlowState,
    pub gemini: Option<&'a LoginFlowState>,
    pub copilot: Option<&'a LoginFlowState>,
    pub minimax: Option<&'a LoginFlowState>,
    pub kimi: Option<&'a LoginFlowState>,
    pub antigravity: Option<&'a LoginFlowState>,
    pub opencode_go: Option<&'a LoginFlowState>,
    pub grok: Option<&'a LoginFlowState>,
    pub zai: Option<&'a LoginFlowState>,
}

/// Whether the popup body scrolls: every page but the settings and about
/// pages.
pub fn popup_body_is_scrollable(route: &PopupRoute) -> (r: bool)
    ensures
        r == !(*route is Settings || *route is About),
{
    !matches!(route, PopupRoute::Settings | PopupRoute::About)
}

/// Whether the popup shows its empty state: no provider is switched on.
pub fn popup_empty_state_active(state: &AppState) -> (r: bool)
    ensures
        r == (forall|i: int| 0 <= i < state.providers@.len() ==> !#[trigger] state.providers@[i].enabled),
{
    let n = state.providers.len();
    for k in 0..n
        invariant
            n == state.providers@.len(),
            forall|i: int| 0 <= i < k ==> !#[trigger] state.providers@[i].enabled,
    {
        if state.providers[k].enabled {
            return false;
        }
    }
    true
}

/// Whether a provider was found on this machine but has no account yet,
/// whether or not it is switched on.
pub fn detected_without_accounts(
    state: &AppState,
    detection: &DetectionSnapshot,
    provider: ProviderId,
) -> (r: bool)
    ensures
        r == (detection.detected_providers@.contains(provider) && !has_account(
            state.provider_accounts@,
            provider,
        )),
{
    detection.detected(provider) && !state.has_accounts_for(provider)
}

/// Over a prefix of the providers, the switched-on list grows by the next
/// provider exactly when it is switched on.
pub proof fn lemma_enabled_providers_step(providers: Seq<ProviderRuntimeState>, k: int)
    requires
        0 <= k < providers.len(),
    ensures
        enabled_providers(providers.take(k + 1)) == if providers[k].enabled {
            enabled_providers(providers.take(k)).push(providers[k].provider)
        } else {
            enabled_providers(providers.take(k))
        },
{
    assert(providers.take(k + 1).drop_last() =~= providers.take(k));
}

/// No provider is switched on exactly when the list of switched-on providers
/// is empty.
pub proof fn lemma_no_enabled_provider(providers: Seq<ProviderRuntimeState>)
    ensures
        (enabled_providers(providers).len() == 0) == (forall|i: int|
            0 <= i < providers.len() ==> !#[trigger] providers[i].enabled),
    decreases providers.len(),
{
    if providers.len() > 0 {
        let rest = providers.drop_last();
        lemma_no_enabled_provider(rest);
        if enabled_providers(providers).len() == 0 {
            assert forall|i: int| 0 <= i < providers.len() implies !#[trigger] providers[i].enabled by {
                if i < providers.len() - 1 {
                    assert(rest[i] == providers[i]);
                }
            }
        }
        if forall|i: int| 0 <= i < providers.len() ==> !#[trigger] providers[i].enabled {
            assert(forall|i: int| 0 <= i < rest.len() ==> rest[i] == providers[i]);
            assert(!providers[providers.len() - 1].enabled);
        }
    }
}

/// The switched-on providers, in tab order.
pub fn enabled_provider_ids(state: &AppState) -> (r: Vec<ProviderId>)
    ensures
        r@ == enabled_providers(state.providers@),
{
    let ghost ps = state.providers@;
    let n = state.providers.len();
    let mut r: Vec<ProviderId> = Vec::new();
    for k in 0..n
        invariant
            n == ps.len(),
            ps == state.providers@,
            r@ == enabled_providers(ps.take(k as int)),
    {
        proof {
            lemma_enabled_providers_step(ps, k as int);
        }
        if state.providers[k].enabled {
            r.push(state.providers[k].provider);
        }
    }
    assert(ps.take(n as int) =~= ps);
    r
}

/// How many providers are switched on.
pub fn enabled_provider_count(state: &AppState) -> (r: usize)
    ensures
        r == enabled_providers(state.providers@).len(),
{
    let ghost ps = state.providers@;
    let n = state.providers.len();
    let mut count: usize = 0;
    for k in 0..n
        invariant
            n == ps.len(),
            ps == state.providers@,
            count == enabled_providers(ps.take(k as int)).len(),
            count <= k,
    {
        proof {
            lemma_enabled_providers_step(ps, k as int);
        }
        if state.providers[k].enabled {
            count = count + 1;
        }
    }
    assert(ps.take(n as int) =~= ps);
    count
}

/// The largest first tab index of the tab strip for the switched-on providers.
pub fn provider_viewport_max_offset_for(state: &AppState) -> (r: usize)
    ensures
        r == max_viewport_offset(enabled_providers(state.providers@).len() as int),
{
    provider_viewport_max_offset(enabled_provider_count(state))
}

/// Whether the updater found a newer release.
pub fn update_available(update_status: &UpdateStatus) -> (r: bool)
    ensures
        r == (*update_status is UpdateAvailable),
{
    matches!(update_status, UpdateStatus::UpdateAvailable { .. })
}

/// Whether position `i` holds the requested provider, switched on.
pub open spec fn is_selected_at(providers: Seq<ProviderRuntimeState>, selected: ProviderId, i: int) -> bool {
    providers[i].provider == selected && providers[i].enabled
}

/// The first position from `k` on that holds the requested provider,
/// switched on.
pub open spec fn first_selected_from(providers: Seq<ProviderRuntimeState>, selected: ProviderId, k: int) -> Option<int>
    decreases providers.len() - k,
{
    if k < 0 || k >= providers.len() {
        None
    } else if is_selected_at(providers, selected, k) {
        Some(k)
    } else {
        first_selected_from(providers, selected, k + 1)
    }
}

/// The first position from `k` on that holds a switched-on provider.
pub open spec fn first_enabled_from(providers: Seq<ProviderRuntimeState>, k: int) -> Option<int>
    decreases providers.len() - k,
{
    if k < 0 || k >= providers.len() {
        None
    } else if providers[k].enabled {
        Some(k)
    } else {
        first_enabled_from(providers, k + 1)
    }
}

/// The position of the provider the detail page shows: the requested
/// provider if it is switched on, else the first switched-on provider, else
/// none.
pub open spec fn selected_position(providers: Seq<ProviderRuntimeState>, selected: ProviderId) -> Option<int> {
    match first_selected_from(providers, selected, 0) {
        Some(i) => Some(i),
        None => first_enabled_from(providers, 0),
    }
}

/// The first match from `k` on is a match with none before it; with no match,
/// there is none from `k` on.
pub proof fn lemma_first_selected_from(providers: Seq<ProviderRuntimeState>, selected: ProviderId, k: int)
    requires
        0 <= k <= providers.len(),
    ensures
        match first_selected_from(providers, selected, k) {
            Some(i) => k <= i < providers.len() && is_selected_at(providers, selected, i) && forall|j: int|
                k <= j < i ==> !is_selected_at(providers, selected, j),
            None => forall|j: int| k <= j < providers.len() ==> !is_selected_at(providers, selected, j),
        },
    decreases providers.len() - k,
{
    if k < providers.len() {
        lemma_first_selected_from(providers, selected, k + 1);
    }
}

/// The first switched-on provider from `k` on has none switched on before it;
/// with none, no provider from `k` on is switched on.
pub proof fn lemma_first_enabled_from(providers: Seq<ProviderRuntimeState>, k: int)
    requires
        0 <= k <= providers.len(),
    ensures
        match first_enabled_from(providers, k) {
            Some(i) => k <= i < providers.len() && providers[i].enabled && forall|j: int|
                k <= j < i ==> !providers[j].enabled,
            None => forall|j: int| k <= j < providers.len() ==> !providers[j].enabled,
        },
    decreases providers.len() - k,
{
    if k < providers.len() {
        lemma_first_enabled_from(providers, k + 1);
    }
}

/// The shown position, when there is one, is a switched-on provider.
pub proof fn lemma_selected_position_valid(providers: Seq<ProviderRuntimeState>, selected: ProviderId)
    ensures
        selected_position(providers, selected) matches Some(i) ==> 0 <= i < providers.len()
            && providers[i].enabled,
        selected_position(providers, selected) is None ==> forall|j: int|
            0 <= j < providers.len() ==> !#[trigger] providers[j].enabled,
{
    lemma_first_selected_from(providers, selected, 0);
    lemma_first_enabled_from(providers, 0);
}

/// The provider page shows the requested provider whenever it is switched
/// on; otherwise it shows the first switched-on provider; and it shows none
/// only when no provider is switched on.
pub proof fn lemma_shows_requested_or_first_enabled(
    providers: Seq<ProviderRuntimeState>,
    selected: ProviderId,
)
    ensures
        (exists|j: int|
            0 <= j < providers.len() && #[trigger] providers[j].provider == selected
                && providers[j].enabled) ==> (selected_position(providers, selected) matches Some(
            i,
        ) && 0 <= i < providers.len() && providers[i].provider == selected && providers[i].enabled),
        !(exists|j: int|
            0 <= j < providers.len() && #[trigger] providers[j].provider == selected
                && providers[j].enabled) ==> match selected_position(providers, selected) {
            Some(i) => 0 <= i < providers.len() && providers[i].enabled && forall|j: int|
                0 <= j < i ==> !#[trigger] providers[j].enabled,
            None => forall|j: int| 0 <= j < providers.len() ==> !#[trigger] providers[j].enabled,
        },
{
    lemma_first_selected_from(providers, selected, 0);
    lemma_first_enabled_from(providers, 0);
    if exists|j: int|
        0 <= j < providers.len() && #[trigger] providers[j].provider == selected
            && providers[j].enabled {
        let j = choose|j: int|
            0 <= j < providers.len() && #[trigger] providers[j].provider == selected
                && providers[j].enabled;
        assert(is_selected_at(providers, selected, j));
    } else {
        assert forall|j: int| 0 <= j < providers.len() implies !is_selected_at(
            providers,
            selected,
            j,
        ) by {
            if is_selected_at(providers, selected, j) {
                assert(providers[j].provider == selected && providers[j].enabled);
            }
        }
    }
}

/// A match with no match before it is the first match.
proof fn lemma_first_selected_from_equal(providers: Seq<ProviderRuntimeState>, selected: ProviderId, k: int, i: int)
    requires
        0 <= k <= i < providers.len(),
        is_selected_at(providers, selected, i),
        forall|j: int| 0 <= j < i ==> !is_selected_at(providers, selected, j),
    ensures
        first_selected_from(providers, selected, k) == Some(i),
    decreases i - k,
{
    if k < i {
        lemma_first_selected_from_equal(providers, selected, k + 1, i);
    }
}

/// With no match anywhere there is no first match.
proof fn lemma_first_selected_none(providers: Seq<ProviderRuntimeState>, selected: ProviderId)
    requires
        forall|j: int| 0 <= j < providers.len() ==> !is_selected_at(providers, selected, j),
    ensures
        first_selected_from(providers, selected, 0) is None,
{
    lemma_first_selected_from(providers, selected, 0);
}

/// A switched-on provider with none switched on before it is the first one.
proof fn lemma_first_enabled_equal(providers: Seq<ProviderRuntimeState>, k: int, i: int)
    requires
        0 <= k <= i < providers.len(),
        providers[i].enabled,
        forall|j: int| 0 <= j < i ==> !providers[j].enabled,
    ensures
        first_enabled_from(providers, k) == Some(i),
    decreases i - k,
{
    if k < i {
        lemma_first_enabled_equal(providers, k + 1, i);
    }
}

/// With no provider switched on there is no first one.
proof fn lemma_first_enabled_none(providers: Seq<ProviderRuntimeState>)
    requires
        forall|j: int| 0 <= j < providers.len() ==> !providers[j].enabled,
    ensures
        first_enabled_from(providers, 0) is None,
{
    lemma_first_enabled_from(providers, 0);
}

/// The position of the provider the detail page shows.
pub fn selected_state_position(state: &AppState, selected_provider: ProviderId) -> (r: Option<usize>)
    ensures
        match r {
            Some(i) => selected_position(state.providers@, selected_provider) == Some(i as int),
            None => selected_position(state.providers@, selected_provider) is None,
        },
{
    let ghost ps = state.providers@;
    let n = state.providers.len();
    let mut k: usize = 0;
    while k < n
        invariant
            n == ps.len(),
            ps == state.providers@,
            k <= n,
            forall|j: int| 0 <= j < k ==> !is_selected_at(ps, selected_provider, j),
        decreases n - k,
    {
        if state.providers[k].provider == selected_provider && state.providers[k].enabled {
            assert(is_selected_at(ps, selected_provider, k as int));
            proof {
                lemma_first_selected_from(ps, selected_provider, 0);
                lemma_first_selected_from_equal(ps, selected_provider, 0, k as int);
            }
            return Some(k);
        }
        k = k + 1;
    }
    proof {
        lemma_first_selected_from(ps, selected_provider, 0);
        lemma_first_selected_none(ps, selected_provider);
    }
    let mut k: usize = 0;
    while k < n
        invariant
            n == ps.len(),
            ps == state.providers@,
            k <= n,
            forall|j: int| 0 <= j < n ==> !is_selected_at(ps, selected_provider, j),
            first_selected_from(ps, selected_provider, 0) is None,
            forall|j: int| 0 <= j < k ==> !ps[j].enabled,
        decreases n - k,
    {
        if state.providers[k].enabled {
            proof {
                lemma_first_enabled_equal(ps, 0, k as int);
            }
            return Some(k);
        }
        k = k + 1;
    }
    proof {
        lemma_first_enabled_none(ps);
    }
    None
}

/// The provider the detail page shows: the requested provider if it is
/// switched on, else the first switched-on provider.
pub fn selected_state(state: &AppState, selected_provider: ProviderId) -> (r: Option<&ProviderRuntimeState>)
    ensures
        match selected_position(state.providers@, selected_provider) {
            Some(i) => r is Some && *r.unwrap() == state.providers@[i],
            None => r is None,
        },
{
    proof {
        lemma_selected_position_valid(state.providers@, selected_provider);
    }
    match selected_state_position(state, selected_provider) {
        Some(i) => Some(&state.providers[i]),
        None => None,
    }
}

/// A provider is shown exactly when the popup is not in its empty state, and
/// it is always a switched-on provider.
pub proof fn lemma_selection_matches_empty_state(
    providers: Seq<ProviderRuntimeState>,
    selected: ProviderId,
)
    ensures
        (selected_position(providers, selected) is None) == (enabled_providers(providers).len()
            == 0),
        selected_position(providers, selected) matches Some(i) ==> 0 <= i < providers.len()
            && providers[i].enabled,
{
    lemma_no_enabled_provider(providers);
    lemma_selected_position_valid(providers, selected);
}


/// The number shown for the account at `page` when it has no name: its
/// one-based position, capped at the largest `i64`.
pub open spec fn pager_number(page: int) -> int {
    if page + 1 <= i64::MAX {
        page + 1
    } else {
        i64::MAX as int
    }
}

/// The name the account pager shows for the account at `page`: its label,
/// or "Account n" when the label is blank.
pub open spec fn pager_label_text(page: int, label: Seq<char>) -> Seq<char> {
    if is_blank_text(label) {
        "Account "@ + decimal_text(pager_number(page) as nat)
    } else {
        label
    }
}

/// The name the account pager shows for the account at `page`.
pub fn pager_account_label(page: usize, label: &str) -> (r: String)
    requires
        page < usize::MAX,
    ensures
        r@ == pager_label_text(page as int, label@),
{
    if is_blank(label) {
        let number: u64 = if page as u128 + 1 <= i64::MAX as u128 {
            (page + 1) as u64
        } else {
            i64::MAX as u64
        };
        let mut name = String::from_str("Account ");
        push_decimal(&mut name, number);
        name
    } else {
        String::from_str(label)
    }
}


/// The account pager names an account by its label whenever the label holds
/// anything but white space, and otherwise by its place, counted from one:
/// "Account 1" for the first page.
pub proof fn lemma_pager_names_account(page: int, label: Seq<char>)
    requires
        0 <= page < i64::MAX,
    ensures
        (exists|i: int| 0 <= i < label.len() && !is_white_space(#[trigger] label[i]))
            ==> pager_label_text(page, label) == label,
        (forall|i: int| 0 <= i < label.len() ==> is_white_space(#[trigger] label[i]))
            ==> pager_label_text(page, label) == "Account "@ + decimal_text((page + 1) as nat),
{
}

/// How a button is being interacted with.
#[derive(Clone, Copy, Debug, PartialEq, Eq, Structural)]
pub struct ButtonInteraction {
    pub focused: bool,
    pub hovered: bool,
    pub pressed: bool,
}

impl ButtonInteraction {
    /// A button the pointer is not on.
    pub fn idle(focused: bool) -> (r: Self)
        ensures
            r == (ButtonInteraction { focused, hovered: false, pressed: false }),
    {
        ButtonInteraction { focused, hovered: false, pressed: false }
    }

    /// A button under the pointer.
    pub fn hover(focused: bool) -> (r: Self)
        ensures
            r == (ButtonInteraction { focused, hovered: true, pressed: false }),
    {
        ButtonInteraction { focused, hovered: true, pressed: false }
    }

    /// A button being pressed.
    pub fn press(focused: bool) -> (r: Self)
        ensures
            r == (ButtonInteraction { focused, hovered: true, pressed: true }),
    {
        ButtonInteraction { focused, hovered: true, pressed: true }
    }
}

/// The background of a provider tab.
#[derive(Clone, Copy, Debug, PartialEq, Eq, Structural)]
pub enum TabFill {
    /// The divider colour: a tab being pressed.
    Divider,
    /// The soft selection colour: the selected tab.
    Selection,
    /// The hover colour: a tab under the pointer.
    Hover,
}

/// How a provider tab looks: its background, if any, and whether it is
/// outlined.
#[derive(Clone, Copy, Debug, PartialEq, Eq, Structural)]
pub struct TabLook {
    pub fill: Option<TabFill>,
    pub outline: bool,
}

/// How a provider tab looks: pressed tabs take the divider colour, the
/// selected tab the selection colour, a hovered tab the hover colour; only
/// the selected tab, when focused, is outlined.
pub open spec fn tab_look(selected: bool, interaction: ButtonInteraction) -> TabLook {
    TabLook {
        fill: if interaction.pressed {
            Some(TabFill::Divider)
        } else if selected {
            Some(TabFill::Selection)
        } else if interaction.hovered {
            Some(TabFill::Hover)
        } else {
            None
        },
        outline: interaction.focused && selected,
    }
}

/// A pressed tab always takes the divider colour; otherwise the selected tab
/// keeps the selection colour whether hovered or not, and another tab has
/// the hover colour exactly while hovered. Only the selected tab, and only
/// while focused, is outlined.
pub proof fn lemma_tab_look(selected: bool, interaction: ButtonInteraction)
    ensures
        interaction.pressed ==> tab_look(selected, interaction).fill == Some(TabFill::Divider),
        !interaction.pressed && selected ==> tab_look(selected, interaction).fill == Some(
            TabFill::Selection,
        ),
        !interaction.pressed && !selected ==> (tab_look(selected, interaction).fill is Some
            <==> interaction.hovered),
        !interaction.pressed && !selected && interaction.hovered ==> tab_look(
            selected,
            interaction,
        ).fill == Some(TabFill::Hover),
        tab_look(selected, interaction).outline <==> selected && interaction.focused,
{
}

/// How a provider tab looks.
pub fn tab_button_style(selected: bool, interaction: ButtonInteraction) -> (r: TabLook)
    ensures
        r == tab_look(selected, interaction),
{
    let fill = if selected {
        if interaction.pressed {
            Some(TabFill::Divider)
        } else {
            Some(TabFill::Selection)
        }
    } else if interaction.pressed {
        Some(TabFill::Divider)
    } else if interaction.hovered {
        Some(TabFill::Hover)
    } else {
        None
    };
    TabLook { fill, outline: interaction.focused && selected }
}

/// One tab of the provider strip.
#[derive(Clone, Copy, Debug, PartialEq, Eq, Structural)]
pub struct ProviderTab {
    pub provider: ProviderId,
    pub selected: bool,
}

/// The paging arrows of the provider strip, and whether each can be used.
#[derive(Clone, Copy, Debug, PartialEq, Eq, Structural)]
pub struct ViewportNavigation {
    pub previous_enabled: bool,
    pub next_enabled: bool,
}

/// The provider strip: the tabs shown, the width shares of side spacers and
/// tabs, how many single-share spacers fill the end of a short strip, and the
/// paging arrows when there are more providers than fit.
#[derive(Debug)]
pub struct ProviderTabRows {
    pub offset: usize,
    pub tabs: Vec<ProviderTab>,
    pub side_portion: u16,
    pub provider_portion: u16,
    pub trailing_spacers: usize,
    pub navigation: Option<ViewportNavigation>,
}

/// The tab for `provider`, selected when it is the selected provider.
pub open spec fn tab_of(provider: ProviderId, selected: ProviderId) -> ProviderTab {
    ProviderTab { provider, selected: provider == selected }
}

/// Whether `r` is the provider strip for the providers `providers`, the
/// selected provider and the requested first tab.
pub open spec fn is_tab_rows_for(
    r: ProviderTabRows,
    providers: Seq<ProviderRuntimeState>,
    selected_provider: ProviderId,
    offset: int,
) -> bool {
    let ids = enabled_providers(providers);
    let n = ids.len() as int;
    let start = clamped_viewport_offset(offset, n);
    let shown = ids.subrange(start, viewport_end(offset, n));
    &&& r.offset == start
    &&& r.tabs@ == shown.map_values(|p: ProviderId| tab_of(p, selected_provider))
    &&& r.side_portion == viewport_portions(n).0
    &&& r.provider_portion == viewport_portions(n).1
    &&& r.trailing_spacers == if viewport_portions(n).0 > 0 {
        0
    } else {
        PROVIDER_VIEWPORT_SIZE - shown.len()
    }
    &&& r.navigation == if n > PROVIDER_VIEWPORT_SIZE {
        Some(
            ViewportNavigation {
                previous_enabled: start != 0,
                next_enabled: start < max_viewport_offset(n),
            },
        )
    } else {
        None
    }
}

/// The provider strip for the switched-on providers, the selected provider
/// and the requested first tab.
pub fn provider_tab_rows(state: &AppState, selected_provider: ProviderId, offset: usize) -> (r: ProviderTabRows)
    ensures
        is_tab_rows_for(r, state.providers@, selected_provider, offset as int),
{
    let providers = enabled_provider_ids(state);
    let n = providers.len();
    let max = provider_viewport_max_offset(n);
    let offset = if offset < max {
        offset
    } else {
        max
    };
    let visible = provider_viewport(providers.as_slice(), offset);
    let (side_portion, provider_portion) = provider_viewport_portions(n);
    let mut tabs: Vec<ProviderTab> = Vec::new();
    let m = visible.len();
    for k in 0..m
        invariant
            m == visible@.len(),
            tabs@ == visible@.take(k as int).map_values(|p: ProviderId| tab_of(p, selected_provider)),
    {
        let p = visible[k];
        tabs.push(ProviderTab { provider: p, selected: p == selected_provider });
        assert(visible@.take(k + 1) =~= visible@.take(k as int).push(p));
        assert(tabs@ =~= visible@.take(k + 1).map_values(|p: ProviderId| tab_of(p, selected_provider)));
    }
    assert(visible@.take(m as int) =~= visible@);
    let trailing_spacers = if side_portion > 0 {
        0
    } else {
        PROVIDER_VIEWPORT_SIZE - m
    };
    let navigation = if provider_viewport_navigation_visible(n) {
        Some(ViewportNavigation { previous_enabled: offset != 0, next_enabled: !(offset >= max) })
    } else {
        None
    };
    ProviderTabRows { offset, tabs, side_portion, provider_portion, trailing_spacers, navigation }
}

/// The provider strip always shows as many tabs as fit, or every switched-on
/// provider when fewer are on, and a strip that is full never needs filler
/// spacers.
pub proof fn lemma_tab_strip_is_filled(providers: Seq<ProviderRuntimeState>, offset: int)
    requires
        0 <= offset,
    ensures
        ({
            let n = enabled_providers(providers).len() as int;
            let shown = viewport_end(offset, n) - clamped_viewport_offset(offset, n);
            &&& shown == if n < PROVIDER_VIEWPORT_SIZE {
                n
            } else {
                PROVIDER_VIEWPORT_SIZE as int
            }
            &&& viewport_portions(n).0 == 0 ==> shown == PROVIDER_VIEWPORT_SIZE
        }),
{
}


/// The tabs of the strip are switched-on providers, in their order, one after
/// another from the first tab shown, and a tab is marked selected exactly
/// when it is the selected provider.
pub proof fn lemma_tabs_are_consecutive_enabled_providers(
    r: ProviderTabRows,
    providers: Seq<ProviderRuntimeState>,
    selected_provider: ProviderId,
    offset: int,
)
    requires
        0 <= offset,
        is_tab_rows_for(r, providers, selected_provider, offset),
    ensures
        r.offset + r.tabs@.len() <= enabled_providers(providers).len(),
        forall|k: int|
            0 <= k < r.tabs@.len() ==> (#[trigger] r.tabs@[k]).provider == enabled_providers(
                providers,
            )[r.offset + k] && (r.tabs@[k].selected <==> r.tabs@[k].provider == selected_provider),
{
}

/// The strip shows paging arrows exactly when more providers are switched on
/// than fit. The previous arrow works exactly when the first tab shown is not
/// the first provider, and the next arrow exactly when some switched-on
/// provider lies after the last tab shown, so every provider can be paged to.
pub proof fn lemma_tab_arrows_reach_every_provider(
    r: ProviderTabRows,
    providers: Seq<ProviderRuntimeState>,
    selected_provider: ProviderId,
    offset: int,
)
    requires
        0 <= offset,
        is_tab_rows_for(r, providers, selected_provider, offset),
    ensures
        ({
            let n = enabled_providers(providers).len();
            &&& (r.navigation is Some <==> n > PROVIDER_VIEWPORT_SIZE)
            &&& (r.navigation matches Some(nav) ==> {
                &&& (nav.previous_enabled <==> r.offset > 0)
                &&& (nav.next_enabled <==> r.offset + r.tabs@.len() < n)
            })
        }),
{
    let ids = enabled_providers(providers);
    let n = ids.len() as int;
    let start = clamped_viewport_offset(offset, n);
    let shown = ids.subrange(start, viewport_end(offset, n));
    assert(r.tabs@.len() == shown.len());
}

/// The header row of the popup.
#[derive(Clone, Copy, Debug, PartialEq, Eq, Structural)]
pub enum PopupHeader {
    /// A back button to the provider page, on every other page.
    Back,
    /// The about button (with a dot when an update is available), the
    /// provider and settings buttons, and a refresh button unless no
    /// provider is switched on.
    Main { about_dot: bool, refresh_button: bool },
}

/// The header row for a page.
pub open spec fn header_for(route: PopupRoute, empty_state: bool, update_status: UpdateStatus) -> PopupHeader {
    if !(route is ProviderDetail) {
        PopupHeader::Back
    } else {
        PopupHeader::Main {
            about_dot: update_status is UpdateAvailable,
            refresh_button: !empty_state,
        }
    }
}

/// Every page but the provider page has a back button alone. The provider
/// page's header marks the about button exactly when an update is available,
/// and offers a refresh exactly when some provider is switched on.
pub proof fn lemma_header_buttons(route: PopupRoute, empty_state: bool, update_status: UpdateStatus)
    ensures
        header_for(route, empty_state, update_status) == PopupHeader::Back <==> !(route is ProviderDetail),
        header_for(route, empty_state, update_status) matches PopupHeader::Main { about_dot, refresh_button }
            ==> (about_dot <==> update_status is UpdateAvailable) && (refresh_button <==> !empty_state),
{
}

/// The header row for a page.
pub fn popup_header(route: &PopupRoute, empty_state: bool, update_status: &UpdateStatus) -> (r: PopupHeader)
    ensures
        r == header_for(*route, empty_state, *update_status),
{
    if !matches!(route, PopupRoute::ProviderDetail) {
        return PopupHeader::Back;
    }
    PopupHeader::Main { about_dot: update_available(update_status), refresh_button: !empty_state }
}

/// The body of the popup.
#[derive(Debug)]
pub enum PopupBody {
    EmptyState,
    ProviderDetail(ProviderDetailView),
    Settings,
    ManageProviders,
    ManageAccounts(ProviderId),
    About,
}

/// The provider state at a position, if any.
pub open spec fn provider_at(providers: Seq<ProviderRuntimeState>, i: Option<int>) -> Option<ProviderRuntimeState> {
    match i {
        Some(i) => Some(providers[i]),
        None => None,
    }
}

/// Whether `r` is the body of the popup for the page, the application state,
/// the detected providers and the selection.
pub open spec fn is_body_for(
    r: PopupBody,
    route: PopupRoute,
    state: AppState,
    detected: Seq<ProviderId>,
    selection: DetailSelection,
) -> bool {
    let empty = forall|i: int| 0 <= i < state.providers@.len() ==> !#[trigger] state.providers@[i].enabled;
    match route {
        PopupRoute::ProviderDetail => if empty {
            r is EmptyState
        } else {
            &&& r matches PopupBody::ProviderDetail(view)
            &&& is_detail_view_for(
                view,
                provider_at(state.providers@, selected_position(state.providers@, selection.provider)),
                state.provider_accounts@,
                detected,
                selection.account_page as int,
            )
        },
        PopupRoute::Settings => r is Settings,
        PopupRoute::ManageProviders => r is ManageProviders,
        PopupRoute::ManageAccounts(id) => r == PopupBody::ManageAccounts(id),
        PopupRoute::About => r is About,
    }
}

/// The body of the popup for a page: the empty state when no provider is
/// switched on, else the page of the provider shown, or the other pages.
pub fn popup_body_view(
    state: &AppState,
    detection: &DetectionSnapshot,
    selection: DetailSelection,
    route: &PopupRoute,
) -> (r: PopupBody)
    ensures
        is_body_for(r, *route, *state, detection.detected_providers@, selection),
{
    match route {
        PopupRoute::ProviderDetail => {
            if popup_empty_state_active(state) {
                PopupBody::EmptyState
            } else {
                let shown = selected_state(state, selection.provider);
                PopupBody::ProviderDetail(
                    selected_provider_view(shown, state, detection, selection.account_page),
                )
            }
        },
        PopupRoute::Settings => PopupBody::Settings,
        PopupRoute::ManageProviders => PopupBody::ManageProviders,
        PopupRoute::ManageAccounts(id) => PopupBody::ManageAccounts(*id),
        PopupRoute::About => PopupBody::About,
    }
}

/// Everything the popup shows: the header, the provider strip (if any), the
/// body, whether the body scrolls, and the space between the top rows and
/// the body.
#[derive(Debug)]
pub struct PopupContent {
    pub header: PopupHeader,
    pub nav_row: Option<ProviderTabRows>,
    pub body: PopupBody,
    pub body_scrollable: bool,
    pub body_spacing: u16,
}

/// Everything the popup shows for a page. The provider strip appears on the
/// provider page when more than one provider is switched on; the body sits
/// closer to the top rows on the provider page.
pub fn popup_content(
    state: &AppState,
    detection: &DetectionSnapshot,
    selection: DetailSelection,
    route: &PopupRoute,
    update_status: &UpdateStatus,
) -> (r: PopupContent)
    ensures
        ({
            let empty = forall|i: int|
                0 <= i < state.providers@.len() ==> !#[trigger] state.providers@[i].enabled;
            &&& r.header == header_for(*route, empty, *update_status)
            &&& (r.nav_row is Some) == (*route is ProviderDetail && !empty && enabled_providers(
                state.providers@,
            ).len() > 1)
            &&& r.nav_row matches Some(rows) ==> is_tab_rows_for(
                rows,
                state.providers@,
                selection.provider,
                selection.provider_viewport_offset as int,
            )
            &&& is_body_for(r.body, *route, *state, detection.detected_providers@, selection)
            &&& r.body_scrollable == !(*route is Settings || *route is About)
            &&& r.body_spacing == if *route is ProviderDetail {
                6u16
            } else {
                14u16
            }
        }),
{
    let empty_state = popup_empty_state_active(state);
    let header = popup_header(route, empty_state, update_status);
    let nav_row = match route {
        PopupRoute::ProviderDetail => {
            if !empty_state && enabled_provider_count(state) > 1 {
                Some(
                    provider_tab_rows(
                        state,
                        selection.provider,
                        selection.provider_viewport_offset,
                    ),
                )
            } else {
                None
            }
        },
        _ => None,
    };
    let body = popup_body_view(state, detection, selection, route);
    let body_scrollable = popup_body_is_scrollable(route);
    let body_spacing: u16 = if matches!(route, PopupRoute::ProviderDetail) {
        6
    } else {
        14
    };
    PopupContent { header, nav_row, body, body_scrollable, body_spacing }
}

} // verus!
